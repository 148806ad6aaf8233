//! The versions that a registry publishes, and the aliases that point at them.

use vstd::prelude::*;
use crate::text::str_eq;
use crate::version::{InvalidVersion, Version, VersionView};

verus! {

/// An alias and the version it points at.
#[derive(Debug, PartialEq, Eq)]
pub struct Alias {
    pub name: String,
    pub version: Version,
}

/// Aliases by name. No name occurs twice.
#[derive(Debug, PartialEq, Eq)]
pub struct AliasTable {
    entries: Vec<Alias>,
}

/// Whether some entry carries `name`.
pub open spec fn names(entries: Seq<Alias>, name: Seq<char>) -> bool {
    exists|i: int| 0 <= i < entries.len() && #[trigger] entries[i].name@ == name
}

/// An entry that carries `name`.
pub open spec fn index_of(entries: Seq<Alias>, name: Seq<char>) -> int {
    choose|i: int| 0 <= i < entries.len() && #[trigger] entries[i].name@ == name
}

/// No name occurs twice.
pub open spec fn distinct(entries: Seq<Alias>) -> bool {
    forall|i: int, j: int|
        0 <= i < j < entries.len() ==> #[trigger] entries[i].name@ != #[trigger] entries[j].name@
}

/// The mapping that a list of entries with distinct names stands for.
pub open spec fn mapping(entries: Seq<Alias>) -> Map<Seq<char>, VersionView> {
    Map::new(
        |name: Seq<char>| names(entries, name),
        |name: Seq<char>| entries[index_of(entries, name)].version@,
    )
}

/// Among distinct names, the entry that carries a name is the only one.
pub proof fn lemma_index_unique(entries: Seq<Alias>, at: int)
    requires
        distinct(entries),
        0 <= at < entries.len(),
    ensures
        names(entries, entries[at].name@),
        index_of(entries, entries[at].name@) == at,
{
    let name = entries[at].name@;
    assert(entries[at].name@ == name);
    let found = index_of(entries, name);
    assert(0 <= found < entries.len() && entries[found].name@ == name);
    if found < at {
        assert(entries[found].name@ != entries[at].name@);
    } else if at < found {
        assert(entries[at].name@ != entries[found].name@);
    }
}

impl View for AliasTable {
    type V = Map<Seq<char>, VersionView>;

    closed spec fn view(&self) -> Map<Seq<char>, VersionView> {
        mapping(self.entries@)
    }
}

impl AliasTable {
    /// The table is well formed: no name occurs twice.
    pub closed spec fn wf(&self) -> bool {
        distinct(self.entries@)
    }

    /// The entries, in the order in which their names first came.
    pub closed spec fn listed(&self) -> Seq<Alias> {
        self.entries@
    }

    /// A table without aliases.
    pub fn new() -> (table: Self)
        ensures
            table.wf(),
            table@ == Map::<Seq<char>, VersionView>::empty(),
    {
        let table = AliasTable { entries: Vec::new() };
        assert(table@ =~= Map::<Seq<char>, VersionView>::empty());
        table
    }

    fn find(&self, name: &str) -> (at: Option<usize>)
        requires
            self.wf(),
        ensures
            match at {
                Some(at) => at < self.entries@.len() && self.entries@[at as int].name@ == name@
                    && index_of(self.entries@, name@) == at && names(self.entries@, name@),
                None => !names(self.entries@, name@),
            },
    {
        let mut i: usize = 0;
        while i < self.entries.len()
            invariant
                self.wf(),
                i <= self.entries@.len(),
                forall|k: int| 0 <= k < i ==> self.entries@[k].name@ != name@,
            decreases self.entries@.len() - i,
        {
            if str_eq(self.entries[i].name.as_str(), name) {
                proof {
                    lemma_index_unique(self.entries@, i as int);
                }
                return Some(i);
            }
            i += 1;
        }
        None
    }

    /// Whether the table holds the alias `name`.
    pub fn contains_key(&self, name: &str) -> (found: bool)
        requires
            self.wf(),
        ensures
            found == self@.contains_key(name@),
    {
        self.find(name).is_some()
    }

    /// The version that the alias `name` points at.
    pub fn get(&self, name: &str) -> (version: Option<&Version>)
        requires
            self.wf(),
        ensures
            match version {
                Some(version) => self@.contains_key(name@) && self@[name@] == version@,
                None => !self@.contains_key(name@),
            },
    {
        match self.find(name) {
            Some(at) => Some(&self.entries[at].version),
            None => None,
        }
    }

    /// Points the alias `name` at `version`, whether or not it was there.
    pub fn insert(&mut self, name: String, version: Version)
        requires
            old(self).wf(),
        ensures
            final(self).wf(),
            final(self)@ == old(self)@.insert(name@, version@),
    {
        let ghost before = self.entries@;
        match self.find(name.as_str()) {
            Some(at) => {
                self.entries.set(at, Alias { name, version });
                proof {
                    let after = self.entries@;
                    assert forall|i: int| 0 <= i < after.len() implies #[trigger] after[i].name@
                        == before[i].name@ by {}
                    assert forall|key: Seq<char>| names(after, key) == names(before, key) by {
                        if names(before, key) {
                            let i = index_of(before, key);
                            assert(after[i].name@ == key);
                        }
                        if names(after, key) {
                            let i = index_of(after, key);
                            assert(before[i].name@ == key);
                        }
                    }
                    assert forall|key: Seq<char>| names(after, key) implies #[trigger] mapping(
                        after,
                    )[key] == old(self)@.insert(name@, version@)[key] by {
                        let i = index_of(after, key);
                        assert(before[i].name@ == key);
                        lemma_index_unique(before, i);
                    }
                    assert(mapping(after) =~= old(self)@.insert(name@, version@));
                }
            },
            None => {
                self.entries.push(Alias { name, version });
                proof {
                    lemma_pushed(before, self.entries@[before.len() as int]);
                    assert(self.entries@ =~= before.push(self.entries@[before.len() as int]));
                }
            },
        }
    }

    /// Points the alias `name` at `version` unless the table holds it.
    pub fn insert_if_absent(&mut self, name: String, version: Version)
        requires
            old(self).wf(),
        ensures
            final(self).wf(),
            final(self)@ == add_if_absent(old(self)@, name@, version@),
    {
        let ghost before = self.entries@;
        if self.find(name.as_str()).is_none() {
            self.entries.push(Alias { name, version });
            proof {
                lemma_pushed(before, self.entries@[before.len() as int]);
                assert(self.entries@ =~= before.push(self.entries@[before.len() as int]));
            }
        }
    }

    /// The number of aliases.
    pub fn len(&self) -> (n: usize)
        ensures
            n == self.listed().len(),
    {
        self.entries.len()
    }

    /// The alias at position `at`, in the order in which the names first came.
    pub fn entry(&self, at: usize) -> (alias: &Alias)
        requires
            at < self.listed().len(),
        ensures
            *alias == self.listed()[at as int],
    {
        &self.entries[at]
    }

    /// Every listed entry is an alias of the table, and the other way round.
    pub proof fn lemma_listed(&self)
        requires
            self.wf(),
        ensures
            forall|i: int|
                0 <= i < self.listed().len() ==> self@.contains_key(
                    #[trigger] self.listed()[i].name@,
                ) && self@[self.listed()[i].name@] == self.listed()[i].version@,
            forall|name: Seq<char>|
                self@.contains_key(name) ==> exists|i: int|
                    0 <= i < self.listed().len() && #[trigger] self.listed()[i].name@ == name,
    {
        assert forall|i: int| 0 <= i < self.listed().len() implies self@.contains_key(
            #[trigger] self.listed()[i].name@,
        ) && self@[self.listed()[i].name@] == self.listed()[i].version@ by {
            lemma_index_unique(self.entries@, i);
        }
        assert forall|name: Seq<char>| self@.contains_key(name) implies exists|i: int|
            0 <= i < self.listed().len() && #[trigger] self.listed()[i].name@ == name by {
            let i = index_of(self.entries@, name);
            assert(self.listed()[i].name@ == name);
        }
    }
}

/// A mapping with `key` added unless it is there.
pub open spec fn add_if_absent(
    aliases: Map<Seq<char>, VersionView>,
    key: Seq<char>,
    version: VersionView,
) -> Map<Seq<char>, VersionView> {
    if aliases.contains_key(key) {
        aliases
    } else {
        aliases.insert(key, version)
    }
}

/// A new name at the end adds one alias to the mapping.
pub proof fn lemma_pushed(entries: Seq<Alias>, alias: Alias)
    requires
        distinct(entries),
        !names(entries, alias.name@),
    ensures
        distinct(entries.push(alias)),
        mapping(entries.push(alias)) == mapping(entries).insert(alias.name@, alias.version@),
{
    let after = entries.push(alias);
    assert forall|i: int, j: int| 0 <= i < j < after.len() implies #[trigger] after[i].name@
        != #[trigger] after[j].name@ by {
        if j == entries.len() {
            assert(entries[i].name@ != alias.name@);
        } else {
            assert(entries[i].name@ != entries[j].name@);
        }
    }
    assert forall|key: Seq<char>| names(after, key) == (names(entries, key) || key
        == alias.name@) by {
        if names(entries, key) {
            let i = index_of(entries, key);
            assert(after[i].name@ == key);
        }
        if key == alias.name@ {
            assert(after[entries.len() as int].name@ == key);
        }
        if names(after, key) {
            let i = index_of(after, key);
            if i < entries.len() {
                assert(entries[i].name@ == key);
            }
        }
    }
    assert forall|key: Seq<char>| names(after, key) implies #[trigger] mapping(after)[key]
        == mapping(entries).insert(alias.name@, alias.version@)[key] by {
        let i = index_of(after, key);
        lemma_index_unique(after, i);
        if i < entries.len() {
            assert(entries[i].name@ == key);
            lemma_index_unique(entries, i);
        }
    }
    assert(mapping(after) =~= mapping(entries).insert(alias.name@, alias.version@));
}

/// The versions of a tool, its aliases, and the latest version.
#[derive(Debug, PartialEq, Eq)]
pub struct LoadVersionsOutput {
    pub versions: Vec<Version>,
    pub aliases: AliasTable,
    pub latest: Option<Version>,
}

/// The value of a [`LoadVersionsOutput`].
pub struct CatalogView {
    pub versions: Seq<VersionView>,
    pub aliases: Map<Seq<char>, VersionView>,
    pub latest: Option<VersionView>,
}

/// The values of a list of versions.
pub open spec fn version_views(versions: Seq<Version>) -> Seq<VersionView> {
    Seq::new(versions.len(), |i: int| versions[i]@)
}

impl View for LoadVersionsOutput {
    type V = CatalogView;

    open spec fn view(&self) -> CatalogView {
        CatalogView {
            versions: version_views(self.versions@),
            aliases: self.aliases@,
            latest: match self.latest {
                Some(version) => Some(version@),
                None => None,
            },
        }
    }
}

/// A catalog without versions.
pub open spec fn empty_catalog() -> CatalogView {
    CatalogView { versions: Seq::empty(), aliases: Map::empty(), latest: None }
}

/// Why a catalog could not be built.
#[derive(Debug, PartialEq, Eq)]
pub enum LoadError {
    /// The registry names a version that is none.
    InvalidVersion(InvalidVersion),
    /// The registry names no latest version.
    MissingLatest,
}

/// The value of a [`LoadError`].
pub enum LoadFailure {
    InvalidVersion(Seq<char>),
    MissingLatest,
}

impl View for LoadError {
    type V = LoadFailure;

    open spec fn view(&self) -> LoadFailure {
        match self {
            LoadError::InvalidVersion(invalid) => LoadFailure::InvalidVersion(invalid.text@),
            LoadError::MissingLatest => LoadFailure::MissingLatest,
        }
    }
}

/// The last step of building a catalog from what a registry holds (or the
/// text of the first version that is none): the alias `latest` is pointed at
/// the latest version, and a catalog without a latest version is refused.
pub open spec fn finished(loaded: Result<CatalogView, Seq<char>>) -> Result<
    CatalogView,
    LoadFailure,
> {
    match loaded {
        Err(text) => Err(LoadFailure::InvalidVersion(text)),
        Ok(catalog) => match catalog.latest {
            None => Err(LoadFailure::MissingLatest),
            Some(latest) => Ok(
                CatalogView {
                    versions: catalog.versions,
                    aliases: catalog.aliases.insert("latest"@, latest),
                    latest: catalog.latest,
                },
            ),
        },
    }
}

/// Whether what was built is what was to be built.
pub open spec fn built(
    out: Result<LoadVersionsOutput, LoadError>,
    catalog: Result<CatalogView, LoadFailure>,
) -> bool {
    match catalog {
        Ok(catalog) => out is Ok && out->Ok_0.aliases.wf() && out->Ok_0@ == catalog,
        Err(failure) => out is Err && out->Err_0@ == failure,
    }
}

/// Points the alias `latest` at the latest version.
pub fn finish(out: LoadVersionsOutput) -> (done: Result<LoadVersionsOutput, LoadError>)
    requires
        out.aliases.wf(),
    ensures
        built(done, finished(Ok(out@))),
{
    let mut out = out;
    let latest = match &out.latest {
        None => {
            return Err(LoadError::MissingLatest);
        },
        Some(latest) => latest.clone(),
    };
    out.aliases.insert("latest".to_owned(), latest);
    Ok(out)
}

/// A catalog that was built holds the alias `latest`, and it points at the
/// latest version.
pub proof fn lemma_latest_is_alias(loaded: Result<CatalogView, Seq<char>>)
    requires
        finished(loaded) is Ok,
    ensures
        finished(loaded)->Ok_0.latest is Some,
        finished(loaded)->Ok_0.aliases.contains_key("latest"@),
        finished(loaded)->Ok_0.aliases["latest"@] == finished(loaded)->Ok_0.latest->Some_0,
{
}

} // verus!
