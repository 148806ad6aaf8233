//! The releases of Node.js: the catalog, its LTS aliases, and the files that
//! name a version.

use vstd::prelude::*;
use vstd::string::*;
use crate::catalog::{
    add_if_absent,
    built,
    empty_catalog,
    finish,
    finished,
    version_views,
    AliasTable,
    CatalogView,
    LoadError,
    LoadFailure,
    LoadVersionsOutput,
};
use crate::node_dist::{NodeDistLTS, NodeDistVersion};
use crate::text::{lowercase, to_lowercase};
use crate::version::{parsed_version, Version, VersionView};

verus! {

/// The catalog with one more release, which is `version`. The first release
/// is the latest. The first release of an LTS line is what the line's
/// codename, in lower case, points at; the first LTS release of all is
/// `stable`.
pub open spec fn with_release(catalog: CatalogView, release: NodeDistVersion, version: VersionView) -> CatalogView {
    CatalogView {
        versions: catalog.versions.push(version),
        aliases: match release.codename() {
            None => catalog.aliases,
            Some(name) => add_if_absent(
                add_if_absent(catalog.aliases, "stable"@, version),
                lowercase(name),
                version,
            ),
        },
        latest: if catalog.versions.len() == 0 {
            Some(version)
        } else {
            catalog.latest
        },
    }
}

/// The catalog of the first `n` releases of the index, or the text of the
/// first among them that is no version.
pub open spec fn index_loaded(releases: Seq<NodeDistVersion>, n: int) -> Result<
    CatalogView,
    Seq<char>,
>
    decreases n,
{
    if n <= 0 {
        Ok(empty_catalog())
    } else {
        match index_loaded(releases, n - 1) {
            Err(text) => Err(text),
            Ok(catalog) => match parsed_version(releases[n - 1].number()) {
                None => Err(releases[n - 1].number()),
                Some(version) => Ok(with_release(catalog, releases[n - 1], version)),
            },
        }
    }
}

/// The catalog of a release index.
pub open spec fn node_catalog(releases: Seq<NodeDistVersion>) -> Result<CatalogView, LoadFailure> {
    finished(index_loaded(releases, releases.len() as int))
}

/// A release that is no version fails the whole index.
pub proof fn lemma_index_failure_stays(releases: Seq<NodeDistVersion>, n: int, m: int)
    requires
        0 <= n <= m,
        index_loaded(releases, n) is Err,
    ensures
        index_loaded(releases, m) == index_loaded(releases, n),
    decreases m,
{
    if n < m {
        lemma_index_failure_stays(releases, n, m - 1);
    }
}

/// Builds the catalog of Node.js from its release index, newest release
/// first.
pub fn load_versions(releases: &Vec<NodeDistVersion>) -> (out: Result<LoadVersionsOutput, LoadError>)
    ensures
        built(out, node_catalog(releases@)),
        out is Ok ==> out->Ok_0@.aliases.contains_key("latest"@) && Some(
            out->Ok_0@.aliases["latest"@],
        ) == out->Ok_0@.latest,
{
    let mut output = LoadVersionsOutput {
        versions: Vec::new(),
        aliases: AliasTable::new(),
        latest: None,
    };
    assert(output@.versions =~= Seq::<VersionView>::empty());
    assert(output@ == empty_catalog());
    let mut i: usize = 0;
    while i < releases.len()
        invariant
            i <= releases@.len(),
            output.aliases.wf(),
            index_loaded(releases@, i as int) == Ok::<CatalogView, Seq<char>>(output@),
        decreases releases@.len() - i,
    {
        let item = &releases[i];
        let ghost before = output@;
        let number = item.get_number();
        let version = match Version::parse(number.as_str()) {
            Ok(version) => version,
            Err(invalid) => {
                proof {
                    lemma_index_failure_stays(releases@, i + 1, releases@.len() as int);
                }
                return Err(LoadError::InvalidVersion(invalid));
            },
        };
        // The first release is the latest.
        if i == 0 {
            output.latest = Some(version.clone());
        }
        if let NodeDistLTS::Name(alias) = &item.lts {
            let alias = to_lowercase(alias.as_str());
            // The first release of an LTS line is the newest of that line,
            // and the first of all is the newest stable release.
            output.aliases.insert_if_absent("stable".to_owned(), version.clone());
            output.aliases.insert_if_absent(alias, version.clone());
        }
        let ghost pushed = version@;
        output.versions.push(version);
        proof {
            assert(output@.versions =~= before.versions.push(pushed));
            assert(output@ == with_release(before, releases@[i as int], pushed));
        }
        i += 1;
    }
    finish(output)
}

/// Every LTS line among the first `n` releases has its codename, in lower
/// case, as an alias, and `stable` is an alias as soon as there is one.
pub proof fn lemma_codename_loaded(releases: Seq<NodeDistVersion>, n: int, at: int)
    requires
        0 <= at < n <= releases.len(),
        index_loaded(releases, n) is Ok,
        releases[at].codename() is Some,
    ensures
        index_loaded(releases, n)->Ok_0.aliases.contains_key(
            lowercase(releases[at].codename()->Some_0),
        ),
        index_loaded(releases, n)->Ok_0.aliases.contains_key("stable"@),
    decreases n,
{
    if at < n - 1 {
        lemma_codename_loaded(releases, n - 1, at);
    }
}

/// Whether a release is of the LTS line that `name` is the codename of, in
/// lower case.
pub open spec fn is_of_line(release: NodeDistVersion, name: Seq<char>) -> bool {
    release.codename() is Some && lowercase(release.codename()->Some_0) == name
}

/// Before the alias `latest` is set, every alias is `stable` or the codename
/// of an LTS release.
pub proof fn lemma_alias_has_release(releases: Seq<NodeDistVersion>, n: int, name: Seq<char>)
    requires
        0 <= n <= releases.len(),
        index_loaded(releases, n) is Ok,
        index_loaded(releases, n)->Ok_0.aliases.contains_key(name),
    ensures
        exists|k: int|
            0 <= k < n && (#[trigger] releases[k]).codename() is Some && (name == "stable"@
                || is_of_line(releases[k], name)),
    decreases n,
{
    if n > 0 {
        let before = index_loaded(releases, n - 1)->Ok_0;
        if before.aliases.contains_key(name) {
            lemma_alias_has_release(releases, n - 1, name);
            let k = choose|k: int|
                0 <= k < n - 1 && (#[trigger] releases[k]).codename() is Some && (name
                    == "stable"@ || is_of_line(releases[k], name));
            assert(0 <= k < n && releases[k].codename() is Some);
        } else {
            assert(releases[n - 1].codename() is Some);
        }
    }
}

/// An alias keeps the version it has.
pub proof fn lemma_alias_stays(releases: Seq<NodeDistVersion>, n: int, m: int, name: Seq<char>)
    requires
        0 <= n <= m <= releases.len(),
        index_loaded(releases, m) is Ok,
        index_loaded(releases, n) is Ok,
        index_loaded(releases, n)->Ok_0.aliases.contains_key(name),
    ensures
        index_loaded(releases, m)->Ok_0.aliases.contains_key(name),
        index_loaded(releases, m)->Ok_0.aliases[name] == index_loaded(
            releases,
            n,
        )->Ok_0.aliases[name],
    decreases m,
{
    if n < m {
        lemma_alias_stays(releases, n, m - 1, name);
    }
}

/// The first encounter wins: the codename of an LTS line, in lower case,
/// points at the first release of that line in the index, which is its
/// newest. (`stable` and `latest` are aliases of their own, whatever a line
/// is called.)
pub proof fn lemma_line_points_at_first(releases: Seq<NodeDistVersion>, at: int, name: Seq<char>)
    requires
        0 <= at < releases.len(),
        node_catalog(releases) is Ok,
        is_of_line(releases[at], name),
        forall|k: int| 0 <= k < at ==> !is_of_line(#[trigger] releases[k], name),
        name != "stable"@,
        name != "latest"@,
    ensures
        parsed_version(releases[at].number()) is Some,
        node_catalog(releases)->Ok_0.aliases.contains_key(name),
        node_catalog(releases)->Ok_0.aliases[name] == parsed_version(
            releases[at].number(),
        )->Some_0,
{
    let len = releases.len() as int;
    lemma_loaded_before(releases, at + 1, len);
    lemma_loaded_before(releases, at, at + 1);
    if index_loaded(releases, at)->Ok_0.aliases.contains_key(name) {
        lemma_alias_has_release(releases, at, name);
    }
    lemma_alias_stays(releases, at + 1, len, name);
}

/// The first LTS release of the index is `stable`.
pub proof fn lemma_stable_is_first_lts(releases: Seq<NodeDistVersion>, at: int)
    requires
        0 <= at < releases.len(),
        node_catalog(releases) is Ok,
        releases[at].codename() is Some,
        forall|k: int| 0 <= k < at ==> (#[trigger] releases[k]).codename() is None,
    ensures
        parsed_version(releases[at].number()) is Some,
        node_catalog(releases)->Ok_0.aliases.contains_key("stable"@),
        node_catalog(releases)->Ok_0.aliases["stable"@] == parsed_version(
            releases[at].number(),
        )->Some_0,
{
    reveal_strlit("stable");
    reveal_strlit("latest");
    assert("stable"@ != "latest"@) by {
        assert("stable"@[0] != "latest"@[0]);
    }
    let len = releases.len() as int;
    lemma_loaded_before(releases, at + 1, len);
    lemma_loaded_before(releases, at, at + 1);
    if index_loaded(releases, at)->Ok_0.aliases.contains_key("stable"@) {
        lemma_alias_has_release(releases, at, "stable"@);
    }
    lemma_alias_stays(releases, at + 1, len, "stable"@);
}

/// An index that loads does so up to each of its releases.
pub proof fn lemma_loaded_before(releases: Seq<NodeDistVersion>, n: int, m: int)
    requires
        0 <= n <= m <= releases.len(),
        index_loaded(releases, m) is Ok,
    ensures
        index_loaded(releases, n) is Ok,
    decreases m,
{
    if n < m {
        lemma_loaded_before(releases, n, m - 1);
    }
}

/// The codename of every LTS release of the index, in lower case, is an
/// alias of the catalog, and so is `stable`.
pub proof fn lemma_codename_is_alias(releases: Seq<NodeDistVersion>, at: int)
    requires
        0 <= at < releases.len(),
        node_catalog(releases) is Ok,
        releases[at].codename() is Some,
    ensures
        node_catalog(releases)->Ok_0.aliases.contains_key(
            lowercase(releases[at].codename()->Some_0),
        ),
        node_catalog(releases)->Ok_0.aliases.contains_key("stable"@),
{
    lemma_codename_loaded(releases, releases.len() as int, at);
}

} // verus!
