//! The catalog of a package manager, merged from what the registry answers.

use vstd::prelude::*;
use vstd::string::*;
use crate::catalog::{
    add_if_absent,
    built,
    empty_catalog,
    finish,
    finished,
    AliasTable,
    CatalogView,
    LoadError,
    LoadFailure,
    LoadVersionsOutput,
};
use crate::package_manager::{package_name, PackageManager};
use crate::registry::{DistTag, RegistryResponse, RegistryVersion};
use crate::text::{join3, str_eq, texts};
use crate::version::{parsed_version, UnresolvedVersionSpec, UnresolvedView, Version, VersionView};

verus! {

/// What is being built: the catalog so far, or the text of the first version
/// that is none.
pub type Loading = Result<CatalogView, Seq<char>>;

/// The catalog with the first `n` of the published versions added, in order.
pub open spec fn versions_loaded(start: Loading, versions: Seq<RegistryVersion>, n: int) -> Loading
    decreases n,
{
    if n <= 0 {
        start
    } else {
        match versions_loaded(start, versions, n - 1) {
            Err(text) => Err(text),
            Ok(catalog) => match parsed_version(versions[n - 1].version@) {
                None => Err(versions[n - 1].version@),
                Some(version) => Ok(
                    CatalogView {
                        versions: catalog.versions.push(version),
                        aliases: catalog.aliases,
                        latest: catalog.latest,
                    },
                ),
            },
        }
    }
}

/// The catalog with one more dist-tag. A name that is an alias already keeps
/// its version. The first `latest` is the latest version. The `latest` of
/// the berry line is the alias `berry`, whatever that pointed at.
pub open spec fn with_tag(catalog: CatalogView, berry_line: bool, tag: Seq<char>, version: VersionView) -> CatalogView {
    let aliases = if tag == "latest"@ && berry_line {
        catalog.aliases.insert("berry"@, version)
    } else {
        catalog.aliases
    };
    CatalogView {
        versions: catalog.versions,
        aliases: add_if_absent(aliases, tag, version),
        latest: if tag == "latest"@ && catalog.latest is None {
            Some(version)
        } else {
            catalog.latest
        },
    }
}

/// The catalog with the first `n` of the dist-tags added, in order.
pub open spec fn tags_loaded(start: Loading, berry_line: bool, tags: Seq<DistTag>, n: int) -> Loading
    decreases n,
{
    if n <= 0 {
        start
    } else {
        match tags_loaded(start, berry_line, tags, n - 1) {
            Err(text) => Err(text),
            Ok(catalog) => match parsed_version(tags[n - 1].version@) {
                None => Err(tags[n - 1].version@),
                Some(version) => Ok(with_tag(catalog, berry_line, tags[n - 1].name@, version)),
            },
        }
    }
}

/// Whether an answer is that for the berry line of Yarn.
pub open spec fn is_berry_line(manager: PackageManager, response: RegistryResponse) -> bool {
    manager == PackageManager::Yarn && response.name@ == "@yarnpkg/cli-dist"@
}

/// The catalog with one answer merged in: its versions, then its dist-tags.
pub open spec fn response_loaded(start: Loading, manager: PackageManager, response: RegistryResponse) -> Loading {
    tags_loaded(
        versions_loaded(start, response.versions@, response.versions@.len() as int),
        is_berry_line(manager, response),
        response.dist_tags@,
        response.dist_tags@.len() as int,
    )
}

/// The catalog of the first `n` answers, merged in order.
pub open spec fn responses_loaded(manager: PackageManager, responses: Seq<RegistryResponse>, n: int) -> Loading
    decreases n,
{
    if n <= 0 {
        Ok(empty_catalog())
    } else {
        response_loaded(responses_loaded(manager, responses, n - 1), manager, responses[n - 1])
    }
}

/// The catalog of a package manager, from the answers of the registry in
/// the order in which they were asked for.
pub open spec fn registry_catalog(manager: PackageManager, responses: Seq<RegistryResponse>) -> Result<
    CatalogView,
    LoadFailure,
> {
    finished(responses_loaded(manager, responses, responses.len() as int))
}

/// A version that is none fails the rest of the versions.
pub proof fn lemma_versions_failure_stays(start: Loading, versions: Seq<RegistryVersion>, n: int, m: int)
    requires
        0 <= n <= m,
        versions_loaded(start, versions, n) is Err,
    ensures
        versions_loaded(start, versions, m) == versions_loaded(start, versions, n),
    decreases m,
{
    if n < m {
        lemma_versions_failure_stays(start, versions, n, m - 1);
    }
}

/// A version that is none fails the rest of the dist-tags.
pub proof fn lemma_tags_failure_stays(start: Loading, berry_line: bool, tags: Seq<DistTag>, n: int, m: int)
    requires
        0 <= n <= m,
        tags_loaded(start, berry_line, tags, n) is Err,
    ensures
        tags_loaded(start, berry_line, tags, m) == tags_loaded(start, berry_line, tags, n),
    decreases m,
{
    if n < m {
        lemma_tags_failure_stays(start, berry_line, tags, n, m - 1);
    }
}

/// A version that is none fails the rest of the answers.
pub proof fn lemma_responses_failure_stays(manager: PackageManager, responses: Seq<RegistryResponse>, n: int, m: int)
    requires
        0 <= n <= m,
        responses_loaded(manager, responses, n) is Err,
    ensures
        responses_loaded(manager, responses, m) == responses_loaded(manager, responses, n),
    decreases m,
{
    if n < m {
        lemma_responses_failure_stays(manager, responses, n, m - 1);
        let failed = responses_loaded(manager, responses, m - 1);
        let response = responses[m - 1];
        lemma_versions_failure_stays(failed, response.versions@, 0, response.versions@.len() as int);
        lemma_tags_failure_stays(
            failed,
            is_berry_line(manager, response),
            response.dist_tags@,
            0,
            response.dist_tags@.len() as int,
        );
    }
}

/// Whether a step of the merge did what it was to do.
pub open spec fn merged(done: Result<(), LoadError>, output: LoadVersionsOutput, loading: Loading) -> bool {
    match loading {
        Ok(catalog) => done is Ok && output.aliases.wf() && output@ == catalog,
        Err(text) => done is Err && done->Err_0@ == LoadFailure::InvalidVersion(text),
    }
}

/// Adds the published versions of an answer.
pub fn load_published(output: &mut LoadVersionsOutput, versions: &Vec<RegistryVersion>) -> (done: Result<
    (),
    LoadError,
>)
    requires
        old(output).aliases.wf(),
    ensures
        merged(
            done,
            *final(output),
            versions_loaded(Ok(old(output)@), versions@, versions@.len() as int),
        ),
{
    let ghost start: Loading = Ok(output@);
    let mut i: usize = 0;
    while i < versions.len()
        invariant
            start == Ok::<CatalogView, Seq<char>>(old(output)@),
            i <= versions@.len(),
            output.aliases.wf(),
            versions_loaded(start, versions@, i as int) == Ok::<CatalogView, Seq<char>>(output@),
        decreases versions@.len() - i,
    {
        let ghost before = output@;
        let version = match Version::parse(versions[i].version.as_str()) {
            Ok(version) => version,
            Err(invalid) => {
                proof {
                    lemma_versions_failure_stays(start, versions@, i + 1, versions@.len() as int);
                }
                return Err(LoadError::InvalidVersion(invalid));
            },
        };
        let ghost pushed = version@;
        output.versions.push(version);
        proof {
            assert(output@.versions =~= before.versions.push(pushed));
        }
        i += 1;
    }
    Ok(())
}

/// Adds the dist-tags of an answer.
pub fn load_tags(output: &mut LoadVersionsOutput, berry_line: bool, tags: &Vec<DistTag>) -> (done: Result<
    (),
    LoadError,
>)
    requires
        old(output).aliases.wf(),
    ensures
        merged(
            done,
            *final(output),
            tags_loaded(Ok(old(output)@), berry_line, tags@, tags@.len() as int),
        ),
{
    let ghost start: Loading = Ok(output@);
    let mut i: usize = 0;
    while i < tags.len()
        invariant
            start == Ok::<CatalogView, Seq<char>>(old(output)@),
            i <= tags@.len(),
            output.aliases.wf(),
            tags_loaded(start, berry_line, tags@, i as int) == Ok::<CatalogView, Seq<char>>(
                output@,
            ),
        decreases tags@.len() - i,
    {
        let ghost before = output@;
        let tag = &tags[i];
        let version = match Version::parse(tag.version.as_str()) {
            Ok(version) => version,
            Err(invalid) => {
                proof {
                    lemma_tags_failure_stays(start, berry_line, tags@, i + 1, tags@.len() as int);
                }
                return Err(LoadError::InvalidVersion(invalid));
            },
        };
        if str_eq(tag.name.as_str(), "latest") {
            if output.latest.is_none() {
                output.latest = Some(version.clone());
            }
            // Only the package of the berry line knows what berry's latest
            // version is.
            if berry_line {
                output.aliases.insert("berry".to_owned(), version.clone());
            }
        }
        let ghost added = version@;
        output.aliases.insert_if_absent(tag.name.clone(), version);
        proof {
            assert(output@.versions =~= before.versions);
            assert(output@ == with_tag(before, berry_line, tag.name@, added));
        }
        i += 1;
    }
    Ok(())
}

/// Builds the catalog of `manager` from the answers of the registry, in the
/// order in which they were asked for.
pub fn load_versions(manager: PackageManager, responses: &Vec<RegistryResponse>) -> (out: Result<
    LoadVersionsOutput,
    LoadError,
>)
    ensures
        built(out, registry_catalog(manager, responses@)),
        out is Ok ==> out->Ok_0@.aliases.contains_key("latest"@) && Some(
            out->Ok_0@.aliases["latest"@],
        ) == out->Ok_0@.latest,
{
    let mut output = LoadVersionsOutput {
        versions: Vec::new(),
        aliases: AliasTable::new(),
        latest: None,
    };
    assert(output@.versions =~= Seq::<VersionView>::empty());
    let is_yarn = match manager {
        PackageManager::Yarn => true,
        _ => false,
    };
    let mut i: usize = 0;
    while i < responses.len()
        invariant
            i <= responses@.len(),
            output.aliases.wf(),
            is_yarn == (manager == PackageManager::Yarn),
            responses_loaded(manager, responses@, i as int) == Ok::<CatalogView, Seq<char>>(
                output@,
            ),
        decreases responses@.len() - i,
    {
        let response = &responses[i];
        let berry_line = is_yarn && str_eq(response.name.as_str(), "@yarnpkg/cli-dist");
        match load_published(&mut output, &response.versions) {
            Ok(()) => {},
            Err(error) => {
                proof {
                    lemma_tags_failure_stays(
                        versions_loaded(
                            responses_loaded(manager, responses@, i as int),
                            response.versions@,
                            response.versions@.len() as int,
                        ),
                        berry_line,
                        response.dist_tags@,
                        0,
                        response.dist_tags@.len() as int,
                    );
                    lemma_responses_failure_stays(
                        manager,
                        responses@,
                        i + 1,
                        responses@.len() as int,
                    );
                }
                return Err(error);
            },
        }
        match load_tags(&mut output, berry_line, &response.dist_tags) {
            Ok(()) => {},
            Err(error) => {
                proof {
                    lemma_responses_failure_stays(
                        manager,
                        responses@,
                        i + 1,
                        responses@.len() as int,
                    );
                }
                return Err(error);
            },
        }
        i += 1;
    }
    finish(output)
}

/// The addresses to ask the registry at, in order. Yarn is published as two
/// packages, the classic line first; any other manager as one.
pub open spec fn registry_addresses(manager: PackageManager, initial: UnresolvedView) -> Seq<
    Seq<char>,
> {
    match manager {
        PackageManager::Yarn => seq![
            "https://registry.npmjs.org/yarn/"@,
            "https://registry.npmjs.org/@yarnpkg/cli-dist/"@,
        ],
        _ => seq!["https://registry.npmjs.org/"@ + package_name(manager, initial) + "/"@],
    }
}

/// The addresses to ask the registry at for the versions of `manager`.
pub fn registry_urls(manager: PackageManager, initial: &UnresolvedVersionSpec) -> (urls: Vec<String>)
    ensures
        texts(urls@) == registry_addresses(manager, initial@),
{
    let mut urls: Vec<String> = Vec::new();
    match manager {
        PackageManager::Yarn => {
            urls.push(String::from_str("https://registry.npmjs.org/yarn/"));
            urls.push(String::from_str("https://registry.npmjs.org/@yarnpkg/cli-dist/"));
        },
        _ => {
            let name = manager.get_package_name(initial);
            urls.push(join3("https://registry.npmjs.org/", name.as_str(), "/"));
        },
    }
    assert(texts(urls@) =~= registry_addresses(manager, initial@));
    urls
}

/// Publishing versions touches neither the aliases nor the latest version.
pub proof fn lemma_versions_keep_aliases(start: CatalogView, versions: Seq<RegistryVersion>, n: int)
    requires
        0 <= n <= versions.len(),
        versions_loaded(Ok(start), versions, n) is Ok,
    ensures
        versions_loaded(Ok(start), versions, n)->Ok_0.aliases == start.aliases,
        versions_loaded(Ok(start), versions, n)->Ok_0.latest == start.latest,
    decreases n,
{
    if n > 0 {
        lemma_versions_keep_aliases(start, versions, n - 1);
    }
}

/// The first writer wins: an alias that is there keeps its version through
/// further dist-tags, and so does the latest version. The one exception is
/// `berry` on Yarn's berry line.
pub proof fn lemma_first_tag_wins(
    start: CatalogView,
    berry_line: bool,
    tags: Seq<DistTag>,
    n: int,
    name: Seq<char>,
)
    requires
        0 <= n <= tags.len(),
        tags_loaded(Ok(start), berry_line, tags, n) is Ok,
    ensures
        start.aliases.contains_key(name) && !(berry_line && name == "berry"@) ==> tags_loaded(
            Ok(start),
            berry_line,
            tags,
            n,
        )->Ok_0.aliases.contains_key(name) && tags_loaded(
            Ok(start),
            berry_line,
            tags,
            n,
        )->Ok_0.aliases[name] == start.aliases[name],
        start.latest is Some ==> tags_loaded(Ok(start), berry_line, tags, n)->Ok_0.latest
            == start.latest,
    decreases n,
{
    if n > 0 {
        lemma_first_tag_wins(start, berry_line, tags, n - 1, name);
    }
}

/// The first writer wins across answers too: what one answer made an alias
/// or the latest version stays so through the next answer, but for `berry`
/// where the next is that of Yarn's berry line.
pub proof fn lemma_first_answer_wins(
    start: CatalogView,
    manager: PackageManager,
    response: RegistryResponse,
    name: Seq<char>,
)
    requires
        response_loaded(Ok(start), manager, response) is Ok,
    ensures
        start.aliases.contains_key(name) && !(is_berry_line(manager, response) && name
            == "berry"@) ==> response_loaded(Ok(start), manager, response)->Ok_0.aliases.contains_key(
            name,
        ) && response_loaded(Ok(start), manager, response)->Ok_0.aliases[name]
            == start.aliases[name],
        start.latest is Some ==> response_loaded(Ok(start), manager, response)->Ok_0.latest
            == start.latest,
{
    let versions = response.versions@;
    let tags = response.dist_tags@;
    let published = versions_loaded(Ok(start), versions, versions.len() as int);
    if published is Err {
        lemma_tags_failure_stays(
            published,
            is_berry_line(manager, response),
            tags,
            0,
            tags.len() as int,
        );
    } else {
        lemma_versions_keep_aliases(start, versions, versions.len() as int);
        lemma_first_tag_wins(
            published->Ok_0,
            is_berry_line(manager, response),
            tags,
            tags.len() as int,
            name,
        );
    }
}

/// After the dist-tags of Yarn's berry line, the alias `berry` points at
/// the version of the last tag `latest` among them.
pub proof fn lemma_berry_alias(start: CatalogView, tags: Seq<DistTag>, n: int, at: int)
    requires
        0 <= at < n <= tags.len(),
        tags[at].name@ == "latest"@,
        forall|k: int| at < k < n ==> tags[k].name@ != "latest"@,
        tags_loaded(Ok(start), true, tags, n) is Ok,
    ensures
        parsed_version(tags[at].version@) is Some,
        tags_loaded(Ok(start), true, tags, n)->Ok_0.aliases.contains_key("berry"@),
        tags_loaded(Ok(start), true, tags, n)->Ok_0.aliases["berry"@] == parsed_version(
            tags[at].version@,
        )->Some_0,
    decreases n,
{
    reveal_strlit("latest");
    reveal_strlit("berry");
    assert("latest"@ != "berry"@) by {
        assert("latest"@.len() != "berry"@.len());
    }
    if at < n - 1 {
        lemma_berry_alias(start, tags, n - 1, at);
    }
}

} // verus!
