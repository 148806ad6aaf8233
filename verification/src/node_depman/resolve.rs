//! Aliases of the package managers: `bundled` for npm, the two lines of Yarn.

use vstd::prelude::*;
use vstd::string::*;
use crate::node_dist::NodeDistVersion;
use crate::package_manager::PackageManager;
use crate::resolution::{unresolved, ResolutionView, ResolveVersionOutput};
use crate::text::{str_eq, trim, trimmed};
use crate::version::{
    parsed_unresolved_spec,
    parsed_version_spec,
    InvalidVersion,
    UnresolvedVersionSpec,
    UnresolvedView,
    VersionSpec,
};

verus! {

/// How far resolving got without outside help.
#[derive(Debug, PartialEq, Eq)]
pub enum ResolveStep {
    /// Resolving is done.
    Done(ResolveVersionOutput),
    /// The npm that the active Node.js bundles is asked for: the release
    /// index is needed, and the version of the active Node.js.
    NeedsBundledNpm,
}

/// The range of Yarn's berry line: its current stable major version.
pub const BERRY_RANGE: &'static str = "~4";

/// The range of Yarn's classic line.
pub const CLASSIC_RANGE: &'static str = "~1";

/// The range that an alias of Yarn stands for: the berry line for `berry`
/// and `latest`, the classic line for `legacy` and `classic`.
pub open spec fn yarn_alias_range(initial: UnresolvedView) -> Option<Seq<char>> {
    match initial {
        UnresolvedView::Alias(alias) => if alias == "berry"@ || alias == "latest"@ {
            Some(BERRY_RANGE@)
        } else if alias == "legacy"@ || alias == "classic"@ {
            Some(CLASSIC_RANGE@)
        } else {
            None
        },
        _ => None,
    }
}

/// Whether a release is the given version of Node.js: the index writes a
/// version with a `v` in front; where `bare` is set, the version may also be
/// given without it.
pub open spec fn is_release(release: NodeDistVersion, node_version: Seq<char>, bare: bool) -> bool {
    release.version@ == node_version || (bare && release.number() == node_version)
}

/// The npm of the first release that is the given version of Node.js and
/// names its npm.
pub open spec fn bundled_npm(releases: Seq<NodeDistVersion>, node_version: Seq<char>, bare: bool) -> Option<
    Seq<char>,
>
    decreases releases.len(),
{
    if releases.len() == 0 {
        None
    } else if is_release(releases[0], node_version, bare) && releases[0].npm is Some {
        Some(releases[0].npm->Some_0@)
    } else {
        bundled_npm(releases.drop_first(), node_version, bare)
    }
}

/// Looks up the npm that a version of Node.js bundles.
pub fn find_bundled_npm<'a>(releases: &'a Vec<NodeDistVersion>, node_version: &str, bare: bool) -> (npm:
    Option<&'a String>)
    ensures
        match bundled_npm(releases@, node_version@, bare) {
            Some(version) => npm is Some && npm->Some_0@ == version,
            None => npm is None,
        },
{
    let mut i: usize = 0;
    assert(releases@.subrange(0, releases@.len() as int) =~= releases@);
    while i < releases.len()
        invariant
            i <= releases@.len(),
            bundled_npm(releases@, node_version@, bare) == bundled_npm(
                releases@.subrange(i as int, releases@.len() as int),
                node_version@,
                bare,
            ),
        decreases releases@.len() - i,
    {
        let ghost rest = releases@.subrange(i as int, releases@.len() as int);
        assert(rest.drop_first() =~= releases@.subrange(i + 1, releases@.len() as int));
        assert(rest[0] == releases@[i as int]);
        let release = &releases[i];
        let same = str_eq(release.version.as_str(), node_version) || (bare && str_eq(
            release.get_number().as_str(),
            node_version,
        ));
        if same {
            if let Some(npm) = &release.npm {
                return Some(npm);
            }
        }
        i += 1;
    }
    None
}

/// Resolves what can be resolved from the specification alone.
///
/// For npm the alias `bundled` needs the release index. For Yarn the aliases
/// of its two lines become ranges. Everything else is left as it is.
pub fn resolve_version(manager: PackageManager, initial: &UnresolvedVersionSpec) -> (step: Result<
    ResolveStep,
    InvalidVersion,
>)
    ensures
        manager == PackageManager::Npm && initial.spec_is_alias("bundled"@) ==> step == Ok::<
            ResolveStep,
            InvalidVersion,
        >(ResolveStep::NeedsBundledNpm),
        manager == PackageManager::Npm && !initial.spec_is_alias("bundled"@) ==> step is Ok
            && step->Ok_0 is Done && step->Ok_0->Done_0@ == unresolved(),
        manager == PackageManager::Pnpm ==> step is Ok && step->Ok_0 is Done
            && step->Ok_0->Done_0@ == unresolved(),
        manager == PackageManager::Yarn ==> match yarn_alias_range(initial@) {
            None => step is Ok && step->Ok_0 is Done && step->Ok_0->Done_0@ == unresolved(),
            Some(range) => match parsed_unresolved_spec(range) {
                Some(spec) => step is Ok && step->Ok_0 is Done && step->Ok_0->Done_0@
                    == (ResolutionView { candidate: Some(spec), version: None }),
                None => step is Err && step->Err_0.text@ == range,
            },
        },
{
    match manager {
        PackageManager::Npm => {
            if initial.is_alias("bundled") {
                return Ok(ResolveStep::NeedsBundledNpm);
            }
        },
        PackageManager::Yarn => {
            if let UnresolvedVersionSpec::Alias(alias) = initial {
                if str_eq(alias.as_str(), "berry") || str_eq(alias.as_str(), "latest") {
                    let candidate = UnresolvedVersionSpec::parse(BERRY_RANGE)?;
                    return Ok(
                        ResolveStep::Done(
                            ResolveVersionOutput { candidate: Some(candidate), version: None },
                        ),
                    );
                } else if str_eq(alias.as_str(), "legacy") || str_eq(alias.as_str(), "classic") {
                    let candidate = UnresolvedVersionSpec::parse(CLASSIC_RANGE)?;
                    return Ok(
                        ResolveStep::Done(
                            ResolveVersionOutput { candidate: Some(candidate), version: None },
                        ),
                    );
                }
            }
        },
        PackageManager::Pnpm => {},
    }
    Ok(ResolveStep::Done(ResolveVersionOutput { candidate: None, version: None }))
}

/// Resolves `bundled` from the version of Node.js that the host names as the
/// active one, with or without a `v` in front. `None` says that the index
/// does not know that version (or that the host named none): the version
/// that `node --version` prints is then to be tried.
pub fn resolve_bundled(releases: &Vec<NodeDistVersion>, active_node: Option<&str>) -> (found: Result<
    Option<ResolveVersionOutput>,
    InvalidVersion,
>)
    ensures
        match active_node {
            None => found is Ok && found->Ok_0 is None,
            Some(node_version) => bundled_resolution(releases@, node_version@, found),
        },
{
    match active_node {
        None => Ok(None),
        Some(node_version) => match find_bundled_npm(releases, node_version, true) {
            None => Ok(None),
            Some(npm) => {
                let version = VersionSpec::parse(npm.as_str())?;
                Ok(Some(ResolveVersionOutput { candidate: None, version: Some(version) }))
            },
        },
    }
}

/// What looking up a version of Node.js in the index gives: nothing where
/// the index does not know it, else the npm of that release as the resolved
/// version, or the text of that npm where it is no version.
pub open spec fn bundled_resolution(
    releases: Seq<NodeDistVersion>,
    node_version: Seq<char>,
    found: Result<Option<ResolveVersionOutput>, InvalidVersion>,
) -> bool {
    match bundled_npm(releases, node_version, true) {
        None => found is Ok && found->Ok_0 is None,
        Some(npm) => match parsed_version_spec(npm) {
            Some(spec) => found is Ok && found->Ok_0 is Some && found->Ok_0->Some_0@
                == (ResolutionView { candidate: None, version: Some(spec) }),
            None => found is Err && found->Err_0.text@ == npm,
        },
    }
}

/// The alias `latest` as the candidate: what `bundled` falls back to.
pub open spec fn fallback_to_latest() -> ResolutionView {
    ResolutionView { candidate: Some(UnresolvedView::Alias("latest"@)), version: None }
}

/// Resolves `bundled` from what `node --version` printed, which carries the
/// `v` as the index does. Where the index
/// does not know that version either, the alias `latest` is the candidate.
pub fn resolve_bundled_from_node(releases: &Vec<NodeDistVersion>, stdout: &str) -> (resolved: Result<
    ResolveVersionOutput,
    InvalidVersion,
>)
    ensures
        match bundled_npm(releases@, trimmed(stdout@), false) {
            None => resolved is Ok && resolved->Ok_0@ == fallback_to_latest(),
            Some(npm) => match parsed_version_spec(npm) {
                Some(spec) => resolved is Ok && resolved->Ok_0@ == (ResolutionView {
                    candidate: None,
                    version: Some(spec),
                }),
                None => resolved is Err && resolved->Err_0.text@ == npm,
            },
        },
{
    let node_version = trim(stdout);
    match find_bundled_npm(releases, node_version.as_str(), false) {
        None => Ok(
            ResolveVersionOutput {
                candidate: Some(UnresolvedVersionSpec::Alias(String::from_str("latest"))),
                version: None,
            },
        ),
        Some(npm) => {
            let version = VersionSpec::parse(npm.as_str())?;
            Ok(ResolveVersionOutput { candidate: None, version: Some(version) })
        },
    }
}

} // verus!
