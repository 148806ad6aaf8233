//! Which package manager a plugin instance stands for, and what follows from
//! that for a given version.

use vstd::prelude::*;
use vstd::string::*;
use crate::commands::{get_global_prefix, global_prefix};
use crate::host::HostOS;
use crate::text::{contains, has_substring, lowercase, str_eq, to_lowercase};
use crate::version::{UnresolvedVersionSpec, UnresolvedView, VersionView};

verus! {

/// The package managers that one plugin serves.
#[derive(Debug, Clone, Copy, PartialEq, Eq, Structural)]
pub enum PackageManager {
    Npm,
    Pnpm,
    Yarn,
}

/// The manager that a tool identifier names: `yarn` is looked for first, then
/// `pnpm`, in the lower-cased identifier; anything else is npm.
pub open spec fn detected(id: Seq<char>) -> PackageManager {
    if has_substring(lowercase(id), "yarn"@) {
        PackageManager::Yarn
    } else if has_substring(lowercase(id), "pnpm"@) {
        PackageManager::Pnpm
    } else {
        PackageManager::Npm
    }
}

/// Yarn 1.x: the aliases `legacy` and `classic`, major version 1.
pub open spec fn yarn_classic(manager: PackageManager, spec: UnresolvedView) -> bool {
    manager == PackageManager::Yarn && match spec {
        UnresolvedView::Alias(alias) => alias == "legacy"@ || alias == "classic"@,
        UnresolvedView::Version(version) => version.major == 1,
        UnresolvedView::Requirement(major, _) => major == Some(1u32),
        _ => false,
    }
}

/// Yarn 2 and later: the aliases `berry` and `latest`, a major version above 1.
pub open spec fn yarn_berry(manager: PackageManager, spec: UnresolvedView) -> bool {
    manager == PackageManager::Yarn && match spec {
        UnresolvedView::Alias(alias) => alias == "berry"@ || alias == "latest"@,
        UnresolvedView::Version(version) => version.major > 1,
        UnresolvedView::Requirement(major, _) => major is Some && major->Some_0 > 1,
        _ => false,
    }
}

/// The name of a manager, which is also the name of its registry package
/// (for Yarn: of the classic line).
pub open spec fn manager_name(manager: PackageManager) -> Seq<char> {
    match manager {
        PackageManager::Npm => "npm"@,
        PackageManager::Pnpm => "pnpm"@,
        PackageManager::Yarn => "yarn"@,
    }
}

/// The registry package that holds `spec` of `manager`.
pub open spec fn package_name(manager: PackageManager, spec: UnresolvedView) -> Seq<char> {
    if yarn_berry(manager, spec) {
        "@yarnpkg/cli-dist"@
    } else {
        manager_name(manager)
    }
}

impl PackageManager {
    /// Tells the manager from the identifier under which the plugin runs.
    pub fn detect(id: &str) -> (manager: PackageManager)
        ensures
            manager == detected(id@),
    {
        let lower = to_lowercase(id);
        if contains(lower.as_str(), "yarn") {
            PackageManager::Yarn
        } else if contains(lower.as_str(), "pnpm") {
            PackageManager::Pnpm
        } else {
            PackageManager::Npm
        }
    }

    /// The manager's name.
    pub fn to_string(&self) -> (name: String)
        ensures
            name@ == manager_name(*self),
    {
        match self {
            PackageManager::Npm => String::from_str("npm"),
            PackageManager::Pnpm => String::from_str("pnpm"),
            PackageManager::Yarn => String::from_str("yarn"),
        }
    }

    /// The registry package to ask for `version`.
    pub fn get_package_name(&self, version: &UnresolvedVersionSpec) -> (name: String)
        ensures
            name@ == package_name(*self, version@),
    {
        if self.is_yarn_berry(version) {
            String::from_str("@yarnpkg/cli-dist")
        } else {
            self.to_string()
        }
    }

    /// Whether `version` is of Yarn's classic line.
    pub fn is_yarn_classic(&self, version: &UnresolvedVersionSpec) -> (classic: bool)
        ensures
            classic == yarn_classic(*self, version@),
    {
        match self {
            PackageManager::Yarn => match version {
                UnresolvedVersionSpec::Alias(alias) => str_eq(alias.as_str(), "legacy") || str_eq(
                    alias.as_str(),
                    "classic",
                ),
                UnresolvedVersionSpec::Version(ver) => ver.major == 1,
                UnresolvedVersionSpec::Requirement(req) => match req.major {
                    Some(major) => major == 1,
                    None => false,
                },
                _ => false,
            },
            _ => false,
        }
    }

    /// Whether `version` is of Yarn's berry line.
    pub fn is_yarn_berry(&self, version: &UnresolvedVersionSpec) -> (berry: bool)
        ensures
            berry == yarn_berry(*self, version@),
    {
        match self {
            PackageManager::Yarn => match version {
                UnresolvedVersionSpec::Alias(alias) => str_eq(alias.as_str(), "berry") || str_eq(
                    alias.as_str(),
                    "latest",
                ),
                UnresolvedVersionSpec::Version(ver) => ver.major > 1,
                UnresolvedVersionSpec::Requirement(req) => match req.major {
                    Some(major) => major > 1,
                    None => false,
                },
                _ => false,
            },
            _ => false,
        }
    }

    /// The prefix to install globals under, from the real path of the globals
    /// directory.
    pub fn get_globals_dir_prefix(&self, os: HostOS, real_path: &str) -> (prefix: String)
        ensures
            prefix@ == global_prefix(os, real_path@),
    {
        get_global_prefix(os, real_path)
    }
}

/// No specification is of both lines of Yarn at once.
pub proof fn lemma_classic_excludes_berry(manager: PackageManager, spec: UnresolvedView)
    ensures
        !(yarn_classic(manager, spec) && yarn_berry(manager, spec)),
{
    reveal_strlit("legacy");
    reveal_strlit("classic");
    reveal_strlit("berry");
    reveal_strlit("latest");
    if let UnresolvedView::Alias(alias) = spec {
        if alias == "legacy"@ || alias == "classic"@ {
            assert(alias[1] != 'e' || alias[0] == 'l');
            assert(alias != "berry"@);
            assert(alias != "latest"@) by {
                if alias == "latest"@ {
                    assert(alias[1] == 'a');
                }
            }
        }
    }
}

/// A fully-qualified version of Yarn is of one line or the other: classic is
/// major version 1, berry every major version above it.
pub proof fn lemma_yarn_version_line(version: VersionView)
    ensures
        version.major >= 1 ==> (yarn_classic(PackageManager::Yarn, UnresolvedView::Version(version))
            != yarn_berry(PackageManager::Yarn, UnresolvedView::Version(version))),
{
}

/// A version of Yarn with major number 1 is held by the package `yarn`, one
/// with a greater major number by `@yarnpkg/cli-dist`.
pub proof fn lemma_yarn_package_of_version(version: VersionView)
    ensures
        version.major == 1 ==> package_name(PackageManager::Yarn, UnresolvedView::Version(version))
            == "yarn"@,
        version.major > 1 ==> package_name(PackageManager::Yarn, UnresolvedView::Version(version))
            == "@yarnpkg/cli-dist"@,
{
}

/// Telling the manager looks for `yarn` before `pnpm`, and an identifier that
/// holds neither is npm's.
pub proof fn lemma_detect_cases(id: Seq<char>)
    ensures
        has_substring(lowercase(id), "yarn"@) ==> detected(id) == PackageManager::Yarn,
        !has_substring(lowercase(id), "yarn"@) && has_substring(lowercase(id), "pnpm"@)
            ==> detected(id) == PackageManager::Pnpm,
        !has_substring(lowercase(id), "yarn"@) && !has_substring(lowercase(id), "pnpm"@)
            ==> detected(id) == PackageManager::Npm,
{
}

} // verus!
