//! The version of a package manager that a `package.json` asks for.

use vstd::prelude::*;
use vstd::string::*;
use crate::package_json::PackageJson;
use crate::package_manager::{manager_name, PackageManager};
use crate::text::{
    after_first,
    before_first,
    char_len,
    find_char,
    lemma_position,
    position,
    str_eq,
    substring,
};
use crate::version::{read_requested, reads_as, InvalidVersion, UnresolvedVersionSpec};

verus! {

/// The tool that a `packageManager` field names: what stands before its
/// first `@`.
pub open spec fn corepack_name(field: Seq<char>) -> Seq<char> {
    before_first(field, '@')
}

/// The version that a `packageManager` field names: what stands between its
/// first `@` and the next, without a hash that `+` introduces; `latest` where
/// the field holds no `@`.
pub open spec fn corepack_version(field: Seq<char>) -> Seq<char> {
    match after_first(field, '@') {
        None => "latest"@,
        Some(rest) => before_first(before_first(rest, '@'), '+'),
    }
}

/// The version of the tool `name` that a `package.json` asks for: by
/// `packageManager` where that field names the tool, else by `engines`, else
/// by `volta`.
pub open spec fn requested_version(name: Seq<char>, package: PackageJson) -> Option<Seq<char>> {
    if package.package_manager is Some && corepack_name(package.package_manager->Some_0@) == name {
        Some(corepack_version(package.package_manager->Some_0@))
    } else if package.engine(name) is Some {
        package.engine(name)
    } else {
        package.volta_pin(name)
    }
}

/// Takes a `packageManager` field apart into the tool and the version.
pub fn split_corepack(field: &str) -> (parts: (String, String))
    ensures
        parts.0@ == corepack_name(field@),
        parts.1@ == corepack_version(field@),
{
    let len = char_len(field);
    let at = find_char(field, '@');
    proof {
        lemma_position(field@, '@');
    }
    let name = substring(field, 0, at);
    if at == len {
        return (name, String::from_str("latest"));
    }
    let rest = substring(field, at + 1, len);
    let next = find_char(rest.as_str(), '@');
    proof {
        lemma_position(rest@, '@');
    }
    let version = substring(rest.as_str(), 0, next);
    let plus = find_char(version.as_str(), '+');
    proof {
        lemma_position(version@, '+');
    }
    (name, substring(version.as_str(), 0, plus))
}

/// Finds the version of the tool `name` that a `package.json` asks for.
pub fn find_requested_version(name: &str, package: &PackageJson) -> (version: Option<String>)
    ensures
        match requested_version(name@, *package) {
            Some(text) => version is Some && version->Some_0@ == text,
            None => version is None,
        },
{
    if let Some(field) = &package.package_manager {
        let (tool, version) = split_corepack(field.as_str());
        if str_eq(tool.as_str(), name) {
            return Some(version);
        }
    }
    if let Some(constraint) = package.get_engine(name) {
        return Some(constraint.clone());
    }
    match package.get_volta(name) {
        Some(version) => Some(version.clone()),
        None => None,
    }
}

/// The version that a file asks for, as text: only a `package.json` that
/// could be decoded asks for one.
pub open spec fn version_file_text(
    manager: PackageManager,
    file: Seq<char>,
    package: Option<PackageJson>,
) -> Option<Seq<char>> {
    if file == "package.json"@ && package is Some {
        requested_version(manager_name(manager), package->Some_0)
    } else {
        None
    }
}

/// Reads the version of `manager` that a version file asks for. `package` is
/// the decoded file, or `None` where it could not be decoded, which counts
/// as a file that asks for nothing.
pub fn parse_version_file(manager: PackageManager, file: &str, package: Option<&PackageJson>) -> (read:
    Result<Option<UnresolvedVersionSpec>, InvalidVersion>)
    ensures
        reads_as(
            version_file_text(
                manager,
                file@,
                match package {
                    Some(package) => Some(*package),
                    None => None,
                },
            ),
            read,
        ),
{
    if !str_eq(file, "package.json") {
        return Ok(None);
    }
    match package {
        None => Ok(None),
        Some(package) => {
            let name = manager.to_string();
            read_requested(find_requested_version(name.as_str(), package))
        },
    }
}

} // verus!
