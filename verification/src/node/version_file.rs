//! The version of Node.js that a version file asks for.

use vstd::prelude::*;
use vstd::string::*;
use crate::package_json::PackageJson;
use crate::text::{after_first, char_len, find_char, lemma_position, str_eq, substring};
use crate::version::{read_requested, reads_as, InvalidVersion, UnresolvedVersionSpec};

verus! {

/// The content of a file that holds nothing but a version, without a
/// comment line in front: where the content begins with `#`, what follows
/// its first line.
pub open spec fn without_comment(content: Seq<char>) -> Seq<char> {
    if content.len() > 0 && content[0] == '#' {
        match after_first(content, '\n') {
            Some(rest) => rest,
            None => Seq::empty(),
        }
    } else {
        content
    }
}

/// What a `package.json` asks of Node.js: by `engines`, else by `volta`.
pub open spec fn requested_node(package: PackageJson) -> Option<Seq<char>> {
    if package.engine("node"@) is Some {
        package.engine("node"@)
    } else {
        package.volta_pin("node"@)
    }
}

/// The version of Node.js that a file asks for, as text. A `package.json`
/// that could not be decoded asks for nothing; any other file is taken to
/// hold the version itself.
pub open spec fn node_version_text(file: Seq<char>, content: Seq<char>, package: Option<PackageJson>) -> Option<
    Seq<char>,
> {
    if file == "package.json"@ {
        match package {
            Some(package) => requested_node(package),
            None => None,
        }
    } else {
        Some(without_comment(content))
    }
}

/// Drops a comment line in front of a version.
pub fn strip_comment(content: &str) -> (rest: String)
    ensures
        rest@ == without_comment(content@),
{
    let len = char_len(content);
    if len == 0 || content.get_char(0) != '#' {
        return String::from_str(content);
    }
    let at = find_char(content, '\n');
    proof {
        lemma_position(content@, '\n');
    }
    if at < len {
        substring(content, at + 1, len)
    } else {
        String::new()
    }
}

/// Reads the version of Node.js that a version file asks for. `package` is
/// the decoded content where the file is a `package.json` that could be
/// decoded.
pub fn parse_version_file(file: &str, content: &str, package: Option<&PackageJson>) -> (read: Result<
    Option<UnresolvedVersionSpec>,
    InvalidVersion,
>)
    ensures
        reads_as(
            node_version_text(
                file@,
                content@,
                match package {
                    Some(package) => Some(*package),
                    None => None,
                },
            ),
            read,
        ),
{
    if str_eq(file, "package.json") {
        let text = match package {
            None => None,
            Some(package) => match package.get_engine("node") {
                Some(constraint) => Some(constraint.clone()),
                None => match package.get_volta("node") {
                    Some(version) => Some(version.clone()),
                    None => None,
                },
            },
        };
        read_requested(text)
    } else {
        read_requested(Some(strip_comment(content)))
    }
}

} // verus!
