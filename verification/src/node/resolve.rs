//! The aliases of Node.js: `node` and the LTS lines.

use vstd::prelude::*;
use vstd::string::*;
use crate::resolution::{unresolved, ResolutionView, ResolveVersionOutput};
use crate::text::{char_len, has_prefix, starts_with, str_eq, substring};
use crate::version::{UnresolvedVersionSpec, UnresolvedView};

verus! {

/// The alias of the catalog that an alias of Node.js stands for: `node` is
/// the latest release; `lts` in its spellings is the stable one; `lts-` or
/// `lts/` and a codename is that codename.
pub open spec fn node_alias(alias: Seq<char>) -> Option<Seq<char>> {
    if alias == "node"@ {
        Some("latest"@)
    } else if alias == "lts"@ || alias == "lts-latest"@ || alias == "lts-*"@ || alias == "lts/*"@ {
        Some("stable"@)
    } else if has_prefix(alias, "lts-"@) || has_prefix(alias, "lts/"@) {
        Some(alias.subrange(4, alias.len() as int))
    } else {
        None
    }
}

/// What resolving a specification of Node.js gives: for an alias that
/// stands for another, that other alias as the candidate.
pub open spec fn node_resolution(initial: UnresolvedView) -> ResolutionView {
    match initial {
        UnresolvedView::Alias(alias) => match node_alias(alias) {
            Some(candidate) => ResolutionView {
                candidate: Some(UnresolvedView::Alias(candidate)),
                version: None,
            },
            None => unresolved(),
        },
        _ => unresolved(),
    }
}

/// Resolves the aliases of Node.js to aliases of its catalog.
pub fn resolve_version(initial: &UnresolvedVersionSpec) -> (output: ResolveVersionOutput)
    ensures
        output@ == node_resolution(initial@),
{
    if let UnresolvedVersionSpec::Alias(alias) = initial {
        let alias = alias.as_str();
        let candidate = if str_eq(alias, "node") {
            String::from_str("latest")
        } else if str_eq(alias, "lts") || str_eq(alias, "lts-latest") || str_eq(alias, "lts-*")
            || str_eq(alias, "lts/*") {
            String::from_str("stable")
        } else if starts_with(alias, "lts-") || starts_with(alias, "lts/") {
            proof {
                reveal_strlit("lts-");
                reveal_strlit("lts/");
            }
            substring(alias, 4, char_len(alias))
        } else {
            return ResolveVersionOutput { candidate: None, version: None };
        };
        return ResolveVersionOutput {
            candidate: Some(UnresolvedVersionSpec::Alias(candidate)),
            version: None,
        };
    }
    ResolveVersionOutput { candidate: None, version: None }
}

/// An alias made of `lts-` and a codename resolves to that codename.
pub proof fn lemma_lts_codename(codename: Seq<char>)
    requires
        codename != "latest"@,
        codename != "*"@,
    ensures
        node_resolution(UnresolvedView::Alias("lts-"@ + codename)) == (ResolutionView {
            candidate: Some(UnresolvedView::Alias(codename)),
            version: None,
        }),
{
    reveal_strlit("lts-");
    reveal_strlit("lts");
    reveal_strlit("node");
    reveal_strlit("lts-latest");
    reveal_strlit("lts-*");
    reveal_strlit("lts/*");
    reveal_strlit("latest");
    reveal_strlit("*");
    let alias = "lts-"@ + codename;
    assert(alias.subrange(0, 4) =~= "lts-"@);
    assert(alias.subrange(4, alias.len() as int) =~= codename);
    assert(alias[3] == '-');
    assert(alias != "node"@);
    assert(alias != "lts"@);
    assert(alias != "lts/*"@);
    if alias == "lts-latest"@ {
        assert(codename =~= "latest"@);
    }
    if alias == "lts-*"@ {
        assert(codename =~= "*"@);
    }
}

} // verus!
