//! What resolving an alias hands back to the host.

use vstd::prelude::*;
use crate::version::{UnresolvedVersionSpec, UnresolvedView, VersionSpec, VersionSpecView};

verus! {

/// What resolving an alias gives: a specification to resolve in its place, or
/// the version itself.
#[derive(Debug, PartialEq, Eq)]
pub struct ResolveVersionOutput {
    pub candidate: Option<UnresolvedVersionSpec>,
    pub version: Option<VersionSpec>,
}

/// The value of a [`ResolveVersionOutput`].
pub struct ResolutionView {
    pub candidate: Option<UnresolvedView>,
    pub version: Option<VersionSpecView>,
}

impl View for ResolveVersionOutput {
    type V = ResolutionView;

    open spec fn view(&self) -> ResolutionView {
        ResolutionView {
            candidate: match self.candidate {
                Some(spec) => Some(spec@),
                None => None,
            },
            version: match self.version {
                Some(spec) => Some(spec@),
                None => None,
            },
        }
    }
}

/// Nothing resolved: the host goes on with the specification as it is.
pub open spec fn unresolved() -> ResolutionView {
    ResolutionView { candidate: None, version: None }
}

} // verus!
