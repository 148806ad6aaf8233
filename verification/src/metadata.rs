//! What a plugin tells the host about itself.

use vstd::prelude::*;
use crate::version::{UnresolvedVersionSpec, UnresolvedView};

verus! {

/// The kinds of tools.
#[derive(Debug, Clone, Copy, PartialEq, Eq, Structural)]
pub enum PluginType {
    CommandLine,
    DependencyManager,
    Language,
    VersionManager,
}

/// How a tool registers.
#[derive(Debug, PartialEq, Eq)]
pub struct ToolMetadataOutput {
    pub name: String,
    pub type_of: PluginType,
    /// The version to use where the user asks for none.
    pub default_version: Option<UnresolvedVersionSpec>,
}

/// The value of a [`ToolMetadataOutput`].
pub struct MetadataView {
    pub name: Seq<char>,
    pub type_of: PluginType,
    pub default_version: Option<UnresolvedView>,
}

impl View for ToolMetadataOutput {
    type V = MetadataView;

    open spec fn view(&self) -> MetadataView {
        MetadataView {
            name: self.name@,
            type_of: self.type_of,
            default_version: match self.default_version {
                Some(spec) => Some(spec@),
                None => None,
            },
        }
    }
}

/// The files that may name a version, and the directories not to look into.
#[derive(Debug, PartialEq, Eq)]
pub struct DetectVersionOutput {
    pub files: Vec<String>,
    pub ignore: Vec<String>,
}

} // verus!
