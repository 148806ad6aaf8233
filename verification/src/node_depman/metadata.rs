//! How the package-manager plugin registers.

use vstd::prelude::*;
use vstd::string::*;
use crate::metadata::{DetectVersionOutput, MetadataView, PluginType, ToolMetadataOutput};
use crate::package_manager::{detected, manager_name, PackageManager};
use crate::text::texts;
use crate::version::{UnresolvedVersionSpec, UnresolvedView};

verus! {

/// How the plugin registers under an identifier: by the name of the manager
/// that the identifier names. npm defaults to the version that the active
/// Node.js bundles.
pub open spec fn registration(id: Seq<char>) -> MetadataView {
    MetadataView {
        name: manager_name(detected(id)),
        type_of: PluginType::DependencyManager,
        default_version: if detected(id) == PackageManager::Npm {
            Some(UnresolvedView::Alias("bundled"@))
        } else {
            None
        },
    }
}

/// Registers the plugin under the identifier `id`.
pub fn register_tool(id: &str) -> (metadata: ToolMetadataOutput)
    ensures
        metadata@ == registration(id@),
{
    let manager = PackageManager::detect(id);
    ToolMetadataOutput {
        name: manager.to_string(),
        type_of: PluginType::DependencyManager,
        default_version: match manager {
            PackageManager::Npm => Some(UnresolvedVersionSpec::Alias(String::from_str("bundled"))),
            _ => None,
        },
    }
}

/// Names the files in which a version of a package manager may stand.
pub fn detect_version_files() -> (out: DetectVersionOutput)
    ensures
        texts(out.files@) == seq!["package.json"@],
        texts(out.ignore@) == seq!["node_modules"@],
{
    let mut files: Vec<String> = Vec::new();
    files.push(String::from_str("package.json"));
    let mut ignore: Vec<String> = Vec::new();
    ignore.push(String::from_str("node_modules"));
    assert(texts(files@) =~= seq!["package.json"@]);
    assert(texts(ignore@) =~= seq!["node_modules"@]);
    DetectVersionOutput { files, ignore }
}

} // verus!
