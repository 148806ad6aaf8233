//! Per-tool configuration, as the host hands it over.

use vstd::prelude::*;
use vstd::string::*;

verus! {

/// Configuration of the Node.js plugin.
#[derive(Debug, PartialEq, Eq)]
pub struct NodePluginConfig {
    /// Install the npm that a Node.js release bundles after that release.
    pub bundled_npm: bool,
    /// Template of the download address, with `{version}` and `{file}`.
    pub dist_url: String,
}

impl Default for NodePluginConfig {
    fn default() -> (config: Self)
        ensures
            !config.bundled_npm,
            config.dist_url@ == "https://nodejs.org/download/release/v{version}/{file}"@,
    {
        NodePluginConfig {
            bundled_npm: false,
            dist_url: String::from_str("https://nodejs.org/download/release/v{version}/{file}"),
        }
    }
}

/// Configuration of the package-manager plugin.
#[derive(Debug, Clone, Copy, PartialEq, Eq)]
pub struct NodeDepmanPluginConfig {
    /// Redirect global installs into the shared, manager-owned directory.
    pub shared_globals_dir: bool,
}

impl Default for NodeDepmanPluginConfig {
    fn default() -> (config: Self)
        ensures
            !config.shared_globals_dir,
    {
        NodeDepmanPluginConfig { shared_globals_dir: false }
    }
}

} // verus!
