//! The operations of the Node.js plugin.

pub mod download;
pub mod resolve;
pub mod tool;
pub mod version_file;
pub mod versions;

pub use download::{download_prebuilt, map_arch};
pub use resolve::resolve_version;
pub use tool::{
    detect_version_files,
    install_global,
    locate_bins,
    locate_executables,
    post_install,
    register_tool,
    uninstall_global,
};
pub use version_file::parse_version_file;
pub use versions::load_versions;
