//! The operations of the package-manager plugin (npm, pnpm, yarn).

pub mod download;
pub mod executables;
pub mod hooks;
pub mod metadata;
pub mod resolve;
pub mod version_file;
pub mod versions;

pub use download::download_prebuilt;
pub use executables::locate_executables;
pub use hooks::pre_run;
pub use metadata::{detect_version_files, register_tool};
pub use resolve::resolve_version;
pub use version_file::parse_version_file;
pub use versions::load_versions;
