//! Version resolution, download locations and global-install redirection for
//! the Node.js toolchain: `node` itself and the package managers `npm`, `pnpm`
//! and `yarn`.
//!
//! Every function here is a pure function over plain values. Fetching
//! documents, reading files, running processes and decoding JSON are left to
//! the caller, which hands the decoded values in.

pub mod catalog;
pub mod commands;
pub mod config;
pub mod depman;
pub mod download;
pub mod executables;
pub mod host;
pub mod metadata;
pub mod node;
pub mod node_depman;
pub mod node_dist;
pub mod package_json;
pub mod package_manager;
pub mod path;
pub mod registry;
pub mod resolution;
pub mod text;
pub mod version;
