//! Where a prebuilt archive is downloaded from.

use vstd::prelude::*;
use crate::host::{HostArch, HostOS};

verus! {

/// The archive of one version of a tool.
#[derive(Debug, PartialEq, Eq)]
pub struct DownloadPrebuiltOutput {
    /// The directory inside the archive that holds the tool.
    pub archive_prefix: Option<String>,
    /// Where the checksums of the release are found.
    pub checksum_url: Option<String>,
    /// The file name of the archive.
    pub download_name: Option<String>,
    /// Where the archive is found.
    pub download_url: String,
}

/// The value of a [`DownloadPrebuiltOutput`].
pub struct DownloadView {
    pub archive_prefix: Option<Seq<char>>,
    pub checksum_url: Option<Seq<char>>,
    pub download_name: Option<Seq<char>>,
    pub download_url: Seq<char>,
}

impl View for DownloadPrebuiltOutput {
    type V = DownloadView;

    open spec fn view(&self) -> DownloadView {
        DownloadView {
            archive_prefix: match self.archive_prefix {
                Some(text) => Some(text@),
                None => None,
            },
            checksum_url: match self.checksum_url {
                Some(text) => Some(text@),
                None => None,
            },
            download_name: match self.download_name {
                Some(text) => Some(text@),
                None => None,
            },
            download_url: self.download_url@,
        }
    }
}

/// Why a tool cannot be offered.
#[derive(Debug, PartialEq, Eq)]
pub enum PluginError {
    /// The tool has no canary builds.
    UnsupportedCanary { tool: String },
    /// The tool is not built for the operating system.
    UnsupportedOS { tool: String, os: HostOS },
    /// The tool is not built for the architecture on that operating system.
    UnsupportedTarget { tool: String, arch: HostArch, os: HostOS },
}

/// The value of a [`PluginError`].
pub enum PluginFailure {
    UnsupportedCanary { tool: Seq<char> },
    UnsupportedOS { tool: Seq<char>, os: HostOS },
    UnsupportedTarget { tool: Seq<char>, arch: HostArch, os: HostOS },
}

impl View for PluginError {
    type V = PluginFailure;

    open spec fn view(&self) -> PluginFailure {
        match self {
            PluginError::UnsupportedCanary { tool } => PluginFailure::UnsupportedCanary {
                tool: tool@,
            },
            PluginError::UnsupportedOS { tool, os } => PluginFailure::UnsupportedOS {
                tool: tool@,
                os: *os,
            },
            PluginError::UnsupportedTarget { tool, arch, os } => PluginFailure::UnsupportedTarget {
                tool: tool@,
                arch: *arch,
                os: *os,
            },
        }
    }
}

/// Whether what was computed is what was to be computed.
pub open spec fn located(
    out: Result<DownloadPrebuiltOutput, PluginError>,
    location: Result<DownloadView, PluginFailure>,
) -> bool {
    match location {
        Ok(download) => out is Ok && out->Ok_0@ == download,
        Err(failure) => out is Err && out->Err_0@ == failure,
    }
}

} // verus!
