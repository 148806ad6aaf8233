//! The archives of Node.js releases.

use vstd::prelude::*;
use vstd::string::*;
use crate::download::{DownloadPrebuiltOutput, DownloadView, PluginError, PluginFailure};
use crate::host::{HostArch, HostEnvironment, HostOS};
use crate::node_dist::NodeDistVersion;
use crate::text::{join2, join3};
use crate::version::{
    asks_canary,
    parsed_version_spec,
    text_of,
    InvalidVersion,
    VersionSpec,
    VersionSpecView,
};

verus! {

/// Whether Node.js is built for the operating system.
pub open spec fn os_supported(os: HostOS) -> bool {
    os == HostOS::Linux || os == HostOS::MacOS || os == HostOS::Windows
}

/// Whether Node.js is built for the architecture on the operating system.
pub open spec fn target_supported(os: HostOS, arch: HostArch) -> bool {
    match os {
        HostOS::Linux => arch == HostArch::X64 || arch == HostArch::Arm64 || arch == HostArch::Arm
            || arch == HostArch::Powerpc64 || arch == HostArch::S390x,
        HostOS::MacOS => arch == HostArch::X64 || arch == HostArch::Arm64,
        HostOS::Windows => arch == HostArch::X64 || arch == HostArch::X86 || arch
            == HostArch::Arm64,
        _ => false,
    }
}

/// Why Node.js is not offered for a host, if it is not.
pub open spec fn unsupported(os: HostOS, arch: HostArch) -> Option<PluginFailure> {
    if !os_supported(os) {
        Some(PluginFailure::UnsupportedOS { tool: "Node.js"@, os })
    } else if !target_supported(os, arch) {
        Some(PluginFailure::UnsupportedTarget { tool: "Node.js"@, arch, os })
    } else {
        None
    }
}

/// The name of an architecture in the file names of Node.js, for those it
/// is built for.
pub open spec fn arch_name(os: HostOS, arch: HostArch) -> Option<Seq<char>> {
    match arch {
        HostArch::Arm => Some("armv7l"@),
        HostArch::Arm64 => Some("arm64"@),
        HostArch::Powerpc64 => if os == HostOS::Linux {
            Some("ppc64le"@)
        } else {
            Some("ppc64"@)
        },
        HostArch::S390x => Some("s390x"@),
        HostArch::X64 => Some("x64"@),
        HostArch::X86 => Some("x86"@),
        _ => None,
    }
}

/// The major version that decides between the builds for macOS: that of a
/// fully-qualified version, else one for which the host's own build exists.
pub open spec fn deciding_major(spec: VersionSpecView) -> u32 {
    match spec {
        VersionSpecView::Version(version) => version.major,
        _ => 20,
    }
}

/// The name of the archive without its ending, which is also the directory
/// inside it. Before version 16 there is no build for Apple's ARM machines,
/// which run the one for x64.
pub open spec fn archive_stem(os: HostOS, arch: HostArch, spec: VersionSpecView) -> Seq<char>
    recommends
        target_supported(os, arch),
{
    let name = arch_name(os, arch)->Some_0;
    match os {
        HostOS::MacOS => if arch == HostArch::Arm64 && deciding_major(spec) < 16 {
            "node-v"@ + text_of(spec) + "-darwin-x64"@
        } else {
            "node-v"@ + text_of(spec) + "-darwin-"@ + name
        },
        HostOS::Windows => "node-v"@ + text_of(spec) + "-win-"@ + name,
        _ => "node-v"@ + text_of(spec) + "-linux-"@ + name,
    }
}

/// The ending of the archives for an operating system.
pub open spec fn archive_ending(os: HostOS) -> Seq<char> {
    if os == HostOS::Windows {
        ".zip"@
    } else {
        ".tar.xz"@
    }
}

/// The directory of the releases, or of the nightly builds.
pub open spec fn download_host(nightly: bool) -> Seq<char> {
    if nightly {
        "https://nodejs.org/download/nightly"@
    } else {
        "https://nodejs.org/download/release"@
    }
}

/// Where the archive of a version is found on a host that Node.js is built
/// for.
pub open spec fn node_download(os: HostOS, arch: HostArch, spec: VersionSpecView, nightly: bool) -> DownloadView
    recommends
        target_supported(os, arch),
{
    let stem = archive_stem(os, arch, spec);
    let file = stem + archive_ending(os);
    let folder = download_host(nightly) + "/v"@ + text_of(spec) + "/"@;
    DownloadView {
        archive_prefix: Some(stem),
        checksum_url: Some(folder + "SHASUMS256.txt"@),
        download_name: Some(file),
        download_url: folder + file,
    }
}

/// Tells whether Node.js is built for the host.
pub fn check_supported_os_and_arch(os: HostOS, arch: HostArch) -> (checked: Result<(), PluginError>)
    ensures
        match unsupported(os, arch) {
            Some(failure) => checked is Err && checked->Err_0@ == failure,
            None => checked is Ok,
        },
{
    let known = match os {
        HostOS::Linux => match arch {
            HostArch::X64 | HostArch::Arm64 | HostArch::Arm | HostArch::Powerpc64 | HostArch::S390x => true,
            _ => false,
        },
        HostOS::MacOS => match arch {
            HostArch::X64 | HostArch::Arm64 => true,
            _ => false,
        },
        HostOS::Windows => match arch {
            HostArch::X64 | HostArch::X86 | HostArch::Arm64 => true,
            _ => false,
        },
        _ => {
            return Err(PluginError::UnsupportedOS { tool: String::from_str("Node.js"), os });
        },
    };
    if known {
        Ok(())
    } else {
        Err(PluginError::UnsupportedTarget { tool: String::from_str("Node.js"), arch, os })
    }
}

/// The name of an architecture in the file names of Node.js.
pub fn map_arch(os: HostOS, arch: HostArch) -> (name: Result<String, PluginError>)
    ensures
        match arch_name(os, arch) {
            Some(text) => name is Ok && name->Ok_0@ == text,
            None => name is Err && name->Err_0@ == (PluginFailure::UnsupportedTarget {
                tool: "Node.js"@,
                arch,
                os,
            }),
        },
{
    let name = match arch {
        HostArch::Arm => "armv7l",
        HostArch::Arm64 => "arm64",
        HostArch::Powerpc64 => match os {
            HostOS::Linux => "ppc64le",
            _ => "ppc64",
        },
        HostArch::S390x => "s390x",
        HostArch::X64 => "x64",
        HostArch::X86 => "x86",
        _ => {
            return Err(
                PluginError::UnsupportedTarget { tool: String::from_str("Node.js"), arch, os },
            );
        },
    };
    Ok(String::from_str(name))
}

/// Says where the archive of `version` is found, from the releases or from
/// the nightly builds.
pub fn locate_archive(env: &HostEnvironment, version: &VersionSpec, nightly: bool) -> (out: Result<
    DownloadPrebuiltOutput,
    PluginError,
>)
    ensures
        match unsupported(env.os, env.arch) {
            Some(failure) => out is Err && out->Err_0@ == failure,
            None => out is Ok && out->Ok_0@ == node_download(env.os, env.arch, version@, nightly),
        },
{
    check_supported_os_and_arch(env.os, env.arch)?;
    let arch = map_arch(env.os, env.arch)?;
    let host = if nightly {
        "https://nodejs.org/download/nightly"
    } else {
        "https://nodejs.org/download/release"
    };
    let text = version.to_string();
    let mut prefix = join2("node-v", text.as_str());
    match env.os {
        HostOS::MacOS => {
            let major: u32 = match version {
                VersionSpec::Version(v) => v.major,
                _ => 20,
            };
            // Before v16 Apple's ARM machines run the x64 build.
            let old_arm = match env.arch {
                HostArch::Arm64 => major < 16,
                _ => false,
            };
            if old_arm {
                prefix.append("-darwin-x64");
            } else {
                prefix.append("-darwin-");
                prefix.append(arch.as_str());
            }
        },
        HostOS::Windows => {
            prefix.append("-win-");
            prefix.append(arch.as_str());
        },
        _ => {
            prefix.append("-linux-");
            prefix.append(arch.as_str());
        },
    }
    let filename = match env.os {
        HostOS::Windows => join2(prefix.as_str(), ".zip"),
        _ => join2(prefix.as_str(), ".tar.xz"),
    };
    let mut folder = join3(host, "/v", text.as_str());
    folder.append("/");
    Ok(
        DownloadPrebuiltOutput {
            archive_prefix: Some(prefix),
            checksum_url: Some(join2(folder.as_str(), "SHASUMS256.txt")),
            download_url: join2(folder.as_str(), filename.as_str()),
            download_name: Some(filename),
        },
    )
}

/// How far locating the archive got.
#[derive(Debug, PartialEq, Eq)]
pub enum DownloadStep {
    /// The archive is located.
    Located(DownloadPrebuiltOutput),
    /// A canary build is asked for: the index of the nightly builds is
    /// needed.
    NeedsNightlyIndex,
}

/// Why the archive could not be located.
#[derive(Debug, PartialEq, Eq)]
pub enum DownloadError {
    /// Node.js is not built for the host.
    Unsupported(PluginError),
    /// The index of the nightly builds is empty.
    NoNightlyBuild,
    /// The newest nightly build carries a version that is none.
    InvalidVersion(InvalidVersion),
}

/// What locating the archive of `version` comes to. A canary build is the
/// newest nightly build, which the first entry of the nightly index names;
/// without that index it is asked for.
pub open spec fn locating(
    env: HostEnvironment,
    version: VersionSpecView,
    nightly: Option<Seq<NodeDistVersion>>,
    out: Result<DownloadStep, DownloadError>,
) -> bool {
    if unsupported(env.os, env.arch) is Some {
        out is Err && out->Err_0 is Unsupported && out->Err_0->Unsupported_0@ == unsupported(
            env.os,
            env.arch,
        )->Some_0
    } else if !asks_canary(version) {
        out is Ok && out->Ok_0 is Located && out->Ok_0->Located_0@ == node_download(
            env.os,
            env.arch,
            version,
            false,
        )
    } else {
        match nightly {
            None => out is Ok && out->Ok_0 is NeedsNightlyIndex,
            Some(index) => if index.len() == 0 {
                out is Err && out->Err_0 is NoNightlyBuild
            } else {
                match parsed_version_spec(index[0].version@) {
                    None => out is Err && out->Err_0 is InvalidVersion
                        && out->Err_0->InvalidVersion_0.text@ == index[0].version@,
                    Some(newest) => out is Ok && out->Ok_0 is Located && out->Ok_0->Located_0@
                        == node_download(env.os, env.arch, newest, true),
                }
            },
        }
    }
}

/// Locates the archive of `version`. For a canary build the index of the
/// nightly builds is needed: without it the result asks for it.
pub fn download_prebuilt(
    env: &HostEnvironment,
    version: &VersionSpec,
    nightly: Option<&Vec<NodeDistVersion>>,
) -> (out: Result<DownloadStep, DownloadError>)
    ensures
        locating(
            *env,
            version@,
            match nightly {
                Some(index) => Some(index@),
                None => None,
            },
            out,
        ),
{
    match check_supported_os_and_arch(env.os, env.arch) {
        Ok(()) => {},
        Err(error) => {
            return Err(DownloadError::Unsupported(error));
        },
    }
    if !version.is_canary() {
        return match locate_archive(env, version, false) {
            Ok(located) => Ok(DownloadStep::Located(located)),
            Err(error) => Err(DownloadError::Unsupported(error)),
        };
    }
    let index = match nightly {
        None => {
            return Ok(DownloadStep::NeedsNightlyIndex);
        },
        Some(index) => index,
    };
    if index.len() == 0 {
        return Err(DownloadError::NoNightlyBuild);
    }
    let newest = match VersionSpec::parse(index[0].version.as_str()) {
        Ok(newest) => newest,
        Err(invalid) => {
            return Err(DownloadError::InvalidVersion(invalid));
        },
    };
    match locate_archive(env, &newest, true) {
        Ok(located) => Ok(DownloadStep::Located(located)),
        Err(error) => Err(DownloadError::Unsupported(error)),
    }
}

} // verus!
