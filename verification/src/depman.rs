//! The package managers for hosts that create the shims themselves: where a
//! manager's binary and shims are, and where its archive is found.

use vstd::prelude::*;
use vstd::string::*;
use crate::download::{DownloadPrebuiltOutput, DownloadView};
use crate::host::HostOS;
use crate::metadata::{DetectVersionOutput, MetadataView, PluginType, ToolMetadataOutput};
use crate::package_json::PackageJson;
use crate::package_manager::{detected, manager_name, PackageManager};
use crate::text::{join2, texts};

verus! {

/// Registers the plugin under the identifier `id`: by the name of the
/// manager that the identifier names, with no version to default to.
pub fn register_tool(id: &str) -> (metadata: ToolMetadataOutput)
    ensures
        metadata@ == (MetadataView {
            name: manager_name(detected(id@)),
            type_of: PluginType::DependencyManager,
            default_version: None,
        }),
{
    ToolMetadataOutput {
        name: PackageManager::detect(id).to_string(),
        type_of: PluginType::DependencyManager,
        default_version: None,
    }
}

/// Names the one file in which a version of a package manager may stand.
pub fn detect_version_files() -> (out: DetectVersionOutput)
    ensures
        texts(out.files@) == seq!["package.json"@],
        out.ignore@.len() == 0,
{
    let mut files: Vec<String> = Vec::new();
    files.push(String::from_str("package.json"));
    assert(texts(files@) =~= seq!["package.json"@]);
    DetectVersionOutput { files, ignore: Vec::new() }
}

/// A shim: a small script that starts an executable.
#[derive(Debug, PartialEq, Eq)]
pub struct ShimConfig {
    /// The file to run, relative to the tool's directory.
    pub bin_path: Option<String>,
    /// The executable that runs the file.
    pub parent_bin: Option<String>,
    /// An argument to put before the user's.
    pub before_args: Option<String>,
}

/// The value of a [`ShimConfig`].
pub struct ShimView {
    pub bin_path: Option<Seq<char>>,
    pub parent_bin: Option<Seq<char>>,
    pub before_args: Option<Seq<char>>,
}

impl View for ShimConfig {
    type V = ShimView;

    open spec fn view(&self) -> ShimView {
        ShimView {
            bin_path: match self.bin_path {
                Some(text) => Some(text@),
                None => None,
            },
            parent_bin: match self.parent_bin {
                Some(text) => Some(text@),
                None => None,
            },
            before_args: match self.before_args {
                Some(text) => Some(text@),
                None => None,
            },
        }
    }
}

/// A shim by the name it is called by.
#[derive(Debug, PartialEq, Eq)]
pub struct NamedShim {
    pub name: String,
    pub config: ShimConfig,
}

/// The shims of a tool.
#[derive(Debug, PartialEq, Eq)]
pub struct CreateShimsOutput {
    pub primary: Option<ShimConfig>,
    pub global_shims: Vec<NamedShim>,
    pub local_shims: Vec<NamedShim>,
}

/// The names and values of a list of shims.
pub open spec fn shims(list: Seq<NamedShim>) -> Seq<(Seq<char>, ShimView)> {
    Seq::new(list.len(), |i: int| (list[i].name@, list[i].config@))
}

/// A shim for a script that `node` runs.
pub open spec fn script_shim(path: Seq<char>) -> ShimView {
    ShimView { bin_path: Some(path), parent_bin: Some("node"@), before_args: None }
}

/// A shim that only names the file to run.
pub open spec fn file_shim(path: Seq<char>) -> ShimView {
    ShimView { bin_path: Some(path), parent_bin: None, before_args: None }
}

/// A shim that says nothing.
pub open spec fn bare_shim() -> ShimView {
    ShimView { bin_path: None, parent_bin: None, before_args: None }
}

/// The shim inside the tool's directory: the manager itself, run by `node`.
pub open spec fn local_shims(manager: PackageManager) -> Seq<(Seq<char>, ShimView)> {
    match manager {
        PackageManager::Npm => seq![("npm"@, script_shim("bin/npm-cli.js"@))],
        PackageManager::Pnpm => seq![("pnpm"@, script_shim("bin/pnpm.cjs"@))],
        PackageManager::Yarn => seq![("yarn"@, script_shim("bin/yarn.js"@))],
    }
}

/// The shims beside the manager's own: `node-gyp` for npm, `pnpx` (pnpm
/// with `dlx` in front) for pnpm, `yarnpkg` for Yarn.
pub open spec fn global_shims(manager: PackageManager, os: HostOS) -> Seq<(Seq<char>, ShimView)> {
    match manager {
        PackageManager::Npm => seq![
            (
                "node-gyp"@,
                file_shim(
                    if os == HostOS::Windows {
                        "bin/node-gyp-bin/node-gyp.cmd"@
                    } else {
                        "bin/node-gyp-bin/node-gyp"@
                    },
                ),
            ),
        ],
        PackageManager::Pnpm => seq![
            ("pnpx"@, ShimView { bin_path: None, parent_bin: None, before_args: Some("dlx"@) }),
        ],
        PackageManager::Yarn => seq![("yarnpkg"@, bare_shim())],
    }
}

/// Describes the shims of `manager`.
pub fn create_shims(manager: PackageManager, os: HostOS) -> (out: CreateShimsOutput)
    ensures
        out.primary is Some,
        out.primary->Some_0@ == (ShimView {
            bin_path: None,
            parent_bin: Some("node"@),
            before_args: None,
        }),
        shims(out.global_shims@) == global_shims(manager, os),
        shims(out.local_shims@) == local_shims(manager),
{
    let mut global: Vec<NamedShim> = Vec::new();
    let mut local: Vec<NamedShim> = Vec::new();
    let node = String::from_str("node");
    match manager {
        PackageManager::Npm => {
            local.push(
                NamedShim {
                    name: String::from_str("npm"),
                    config: ShimConfig {
                        bin_path: Some(String::from_str("bin/npm-cli.js")),
                        parent_bin: Some(node.clone()),
                        before_args: None,
                    },
                },
            );
            let gyp = if os.is_windows() {
                String::from_str("bin/node-gyp-bin/node-gyp.cmd")
            } else {
                String::from_str("bin/node-gyp-bin/node-gyp")
            };
            global.push(
                NamedShim {
                    name: String::from_str("node-gyp"),
                    config: ShimConfig { bin_path: Some(gyp), parent_bin: None, before_args: None },
                },
            );
        },
        PackageManager::Pnpm => {
            local.push(
                NamedShim {
                    name: String::from_str("pnpm"),
                    config: ShimConfig {
                        bin_path: Some(String::from_str("bin/pnpm.cjs")),
                        parent_bin: Some(node.clone()),
                        before_args: None,
                    },
                },
            );
            global.push(
                NamedShim {
                    name: String::from_str("pnpx"),
                    config: ShimConfig {
                        bin_path: None,
                        parent_bin: None,
                        before_args: Some(String::from_str("dlx")),
                    },
                },
            );
        },
        PackageManager::Yarn => {
            local.push(
                NamedShim {
                    name: String::from_str("yarn"),
                    config: ShimConfig {
                        bin_path: Some(String::from_str("bin/yarn.js")),
                        parent_bin: Some(node.clone()),
                        before_args: None,
                    },
                },
            );
            global.push(
                NamedShim {
                    name: String::from_str("yarnpkg"),
                    config: ShimConfig { bin_path: None, parent_bin: None, before_args: None },
                },
            );
        },
    }
    assert(shims(global@) =~= global_shims(manager, os));
    assert(shims(local@) =~= local_shims(manager));
    CreateShimsOutput {
        primary: Some(ShimConfig { bin_path: None, parent_bin: Some(node), before_args: None }),
        global_shims: global,
        local_shims: local,
    }
}

/// Where the binary of a tool is.
#[derive(Debug, PartialEq, Eq)]
pub struct LocateBinsOutput {
    pub bin_path: Option<String>,
    pub globals_lookup_dirs: Vec<String>,
}

/// The file that starts a manager where its `package.json` names none.
pub open spec fn default_bin(manager: PackageManager) -> Seq<char> {
    match manager {
        PackageManager::Pnpm => "bin/pnpm.cjs"@,
        _ => "bin/"@ + manager_name(manager),
    }
}

/// The file that starts a manager: what its `package.json` names under the
/// manager's name, if the file is there and names one, else the default.
pub open spec fn manager_bin(manager: PackageManager, package: Option<PackageJson>) -> Seq<char> {
    match package {
        Some(package) => match package.executable(manager_name(manager)) {
            Some(path) => path,
            None => default_bin(manager),
        },
        None => default_bin(manager),
    }
}

/// Says where the binary of `manager` is, given the decoded `package.json`
/// of the installed manager where there is one.
pub fn locate_bins(manager: PackageManager, package: Option<&PackageJson>) -> (out: LocateBinsOutput)
    ensures
        out.bin_path is Some,
        out.bin_path->Some_0@ == manager_bin(
            manager,
            match package {
                Some(package) => Some(*package),
                None => None,
            },
        ),
        texts(out.globals_lookup_dirs@) == seq!["$PROTO_ROOT/tools/node/globals/bin"@],
{
    let name = manager.to_string();
    let named = match package {
        Some(package) => match package.get_executable(name.as_str()) {
            Some(path) => Some(path.clone()),
            None => None,
        },
        None => None,
    };
    let bin = match named {
        Some(path) => path,
        None => match manager {
            PackageManager::Pnpm => String::from_str("bin/pnpm.cjs"),
            _ => join2("bin/", name.as_str()),
        },
    };
    let mut dirs: Vec<String> = Vec::new();
    dirs.push(String::from_str("$PROTO_ROOT/tools/node/globals/bin"));
    assert(texts(dirs@) =~= seq!["$PROTO_ROOT/tools/node/globals/bin"@]);
    LocateBinsOutput { bin_path: Some(bin), globals_lookup_dirs: dirs }
}

/// Where the archive of a version is found, by the version's text: in the
/// registry under the manager's own name. Yarn's archive holds a directory
/// named after the version, the others `package`.
pub open spec fn archive_of(manager: PackageManager, version: Seq<char>) -> DownloadView {
    let name = manager_name(manager);
    DownloadView {
        archive_prefix: Some(
            if manager == PackageManager::Yarn {
                "yarn-v"@ + version
            } else {
                "package"@
            },
        ),
        checksum_url: None,
        download_name: None,
        download_url: "https://registry.npmjs.org/"@ + name + "/-/"@ + name + "-"@ + version
            + ".tgz"@,
    }
}

/// Says where the archive of a version of `manager` is found.
pub fn download_prebuilt(manager: PackageManager, version: &str) -> (out: DownloadPrebuiltOutput)
    ensures
        out@ == archive_of(manager, version@),
{
    let name = manager.to_string();
    let mut url = String::from_str("https://registry.npmjs.org/");
    url.append(name.as_str());
    url.append("/-/");
    url.append(name.as_str());
    url.append("-");
    url.append(version);
    url.append(".tgz");
    let prefix = match manager {
        PackageManager::Yarn => join2("yarn-v", version),
        _ => String::from_str("package"),
    };
    DownloadPrebuiltOutput {
        archive_prefix: Some(prefix),
        checksum_url: None,
        download_name: None,
        download_url: url,
    }
}

} // verus!
