//! How Node.js registers, where its executable is, and the commands and
//! hooks around its global packages.

use vstd::prelude::*;
use vstd::string::*;
use crate::commands::{
    get_global_prefix,
    global_prefix,
    install_args,
    install_marker,
    uninstall_args,
    variables,
    ExecCommandInput,
};
use crate::config::NodePluginConfig;
use crate::executables::{named, plain_executable, ExecutableConfig, LocateExecutablesOutput};
use crate::host::HostOS;
use crate::metadata::{DetectVersionOutput, MetadataView, PluginType, ToolMetadataOutput};
use crate::text::{has_text, texts};

verus! {

/// Registers the plugin.
pub fn register_tool() -> (metadata: ToolMetadataOutput)
    ensures
        metadata@ == (MetadataView {
            name: "Node.js"@,
            type_of: PluginType::Language,
            default_version: None,
        }),
{
    ToolMetadataOutput {
        name: String::from_str("Node.js"),
        type_of: PluginType::Language,
        default_version: None,
    }
}

/// Names the files in which a version of Node.js may stand.
pub fn detect_version_files() -> (out: DetectVersionOutput)
    ensures
        texts(out.files@) == seq![".nvmrc"@, ".node-version"@, "package.json"@],
        texts(out.ignore@) == seq!["node_modules"@],
{
    let mut files: Vec<String> = Vec::new();
    files.push(String::from_str(".nvmrc"));
    files.push(String::from_str(".node-version"));
    files.push(String::from_str("package.json"));
    let mut ignore: Vec<String> = Vec::new();
    ignore.push(String::from_str("node_modules"));
    assert(texts(files@) =~= seq![".nvmrc"@, ".node-version"@, "package.json"@]);
    assert(texts(ignore@) =~= seq!["node_modules"@]);
    DetectVersionOutput { files, ignore }
}

/// Where the executable is, inside an installed Node.js.
pub open spec fn node_executable(os: HostOS) -> Seq<char> {
    if os == HostOS::Windows {
        "node.exe"@
    } else {
        "bin/node"@
    }
}

/// Describes the executable of Node.js and where its globals are found.
pub fn locate_executables(os: HostOS) -> (out: LocateExecutablesOutput)
    ensures
        out.primary is Some,
        out.primary->Some_0@ == plain_executable(node_executable(os)),
        out.secondary@.len() == 0,
        texts(out.globals_lookup_dirs@) == seq!["$PROTO_HOME/tools/node/globals/bin"@],
{
    let mut dirs: Vec<String> = Vec::new();
    dirs.push(String::from_str("$PROTO_HOME/tools/node/globals/bin"));
    assert(texts(dirs@) =~= seq!["$PROTO_HOME/tools/node/globals/bin"@]);
    let primary = if os.is_windows() {
        ExecutableConfig::new("node.exe")
    } else {
        ExecutableConfig::new("bin/node")
    };
    LocateExecutablesOutput {
        globals_lookup_dirs: dirs,
        primary: Some(primary),
        secondary: Vec::new(),
    }
}

/// Where the binary of a tool is, for hosts that ask for binaries.
#[derive(Debug, PartialEq, Eq)]
pub struct LocateBinsOutput {
    pub bin_path: Option<String>,
    /// Where none of the directories exists, the last one is taken.
    pub fallback_last_globals_dir: bool,
    pub globals_lookup_dirs: Vec<String>,
}

/// Says where the binary of Node.js is.
pub fn locate_bins(os: HostOS) -> (out: LocateBinsOutput)
    ensures
        out.bin_path is Some,
        out.bin_path->Some_0@ == node_executable(os),
        out.fallback_last_globals_dir,
        texts(out.globals_lookup_dirs@) == seq!["$PROTO_HOME/tools/node/globals/bin"@],
{
    let mut dirs: Vec<String> = Vec::new();
    dirs.push(String::from_str("$PROTO_HOME/tools/node/globals/bin"));
    assert(texts(dirs@) =~= seq!["$PROTO_HOME/tools/node/globals/bin"@]);
    let bin = if os.is_windows() {
        String::from_str("node.exe")
    } else {
        String::from_str("bin/node")
    };
    LocateBinsOutput { bin_path: Some(bin), fallback_last_globals_dir: true, globals_lookup_dirs: dirs }
}

/// The command that installs `dependency` into the globals directory whose
/// real path is `globals_dir`.
pub fn install_global(os: HostOS, dependency: &str, globals_dir: &str) -> (cmd: ExecCommandInput)
    ensures
        cmd.command@ == "npm"@,
        texts(cmd.args@) == install_args(dependency@, global_prefix(os, globals_dir@)),
        variables(cmd.env@) == install_marker(),
{
    crate::commands::install_global(dependency, get_global_prefix(os, globals_dir))
}

/// The command that removes `dependency` from the globals directory whose
/// real path is `globals_dir`.
pub fn uninstall_global(os: HostOS, dependency: &str, globals_dir: &str) -> (cmd: ExecCommandInput)
    ensures
        cmd.command@ == "npm"@,
        texts(cmd.args@) == uninstall_args(dependency@, global_prefix(os, globals_dir@)),
        variables(cmd.env@) == install_marker(),
{
    crate::commands::uninstall_global(dependency, get_global_prefix(os, globals_dir))
}

/// The arguments by which the host installs the npm that a release of
/// Node.js bundles, after that release: nothing where that is switched off
/// or the user passed `--no-bundled-npm`. The user's arguments follow a `--`.
pub open spec fn bundled_npm_install(bundled_npm: bool, passthrough: Seq<Seq<char>>, pinned: bool) -> Option<
    Seq<Seq<char>>,
> {
    if !bundled_npm || passthrough.contains("--no-bundled-npm"@) {
        None
    } else {
        let head = if pinned {
            seq!["install"@, "npm"@, "bundled"@, "--pin"@]
        } else {
            seq!["install"@, "npm"@, "bundled"@]
        };
        if passthrough.len() == 0 {
            Some(head)
        } else {
            Some(head + seq!["--"@] + passthrough)
        }
    }
}

/// Decides, after Node.js was installed, whether the bundled npm is
/// installed too, and gives the arguments for the host's own command.
pub fn post_install(config: &NodePluginConfig, passthrough_args: &Vec<String>, pinned: bool) -> (args:
    Option<Vec<String>>)
    ensures
        match bundled_npm_install(config.bundled_npm, texts(passthrough_args@), pinned) {
            Some(list) => args is Some && texts(args->Some_0@) == list,
            None => args is None,
        },
{
    if !config.bundled_npm || has_text(passthrough_args, "--no-bundled-npm") {
        return None;
    }
    let mut args: Vec<String> = Vec::new();
    args.push(String::from_str("install"));
    args.push(String::from_str("npm"));
    args.push(String::from_str("bundled"));
    if pinned {
        args.push(String::from_str("--pin"));
    }
    let ghost head = texts(args@);
    assert(head =~= if pinned {
        seq!["install"@, "npm"@, "bundled"@, "--pin"@]
    } else {
        seq!["install"@, "npm"@, "bundled"@]
    });
    if passthrough_args.len() > 0 {
        args.push(String::from_str("--"));
        let mut i: usize = 0;
        while i < passthrough_args.len()
            invariant
                i <= passthrough_args@.len(),
                texts(args@) == head + seq!["--"@] + texts(passthrough_args@).subrange(0, i as int),
            decreases passthrough_args@.len() - i,
        {
            let ghost before = texts(args@);
            args.push(passthrough_args[i].clone());
            assert(texts(args@) =~= before.push(passthrough_args@[i as int]@));
            assert(texts(passthrough_args@).subrange(0, i + 1) =~= texts(
                passthrough_args@,
            ).subrange(0, i as int).push(passthrough_args@[i as int]@));
            i += 1;
        }
        assert(texts(passthrough_args@).subrange(0, i as int) =~= texts(passthrough_args@));
    }
    Some(args)
}

} // verus!
