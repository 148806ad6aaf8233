//! Where a package manager's executables and globals are found.

use vstd::prelude::*;
use vstd::string::*;
use crate::config::NodeDepmanPluginConfig;
use crate::executables::{
    named,
    node_script,
    shim_with,
    ExecutableConfig,
    ExecutableView,
    LocateExecutablesOutput,
    NamedExecutable,
};
use crate::host::HostOS;
use crate::package_manager::PackageManager;
use crate::text::texts;

verus! {

/// The script that starts a manager.
pub open spec fn primary_script(manager: PackageManager) -> Seq<char> {
    match manager {
        PackageManager::Npm => "bin/npm-cli.js"@,
        PackageManager::Pnpm => "bin/pnpm.cjs"@,
        PackageManager::Yarn => "bin/yarn.js"@,
    }
}

/// The executables that come with a manager besides itself.
pub open spec fn secondary_executables(manager: PackageManager) -> Seq<
    (Seq<char>, ExecutableView),
> {
    match manager {
        PackageManager::Npm => seq![
            ("npx"@, node_script("bin/npx-cli.js"@)),
            ("node-gyp"@, node_script("node_modules/node-gyp/bin/node-gyp.js"@)),
        ],
        PackageManager::Pnpm => seq![("pnpx"@, shim_with("dlx"@))],
        PackageManager::Yarn => seq![("yarnpkg"@, node_script("bin/yarn.js"@))],
    }
}

/// The directories in which a manager puts the executables of global
/// packages. With the shared globals directory switched on it is the only one.
pub open spec fn globals_lookup_dirs(manager: PackageManager, os: HostOS, shared: bool) -> Seq<
    Seq<char>,
> {
    if shared {
        seq!["$PROTO_HOME/tools/node/globals/bin"@]
    } else {
        match manager {
            PackageManager::Npm => seq!["$PREFIX/bin"@, "$TOOL_DIR/bin"@],
            PackageManager::Pnpm => seq![
                "$PREFIX/bin"@,
                "$PNPM_HOME"@,
                if os == HostOS::Windows {
                    "$LOCALAPPDATA\\pnpm"@
                } else if os == HostOS::MacOS {
                    "$HOME/Library/pnpm"@
                } else {
                    "$HOME/.local/share/pnpm"@
                },
            ],
            PackageManager::Yarn => if os == HostOS::Windows {
                seq!["$PREFIX/bin"@, "$LOCALAPPDATA\\Yarn\\bin"@, "$HOME\\.yarn\\bin"@]
            } else {
                seq!["$PREFIX/bin"@, "$HOME/.yarn/bin"@]
            },
        }
    }
}

/// Describes the executables of `manager` and where its globals are found.
pub fn locate_executables(manager: PackageManager, os: HostOS, config: &NodeDepmanPluginConfig) -> (out:
    LocateExecutablesOutput)
    ensures
        out.primary is Some,
        out.primary->Some_0@ == node_script(primary_script(manager)),
        named(out.secondary@) == secondary_executables(manager),
        texts(out.globals_lookup_dirs@) == globals_lookup_dirs(
            manager,
            os,
            config.shared_globals_dir,
        ),
{
    let mut secondary: Vec<NamedExecutable> = Vec::new();
    let primary;
    // The directories that hold the executables of global packages, not the
    // packages themselves.
    let mut dirs: Vec<String> = Vec::new();
    dirs.push(String::from_str("$PREFIX/bin"));
    match manager {
        PackageManager::Npm => {
            primary = ExecutableConfig::script("bin/npm-cli.js");
            secondary.push(
                NamedExecutable {
                    name: String::from_str("npx"),
                    config: ExecutableConfig::script("bin/npx-cli.js"),
                },
            );
            secondary.push(
                NamedExecutable {
                    name: String::from_str("node-gyp"),
                    config: ExecutableConfig::script("node_modules/node-gyp/bin/node-gyp.js"),
                },
            );
            dirs.push(String::from_str("$TOOL_DIR/bin"));
        },
        PackageManager::Pnpm => {
            primary = ExecutableConfig::script("bin/pnpm.cjs");
            secondary.push(
                NamedExecutable {
                    name: String::from_str("pnpx"),
                    config: ExecutableConfig {
                        exe_path: None,
                        no_bin: true,
                        parent_exe_name: None,
                        shim_before_args: Some(String::from_str("dlx")),
                    },
                },
            );
            dirs.push(String::from_str("$PNPM_HOME"));
            match os {
                HostOS::Windows => dirs.push(String::from_str("$LOCALAPPDATA\\pnpm")),
                HostOS::MacOS => dirs.push(String::from_str("$HOME/Library/pnpm")),
                _ => dirs.push(String::from_str("$HOME/.local/share/pnpm")),
            }
        },
        PackageManager::Yarn => {
            primary = ExecutableConfig::script("bin/yarn.js");
            secondary.push(
                NamedExecutable {
                    name: String::from_str("yarnpkg"),
                    config: ExecutableConfig::script("bin/yarn.js"),
                },
            );
            match os {
                HostOS::Windows => {
                    dirs.push(String::from_str("$LOCALAPPDATA\\Yarn\\bin"));
                    dirs.push(String::from_str("$HOME\\.yarn\\bin"));
                },
                _ => dirs.push(String::from_str("$HOME/.yarn/bin")),
            }
        },
    }
    if config.shared_globals_dir {
        dirs.clear();
        dirs.push(String::from_str("$PROTO_HOME/tools/node/globals/bin"));
    }
    assert(named(secondary@) =~= secondary_executables(manager));
    assert(texts(dirs@) =~= globals_lookup_dirs(manager, os, config.shared_globals_dir));
    LocateExecutablesOutput { globals_lookup_dirs: dirs, primary: Some(primary), secondary }
}

} // verus!
