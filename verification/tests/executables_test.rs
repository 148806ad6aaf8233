use node_plugins::config::NodeDepmanPluginConfig;
use node_plugins::depman;
use node_plugins::depman::{NamedShim, ShimConfig};
use node_plugins::executables::{ExecutableConfig, NamedExecutable};
use node_plugins::host::HostOS;
use node_plugins::node;
use node_plugins::node_depman;
use node_plugins::package_json::{Bin, BinField, PackageJson};
use node_plugins::package_manager::PackageManager;

fn own() -> NodeDepmanPluginConfig {
    NodeDepmanPluginConfig {
        shared_globals_dir: false,
    }
}

fn shared() -> NodeDepmanPluginConfig {
    NodeDepmanPluginConfig {
        shared_globals_dir: true,
    }
}

fn script(path: &str) -> ExecutableConfig {
    ExecutableConfig {
        exe_path: Some(path.into()),
        no_bin: true,
        parent_exe_name: Some("node".into()),
        shim_before_args: None,
    }
}

fn package(bin: Option<BinField>, main: Option<&str>) -> PackageJson {
    PackageJson {
        bin,
        engines: None,
        main: main.map(|main| main.to_string()),
        package_manager: None,
        version: None,
        volta: None,
    }
}

#[test]
fn describes_the_executables_of_npm() {
    let output = node_depman::locate_executables(PackageManager::Npm, HostOS::Linux, &own());

    assert_eq!(output.primary, Some(script("bin/npm-cli.js")));
    assert_eq!(
        output.secondary,
        [
            NamedExecutable {
                name: "npx".into(),
                config: script("bin/npx-cli.js")
            },
            NamedExecutable {
                name: "node-gyp".into(),
                config: script("node_modules/node-gyp/bin/node-gyp.js")
            }
        ]
    );
    assert_eq!(output.globals_lookup_dirs, ["$PREFIX/bin", "$TOOL_DIR/bin"]);
}

#[test]
fn describes_the_executables_of_pnpm() {
    let output = node_depman::locate_executables(PackageManager::Pnpm, HostOS::Linux, &own());

    assert_eq!(output.primary, Some(script("bin/pnpm.cjs")));
    assert_eq!(
        output.secondary,
        [NamedExecutable {
            name: "pnpx".into(),
            config: ExecutableConfig {
                exe_path: None,
                no_bin: true,
                parent_exe_name: None,
                shim_before_args: Some("dlx".into()),
            }
        }]
    );
    assert_eq!(
        output.globals_lookup_dirs,
        ["$PREFIX/bin", "$PNPM_HOME", "$HOME/.local/share/pnpm"]
    );
    assert_eq!(
        node_depman::locate_executables(PackageManager::Pnpm, HostOS::MacOS, &own())
            .globals_lookup_dirs,
        ["$PREFIX/bin", "$PNPM_HOME", "$HOME/Library/pnpm"]
    );
    assert_eq!(
        node_depman::locate_executables(PackageManager::Pnpm, HostOS::Windows, &own())
            .globals_lookup_dirs,
        ["$PREFIX/bin", "$PNPM_HOME", "$LOCALAPPDATA\\pnpm"]
    );
}

#[test]
fn describes_the_executables_of_yarn() {
    let output = node_depman::locate_executables(PackageManager::Yarn, HostOS::Linux, &own());

    assert_eq!(output.primary, Some(script("bin/yarn.js")));
    assert_eq!(
        output.secondary,
        [NamedExecutable {
            name: "yarnpkg".into(),
            config: script("bin/yarn.js")
        }]
    );
    assert_eq!(output.globals_lookup_dirs, ["$PREFIX/bin", "$HOME/.yarn/bin"]);
    assert_eq!(
        node_depman::locate_executables(PackageManager::Yarn, HostOS::Windows, &own())
            .globals_lookup_dirs,
        [
            "$PREFIX/bin",
            "$LOCALAPPDATA\\Yarn\\bin",
            "$HOME\\.yarn\\bin"
        ]
    );
}

#[test]
fn looks_for_globals_in_the_shared_directory_only() {
    for manager in [
        PackageManager::Npm,
        PackageManager::Pnpm,
        PackageManager::Yarn,
    ] {
        for os in [HostOS::Linux, HostOS::MacOS, HostOS::Windows] {
            assert_eq!(
                node_depman::locate_executables(manager, os, &shared()).globals_lookup_dirs,
                ["$PROTO_HOME/tools/node/globals/bin"]
            );
        }
    }

    assert_eq!(
        node::locate_executables(HostOS::Linux).globals_lookup_dirs,
        ["$PROTO_HOME/tools/node/globals/bin"]
    );
    assert!(node::locate_bins(HostOS::Linux).fallback_last_globals_dir);
}

#[test]
fn describes_the_shims() {
    let output = depman::create_shims(PackageManager::Npm, HostOS::Linux);

    assert_eq!(
        output.primary,
        Some(ShimConfig {
            bin_path: None,
            parent_bin: Some("node".into()),
            before_args: None
        })
    );
    assert_eq!(
        output.local_shims,
        [NamedShim {
            name: "npm".into(),
            config: ShimConfig {
                bin_path: Some("bin/npm-cli.js".into()),
                parent_bin: Some("node".into()),
                before_args: None
            }
        }]
    );
    assert_eq!(
        output.global_shims,
        [NamedShim {
            name: "node-gyp".into(),
            config: ShimConfig {
                bin_path: Some("bin/node-gyp-bin/node-gyp".into()),
                parent_bin: None,
                before_args: None
            }
        }]
    );
    assert_eq!(
        depman::create_shims(PackageManager::Npm, HostOS::Windows).global_shims[0]
            .config
            .bin_path,
        Some("bin/node-gyp-bin/node-gyp.cmd".into())
    );

    let output = depman::create_shims(PackageManager::Pnpm, HostOS::Linux);

    assert_eq!(output.local_shims[0].name, "pnpm");
    assert_eq!(
        output.local_shims[0].config.bin_path,
        Some("bin/pnpm.cjs".into())
    );
    assert_eq!(output.global_shims[0].name, "pnpx");
    assert_eq!(
        output.global_shims[0].config.before_args,
        Some("dlx".into())
    );

    let output = depman::create_shims(PackageManager::Yarn, HostOS::Linux);

    assert_eq!(output.local_shims[0].name, "yarn");
    assert_eq!(
        output.local_shims[0].config.bin_path,
        Some("bin/yarn.js".into())
    );
    assert_eq!(
        output.global_shims,
        [NamedShim {
            name: "yarnpkg".into(),
            config: ShimConfig {
                bin_path: None,
                parent_bin: None,
                before_args: None
            }
        }]
    );
}

#[test]
fn locates_the_binary_of_a_manager() {
    let npm = PackageManager::Npm;

    assert_eq!(
        depman::locate_bins(npm, None).bin_path,
        Some("bin/npm".into())
    );
    assert_eq!(
        depman::locate_bins(PackageManager::Pnpm, None).bin_path,
        Some("bin/pnpm.cjs".into())
    );
    assert_eq!(
        depman::locate_bins(PackageManager::Yarn, Some(&package(None, None))).bin_path,
        Some("bin/yarn".into())
    );
    assert_eq!(
        depman::locate_bins(
            npm,
            Some(&package(
                Some(BinField::String("cli.js".into())),
                Some("index.js")
            ))
        )
        .bin_path,
        Some("cli.js".into())
    );

    let bins = || {
        Some(BinField::Object(vec![
            Bin {
                name: "npx".into(),
                path: "bin/npx-cli.js".into(),
            },
            Bin {
                name: "npm".into(),
                path: "bin/npm-cli.js".into(),
            },
        ]))
    };

    assert_eq!(
        depman::locate_bins(npm, Some(&package(bins(), Some("index.js")))).bin_path,
        Some("bin/npm-cli.js".into())
    );
    assert_eq!(
        depman::locate_bins(PackageManager::Yarn, Some(&package(bins(), Some("index.js"))))
            .bin_path,
        Some("index.js".into())
    );
    assert_eq!(
        depman::locate_bins(PackageManager::Pnpm, Some(&package(bins(), None))).bin_path,
        Some("bin/pnpm.cjs".into())
    );
    assert_eq!(
        depman::locate_bins(npm, None).globals_lookup_dirs,
        ["$PROTO_ROOT/tools/node/globals/bin"]
    );
}
