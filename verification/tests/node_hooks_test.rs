use node_plugins::commands::{get_global_prefix, EnvVar};
use node_plugins::config::{NodeDepmanPluginConfig, NodePluginConfig};
use node_plugins::host::HostOS;
use node_plugins::node;

fn bundled() -> NodePluginConfig {
    NodePluginConfig {
        bundled_npm: true,
        ..NodePluginConfig::default()
    }
}

fn args(list: &[&str]) -> Vec<String> {
    list.iter().map(|arg| arg.to_string()).collect()
}

#[test]
fn installs_bundled_npm() {
    assert_eq!(
        node::post_install(&bundled(), &vec![], false),
        Some(args(&["install", "npm", "bundled"]))
    );
}

#[test]
fn can_pin_bundled_npm() {
    assert_eq!(
        node::post_install(&bundled(), &vec![], true),
        Some(args(&["install", "npm", "bundled", "--pin"]))
    );
}

#[test]
fn can_skip_bundled_npm() {
    assert_eq!(
        node::post_install(&bundled(), &args(&["--no-bundled-npm"]), false),
        None
    );
    assert_eq!(
        node::post_install(&bundled(), &args(&["--force", "--no-bundled-npm"]), true),
        None
    );
}

#[test]
fn installs_no_npm_unless_asked() {
    assert_eq!(
        node::post_install(&NodePluginConfig::default(), &vec![], false),
        None
    );
    assert_eq!(
        node::post_install(&NodePluginConfig::default(), &args(&["--force"]), true),
        None
    );
}

#[test]
fn hands_the_users_arguments_on() {
    assert_eq!(
        node::post_install(&bundled(), &args(&["--force", "-v"]), false),
        Some(args(&["install", "npm", "bundled", "--", "--force", "-v"]))
    );
    assert_eq!(
        node::post_install(&bundled(), &args(&["--force"]), true),
        Some(args(&["install", "npm", "bundled", "--pin", "--", "--force"]))
    );
}

#[test]
fn starts_with_the_documented_defaults() {
    let config = NodePluginConfig::default();

    assert!(!config.bundled_npm);
    assert_eq!(
        config.dist_url,
        "https://nodejs.org/download/release/v{version}/{file}"
    );
    assert!(!NodeDepmanPluginConfig::default().shared_globals_dir);
}

#[test]
fn builds_the_commands_for_globals() {
    let marker = vec![EnvVar {
        name: "PROTO_INSTALL_GLOBAL".into(),
        value: "true".into(),
    }];
    let cmd = node::install_global(HostOS::Linux, "typescript", "/.proto/tools/node/globals/bin");

    assert_eq!(cmd.command, "npm");
    assert_eq!(
        cmd.args,
        [
            "install",
            "typescript",
            "--global",
            "--loglevel",
            "warn",
            "--no-audit",
            "--no-update-notifier",
            "--prefix",
            "/.proto/tools/node/globals",
        ]
    );
    assert_eq!(cmd.env, marker);

    let cmd = node::uninstall_global(
        HostOS::Windows,
        "typescript",
        "C:\\proto\\tools\\node\\globals\\bin",
    );

    assert_eq!(cmd.command, "npm");
    assert_eq!(
        cmd.args,
        [
            "uninstall",
            "typescript",
            "--global",
            "--loglevel",
            "warn",
            "--prefix",
            "C:\\proto\\tools\\node\\globals\\bin",
        ]
    );
    assert_eq!(cmd.env, marker);
}

#[test]
fn takes_the_parent_as_the_prefix() {
    assert_eq!(get_global_prefix(HostOS::Linux, "/a/bin"), "/a");
    assert_eq!(
        get_global_prefix(HostOS::Linux, "/home/bin/.proto/tools/node/globals/bin"),
        "/home/bin/.proto/tools/node/globals"
    );
    assert_eq!(get_global_prefix(HostOS::MacOS, "/bin/a/bin/b"), "/bin/a/bin");
    assert_eq!(get_global_prefix(HostOS::Linux, "/bin"), "/");
    assert_eq!(get_global_prefix(HostOS::Windows, "/a/bin"), "/a/bin");
}
