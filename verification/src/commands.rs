//! The npm commands that install and remove global packages.

use vstd::prelude::*;
use vstd::string::*;
use crate::host::HostOS;
use crate::path::{parent, parent_dir};
use crate::text::texts;

verus! {

/// An environment variable to set.
#[derive(Debug, PartialEq, Eq)]
pub struct EnvVar {
    pub name: String,
    pub value: String,
}

/// A command for the host to run, with its output shown to the user.
#[derive(Debug, PartialEq, Eq)]
pub struct ExecCommandInput {
    pub command: String,
    pub args: Vec<String>,
    pub env: Vec<EnvVar>,
}

/// The names and values of a list of variables.
pub open spec fn variables(env: Seq<EnvVar>) -> Seq<(Seq<char>, Seq<char>)> {
    Seq::new(env.len(), |i: int| (env[i].name@, env[i].value@))
}

/// The prefix that npm installs globals under, given the directory that
/// holds their executables: that directory itself on Windows, else its
/// parent, since npm puts a `bin` below the prefix there.
pub open spec fn global_prefix(os: HostOS, real_path: Seq<char>) -> Seq<char> {
    if os == HostOS::Windows {
        real_path
    } else {
        parent_dir(real_path)
    }
}

/// The arguments that install `dependency` globally under `prefix`.
pub open spec fn install_args(dependency: Seq<char>, prefix: Seq<char>) -> Seq<Seq<char>> {
    seq![
        "install"@,
        dependency,
        "--global"@,
        "--loglevel"@,
        "warn"@,
        "--no-audit"@,
        "--no-update-notifier"@,
        "--prefix"@,
        prefix,
    ]
}

/// The arguments that remove the global `dependency` from under `prefix`.
pub open spec fn uninstall_args(dependency: Seq<char>, prefix: Seq<char>) -> Seq<Seq<char>> {
    seq!["uninstall"@, dependency, "--global"@, "--loglevel"@, "warn"@, "--prefix"@, prefix]
}

/// The marker by which a global install that this tool started is known
/// when it comes back through the hooks.
pub open spec fn install_marker() -> Seq<(Seq<char>, Seq<char>)> {
    seq![("PROTO_INSTALL_GLOBAL"@, "true"@)]
}

/// The prefix to install globals under, from the real path of the globals
/// directory.
pub fn get_global_prefix(os: HostOS, real_path: &str) -> (prefix: String)
    ensures
        prefix@ == global_prefix(os, real_path@),
{
    if os.is_windows() {
        return String::from_str(real_path);
    }
    parent(real_path)
}

fn marked() -> (env: Vec<EnvVar>)
    ensures
        variables(env@) == install_marker(),
{
    let mut env: Vec<EnvVar> = Vec::new();
    env.push(
        EnvVar { name: String::from_str("PROTO_INSTALL_GLOBAL"), value: String::from_str("true") },
    );
    assert(variables(env@) =~= install_marker());
    env
}

/// The command that installs `dependency` globally.
pub fn install_global(dependency: &str, globals_prefix: String) -> (cmd: ExecCommandInput)
    ensures
        cmd.command@ == "npm"@,
        texts(cmd.args@) == install_args(dependency@, globals_prefix@),
        variables(cmd.env@) == install_marker(),
{
    let mut args: Vec<String> = Vec::new();
    args.push(String::from_str("install"));
    args.push(String::from_str(dependency));
    args.push(String::from_str("--global"));
    args.push(String::from_str("--loglevel"));
    args.push(String::from_str("warn"));
    args.push(String::from_str("--no-audit"));
    args.push(String::from_str("--no-update-notifier"));
    args.push(String::from_str("--prefix"));
    args.push(globals_prefix);
    assert(texts(args@) =~= install_args(dependency@, globals_prefix@));
    ExecCommandInput { command: String::from_str("npm"), args, env: marked() }
}

/// The command that removes the global `dependency`.
pub fn uninstall_global(dependency: &str, globals_prefix: String) -> (cmd: ExecCommandInput)
    ensures
        cmd.command@ == "npm"@,
        texts(cmd.args@) == uninstall_args(dependency@, globals_prefix@),
        variables(cmd.env@) == install_marker(),
{
    let mut args: Vec<String> = Vec::new();
    args.push(String::from_str("uninstall"));
    args.push(String::from_str(dependency));
    args.push(String::from_str("--global"));
    args.push(String::from_str("--loglevel"));
    args.push(String::from_str("warn"));
    args.push(String::from_str("--prefix"));
    args.push(globals_prefix);
    assert(texts(args@) =~= uninstall_args(dependency@, globals_prefix@));
    ExecCommandInput { command: String::from_str("npm"), args, env: marked() }
}

} // verus!
