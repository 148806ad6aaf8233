//! Redirection of global installs into the manager-owned globals directory.

use vstd::prelude::*;
use vstd::string::*;
use crate::commands::{get_global_prefix, global_prefix, EnvVar};
use crate::config::NodeDepmanPluginConfig;
use crate::host::HostOS;
use crate::package_manager::PackageManager;
use crate::path::{parent, parent_dir};
use crate::text::{has_text, str_eq, texts};

verus! {

/// One invocation of a package manager, before it runs.
#[derive(Debug, PartialEq, Eq)]
pub struct RunHook {
    /// The real path of the globals directory, which holds the executables
    /// of global packages.
    pub globals_dir: Option<String>,
    /// The arguments that are passed through to the manager.
    pub passthrough_args: Vec<String>,
    /// The invocation already comes out of a redirection (the environment
    /// carries the marker of a global install that this tool started).
    pub redirected: bool,
}

/// What to add to the invocation.
#[derive(Debug, PartialEq, Eq)]
pub struct RunHookResult {
    pub args: Option<Vec<String>>,
    pub env: Option<Vec<EnvVar>>,
}

/// What a redirection consists of.
pub enum Redirection {
    /// The invocation passes through as it is.
    Untouched,
    /// The variable `PREFIX` is set to this directory.
    Prefix(Seq<char>),
    /// `--global-dir` with the root and `--global-bin-dir` with the directory
    /// of executables are appended.
    GlobalDirs { root_dir: Seq<char>, bin_dir: Seq<char> },
}

/// The subcommands of npm that install or uninstall.
pub open spec fn npm_installs(command: Seq<char>) -> bool {
    ||| command == "add"@
    ||| command == "i"@
    ||| command == "in"@
    ||| command == "ins"@
    ||| command == "inst"@
    ||| command == "insta"@
    ||| command == "instal"@
    ||| command == "install"@
    ||| command == "isnt"@
    ||| command == "isnta"@
    ||| command == "isntal"@
    ||| command == "isntall"@
    ||| command == "r"@
    ||| command == "remove"@
    ||| command == "rm"@
    ||| command == "un"@
    ||| command == "uninstall"@
    ||| command == "unlink"@
}

/// The subcommands of pnpm that take `--global`.
pub open spec fn pnpm_takes_global(command: Seq<char>) -> bool {
    ||| command == "add"@
    ||| command == "update"@
    ||| command == "remove"@
    ||| command == "list"@
    ||| command == "outdated"@
    ||| command == "why"@
    ||| command == "root"@
    ||| command == "bin"@
}

/// The subcommands of `yarn global`.
pub open spec fn yarn_global_command(command: Seq<char>) -> bool {
    ||| command == "add"@
    ||| command == "bin"@
    ||| command == "list"@
    ||| command == "remove"@
    ||| command == "upgrade"@
}

/// Whether the arguments are a command on global packages that names no
/// target directory of its own. For npm and pnpm the subcommand comes first
/// and the global flag stands anywhere; for Yarn the first two arguments
/// are `global` and its subcommand.
pub open spec fn targets_globals(manager: PackageManager, args: Seq<Seq<char>>) -> bool {
    match manager {
        PackageManager::Npm => {
            &&& args.len() >= 1
            &&& npm_installs(args[0])
            &&& (args.contains("--global"@) || args.contains("-g"@) || args.contains(
                "--location=global"@,
            ))
            &&& !args.contains("--prefix"@)
        },
        PackageManager::Pnpm => {
            &&& args.len() >= 1
            &&& pnpm_takes_global(args[0])
            &&& (args.contains("--global"@) || args.contains("-g"@))
            &&& !args.contains("--global-dir"@)
            &&& !args.contains("--global-bin-dir"@)
        },
        PackageManager::Yarn => {
            &&& args.len() >= 2
            &&& args[0] == "global"@
            &&& yarn_global_command(args[1])
            &&& !args.contains("--prefix"@)
        },
    }
}

/// Whether the hook looks at the invocation at all: a globals directory is
/// known, the shared globals directory is switched on, and the invocation
/// does not itself come out of a redirection.
pub open spec fn intercepts(input: RunHook, config: NodeDepmanPluginConfig) -> bool {
    &&& input.globals_dir is Some
    &&& config.shared_globals_dir
    &&& !input.redirected
}

/// The redirection that an invocation gets.
pub open spec fn redirection(
    manager: PackageManager,
    input: RunHook,
    config: NodeDepmanPluginConfig,
    os: HostOS,
) -> Redirection {
    if !intercepts(input, config) || !targets_globals(manager, texts(input.passthrough_args@)) {
        Redirection::Untouched
    } else {
        let bin_dir = input.globals_dir->Some_0@;
        match manager {
            PackageManager::Npm => Redirection::Prefix(global_prefix(os, bin_dir)),
            PackageManager::Pnpm => Redirection::GlobalDirs {
                root_dir: parent_dir(bin_dir),
                bin_dir,
            },
            PackageManager::Yarn => Redirection::Prefix(parent_dir(bin_dir)),
        }
    }
}

impl RunHookResult {
    /// Whether the result carries out `action`, and nothing else.
    pub open spec fn carries_out(self, action: Redirection) -> bool {
        match action {
            Redirection::Untouched => self.args is None && self.env is None,
            Redirection::Prefix(dir) => {
                &&& self.args is None
                &&& self.env is Some
                &&& self.env->Some_0@.len() == 1
                &&& self.env->Some_0@[0].name@ == "PREFIX"@
                &&& self.env->Some_0@[0].value@ == dir
            },
            Redirection::GlobalDirs { root_dir, bin_dir } => {
                &&& self.env is None
                &&& self.args is Some
                &&& texts(self.args->Some_0@) == seq![
                    "--global-dir"@,
                    root_dir,
                    "--global-bin-dir"@,
                    bin_dir,
                ]
            },
        }
    }
}

/// Whether `command` is a subcommand of npm that installs or uninstalls.
pub fn is_npm_install_command(command: &str) -> (found: bool)
    ensures
        found == npm_installs(command@),
{
    str_eq(command, "add") || str_eq(command, "i") || str_eq(command, "in") || str_eq(
        command,
        "ins",
    ) || str_eq(command, "inst") || str_eq(command, "insta") || str_eq(command, "instal")
        || str_eq(command, "install") || str_eq(command, "isnt") || str_eq(command, "isnta")
        || str_eq(command, "isntal") || str_eq(command, "isntall") || str_eq(command, "r")
        || str_eq(command, "remove") || str_eq(command, "rm") || str_eq(command, "un") || str_eq(
        command,
        "uninstall",
    ) || str_eq(command, "unlink")
}

/// Whether `command` is a subcommand of pnpm that takes `--global`.
pub fn is_pnpm_global_command(command: &str) -> (found: bool)
    ensures
        found == pnpm_takes_global(command@),
{
    str_eq(command, "add") || str_eq(command, "update") || str_eq(command, "remove") || str_eq(
        command,
        "list",
    ) || str_eq(command, "outdated") || str_eq(command, "why") || str_eq(command, "root")
        || str_eq(command, "bin")
}

/// Whether `command` is a subcommand of `yarn global`.
pub fn is_yarn_global_command(command: &str) -> (found: bool)
    ensures
        found == yarn_global_command(command@),
{
    str_eq(command, "add") || str_eq(command, "bin") || str_eq(command, "list") || str_eq(
        command,
        "remove",
    ) || str_eq(command, "upgrade")
}

/// Whether the arguments are a command on global packages that names no
/// target directory of its own.
pub fn is_global_command(manager: PackageManager, args: &Vec<String>) -> (found: bool)
    ensures
        found == targets_globals(manager, texts(args@)),
{
    if args.len() == 0 {
        return false;
    }
    assert(texts(args@)[0] == args@[0]@);
    match manager {
        PackageManager::Npm => {
            is_npm_install_command(args[0].as_str()) && (has_text(args, "--global") || has_text(
                args,
                "-g",
            ) || has_text(args, "--location=global")) && !has_text(args, "--prefix")
        },
        PackageManager::Pnpm => {
            is_pnpm_global_command(args[0].as_str()) && (has_text(args, "--global") || has_text(
                args,
                "-g",
            )) && !has_text(args, "--global-dir") && !has_text(args, "--global-bin-dir")
        },
        PackageManager::Yarn => {
            if args.len() < 2 {
                return false;
            }
            assert(texts(args@)[1] == args@[1]@);
            str_eq(args[0].as_str(), "global") && is_yarn_global_command(args[1].as_str())
                && !has_text(args, "--prefix")
        },
    }
}

/// Whether the hook is at work: the shared globals directory is switched on
/// and the invocation does not itself come out of a redirection.
pub fn is_switched_on(config: &NodeDepmanPluginConfig, redirected: bool) -> (on: bool)
    ensures
        on == (config.shared_globals_dir && !redirected),
{
    config.shared_globals_dir && !redirected
}

/// Decides, before a package manager runs, whether its global install is
/// sent to the shared globals directory, and how.
pub fn pre_run(
    manager: PackageManager,
    input: &RunHook,
    config: &NodeDepmanPluginConfig,
    os: HostOS,
) -> (result: RunHookResult)
    ensures
        result.carries_out(redirection(manager, *input, *config, os)),
{
    let untouched = RunHookResult { args: None, env: None };
    let bin_dir = match &input.globals_dir {
        Some(dir) => dir,
        None => {
            return untouched;
        },
    };
    if !is_switched_on(config, input.redirected) {
        return untouched;
    }
    if !is_global_command(manager, &input.passthrough_args) {
        return untouched;
    }
    match manager {
        PackageManager::Npm => {
            // Unix gets a `bin` directory below the prefix, Windows installs
            // into the prefix itself.
            let mut env: Vec<EnvVar> = Vec::new();
            env.push(
                EnvVar {
                    name: String::from_str("PREFIX"),
                    value: get_global_prefix(os, bin_dir.as_str()),
                },
            );
            RunHookResult { args: None, env: Some(env) }
        },
        PackageManager::Pnpm => {
            // pnpm reads no variable for this, so the directories are named
            // by arguments.
            let root_dir = parent(bin_dir.as_str());
            let mut new_args: Vec<String> = Vec::new();
            new_args.push(String::from_str("--global-dir"));
            new_args.push(root_dir);
            new_args.push(String::from_str("--global-bin-dir"));
            new_args.push(bin_dir.clone());
            assert(texts(new_args@) =~= seq![
                "--global-dir"@,
                parent_dir(bin_dir@),
                "--global-bin-dir"@,
                bin_dir@,
            ]);
            RunHookResult { args: Some(new_args), env: None }
        },
        PackageManager::Yarn => {
            // Yarn puts a `bin` directory below the prefix on every system.
            let mut env: Vec<EnvVar> = Vec::new();
            env.push(
                EnvVar { name: String::from_str("PREFIX"), value: parent(bin_dir.as_str()) },
            );
            RunHookResult { args: None, env: Some(env) }
        },
    }
}

/// A target directory that the user names is never overridden: with
/// `--prefix` among the arguments of npm or yarn, or `--global-dir` or
/// `--global-bin-dir` among those of pnpm, the invocation passes through.
pub proof fn lemma_explicit_target_wins(
    manager: PackageManager,
    input: RunHook,
    config: NodeDepmanPluginConfig,
    os: HostOS,
)
    requires
        ({
            let args = texts(input.passthrough_args@);
            match manager {
                PackageManager::Pnpm => args.contains("--global-dir"@) || args.contains(
                    "--global-bin-dir"@,
                ),
                _ => args.contains("--prefix"@),
            }
        }),
    ensures
        redirection(manager, input, config, os) == Redirection::Untouched,
{
}

/// An invocation passes through where the hook is switched off, where it
/// comes out of a redirection, where no globals directory is known, and
/// where there are no arguments.
pub proof fn lemma_pass_through(
    manager: PackageManager,
    input: RunHook,
    config: NodeDepmanPluginConfig,
    os: HostOS,
)
    requires
        !config.shared_globals_dir || input.redirected || input.globals_dir is None
            || input.passthrough_args@.len() == 0,
    ensures
        redirection(manager, input, config, os) == Redirection::Untouched,
{
}

} // verus!
