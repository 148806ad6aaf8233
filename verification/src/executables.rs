//! How an installed tool's executables are described to the host.

use vstd::prelude::*;
use vstd::string::*;

verus! {

/// One executable of a tool.
#[derive(Debug, PartialEq, Eq)]
pub struct ExecutableConfig {
    /// The file to run, relative to the tool's directory.
    pub exe_path: Option<String>,
    /// No link to it is put among the host's binaries.
    pub no_bin: bool,
    /// The executable that runs the file.
    pub parent_exe_name: Option<String>,
    /// An argument that a shim puts before the user's.
    pub shim_before_args: Option<String>,
}

/// The value of an [`ExecutableConfig`].
pub struct ExecutableView {
    pub exe_path: Option<Seq<char>>,
    pub no_bin: bool,
    pub parent_exe_name: Option<Seq<char>>,
    pub shim_before_args: Option<Seq<char>>,
}

/// A script that `node` runs and that gets no link of its own.
pub open spec fn node_script(path: Seq<char>) -> ExecutableView {
    ExecutableView {
        exe_path: Some(path),
        no_bin: true,
        parent_exe_name: Some("node"@),
        shim_before_args: None,
    }
}

/// A shim that puts `arg` before the user's arguments.
pub open spec fn shim_with(arg: Seq<char>) -> ExecutableView {
    ExecutableView {
        exe_path: None,
        no_bin: true,
        parent_exe_name: None,
        shim_before_args: Some(arg),
    }
}

/// An executable at `path` and nothing else.
pub open spec fn plain_executable(path: Seq<char>) -> ExecutableView {
    ExecutableView {
        exe_path: Some(path),
        no_bin: false,
        parent_exe_name: None,
        shim_before_args: None,
    }
}

impl View for ExecutableConfig {
    type V = ExecutableView;

    open spec fn view(&self) -> ExecutableView {
        ExecutableView {
            exe_path: match self.exe_path {
                Some(path) => Some(path@),
                None => None,
            },
            no_bin: self.no_bin,
            parent_exe_name: match self.parent_exe_name {
                Some(name) => Some(name@),
                None => None,
            },
            shim_before_args: match self.shim_before_args {
                Some(arg) => Some(arg@),
                None => None,
            },
        }
    }
}

impl ExecutableConfig {
    /// An executable at `path` and nothing else.
    pub fn new(path: &str) -> (config: Self)
        ensures
            config@ == plain_executable(path@),
    {
        ExecutableConfig {
            exe_path: Some(String::from_str(path)),
            no_bin: false,
            parent_exe_name: None,
            shim_before_args: None,
        }
    }

    /// A script at `path` that `node` runs and that gets no link of its own.
    pub fn script(path: &str) -> (config: Self)
        ensures
            config@ == node_script(path@),
    {
        ExecutableConfig {
            exe_path: Some(String::from_str(path)),
            no_bin: true,
            parent_exe_name: Some(String::from_str("node")),
            shim_before_args: None,
        }
    }
}

/// A further executable, by the name it is called by.
#[derive(Debug, PartialEq, Eq)]
pub struct NamedExecutable {
    pub name: String,
    pub config: ExecutableConfig,
}

/// The executables of a tool and the places to look for its globals.
#[derive(Debug, PartialEq, Eq)]
pub struct LocateExecutablesOutput {
    pub globals_lookup_dirs: Vec<String>,
    pub primary: Option<ExecutableConfig>,
    pub secondary: Vec<NamedExecutable>,
}

/// The names and values of a list of executables.
pub open spec fn named(list: Seq<NamedExecutable>) -> Seq<(Seq<char>, ExecutableView)> {
    Seq::new(list.len(), |i: int| (list[i].name@, list[i].config@))
}

} // verus!
