//! The fields of a `package.json` that name a tool's version.

use vstd::prelude::*;
use vstd::string::*;
use crate::text::str_eq;

verus! {

/// The `volta` field.
#[derive(Debug, PartialEq, Eq)]
pub struct VoltaField {
    pub node: Option<String>,
    pub npm: Option<String>,
    pub pnpm: Option<String>,
    pub yarn: Option<String>,
}

/// One entry of the `engines` field.
#[derive(Debug, PartialEq, Eq)]
pub struct Engine {
    pub name: String,
    pub constraint: String,
}

/// One executable of the `bin` field, where that is an object.
#[derive(Debug, PartialEq, Eq)]
pub struct Bin {
    pub name: String,
    pub path: String,
}

/// The `bin` field: one path, or paths by the names of the executables.
#[derive(Debug, PartialEq, Eq)]
pub enum BinField {
    String(String),
    Object(Vec<Bin>),
}

/// A decoded `package.json`.
#[derive(Debug, PartialEq, Eq)]
pub struct PackageJson {
    pub bin: Option<BinField>,
    pub engines: Option<Vec<Engine>>,
    pub main: Option<String>,
    pub package_manager: Option<String>,
    pub version: Option<String>,
    pub volta: Option<VoltaField>,
}

/// The path of the first executable named `name`.
pub open spec fn bin_path(bins: Seq<Bin>, name: Seq<char>) -> Option<Seq<char>>
    decreases bins.len(),
{
    if bins.len() == 0 {
        None
    } else if bins[0].name@ == name {
        Some(bins[0].path@)
    } else {
        bin_path(bins.drop_first(), name)
    }
}

/// The view of an optional string.
pub open spec fn opt_text(text: Option<String>) -> Option<Seq<char>> {
    match text {
        Some(text) => Some(text@),
        None => None,
    }
}

/// The constraint of the first entry named `name`.
pub open spec fn engine_constraint(engines: Seq<Engine>, name: Seq<char>) -> Option<Seq<char>>
    decreases engines.len(),
{
    if engines.len() == 0 {
        None
    } else if engines[0].name@ == name {
        Some(engines[0].constraint@)
    } else {
        engine_constraint(engines.drop_first(), name)
    }
}

impl VoltaField {
    /// The version that the field pins for the tool `name`.
    pub open spec fn pinned(self, name: Seq<char>) -> Option<Seq<char>> {
        if name == "node"@ {
            opt_text(self.node)
        } else if name == "npm"@ {
            opt_text(self.npm)
        } else if name == "pnpm"@ {
            opt_text(self.pnpm)
        } else if name == "yarn"@ {
            opt_text(self.yarn)
        } else {
            None
        }
    }

    /// The version that the field pins for the tool `name`.
    pub fn get(&self, name: &str) -> (version: Option<&String>)
        ensures
            opt_text_ref(version) == self.pinned(name@),
    {
        if str_eq(name, "node") {
            self.node.as_ref()
        } else if str_eq(name, "npm") {
            self.npm.as_ref()
        } else if str_eq(name, "pnpm") {
            self.pnpm.as_ref()
        } else if str_eq(name, "yarn") {
            self.yarn.as_ref()
        } else {
            None
        }
    }
}

/// The view of an optional borrowed string.
pub open spec fn opt_text_ref(text: Option<&String>) -> Option<Seq<char>> {
    match text {
        Some(text) => Some(text@),
        None => None,
    }
}

impl PackageJson {
    /// What `engines` asks of the tool `name`.
    pub open spec fn engine(self, name: Seq<char>) -> Option<Seq<char>> {
        match self.engines {
            Some(engines) => engine_constraint(engines@, name),
            None => None,
        }
    }

    /// What `volta` pins for the tool `name`.
    pub open spec fn volta_pin(self, name: Seq<char>) -> Option<Seq<char>> {
        match self.volta {
            Some(volta) => volta.pinned(name),
            None => None,
        }
    }

    /// The file that is the executable `name`: what `bin` says, as one path
    /// for whatever name or as the path under that name, else `main`.
    pub open spec fn executable(self, name: Seq<char>) -> Option<Seq<char>> {
        let by_bin = match self.bin {
            Some(BinField::String(path)) => Some(path@),
            Some(BinField::Object(bins)) => bin_path(bins@, name),
            None => None,
        };
        if by_bin is Some {
            by_bin
        } else {
            opt_text(self.main)
        }
    }

    /// The file that is the executable `name`.
    pub fn get_executable(&self, name: &str) -> (path: Option<&String>)
        ensures
            opt_text_ref(path) == self.executable(name@),
    {
        match &self.bin {
            Some(BinField::String(path)) => {
                return Some(path);
            },
            Some(BinField::Object(bins)) => {
                let mut i: usize = 0;
                assert(bins@.subrange(0, bins@.len() as int) =~= bins@);
                while i < bins.len()
                    invariant
                        self.bin == Some(BinField::Object(*bins)),
                        i <= bins@.len(),
                        bin_path(bins@, name@) == bin_path(
                            bins@.subrange(i as int, bins@.len() as int),
                            name@,
                        ),
                    decreases bins@.len() - i,
                {
                    let ghost rest = bins@.subrange(i as int, bins@.len() as int);
                    assert(rest.drop_first() =~= bins@.subrange(i + 1, bins@.len() as int));
                    assert(rest[0] == bins@[i as int]);
                    if str_eq(bins[i].name.as_str(), name) {
                        assert(bin_path(rest, name@) == Some(rest[0].path@));
                        return Some(&bins[i].path);
                    }
                    i += 1;
                }
            },
            None => {},
        }
        self.main.as_ref()
    }

    /// What `engines` asks of the tool `name`.
    pub fn get_engine(&self, name: &str) -> (constraint: Option<&String>)
        ensures
            opt_text_ref(constraint) == self.engine(name@),
    {
        match &self.engines {
            None => None,
            Some(engines) => {
                let mut i: usize = 0;
                assert(engines@.subrange(0, engines@.len() as int) =~= engines@);
                while i < engines.len()
                    invariant
                        self.engines == Some(*engines),
                        i <= engines@.len(),
                        engine_constraint(engines@, name@) == engine_constraint(
                            engines@.subrange(i as int, engines@.len() as int),
                            name@,
                        ),
                    decreases engines@.len() - i,
                {
                    let ghost rest = engines@.subrange(i as int, engines@.len() as int);
                    assert(rest.drop_first() =~= engines@.subrange(i + 1, engines@.len() as int));
                    assert(rest[0] == engines@[i as int]);
                    if str_eq(engines[i].name.as_str(), name) {
                        assert(engine_constraint(rest, name@) == Some(rest[0].constraint@));
                        return Some(&engines[i].constraint);
                    }
                    i += 1;
                }
                None
            },
        }
    }

    /// What `volta` pins for the tool `name`.
    pub fn get_volta(&self, name: &str) -> (version: Option<&String>)
        ensures
            opt_text_ref(version) == self.volta_pin(name@),
    {
        match &self.volta {
            Some(volta) => volta.get(name),
            None => None,
        }
    }
}

} // verus!
