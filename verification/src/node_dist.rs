//! Entries of the Node.js release index.

use vstd::prelude::*;
use crate::text::{char_len, substring};

verus! {

/// The `lts` field of a release: the codename of its LTS line, or a flag.
#[derive(Debug, PartialEq, Eq)]
pub enum NodeDistLTS {
    Name(String),
    State(bool),
}

/// One release of the index.
#[derive(Debug, PartialEq, Eq)]
pub struct NodeDistVersion {
    pub lts: NodeDistLTS,
    /// The version of the bundled npm, without a `v` in front.
    pub npm: Option<String>,
    /// The version of the release, with a `v` in front.
    pub version: String,
}

impl NodeDistVersion {
    /// The codename of the release's LTS line, if it is of one.
    pub open spec fn codename(self) -> Option<Seq<char>> {
        match self.lts {
            NodeDistLTS::Name(name) => Some(name@),
            NodeDistLTS::State(_) => None,
        }
    }

    /// The version of the release without the `v` that the index writes in
    /// front: all but the first character.
    pub open spec fn number(self) -> Seq<char> {
        if self.version@.len() > 0 {
            self.version@.subrange(1, self.version@.len() as int)
        } else {
            self.version@
        }
    }

    /// The version of the release without the `v` in front.
    pub fn get_number(&self) -> (number: String)
        ensures
            number@ == self.number(),
    {
        let len = char_len(self.version.as_str());
        if len > 0 {
            substring(self.version.as_str(), 1, len)
        } else {
            self.version.clone()
        }
    }
}

} // verus!
