//! External commands, described as plain values.
use vstd::prelude::*;

verus! {

/// A command to run: the program, its arguments, and the directory to run
/// it in (the current one where `None`).
#[derive(Debug, Clone, PartialEq, Eq)]
pub struct CommandSpec {
    pub name: String,
    pub args: Vec<String>,
    pub current_dir: Option<String>,
}

/// The views of a list of strings.
pub open spec fn string_views(v: Seq<String>) -> Seq<Seq<char>> {
    Seq::new(v.len(), |i: int| v[i]@)
}

impl CommandSpec {
    pub open spec fn args_view(&self) -> Seq<Seq<char>> {
        string_views(self.args@)
    }

    pub open spec fn dir_view(&self) -> Option<Seq<char>> {
        match self.current_dir {
            Some(d) => Some(d@),
            None => None,
        }
    }
}

} // verus!
