//! Development workspaces ("spaces"): a catalog that binds each space to a
//! working directory and a named layout tree, the expansion of the command
//! templates found in a tree's leaves, and the compilation of a tree into an
//! ordered batch of tmux operations.
use vstd::prelude::*;

pub mod cli;
pub mod cmds;
pub mod config;
pub mod context;
pub mod database;
pub mod entries;
pub mod repl;
pub mod template;
pub mod tmux;

use crate::cmds::new_tree::InteractiveError;
use crate::config::SpaceTreeId;
use crate::template::CmdParsingError;

verus! {

/// What can go wrong in this library.
#[derive(Debug)]
pub enum DsError {
    /// No space has this name.
    SpaceNotFound(String),
    /// A space of this name exists already.
    SpaceAlreadyExists(String),
    /// No tree has this name.
    SpaceTreeNotFound(SpaceTreeId),
    /// A leaf command of a tree is not a valid template.
    CmdParsingError(CmdParsingError),
    /// There is nothing to list.
    NothingToList,
    /// A line of the interactive prompt cannot be split into words.
    InvalidREPL,
    /// The directory does not exist.
    DirDoesntExists(String),
    /// A wrong answer to the tree builder.
    InteractiveError(InteractiveError),
}

} // verus!
