//! The command line: the subcommands and where the catalog is stored.
use vstd::prelude::*;

use crate::config::SpaceTreeId;
use crate::context::{join, join_path};

verus! {

/// The subcommands.
#[derive(Debug)]
pub enum Command {
    /// Initializes a new space in `path`, laid out by `tree` or by the
    /// default tree.
    Init { path: String, tree: Option<SpaceTreeId> },
    /// Prints the working directory of a space.
    Wdir { space: String },
    /// Lists the spaces.
    ListSpaces,
    /// Lists the trees.
    ListTrees,
    /// Removes a space.
    RemoveSpace { space: String },
    /// Goes to a space, launching it where it does not run yet.
    Go { space: String },
    /// Changes the working directory or the tree of a space.
    Edit { space: String, wdir: Option<String>, tree: Option<SpaceTreeId> },
    /// Creates a tree interactively.
    NewTree { name: String },
    /// Removes a tree.
    RemoveTree { name: String },
}

/// The parsed command line.
#[derive(Debug)]
pub struct Cli {
    /// The subcommand; without one the interactive prompt runs.
    pub subcmds: Option<Command>,
    /// Overrides the directory where the catalog is stored.
    pub dir: Option<String>,
}

/// Where the catalog is stored by default, under the home directory.
pub open spec fn default_dir_name() -> Seq<char> {
    ".devspace/"@
}

impl Cli {
    /// The directory where the catalog is stored: the `--dir` argument, else
    /// `env_dir` (the `DEVSPACE_DIR` variable, where it is set), else
    /// `.devspace/` in the home directory `home`.
    pub fn dir(&self, env_dir: Option<String>, home: String) -> (r: String)
        ensures
            r@ == match self.dir {
                Some(d) => d@,
                None => match env_dir {
                    Some(e) => e@,
                    None => join_path(home@, default_dir_name()),
                },
            },
    {
        if let Some(d) = &self.dir {
            return d.clone();
        }
        if let Some(e) = env_dir {
            return e;
        }
        join(home.as_str(), ".devspace/")
    }
}

} // verus!
