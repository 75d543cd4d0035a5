//! The commands that read or change the catalog.
pub mod edit;
pub mod go;
pub mod init;
pub mod list_spaces;
pub mod list_trees;
pub mod new_tree;
pub mod remove;
pub mod remove_tree;
pub mod wdir;
