//! The worktree lifecycle engine of a branch picker: it takes stock of the
//! worktrees of a repository, decides which of them are safe to delete, and
//! creates local branches and worktrees from remote branches.

pub mod backend;
pub mod browse;
pub mod clean;
pub mod cli;
pub mod freq;
pub mod git;
pub mod pick;
pub mod safety;
pub mod text;
pub mod ui;
pub mod worktree;
