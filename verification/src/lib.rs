//! A viewer for the history of a git repository: the commits are laid out in
//! lanes, one row per commit, and drawn as a graph beside their subjects.

pub mod app;
pub mod git;
pub mod graph;
pub mod input;
pub mod ui;
pub mod util;
