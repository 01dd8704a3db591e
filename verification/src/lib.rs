//! mini-ci: the decisions, names and text handling of a small single-binary CI
//! server, verified with Verus. The server around it (HTTP, SQLite, git and
//! shell processes, zip files) lives in the companion binary crate.

pub mod text;
pub mod ansi;
pub mod paths;
pub mod models;
pub mod runlog;
pub mod order;
pub mod tasks;
pub mod artifacts;
pub mod pipeline;
pub mod gitsync;
pub mod web;
pub mod cli;
pub mod autorun;
