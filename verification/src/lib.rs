//! Build-time resolution of a repository's `git describe` string.
//!
//! The crate holds the decisions of one expansion: parsing the named
//! arguments, walking towards the repository root, judging the outcome of
//! the query command, choosing a fallback and rendering the constant. The
//! caller performs the outside work (probing directories, running `git`)
//! and feeds the answers back.

pub mod clauses;
pub mod command;
pub mod config;
pub mod directory;
pub mod emitter;
pub mod literal;
pub mod parser;
pub mod resolver;
pub mod suggest;
pub mod text;
pub mod token;
