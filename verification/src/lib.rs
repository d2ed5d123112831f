//! Verified core of a console front-end for a Linux package manager.
//!
//! The crate holds the state reducer, the backend worker's decision logic,
//! the parsers for the package manager's text output, and the fuzzy-search
//! ranking, each with a contract checked by Verus.  Terminal rendering, key
//! handling and the subprocess plumbing live outside, in the application
//! shell, which drives these functions with plain values.

pub mod text;

pub mod pkg;

pub mod apt;

pub mod backend;

pub mod search;

pub mod app;

