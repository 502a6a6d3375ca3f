//! Core of a small file-manager backend: directory listings with a fixed
//! ordering rule (directories before files, names compared case-insensitively),
//! a tagged error taxonomy, and the path arithmetic behind rename.
//!
//! The actual filesystem calls live outside this crate; the functions here
//! take plain values (existence and type flags, raw child entries, path text)
//! and compute the typed results that the operations return.

pub mod casefold;
pub mod entries;
pub mod errors;
pub mod order;
pub mod paths;
pub mod service;
pub mod sorting;
