//! A small grep-style line search library.
//!
//! The library compiles a regular-expression pattern once, evaluates each
//! line of a file against it (optionally case-insensitively and inverted),
//! counts the hits, and formats the report lines exactly as they are printed.
//! Directory traversal and all file reading live outside the library; the
//! library receives plain lines and path labels and returns plain strings.

pub mod engine;
pub mod pattern;
pub mod report;
