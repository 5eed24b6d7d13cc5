//! Multi-language static semantic extraction.
//!
//! The crate parses source files of several languages into a plain syntax
//! tree, extracts semantic facts (imports, functions, call sites, HTTP
//! client calls, database and concurrency operations), and normalizes the
//! per-language records onto one shared schema, so that downstream tooling
//! can reason about heterogeneous code uniformly.

pub mod bytes;
pub mod common;
pub mod golang;
pub mod lang;
pub mod laws;
pub mod normalize;
pub mod normalize_go;
pub mod normalize_rust;
pub mod normalize_ts;
pub mod parse;
pub mod python;
pub mod rust_http;
pub mod rustlang;
pub mod syntree;
pub mod typescript;

pub use lang::{FileId, Lang, SemanticsError, SourceFile};
pub use parse::ParsedFile;
