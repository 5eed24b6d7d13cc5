//! File identity, language tags and the extractor error taxonomy.

use vstd::prelude::*;

verus! {

/// Opaque identifier of one source file.
#[derive(Clone, Copy, Debug, PartialEq, Eq, Structural, Hash)]
pub struct FileId(pub u64);

/// The languages the extractors understand.
#[derive(Clone, Copy, Debug, PartialEq, Eq, Structural, Hash)]
pub enum Lang {
    Python,
    Go,
    Rust,
    Typescript,
    Javascript,
}

/// One source file handed to the parse layer: a path, a language tag and
/// the raw UTF-8 content.
#[derive(Clone, Debug)]
pub struct SourceFile {
    pub path: Vec<u8>,
    pub language: Lang,
    pub content: Vec<u8>,
}

/// Errors surfaced at the extractor boundary.
#[derive(Clone, Debug)]
pub enum SemanticsError {
    /// The grammar rejected the input; carries path and reason.
    ParseFailed(Vec<u8>, Vec<u8>),
    /// The content is not valid UTF-8; carries path and reason.
    InvalidSource(Vec<u8>, Vec<u8>),
    /// An extractor invariant was violated; carries the reason.
    Internal(Vec<u8>),
}

} // verus!
