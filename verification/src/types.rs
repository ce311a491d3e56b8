//! Plain data carried across the protocol: positions, edits, diagnostics.

use vstd::prelude::*;

verus! {

/// One place in one file, zero-based.
#[derive(Clone, Debug)]
pub struct Location {
    pub path: String,
    pub line: u32,
    pub character: u32,
}

/// One replacement of a text range by new text.
#[derive(Clone, Debug)]
pub struct Edit {
    pub path: String,
    pub start_line: u32,
    pub start_character: u32,
    pub end_line: u32,
    pub end_character: u32,
    pub new_text: String,
}

/// One file's current content, as the caller read it from disk.
#[derive(Clone, Debug)]
pub struct Document {
    pub path: String,
    pub content: String,
}

/// One diagnostic the analyzer reported for a document.
#[derive(Clone, Debug)]
pub struct Diagnostic {
    pub start_line: u32,
    pub start_character: u32,
    pub end_line: u32,
    pub end_character: u32,
    pub severity: u32,
    pub message: String,
    pub source: String,
}

} // verus!
