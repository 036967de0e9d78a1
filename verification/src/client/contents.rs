//! A stored notebook as the service lists it.

use vstd::prelude::*;

verus! {

/// A stored notebook with where and when it was stored.
#[derive(Default, Debug, Clone, PartialEq)]
pub struct Contents {
    pub name: String,
    pub path: String,
    pub last_modified: String,
    pub created: String,
    pub content: Content,
    pub format: String,
    /// The JSON text of the mime type.
    pub mimetype: String,
    pub size: i64,
    pub writable: bool,
    pub type_field: String,
}

/// The body of a stored notebook.
#[derive(Default, Debug, Clone, PartialEq)]
pub struct Content {
    pub cells: Vec<Cell>,
    pub metadata: Metadata,
    pub nbformat: i64,
    pub nbformat_minor: i64,
}

/// One cell of a stored notebook.
#[derive(Default, Debug, Clone, PartialEq)]
pub struct Cell {
    pub cell_type: String,
    /// The JSON text of the execution count.
    pub execution_count: String,
    pub id: String,
    pub metadata: Metadata,
    /// The JSON text of each output.
    pub outputs: Vec<String>,
    pub source: String,
}

/// The metadata of a stored notebook or of one of its cells.
#[derive(Default, Debug, Clone, PartialEq)]
pub struct Metadata {
    pub trusted: Option<bool>,
    pub kernelspec: Option<Kernelspec>,
    pub language_info: Option<LanguageInfo>,
}

/// The kernel that a notebook was written for.
#[derive(Default, Debug, Clone, PartialEq)]
pub struct Kernelspec {
    pub display_name: String,
    pub language: String,
    pub name: String,
}

/// The language that a notebook is written in.
#[derive(Default, Debug, Clone, PartialEq)]
pub struct LanguageInfo {
    pub codemirror_mode: String,
    pub file_extension: String,
    pub mimetype: String,
    pub name: String,
    pub pygment_lexer: String,
    pub version: String,
}

} // verus!
