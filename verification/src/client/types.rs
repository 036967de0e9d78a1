//! The values that the service's stateless operations exchange.

use vstd::prelude::*;
use vstd::string::*;
use crate::client::error::JupyterApiError;
use crate::client::json::optional_text_field;
use crate::client::json::optional_text_member;
use crate::client::json::Members;
use crate::client::kernel::channels_url;
use crate::client::kernel::KernelApiClient;

verus! {

/// What starts a kernel.
#[derive(Debug, Clone, PartialEq)]
pub struct KernelPostRequest {
    pub name: String,
    pub path: Option<String>,
}

/// The listing of a directory.
#[derive(Default, Debug, Clone, PartialEq)]
pub struct ContentList {
    pub name: String,
    pub path: String,
    pub last_modified: String,
    pub created: String,
    pub content: Vec<Content>,
}

/// A file, a notebook or a directory.
#[derive(Default, Debug, Clone, PartialEq)]
pub struct Content {
    pub name: String,
    pub path: String,
    pub last_modified: String,
    pub created: String,
    pub content: Option<ContentBody>,
    pub format: Option<String>,
    pub mimetype: Option<String>,
    pub size: Option<i32>,
    pub writable: bool,
    pub type_field: ContentType,
}

/// What stores a notebook.
#[derive(Debug, Clone, PartialEq)]
pub struct ContentPutRequest {
    pub file_type: FileType,
    pub content: ContentBody,
}

/// The body of a notebook.
#[derive(Default, Debug, Clone, PartialEq)]
pub struct ContentBody {
    pub cells: Option<Vec<Cell>>,
    pub metadata: Metadata,
    pub nbformat: i64,
    pub nbformat_minor: i64,
}

/// One cell of a notebook.
#[derive(Debug, Clone, PartialEq)]
pub struct Cell {
    pub cell_type: CellType,
    /// The JSON text of the execution count, where there is one.
    pub execution_count: Option<String>,
    pub id: Option<String>,
    pub metadata: Metadata,
    pub outputs: Vec<Output>,
    pub source: String,
}

/// What a cell holds.
#[derive(Debug, Clone, Copy, PartialEq, Eq, Structural)]
pub enum CellType {
    Code,
    Markdown,
}

/// Whether `cell` is a bare code cell with this source: no execution
/// count, no id, no outputs, metadata without a kernel.
pub open spec fn is_bare_code_cell(cell: Cell, source: Seq<char>) -> bool {
    &&& cell.cell_type == CellType::Code
    &&& cell.execution_count is None
    &&& cell.id is None
    &&& cell.metadata.is_blank()
    &&& cell.outputs@.len() == 0
    &&& cell.source@ == source
}

impl Cell {
    /// A bare code cell that holds `code`.
    pub fn code(code: String) -> (r: Self)
        ensures
            is_bare_code_cell(r, code@),
    {
        Self {
            cell_type: CellType::Code,
            execution_count: None,
            id: None,
            metadata: Metadata::default(),
            outputs: Vec::new(),
            source: code,
        }
    }

    /// A cell that holds `text`. It is marked as a code cell, like every
    /// cell that is made here.
    pub fn markdown(text: String) -> (r: Self)
        ensures
            is_bare_code_cell(r, text@),
    {
        Self {
            cell_type: CellType::Code,
            execution_count: None,
            id: None,
            metadata: Metadata::default(),
            outputs: Vec::new(),
            source: text,
        }
    }
}

impl From<String> for Cell {
    fn from(code: String) -> (r: Self)
        ensures
            is_bare_code_cell(r, code@),
    {
        Cell::code(code)
    }
}

/// What `from` returns is stated on `from` itself.
impl vstd::std_specs::convert::FromSpecImpl<String> for Cell {
    open spec fn obeys_from_spec() -> bool {
        false
    }

    open spec fn from_spec(code: String) -> Self {
        arbitrary()
    }
}

/// Whether `body` is a notebook in format 4.5 of one bare code cell for
/// each of `codes`, in their order.
pub open spec fn is_notebook_of(body: ContentBody, codes: Seq<Seq<char>>) -> bool {
    &&& body.nbformat == 4
    &&& body.nbformat_minor == 5
    &&& body.metadata.is_blank()
    &&& body.cells matches Some(cells)
    &&& cells@.len() == codes.len()
    &&& forall|i: int| 0 <= i < codes.len() ==> is_bare_code_cell(#[trigger] cells@[i], codes[i])
}

impl From<Vec<String>> for ContentBody {
    fn from(codes: Vec<String>) -> (r: Self)
        ensures
            is_notebook_of(r, codes.deep_view()),
    {
        let mut cells: Vec<Cell> = Vec::new();
        let mut i: usize = 0;
        while i < codes.len()
            invariant
                i <= codes.len(),
                cells@.len() == i,
                forall|j: int| 0 <= j < i ==> is_bare_code_cell(#[trigger] cells@[j], codes[j]@),
            decreases codes.len() - i,
        {
            cells.push(Cell::code(codes[i].clone()));
            i += 1;
        }
        assert forall|j: int| 0 <= j < codes.deep_view().len() implies is_bare_code_cell(
            #[trigger] cells@[j],
            codes.deep_view()[j],
        ) by {
            assert(codes.deep_view()[j] == codes[j]@);
        }
        Self { cells: Some(cells), metadata: Metadata::default(), nbformat: 4, nbformat_minor: 5 }
    }
}

/// What `from` returns is stated on `from` itself.
impl vstd::std_specs::convert::FromSpecImpl<Vec<String>> for ContentBody {
    open spec fn obeys_from_spec() -> bool {
        false
    }

    open spec fn from_spec(codes: Vec<String>) -> Self {
        arbitrary()
    }
}

impl From<Vec<String>> for ContentPutRequest {
    fn from(codes: Vec<String>) -> (r: Self)
        ensures
            r.file_type == FileType::Notebook,
            is_notebook_of(r.content, codes.deep_view()),
    {
        Self { file_type: FileType::Notebook, content: ContentBody::from(codes) }
    }
}

/// What `from` returns is stated on `from` itself.
impl vstd::std_specs::convert::FromSpecImpl<Vec<String>> for ContentPutRequest {
    open spec fn obeys_from_spec() -> bool {
        false
    }

    open spec fn from_spec(codes: Vec<String>) -> Self {
        arbitrary()
    }
}

/// One output of a cell.
#[derive(Default, Debug, Clone, PartialEq)]
pub struct Output {
    pub data: Data,
    pub execution_count: i64,
    pub metadata: Metadata,
    pub output_type: String,
}

/// The metadata of a notebook or of a cell.
#[derive(Debug, Clone, PartialEq)]
pub struct Metadata {
    pub trusted: Option<bool>,
    pub kernelspec: Kernelspec,
    pub language_info: Option<LanguageInfo>,
}

impl Metadata {
    /// Metadata that says nothing: no trust, no language, a kernel without
    /// names.
    pub open spec fn is_blank(self) -> bool {
        &&& self.trusted is None
        &&& self.language_info is None
        &&& self.kernelspec.display_name@.len() == 0
        &&& self.kernelspec.language@.len() == 0
        &&& self.kernelspec.name@.len() == 0
    }
}

impl Default for Metadata {
    fn default() -> (r: Self)
        ensures
            r.is_blank(),
    {
        Metadata {
            trusted: None,
            kernelspec: Kernelspec {
                display_name: String::new(),
                language: String::new(),
                name: String::new(),
            },
            language_info: None,
        }
    }
}

/// The kernel that a notebook was written for.
#[derive(Default, Debug, Clone, PartialEq)]
pub struct Kernelspec {
    pub display_name: String,
    pub language: String,
    pub name: String,
}

/// The language that a notebook is written in.
#[derive(Default, Debug, Clone, PartialEq)]
pub struct LanguageInfo {
    pub codemirror_mode: String,
    pub file_extension: String,
    pub mimetype: String,
    pub name: String,
    pub pygment_lexer: String,
    pub version: String,
}

/// The type of a content.
#[derive(Clone, Copy, Debug, Eq, PartialEq, Structural, Hash)]
pub enum ContentType {
    Directory,
    File,
    Notebook,
}

impl Default for ContentType {
    fn default() -> (r: ContentType)
        ensures
            r == ContentType::Directory,
    {
        Self::Directory
    }
}

impl ContentType {
    /// The name of the type on the wire.
    pub open spec fn spec_as_str(self) -> Seq<char> {
        match self {
            ContentType::Directory => "directory"@,
            ContentType::File => "file"@,
            ContentType::Notebook => "notebook"@,
        }
    }

    /// The name of the type on the wire.
    pub fn as_str(&self) -> (r: &'static str)
        ensures
            r@ == self.spec_as_str(),
    {
        match self {
            Self::Directory => "directory",
            Self::File => "file",
            Self::Notebook => "notebook",
        }
    }
}

/// A session: a notebook and the kernel that runs it.
#[derive(Default, Debug, Clone, PartialEq)]
pub struct Session {
    pub id: String,
    pub path: String,
    pub name: String,
    pub type_field: String,
    pub kernel: Option<Kernel>,
    pub notebook: Notebook,
}

/// A running kernel.
#[derive(Default, Debug, Clone, PartialEq)]
pub struct Kernel {
    pub id: String,
    pub name: String,
    pub last_activity: String,
    pub execution_state: String,
    pub connections: u32,
}

impl Kernel {
    /// The client for executions on this kernel, reached at `base_host`.
    pub fn kernel_client(&self, base_host: &str, secure: bool) -> (r: KernelApiClient)
        ensures
            r@ == channels_url(base_host@, self.id@, secure),
    {
        KernelApiClient::new(base_host, self.id.as_str(), secure)
    }
}

/// The notebook of a session.
#[derive(Default, Debug, Clone, PartialEq)]
pub struct Notebook {
    pub path: String,
    pub name: String,
}

/// The type of a content to store.
#[derive(Debug, Clone, Copy, PartialEq, Eq, Structural)]
pub enum FileType {
    Notebook,
    File,
    Directory,
}

/// Rendered output, by mime type.
#[derive(Default, Debug, Clone, PartialEq)]
pub struct Data {
    /// The rendering under `text/plain`.
    pub text_plain: Option<String>,
    /// The rendering under `image/png`.
    pub image_png: Option<String>,
}

/// The mathematical value of a [`Data`].
pub struct DataView {
    pub text_plain: Option<Seq<char>>,
    pub image_png: Option<Seq<char>>,
}

impl View for Data {
    type V = DataView;

    open spec fn view(&self) -> DataView {
        DataView {
            text_plain: match self.text_plain {
                Some(s) => Some(s@),
                None => None,
            },
            image_png: match self.image_png {
                Some(s) => Some(s@),
                None => None,
            },
        }
    }
}

/// The rendered output that an object of these members is: under each of
/// `text/plain` and `image/png` a string, `null` or nothing. Renderings of
/// other mime types do not matter.
pub open spec fn data_of(members: Members) -> Option<DataView> {
    let text_plain = optional_text_field(members, "text/plain"@);
    let image_png = optional_text_field(members, "image/png"@);
    if text_plain is Some && image_png is Some {
        Some(DataView { text_plain: text_plain->0, image_png: image_png->0 })
    } else {
        None
    }
}

impl Data {
    /// Reads rendered output from the members of its object.
    pub fn from_members(members: &Vec<(String, String)>) -> (r: Result<Data, JupyterApiError>)
        ensures
            r matches Ok(data) ==> data_of(members.deep_view()) == Some(data@),
            r matches Err(e) ==> e is JsonError && data_of(members.deep_view()) is None,
    {
        let text_plain = optional_text_member(members, "text/plain")?;
        let image_png = optional_text_member(members, "image/png")?;
        Ok(Data { text_plain, image_png })
    }
}

} // verus!
