//! The parameters of a request for contents.

use vstd::prelude::*;

verus! {

/// The type of content to ask for.
#[derive(Debug, Clone, Copy, PartialEq, Eq, Structural)]
pub enum ContentType {
    File,
    Directory,
}

impl ContentType {
    /// The name of the type in a query.
    pub open spec fn spec_as_str(self) -> Seq<char> {
        match self {
            ContentType::File => "file"@,
            ContentType::Directory => "directory"@,
        }
    }

    /// The name of the type in a query.
    pub fn as_str(&self) -> (r: &'static str)
        ensures
            r@ == self.spec_as_str(),
    {
        match self {
            Self::File => "file",
            Self::Directory => "directory",
        }
    }
}

} // verus!
