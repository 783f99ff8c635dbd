//! File paths as the protocol carries them.
use vstd::prelude::*;
use vstd::string::*;

verus! {

/// The path of the document being edited, if it has one.
#[derive(Debug, PartialEq)]
pub enum FilePath {
    Missing,
    Provided { path: String },
}

impl View for FilePath {
    type V = Option<Seq<char>>;

    open spec fn view(&self) -> Option<Seq<char>> {
        match self {
            FilePath::Missing => None,
            FilePath::Provided { path } => Some(path@),
        }
    }
}

impl Clone for FilePath {
    fn clone(&self) -> (r: Self)
        ensures
            r == *self,
    {
        match self {
            FilePath::Missing => FilePath::Missing,
            FilePath::Provided { path } => FilePath::Provided { path: path.clone() },
        }
    }
}

/// Text shown for a path: the path itself, or `[No Filename]`.
pub open spec fn file_path_text(p: Option<Seq<char>>) -> Seq<char> {
    match p {
        None => "[No Filename]"@,
        Some(s) => s,
    }
}

impl FilePath {
    /// Whether two paths name the same file (compared by their characters).
    pub fn same_as(&self, other: &FilePath) -> (r: bool)
        ensures
            r == (self@ == other@),
    {
        match (self, other) {
            (FilePath::Missing, FilePath::Missing) => true,
            (FilePath::Provided { path: a }, FilePath::Provided { path: b }) => *a == *b,
            _ => false,
        }
    }

    /// The text a status line shows for this path.
    pub fn display_text(&self) -> (r: String)
        ensures
            r@ == file_path_text(self@),
    {
        match self {
            FilePath::Missing => String::from_str("[No Filename]"),
            FilePath::Provided { path } => path.clone(),
        }
    }
}

/// Why a document has no path to act on.
#[derive(Debug, PartialEq, Eq, Structural, Clone, Copy)]
pub enum PathError {
    NoFilePath,
}

/// A document's path; the empty string stands for an unnamed document.
#[derive(Debug, PartialEq)]
pub struct DocumentFile {
    pub path: String,
}

impl Clone for DocumentFile {
    fn clone(&self) -> (r: Self)
        ensures
            r == *self,
    {
        DocumentFile { path: self.path.clone() }
    }
}

/// The name a document is saved under when it has none.
pub open spec fn untitled_name() -> Seq<char> {
    "untitled.txt"@
}

impl DocumentFile {
    /// The path to read the document from; an unnamed document has none.
    pub fn open_path(&self) -> (r: Result<String, PathError>)
        ensures
            self.path@.len() == 0 ==> r == Err::<String, PathError>(PathError::NoFilePath),
            self.path@.len() != 0 ==> (r matches Ok(p) && p@ == self.path@),
    {
        if self.path.as_str().is_empty() {
            Err(PathError::NoFilePath)
        } else {
            Ok(self.path.clone())
        }
    }

    /// The path to write the document to: `untitled.txt` for an unnamed one.
    pub fn save_path(&self) -> (r: String)
        ensures
            r@ == if self.path@.len() == 0 { untitled_name() } else { self.path@ },
    {
        if self.path.as_str().is_empty() {
            String::from_str("untitled.txt")
        } else {
            self.path.clone()
        }
    }

    /// The path whose permissions decide whether the document is locked.
    pub fn metadata_path(&self) -> (r: Result<String, PathError>)
        ensures
            self.path@.len() == 0 ==> r == Err::<String, PathError>(PathError::NoFilePath),
            self.path@.len() != 0 ==> (r matches Ok(p) && p@ == self.path@),
    {
        if self.path.as_str().is_empty() {
            Err(PathError::NoFilePath)
        } else {
            Ok(self.path.clone())
        }
    }

    /// The text a status line shows for this document.
    pub fn display_text(&self) -> (r: String)
        ensures
            r@ == if self.path@.len() == 0 { "[No Filename]"@ } else { self.path@ },
    {
        if self.path.as_str().is_empty() {
            String::from_str("[No Filename]")
        } else {
            self.path.clone()
        }
    }
}

} // verus!
