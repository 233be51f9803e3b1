//! Documents: titles, file state, and the persistence layer's error types.

use vstd::prelude::*;
use vstd::string::StrSliceExecFns;
use vstd::string::StringExecFns;

verus! {

/// What a title keeps of a proposed string: its first fifty characters.
pub open spec fn spec_truncate_title(s: Seq<char>) -> Seq<char> {
    if s.len() <= 50 {
        s
    } else {
        s.take(50)
    }
}

/// A document title: at most fifty characters of whatever was proposed.
#[derive(Debug)]
pub struct Title(String);

impl View for Title {
    type V = Seq<char>;

    closed spec fn view(&self) -> Seq<char> {
        self.0@
    }
}

impl Title {
    /// Truncate a proposed title to at most fifty characters.
    pub fn new(title: &str) -> (t: Title)
        ensures
            t@ == spec_truncate_title(title@),
            t@.len() <= 50,
    {
        let n = title.unicode_len();
        if n <= 50 {
            Title(String::from_str(title))
        } else {
            Title(String::from_str(title.substring_char(0, 50)))
        }
    }

    /// The title's characters.
    pub fn as_str(&self) -> (r: &str)
        ensures
            r@ == self@,
    {
        self.0.as_str()
    }
}

impl Clone for Title {
    fn clone(&self) -> (r: Title)
        ensures
            r@ == self@,
    {
        Title(self.0.clone())
    }
}

impl Default for Title {
    /// The title a document gets before anyone names it.
    fn default() -> (t: Title)
        ensures
            t@ == "Untitled"@,
    {
        Title(String::from_str("Untitled"))
    }
}

/// The state a document's file is in.
#[derive(Debug, Clone)]
pub enum SavedState {
    /// Never saved.
    New,
    /// Saved, and unchanged since.
    NoChanges,
    /// Changed since the last save.
    Changed,
}

/// Failure to create a document; the detail names the cause.
#[derive(Debug)]
pub struct CreateDocumentError(pub String);

impl CreateDocumentError {
    /// A diagnostic message for this error.
    pub fn message(&self) -> (r: String)
        ensures
            r@ == "could not create document: "@ + self.0@,
    {
        let mut s = String::from_str("could not create document: ");
        s.append(self.0.as_str());
        s
    }
}

/// Failure of the persistence layer.
#[derive(Debug)]
pub enum PersistenceError {
    /// An input/output failure, by its message.
    IO(String),
    /// The file's format is not one the layer can read.
    InvalidFormat,
    /// The entry is not in the registry.
    NotFound,
}

impl PersistenceError {
    /// A diagnostic message for this error.
    pub fn message(&self) -> (r: String)
        ensures
            *self matches PersistenceError::IO(detail) ==> r@ == "I/O error: "@ + detail@,
            *self is InvalidFormat ==> r@ == "Invalid file format"@,
            *self is NotFound ==> r@ == "Entry not found in registry"@,
    {
        match self {
            PersistenceError::IO(detail) => {
                let mut s = String::from_str("I/O error: ");
                s.append(detail.as_str());
                s
            },
            PersistenceError::InvalidFormat => String::from_str("Invalid file format"),
            PersistenceError::NotFound => String::from_str("Entry not found in registry"),
        }
    }
}

} // verus!
