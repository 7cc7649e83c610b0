//! Errors reported by the library's operations.

use vstd::prelude::*;

verus! {

/// What went wrong, with the path concerned where there is one.
#[derive(Debug, PartialEq, Eq)]
pub enum FileError {
    /// The path does not exist.
    NotFound(String),
    /// The target of a rename is already taken.
    AlreadyExists(String),
    /// Every candidate name of a bounded search is taken.
    Exhausted,
    /// The image encoder failed, with its message.
    Encode(String),
}

impl FileError {
    /// The message shown to the user.
    pub open spec fn message_spec(&self) -> Seq<char> {
        match self {
            FileError::NotFound(p) => "path does not exist: "@ + p@,
            FileError::AlreadyExists(p) => "target already exists: "@ + p@,
            FileError::Exhausted => "no free name is left"@,
            FileError::Encode(m) => "image encoding failed: "@ + m@,
        }
    }

    /// The message shown to the user.
    pub fn message(&self) -> (r: String)
        ensures
            r@ == self.message_spec(),
    {
        match self {
            FileError::NotFound(p) => {
                let mut m = String::from_str("path does not exist: ");
                m.append(p.as_str());
                m
            },
            FileError::AlreadyExists(p) => {
                let mut m = String::from_str("target already exists: ");
                m.append(p.as_str());
                m
            },
            FileError::Exhausted => String::from_str("no free name is left"),
            FileError::Encode(e) => {
                let mut m = String::from_str("image encoding failed: ");
                m.append(e.as_str());
                m
            },
        }
    }
}

} // verus!
