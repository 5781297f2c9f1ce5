//! Why a source, or the aggregation as a whole, can fail.

use vstd::prelude::*;
use vstd::string::StringExecFns;

verus! {

/// What a record must hold before a query can be built from it.
#[derive(Debug, Clone, Copy, PartialEq, Eq, Structural)]
pub enum Required {
    /// A title or an ISRC, either will do.
    TitleOrIsrc,
    /// A title.
    Title,
    /// At least one artist.
    Artists,
}

/// The ways in which asking a source can fail.
#[derive(Debug, Clone, PartialEq, Eq)]
pub enum Error {
    /// The record lacks what the query needs; nothing was sent.
    MissingRequiredField(Required),
    /// The source could not be reached.
    TransportError(String),
    /// The source answered in a shape that was not expected.
    ParseError(String),
    /// The local catalog could not be opened or queried.
    StorageError(String),
}

impl Error {
    /// The error in words.
    pub open spec fn text(self) -> Seq<char> {
        match self {
            Error::MissingRequiredField(Required::TitleOrIsrc) => "Required Fields: title or isrc"@,
            Error::MissingRequiredField(Required::Title) => "Required Field: title"@,
            Error::MissingRequiredField(Required::Artists) => "Required Field: artists"@,
            Error::TransportError(s) => s@,
            Error::ParseError(s) => s@,
            Error::StorageError(s) => s@,
        }
    }

    /// The error in words.
    pub fn message(&self) -> (s: String)
        ensures
            s@ == self.text(),
    {
        match self {
            Error::MissingRequiredField(Required::TitleOrIsrc) => String::from_str(
                "Required Fields: title or isrc",
            ),
            Error::MissingRequiredField(Required::Title) => String::from_str(
                "Required Field: title",
            ),
            Error::MissingRequiredField(Required::Artists) => String::from_str(
                "Required Field: artists",
            ),
            Error::TransportError(s) => s.clone(),
            Error::ParseError(s) => s.clone(),
            Error::StorageError(s) => s.clone(),
        }
    }
}

/// The outcome of building a query, as the text it holds.
pub open spec fn text_result(r: Result<String, Error>) -> Result<Seq<char>, Error> {
    match r {
        Ok(s) => Ok(s@),
        Err(e) => Err(e),
    }
}

} // verus!
