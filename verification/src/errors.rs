//! Errors of the wire envelope.

use vstd::prelude::*;

verus! {

/// A specialised `Result` for the wire envelope.
pub type Result<T> = std::result::Result<T, Error>;

/// Why bytes could not be turned into a message, or a message into bytes.
#[derive(Debug, Clone, PartialEq, Eq)]
pub enum Error {
    /// The bytes are not what was expected. The text names what was expected
    /// and not found.
    FailedToParse(String),
    /// A message could not be turned into bytes. The text says why.
    Serialisation(String),
    /// The envelope was written in a version of the format that is not
    /// supported.
    UnsupportedVersion(u16),
}

/// An error of the wire envelope, with its texts as sequences of characters.
pub enum ErrorView {
    /// The bytes are not what was expected.
    FailedToParse(Seq<char>),
    /// A message could not be turned into bytes.
    Serialisation(Seq<char>),
    /// The version of the format is not supported.
    UnsupportedVersion(u16),
}

impl View for Error {
    type V = ErrorView;

    open spec fn view(&self) -> ErrorView {
        match self {
            Error::FailedToParse(text) => ErrorView::FailedToParse(text@),
            Error::Serialisation(text) => ErrorView::Serialisation(text@),
            Error::UnsupportedVersion(version) => ErrorView::UnsupportedVersion(*version),
        }
    }
}

} // verus!
