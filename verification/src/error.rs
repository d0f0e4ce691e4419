//! The failures that a call of the native routine can end in.

use vstd::prelude::*;

verus! {

/// Why no frame was produced. Each failure that the native library names
/// carries the description that came with it, empty where none came.
#[derive(Debug)]
pub enum Error {
    /// The native library failed for a reason of its own.
    InternalError(String),
    /// The input is no video that the native library can read.
    InvalidData(String),
    /// The input is a video, but no frame was found in it.
    NoFrameFound(String),
    /// The native library returned a status code that it does not define.
    Undefined,
}

/// An [`Error`] with its description as a sequence of characters.
pub enum ErrorView {
    InternalError(Seq<char>),
    InvalidData(Seq<char>),
    NoFrameFound(Seq<char>),
    Undefined,
}

impl View for Error {
    type V = ErrorView;

    open spec fn view(&self) -> ErrorView {
        match self {
            Error::InternalError(description) => ErrorView::InternalError(description@),
            Error::InvalidData(description) => ErrorView::InvalidData(description@),
            Error::NoFrameFound(description) => ErrorView::NoFrameFound(description@),
            Error::Undefined => ErrorView::Undefined,
        }
    }
}

} // verus!
