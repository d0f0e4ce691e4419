//! Status codes of the native routine and the categories they fall in.

use libc::c_int;
use vstd::prelude::*;

verus! {

/// The values of the four status codes that the native library defines.
///
/// The library exports them as symbols, so they are known only once it is
/// linked: the caller reads them and hands them over.
#[derive(Clone, Copy, Debug)]
pub struct StatusCodes {
    /// A frame was produced: the output buffer and the rotation may be read.
    pub ok: c_int,
    /// The input is no video that the native library can read.
    pub invalid_input: c_int,
    /// The input is a video, but no frame was found in it.
    pub not_found: c_int,
    /// The native library failed for a reason of its own.
    pub internal: c_int,
}

/// The category of a status code.
#[derive(Clone, Copy, Debug, PartialEq, Eq, Structural)]
pub enum Status {
    /// The code for a frame that was produced.
    Success,
    /// The code for an input that is no readable video.
    InvalidInput,
    /// The code for a video in which no frame was found.
    NotFound,
    /// The code for a failure inside the native library.
    Internal,
    /// The code is none of the four that the native library defines.
    Undefined,
}

impl StatusCodes {
    /// The category of `code`. Success is tested first, then invalid input,
    /// internal failure and missing frame, so that a code keeps its category
    /// even where two of the four values coincide.
    pub open spec fn status_of(self, code: c_int) -> Status {
        if code == self.ok {
            Status::Success
        } else if code == self.invalid_input {
            Status::InvalidInput
        } else if code == self.internal {
            Status::Internal
        } else if code == self.not_found {
            Status::NotFound
        } else {
            Status::Undefined
        }
    }

    /// No two of the four codes share a value.
    pub open spec fn distinct(self) -> bool {
        &&& self.ok != self.invalid_input
        &&& self.ok != self.not_found
        &&& self.ok != self.internal
        &&& self.invalid_input != self.not_found
        &&& self.invalid_input != self.internal
        &&& self.not_found != self.internal
    }

    /// Sorts a status code into its category.
    pub fn classify(&self, code: c_int) -> (status: Status)
        ensures
            status == self.status_of(code),
    {
        if code == self.ok {
            Status::Success
        } else if code == self.invalid_input {
            Status::InvalidInput
        } else if code == self.internal {
            Status::Internal
        } else if code == self.not_found {
            Status::NotFound
        } else {
            Status::Undefined
        }
    }
}

} // verus!
