//! The decisions of a binding to a native frame grabber.
//!
//! A native routine takes an encoded video and leaves behind a status code,
//! an optional description, and on success a buffer that holds one encoded
//! image with an optional rotation. Calling that routine and following its
//! pointers is the caller's part. This crate holds what comes after: it tells
//! from the status code which of the values may be read, decodes the texts,
//! and builds the typed result or the typed error.

pub mod error;
pub mod frame;
pub mod laws;
pub mod response;
pub mod status;
pub mod text;

pub use error::{Error, ErrorView};
pub use frame::{
    frame_of, get_first_frame, outcome, output_view, result_view, FrameResult, FrameView,
};
pub use response::{description_of, RawFrame, RawFrameView, ResponseStatus, ResponseStatusView};
pub use status::{Status, StatusCodes};
pub use text::{decode_text, text_of};
