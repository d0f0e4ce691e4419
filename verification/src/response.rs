//! What one call of the native routine left behind, as plain values.

use crate::text::{decode_text, text_of};
use libc::c_int;
use vstd::prelude::*;

verus! {

/// The status that the native routine returned.
#[derive(Clone, Copy, Debug)]
pub struct ResponseStatus<'f> {
    /// The status code.
    pub code: c_int,
    /// The bytes of the description that came with a failure, without the
    /// terminating zero; `None` where the native library gave none, or where
    /// the call succeeded and the description was not read.
    pub description: Option<&'f [u8]>,
}

/// The mathematical value of a [`ResponseStatus`].
pub struct ResponseStatusView {
    pub code: c_int,
    pub description: Option<Seq<u8>>,
}

impl<'f> View for ResponseStatus<'f> {
    type V = ResponseStatusView;

    open spec fn view(&self) -> ResponseStatusView {
        ResponseStatusView {
            code: self.code,
            description: match self.description {
                Some(bytes) => Some(bytes@),
                None => None,
            },
        }
    }
}

/// The description that a failure carries: the text of the bytes that came
/// with it, and the empty text where none came or where they are no
/// well-formed UTF-8.
pub open spec fn description_of(description: Option<Seq<u8>>) -> Seq<char> {
    match description {
        Some(bytes) => match text_of(bytes) {
            Some(text) => text,
            None => Seq::empty(),
        },
        None => Seq::empty(),
    }
}

impl<'f> ResponseStatus<'f> {
    /// The description as an owned string, empty where there is none to show.
    pub fn describe(&self) -> (text: String)
        ensures
            text@ == description_of(self@.description),
    {
        match self.description {
            Some(bytes) => match decode_text(bytes) {
                Some(text) => text.to_owned(),
                None => String::new(),
            },
            None => String::new(),
        }
    }
}

/// What the native routine wrote into its output slots on success.
#[derive(Debug)]
pub struct RawFrame<'f> {
    /// The encoded image, in the length that the native routine gave for it.
    pub buffer: Vec<u8>,
    /// The bytes of the rotation, without the terminating zero; `None` where
    /// the native routine left the slot empty.
    pub rotation: Option<&'f [u8]>,
}

/// The mathematical value of a [`RawFrame`].
pub struct RawFrameView {
    pub buffer: Seq<u8>,
    pub rotation: Option<Seq<u8>>,
}

impl<'f> View for RawFrame<'f> {
    type V = RawFrameView;

    open spec fn view(&self) -> RawFrameView {
        RawFrameView {
            buffer: self.buffer@,
            rotation: match self.rotation {
                Some(bytes) => Some(bytes@),
                None => None,
            },
        }
    }
}

} // verus!
