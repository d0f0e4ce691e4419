//! From what the native routine left behind to the typed result.

use crate::error::{Error, ErrorView};
use crate::response::{description_of, RawFrame, RawFrameView, ResponseStatus, ResponseStatusView};
use crate::status::{Status, StatusCodes};
use crate::text::{decode_text, text_of};
use vstd::prelude::*;

verus! {

/// The first frame of a video.
#[derive(Debug)]
pub struct FrameResult<'f> {
    /// The encoded image.
    pub buffer: Vec<u8>,
    /// How the image is to be turned for display, where the native library
    /// said so in well-formed text.
    pub rotation: Option<&'f str>,
}

/// The mathematical value of a [`FrameResult`].
pub struct FrameView {
    pub buffer: Seq<u8>,
    pub rotation: Option<Seq<char>>,
}

impl<'f> View for FrameResult<'f> {
    type V = FrameView;

    open spec fn view(&self) -> FrameView {
        FrameView {
            buffer: self.buffer@,
            rotation: match self.rotation {
                Some(text) => Some(text@),
                None => None,
            },
        }
    }
}

/// The frame that the output slots hold: the buffer as it is, and the
/// rotation where its bytes are there and are well-formed UTF-8.
pub open spec fn frame_of(raw: RawFrameView) -> FrameView {
    FrameView {
        buffer: raw.buffer,
        rotation: match raw.rotation {
            Some(bytes) => text_of(bytes),
            None => None,
        },
    }
}

/// What a call of the native routine comes to. On success it is the frame in
/// the output slots, whatever the description holds. On a failure it is the
/// error of the status code's category, and the output slots count for
/// nothing.
pub open spec fn outcome(
    codes: StatusCodes,
    status: ResponseStatusView,
    output: Option<RawFrameView>,
) -> Result<FrameView, ErrorView>
    recommends
        status.code == codes.ok ==> output is Some,
{
    match codes.status_of(status.code) {
        Status::Success => Ok(frame_of(output->0)),
        Status::InvalidInput => Err(ErrorView::InvalidData(description_of(status.description))),
        Status::Internal => Err(ErrorView::InternalError(description_of(status.description))),
        Status::NotFound => Err(ErrorView::NoFrameFound(description_of(status.description))),
        Status::Undefined => Err(ErrorView::Undefined),
    }
}

/// The mathematical value of what [`get_first_frame`] returns.
pub open spec fn result_view(result: Result<FrameResult, Error>) -> Result<FrameView, ErrorView> {
    match result {
        Ok(frame) => Ok(frame@),
        Err(error) => Err(error@),
    }
}

/// The mathematical value of the output slots, where they were read.
pub open spec fn output_view(output: Option<RawFrame>) -> Option<RawFrameView> {
    match output {
        Some(raw) => Some(raw@),
        None => None,
    }
}

/// Turns what one call of the native routine left behind into the first
/// frame of the video, or into the error that says why there is none.
///
/// `output` is what the output slots hold. They are read only after a
/// success, so on a failure it is `None`; whatever it holds then is dropped
/// unread. A success without a buffer breaks the native library's promise:
/// the caller has to stop there.
pub fn get_first_frame<'f>(
    codes: &StatusCodes,
    status: ResponseStatus<'f>,
    output: Option<RawFrame<'f>>,
) -> (result: Result<FrameResult<'f>, Error>)
    requires
        status.code == codes.ok ==> output is Some,
    ensures
        result is Ok <==> status.code == codes.ok,
        result_view(result) == outcome(*codes, status@, output_view(output)),
{
    match codes.classify(status.code) {
        Status::Success => {
            let raw = output.unwrap();
            let rotation = match raw.rotation {
                Some(bytes) => decode_text(bytes),
                None => None,
            };
            Ok(FrameResult { buffer: raw.buffer, rotation })
        },
        Status::InvalidInput => Err(Error::InvalidData(status.describe())),
        Status::Internal => Err(Error::InternalError(status.describe())),
        Status::NotFound => Err(Error::NoFrameFound(status.describe())),
        Status::Undefined => Err(Error::Undefined),
    }
}

} // verus!
