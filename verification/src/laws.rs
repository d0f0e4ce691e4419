//! What holds of every call, proved from the definition of [`outcome`].

use crate::error::ErrorView;
use crate::frame::{frame_of, outcome, FrameView};
use crate::response::{description_of, RawFrameView, ResponseStatusView};
use crate::status::{Status, StatusCodes};
use vstd::prelude::*;
use vstd::utf8::{decode_utf8, decode_utf8_encode_utf8, encode_utf8, valid_utf8};

verus! {

/// A success status always gives a frame, and the frame's buffer is the one
/// in the output slot, byte for byte and in the same length: it is empty
/// only if that one is empty.
pub proof fn lemma_success_keeps_buffer(
    codes: StatusCodes,
    status: ResponseStatusView,
    raw: RawFrameView,
)
    requires
        status.code == codes.ok,
    ensures
        outcome(codes, status, Some(raw)) == Ok::<FrameView, ErrorView>(frame_of(raw)),
        frame_of(raw).buffer == raw.buffer,
        frame_of(raw).buffer.len() == raw.buffer.len(),
{
}

/// After a success the rotation is either absent or the text that the
/// native library wrote: the bytes in the rotation slot are then well-formed
/// UTF-8 and are the encoding of that text. It is absent exactly where the
/// slot is empty or its bytes are malformed, and malformed bytes never turn
/// the success into an error.
pub proof fn lemma_rotation_is_text_or_absent(
    codes: StatusCodes,
    status: ResponseStatusView,
    raw: RawFrameView,
)
    requires
        status.code == codes.ok,
    ensures
        outcome(codes, status, Some(raw)) == Ok::<FrameView, ErrorView>(frame_of(raw)),
        frame_of(raw).rotation is Some <==> raw.rotation is Some && valid_utf8(raw.rotation->0),
        frame_of(raw).rotation matches Some(text) ==> text == decode_utf8(raw.rotation->0)
            && encode_utf8(text) == raw.rotation->0,
{
    if raw.rotation is Some && valid_utf8(raw.rotation->0) {
        decode_utf8_encode_utf8(raw.rotation->0);
    }
}

/// Every status but success gives an error, whatever the output slots hold:
/// an undefined code is never taken for a success.
pub proof fn lemma_failure_is_surfaced(
    codes: StatusCodes,
    status: ResponseStatusView,
    output: Option<RawFrameView>,
)
    requires
        status.code != codes.ok,
    ensures
        outcome(codes, status, output) is Err,
        outcome(codes, status, output) == outcome(codes, status, None),
{
}

/// The status code that stands for invalid input gives `InvalidData` with
/// the description that came with it, and `NoFrameFound` comes from no
/// other code than the one that stands for a missing frame.
pub proof fn lemma_invalid_input_is_not_missing_frame(
    codes: StatusCodes,
    status: ResponseStatusView,
    output: Option<RawFrameView>,
)
    requires
        codes.invalid_input != codes.ok,
    ensures
        status.code == codes.invalid_input ==> outcome(codes, status, output) == Err::<
            FrameView,
            ErrorView,
        >(ErrorView::InvalidData(description_of(status.description))),
        outcome(codes, status, output) matches Err(ErrorView::NoFrameFound(_)) ==> status.code
            == codes.not_found && status.code != codes.invalid_input,
{
}

/// Where the four codes differ from each other, each failure code gives the
/// error of its own name, and every code that is none of the four gives
/// `Undefined`.
pub proof fn lemma_each_code_has_its_error(
    codes: StatusCodes,
    status: ResponseStatusView,
    output: Option<RawFrameView>,
)
    requires
        codes.distinct(),
    ensures
        status.code == codes.invalid_input ==> outcome(codes, status, output) == Err::<
            FrameView,
            ErrorView,
        >(ErrorView::InvalidData(description_of(status.description))),
        status.code == codes.not_found ==> outcome(codes, status, output) == Err::<
            FrameView,
            ErrorView,
        >(ErrorView::NoFrameFound(description_of(status.description))),
        status.code == codes.internal ==> outcome(codes, status, output) == Err::<
            FrameView,
            ErrorView,
        >(ErrorView::InternalError(description_of(status.description))),
        codes.status_of(status.code) == Status::Undefined ==> outcome(codes, status, output)
            == Err::<FrameView, ErrorView>(ErrorView::Undefined),
        codes.status_of(status.code) == Status::Undefined <==> status.code != codes.ok
            && status.code != codes.invalid_input && status.code != codes.not_found
            && status.code != codes.internal,
{
}

/// Two calls that left the same values behind come to the same outcome: the
/// outcome depends on nothing else.
pub proof fn lemma_same_response_same_outcome(
    codes: StatusCodes,
    first_status: ResponseStatusView,
    first_output: Option<RawFrameView>,
    second_status: ResponseStatusView,
    second_output: Option<RawFrameView>,
)
    requires
        first_status == second_status,
        first_output == second_output,
    ensures
        outcome(codes, first_status, first_output) == outcome(
            codes,
            second_status,
            second_output,
        ),
{
}

} // verus!
