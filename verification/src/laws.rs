//! What holds of every state, every edit and every buffer length.
//!
//! A buffer length is written `len` and is a mathematical integer that is
//! not negative; the length of a real buffer is one of these.

use crate::state::{
    spec_frame_bytes, spec_soft_ceiling, Field, Message, ViewState, SOFT_CEILING,
};
use crate::view::Model;
use vstd::prelude::*;

verus! {

/// Correcting a state always yields one that fits the buffer, whatever the
/// state was.
pub proof fn lemma_clamped_is_valid(state: ViewState, len: int)
    requires
        0 <= len,
    ensures
        state.clamped(len).valid(len),
{
}

/// A state that fits the buffer is left as it is by the correction, so
/// correcting twice is the same as correcting once.
pub proof fn lemma_clamp_is_idempotent(state: ViewState, len: int)
    requires
        0 <= len,
    ensures
        state.valid(len) ==> state.clamped(len) == state,
        state.clamped(len).clamped(len) == state.clamped(len),
{
}

/// After every edit both dimensions are at least one pixel, and wherever one
/// frame fits into the buffer at all, the frame that starts at the offset
/// ends inside the buffer.
pub proof fn lemma_edit_keeps_frame_inside(state: ViewState, message: Message, len: int)
    requires
        0 <= len,
    ensures
        ({
            let next = state.updated(message, len);
            &&& next.valid(len)
            &&& next.width >= 1
            &&& next.height >= 1
            &&& next.spec_frame_bytes() <= len ==> next.offset + next.spec_frame_bytes() <= len
        }),
{
}

/// After any run of one or more edits, from any starting state, the state
/// fits the buffer: both dimensions are at least one pixel, and the frame
/// that starts at the offset ends inside the buffer wherever one frame fits
/// into the buffer at all.
pub proof fn lemma_edits_keep_state_valid(state: ViewState, edits: Seq<Message>, len: int)
    requires
        0 <= len,
        edits.len() > 0,
    ensures
        ({
            let last = state.after_edits(edits, len);
            &&& last.valid(len)
            &&& last.width >= 1
            &&& last.height >= 1
            &&& last.spec_frame_bytes() <= len ==> last.offset + last.spec_frame_bytes() <= len
        }),
{
    lemma_edit_keeps_frame_inside(
        state.after_edits(edits.drop_last(), len),
        edits.last(),
        len,
    );
}

/// The pixel window of a state that fits the buffer lies inside the buffer
/// and holds one whole frame, or the whole buffer where that is shorter than
/// a frame.
pub proof fn lemma_window_inside_buffer(state: ViewState, len: int)
    requires
        0 <= len,
        state.valid(len),
    ensures
        ({
            let (start, end) = state.spec_window(len);
            &&& 0 <= start <= end <= len
            &&& end - start == if state.spec_frame_bytes() <= len {
                state.spec_frame_bytes()
            } else {
                len
            }
        }),
{
}

/// An offset taken from the offered range is kept as it is, and the pixel
/// window that starts there lies inside the buffer.
pub proof fn lemma_offset_in_range_is_kept(state: ViewState, offset: usize, len: int)
    requires
        0 <= len,
        state.valid(len),
        offset <= state.spec_offset_max(len),
    ensures
        ({
            let next = state.updated(Message::OffsetChanged(offset), len);
            let (start, end) = next.spec_window(len);
            &&& next == (ViewState { offset, ..state })
            &&& 0 <= start <= end <= len
        }),
{
}

/// Whenever an edit leaves a frame larger than the whole buffer, the offset
/// is 0 afterwards, whatever it was before.
pub proof fn lemma_oversized_frame_resets_offset(state: ViewState, message: Message, len: int)
    requires
        0 <= len,
        state.updated(message, len).spec_frame_bytes() > len,
    ensures
        state.updated(message, len).offset == 0,
{
}

/// The ceiling offered for a width or height is never below the soft
/// ceiling and, for every value but the largest `u32`, lies above the value.
pub proof fn lemma_ceiling_leaves_headroom(value: u32)
    ensures
        spec_soft_ceiling(value) >= SOFT_CEILING,
        spec_soft_ceiling(value) >= value,
        value < u32::MAX ==> spec_soft_ceiling(value) >= value + 1,
        value < u32::MAX ==> spec_soft_ceiling(value) == vstd::math::max(
            SOFT_CEILING as int,
            value + 1,
        ),
{
}

/// An image that is no wider and no higher than another needs no more bytes.
pub proof fn lemma_frame_bytes_is_monotonic(width: u32, height: u32, wider: u32, higher: u32)
    requires
        width <= wider,
        height <= higher,
    ensures
        spec_frame_bytes(width, height) <= spec_frame_bytes(wider, higher),
{
    assert(width * height * 4 <= wider * higher * 4) by (nonlinear_arith)
        requires
            0 <= width <= wider,
            0 <= height <= higher,
    ;
}

/// A step down that is on offer lowers its field by exactly one and leaves
/// the other two fields as they are.
pub proof fn lemma_step_down_lowers_by_one(state: ViewState, field: Field, len: int)
    requires
        0 <= len,
        state.valid(len),
        state.spec_step_down(field) is Some,
    ensures
        state.updated(state.spec_step_down(field).unwrap(), len) == match field {
            Field::Offset => ViewState { offset: (state.offset - 1) as usize, ..state },
            Field::Width => ViewState { width: (state.width - 1) as u32, ..state },
            Field::Height => ViewState { height: (state.height - 1) as u32, ..state },
        },
{
    match field {
        Field::Offset => {},
        Field::Width => {
            lemma_frame_bytes_is_monotonic(
                (state.width - 1) as u32,
                state.height,
                state.width,
                state.height,
            );
        },
        Field::Height => {
            lemma_frame_bytes_is_monotonic(
                state.width,
                (state.height - 1) as u32,
                state.width,
                state.height,
            );
        },
    }
}

/// A step up that is on offer, on a buffer whose length a `usize` can hold,
/// raises its field by exactly one. A step of the offset leaves width and
/// height as they are; a step of the width or the height leaves the other of
/// the two as it is and does not raise the offset.
pub proof fn lemma_step_up_raises_by_one(state: ViewState, field: Field, len: int)
    requires
        0 <= len <= usize::MAX,
        state.valid(len),
        state.spec_step_up(field, len) is Some,
    ensures
        ({
            let next = state.updated(state.spec_step_up(field, len).unwrap(), len);
            &&& next.spec_value(field) == state.spec_value(field) + 1
            &&& field != Field::Offset ==> next.offset <= state.offset
            &&& field != Field::Width ==> next.width == state.width
            &&& field != Field::Height ==> next.height == state.height
        }),
{
}

/// Setting a field of a state that fits the buffer to the value it already
/// has changes none of the three fields.
pub proof fn lemma_setting_current_value_is_noop(state: ViewState, len: int)
    requires
        0 <= len,
        state.valid(len),
    ensures
        state.updated(Message::OffsetChanged(state.offset), len) == state,
        state.updated(Message::WidthChanged(state.width), len) == state,
        state.updated(Message::HeightChanged(state.height), len) == state,
{
}

/// Setting a field of a view to the value it already has leaves the bytes
/// of its pixel window as they are.
pub proof fn lemma_setting_current_value_keeps_pixels(model: Model, message: Message)
    requires
        model.valid(),
        message == Message::OffsetChanged(model.state.offset) || message == Message::WidthChanged(
            model.state.width,
        ) || message == Message::HeightChanged(model.state.height),
    ensures
        (Model {
            bytes: model.bytes,
            state: model.state.updated(message, model.bytes.len() as int),
        }).pixels() == model.pixels(),
{
    lemma_setting_current_value_is_noop(model.state, model.bytes.len() as int);
}

} // verus!
