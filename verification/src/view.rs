//! The view model: a borrowed buffer and the state of the window onto it.

use crate::mapping::{mapped_bytes, mapped_slice};
use crate::state::{
    frame_bytes, soft_ceiling, spec_frame_bytes, spec_soft_ceiling, Field, Message, ViewState,
    MIN_DIMENSION,
};
use std::ops::RangeInclusive;
use vstd::prelude::*;
use vstd::slice::slice_subrange;

verus! {

/// What a [`MemoryView`] stands for: the bytes it looks at and the state of
/// its window.
pub struct Model {
    pub bytes: Seq<u8>,
    pub state: ViewState,
}

impl Model {
    /// The window fits the bytes.
    pub open spec fn valid(self) -> bool {
        self.state.valid(self.bytes.len() as int)
    }

    /// The bytes inside the window.
    pub open spec fn pixels(self) -> Seq<u8> {
        let (start, end) = self.state.spec_window(self.bytes.len() as int);
        self.bytes.subrange(start, end)
    }
}

/// A run of bytes to be read as a `width` by `height` RGBA8 image.
#[derive(Clone, Copy, Debug)]
pub struct Frame<'a> {
    /// Pixel columns.
    pub width: u32,
    /// Pixel rows.
    pub height: u32,
    /// The pixel data, borrowed from the buffer.
    pub pixels: &'a [u8],
}

impl<'a> Frame<'a> {
    /// The pixel data is as long as an image of this width and height.
    pub open spec fn spec_is_complete(self) -> bool {
        self.pixels@.len() == spec_frame_bytes(self.width, self.height)
    }

    /// Whether the pixel data is as long as an image of this width and
    /// height, so that every pixel of it has its four bytes.
    pub fn is_complete(&self) -> (complete: bool)
        ensures
            complete == self.spec_is_complete(),
    {
        self.pixels.len() == frame_bytes(self.width, self.height)
    }
}

/// A window onto a borrowed buffer that can be moved and resized and never
/// reaches past the buffer's end.
#[derive(Debug)]
pub struct MemoryView<'a> {
    buf: &'a [u8],
    state: ViewState,
}

impl<'a> View for MemoryView<'a> {
    type V = Model;

    closed spec fn view(&self) -> Model {
        Model { bytes: self.buf@, state: self.state }
    }
}

impl<'a> MemoryView<'a> {
    #[verifier::type_invariant]
    spec fn fits(self) -> bool {
        self.state.valid(self.buf@.len() as int)
    }

    /// A view of a memory-mapped file, in the initial state.
    pub fn new(buf: &'a memmap2::Mmap) -> (view: Self)
        ensures
            view@.bytes == mapped_bytes(*buf),
            view@.state == ViewState::initial_state(),
            view@.valid(),
    {
        Self::from_bytes(mapped_slice(buf))
    }

    /// A view of `bytes`, in the initial state.
    pub fn from_bytes(bytes: &'a [u8]) -> (view: Self)
        ensures
            view@.bytes == bytes@,
            view@.state == ViewState::initial_state(),
            view@.valid(),
    {
        MemoryView { buf: bytes, state: ViewState::initial() }
    }

    /// The length of the buffer in bytes.
    pub fn len(&self) -> (len: usize)
        ensures
            len == self@.bytes.len(),
    {
        self.buf.len()
    }

    /// The current state, which always fits the buffer.
    pub fn state(&self) -> (state: ViewState)
        ensures
            state == self@.state,
            self@.valid(),
    {
        proof {
            use_type_invariant(self);
        }
        self.state
    }

    /// Applies one edit and corrects the whole state.
    pub fn update(&mut self, message: Message)
        ensures
            final(self)@.bytes == old(self)@.bytes,
            final(self)@.state == old(self)@.state.updated(message, old(self)@.bytes.len() as int),
            final(self)@.valid(),
    {
        self.state = self.state.update(message, self.buf.len());
    }

    /// Moves the start of the pixel data to `offset`, or to the largest
    /// offset that fits where `offset` is beyond it.
    pub fn set_offset(&mut self, offset: usize)
        ensures
            final(self)@.bytes == old(self)@.bytes,
            final(self)@.state == old(self)@.state.updated(
                Message::OffsetChanged(offset),
                old(self)@.bytes.len() as int,
            ),
            final(self)@.valid(),
    {
        self.update(Message::OffsetChanged(offset));
    }

    /// Sets the width, at least one pixel, and lowers the offset where the
    /// larger frame no longer fits behind it.
    pub fn set_width(&mut self, width: u32)
        ensures
            final(self)@.bytes == old(self)@.bytes,
            final(self)@.state == old(self)@.state.updated(
                Message::WidthChanged(width),
                old(self)@.bytes.len() as int,
            ),
            final(self)@.valid(),
    {
        self.update(Message::WidthChanged(width));
    }

    /// Sets the height, at least one pixel, and lowers the offset where the
    /// larger frame no longer fits behind it.
    pub fn set_height(&mut self, height: u32)
        ensures
            final(self)@.bytes == old(self)@.bytes,
            final(self)@.state == old(self)@.state.updated(
                Message::HeightChanged(height),
                old(self)@.bytes.len() as int,
            ),
            final(self)@.valid(),
    {
        self.update(Message::HeightChanged(height));
    }

    /// The largest offset that the current width and height allow.
    pub fn offset_max(&self) -> (max: usize)
        ensures
            max == self@.state.spec_offset_max(self@.bytes.len() as int),
    {
        self.state.offset_max(self.buf.len())
    }

    /// The offsets that the current width and height allow, computed anew on
    /// every call.
    pub fn offset_range(&self) -> (range: RangeInclusive<usize>)
        ensures
            range@.start == 0,
            range@.end == self@.state.spec_offset_max(self@.bytes.len() as int),
            !range@.exhausted,
    {
        RangeInclusive::new(0, self.offset_max())
    }

    /// The widths on offer: from one pixel to a ceiling that always leaves
    /// room above the current width.
    pub fn width_range(&self) -> (range: RangeInclusive<u32>)
        ensures
            range@.start == MIN_DIMENSION,
            range@.end == spec_soft_ceiling(self@.state.width),
            !range@.exhausted,
    {
        RangeInclusive::new(MIN_DIMENSION, soft_ceiling(self.state.width))
    }

    /// The heights on offer: from one pixel to a ceiling that always leaves
    /// room above the current height.
    pub fn height_range(&self) -> (range: RangeInclusive<u32>)
        ensures
            range@.start == MIN_DIMENSION,
            range@.end == spec_soft_ceiling(self@.state.height),
            !range@.exhausted,
    {
        RangeInclusive::new(MIN_DIMENSION, soft_ceiling(self.state.height))
    }

    /// The edit behind the minus button of `field`, or `None` where the
    /// button is disabled.
    pub fn step_down(&self, field: Field) -> (message: Option<Message>)
        ensures
            message == self@.state.spec_step_down(field),
    {
        self.state.step_down(field)
    }

    /// The edit behind the plus button of `field`, or `None` where the button
    /// is disabled.
    pub fn step_up(&self, field: Field) -> (message: Option<Message>)
        ensures
            message == self@.state.spec_step_up(field, self@.bytes.len() as int),
    {
        self.state.step_up(field, self.buf.len())
    }

    /// The bytes inside the window, borrowed from the buffer, with the
    /// width and height to read them by.
    ///
    /// Where the buffer is shorter than one frame the window holds the whole
    /// buffer and the frame is short.
    pub fn pixel_slice(&self) -> (frame: Frame<'a>)
        ensures
            frame.width == self@.state.width,
            frame.height == self@.state.height,
            frame.pixels@ == self@.pixels(),
            frame.spec_is_complete() <==> self@.state.spec_frame_bytes() <= self@.bytes.len(),
    {
        proof {
            use_type_invariant(self);
        }
        let len: usize = self.buf.len();
        let bytes: usize = self.state.frame_bytes();
        let start: usize = self.state.offset;
        let end: usize = if bytes > len - start { len } else { start + bytes };
        Frame { width: self.state.width, height: self.state.height, pixels: slice_subrange(self.buf, start, end) }
    }
}

} // verus!
