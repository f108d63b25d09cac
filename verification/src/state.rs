//! The triple of offset, width and height, and the rule that keeps it inside
//! a buffer of a given length.

use vstd::prelude::*;

verus! {

/// Bytes taken by one RGBA8 pixel.
pub const BYTES_PER_PIXEL: usize = 4;

/// Width in pixels of a freshly created view.
pub const DEFAULT_WIDTH: u32 = 1920;

/// Height in pixels of a freshly created view.
pub const DEFAULT_HEIGHT: u32 = 1080;

/// Smallest width or height a view can have.
pub const MIN_DIMENSION: u32 = 1;

/// The ceiling offered for width and height while the current value is well
/// below it.
pub const SOFT_CEILING: u32 = 10000;

/// `n`, or `usize::MAX` where `n` is larger than that.
pub open spec fn saturated(n: int) -> int {
    if n > usize::MAX {
        usize::MAX as int
    } else {
        n
    }
}

/// The product of `a` and `b`, saturating at `usize::MAX`.
pub fn saturating_product(a: usize, b: usize) -> (p: usize)
    ensures
        p == saturated(a * b),
{
    match a.checked_mul(b) {
        Some(p) => p,
        None => usize::MAX,
    }
}

/// Bytes needed for a `width` by `height` RGBA8 image, saturating at
/// `usize::MAX`.
pub open spec fn spec_frame_bytes(width: u32, height: u32) -> int {
    saturated(width * height * BYTES_PER_PIXEL)
}

/// Bytes needed for a `width` by `height` RGBA8 image, saturating at
/// `usize::MAX`.
pub fn frame_bytes(width: u32, height: u32) -> (bytes: usize)
    ensures
        bytes == spec_frame_bytes(width, height),
{
    let pixels: usize = saturating_product(width as usize, height as usize);
    let bytes: usize = saturating_product(pixels, BYTES_PER_PIXEL);
    proof {
        let w = width as int;
        let h = height as int;
        assert(0 <= w * h) by (nonlinear_arith)
            requires
                0 <= w,
                0 <= h,
        ;
        assert(w * h * 4 == (w * h) * 4);
    }
    bytes
}

/// One edit of a view: the field to replace and its new value.
#[derive(Clone, Copy, Debug, PartialEq, Eq, Structural)]
pub enum Message {
    /// Start the pixel data at this byte.
    OffsetChanged(usize),
    /// Show this many pixel columns.
    WidthChanged(u32),
    /// Show this many pixel rows.
    HeightChanged(u32),
}

/// One of the three numbers of a view.
#[derive(Clone, Copy, Debug, PartialEq, Eq, Structural)]
pub enum Field {
    Offset,
    Width,
    Height,
}

/// The ceiling offered for a width or height that is currently `value`: one
/// above `value` once that passes [`SOFT_CEILING`], as far as `u32` reaches.
pub open spec fn spec_soft_ceiling(value: u32) -> int {
    if value + 1 > u32::MAX {
        u32::MAX as int
    } else if value + 1 > SOFT_CEILING {
        value + 1
    } else {
        SOFT_CEILING as int
    }
}

/// Computes [`spec_soft_ceiling`].
pub fn soft_ceiling(value: u32) -> (ceiling: u32)
    ensures
        ceiling == spec_soft_ceiling(value),
{
    let next: u32 = value.saturating_add(1);
    if next > SOFT_CEILING {
        next
    } else {
        SOFT_CEILING
    }
}

/// Where the pixel data starts and how large the image is.
///
/// Any combination of values can be written down; [`ViewState::valid`] says
/// which ones fit a buffer, and [`ViewState::clamp_values`] corrects the rest.
#[derive(Clone, Copy, Debug, PartialEq, Eq, Structural)]
pub struct ViewState {
    /// Index of the first byte of pixel data.
    pub offset: usize,
    /// Pixel columns.
    pub width: u32,
    /// Pixel rows.
    pub height: u32,
}

impl ViewState {
    /// Bytes needed for one frame of this width and height.
    pub open spec fn spec_frame_bytes(self) -> int {
        spec_frame_bytes(self.width, self.height)
    }

    /// The largest offset at which a whole frame still fits into `len` bytes,
    /// or 0 where not even one frame fits.
    pub open spec fn spec_offset_max(self, len: int) -> int {
        if self.spec_frame_bytes() <= len {
            len - self.spec_frame_bytes()
        } else {
            0
        }
    }

    /// The state fits a buffer of `len` bytes: both dimensions are at least
    /// one pixel and the offset is no larger than [`Self::spec_offset_max`].
    pub open spec fn valid(self, len: int) -> bool {
        &&& self.width >= MIN_DIMENSION
        &&& self.height >= MIN_DIMENSION
        &&& self.offset <= self.spec_offset_max(len)
    }

    /// The state with width and height raised to one pixel where they were 0.
    pub open spec fn floored(self) -> ViewState {
        ViewState {
            offset: self.offset,
            width: if self.width < MIN_DIMENSION { MIN_DIMENSION } else { self.width },
            height: if self.height < MIN_DIMENSION { MIN_DIMENSION } else { self.height },
        }
    }

    /// The nearest valid state: dimensions are floored first, then the offset
    /// is lowered to the largest one that the floored dimensions allow.
    pub open spec fn clamped(self, len: int) -> ViewState {
        let floored = self.floored();
        ViewState {
            offset: if floored.offset > floored.spec_offset_max(len) {
                floored.spec_offset_max(len) as usize
            } else {
                floored.offset
            },
            width: floored.width,
            height: floored.height,
        }
    }

    /// The state with the one field that `message` names replaced, before
    /// any correction.
    pub open spec fn edited(self, message: Message) -> ViewState {
        match message {
            Message::OffsetChanged(offset) => ViewState { offset, ..self },
            Message::WidthChanged(width) => ViewState { width, ..self },
            Message::HeightChanged(height) => ViewState { height, ..self },
        }
    }

    /// The state after `message` on a buffer of `len` bytes: the edit, then
    /// the correction of the whole triple.
    pub open spec fn updated(self, message: Message, len: int) -> ViewState {
        self.edited(message).clamped(len)
    }

    /// The smallest value the control of `field` offers.
    pub open spec fn spec_range_min(self, field: Field) -> int {
        match field {
            Field::Offset => 0,
            Field::Width => MIN_DIMENSION as int,
            Field::Height => MIN_DIMENSION as int,
        }
    }

    /// The largest value the control of `field` offers on a buffer of `len`
    /// bytes.
    pub open spec fn spec_range_max(self, field: Field, len: int) -> int {
        match field {
            Field::Offset => self.spec_offset_max(len),
            Field::Width => spec_soft_ceiling(self.width),
            Field::Height => spec_soft_ceiling(self.height),
        }
    }

    /// The current value of `field`.
    pub open spec fn spec_value(self, field: Field) -> int {
        match field {
            Field::Offset => self.offset as int,
            Field::Width => self.width as int,
            Field::Height => self.height as int,
        }
    }

    /// The edit that sets `field` to `value`, where `value` fits the field's
    /// type.
    pub open spec fn spec_message(field: Field, value: int) -> Message {
        match field {
            Field::Offset => Message::OffsetChanged(value as usize),
            Field::Width => Message::WidthChanged(value as u32),
            Field::Height => Message::HeightChanged(value as u32),
        }
    }

    /// The edit behind the minus button of `field`: one less than the current
    /// value, offered only while the value is above the control's minimum.
    pub open spec fn spec_step_down(self, field: Field) -> Option<Message> {
        if self.spec_value(field) > self.spec_range_min(field) {
            Some(Self::spec_message(field, self.spec_value(field) - 1))
        } else {
            None
        }
    }

    /// The edit behind the plus button of `field`: one more than the current
    /// value, offered only while the value is below the control's maximum.
    pub open spec fn spec_step_up(self, field: Field, len: int) -> Option<Message> {
        if self.spec_value(field) < self.spec_range_max(field, len) {
            Some(Self::spec_message(field, self.spec_value(field) + 1))
        } else {
            None
        }
    }

    /// The state after each of `edits` in turn on a buffer of `len` bytes.
    pub open spec fn after_edits(self, edits: Seq<Message>, len: int) -> ViewState
        decreases edits.len(),
    {
        if edits.len() == 0 {
            self
        } else {
            self.after_edits(edits.drop_last(), len).updated(edits.last(), len)
        }
    }

    /// The first byte of the pixel window and the byte after its last one: a
    /// frame from the offset on, cut off at the end of the buffer.
    pub open spec fn spec_window(self, len: int) -> (int, int) {
        (
            self.offset as int,
            if self.offset + self.spec_frame_bytes() > len {
                len
            } else {
                self.offset + self.spec_frame_bytes()
            },
        )
    }

    /// The state a new view starts in: offset 0 and the default dimensions.
    pub open spec fn initial_state() -> ViewState {
        ViewState { offset: 0, width: DEFAULT_WIDTH, height: DEFAULT_HEIGHT }
    }

    /// The state a new view starts in, which fits a buffer of any length.
    pub fn initial() -> (state: ViewState)
        ensures
            state == Self::initial_state(),
            forall|len: int| 0 <= len ==> #[trigger] state.valid(len),
    {
        ViewState { offset: 0, width: DEFAULT_WIDTH, height: DEFAULT_HEIGHT }
    }

    /// Bytes needed for one frame of this width and height.
    pub fn frame_bytes(&self) -> (bytes: usize)
        ensures
            bytes == self.spec_frame_bytes(),
    {
        frame_bytes(self.width, self.height)
    }

    /// The largest offset that keeps a whole frame inside `len` bytes.
    pub fn offset_max(&self, len: usize) -> (max: usize)
        ensures
            max == self.spec_offset_max(len as int),
    {
        len.saturating_sub(self.frame_bytes())
    }

    /// Replaces the field that `message` names and corrects the result for a
    /// buffer of `len` bytes.
    pub fn update(self, message: Message, len: usize) -> (state: ViewState)
        ensures
            state == self.updated(message, len as int),
            state.valid(len as int),
    {
        let edited = match message {
            Message::OffsetChanged(offset) => ViewState { offset, width: self.width, height: self.height },
            Message::WidthChanged(width) => ViewState { offset: self.offset, width, height: self.height },
            Message::HeightChanged(height) => ViewState { offset: self.offset, width: self.width, height },
        };
        edited.clamp_values(len)
    }

    /// The edit behind the minus button of `field`, or `None` where the
    /// button is disabled.
    pub fn step_down(&self, field: Field) -> (message: Option<Message>)
        ensures
            message == self.spec_step_down(field),
    {
        match field {
            Field::Offset => if self.offset > 0 {
                Some(Message::OffsetChanged(self.offset - 1))
            } else {
                None
            },
            Field::Width => if self.width > MIN_DIMENSION {
                Some(Message::WidthChanged(self.width - 1))
            } else {
                None
            },
            Field::Height => if self.height > MIN_DIMENSION {
                Some(Message::HeightChanged(self.height - 1))
            } else {
                None
            },
        }
    }

    /// The edit behind the plus button of `field` on a buffer of `len` bytes,
    /// or `None` where the button is disabled.
    pub fn step_up(&self, field: Field, len: usize) -> (message: Option<Message>)
        ensures
            message == self.spec_step_up(field, len as int),
    {
        match field {
            Field::Offset => if self.offset < self.offset_max(len) {
                Some(Message::OffsetChanged(self.offset + 1))
            } else {
                None
            },
            Field::Width => if self.width < soft_ceiling(self.width) {
                Some(Message::WidthChanged(self.width + 1))
            } else {
                None
            },
            Field::Height => if self.height < soft_ceiling(self.height) {
                Some(Message::HeightChanged(self.height + 1))
            } else {
                None
            },
        }
    }

    /// Corrects the state for a buffer of `len` bytes.
    pub fn clamp_values(self, len: usize) -> (state: ViewState)
        ensures
            state == self.clamped(len as int),
            state.valid(len as int),
    {
        let floored = ViewState {
            offset: self.offset,
            width: if self.width < MIN_DIMENSION { MIN_DIMENSION } else { self.width },
            height: if self.height < MIN_DIMENSION { MIN_DIMENSION } else { self.height },
        };
        let max: usize = floored.offset_max(len);
        ViewState {
            offset: if floored.offset > max { max } else { floored.offset },
            width: floored.width,
            height: floored.height,
        }
    }
}

} // verus!
