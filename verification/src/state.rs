//! The part of an editor that outlives its window: the size and the scale factor that the
//! host saves with the plugin.
use crate::float_bits;
use crate::resize::LogicalSize;
use vstd::prelude::*;

verus! {

/// Width, in logical pixels, of an editor whose size was never set.
pub fn default_width() -> (width: u32)
    ensures
        width == 400,
{
    400
}

/// Height, in logical pixels, of an editor whose size was never set.
pub fn default_height() -> (height: u32)
    ensures
        height == 300,
{
    300
}

/// Bit pattern of the scale factor before a window has reported one: `1.0`.
pub fn default_scale_factor() -> (bits: u64)
    ensures
        bits == float_bits::ONE,
{
    float_bits::ONE
}

/// Window size and scale factor, as the host saves and restores them.
#[derive(Clone, Copy, Debug, PartialEq, Eq)]
pub struct SlintEditorState {
    /// Width and height of the window in logical pixels.
    pub size: (u32, u32),
    /// Bit pattern of the last scale factor that a window reported, whatever it was.
    pub scale_factor: u64,
}

/// What a saved state holds. One that was saved before scale factors were lacks it.
#[derive(Clone, Copy, Debug, PartialEq, Eq)]
pub struct PersistedState {
    pub size: (u32, u32),
    pub scale_factor: Option<u64>,
}

/// The scale factor to go by: the reported one where it is a finite positive number,
/// else `1.0`.
pub open spec fn usable_scale_factor(reported: u64) -> u64 {
    if float_bits::is_finite(reported) && float_bits::is_positive(reported) {
        reported
    } else {
        float_bits::ONE
    }
}

impl Default for SlintEditorState {
    fn default() -> (state: Self)
        ensures
            state.size == (400u32, 300u32),
            state.scale_factor == float_bits::ONE,
    {
        SlintEditorState {
            size: (default_width(), default_height()),
            scale_factor: default_scale_factor(),
        }
    }
}

impl SlintEditorState {
    /// A state of the given size, in logical pixels, for which no scale factor was observed.
    pub fn new(width: u32, height: u32) -> (state: SlintEditorState)
        ensures
            state.size == (width, height),
            state.scale_factor == float_bits::ONE,
    {
        SlintEditorState { size: (width, height), scale_factor: default_scale_factor() }
    }

    /// The `(width, height)` of the window in logical pixels.
    pub fn size(&self) -> (size: (u32, u32))
        ensures
            size == self.size,
    {
        self.size
    }

    /// Bit pattern of the last scale factor that a window reported, or of `1.0` where none
    /// was reported that a window could be scaled by.
    pub fn scale_factor(&self) -> (bits: u64)
        ensures
            bits == usable_scale_factor(self.scale_factor),
            float_bits::is_finite(bits),
            float_bits::is_positive(bits),
    {
        if float_bits::finite_and_greater_than_zero(self.scale_factor) {
            self.scale_factor
        } else {
            float_bits::ONE
        }
    }

    /// Takes over a restored state.
    pub fn set(&mut self, new_value: SlintEditorState)
        ensures
            *final(self) == new_value,
    {
        self.size = new_value.size;
        self.scale_factor = new_value.scale_factor;
    }

    /// Applies a function to the state.
    pub fn map<F, R>(&self, f: F) -> (res: R) where F: Fn(&SlintEditorState) -> R
        requires
            f.requires((self,)),
        ensures
            f.ensures((self,), res),
    {
        f(self)
    }

    /// The state that a saved one stands for.
    pub open spec fn restored(saved: PersistedState) -> SlintEditorState {
        SlintEditorState {
            size: saved.size,
            scale_factor: match saved.scale_factor {
                Some(bits) => bits,
                None => float_bits::ONE,
            },
        }
    }

    /// What is saved of this state.
    pub open spec fn saved(self) -> PersistedState {
        PersistedState { size: self.size, scale_factor: Some(self.scale_factor) }
    }

    /// The state that a saved one stands for; the scale factor defaults to `1.0`.
    pub fn from_persisted(saved: PersistedState) -> (state: SlintEditorState)
        ensures
            state == SlintEditorState::restored(saved),
    {
        let scale_factor: u64 = match saved.scale_factor {
            Some(bits) => bits,
            None => default_scale_factor(),
        };
        SlintEditorState { size: saved.size, scale_factor }
    }

    /// What is saved of this state.
    pub fn to_persisted(&self) -> (saved: PersistedState)
        ensures
            saved == self.saved(),
    {
        PersistedState { size: self.size, scale_factor: Some(self.scale_factor) }
    }
}

/// A logical size, together with the scale factor by which it turns into native pixels.
#[derive(Clone, Copy, Debug, PartialEq, Eq, Structural)]
pub struct ScaledSize {
    pub logical: LogicalSize,
    /// Bit pattern of a finite positive double.
    pub scale_factor: u64,
}

/// The size of the window in native pixels, for the platform to work out: the saved size,
/// at the scale factor to go by.
pub fn native_size(state: &SlintEditorState) -> (size: ScaledSize)
    ensures
        size.logical.is_exactly(state.size.0, state.size.1),
        size.scale_factor == usable_scale_factor(state.scale_factor),
        float_bits::is_finite(size.scale_factor),
        float_bits::is_positive(size.scale_factor),
{
    let (width, height) = state.size();
    ScaledSize {
        logical: LogicalSize::from_pixels(width, height),
        scale_factor: state.scale_factor(),
    }
}

} // verus!
