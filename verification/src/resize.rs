//! Who may resize the editor window, and when a request to do so is let through.
use crate::float_bits;
use nice_plug_core::editor::SizeConstraints as OutsideConstraints;
use vstd::prelude::*;

verus! {

/// A size in logical pixels; each side is the bit pattern of a double.
#[derive(Clone, Copy, Debug, PartialEq, Eq, Structural)]
pub struct LogicalSize {
    pub width: u64,
    pub height: u64,
}

impl LogicalSize {
    /// Whether this is exactly `width` by `height` whole pixels.
    pub open spec fn is_exactly(self, width: u32, height: u32) -> bool {
        float_bits::denotes(self.width, width as nat) && float_bits::denotes(
            self.height,
            height as nat,
        )
    }

    /// The size of `width` by `height` whole pixels.
    pub fn from_pixels(width: u32, height: u32) -> (size: LogicalSize)
        ensures
            size.is_exactly(width, height),
    {
        LogicalSize { width: float_bits::from_u32(width), height: float_bits::from_u32(height) }
    }
}

/// A size in the pixels that the platform's windowing system counts in.
#[derive(Clone, Copy, Debug, PartialEq, Eq, Structural)]
pub struct NativeSize {
    pub width: u32,
    pub height: u32,
}

/// The smallest and the largest size that an editor may be given; each is a width and a
/// height, or absent where there is no limit.
#[derive(Clone, Copy, Debug, PartialEq, Eq)]
pub enum SizeConstraints {
    /// In logical pixels, as bit patterns of single-precision numbers.
    Logical { min_size: Option<(u32, u32)>, max_size: Option<(u32, u32)> },
    /// In physical pixels.
    Physical { min_size: Option<(u32, u32)>, max_size: Option<(u32, u32)> },
}

/// Whether and how a host may resize an editor.
#[derive(Clone, Copy, Debug, PartialEq, Eq)]
pub struct ResizeHint {
    pub can_resize: bool,
    pub can_resize_horizontally: bool,
    pub can_resize_vertically: bool,
    pub preserve_aspect_ratio: bool,
    pub aspect_ratio_width: u32,
    pub aspect_ratio_height: u32,
    pub size_constraints: SizeConstraints,
}

/// The hint of an editor that can be resized freely, or not at all: no aspect ratio is
/// locked and no size is out of bounds.
pub open spec fn hint_for(resizable: bool) -> ResizeHint {
    ResizeHint {
        can_resize: resizable,
        can_resize_horizontally: resizable,
        can_resize_vertically: resizable,
        preserve_aspect_ratio: false,
        aspect_ratio_width: 1,
        aspect_ratio_height: 1,
        size_constraints: SizeConstraints::Logical { min_size: None, max_size: None },
    }
}

/// Reads the constant `nice_plug_core::editor::ResizeHint::RESIZABLE`.
///
/// Claims that it allows both axes to change, locks no aspect ratio and limits no size.
#[verifier::external_body]
fn resizable_hint() -> (hint: ResizeHint)
    ensures
        hint == hint_for(true),
{
    let hint = nice_plug_core::editor::ResizeHint::RESIZABLE;
    ResizeHint {
        can_resize: hint.can_resize,
        can_resize_horizontally: hint.can_resize_horizontally,
        can_resize_vertically: hint.can_resize_vertically,
        preserve_aspect_ratio: hint.preserve_aspect_ratio,
        aspect_ratio_width: hint.aspect_ratio_width, aspect_ratio_height: hint.aspect_ratio_height,
        size_constraints: match hint.size_constraints {
            OutsideConstraints::Logical { min_size, max_size } => SizeConstraints::Logical {
                min_size: min_size.map(|s| (s.width.to_bits(), s.height.to_bits())),
                max_size: max_size.map(|s| (s.width.to_bits(), s.height.to_bits())) },
            OutsideConstraints::Physical { min_size, max_size } => SizeConstraints::Physical {
                min_size: min_size.map(|s| (s.width, s.height)),
                max_size: max_size.map(|s| (s.width, s.height)) } },
    }
}

/// Reads the constant `nice_plug_core::editor::ResizeHint::NON_RESIZABLE`.
///
/// Claims that it allows no axis to change, locks no aspect ratio and limits no size.
#[verifier::external_body]
fn non_resizable_hint() -> (hint: ResizeHint)
    ensures
        hint == hint_for(false),
{
    let hint = nice_plug_core::editor::ResizeHint::NON_RESIZABLE;
    ResizeHint {
        can_resize: hint.can_resize,
        can_resize_horizontally: hint.can_resize_horizontally,
        can_resize_vertically: hint.can_resize_vertically,
        preserve_aspect_ratio: hint.preserve_aspect_ratio,
        aspect_ratio_width: hint.aspect_ratio_width, aspect_ratio_height: hint.aspect_ratio_height,
        size_constraints: match hint.size_constraints {
            OutsideConstraints::Logical { min_size, max_size } => SizeConstraints::Logical {
                min_size: min_size.map(|s| (s.width.to_bits(), s.height.to_bits())),
                max_size: max_size.map(|s| (s.width.to_bits(), s.height.to_bits())) },
            OutsideConstraints::Physical { min_size, max_size } => SizeConstraints::Physical {
                min_size: min_size.map(|s| (s.width, s.height)),
                max_size: max_size.map(|s| (s.width, s.height)) } },
    }
}

/// What to answer when the host asks how the editor may be resized.
pub fn resize_hint(resizable: bool) -> (hint: ResizeHint)
    ensures
        hint == hint_for(resizable),
{
    if resizable {
        resizable_hint()
    } else {
        non_resizable_hint()
    }
}

/// Why a request to resize the window was refused before it reached the host.
#[derive(Clone, Copy, Debug, PartialEq, Eq, Structural)]
pub enum ResizeError {
    /// A side of the requested size is zero.
    ZeroDimension,
    /// The editor is of a fixed size.
    Disabled,
}

impl ResizeError {
    pub open spec fn message_text(self) -> Seq<char> {
        match self {
            ResizeError::ZeroDimension => "resize dimensions must be nonzero"@,
            ResizeError::Disabled => "programmatic resizing is disabled for this editor"@,
        }
    }

    /// The error in words.
    pub fn message(&self) -> (text: &'static str)
        ensures
            text@ == self.message_text(),
    {
        match self {
            ResizeError::ZeroDimension => "resize dimensions must be nonzero",
            ResizeError::Disabled => "programmatic resizing is disabled for this editor",
        }
    }

    /// Whether the caller passed an argument that no editor would accept.
    pub fn is_invalid_input(&self) -> (res: bool)
        ensures
            res == (*self == ResizeError::ZeroDimension),
    {
        match self {
            ResizeError::ZeroDimension => true,
            ResizeError::Disabled => false,
        }
    }
}

/// A handle that UI callbacks keep in order to request a resize that the host negotiates.
#[derive(Clone, Copy, Debug, PartialEq, Eq, Structural)]
pub struct ResizeRequester {
    pub resizable: bool,
}

impl ResizeRequester {
    /// Why a request is refused, if it is. A size with a zero side is refused as such
    /// whether or not the editor is resizable.
    pub open spec fn refusal(self, width: u32, height: u32) -> Option<ResizeError> {
        if width == 0 || height == 0 {
            Some(ResizeError::ZeroDimension)
        } else if !self.resizable {
            Some(ResizeError::Disabled)
        } else {
            None
        }
    }

    /// Checks a request for a size in logical pixels.
    ///
    /// `Ok` holds the size to ask the windowing system for. The host may still deny it;
    /// the window then reports the size that it fell back to.
    pub fn request_resize(&self, width: u32, height: u32) -> (res: Result<LogicalSize, ResizeError>)
        ensures
            match res {
                Ok(size) => self.refusal(width, height) is None && size.is_exactly(width, height),
                Err(error) => self.refusal(width, height) == Some(error),
            },
    {
        if width == 0 || height == 0 {
            return Err(ResizeError::ZeroDimension);
        }
        if !self.resizable {
            return Err(ResizeError::Disabled);
        }
        Ok(LogicalSize::from_pixels(width, height))
    }
}

/// What the host holds of an open editor.
#[derive(Clone, Copy, Debug, PartialEq, Eq, Structural)]
pub struct SlintEditorHandle {
    pub resizable: bool,
}

impl SlintEditorHandle {
    /// The supported size closest to `new_size`: every size is supported by an editor that
    /// can be resized, none by one that cannot.
    pub open spec fn adjusted(self, new_size: NativeSize) -> Option<NativeSize> {
        if self.resizable {
            Some(new_size)
        } else {
            None
        }
    }

    /// The supported size closest to `new_size`, if there is one.
    pub fn adjust_size(&self, new_size: NativeSize) -> (size: Option<NativeSize>)
        ensures
            size == self.adjusted(new_size),
    {
        if self.resizable {
            Some(new_size)
        } else {
            None
        }
    }
}

} // verus!
