//! The state of one open window, and how it reacts to what the windowing system reports.
use crate::adapter::{BaseviewSlintAdapter, PhysicalSize};
use crate::event::{LogicalPosition, PhysicalPosition, WindowEvent};
use crate::float_bits;
use crate::resize::{LogicalSize, ResizeError, ResizeRequester};
use crate::state::SlintEditorState;
use vstd::prelude::*;

verus! {

/// The size of a window, as the windowing system reports it.
#[derive(Clone, Copy, Debug, PartialEq, Eq, Structural)]
pub struct WindowSize {
    pub physical: PhysicalSize,
    pub logical: LogicalSize,
    /// Bit pattern of the scale factor, a double.
    pub scale_factor: u64,
}

impl WindowSize {
    /// The size and scale factor that the host saves for a window of this size.
    pub open spec fn persisted(self) -> SlintEditorState {
        SlintEditorState {
            size: (
                float_bits::saturated_u32(self.logical.width),
                float_bits::saturated_u32(self.logical.height),
            ),
            scale_factor: self.scale_factor,
        }
    }

    /// Whether neither side has vanished.
    pub open spec fn has_area(self) -> bool {
        float_bits::is_positive(self.logical.width) && float_bits::is_positive(self.logical.height)
    }

    /// What the UI toolkit is told of a window of this size: the logical size, unless a
    /// side has vanished, and then the scale factor.
    pub open spec fn announcement(self) -> Seq<WindowEvent> {
        let scale = WindowEvent::ScaleFactorChanged { scale_factor: self.scale_factor };
        if self.has_area() {
            seq![
                WindowEvent::Resized { width: self.logical.width, height: self.logical.height },
                scale,
            ]
        } else {
            seq![scale]
        }
    }
}

/// The state of one open window.
#[derive(Clone, Copy, Debug, PartialEq, Eq, Structural)]
pub struct WindowHandler {
    /// Bit pattern of the scale factor, a double.
    pub scale_factor: u64,
    /// Where the cursor was last seen.
    pub last_cursor_pos: LogicalPosition,
    /// Whether the component was shown, which the first frame does.
    pub window_shown: bool,
    /// What the UI toolkit knows of the window.
    pub adapter: BaseviewSlintAdapter,
    /// Whether key events are kept from the host.
    pub prevent_key_event_propagation: bool,
    /// Whether the editor may be resized.
    pub resizable: bool,
}

/// The upper left corner of the window.
pub open spec fn origin() -> LogicalPosition {
    LogicalPosition { physical: PhysicalPosition { x: 0, y: 0 }, scale_factor: float_bits::ONE }
}

impl WindowHandler {
    /// The window and the adapter of the UI toolkit agree on the scale factor.
    pub open spec fn well_formed(self) -> bool {
        self.adapter.scale_factor == self.scale_factor
    }

    /// A window that has just been opened with this size.
    pub open spec fn opened(size: WindowSize, resizable: bool) -> WindowHandler {
        WindowHandler {
            scale_factor: size.scale_factor,
            last_cursor_pos: origin(),
            window_shown: false,
            adapter: BaseviewSlintAdapter {
                physical_size: size.physical,
                scale_factor: size.scale_factor,
            },
            prevent_key_event_propagation: false,
            resizable,
        }
    }

    /// The window after it has taken over a size.
    pub open spec fn resized_to(self, size: WindowSize) -> WindowHandler {
        WindowHandler {
            scale_factor: size.scale_factor,
            adapter: BaseviewSlintAdapter {
                physical_size: size.physical,
                scale_factor: size.scale_factor,
            },
            ..self
        }
    }

    /// What is saved once a window of this size has been opened.
    pub open spec fn saved_on_open(state: SlintEditorState, size: WindowSize) -> SlintEditorState {
        SlintEditorState { scale_factor: size.scale_factor, ..state }
    }

    /// Opens a window: the scale factor is recorded for the host to save, while the saved
    /// logical size stays as it is until the window reports a size of its own.
    pub fn open(state: &mut SlintEditorState, size: WindowSize, resizable: bool) -> (handler: Self)
        ensures
            handler == WindowHandler::opened(size, resizable),
            handler.well_formed(),
            *final(state) == WindowHandler::saved_on_open(*old(state), size),
    {
        state.scale_factor = size.scale_factor;
        WindowHandler {
            scale_factor: size.scale_factor,
            last_cursor_pos: LogicalPosition {
                physical: PhysicalPosition { x: 0, y: 0 },
                scale_factor: float_bits::ONE,
            },
            window_shown: false,
            adapter: BaseviewSlintAdapter::new(
                size.physical.width,
                size.physical.height,
                size.scale_factor,
            ),
            prevent_key_event_propagation: false,
            resizable,
        }
    }

    /// Takes over a size or scale factor that the windowing system reports. The result is
    /// what the UI toolkit is to be told, in this order.
    pub fn handle_window_size(&mut self, state: &mut SlintEditorState, size: WindowSize) -> (events:
        Vec<WindowEvent>)
        ensures
            *final(self) == old(self).resized_to(size),
            final(self).well_formed(),
            *final(state) == size.persisted(),
            events@ == size.announcement(),
    {
        self.scale_factor = size.scale_factor;
        state.scale_factor = size.scale_factor;
        self.adapter.update_size(size.physical.width, size.physical.height, size.scale_factor);
        state.size = (
            float_bits::to_u32(size.logical.width),
            float_bits::to_u32(size.logical.height),
        );
        let mut events: Vec<WindowEvent> = Vec::new();
        if float_bits::greater_than_zero(size.logical.width) && float_bits::greater_than_zero(
            size.logical.height,
        ) {
            events.push(
                WindowEvent::Resized { width: size.logical.width, height: size.logical.height },
            );
        }
        events.push(WindowEvent::ScaleFactorChanged { scale_factor: size.scale_factor });
        assert(events@ =~= size.announcement());
        events
    }

    /// A position on this window in logical pixels.
    pub fn to_logical_position(&self, position: PhysicalPosition) -> (logical: LogicalPosition)
        ensures
            logical == (LogicalPosition { physical: position, scale_factor: self.scale_factor }),
    {
        LogicalPosition { physical: position, scale_factor: self.scale_factor }
    }

    /// Keeps key events from the host, or lets them through again.
    pub fn set_prevent_key_event_propagation(&mut self, is_enabled: bool)
        ensures
            *final(self) == (WindowHandler { prevent_key_event_propagation: is_enabled, ..*old(self) }),
    {
        self.prevent_key_event_propagation = is_enabled;
    }

    /// A requester for use in UI callbacks.
    pub fn resize_requester(&self) -> (requester: ResizeRequester)
        ensures
            requester == (ResizeRequester { resizable: self.resizable }),
    {
        ResizeRequester { resizable: self.resizable }
    }

    /// Checks a request for a size in logical pixels; see [`ResizeRequester::request_resize`].
    pub fn request_resize(&self, width: u32, height: u32) -> (res: Result<LogicalSize, ResizeError>)
        ensures
            ({
                let requester = ResizeRequester { resizable: self.resizable };
                match res {
                    Ok(size) => requester.refusal(width, height) is None && size.is_exactly(
                        width,
                        height,
                    ),
                    Err(error) => requester.refusal(width, height) == Some(error),
                }
            }),
    {
        self.resize_requester().request_resize(width, height)
    }
}

} // verus!
