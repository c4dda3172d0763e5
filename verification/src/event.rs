//! What the windowing system reports, and what the UI toolkit is told in response.
use crate::keys::KeyboardEvent;
use vstd::prelude::*;

verus! {

/// A position in physical pixels; each coordinate is the bit pattern of a double.
#[derive(Clone, Copy, Debug, PartialEq, Eq, Structural)]
pub struct PhysicalPosition {
    pub x: u64,
    pub y: u64,
}

/// A position in logical pixels: `physical` divided by the scale factor that the window had
/// when the position was reported. `scale_factor` is the bit pattern of that factor, a
/// double; the divisor is the single-precision number closest to it.
#[derive(Clone, Copy, Debug, PartialEq, Eq, Structural)]
pub struct LogicalPosition {
    pub physical: PhysicalPosition,
    pub scale_factor: u64,
}

#[derive(Clone, Copy, Debug, PartialEq, Eq, Structural)]
pub enum MouseButton {
    Left,
    Middle,
    Right,
    /// Any button that the UI toolkit is not told about.
    Other,
}

/// A scroll movement; each amount is the bit pattern of a single-precision number.
#[derive(Clone, Copy, Debug, PartialEq, Eq, Structural)]
pub enum ScrollDelta {
    Lines { x: u32, y: u32 },
    Pixels { x: u32, y: u32 },
}

#[derive(Clone, Copy, Debug, PartialEq, Eq, Structural)]
pub enum MouseEvent {
    CursorMoved { position: PhysicalPosition },
    ButtonPressed { button: MouseButton },
    ButtonReleased { button: MouseButton },
    WheelScrolled { delta: ScrollDelta },
    CursorLeft,
    /// The cursor entered, or something is dragged over the window.
    Other,
}

/// A change of the window as a whole.
#[derive(Clone, Copy, Debug, PartialEq, Eq, Structural)]
pub enum WindowChange {
    Focused,
    Unfocused,
    WillClose,
    Other,
}

/// An event that the windowing system reports.
#[derive(Debug, PartialEq, Eq)]
pub enum Event {
    Mouse(MouseEvent),
    Keyboard(KeyboardEvent),
    Window(WindowChange),
    Other,
}

/// Whether the windowing system may pass an event on to the host.
#[derive(Clone, Copy, Debug, PartialEq, Eq, Structural)]
pub enum EventStatus {
    /// The window handled the event; the host does not see it.
    Captured,
    /// The host sees the event too.
    Ignored,
}

/// How the status of an event is found once the UI toolkit has been told of it. What runs
/// while the toolkit is told may still change whether key events are kept from the host.
#[derive(Clone, Copy, Debug, PartialEq, Eq, Structural)]
pub enum Answer {
    /// The event is captured.
    Captured,
    /// The event is ignored.
    Ignored,
    /// The event is captured if key events are kept from the host by then, else ignored.
    CapturedIfPrevented,
}

#[derive(Clone, Copy, Debug, PartialEq, Eq, Structural)]
pub enum PointerEventButton {
    Left,
    Middle,
    Right,
}

/// A distance in logical pixels: `amount`, the bit pattern of a single-precision number,
/// times the whole number `factor`.
#[derive(Clone, Copy, Debug, PartialEq, Eq, Structural)]
pub struct ScrollDistance {
    pub amount: u32,
    pub factor: u32,
}

/// An event for the UI toolkit.
#[derive(Debug, PartialEq, Eq)]
pub enum WindowEvent {
    PointerMoved { position: LogicalPosition },
    PointerPressed { button: PointerEventButton, position: LogicalPosition },
    PointerReleased { button: PointerEventButton, position: LogicalPosition },
    PointerScrolled {
        position: LogicalPosition,
        delta_x: ScrollDistance,
        delta_y: ScrollDistance,
    },
    PointerExited,
    KeyPressed { text: String },
    KeyPressRepeated { text: String },
    KeyReleased { text: String },
    WindowActiveChanged(bool),
    CloseRequested,
    /// The logical size changed; each side is the bit pattern of a double.
    Resized { width: u64, height: u64 },
    /// The scale factor, the bit pattern of a double, was set. The toolkit works with the
    /// closest single-precision number.
    ScaleFactorChanged { scale_factor: u64 },
}

/// A [`WindowEvent`] with its text as a sequence of characters.
pub enum WindowEventView {
    PointerMoved { position: LogicalPosition },
    PointerPressed { button: PointerEventButton, position: LogicalPosition },
    PointerReleased { button: PointerEventButton, position: LogicalPosition },
    PointerScrolled {
        position: LogicalPosition,
        delta_x: ScrollDistance,
        delta_y: ScrollDistance,
    },
    PointerExited,
    KeyPressed { text: Seq<char> },
    KeyPressRepeated { text: Seq<char> },
    KeyReleased { text: Seq<char> },
    WindowActiveChanged(bool),
    CloseRequested,
    Resized { width: u64, height: u64 },
    ScaleFactorChanged { scale_factor: u64 },
}

impl View for WindowEvent {
    type V = WindowEventView;

    open spec fn view(&self) -> WindowEventView {
        match *self {
            WindowEvent::PointerMoved { position } => WindowEventView::PointerMoved { position },
            WindowEvent::PointerPressed { button, position } => WindowEventView::PointerPressed {
                button,
                position,
            },
            WindowEvent::PointerReleased { button, position } => WindowEventView::PointerReleased {
                button,
                position,
            },
            WindowEvent::PointerScrolled { position, delta_x, delta_y } =>
                WindowEventView::PointerScrolled { position, delta_x, delta_y },
            WindowEvent::PointerExited => WindowEventView::PointerExited,
            WindowEvent::KeyPressed { text } => WindowEventView::KeyPressed { text: text@ },
            WindowEvent::KeyPressRepeated { text } => WindowEventView::KeyPressRepeated {
                text: text@,
            },
            WindowEvent::KeyReleased { text } => WindowEventView::KeyReleased { text: text@ },
            WindowEvent::WindowActiveChanged(active) => WindowEventView::WindowActiveChanged(
                active,
            ),
            WindowEvent::CloseRequested => WindowEventView::CloseRequested,
            WindowEvent::Resized { width, height } => WindowEventView::Resized { width, height },
            WindowEvent::ScaleFactorChanged { scale_factor } =>
                WindowEventView::ScaleFactorChanged { scale_factor },
        }
    }
}

/// The response to an event: what the UI toolkit is told, if anything, and what the
/// windowing system is answered after that.
#[derive(Debug, PartialEq, Eq)]
pub struct Reaction {
    pub dispatch: Option<WindowEvent>,
    pub answer: Answer,
}

/// A [`Reaction`] with the event as a [`WindowEventView`].
pub struct ReactionView {
    pub dispatch: Option<WindowEventView>,
    pub answer: Answer,
}

impl View for Reaction {
    type V = ReactionView;

    open spec fn view(&self) -> ReactionView {
        ReactionView {
            dispatch: match self.dispatch {
                Some(event) => Some(event@),
                None => None,
            },
            answer: self.answer,
        }
    }
}

} // verus!
