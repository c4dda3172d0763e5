//! How an open window reacts to mouse, keyboard and window events.
use crate::event::{
    Answer, Event, EventStatus, LogicalPosition, MouseButton, MouseEvent, PointerEventButton, Reaction,
    ReactionView, ScrollDelta, ScrollDistance, WindowChange, WindowEvent, WindowEventView,
};
use crate::handler::WindowHandler;
use crate::keys::{key_text, text_of, KeyState, KeyboardEvent};
use vstd::prelude::*;

verus! {

/// How many logical pixels the UI scrolls by for one line of the mouse wheel.
pub const PIXELS_PER_LINE: u32 = 20;

/// The button as the UI toolkit knows it, if it does.
pub open spec fn toolkit_button(button: MouseButton) -> Option<PointerEventButton> {
    match button {
        MouseButton::Left => Some(PointerEventButton::Left),
        MouseButton::Middle => Some(PointerEventButton::Middle),
        MouseButton::Right => Some(PointerEventButton::Right),
        MouseButton::Other => None,
    }
}

/// The horizontal and vertical distance of a scroll movement.
pub open spec fn scroll_distance(delta: ScrollDelta) -> (ScrollDistance, ScrollDistance) {
    match delta {
        ScrollDelta::Lines { x, y } => (
            ScrollDistance { amount: x, factor: PIXELS_PER_LINE },
            ScrollDistance { amount: y, factor: PIXELS_PER_LINE },
        ),
        ScrollDelta::Pixels { x, y } => (
            ScrollDistance { amount: x, factor: 1 },
            ScrollDistance { amount: y, factor: 1 },
        ),
    }
}

/// What the UI toolkit is told of a key event: the text of the key, which may be empty, and
/// what happened to it.
pub open spec fn key_dispatch(event: KeyboardEvent) -> WindowEventView {
    let text = text_of(event.key, event.code);
    match event.state {
        KeyState::Down => if event.repeat {
            WindowEventView::KeyPressRepeated { text }
        } else {
            WindowEventView::KeyPressed { text }
        },
        KeyState::Up => WindowEventView::KeyReleased { text },
    }
}

/// What the UI toolkit is told of a change of the window.
pub open spec fn window_dispatch(change: WindowChange) -> Option<WindowEventView> {
    match change {
        WindowChange::Focused => Some(WindowEventView::WindowActiveChanged(true)),
        WindowChange::Unfocused => Some(WindowEventView::WindowActiveChanged(false)),
        WindowChange::WillClose => Some(WindowEventView::CloseRequested),
        WindowChange::Other => None,
    }
}

impl WindowHandler {
    /// What the UI toolkit is told of a mouse event. Buttons and the wheel act where the
    /// cursor was last seen.
    pub open spec fn mouse_dispatch(self, event: MouseEvent) -> Option<WindowEventView> {
        let position = self.last_cursor_pos;
        match event {
            MouseEvent::CursorMoved { position } => Some(
                WindowEventView::PointerMoved {
                    position: LogicalPosition { physical: position, scale_factor: self.scale_factor },
                },
            ),
            MouseEvent::ButtonPressed { button } => match toolkit_button(button) {
                Some(button) => Some(WindowEventView::PointerPressed { button, position }),
                None => None,
            },
            MouseEvent::ButtonReleased { button } => match toolkit_button(button) {
                Some(button) => Some(WindowEventView::PointerReleased { button, position }),
                None => None,
            },
            MouseEvent::WheelScrolled { delta } => Some(
                WindowEventView::PointerScrolled {
                    position,
                    delta_x: scroll_distance(delta).0,
                    delta_y: scroll_distance(delta).1,
                },
            ),
            MouseEvent::CursorLeft => Some(WindowEventView::PointerExited),
            MouseEvent::Other => None,
        }
    }

    /// What the UI toolkit is told of an event, if anything.
    pub open spec fn dispatched(self, event: Event) -> Option<WindowEventView> {
        match event {
            Event::Mouse(event) => self.mouse_dispatch(event),
            Event::Keyboard(event) => Some(key_dispatch(event)),
            Event::Window(change) => window_dispatch(change),
            Event::Other => None,
        }
    }

    /// What the windowing system is answered to an event: a mouse event is captured if the
    /// UI toolkit is told of it, and for a key event the UI decides.
    pub open spec fn answered(self, event: Event) -> Answer {
        match event {
            Event::Mouse(_) => if self.dispatched(event) is Some {
                Answer::Captured
            } else {
                Answer::Ignored
            },
            Event::Keyboard(_) => Answer::CapturedIfPrevented,
            Event::Window(_) => Answer::Ignored,
            Event::Other => Answer::Ignored,
        }
    }

    /// The status that an answer stands for in this window, as it is once the UI toolkit has
    /// been told of the event.
    pub open spec fn status_of(self, answer: Answer) -> EventStatus {
        match answer {
            Answer::Captured => EventStatus::Captured,
            Answer::Ignored => EventStatus::Ignored,
            Answer::CapturedIfPrevented => if self.prevent_key_event_propagation {
                EventStatus::Captured
            } else {
                EventStatus::Ignored
            },
        }
    }

    /// The whole response to an event.
    pub open spec fn reaction(self, event: Event) -> ReactionView {
        ReactionView { dispatch: self.dispatched(event), answer: self.answered(event) }
    }

    /// The window after an event: a move of the cursor is remembered.
    pub open spec fn after_event(self, event: Event) -> WindowHandler {
        match event {
            Event::Mouse(MouseEvent::CursorMoved { position }) => WindowHandler {
                last_cursor_pos: LogicalPosition {
                    physical: position,
                    scale_factor: self.scale_factor,
                },
                ..self
            },
            _ => self,
        }
    }

    /// Reacts to an event that the windowing system reports: the result says what the UI
    /// toolkit is to be told, and how to answer after that, see [`Self::event_status`].
    pub fn on_event(&mut self, event: Event) -> (reaction: Reaction)
        ensures
            reaction@ == old(self).reaction(event),
            *final(self) == old(self).after_event(event),
            old(self).well_formed() ==> final(self).well_formed(),
    {
        match event {
            Event::Mouse(event) => match self.on_mouse_event(event) {
                Some(told) => Reaction { dispatch: Some(told), answer: Answer::Captured },
                None => Reaction { dispatch: None, answer: Answer::Ignored },
            },
            Event::Keyboard(event) => Reaction {
                dispatch: Some(toolkit_key_event(event)),
                answer: Answer::CapturedIfPrevented,
            },
            Event::Window(change) => Reaction {
                dispatch: toolkit_window_event(change),
                answer: Answer::Ignored,
            },
            Event::Other => Reaction { dispatch: None, answer: Answer::Ignored },
        }
    }

    /// The status to return for an event. Ask once the UI toolkit has been told of the event:
    /// a key event is captured if propagation is prevented by then.
    pub fn event_status(&self, answer: Answer) -> (status: EventStatus)
        ensures
            status == self.status_of(answer),
    {
        match answer {
            Answer::Captured => EventStatus::Captured,
            Answer::Ignored => EventStatus::Ignored,
            Answer::CapturedIfPrevented => {
                if self.prevent_key_event_propagation {
                    EventStatus::Captured
                } else {
                    EventStatus::Ignored
                }
            },
        }
    }

    /// Follows the mouse; the result is what the UI toolkit is to be told.
    pub fn on_mouse_event(&mut self, event: MouseEvent) -> (told: Option<WindowEvent>)
        ensures
            match told {
                Some(told) => old(self).mouse_dispatch(event) == Some(told@),
                None => old(self).mouse_dispatch(event) is None,
            },
            *final(self) == old(self).after_event(Event::Mouse(event)),
    {
        match event {
            MouseEvent::CursorMoved { position } => {
                let position = self.to_logical_position(position);
                self.last_cursor_pos = position;
                Some(WindowEvent::PointerMoved { position })
            },
            MouseEvent::ButtonPressed { button } => match pointer_button(button) {
                Some(button) => Some(
                    WindowEvent::PointerPressed { button, position: self.last_cursor_pos },
                ),
                None => None,
            },
            MouseEvent::ButtonReleased { button } => match pointer_button(button) {
                Some(button) => Some(
                    WindowEvent::PointerReleased { button, position: self.last_cursor_pos },
                ),
                None => None,
            },
            MouseEvent::WheelScrolled { delta } => {
                let (delta_x, delta_y) = scroll_deltas(delta);
                Some(
                    WindowEvent::PointerScrolled {
                        position: self.last_cursor_pos,
                        delta_x,
                        delta_y,
                    },
                )
            },
            MouseEvent::CursorLeft => Some(WindowEvent::PointerExited),
            MouseEvent::Other => None,
        }
    }
}

/// The button as the UI toolkit knows it, if it does.
pub fn pointer_button(button: MouseButton) -> (res: Option<PointerEventButton>)
    ensures
        res == toolkit_button(button),
{
    match button {
        MouseButton::Left => Some(PointerEventButton::Left),
        MouseButton::Middle => Some(PointerEventButton::Middle),
        MouseButton::Right => Some(PointerEventButton::Right),
        MouseButton::Other => None,
    }
}

/// The horizontal and vertical distance of a scroll movement.
pub fn scroll_deltas(delta: ScrollDelta) -> (res: (ScrollDistance, ScrollDistance))
    ensures
        res == scroll_distance(delta),
{
    let (x, y, factor): (u32, u32, u32) = match delta {
        ScrollDelta::Lines { x, y } => (x, y, PIXELS_PER_LINE),
        ScrollDelta::Pixels { x, y } => (x, y, 1),
    };
    (ScrollDistance { amount: x, factor }, ScrollDistance { amount: y, factor })
}

/// What the UI toolkit is to be told of a key event: the text of the key, which may be
/// empty, and what happened to it.
pub fn toolkit_key_event(event: KeyboardEvent) -> (told: WindowEvent)
    ensures
        told@ == key_dispatch(event),
{
    let text = key_text(event.key, event.code);
    match event.state {
        KeyState::Down => {
            if event.repeat {
                WindowEvent::KeyPressRepeated { text }
            } else {
                WindowEvent::KeyPressed { text }
            }
        },
        KeyState::Up => WindowEvent::KeyReleased { text },
    }
}

/// What the UI toolkit is to be told of a change of the window.
pub fn toolkit_window_event(change: WindowChange) -> (told: Option<WindowEvent>)
    ensures
        match told {
            Some(told) => window_dispatch(change) == Some(told@),
            None => window_dispatch(change) is None,
        },
{
    match change {
        WindowChange::Focused => Some(WindowEvent::WindowActiveChanged(true)),
        WindowChange::Unfocused => Some(WindowEvent::WindowActiveChanged(false)),
        WindowChange::WillClose => Some(WindowEvent::CloseRequested),
        WindowChange::Other => None,
    }
}

} // verus!
