//! What each operation does with its input, over all inputs.
//!
//! Where [`laws`](crate::laws) relates operations to each other, the laws here say of one
//! operation what comes out for what goes in, in terms of the values themselves.
use crate::adapter::{BaseviewSlintAdapter, CurrentAdapter, PlatformError};
use crate::dispatch::{
    key_dispatch, scroll_distance, toolkit_button, window_dispatch, PIXELS_PER_LINE,
};
use crate::editor::{fallback_or_saved, SlintEditor};
use crate::event::{
    Answer, Event, EventStatus, LogicalPosition, MouseButton, MouseEvent, PhysicalPosition,
    PointerEventButton, Reaction, ScrollDelta, ScrollDistance, WindowChange, WindowEvent,
    WindowEventView,
};
use crate::float_bits;
use crate::frame::{self, FrameAction, FrameEvent};
use crate::handler::{origin, WindowHandler, WindowSize};
use crate::keys::{
    special_key_at, special_key_char, text_of, Code, Key, KeyboardEvent, SpecialKey,
};
use crate::opening::{self, OpenAction, OpenEvent};
use crate::resize::{
    hint_for, LogicalSize, NativeSize, ResizeError, ResizeRequester, SizeConstraints,
    SlintEditorHandle,
};
use crate::state::{usable_scale_factor, PersistedState, SlintEditorState};
use vstd::prelude::*;

verus! {

// ---------------------------------------------------------------------------
// Mouse
// ---------------------------------------------------------------------------

/// A press and a release of the left, middle or right button name that very button, at the
/// place where the cursor was last seen. Of other buttons nothing is told.
pub proof fn law_buttons_keep_their_names(handler: WindowHandler)
    ensures
        handler.reaction(
            Event::Mouse(MouseEvent::ButtonPressed { button: MouseButton::Left }),
        ).dispatch == Some(
            WindowEventView::PointerPressed {
                button: PointerEventButton::Left,
                position: handler.last_cursor_pos,
            },
        ),
        handler.reaction(
            Event::Mouse(MouseEvent::ButtonPressed { button: MouseButton::Middle }),
        ).dispatch == Some(
            WindowEventView::PointerPressed {
                button: PointerEventButton::Middle,
                position: handler.last_cursor_pos,
            },
        ),
        handler.reaction(
            Event::Mouse(MouseEvent::ButtonPressed { button: MouseButton::Right }),
        ).dispatch == Some(
            WindowEventView::PointerPressed {
                button: PointerEventButton::Right,
                position: handler.last_cursor_pos,
            },
        ),
        handler.reaction(
            Event::Mouse(MouseEvent::ButtonPressed { button: MouseButton::Other }),
        ).dispatch is None,
        handler.reaction(
            Event::Mouse(MouseEvent::ButtonReleased { button: MouseButton::Left }),
        ).dispatch == Some(
            WindowEventView::PointerReleased {
                button: PointerEventButton::Left,
                position: handler.last_cursor_pos,
            },
        ),
        handler.reaction(
            Event::Mouse(MouseEvent::ButtonReleased { button: MouseButton::Middle }),
        ).dispatch == Some(
            WindowEventView::PointerReleased {
                button: PointerEventButton::Middle,
                position: handler.last_cursor_pos,
            },
        ),
        handler.reaction(
            Event::Mouse(MouseEvent::ButtonReleased { button: MouseButton::Right }),
        ).dispatch == Some(
            WindowEventView::PointerReleased {
                button: PointerEventButton::Right,
                position: handler.last_cursor_pos,
            },
        ),
        handler.reaction(
            Event::Mouse(MouseEvent::ButtonReleased { button: MouseButton::Other }),
        ).dispatch is None,
{
}

/// A click is complete: the release of a button, in whatever window, names the button that
/// its press named, and no two buttons are confused.
pub proof fn law_a_release_ends_its_press(
    before: WindowHandler,
    after: WindowHandler,
    button: MouseButton,
    other: MouseButton,
)
    ensures
        ({
            let press = Event::Mouse(MouseEvent::ButtonPressed { button });
            let release = Event::Mouse(MouseEvent::ButtonReleased { button });
            let other_release = Event::Mouse(MouseEvent::ButtonReleased { button: other });
            let down = before.reaction(press).dispatch;
            let up = after.reaction(release).dispatch;
            let other_up = after.reaction(other_release).dispatch;
            &&& down is Some <==> up is Some
            &&& down is Some ==> {
                &&& down->0 is PointerPressed
                &&& up->0 is PointerReleased
                &&& down->0->PointerPressed_button == up->0->PointerReleased_button
                &&& button != other && other_up is Some ==> down->0->PointerPressed_button
                    != other_up->0->PointerReleased_button
            }
        }),
{
}

/// The names of the buttons are the same on both sides.
pub proof fn law_toolkit_knows_three_buttons()
    ensures
        toolkit_button(MouseButton::Left) == Some(PointerEventButton::Left),
        toolkit_button(MouseButton::Middle) == Some(PointerEventButton::Middle),
        toolkit_button(MouseButton::Right) == Some(PointerEventButton::Right),
        toolkit_button(MouseButton::Other) is None,
{
}

/// A cursor move is told as such, at the reported position and the scale factor of the
/// window, and is remembered there; nothing else of the window changes.
pub proof fn law_cursor_move_is_told_and_kept(handler: WindowHandler, position: PhysicalPosition)
    ensures
        ({
            let event = Event::Mouse(MouseEvent::CursorMoved { position });
            let after = handler.after_event(event);
            &&& handler.reaction(event).dispatch == Some(
                WindowEventView::PointerMoved { position: after.last_cursor_pos },
            )
            &&& after.last_cursor_pos.physical == position
            &&& after.last_cursor_pos.scale_factor == handler.scale_factor
            &&& after.scale_factor == handler.scale_factor
            &&& after.window_shown == handler.window_shown
            &&& after.adapter == handler.adapter
            &&& after.prevent_key_event_propagation == handler.prevent_key_event_propagation
            &&& after.resizable == handler.resizable
        }),
{
}

/// No event but a cursor move changes anything of the window.
pub proof fn law_other_events_leave_the_window(handler: WindowHandler, event: Event)
    requires
        !(event matches Event::Mouse(MouseEvent::CursorMoved { position: _ })),
    ensures
        handler.after_event(event) == handler,
{
}

/// The wheel acts where the cursor was last seen. A line is twenty pixels, a pixel is one,
/// and neither amount nor axis is touched.
pub proof fn law_wheel_scrolls_by_lines_of_twenty(handler: WindowHandler, x: u32, y: u32)
    ensures
        PIXELS_PER_LINE == 20,
        scroll_distance(ScrollDelta::Lines { x, y }) == (
            ScrollDistance { amount: x, factor: 20 },
            ScrollDistance { amount: y, factor: 20 },
        ),
        scroll_distance(ScrollDelta::Pixels { x, y }) == (
            ScrollDistance { amount: x, factor: 1 },
            ScrollDistance { amount: y, factor: 1 },
        ),
        handler.reaction(
            Event::Mouse(MouseEvent::WheelScrolled { delta: ScrollDelta::Lines { x, y } }),
        ).dispatch == Some(
            WindowEventView::PointerScrolled {
                position: handler.last_cursor_pos,
                delta_x: ScrollDistance { amount: x, factor: 20 },
                delta_y: ScrollDistance { amount: y, factor: 20 },
            },
        ),
        handler.reaction(
            Event::Mouse(MouseEvent::WheelScrolled { delta: ScrollDelta::Pixels { x, y } }),
        ).dispatch == Some(
            WindowEventView::PointerScrolled {
                position: handler.last_cursor_pos,
                delta_x: ScrollDistance { amount: x, factor: 1 },
                delta_y: ScrollDistance { amount: y, factor: 1 },
            },
        ),
{
}

/// The cursor that leaves the window is told as such; of the remaining mouse events nothing
/// is told.
pub proof fn law_cursor_exit_is_told(handler: WindowHandler)
    ensures
        handler.reaction(Event::Mouse(MouseEvent::CursorLeft)).dispatch == Some(
            WindowEventView::PointerExited,
        ),
        handler.reaction(Event::Mouse(MouseEvent::Other)).dispatch is None,
{
}

// ---------------------------------------------------------------------------
// Keyboard
// ---------------------------------------------------------------------------

/// A key that comes up is told as released, one that is held down as repeated, one that goes
/// down as pressed, whichever key it is.
pub proof fn law_key_state_is_told(event: KeyboardEvent)
    ensures
        event.state is Up ==> key_dispatch(event) is KeyReleased,
        event.state is Down && event.repeat ==> key_dispatch(event) is KeyPressRepeated,
        event.state is Down && !event.repeat ==> key_dispatch(event) is KeyPressed,
        event.state is Up ==> key_dispatch(event)->KeyReleased_text == text_of(
            event.key,
            event.code,
        ),
        event.state is Down && event.repeat ==> key_dispatch(event)->KeyPressRepeated_text
            == text_of(event.key, event.code),
        event.state is Down && !event.repeat ==> key_dispatch(event)->KeyPressed_text == text_of(
            event.key,
            event.code,
        ),
{
}

/// The press, the repeats and the release of a key all carry the same text.
pub proof fn law_key_text_does_not_change_while_held(
    down: KeyboardEvent,
    held: KeyboardEvent,
    up: KeyboardEvent,
)
    requires
        down.key == held.key && held.key == up.key,
        down.code == held.code && held.code == up.code,
        down.state is Down && !down.repeat,
        held.state is Down && held.repeat,
        up.state is Up,
    ensures
        key_dispatch(down) is KeyPressed,
        key_dispatch(held) is KeyPressRepeated,
        key_dispatch(up) is KeyReleased,
        key_dispatch(down)->KeyPressed_text == key_dispatch(held)->KeyPressRepeated_text,
        key_dispatch(down)->KeyPressed_text == key_dispatch(up)->KeyReleased_text,
{
}

/// The window tells the UI toolkit of a key what [`key_dispatch`] says, and of the mouse and
/// the window what their own functions say.
pub proof fn law_events_are_told_by_kind(
    handler: WindowHandler,
    mouse: MouseEvent,
    key: KeyboardEvent,
    change: WindowChange,
)
    ensures
        handler.reaction(Event::Mouse(mouse)).dispatch == handler.mouse_dispatch(mouse),
        handler.reaction(Event::Keyboard(key)).dispatch == Some(key_dispatch(key)),
        handler.reaction(Event::Window(change)).dispatch == window_dispatch(change),
        handler.reaction(Event::Other).dispatch is None,
{
}

/// A key that types something has that as its text, wherever on the keyboard it is.
pub proof fn law_typed_text_is_kept(text: String, code: Code)
    ensures
        text_of(Key::Character(text), code) == text@,
{
}

/// A key that types nothing has as its text the one character of the special key at its
/// position, if there is one there, and else none.
pub proof fn law_named_key_has_its_special_character(code: Code)
    ensures
        special_key_at(code) is None <==> code is Other,
        special_key_at(code) is None ==> text_of(Key::Named, code).len() == 0,
        special_key_at(code) is Some ==> text_of(Key::Named, code).len() == 1 && text_of(
            Key::Named,
            code,
        )[0] == special_key_char(special_key_at(code)->0),
{
}

/// Positions and special keys go by the same names; a modifier on the right is another key
/// than the one on the left.
pub proof fn law_special_keys_are_where_their_names_say()
    ensures
        special_key_at(Code::Enter) == Some(SpecialKey::Return),
        special_key_at(Code::Tab) == Some(SpecialKey::Tab),
        special_key_at(Code::Space) == Some(SpecialKey::Space),
        special_key_at(Code::Backspace) == Some(SpecialKey::Backspace),
        special_key_at(Code::Escape) == Some(SpecialKey::Escape),
        special_key_at(Code::ArrowUp) == Some(SpecialKey::UpArrow),
        special_key_at(Code::ArrowDown) == Some(SpecialKey::DownArrow),
        special_key_at(Code::ArrowLeft) == Some(SpecialKey::LeftArrow),
        special_key_at(Code::ArrowRight) == Some(SpecialKey::RightArrow),
        special_key_at(Code::ShiftLeft) == Some(SpecialKey::Shift),
        special_key_at(Code::ShiftRight) == Some(SpecialKey::ShiftR),
        special_key_at(Code::ControlLeft) == Some(SpecialKey::Control),
        special_key_at(Code::ControlRight) == Some(SpecialKey::ControlR),
        special_key_at(Code::AltLeft) == Some(SpecialKey::Alt),
        special_key_at(Code::AltRight) == Some(SpecialKey::AltGr),
        special_key_at(Code::MetaLeft) == Some(SpecialKey::Meta),
        special_key_at(Code::MetaRight) == Some(SpecialKey::MetaR),
{
}

/// Keys of the text have their control characters, modifiers the codes from 0x10 on, and the
/// arrows the four codes from 0xf700 on: up, down, left, right.
pub proof fn law_special_characters()
    ensures
        special_key_char(SpecialKey::Backspace) as u32 == 0x08,
        special_key_char(SpecialKey::Tab) as u32 == 0x09,
        special_key_char(SpecialKey::Return) as u32 == 0x0a,
        special_key_char(SpecialKey::Escape) as u32 == 0x1b,
        special_key_char(SpecialKey::Space) as u32 == 0x20,
        special_key_char(SpecialKey::Shift) as u32 == 0x10,
        special_key_char(SpecialKey::Control) as u32 == 0x11,
        special_key_char(SpecialKey::Alt) as u32 == 0x12,
        special_key_char(SpecialKey::AltGr) as u32 == 0x13,
        special_key_char(SpecialKey::ShiftR) as u32 == 0x15,
        special_key_char(SpecialKey::ControlR) as u32 == 0x16,
        special_key_char(SpecialKey::Meta) as u32 == 0x17,
        special_key_char(SpecialKey::MetaR) as u32 == 0x18,
        special_key_char(SpecialKey::UpArrow) as u32 == 0xf700,
        special_key_char(SpecialKey::DownArrow) as u32 == 0xf701,
        special_key_char(SpecialKey::LeftArrow) as u32 == 0xf702,
        special_key_char(SpecialKey::RightArrow) as u32 == 0xf703,
{
}

// ---------------------------------------------------------------------------
// Window changes and statuses
// ---------------------------------------------------------------------------

/// The UI toolkit learns whether the window is active, and that it is about to close.
pub proof fn law_window_changes_are_told()
    ensures
        window_dispatch(WindowChange::Focused) == Some(WindowEventView::WindowActiveChanged(true)),
        window_dispatch(WindowChange::Unfocused) == Some(
            WindowEventView::WindowActiveChanged(false),
        ),
        window_dispatch(WindowChange::WillClose) == Some(WindowEventView::CloseRequested),
        window_dispatch(WindowChange::Other) is None,
{
}

/// The host is kept from mouse events that the UI toolkit is told of, whatever became of the
/// window meanwhile; from key events exactly if the window prevents their propagation once
/// the toolkit was told; and from nothing else.
pub proof fn law_host_sees_what_it_should(
    handler: WindowHandler,
    afterwards: WindowHandler,
    mouse: MouseEvent,
    key: KeyboardEvent,
    change: WindowChange,
)
    ensures
        afterwards.status_of(handler.reaction(Event::Mouse(mouse)).answer) == (
        if handler.reaction(Event::Mouse(mouse)).dispatch is Some {
            EventStatus::Captured
        } else {
            EventStatus::Ignored
        }),
        afterwards.status_of(handler.reaction(Event::Keyboard(key)).answer) == (
        if afterwards.prevent_key_event_propagation {
            EventStatus::Captured
        } else {
            EventStatus::Ignored
        }),
        afterwards.status_of(handler.reaction(Event::Window(change)).answer)
            == EventStatus::Ignored,
        afterwards.status_of(handler.reaction(Event::Other).answer) == EventStatus::Ignored,
        afterwards.status_of(Answer::Captured) == EventStatus::Captured,
        afterwards.status_of(Answer::Ignored) == EventStatus::Ignored,
        afterwards.status_of(Answer::CapturedIfPrevented) is Captured
            <==> afterwards.prevent_key_event_propagation,
{
}

/// The view of an event shows the event as it is.
pub proof fn law_event_view_is_faithful(
    position: LogicalPosition,
    button: PointerEventButton,
    delta_x: ScrollDistance,
    delta_y: ScrollDistance,
    text: String,
    active: bool,
    width: u64,
    height: u64,
    scale_factor: u64,
)
    ensures
        (WindowEvent::PointerMoved { position })@ == (WindowEventView::PointerMoved { position }),
        (WindowEvent::PointerPressed { button, position })@ == (WindowEventView::PointerPressed {
            button,
            position,
        }),
        (WindowEvent::PointerReleased { button, position })@ == (WindowEventView::PointerReleased {
            button,
            position,
        }),
        (WindowEvent::PointerScrolled { position, delta_x, delta_y })@ == (
        WindowEventView::PointerScrolled { position, delta_x, delta_y }),
        WindowEvent::PointerExited@ == WindowEventView::PointerExited,
        (WindowEvent::KeyPressed { text })@ == (WindowEventView::KeyPressed { text: text@ }),
        (WindowEvent::KeyPressRepeated { text })@ == (WindowEventView::KeyPressRepeated {
            text: text@,
        }),
        (WindowEvent::KeyReleased { text })@ == (WindowEventView::KeyReleased { text: text@ }),
        WindowEvent::WindowActiveChanged(active)@ == WindowEventView::WindowActiveChanged(active),
        WindowEvent::CloseRequested@ == WindowEventView::CloseRequested,
        (WindowEvent::Resized { width, height })@ == (WindowEventView::Resized { width, height }),
        (WindowEvent::ScaleFactorChanged { scale_factor })@ == (
        WindowEventView::ScaleFactorChanged { scale_factor }),
{
}

/// The view of a reaction shows the reaction as it is.
pub proof fn law_reaction_view_is_faithful(reaction: Reaction)
    ensures
        reaction@.answer == reaction.answer,
        reaction@.dispatch is Some <==> reaction.dispatch is Some,
        reaction.dispatch is Some ==> reaction@.dispatch->0 == reaction.dispatch->0@,
{
}

// ---------------------------------------------------------------------------
// Sizes
// ---------------------------------------------------------------------------

/// Where both sides of the logical size compare greater than zero, whatever the scale factor
/// and the physical size, the UI toolkit is told that size and then the scale factor;
/// otherwise it is told the scale factor alone.
pub proof fn law_announcement_of_a_size(size: WindowSize)
    ensures
        ({
            let width = size.logical.width;
            let height = size.logical.height;
            let scale_factor = size.scale_factor;
            let told = size.announcement();
            if float_bits::is_positive(width) && float_bits::is_positive(height) {
                &&& told.len() == 2
                &&& told[0] == (WindowEvent::Resized { width, height })
                &&& told[1] == (WindowEvent::ScaleFactorChanged { scale_factor })
            } else {
                &&& told.len() == 1
                &&& told[0] == (WindowEvent::ScaleFactorChanged { scale_factor })
            }
        }),
        size.has_area() <==> float_bits::is_positive(size.logical.width)
            && float_bits::is_positive(size.logical.height),
{
}

/// Physical size and scale factor have no say in whether the UI toolkit is told a size, nor
/// in which.
pub proof fn law_logical_size_alone_decides_the_layout(first: WindowSize, second: WindowSize)
    requires
        first.logical == second.logical,
    ensures
        first.announcement().len() == second.announcement().len(),
        first.announcement().len() == 2 ==> first.announcement()[0] == second.announcement()[0],
{
}

/// A reported size reaches the window and its adapter as it is, and touches nothing else of
/// the window.
pub proof fn law_resize_changes_only_geometry(handler: WindowHandler, size: WindowSize)
    ensures
        ({
            let after = handler.resized_to(size);
            &&& after.scale_factor == size.scale_factor
            &&& after.adapter.physical_size == size.physical
            &&& after.adapter.scale_factor == size.scale_factor
            &&& after.last_cursor_pos == handler.last_cursor_pos
            &&& after.window_shown == handler.window_shown
            &&& after.prevent_key_event_propagation == handler.prevent_key_event_propagation
            &&& after.resizable == handler.resizable
            &&& after.well_formed()
        }),
{
}

/// What is saved of a reported size: width and height each rounded towards zero, each on its
/// own, and the scale factor as it was reported.
pub proof fn law_each_side_is_saved_on_its_own(first: WindowSize, second: WindowSize)
    ensures
        first.persisted().size.0 == float_bits::saturated_u32(first.logical.width),
        first.persisted().size.1 == float_bits::saturated_u32(first.logical.height),
        first.persisted().scale_factor == first.scale_factor,
        first.logical.width == second.logical.width ==> first.persisted().size.0
            == second.persisted().size.0,
        first.logical.height == second.logical.height ==> first.persisted().size.1
            == second.persisted().size.1,
{
}

/// A window that was just opened has the reported geometry. Whatever its size and whether or
/// not it can be resized, it has not been shown, its cursor is in the upper left corner, and
/// key events pass. Of what is saved it has set the scale factor only.
pub proof fn law_opened_window_is_fresh(
    state: SlintEditorState,
    size: WindowSize,
    resizable: bool,
)
    ensures
        ({
            let handler = WindowHandler::opened(size, resizable);
            let saved = WindowHandler::saved_on_open(state, size);
            &&& !handler.window_shown
            &&& !handler.prevent_key_event_propagation
            &&& handler.resizable == resizable
            &&& handler.scale_factor == size.scale_factor
            &&& handler.adapter == (BaseviewSlintAdapter {
                physical_size: size.physical,
                scale_factor: size.scale_factor,
            })
            &&& handler.last_cursor_pos == origin()
            &&& saved.size == state.size
            &&& saved.scale_factor == size.scale_factor
        }),
        origin().physical.x == 0,
        origin().physical.y == 0,
        float_bits::denotes(origin().scale_factor, 1),
{
    float_bits::lemma_one();
}

/// A window is well formed exactly if it and its adapter have the same scale factor.
pub proof fn law_well_formed_is_agreement(handler: WindowHandler)
    ensures
        handler.well_formed() <==> handler.scale_factor == handler.adapter.scale_factor,
{
}

// ---------------------------------------------------------------------------
// Opening and frames
// ---------------------------------------------------------------------------

/// The steps of opening a window follow each other in this order: OpenGL context, adapter,
/// platform, component. A window without a context, or whose component cannot be created,
/// panics; a context that cannot be made current is an error; whether the platform was
/// accepted does not matter.
pub proof fn law_steps_of_opening(accepted: bool)
    ensures
        opening::next_action(OpenEvent::Started { has_gl_context: true })
            == OpenAction::MakeCurrent,
        opening::next_action(OpenEvent::Started { has_gl_context: false }) == OpenAction::Panic,
        opening::next_action(OpenEvent::MadeCurrent) == OpenAction::InstallAdapter,
        opening::next_action(OpenEvent::MakeCurrentFailed) == OpenAction::Fail,
        opening::next_action(OpenEvent::AdapterInstalled) == OpenAction::SetPlatform,
        opening::next_action(OpenEvent::PlatformSet { accepted }) == OpenAction::CreateComponent,
        opening::next_action(OpenEvent::ComponentCreated) == OpenAction::Finish,
        opening::next_action(OpenEvent::ComponentFailed) == OpenAction::Panic,
{
}

/// The steps of a frame follow each other in this order: the component is shown and set up,
/// unless it was shown before; then event loop, timers, and drawing if there is a renderer.
/// A component that cannot be shown panics, one that cannot be drawn is an error.
pub proof fn law_steps_of_a_frame(shown: bool)
    ensures
        frame::next_action(false, FrameEvent::Started) == FrameAction::Show,
        frame::next_action(true, FrameEvent::Started) == FrameAction::RunEventLoop,
        frame::next_action(shown, FrameEvent::Shown) == FrameAction::RunSetup,
        frame::next_action(shown, FrameEvent::ShowFailed) == FrameAction::Panic,
        frame::next_action(shown, FrameEvent::SetupDone) == FrameAction::RunEventLoop,
        frame::next_action(shown, FrameEvent::EventLoopDone) == FrameAction::UpdateTimers,
        frame::next_action(shown, FrameEvent::TimersUpdated { renderer_exists: true })
            == FrameAction::Render,
        frame::next_action(shown, FrameEvent::TimersUpdated { renderer_exists: false })
            == FrameAction::Finish,
        frame::next_action(shown, FrameEvent::Rendered) == FrameAction::Finish,
        frame::next_action(shown, FrameEvent::RenderFailed) == FrameAction::Fail,
{
}

/// A component counts as shown from the event that says so, and stays shown.
pub proof fn law_shown_once_is_shown_for_good(shown: bool, event: FrameEvent)
    ensures
        frame::shown_after(true, event),
        frame::shown_after(shown, FrameEvent::Shown),
        event != FrameEvent::Shown ==> frame::shown_after(shown, event) == shown,
{
}

/// The first frame of a window, whatever its size and whether or not it can be resized,
/// shows the component and runs the setup handler before the event loop. The frames after
/// it go straight to the event loop.
pub proof fn law_first_frame_shows_and_sets_up(
    size: WindowSize,
    resizable: bool,
    renderer_exists: bool,
)
    ensures
        ({
            let opened = WindowHandler::opened(size, resizable).window_shown;
            let started = frame::shown_after(opened, FrameEvent::Started);
            let shown = frame::shown_after(started, FrameEvent::Shown);
            let set_up = frame::shown_after(shown, FrameEvent::SetupDone);
            let looped = frame::shown_after(set_up, FrameEvent::EventLoopDone);
            let updated = frame::shown_after(looped, FrameEvent::TimersUpdated { renderer_exists });
            &&& frame::next_action(opened, FrameEvent::Started) == FrameAction::Show
            &&& frame::next_action(started, FrameEvent::Shown) == FrameAction::RunSetup
            &&& frame::next_action(shown, FrameEvent::SetupDone) == FrameAction::RunEventLoop
            &&& frame::next_action(set_up, FrameEvent::EventLoopDone)
                == FrameAction::UpdateTimers
            &&& frame::next_action(updated, FrameEvent::Started) == FrameAction::RunEventLoop
        }),
{
}

// ---------------------------------------------------------------------------
// Resizing
// ---------------------------------------------------------------------------

/// A resizable editor supports every proposed size as it is, a fixed one supports none.
pub proof fn law_proposed_size_is_supported_unchanged(
    handle: SlintEditorHandle,
    proposed: NativeSize,
)
    ensures
        handle.resizable ==> handle.adjusted(proposed) is Some,
        handle.resizable ==> handle.adjusted(proposed)->0.width == proposed.width,
        handle.resizable ==> handle.adjusted(proposed)->0.height == proposed.height,
        !handle.resizable ==> handle.adjusted(proposed) is None,
{
}

/// A request is let through exactly if the editor is resizable and neither side is zero;
/// a refusal blames the zero side before the editor.
pub proof fn law_refusals(requester: ResizeRequester, width: u32, height: u32)
    ensures
        requester.refusal(width, height) is None <==> requester.resizable && width > 0 && height
            > 0,
        requester.refusal(width, height) == Some(ResizeError::ZeroDimension) <==> width == 0
            || height == 0,
        requester.refusal(width, height) == Some(ResizeError::Disabled) <==> !requester.resizable
            && width > 0 && height > 0,
{
}

/// The errors in words.
pub proof fn law_refusals_in_words()
    ensures
        ResizeError::ZeroDimension.message_text() == "resize dimensions must be nonzero"@,
        ResizeError::Disabled.message_text()
            == "programmatic resizing is disabled for this editor"@,
{
}

/// The hint allows both axes or none, and holds no lock and no limit.
pub proof fn law_hint_is_all_or_nothing(resizable: bool)
    ensures
        ({
            let hint = hint_for(resizable);
            &&& hint.can_resize == resizable
            &&& hint.can_resize_horizontally == resizable
            &&& hint.can_resize_vertically == resizable
            &&& !hint.preserve_aspect_ratio
            &&& hint.aspect_ratio_width == 1
            &&& hint.aspect_ratio_height == 1
            &&& hint.size_constraints == (SizeConstraints::Logical {
                min_size: None,
                max_size: None,
            })
        }),
{
}

/// A logical size is exactly so many pixels if its width is the one number and its height
/// the other.
pub proof fn law_exact_size(size: LogicalSize, width: u32, height: u32)
    ensures
        size.is_exactly(width, height) <==> {
            &&& float_bits::denotes(size.width, width as nat)
            &&& float_bits::denotes(size.height, height as nat)
        },
{
}

/// A size that is exactly so many pixels is exactly no other number of pixels, and there is
/// only one such size.
pub proof fn law_exact_size_is_unique(
    size: LogicalSize,
    other: LogicalSize,
    width: u32,
    height: u32,
    other_width: u32,
    other_height: u32,
)
    requires
        size.is_exactly(width, height),
    ensures
        size.is_exactly(other_width, other_height) ==> width == other_width && height
            == other_height,
        other.is_exactly(width, height) ==> other == size,
{
    if size.is_exactly(other_width, other_height) {
        float_bits::lemma_whole_number_is_kept(size.width, width);
        float_bits::lemma_whole_number_is_kept(size.width, other_width);
        float_bits::lemma_whole_number_is_kept(size.height, height);
        float_bits::lemma_whole_number_is_kept(size.height, other_height);
    }
    if other.is_exactly(width, height) {
        float_bits::law_whole_number_has_one_pattern(size.width, other.width, width);
        float_bits::law_whole_number_has_one_pattern(size.height, other.height, height);
    }
}

// ---------------------------------------------------------------------------
// Saved state
// ---------------------------------------------------------------------------

/// Saving and restoring keep width, height and scale factor apart and as they are; where
/// none was saved the scale factor is one.
pub proof fn law_saved_fields_are_kept(state: SlintEditorState, saved: PersistedState)
    ensures
        state.saved().size == state.size,
        state.saved().scale_factor == Some(state.scale_factor),
        SlintEditorState::restored(saved).size == saved.size,
        saved.scale_factor is Some ==> SlintEditorState::restored(saved).scale_factor
            == saved.scale_factor->0,
        saved.scale_factor is None ==> float_bits::denotes(
            SlintEditorState::restored(saved).scale_factor,
            1,
        ),
        saved.scale_factor is None ==> SlintEditorState::restored(saved).scale_factor
            == 0x3ff0_0000_0000_0000u64,
{
    float_bits::lemma_one();
}

/// The pattern of one is that of the number one.
pub proof fn law_one_is_one()
    ensures
        float_bits::ONE == 0x3ff0_0000_0000_0000u64,
        float_bits::denotes(float_bits::ONE, 1),
{
    float_bits::lemma_one();
}

/// The scale factor to go by is the given one if its pattern lies strictly between those of
/// zero and infinity, and else that of one.
pub proof fn law_scale_factor_by_pattern(reported: u64)
    ensures
        usable_scale_factor(reported) == (if 0 < reported < 0x7ff0_0000_0000_0000u64 {
            reported
        } else {
            0x3ff0_0000_0000_0000u64
        }),
{
    float_bits::law_positive_patterns(reported);
}

// ---------------------------------------------------------------------------
// Editors
// ---------------------------------------------------------------------------

/// Each option of an editor is kept as given, and giving it leaves the others alone.
pub proof fn law_editor_options_are_kept<H, F, S, E>(
    editor: SlintEditor<H, F, S, E>,
    setup: S,
    event_loop: E,
    resizable: bool,
)
    ensures
        ({
            let with = editor.setup_set(setup);
            &&& with.setup_handler == Some(setup)
            &&& with.event_loop_handler == editor.event_loop_handler
            &&& with.resizable == editor.resizable
            &&& with.state == editor.state
            &&& with.component_factory == editor.component_factory
        }),
        ({
            let with = editor.event_loop_set(event_loop);
            &&& with.event_loop_handler == Some(event_loop)
            &&& with.setup_handler == editor.setup_handler
            &&& with.resizable == editor.resizable
            &&& with.state == editor.state
            &&& with.component_factory == editor.component_factory
        }),
        ({
            let with = editor.resizable_set(resizable);
            &&& with.resizable == resizable
            &&& with.setup_handler == editor.setup_handler
            &&& with.event_loop_handler == editor.event_loop_handler
            &&& with.state == editor.state
            &&& with.component_factory == editor.component_factory
        }),
{
}

/// A scale factor that the host names is taken as it is, whatever is saved; without one the
/// saved factor counts, if a window can be scaled by it, and else one.
pub proof fn law_host_names_the_scale_factor(named: u64, state: SlintEditorState)
    ensures
        fallback_or_saved(Some(named), state) == named,
        fallback_or_saved(None, state) == (if 0 < state.scale_factor < 0x7ff0_0000_0000_0000u64 {
            state.scale_factor
        } else {
            0x3ff0_0000_0000_0000u64
        }),
{
    law_scale_factor_by_pattern(state.scale_factor);
}

/// A component gets the adapter that was installed last, itself, whatever was there before.
pub proof fn law_installed_adapter_is_provided<A>(slot: CurrentAdapter<A>, adapter: A)
    ensures
        slot.installed(adapter).current == Some(adapter),
        slot.installed(adapter).provided() == Ok::<A, PlatformError>(adapter),
        slot.current is Some ==> slot.provided() == Ok::<A, PlatformError>(slot.current->0),
        slot.current is None ==> slot.provided() == Err::<A, PlatformError>(
            PlatformError::NoAdapter,
        ),
{
}

} // verus!
