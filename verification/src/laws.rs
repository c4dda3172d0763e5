//! What holds across the functions of the crate.
use crate::adapter::{CurrentAdapter, PlatformError};
use crate::dispatch::{key_dispatch, PIXELS_PER_LINE};
use crate::editor::{fallback_or_saved, SlintEditor};
use crate::event::{
    Event, LogicalPosition, MouseEvent, ScrollDelta, ScrollDistance, WindowEventView,
};
use crate::float_bits;
use crate::frame::{action_at, next_action, shown_after, shown_by, FrameEvent};
use crate::handler::{WindowHandler, WindowSize};
use crate::keys::{text_of, Code, Key, KeyboardEvent};
use crate::resize::{
    hint_for, LogicalSize, NativeSize, ResizeError, ResizeRequester, SlintEditorHandle,
};
use crate::state::{usable_scale_factor, PersistedState, SlintEditorState};
use vstd::prelude::*;

verus! {

// ---------------------------------------------------------------------------
// Saved state
// ---------------------------------------------------------------------------

/// A state comes back from saving and restoring as it was, observed scale factor included.
pub proof fn law_saved_state_is_restored(state: SlintEditorState)
    ensures
        SlintEditorState::restored(state.saved()) == state,
{
}

/// A state that was saved without a scale factor is restored with its size and `1.0`.
pub proof fn law_old_state_defaults_to_one(size: (u32, u32))
    ensures
        ({
            let state = SlintEditorState::restored(PersistedState { size, scale_factor: None });
            state.size == size && usable_scale_factor(state.scale_factor) == float_bits::ONE
        }),
{
    float_bits::lemma_one();
}

/// Whatever was reported or restored, the scale factor to go by is finite and positive, and
/// a finite positive one is kept as it is.
pub proof fn law_scale_factor_is_usable(reported: u64)
    ensures
        float_bits::is_finite(usable_scale_factor(reported)),
        float_bits::is_positive(usable_scale_factor(reported)),
        float_bits::is_finite(reported) && float_bits::is_positive(reported)
            ==> usable_scale_factor(reported) == reported,
{
    float_bits::lemma_one();
}

/// Where the scale factor is one, or is unusable, the one to go by is the number one.
pub proof fn law_unusable_scale_factor_is_one(reported: u64)
    requires
        reported == float_bits::ONE || !float_bits::is_finite(reported)
            || !float_bits::is_positive(reported),
    ensures
        usable_scale_factor(reported) == float_bits::ONE,
        float_bits::denotes(usable_scale_factor(reported), 1),
{
    float_bits::lemma_one();
}

// ---------------------------------------------------------------------------
// Size
// ---------------------------------------------------------------------------

/// Of two sizes that a window reports only the later one matters, to the window, to the UI
/// toolkit and to what is saved.
pub proof fn law_last_size_wins(
    handler: WindowHandler,
    state: SlintEditorState,
    first: WindowSize,
    second: WindowSize,
)
    ensures
        handler.resized_to(first).resized_to(second) == handler.resized_to(second),
        handler.resized_to(second).scale_factor == second.scale_factor,
        handler.resized_to(second).adapter.physical_size == second.physical,
        handler.resized_to(second).adapter.scale_factor == second.scale_factor,
        saved_after_step(saved_after_step(state, Step::Resized(first)), Step::Resized(second))
            == second.persisted(),
        second.persisted().size == (
            float_bits::saturated_u32(second.logical.width),
            float_bits::saturated_u32(second.logical.height),
        ),
        second.persisted().scale_factor == second.scale_factor,
{
}

/// A logical size of whole pixels is saved exactly.
pub proof fn law_whole_size_is_saved(reported: WindowSize, width: u32, height: u32)
    requires
        reported.logical.is_exactly(width, height),
    ensures
        reported.persisted().size == (width, height),
{
    float_bits::lemma_whole_number_is_kept(reported.logical.width, width);
    float_bits::lemma_whole_number_is_kept(reported.logical.height, height);
}

/// A window that is opened at its saved size, and gets it, saves the same size again. The
/// next one assumes the scale factor that it reported, unless the host names another or
/// that one is unusable.
pub proof fn law_reopening_keeps_size(
    state: SlintEditorState,
    requested: LogicalSize,
    reported: WindowSize,
)
    requires
        requested.is_exactly(state.size.0, state.size.1),
        reported.logical == requested,
    ensures
        reported.persisted().size == state.size,
        fallback_or_saved(None, reported.persisted()) == usable_scale_factor(reported.scale_factor),
{
    law_whole_size_is_saved(reported, state.size.0, state.size.1);
}

/// The UI toolkit is always told the scale factor, last; it is told the size exactly if
/// neither side has vanished.
pub proof fn law_announcement_ends_with_scale(size: WindowSize)
    ensures
        size.announcement().len() == (if size.has_area() {
            2int
        } else {
            1int
        }),
        size.announcement().last()@ == (WindowEventView::ScaleFactorChanged {
            scale_factor: size.scale_factor,
        }),
        size.has_area() ==> size.announcement()[0]@ == (WindowEventView::Resized {
            width: size.logical.width,
            height: size.logical.height,
        }),
{
}

// ---------------------------------------------------------------------------
// Resizing
// ---------------------------------------------------------------------------

/// Whether an editor can be resized is answered alike everywhere: in the hint for the host,
/// in the sizes that are supported, and to requests for a size without a zero side.
pub proof fn law_resizable_means_the_same_everywhere(
    resizable: bool,
    size: NativeSize,
    width: u32,
    height: u32,
)
    requires
        width > 0,
        height > 0,
    ensures
        hint_for(resizable).can_resize == resizable,
        (SlintEditorHandle { resizable }).adjusted(size) is Some <==> resizable,
        (ResizeRequester { resizable }).refusal(width, height) is None <==> resizable,
{
}

/// A size with a zero side is never let through, and is refused for that reason first.
pub proof fn law_zero_size_is_refused(requester: ResizeRequester, width: u32, height: u32)
    ensures
        (requester.refusal(width, height) == Some(ResizeError::ZeroDimension)) <==> (width == 0
            || height == 0),
{
}

// ---------------------------------------------------------------------------
// Events
// ---------------------------------------------------------------------------

/// The window after a sequence of events.
pub open spec fn after_events(handler: WindowHandler, events: Seq<Event>) -> WindowHandler
    decreases events.len(),
{
    if events.len() == 0 {
        handler
    } else {
        after_events(handler, events.drop_last()).after_event(events.last())
    }
}

/// Events change nothing of a window but where the cursor was last seen.
pub proof fn law_events_only_move_the_cursor(handler: WindowHandler, events: Seq<Event>)
    ensures
        after_events(handler, events) == (WindowHandler {
            last_cursor_pos: after_events(handler, events).last_cursor_pos,
            ..handler
        }),
    decreases events.len(),
{
    if events.len() > 0 {
        law_events_only_move_the_cursor(handler, events.drop_last());
    }
}

/// The host is kept from an event only if the UI toolkit was told of it, whatever became of
/// the window while the toolkit was told.
pub proof fn law_captured_events_are_dispatched(
    handler: WindowHandler,
    event: Event,
    afterwards: WindowHandler,
)
    ensures
        ({
            let reaction = handler.reaction(event);
            let status = afterwards.status_of(reaction.answer);
            &&& status is Captured ==> reaction.dispatch is Some
            &&& event is Mouse ==> (status is Captured <==> reaction.dispatch is Some)
            &&& event is Keyboard ==> reaction.dispatch is Some
            &&& event is Window ==> status is Ignored
            &&& event is Other ==> status is Ignored && reaction.dispatch is None
        }),
{
}

/// Every key event is dispatched, with the text of the key. The host sees it too, exactly
/// unless propagation is prevented in the window once the toolkit has been told; where
/// nothing changed that meanwhile, exactly unless it was prevented all along.
pub proof fn law_key_events_reach_toolkit_and_host(
    handler: WindowHandler,
    event: KeyboardEvent,
    afterwards: WindowHandler,
)
    ensures
        ({
            let text = text_of(event.key, event.code);
            let reaction = handler.reaction(Event::Keyboard(event));
            let status = afterwards.status_of(reaction.answer);
            let unchanged = handler.after_event(Event::Keyboard(event)).status_of(reaction.answer);
            &&& reaction.dispatch == Some(key_dispatch(event))
            &&& key_dispatch(event) == (WindowEventView::KeyPressed { text }) || key_dispatch(event)
                == (WindowEventView::KeyPressRepeated { text }) || key_dispatch(event) == (
            WindowEventView::KeyReleased { text })
            &&& status is Captured <==> afterwards.prevent_key_event_propagation
            &&& status is Ignored <==> !afterwards.prevent_key_event_propagation
            &&& unchanged is Captured <==> handler.prevent_key_event_propagation
        }),
{
}

/// A wheel that counts lines and one that counts pixels act alike: at the same position, out
/// of the host's sight, by the amount as it was reported. Only the number that multiplies
/// the amount differs.
pub proof fn law_lines_and_pixels_scroll_alike(handler: WindowHandler, x: u32, y: u32)
    ensures
        ({
            let lines = handler.reaction(
                Event::Mouse(MouseEvent::WheelScrolled { delta: ScrollDelta::Lines { x, y } }),
            );
            let pixels = handler.reaction(
                Event::Mouse(MouseEvent::WheelScrolled { delta: ScrollDelta::Pixels { x, y } }),
            );
            let position = handler.last_cursor_pos;
            &&& lines.answer is Captured && pixels.answer is Captured
            &&& lines.dispatch == Some(
                WindowEventView::PointerScrolled {
                    position,
                    delta_x: ScrollDistance { amount: x, factor: PIXELS_PER_LINE },
                    delta_y: ScrollDistance { amount: y, factor: PIXELS_PER_LINE },
                },
            )
            &&& pixels.dispatch == Some(
                WindowEventView::PointerScrolled {
                    position,
                    delta_x: ScrollDistance { amount: x, factor: 1 },
                    delta_y: ScrollDistance { amount: y, factor: 1 },
                },
            )
        }),
{
}

/// Preventing propagation changes nothing of what the UI toolkit is told, and nothing at
/// all of events other than those of the keyboard.
pub proof fn law_prevention_is_only_for_the_host(handler: WindowHandler, on: bool, event: Event)
    ensures
        ({
            let other = WindowHandler { prevent_key_event_propagation: on, ..handler };
            let answer = handler.reaction(event).answer;
            &&& other.reaction(event) == handler.reaction(event)
            &&& !(event is Keyboard) ==> other.status_of(answer) == handler.status_of(answer)
        }),
{
}

/// Each special key has a text of one character that no other special key has.
pub proof fn law_special_keys_are_told_apart(first: Code, second: Code)
    requires
        first != second,
        !(first is Other),
        !(second is Other),
    ensures
        text_of(Key::Named, first).len() == 1,
        text_of(Key::Named, first) != text_of(Key::Named, second),
{
    assert(text_of(Key::Named, first)[0] != text_of(Key::Named, second)[0]);
}

// ---------------------------------------------------------------------------
// Life of a window
// ---------------------------------------------------------------------------

/// Something that happens to an open window.
pub enum Step {
    Event(Event),
    Resized(WindowSize),
    Frame(FrameEvent),
    Prevent(bool),
}

/// The window after a step.
pub open spec fn after_step(handler: WindowHandler, step: Step) -> WindowHandler {
    match step {
        Step::Event(event) => handler.after_event(event),
        Step::Resized(size) => handler.resized_to(size),
        Step::Frame(event) => WindowHandler {
            window_shown: shown_after(handler.window_shown, event),
            ..handler
        },
        Step::Prevent(on) => WindowHandler { prevent_key_event_propagation: on, ..handler },
    }
}

/// The window after a sequence of steps.
pub open spec fn after_steps(handler: WindowHandler, steps: Seq<Step>) -> WindowHandler
    decreases steps.len(),
{
    if steps.len() == 0 {
        handler
    } else {
        after_step(after_steps(handler, steps.drop_last()), steps.last())
    }
}

/// Whether a step moves the cursor.
pub open spec fn is_cursor_move(step: Step) -> bool {
    step matches Step::Event(Event::Mouse(MouseEvent::CursorMoved { position: _ }))
}

/// Buttons and the wheel act at the position of the last cursor move, at the scale factor
/// that the window had then, whatever came after it: other events, frames, or a resize to
/// another scale factor.
pub proof fn law_cursor_position_is_the_last_move(
    handler: WindowHandler,
    steps: Seq<Step>,
    last_move: int,
)
    requires
        0 <= last_move < steps.len(),
        is_cursor_move(steps[last_move]),
        forall|i: int| last_move < i < steps.len() ==> !is_cursor_move(#[trigger] steps[i]),
    ensures
        after_steps(handler, steps).last_cursor_pos == (LogicalPosition {
            physical: steps[last_move]->Event_0->Mouse_0->position,
            scale_factor: after_steps(handler, steps.take(last_move)).scale_factor,
        }),
    decreases steps.len(),
{
    let before = steps.drop_last();
    if last_move == steps.len() - 1 {
        assert(steps.take(last_move) =~= before);
    } else {
        assert(before[last_move] == steps[last_move]);
        assert forall|i: int| last_move < i < before.len() implies !is_cursor_move(
            #[trigger] before[i],
        ) by {
            assert(before[i] == steps[i]);
        }
        law_cursor_position_is_the_last_move(handler, before, last_move);
        assert(before.take(last_move) =~= steps.take(last_move));
        assert(!is_cursor_move(steps[steps.len() - 1]));
    }
}

/// Until the cursor moves, buttons and the wheel act where it was before.
pub proof fn law_cursor_stays_without_moves(handler: WindowHandler, steps: Seq<Step>)
    requires
        forall|i: int| 0 <= i < steps.len() ==> !is_cursor_move(#[trigger] steps[i]),
    ensures
        after_steps(handler, steps).last_cursor_pos == handler.last_cursor_pos,
    decreases steps.len(),
{
    if steps.len() > 0 {
        let before = steps.drop_last();
        assert forall|i: int| 0 <= i < before.len() implies !is_cursor_move(#[trigger] before[i]) by {
            assert(before[i] == steps[i]);
        }
        law_cursor_stays_without_moves(handler, before);
        assert(!is_cursor_move(steps[steps.len() - 1]));
    }
}

/// Whatever happens to a window after it was opened, it agrees with the adapter of the UI
/// toolkit on the scale factor, and whether it can be resized stays as it was.
pub proof fn law_window_and_toolkit_agree(size: WindowSize, resizable: bool, steps: Seq<Step>)
    ensures
        after_steps(WindowHandler::opened(size, resizable), steps).well_formed(),
        after_steps(WindowHandler::opened(size, resizable), steps).resizable == resizable,
    decreases steps.len(),
{
    if steps.len() > 0 {
        law_window_and_toolkit_agree(size, resizable, steps.drop_last());
    }
}

/// The geometry of a window is that of the last size it reported, or else the one it was
/// opened with: nothing but a report of the windowing system changes it.
pub proof fn law_geometry_is_the_last_report(
    size: WindowSize,
    resizable: bool,
    steps: Seq<Step>,
    last_report: int,
)
    requires
        -1 <= last_report < steps.len(),
        last_report >= 0 ==> steps[last_report] is Resized,
        forall|i: int| last_report < i < steps.len() ==> !(#[trigger] steps[i] is Resized),
    ensures
        ({
            let handler = after_steps(WindowHandler::opened(size, resizable), steps);
            let last = if last_report >= 0 {
                steps[last_report]->Resized_0
            } else {
                size
            };
            handler.scale_factor == last.scale_factor && handler.adapter.physical_size
                == last.physical
        }),
    decreases steps.len(),
{
    if steps.len() > 0 && last_report < steps.len() - 1 {
        let before = steps.drop_last();
        assert(!(steps[steps.len() - 1] is Resized));
        assert forall|i: int| last_report < i < before.len() implies !(#[trigger] before[i] is Resized) by {
            assert(before[i] == steps[i]);
        }
        law_geometry_is_the_last_report(size, resizable, before, last_report);
    }
}

/// The component counts as shown exactly if one of the steps since the window was opened
/// reported that it was, whatever the size of the window and whether or not it can be
/// resized.
pub proof fn law_shown_only_when_reported(size: WindowSize, resizable: bool, steps: Seq<Step>)
    ensures
        after_steps(WindowHandler::opened(size, resizable), steps).window_shown <==> exists|i: int|
            0 <= i < steps.len() && #[trigger] steps[i] == Step::Frame(FrameEvent::Shown),
    decreases steps.len(),
{
    if steps.len() > 0 {
        let before = steps.drop_last();
        law_shown_only_when_reported(size, resizable, before);
        assert forall|i: int| 0 <= i < before.len() implies #[trigger] before[i] == steps[i] by {}
        let opened = WindowHandler::opened(size, resizable);
        if after_steps(opened, before).window_shown {
            let i = choose|i: int|
                0 <= i < before.len() && #[trigger] before[i] == Step::Frame(FrameEvent::Shown);
            assert(steps[i] == Step::Frame(FrameEvent::Shown));
        } else if steps.last() == Step::Frame(FrameEvent::Shown) {
            assert(steps[steps.len() - 1] == Step::Frame(FrameEvent::Shown));
        } else {
            assert forall|i: int| 0 <= i < steps.len() implies #[trigger] steps[i] != Step::Frame(
                FrameEvent::Shown,
            ) by {
                if i < before.len() {
                    assert(before[i] != Step::Frame(FrameEvent::Shown));
                }
            }
        }
    }
}

/// The frame events among the steps, in their order.
pub open spec fn frame_events(steps: Seq<Step>) -> Seq<FrameEvent>
    decreases steps.len(),
{
    if steps.len() == 0 {
        Seq::empty()
    } else {
        match steps.last() {
            Step::Frame(event) => frame_events(steps.drop_last()).push(event),
            _ => frame_events(steps.drop_last()),
        }
    }
}

/// Whether the component has been shown does not depend on what comes later.
proof fn lemma_shown_by_earlier(events: Seq<FrameEvent>, later: FrameEvent, n: int)
    requires
        0 <= n <= events.len(),
    ensures
        shown_by(events.push(later), n) == shown_by(events, n),
    decreases n,
{
    if n > 0 {
        lemma_shown_by_earlier(events, later, n - 1);
    }
}

/// A window that was opened and then went through some steps takes the next step of a frame
/// as the frame events among them demand; what holds of the actions in a history of frames
/// holds of the actions of every window.
pub proof fn law_opened_window_lives_a_history(
    size: WindowSize,
    resizable: bool,
    steps: Seq<Step>,
    event: FrameEvent,
)
    ensures
        ({
            let handler = after_steps(WindowHandler::opened(size, resizable), steps);
            let events = frame_events(steps);
            &&& handler.window_shown == shown_by(events, events.len() as int)
            &&& next_action(handler.window_shown, event) == action_at(
                events.push(event),
                events.len() as int,
            )
        }),
    decreases steps.len(),
{
    let events = frame_events(steps);
    if steps.len() > 0 {
        let before = steps.drop_last();
        law_opened_window_lives_a_history(size, resizable, before, event);
        match steps.last() {
            Step::Frame(last) => {
                let earlier = frame_events(before);
                lemma_shown_by_earlier(earlier, last, earlier.len() as int);
            },
            _ => {},
        }
    }
    lemma_shown_by_earlier(events, event, events.len() as int);
}

/// What is saved after a step: only a report of the windowing system changes it.
pub open spec fn saved_after_step(state: SlintEditorState, step: Step) -> SlintEditorState {
    match step {
        Step::Resized(size) => size.persisted(),
        _ => state,
    }
}

/// What is saved after a sequence of steps.
pub open spec fn saved_after_steps(state: SlintEditorState, steps: Seq<Step>) -> SlintEditorState
    decreases steps.len(),
{
    if steps.len() == 0 {
        state
    } else {
        saved_after_step(saved_after_steps(state, steps.drop_last()), steps.last())
    }
}

/// What is saved is what the window last reported; a window that was opened and reported
/// nothing since keeps the size that was saved before it, with its own scale factor. The
/// saved scale factor is that of the window throughout.
pub proof fn law_saved_state_is_the_last_report(
    state: SlintEditorState,
    size: WindowSize,
    resizable: bool,
    steps: Seq<Step>,
    last_report: int,
)
    requires
        -1 <= last_report < steps.len(),
        last_report >= 0 ==> steps[last_report] is Resized,
        forall|i: int| last_report < i < steps.len() ==> !(#[trigger] steps[i] is Resized),
    ensures
        ({
            let opened = WindowHandler::saved_on_open(state, size);
            let saved = saved_after_steps(opened, steps);
            let handler = after_steps(WindowHandler::opened(size, resizable), steps);
            &&& saved == (if last_report >= 0 {
                steps[last_report]->Resized_0.persisted()
            } else {
                opened
            })
            &&& opened.size == state.size
            &&& saved.scale_factor == handler.scale_factor
        }),
    decreases steps.len(),
{
    law_geometry_is_the_last_report(size, resizable, steps, last_report);
    if steps.len() > 0 && last_report < steps.len() - 1 {
        let before = steps.drop_last();
        assert(!(steps[steps.len() - 1] is Resized));
        assert forall|i: int| last_report < i < before.len() implies !(#[trigger] before[i] is Resized) by {
            assert(before[i] == steps[i]);
        }
        law_saved_state_is_the_last_report(state, size, resizable, before, last_report);
    }
}

/// The adapter slot after windows with these adapters were opened, one after the other.
pub open spec fn after_opening<A>(adapters: Seq<A>) -> CurrentAdapter<A>
    decreases adapters.len(),
{
    if adapters.len() == 0 {
        CurrentAdapter { current: None }
    } else {
        after_opening(adapters.drop_last()).installed(adapters.last())
    }
}

/// A component gets the adapter of the window that was opened last, however many were
/// opened before; without any window there is no adapter.
pub proof fn law_component_gets_latest_adapter<A>(adapters: Seq<A>)
    ensures
        after_opening(adapters).provided() == (if adapters.len() == 0 {
            Err::<A, PlatformError>(PlatformError::NoAdapter)
        } else {
            Ok::<A, PlatformError>(adapters.last())
        }),
{
}

// ---------------------------------------------------------------------------
// Editors
// ---------------------------------------------------------------------------

/// The options of an editor can be given in any order, and of one given twice the last
/// counts.
pub proof fn law_editor_options_are_independent<H, F, S, E>(
    editor: SlintEditor<H, F, S, E>,
    setup: S,
    other_setup: S,
    event_loop: E,
    other_event_loop: E,
    resizable: bool,
    other_resizable: bool,
)
    ensures
        editor.setup_set(setup).event_loop_set(event_loop) == editor.event_loop_set(
            event_loop,
        ).setup_set(setup),
        editor.setup_set(setup).resizable_set(resizable) == editor.resizable_set(
            resizable,
        ).setup_set(setup),
        editor.event_loop_set(event_loop).resizable_set(resizable) == editor.resizable_set(
            resizable,
        ).event_loop_set(event_loop),
        editor.setup_set(other_setup).setup_set(setup) == editor.setup_set(setup),
        editor.event_loop_set(other_event_loop).event_loop_set(event_loop)
            == editor.event_loop_set(event_loop),
        editor.resizable_set(other_resizable).resizable_set(resizable) == editor.resizable_set(
            resizable,
        ),
{
}

} // verus!
