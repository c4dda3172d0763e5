//! What happens in a frame, step by step.
//!
//! The caller reports what became of the last step and is told the next one. The first
//! frame shows the component and runs the setup handler; every frame runs the event loop
//! handler, advances timers and animations, and draws if there is something to draw with.
use crate::handler::WindowHandler;
use vstd::prelude::*;

verus! {

/// What became of the last step.
#[derive(Clone, Copy, Debug, PartialEq, Eq, Structural)]
pub enum FrameEvent {
    /// A frame begins.
    Started,
    /// The component was shown.
    Shown,
    /// The component could not be shown.
    ShowFailed,
    /// The setup handler has returned.
    SetupDone,
    /// The event loop handler has returned.
    EventLoopDone,
    /// Timers and animations were advanced; the renderer does or does not exist by now.
    TimersUpdated { renderer_exists: bool },
    /// The component was drawn.
    Rendered,
    /// The component could not be drawn.
    RenderFailed,
}

/// What to do next.
#[derive(Clone, Copy, Debug, PartialEq, Eq, Structural)]
pub enum FrameAction {
    /// Show the component.
    Show,
    /// Run the setup handler.
    RunSetup,
    /// Run the event loop handler.
    RunEventLoop,
    /// Advance timers and animations.
    UpdateTimers,
    /// Draw the component.
    Render,
    /// The frame is done.
    Finish,
    /// The frame has failed: report the error to the windowing system.
    Fail,
    /// Nothing sensible can be done: panic.
    Panic,
}

/// What to do after an event of a frame, in a window whose component has or has not been
/// shown before.
pub open spec fn next_action(shown: bool, event: FrameEvent) -> FrameAction {
    match event {
        FrameEvent::Started => if shown {
            FrameAction::RunEventLoop
        } else {
            FrameAction::Show
        },
        FrameEvent::Shown => FrameAction::RunSetup,
        FrameEvent::ShowFailed => FrameAction::Panic,
        FrameEvent::SetupDone => FrameAction::RunEventLoop,
        FrameEvent::EventLoopDone => FrameAction::UpdateTimers,
        FrameEvent::TimersUpdated { renderer_exists } => if renderer_exists {
            FrameAction::Render
        } else {
            FrameAction::Finish
        },
        FrameEvent::Rendered => FrameAction::Finish,
        FrameEvent::RenderFailed => FrameAction::Fail,
    }
}

/// Whether the component has been shown, after an event of a frame.
pub open spec fn shown_after(shown: bool, event: FrameEvent) -> bool {
    shown || event is Shown
}

impl WindowHandler {
    /// Takes the next step of a frame.
    pub fn on_frame(&mut self, event: FrameEvent) -> (action: FrameAction)
        ensures
            action == next_action(old(self).window_shown, event),
            *final(self) == (WindowHandler {
                window_shown: shown_after(old(self).window_shown, event),
                ..*old(self)
            }),
            old(self).well_formed() ==> final(self).well_formed(),
    {
        match event {
            FrameEvent::Started => {
                if self.window_shown {
                    FrameAction::RunEventLoop
                } else {
                    FrameAction::Show
                }
            },
            FrameEvent::Shown => {
                self.window_shown = true;
                FrameAction::RunSetup
            },
            FrameEvent::ShowFailed => FrameAction::Panic,
            FrameEvent::SetupDone => FrameAction::RunEventLoop,
            FrameEvent::EventLoopDone => FrameAction::UpdateTimers,
            FrameEvent::TimersUpdated { renderer_exists } => {
                if renderer_exists {
                    FrameAction::Render
                } else {
                    FrameAction::Finish
                }
            },
            FrameEvent::Rendered => FrameAction::Finish,
            FrameEvent::RenderFailed => FrameAction::Fail,
        }
    }
}

/// Whether an event can follow an action: it reports what became of that action, or
/// begins the next frame where the action ended one.
pub open spec fn answers(action: FrameAction, event: FrameEvent) -> bool {
    match action {
        FrameAction::Show => event is Shown || event is ShowFailed,
        FrameAction::RunSetup => event is SetupDone,
        FrameAction::RunEventLoop => event is EventLoopDone,
        FrameAction::UpdateTimers => event is TimersUpdated,
        FrameAction::Render => event is Rendered || event is RenderFailed,
        FrameAction::Finish => event is Started,
        FrameAction::Fail => event is Started,
        FrameAction::Panic => false,
    }
}

/// Whether the component has been shown after the first `n` events in the life of a window.
pub open spec fn shown_by(events: Seq<FrameEvent>, n: int) -> bool
    decreases n,
{
    if n <= 0 {
        false
    } else {
        shown_after(shown_by(events, n - 1), events[n - 1])
    }
}

/// The action that follows the event number `i` in the life of a window.
pub open spec fn action_at(events: Seq<FrameEvent>, i: int) -> FrameAction {
    next_action(shown_by(events, i), events[i])
}

/// Whether the event number `i` can follow the one before it.
pub open spec fn follows(events: Seq<FrameEvent>, i: int) -> bool {
    if i == 0 {
        events[0] is Started
    } else {
        answers(action_at(events, i - 1), events[i])
    }
}

/// Whether these can be all the frame events in the life of a window so far.
pub open spec fn is_history(events: Seq<FrameEvent>) -> bool {
    forall|i: int| 0 <= i < events.len() ==> #[trigger] follows(events, i)
}

/// Once shown, a component counts as shown; and it counts as shown only once it was.
proof fn lemma_shown(events: Seq<FrameEvent>, n: int)
    requires
        0 <= n <= events.len(),
    ensures
        forall|k: int| 0 <= k < n && #[trigger] events[k] is Shown ==> shown_by(events, n),
        shown_by(events, n) ==> exists|k: int| 0 <= k < n && #[trigger] events[k] is Shown,
    decreases n,
{
    if n > 0 {
        lemma_shown(events, n - 1);
        if shown_by(events, n) && !(events[n - 1] is Shown) {
            let k = choose|k: int| 0 <= k < n - 1 && #[trigger] events[k] is Shown;
            assert(0 <= k < n && events[k] is Shown);
        }
    }
}

/// The setup handler runs at most once in the life of a window, however many frames it has.
pub proof fn law_setup_runs_at_most_once(events: Seq<FrameEvent>, i: int, j: int)
    requires
        is_history(events),
        0 <= i < j < events.len(),
        action_at(events, i) is RunSetup,
    ensures
        !(action_at(events, j) is RunSetup),
{
    if action_at(events, j) is RunSetup {
        assert(events[j] is Shown);
        assert(follows(events, j));
        assert(action_at(events, j - 1) is Show);
        assert(!shown_by(events, j - 1));
        lemma_shown(events, j - 1);
        assert(events[i] is Shown);
        assert(events[j - 1] is Started);
    }
}

/// The event loop handler never runs before the setup handler has.
pub proof fn law_setup_precedes_event_loop(events: Seq<FrameEvent>, j: int) -> (i: int)
    requires
        is_history(events),
        0 <= j < events.len(),
        action_at(events, j) is RunEventLoop,
    ensures
        0 <= i < j,
        action_at(events, i) is RunSetup,
{
    if events[j] is Started {
        lemma_shown(events, j);
        let k = choose|k: int| 0 <= k < j && #[trigger] events[k] is Shown;
        assert(action_at(events, k) is RunSetup);
        k
    } else {
        assert(events[j] is SetupDone);
        assert(follows(events, j));
        j - 1
    }
}

/// A frame that is done, or that failed, has run the event loop handler and then advanced
/// timers and animations.
pub proof fn law_every_frame_runs_event_loop(events: Seq<FrameEvent>, j: int) -> (i: int)
    requires
        is_history(events),
        0 <= j < events.len(),
        action_at(events, j) is Finish || action_at(events, j) is Fail,
    ensures
        0 <= i < i + 1 < j,
        action_at(events, i) is RunEventLoop,
        action_at(events, i + 1) is UpdateTimers,
        forall|k: int| i < k <= j ==> !(#[trigger] events[k] is Started),
{
    assert(follows(events, j));
    let t = if events[j] is TimersUpdated {
        j
    } else {
        assert(action_at(events, j - 1) is Render);
        j - 1
    };
    assert(events[t] is TimersUpdated);
    assert(follows(events, t));
    assert(events[t - 1] is EventLoopDone);
    assert(follows(events, t - 1));
    t - 2
}

/// The event loop handler runs once per frame: between two of its runs a frame begins.
pub proof fn law_event_loop_runs_once_per_frame(events: Seq<FrameEvent>, i: int, j: int) -> (k: int)
    requires
        is_history(events),
        0 <= i < j < events.len(),
        action_at(events, i) is RunEventLoop,
        action_at(events, j) is RunEventLoop,
    ensures
        i < k <= j,
        events[k] is Started,
{
    assert(follows(events, i + 1));
    assert(events[i + 1] is EventLoopDone);
    assert(follows(events, i + 2));
    assert(events[i + 2] is TimersUpdated);
    assert(follows(events, i + 3));
    if action_at(events, i + 2) is Render {
        assert(follows(events, i + 4));
        i + 4
    } else {
        i + 3
    }
}

/// The component is shown once in the life of a window: at the beginning of its first frame.
pub proof fn law_component_is_shown_in_first_frame(events: Seq<FrameEvent>, i: int)
    requires
        is_history(events),
        0 <= i < events.len(),
    ensures
        action_at(events, i) is Show <==> i == 0,
{
    assert(follows(events, i));
    if i > 0 && action_at(events, i) is Show {
        assert(action_at(events, i - 1) is Finish || action_at(events, i - 1) is Fail);
        let ran = law_every_frame_runs_event_loop(events, i - 1);
        let set_up = law_setup_precedes_event_loop(events, ran);
        assert(events[set_up] is Shown);
        lemma_shown(events, i);
    }
}

} // verus!
