//! How a window is opened, step by step.
//!
//! The UI toolkit may create its renderer as soon as a component is created. By then the
//! OpenGL context must be current and the adapter of the new window must be in place.
use vstd::prelude::*;

verus! {

/// What became of the last step.
#[derive(Clone, Copy, Debug, PartialEq, Eq, Structural)]
pub enum OpenEvent {
    /// The windowing system has made a window, with or without an OpenGL context.
    Started { has_gl_context: bool },
    /// The OpenGL context is current.
    MadeCurrent,
    /// The OpenGL context could not be made current.
    MakeCurrentFailed,
    /// The adapter of the window was made and is the current one.
    AdapterInstalled,
    /// The platform was offered to the UI toolkit, which accepts one per process.
    PlatformSet { accepted: bool },
    /// The component was created.
    ComponentCreated,
    /// The component could not be created.
    ComponentFailed,
}

/// What to do next.
#[derive(Clone, Copy, Debug, PartialEq, Eq, Structural)]
pub enum OpenAction {
    /// Make the OpenGL context current.
    MakeCurrent,
    /// Make the adapter of the window and install it as the current one.
    InstallAdapter,
    /// Offer the platform to the UI toolkit.
    SetPlatform,
    /// Create the component.
    CreateComponent,
    /// The window is open.
    Finish,
    /// The window cannot be opened: report the error to the windowing system.
    Fail,
    /// Nothing sensible can be done: panic.
    Panic,
}

/// What to do after an event of the opening of a window.
pub open spec fn next_action(event: OpenEvent) -> OpenAction {
    match event {
        OpenEvent::Started { has_gl_context } => if has_gl_context {
            OpenAction::MakeCurrent
        } else {
            OpenAction::Panic
        },
        OpenEvent::MadeCurrent => OpenAction::InstallAdapter,
        OpenEvent::MakeCurrentFailed => OpenAction::Fail,
        OpenEvent::AdapterInstalled => OpenAction::SetPlatform,
        OpenEvent::PlatformSet { accepted: _ } => OpenAction::CreateComponent,
        OpenEvent::ComponentCreated => OpenAction::Finish,
        OpenEvent::ComponentFailed => OpenAction::Panic,
    }
}

/// Takes the next step in opening a window.
pub fn on_open(event: OpenEvent) -> (action: OpenAction)
    ensures
        action == next_action(event),
{
    match event {
        OpenEvent::Started { has_gl_context } => {
            if has_gl_context {
                OpenAction::MakeCurrent
            } else {
                OpenAction::Panic
            }
        },
        OpenEvent::MadeCurrent => OpenAction::InstallAdapter,
        OpenEvent::MakeCurrentFailed => OpenAction::Fail,
        OpenEvent::AdapterInstalled => OpenAction::SetPlatform,
        OpenEvent::PlatformSet { accepted: _ } => OpenAction::CreateComponent,
        OpenEvent::ComponentCreated => OpenAction::Finish,
        OpenEvent::ComponentFailed => OpenAction::Panic,
    }
}

/// Whether an event reports what became of an action.
pub open spec fn answers(action: OpenAction, event: OpenEvent) -> bool {
    match action {
        OpenAction::MakeCurrent => event is MadeCurrent || event is MakeCurrentFailed,
        OpenAction::InstallAdapter => event is AdapterInstalled,
        OpenAction::SetPlatform => event is PlatformSet,
        OpenAction::CreateComponent => event is ComponentCreated || event is ComponentFailed,
        OpenAction::Finish => false,
        OpenAction::Fail => false,
        OpenAction::Panic => false,
    }
}

/// Whether the event number `i` can follow the one before it.
pub open spec fn follows(events: Seq<OpenEvent>, i: int) -> bool {
    if i == 0 {
        events[0] is Started
    } else {
        answers(next_action(events[i - 1]), events[i])
    }
}

/// Whether these can be all the events in the opening of a window so far.
pub open spec fn is_history(events: Seq<OpenEvent>) -> bool {
    forall|i: int| 0 <= i < events.len() ==> #[trigger] follows(events, i)
}

/// Where a component is created, the OpenGL context was made current before, and after
/// that the adapter of the window was installed.
pub proof fn law_component_needs_context_and_adapter(events: Seq<OpenEvent>, j: int)
    requires
        is_history(events),
        0 <= j < events.len(),
        next_action(events[j]) is CreateComponent,
    ensures
        j == 3,
        events[1] is MadeCurrent,
        events[2] is AdapterInstalled,
{
    assert(follows(events, j));
    assert(follows(events, j - 1));
    assert(follows(events, j - 2));
    assert(follows(events, j - 3));
}

/// A component is created at most once in the opening of a window.
pub proof fn law_component_is_created_at_most_once(events: Seq<OpenEvent>, i: int, j: int)
    requires
        is_history(events),
        0 <= i < events.len(),
        0 <= j < events.len(),
        next_action(events[i]) is CreateComponent,
        next_action(events[j]) is CreateComponent,
    ensures
        i == j,
{
    law_component_needs_context_and_adapter(events, i);
    law_component_needs_context_and_adapter(events, j);
}

/// Where the OpenGL context could not be made current, opening ends there: no adapter is
/// installed, neither before nor after.
pub proof fn law_no_adapter_without_context(events: Seq<OpenEvent>, failed: int, i: int)
    requires
        is_history(events),
        0 <= failed < events.len(),
        events[failed] is MakeCurrentFailed,
        0 <= i < events.len(),
    ensures
        failed == events.len() - 1,
        !(next_action(events[i]) is InstallAdapter),
        !(events[i] is AdapterInstalled),
{
    assert(follows(events, failed));
    assert(follows(events, failed - 1));
    assert(failed == 1);
    if events.len() > 2 {
        assert(follows(events, 2));
    }
}

/// The same events, but for whether the UI toolkit accepts the platform.
pub open spec fn with_platform(events: Seq<OpenEvent>, accepted: bool) -> Seq<OpenEvent> {
    Seq::new(
        events.len(),
        |i: int|
            if events[i] is PlatformSet {
                OpenEvent::PlatformSet { accepted }
            } else {
                events[i]
            },
    )
}

/// A window opens in the same way whether or not it is the first of the process, that is,
/// whether or not the UI toolkit accepts the platform.
pub proof fn law_reopening_is_opening(events: Seq<OpenEvent>, accepted: bool)
    requires
        is_history(events),
    ensures
        is_history(with_platform(events, accepted)),
        forall|i: int|
            0 <= i < events.len() ==> next_action(#[trigger] with_platform(events, accepted)[i])
                == next_action(events[i]),
{
    let other = with_platform(events, accepted);
    assert forall|i: int| 0 <= i < other.len() implies #[trigger] follows(other, i) by {
        assert(follows(events, i));
        if i > 0 {
            assert(next_action(other[i - 1]) == next_action(events[i - 1]));
        }
    }
}

/// A window opens within five steps, and only after its component was created.
pub proof fn law_open_window_has_component(events: Seq<OpenEvent>, j: int)
    requires
        is_history(events),
        0 <= j < events.len(),
        next_action(events[j]) is Finish,
    ensures
        j == 4,
        events[4] is ComponentCreated,
        next_action(events[3]) is CreateComponent,
{
    assert(follows(events, j));
    assert(follows(events, j - 1));
    assert(follows(events, j - 2));
    assert(follows(events, j - 3));
    if j > 4 {
        assert(follows(events, j - 4));
    }
}

} // verus!
