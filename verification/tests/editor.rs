use nice_plug_core::editor::dpi::{LogicalSize as LogicalLimit, PhysicalSize as PhysicalLimit};
use nice_plug_core::editor::{ResizeHint as OutsideHint, SizeConstraints as OutsideConstraints};
use nice_plug_slint::adapter::{BaseviewSlintAdapter, CurrentAdapter, PhysicalSize, PlatformError};
use nice_plug_slint::editor::SlintEditor;
use nice_plug_slint::frame::{FrameAction, FrameEvent};
use nice_plug_slint::handler::{WindowHandler, WindowSize};
use nice_plug_slint::opening::{on_open, OpenAction, OpenEvent};
use nice_plug_slint::resize::{
    resize_hint, LogicalSize, NativeSize, ResizeError, ResizeHint, ResizeRequester,
    SizeConstraints, SlintEditorHandle,
};
use nice_plug_slint::state::SlintEditorState;

type Editor = SlintEditor<u8, &'static str, &'static str, &'static str>;

fn logical_limit((width, height): (u32, u32)) -> LogicalLimit<f32> {
    LogicalLimit::new(f32::from_bits(width), f32::from_bits(height))
}

fn same_hint(hint: ResizeHint, outside: OutsideHint) -> bool {
    OutsideHint {
        can_resize: hint.can_resize,
        can_resize_horizontally: hint.can_resize_horizontally,
        can_resize_vertically: hint.can_resize_vertically,
        preserve_aspect_ratio: hint.preserve_aspect_ratio,
        aspect_ratio_width: hint.aspect_ratio_width,
        aspect_ratio_height: hint.aspect_ratio_height,
        size_constraints: match hint.size_constraints {
            SizeConstraints::Logical { min_size, max_size } => OutsideConstraints::Logical {
                min_size: min_size.map(logical_limit),
                max_size: max_size.map(logical_limit),
            },
            SizeConstraints::Physical { min_size, max_size } => OutsideConstraints::Physical {
                min_size: min_size.map(|(width, height)| PhysicalLimit::new(width, height)),
                max_size: max_size.map(|(width, height)| PhysicalLimit::new(width, height)),
            },
        },
    } == outside
}

#[test]
fn resize_hint_is_opt_in() {
    assert!(same_hint(resize_hint(false), OutsideHint::NON_RESIZABLE));
    assert!(same_hint(resize_hint(true), OutsideHint::RESIZABLE));
    assert_ne!(resize_hint(false), resize_hint(true));
}

#[test]
fn resize_hint_locks_no_aspect_ratio_and_limits_no_size() {
    for resizable in [false, true] {
        assert_eq!(
            resize_hint(resizable),
            ResizeHint {
                can_resize: resizable,
                can_resize_horizontally: resizable,
                can_resize_vertically: resizable,
                preserve_aspect_ratio: false,
                aspect_ratio_width: 1,
                aspect_ratio_height: 1,
                size_constraints: SizeConstraints::Logical {
                    min_size: None,
                    max_size: None,
                },
            }
        );
    }
}

#[test]
fn new_editor_has_a_fixed_size_and_no_handlers() {
    let editor: Editor = SlintEditor::new(7, "factory");
    assert_eq!(editor.state, 7);
    assert_eq!(editor.component_factory, "factory");
    assert_eq!(editor.setup_handler, None);
    assert_eq!(editor.event_loop_handler, None);
    assert!(!editor.resizable);
    assert!(!editor.resize_hint().can_resize);
}

#[test]
fn editor_options_can_be_given_in_any_order() {
    let new = || -> Editor { SlintEditor::new(7, "factory") };
    let one = new().with_setup("s").with_event_loop("e").with_resizable(true);
    let other = new()
        .with_resizable(false)
        .with_resizable(true)
        .with_event_loop("e")
        .with_setup("t")
        .with_setup("s");
    assert_eq!(one.setup_handler, Some("s"));
    assert_eq!(one.event_loop_handler, Some("e"));
    assert!(one.resizable);
    assert_eq!(one.setup_handler, other.setup_handler);
    assert_eq!(one.event_loop_handler, other.event_loop_handler);
    assert_eq!(one.resizable, other.resizable);
}

#[test]
fn window_is_opened_at_the_saved_size() {
    let editor: Editor = SlintEditor::new(7, "factory").with_resizable(true);
    let mut state = SlintEditorState::new(320, 200);
    state.scale_factor = 1.75f64.to_bits();
    let (settings, handle) = editor.spawn(&state, true, None);
    assert_eq!(settings.title, "Plug-in");
    assert_eq!(settings.size.width, 320.0f64.to_bits());
    assert_eq!(settings.size.height, 200.0f64.to_bits());
    assert!(settings.wait_for_parent);
    assert_eq!(settings.fallback_scale_factor, Some(1.75f64.to_bits()));
    assert!(settings.resizable);
    assert_eq!(settings.gl_version, (3, 2));
    assert!(handle.resizable);
}

#[test]
fn scale_factor_of_the_host_comes_first() {
    let editor: Editor = SlintEditor::new(7, "factory");
    let mut state = SlintEditorState::new(320, 200);
    state.scale_factor = f64::NAN.to_bits();
    let (settings, handle) = editor.spawn(&state, false, Some(3.0f64.to_bits()));
    assert_eq!(settings.fallback_scale_factor, Some(3.0f64.to_bits()));
    assert!(!settings.wait_for_parent);
    assert!(!settings.resizable);
    assert!(!handle.resizable);
    let (settings, _) = editor.spawn(&state, false, None);
    assert_eq!(settings.fallback_scale_factor, Some(1.0f64.to_bits()));
}

#[test]
fn reopening_keeps_the_size() {
    let editor: Editor = SlintEditor::new(7, "factory");
    let mut state = SlintEditorState::new(321, 201);
    for _ in 0..3 {
        let (settings, _) = editor.spawn(&state, false, None);
        let reported = WindowSize {
            physical: PhysicalSize {
                width: 642,
                height: 402,
            },
            logical: settings.size,
            scale_factor: 2.0f64.to_bits(),
        };
        let mut handler = WindowHandler::open(&mut state, reported, editor.resizable);
        handler.handle_window_size(&mut state, reported);
        assert_eq!(state.size(), (321, 201));
        assert_eq!(f64::from_bits(state.scale_factor()), 2.0);
    }
}

#[test]
fn resize_request_is_checked() {
    let resizable = ResizeRequester { resizable: true };
    let fixed = ResizeRequester { resizable: false };
    assert_eq!(
        resizable.request_resize(640, 480),
        Ok(LogicalSize {
            width: 640.0f64.to_bits(),
            height: 480.0f64.to_bits()
        })
    );
    assert_eq!(fixed.request_resize(640, 480), Err(ResizeError::Disabled));
    for requester in [resizable, fixed] {
        assert_eq!(requester.request_resize(0, 480), Err(ResizeError::ZeroDimension));
        assert_eq!(requester.request_resize(640, 0), Err(ResizeError::ZeroDimension));
    }
}

#[test]
fn resize_errors_say_what_is_wrong() {
    assert_eq!(
        ResizeError::ZeroDimension.message(),
        "resize dimensions must be nonzero"
    );
    assert!(ResizeError::ZeroDimension.is_invalid_input());
    assert_eq!(
        ResizeError::Disabled.message(),
        "programmatic resizing is disabled for this editor"
    );
    assert!(!ResizeError::Disabled.is_invalid_input());
}

#[test]
fn resizable_means_the_same_everywhere() {
    let size = NativeSize {
        width: 5,
        height: 6,
    };
    for resizable in [false, true] {
        assert_eq!(resize_hint(resizable).can_resize, resizable);
        let handle = SlintEditorHandle { resizable };
        assert_eq!(handle.adjust_size(size), if resizable { Some(size) } else { None });
        let mut state = SlintEditorState::default();
        let report = WindowSize {
            physical: PhysicalSize {
                width: 1,
                height: 1,
            },
            logical: LogicalSize::from_pixels(1, 1),
            scale_factor: 1.0f64.to_bits(),
        };
        let handler = WindowHandler::open(&mut state, report, resizable);
        assert_eq!(handler.resize_requester().resizable, resizable);
        assert_eq!(handler.request_resize(5, 6).is_ok(), resizable);
    }
}

#[test]
fn adapter_reports_the_last_size() {
    let mut adapter = BaseviewSlintAdapter::new(640, 400, 2.0f64.to_bits());
    assert_eq!((adapter.size().width, adapter.size().height), (640, 400));
    adapter.update_size(800, 600, 1.0f64.to_bits());
    assert_eq!((adapter.size().width, adapter.size().height), (800, 600));
    assert_eq!(adapter.scale_factor, 1.0f64.to_bits());
}

#[test]
fn component_gets_the_latest_adapter() {
    let mut slot = CurrentAdapter::empty();
    assert_eq!(slot.create_window_adapter(), Err(PlatformError::NoAdapter));
    assert_eq!(PlatformError::NoAdapter.message(), "No adapter set");
    slot.install("first");
    assert_eq!(slot.create_window_adapter(), Ok(&"first"));
    slot.install("second");
    assert_eq!(slot.create_window_adapter(), Ok(&"second"));
    assert_eq!(slot.create_window_adapter(), Ok(&"second"));
}

/// Runs the steps of one frame in which everything succeeds.
fn frame(handler: &mut WindowHandler, renderer_exists: bool) -> Vec<FrameAction> {
    let mut actions = Vec::new();
    let mut event = FrameEvent::Started;
    loop {
        let action = handler.on_frame(event);
        actions.push(action);
        event = match action {
            FrameAction::Show => FrameEvent::Shown,
            FrameAction::RunSetup => FrameEvent::SetupDone,
            FrameAction::RunEventLoop => FrameEvent::EventLoopDone,
            FrameAction::UpdateTimers => FrameEvent::TimersUpdated { renderer_exists },
            FrameAction::Render => FrameEvent::Rendered,
            FrameAction::Finish | FrameAction::Fail | FrameAction::Panic => return actions,
        };
    }
}

fn some_window() -> WindowHandler {
    let report = WindowSize {
        physical: PhysicalSize {
            width: 1,
            height: 1,
        },
        logical: LogicalSize::from_pixels(1, 1),
        scale_factor: 1.0f64.to_bits(),
    };
    WindowHandler::open(&mut SlintEditorState::default(), report, false)
}

#[test]
fn setup_runs_in_the_first_frame_only() {
    let mut handler = some_window();
    assert_eq!(
        frame(&mut handler, false),
        vec![
            FrameAction::Show,
            FrameAction::RunSetup,
            FrameAction::RunEventLoop,
            FrameAction::UpdateTimers,
            FrameAction::Finish,
        ]
    );
    for _ in 0..2 {
        assert_eq!(
            frame(&mut handler, true),
            vec![
                FrameAction::RunEventLoop,
                FrameAction::UpdateTimers,
                FrameAction::Render,
                FrameAction::Finish,
            ]
        );
    }
}

#[test]
fn component_is_shown_once_and_the_event_loop_runs_once_per_frame() {
    let mut handler = some_window();
    let mut shown = 0;
    for renderer_exists in [false, true, true] {
        let actions = frame(&mut handler, renderer_exists);
        shown += actions.iter().filter(|a| **a == FrameAction::Show).count();
        let runs = actions.iter().filter(|a| **a == FrameAction::RunEventLoop);
        assert_eq!(runs.count(), 1);
    }
    assert_eq!(shown, 1);
}

#[test]
fn failures_end_a_frame() {
    let mut handler = some_window();
    assert_eq!(handler.on_frame(FrameEvent::Started), FrameAction::Show);
    assert_eq!(handler.on_frame(FrameEvent::ShowFailed), FrameAction::Panic);
    assert!(!handler.window_shown);
    assert_eq!(handler.on_frame(FrameEvent::RenderFailed), FrameAction::Fail);
}

#[test]
fn component_is_created_with_context_and_adapter_in_place() {
    for accepted in [true, false] {
        let events = [
            OpenEvent::Started {
                has_gl_context: true,
            },
            OpenEvent::MadeCurrent,
            OpenEvent::AdapterInstalled,
            OpenEvent::PlatformSet { accepted },
            OpenEvent::ComponentCreated,
        ];
        let actions: Vec<OpenAction> = events.iter().map(|event| on_open(*event)).collect();
        assert_eq!(
            actions,
            vec![
                OpenAction::MakeCurrent,
                OpenAction::InstallAdapter,
                OpenAction::SetPlatform,
                OpenAction::CreateComponent,
                OpenAction::Finish,
            ]
        );
    }
}

#[test]
fn failures_end_the_opening_of_a_window() {
    assert_eq!(
        on_open(OpenEvent::Started {
            has_gl_context: false
        }),
        OpenAction::Panic
    );
    assert_eq!(on_open(OpenEvent::MakeCurrentFailed), OpenAction::Fail);
    assert_eq!(on_open(OpenEvent::ComponentFailed), OpenAction::Panic);
}
