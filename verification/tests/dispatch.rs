use nice_plug_slint::adapter::PhysicalSize;
use nice_plug_slint::dispatch::{scroll_deltas, PIXELS_PER_LINE};
use nice_plug_slint::event::{
    Event, EventStatus, LogicalPosition, MouseButton, MouseEvent, PhysicalPosition,
    PointerEventButton, ScrollDelta, ScrollDistance, WindowChange, WindowEvent,
};
use nice_plug_slint::handler::{WindowHandler, WindowSize};
use nice_plug_slint::keys::{key_text, Code, Key, KeyState, KeyboardEvent};
use nice_plug_slint::resize::LogicalSize;
use nice_plug_slint::state::SlintEditorState;
use slint::platform::Key as SlintKey;

fn window_size(physical: (u32, u32), logical: (f64, f64), scale_factor: f64) -> WindowSize {
    WindowSize {
        physical: PhysicalSize {
            width: physical.0,
            height: physical.1,
        },
        logical: LogicalSize {
            width: logical.0.to_bits(),
            height: logical.1.to_bits(),
        },
        scale_factor: scale_factor.to_bits(),
    }
}

fn open_window() -> WindowHandler {
    let mut state = SlintEditorState::new(320, 200);
    WindowHandler::open(&mut state, window_size((640, 400), (320.0, 200.0), 2.0), true)
}

fn at(x: f64, y: f64) -> PhysicalPosition {
    PhysicalPosition {
        x: x.to_bits(),
        y: y.to_bits(),
    }
}

fn moved(x: f64, y: f64) -> Event {
    Event::Mouse(MouseEvent::CursorMoved { position: at(x, y) })
}

fn pressed(button: MouseButton) -> Event {
    Event::Mouse(MouseEvent::ButtonPressed { button })
}

fn released(button: MouseButton) -> Event {
    Event::Mouse(MouseEvent::ButtonReleased { button })
}

fn key(key: Key, code: Code, state: KeyState, repeat: bool) -> Event {
    Event::Keyboard(KeyboardEvent {
        key,
        code,
        state,
        repeat,
    })
}

fn typed(text: &str) -> Key {
    Key::Character(text.to_string())
}

#[test]
fn cursor_move_is_dispatched_in_logical_pixels() {
    let mut handler = open_window();
    let reaction = handler.on_event(moved(30.0, 50.0));
    let position = LogicalPosition {
        physical: at(30.0, 50.0),
        scale_factor: 2.0f64.to_bits(),
    };
    assert_eq!(reaction.dispatch, Some(WindowEvent::PointerMoved { position }));
    assert_eq!(handler.event_status(reaction.answer), EventStatus::Captured);
    assert_eq!(handler.last_cursor_pos, position);
}

#[test]
fn buttons_and_wheel_act_at_the_last_cursor_position() {
    let mut handler = open_window();
    handler.on_event(moved(1.0, 2.0));
    handler.on_event(moved(30.0, 50.0));
    handler.on_event(Event::Window(WindowChange::Focused));
    let position = LogicalPosition {
        physical: at(30.0, 50.0),
        scale_factor: 2.0f64.to_bits(),
    };
    assert_eq!(
        handler.on_event(pressed(MouseButton::Left)).dispatch,
        Some(WindowEvent::PointerPressed {
            button: PointerEventButton::Left,
            position
        })
    );
    assert_eq!(
        handler.on_event(released(MouseButton::Right)).dispatch,
        Some(WindowEvent::PointerReleased {
            button: PointerEventButton::Right,
            position
        })
    );
    let scrolled = handler.on_event(Event::Mouse(MouseEvent::WheelScrolled {
        delta: ScrollDelta::Lines {
            x: 0.5f32.to_bits(),
            y: (-3.0f32).to_bits(),
        },
    }));
    assert_eq!(
        scrolled.dispatch,
        Some(WindowEvent::PointerScrolled {
            position,
            delta_x: ScrollDistance {
                amount: 0.5f32.to_bits(),
                factor: 20
            },
            delta_y: ScrollDistance {
                amount: (-3.0f32).to_bits(),
                factor: 20
            },
        })
    );
    assert_eq!(handler.event_status(scrolled.answer), EventStatus::Captured);
}

#[test]
fn cursor_position_keeps_the_scale_factor_of_its_time() {
    let mut handler = open_window();
    let mut state = SlintEditorState::new(320, 200);
    handler.on_event(moved(30.0, 50.0));
    handler.handle_window_size(&mut state, window_size((320, 200), (320.0, 200.0), 1.0));
    assert_eq!(handler.last_cursor_pos.scale_factor, 2.0f64.to_bits());
    assert_eq!(
        handler.on_event(pressed(MouseButton::Left)).dispatch,
        Some(WindowEvent::PointerPressed {
            button: PointerEventButton::Left,
            position: LogicalPosition {
                physical: at(30.0, 50.0),
                scale_factor: 2.0f64.to_bits()
            }
        })
    );
    handler.on_event(moved(30.0, 50.0));
    assert_eq!(handler.last_cursor_pos.scale_factor, 1.0f64.to_bits());
}

#[test]
fn before_any_move_the_cursor_is_at_the_origin() {
    let mut handler = open_window();
    let reaction = handler.on_event(pressed(MouseButton::Middle));
    assert_eq!(
        reaction.dispatch,
        Some(WindowEvent::PointerPressed {
            button: PointerEventButton::Middle,
            position: LogicalPosition {
                physical: at(0.0, 0.0),
                scale_factor: 1.0f64.to_bits()
            }
        })
    );
}

#[test]
fn other_buttons_and_mouse_events_are_left_to_the_host() {
    let mut handler = open_window();
    let before = handler;
    for event in [
        pressed(MouseButton::Other),
        released(MouseButton::Other),
        Event::Mouse(MouseEvent::Other),
        Event::Other,
    ] {
        let reaction = handler.on_event(event);
        assert_eq!(reaction.dispatch, None);
        assert_eq!(handler.event_status(reaction.answer), EventStatus::Ignored);
    }
    assert_eq!(handler, before);
}

#[test]
fn leaving_cursor_is_dispatched() {
    let mut handler = open_window();
    let reaction = handler.on_event(Event::Mouse(MouseEvent::CursorLeft));
    assert_eq!(reaction.dispatch, Some(WindowEvent::PointerExited));
    assert_eq!(handler.event_status(reaction.answer), EventStatus::Captured);
}

#[test]
fn lines_scroll_by_twenty_pixels_each() {
    assert_eq!(PIXELS_PER_LINE, 20);
    let (x, y) = scroll_deltas(ScrollDelta::Lines {
        x: 1.5f32.to_bits(),
        y: 2.0f32.to_bits(),
    });
    assert_eq!(f32::from_bits(x.amount) * x.factor as f32, 30.0);
    assert_eq!(f32::from_bits(y.amount) * y.factor as f32, 40.0);
    let (x, y) = scroll_deltas(ScrollDelta::Pixels {
        x: 1.5f32.to_bits(),
        y: 2.0f32.to_bits(),
    });
    assert_eq!(f32::from_bits(x.amount) * x.factor as f32, 1.5);
    assert_eq!(f32::from_bits(y.amount) * y.factor as f32, 2.0);
}

#[test]
fn key_events_are_dispatched_and_passed_on_by_default() {
    let mut handler = open_window();
    let reaction = handler.on_event(key(typed("a"), Code::Other, KeyState::Down, false));
    assert_eq!(
        reaction.dispatch,
        Some(WindowEvent::KeyPressed {
            text: "a".to_string()
        })
    );
    assert_eq!(handler.event_status(reaction.answer), EventStatus::Ignored);
    let reaction = handler.on_event(key(typed("a"), Code::Other, KeyState::Down, true));
    assert_eq!(
        reaction.dispatch,
        Some(WindowEvent::KeyPressRepeated {
            text: "a".to_string()
        })
    );
    let reaction = handler.on_event(key(typed("a"), Code::Other, KeyState::Up, true));
    assert_eq!(
        reaction.dispatch,
        Some(WindowEvent::KeyReleased {
            text: "a".to_string()
        })
    );
}

#[test]
fn prevented_key_events_are_captured_until_allowed_again() {
    let mut handler = open_window();
    let event = || key(typed("a"), Code::Other, KeyState::Down, false);
    let by_default = handler.on_event(event());
    handler.set_prevent_key_event_propagation(true);
    let prevented = handler.on_event(event());
    assert_eq!(handler.event_status(prevented.answer), EventStatus::Captured);
    assert_eq!(prevented, by_default);
    handler.set_prevent_key_event_propagation(false);
    let allowed = handler.on_event(event());
    assert_eq!(handler.event_status(allowed.answer), EventStatus::Ignored);
    assert_eq!(allowed, by_default);
}

#[test]
fn status_of_a_key_event_is_settled_after_the_dispatch() {
    let mut handler = open_window();
    let reaction = handler.on_event(key(typed("a"), Code::Other, KeyState::Down, false));
    // While the toolkit is told, the UI asks to keep key events from the host.
    handler.set_prevent_key_event_propagation(true);
    assert_eq!(handler.event_status(reaction.answer), EventStatus::Captured);
    let reaction = handler.on_event(key(typed("a"), Code::Other, KeyState::Up, false));
    handler.set_prevent_key_event_propagation(false);
    assert_eq!(handler.event_status(reaction.answer), EventStatus::Ignored);
    // Nothing of the kind changes the status of other events.
    let reaction = handler.on_event(moved(1.0, 2.0));
    handler.set_prevent_key_event_propagation(true);
    assert_eq!(handler.event_status(reaction.answer), EventStatus::Captured);
    let reaction = handler.on_event(Event::Window(WindowChange::Focused));
    assert_eq!(handler.event_status(reaction.answer), EventStatus::Ignored);
}

#[test]
fn keys_without_text_are_dispatched_and_captured_on_demand() {
    for (prevented, status) in [(true, EventStatus::Captured), (false, EventStatus::Ignored)] {
        let mut handler = open_window();
        handler.set_prevent_key_event_propagation(prevented);
        for event in [
            key(Key::Named, Code::Other, KeyState::Down, false),
            key(typed(""), Code::Enter, KeyState::Down, false),
        ] {
            let reaction = handler.on_event(event);
            assert_eq!(
                reaction.dispatch,
                Some(WindowEvent::KeyPressed {
                    text: String::new()
                })
            );
            assert_eq!(handler.event_status(reaction.answer), status);
        }
        let reaction = handler.on_event(key(Key::Named, Code::Other, KeyState::Down, true));
        assert_eq!(
            reaction.dispatch,
            Some(WindowEvent::KeyPressRepeated {
                text: String::new()
            })
        );
        assert_eq!(handler.event_status(reaction.answer), status);
        let reaction = handler.on_event(key(Key::Named, Code::Other, KeyState::Up, false));
        assert_eq!(
            reaction.dispatch,
            Some(WindowEvent::KeyReleased {
                text: String::new()
            })
        );
        assert_eq!(handler.event_status(reaction.answer), status);
    }
}

#[test]
fn special_keys_have_the_text_that_slint_gives_them() {
    let table = [
        (Code::Enter, SlintKey::Return, '\u{a}'),
        (Code::Tab, SlintKey::Tab, '\u{9}'),
        (Code::Space, SlintKey::Space, ' '),
        (Code::Backspace, SlintKey::Backspace, '\u{8}'),
        (Code::Escape, SlintKey::Escape, '\u{1b}'),
        (Code::ArrowUp, SlintKey::UpArrow, '\u{f700}'),
        (Code::ArrowDown, SlintKey::DownArrow, '\u{f701}'),
        (Code::ArrowLeft, SlintKey::LeftArrow, '\u{f702}'),
        (Code::ArrowRight, SlintKey::RightArrow, '\u{f703}'),
        (Code::ShiftLeft, SlintKey::Shift, '\u{10}'),
        (Code::ShiftRight, SlintKey::ShiftR, '\u{15}'),
        (Code::ControlLeft, SlintKey::Control, '\u{11}'),
        (Code::ControlRight, SlintKey::ControlR, '\u{16}'),
        (Code::AltLeft, SlintKey::Alt, '\u{12}'),
        (Code::AltRight, SlintKey::AltGr, '\u{13}'),
        (Code::MetaLeft, SlintKey::Meta, '\u{17}'),
        (Code::MetaRight, SlintKey::MetaR, '\u{18}'),
    ];
    for (code, slint_key, character) in table {
        let text = key_text(Key::Named, code);
        assert_eq!(text, character.to_string(), "{code:?}");
        assert_eq!(text.as_str(), slint::SharedString::from(slint_key).as_str());
    }
    assert_eq!(key_text(Key::Named, Code::Other), "");
    assert_eq!(key_text(typed("x"), Code::Enter), "x");
}

#[test]
fn special_keys_are_told_apart() {
    assert_ne!(
        key_text(Key::Named, Code::ShiftLeft),
        key_text(Key::Named, Code::ShiftRight)
    );
    assert_ne!(
        key_text(Key::Named, Code::AltLeft),
        key_text(Key::Named, Code::AltRight)
    );
}

#[test]
fn window_changes_are_dispatched_and_passed_on() {
    let mut handler = open_window();
    for (change, told) in [
        (
            WindowChange::Focused,
            Some(WindowEvent::WindowActiveChanged(true)),
        ),
        (
            WindowChange::Unfocused,
            Some(WindowEvent::WindowActiveChanged(false)),
        ),
        (WindowChange::WillClose, Some(WindowEvent::CloseRequested)),
        (WindowChange::Other, None),
    ] {
        let reaction = handler.on_event(Event::Window(change));
        assert_eq!(reaction.dispatch, told);
        assert_eq!(handler.event_status(reaction.answer), EventStatus::Ignored);
    }
}

#[test]
fn resize_report_reaches_window_adapter_and_saved_state() {
    let mut handler = open_window();
    let mut state = SlintEditorState::new(320, 200);
    let events =
        handler.handle_window_size(&mut state, window_size((1201, 900), (800.75, 600.0), 1.5));
    assert_eq!(state.size(), (800, 600));
    assert_eq!(f64::from_bits(state.scale_factor()), 1.5);
    assert_eq!(f64::from_bits(handler.scale_factor), 1.5);
    assert_eq!(f64::from_bits(handler.adapter.scale_factor), 1.5);
    assert_eq!(
        handler.adapter.size(),
        PhysicalSize {
            width: 1201,
            height: 900
        }
    );
    assert_eq!(
        events,
        vec![
            WindowEvent::Resized {
                width: 800.75f64.to_bits(),
                height: 600.0f64.to_bits()
            },
            WindowEvent::ScaleFactorChanged {
                scale_factor: 1.5f64.to_bits()
            },
        ]
    );
}

#[test]
fn vanished_window_is_not_announced_as_resized() {
    for logical in [(0.0, 600.0), (800.0, 0.0), (-1.0, 5.0), (f64::NAN, 5.0)] {
        let mut handler = open_window();
        let mut state = SlintEditorState::new(320, 200);
        let events = handler.handle_window_size(&mut state, window_size((0, 900), logical, 1.5));
        assert_eq!(
            events,
            vec![WindowEvent::ScaleFactorChanged {
                scale_factor: 1.5f64.to_bits()
            }]
        );
        assert_eq!(state.size, (logical.0 as u32, logical.1 as u32));
    }
}

#[test]
fn last_of_two_sizes_wins() {
    let first = window_size((10, 10), (5.0, 5.0), 2.0);
    let second = window_size((30, 20), (30.0, 20.0), 1.0);
    let mut once = open_window();
    let mut twice = once;
    let mut saved_once = SlintEditorState::new(1, 1);
    let mut saved_twice = SlintEditorState::new(2, 2);
    once.handle_window_size(&mut saved_once, second);
    twice.handle_window_size(&mut saved_twice, first);
    twice.handle_window_size(&mut saved_twice, second);
    assert_eq!(once, twice);
    assert_eq!(saved_once, saved_twice);
}

#[test]
fn opening_records_the_scale_factor_and_keeps_the_saved_size() {
    let mut state = SlintEditorState::new(320, 200);
    let handler =
        WindowHandler::open(&mut state, window_size((1000, 800), (500.0, 400.0), 2.0), false);
    assert_eq!(state.size(), (320, 200));
    assert_eq!(f64::from_bits(state.scale_factor()), 2.0);
    assert_eq!(handler.adapter.size().width, 1000);
    assert_eq!(handler.adapter.size().height, 800);
    assert!(!handler.window_shown);
    assert!(!handler.prevent_key_event_propagation);
    assert!(!handler.resizable);
}

#[test]
fn a_line_scrolls_as_far_as_twenty_pixels() {
    let evaluate = |distance: ScrollDistance| f32::from_bits(distance.amount) * distance.factor as f32;
    for (x, y) in [(1.0f32, -1.0f32), (0.1, 3.7), (-0.0, 1e30)] {
        let (line_x, line_y) = scroll_deltas(ScrollDelta::Lines {
            x: x.to_bits(),
            y: y.to_bits(),
        });
        let (pixel_x, pixel_y) = scroll_deltas(ScrollDelta::Pixels {
            x: (x * 20.0).to_bits(),
            y: (y * 20.0).to_bits(),
        });
        assert_eq!(evaluate(line_x).to_bits(), evaluate(pixel_x).to_bits());
        assert_eq!(evaluate(line_y).to_bits(), evaluate(pixel_y).to_bits());
        assert_eq!(evaluate(pixel_x).to_bits(), (x * 20.0).to_bits());
    }
}
