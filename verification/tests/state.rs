use nice_plug_core::editor::dpi::{LogicalSize, NativeSize, Size};
use nice_plug_slint::state::{
    default_height, default_scale_factor, default_width, native_size, PersistedState, SlintEditorState,
};

fn from_json(text: &str) -> SlintEditorState {
    let value: serde_json::Value = serde_json::from_str(text).unwrap();
    let side = |i: usize| value["size"][i].as_u64().unwrap() as u32;
    SlintEditorState::from_persisted(PersistedState {
        size: (side(0), side(1)),
        scale_factor: value
            .get("scale_factor")
            .map(|scale| scale.as_f64().unwrap().to_bits()),
    })
}

fn to_json(state: &SlintEditorState) -> String {
    let saved = state.to_persisted();
    let mut object = serde_json::Map::new();
    object.insert(
        "size".to_string(),
        serde_json::Value::from(vec![saved.size.0, saved.size.1]),
    );
    if let Some(bits) = saved.scale_factor {
        object.insert(
            "scale_factor".to_string(),
            serde_json::Value::from(f64::from_bits(bits)),
        );
    }
    serde_json::to_string(&serde_json::Value::Object(object)).unwrap()
}

fn native_pixels(state: &SlintEditorState) -> NativeSize<u32> {
    let size = native_size(state);
    NativeSize::from_size(
        Size::Logical(LogicalSize::new(
            f64::from_bits(size.logical.width),
            f64::from_bits(size.logical.height),
        )),
        f64::from_bits(size.scale_factor),
    )
}

#[test]
fn old_persisted_state_defaults_scale_factor_to_one() {
    let state = from_json(r#"{"size":[320, 200]}"#);

    assert_eq!(state.size(), (320, 200));
    assert_eq!(f64::from_bits(state.scale_factor()), 1.0);
}

#[test]
fn observed_scale_factor_survives_persistence_round_trip() {
    let mut state = SlintEditorState::new(320, 200);
    state.scale_factor = 1.75f64.to_bits();

    let serialized = to_json(&state);
    let restored = from_json(&serialized);

    assert_eq!(restored.size(), (320, 200));
    assert_eq!(f64::from_bits(restored.scale_factor()), 1.75);
}

#[test]
fn persisted_scale_factor_converts_logical_size_to_native_size() {
    let mut state = SlintEditorState::new(320, 200);
    state.scale_factor = 2.0f64.to_bits();

    let size = native_pixels(&state);
    if baseview::dpi::NativeSize::<u32>::IS_LOGICAL {
        assert_eq!((size.width, size.height), (320, 200));
    } else {
        assert_eq!((size.width, size.height), (640, 400));
    }
}

#[test]
fn invalid_persisted_scale_factor_falls_back_to_one() {
    let mut state = SlintEditorState::new(320, 200);
    state.scale_factor = f64::NAN.to_bits();

    assert_eq!(f64::from_bits(state.scale_factor()), 1.0);
    let size = native_pixels(&state);
    assert_eq!((size.width, size.height), (320, 200));
}

#[test]
fn every_unusable_scale_factor_falls_back_to_one() {
    for bad in [0.0, -0.0, -1.5, f64::INFINITY, f64::NEG_INFINITY, f64::NAN] {
        let mut state = SlintEditorState::new(1, 1);
        state.scale_factor = bad.to_bits();
        assert_eq!(f64::from_bits(state.scale_factor()), 1.0, "{bad}");
    }
    for good in [f64::from_bits(1), 0.5, 1.0, 1.25, 3.0, f64::MAX] {
        let mut state = SlintEditorState::new(1, 1);
        state.scale_factor = good.to_bits();
        assert_eq!(f64::from_bits(state.scale_factor()), good);
    }
}

#[test]
fn default_state_has_default_size_and_scale() {
    let state = SlintEditorState::default();
    assert_eq!(state.size(), (400, 300));
    assert_eq!((default_width(), default_height()), (400, 300));
    assert_eq!(f64::from_bits(default_scale_factor()), 1.0);
    assert_eq!(f64::from_bits(state.scale_factor()), 1.0);
}

#[test]
fn set_replaces_size_and_scale() {
    let mut state = SlintEditorState::default();
    let mut other = SlintEditorState::new(640, 480);
    other.scale_factor = 1.5f64.to_bits();
    state.set(other);
    assert_eq!(state, other);
    assert_eq!(state.map(|state| state.size.0 + state.size.1), 1120);
}

#[test]
fn saved_state_is_restored() {
    let mut state = SlintEditorState::new(17, 0);
    state.scale_factor = f64::NAN.to_bits();
    assert_eq!(SlintEditorState::from_persisted(state.to_persisted()), state);
}

#[test]
fn scale_of_one_keeps_every_size() {
    for (width, height) in [(0, 0), (1, 2), (320, 200), (16_777_217, 3), (u32::MAX, u32::MAX - 1)] {
        for stored in [1.0, 0.0, -2.0, f64::INFINITY, f64::NAN] {
            let mut state = SlintEditorState::new(width, height);
            state.scale_factor = stored.to_bits();
            let size = native_pixels(&state);
            assert_eq!((size.width, size.height), (width, height));
        }
    }
}
