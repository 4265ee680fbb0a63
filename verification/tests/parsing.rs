use hue_persistence::data::ColorState;
use hue_persistence::data::LightState;

fn some(s: &str) -> Option<String> {
    Some(s.to_string())
}

#[test]
fn parses_hue_saturation_state() {
    let r = LightState::from_parts(true, 200, &some("hs"), Some(100), Some(200), None, None);
    let state = r.expect("a state");
    assert!(state.on);
    assert_eq!(state.bri, 200);
    match state.color {
        ColorState::Hs(hs) => {
            assert_eq!(hs.hue, 100);
            assert_eq!(hs.sat, 200);
        },
        _ => panic!("expected a hue/saturation colour"),
    }
}

#[test]
fn parses_xy_state() {
    let x = 0.675f32.to_bits();
    let y = 0.322f32.to_bits();
    let r = LightState::from_parts(false, 77, &some("xy"), None, None, Some((x, y)), None);
    let state = r.expect("a state");
    assert!(!state.on);
    assert_eq!(state.bri, 77);
    match state.color {
        ColorState::Xy(xy) => {
            assert_eq!(f32::from_bits(xy.x_bits), 0.675);
            assert_eq!(f32::from_bits(xy.y_bits), 0.322);
        },
        _ => panic!("expected an xy colour"),
    }
}

#[test]
fn parses_colour_temperature_state() {
    let r = LightState::from_parts(true, 1, &some("ct"), None, None, None, Some(366));
    let state = r.expect("a state");
    match state.color {
        ColorState::Ct(ct) => assert_eq!(ct.ct, 366),
        _ => panic!("expected a colour-temperature colour"),
    }
}

#[test]
fn missing_mode_tag_is_rejected() {
    assert_eq!(LightState::from_parts(true, 1, &None, Some(1), Some(1), None, None), None);
}

#[test]
fn unsupported_mode_tag_is_rejected() {
    assert_eq!(
        LightState::from_parts(true, 1, &some("rgb"), Some(1), Some(1), Some((1, 2)), Some(3)),
        None,
    );
}

#[test]
fn missing_selected_field_is_rejected() {
    // The tag selects a field that was not reported.
    assert_eq!(LightState::from_parts(true, 1, &some("hs"), Some(1), None, None, None), None);
    assert_eq!(LightState::from_parts(true, 1, &some("hs"), None, Some(1), None, None), None);
    assert_eq!(LightState::from_parts(true, 1, &some("xy"), None, None, None, Some(3)), None);
    assert_eq!(LightState::from_parts(true, 1, &some("ct"), Some(1), Some(1), None, None), None);
}

#[test]
fn only_the_selected_field_is_read() {
    // Extra fields are ignored; the tag decides.
    let r = LightState::from_parts(true, 9, &some("ct"), Some(5), Some(6), Some((7, 8)), Some(300));
    match r.expect("a state").color {
        ColorState::Ct(ct) => assert_eq!(ct.ct, 300),
        _ => panic!("expected a colour-temperature colour"),
    }
}
