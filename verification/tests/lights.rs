use son_of_anton::tools::lights::{LightPayload, LightState};

#[test]
fn on_is_full_brightness() {
    let p = LightPayload::on();
    assert_eq!(p.state, LightState::On);
    assert_eq!(p.brightness, 254);
    assert_eq!(p.color_temp, 200);
}

#[test]
fn off_is_dark() {
    let p = LightPayload::off();
    assert_eq!(p.state, LightState::Off);
    assert_eq!(p.brightness, 0);
    assert_eq!(p.color_temp, 200);
}

#[test]
fn with_brightness_keeps_level() {
    for level in [0u8, 1, 127, 253, 254] {
        let p = LightPayload::with_brightness(level);
        assert_eq!(p.state, LightState::On);
        assert_eq!(p.brightness, level);
        assert_eq!(p.color_temp, 200);
    }
}
