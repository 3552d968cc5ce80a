use vstd::prelude::*;

verus! {

/// Power state of a light, as the payload names it.
#[derive(Debug, Clone, Copy, PartialEq, Eq, Structural)]
pub enum LightState {
    On,
    Off,
}

/// Colour temperature used by every payload this module builds.
pub const DEFAULT_COLOR_TEMP: u8 = 200;

/// Full brightness of a light (the scale runs from 0 to 254).
pub const MAX_BRIGHTNESS: u8 = 254;

/// A state change for one light: power, brightness (0..=254) and colour
/// temperature.
#[derive(Debug, Clone, Copy, PartialEq, Eq, Structural)]
pub struct LightPayload {
    pub state: LightState,
    pub brightness: u8,
    pub color_temp: u8,
}

/// Light on at the given brightness, default colour temperature.
pub open spec fn lit(brightness: u8) -> LightPayload {
    LightPayload { state: LightState::On, brightness, color_temp: DEFAULT_COLOR_TEMP }
}

/// Light off, brightness zero, default colour temperature.
pub open spec fn dark() -> LightPayload {
    LightPayload { state: LightState::Off, brightness: 0, color_temp: DEFAULT_COLOR_TEMP }
}

impl LightPayload {
    /// Light on at full brightness.
    pub fn on() -> (p: Self)
        ensures
            p == lit(MAX_BRIGHTNESS),
            payload_in_range(p),
    {
        Self { state: LightState::On, brightness: MAX_BRIGHTNESS, color_temp: DEFAULT_COLOR_TEMP }
    }

    /// Light off, brightness zero.
    pub fn off() -> (p: Self)
        ensures
            p == dark(),
            payload_in_range(p),
    {
        Self { state: LightState::Off, brightness: 0, color_temp: DEFAULT_COLOR_TEMP }
    }

    /// Light on at the given brightness, which the lights accept up to
    /// `MAX_BRIGHTNESS`.
    pub fn with_brightness(brightness: u8) -> (p: Self)
        requires
            brightness <= MAX_BRIGHTNESS,
        ensures
            p == lit(brightness),
            payload_in_range(p),
    {
        Self { state: LightState::On, brightness, color_temp: DEFAULT_COLOR_TEMP }
    }
}

/// Placeholder for a controller of plain lights; it holds no state.
pub struct LightsController {}

/// The payload stays in the ranges the lights accept: brightness 0..=254,
/// colour temperature 153..=454.
pub open spec fn payload_in_range(p: LightPayload) -> bool {
    &&& p.brightness <= MAX_BRIGHTNESS
    &&& 153 <= p.color_temp <= 454
}

/// Every payload this module builds is in range, `with_brightness` for any
/// level the lights accept.
pub proof fn lemma_payloads_in_range(level: u8)
    requires
        level <= MAX_BRIGHTNESS,
    ensures
        payload_in_range(lit(MAX_BRIGHTNESS)),
        payload_in_range(dark()),
        payload_in_range(lit(level)),
{
}

} // verus!
