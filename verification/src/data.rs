//! The light state model: value types describing a light's colour mode,
//! brightness and on/off state, and its identity.

use vstd::prelude::*;

verus! {

/// Colour given as hue and saturation.
#[derive(Clone, Copy, PartialEq, Eq, Structural, Debug)]
pub struct Hs {
    /// Hue of the light. Both 0 and 65535 are red, 25500 is green and 46920 is blue.
    pub hue: u16,
    /// Saturation of the light. 254 is the most saturated (coloured) and 0 is the least (white).
    pub sat: u8,
}

/// Colour given as a point in the CIE colour space. The two coordinates are
/// carried as the raw bit patterns of the 32-bit fractions the fixture
/// reported; the library never computes with them, it only stores and
/// forwards them.
#[derive(Clone, Copy, PartialEq, Eq, Structural, Debug)]
pub struct Xy {
    pub x_bits: u32,
    pub y_bits: u32,
}

/// Colour given as a colour temperature.
#[derive(Clone, Copy, PartialEq, Eq, Structural, Debug)]
pub struct Ct {
    /// The mired colour temperature of the light.
    pub ct: u16,
}

/// Colour state of the light: exactly the one representation the fixture
/// last reported, never converted to another mode.
#[derive(Clone, Copy, PartialEq, Eq, Structural, Debug)]
pub enum ColorState {
    Hs(Hs),
    Xy(Xy),
    Ct(Ct),
}

/// State of the light.
#[derive(Clone, Copy, PartialEq, Eq, Structural, Debug)]
pub struct LightState {
    /// Whether the light is on.
    pub on: bool,
    /// Brightness of the light, from the minimum capable brightness, 1, to the maximum, 254.
    pub bri: u8,
    pub color: ColorState,
}

/// Details about a specific light.
#[derive(Debug)]
pub struct Light {
    /// Ephemeral handle used to issue commands; only valid for the lifetime
    /// of the current bridge connection, never a store key.
    pub id: usize,
    /// The name given to the light.
    pub name: String,
    /// The hardware model of the light.
    pub modelid: String,
    /// The version of the software running on the light.
    pub swversion: String,
    /// Durable unique hardware identifier of the light; the key used by the
    /// snapshot store.
    pub uniqueid: String,
    /// The last reported state of the light.
    pub state: LightState,
}

impl Clone for Light {
    fn clone(&self) -> (r: Light)
        ensures
            r == *self,
    {
        Light {
            id: self.id,
            name: self.name.clone(),
            modelid: self.modelid.clone(),
            swversion: self.swversion.clone(),
            uniqueid: self.uniqueid.clone(),
            state: self.state,
        }
    }
}

impl Light {
    /// Bundles the plain fields read off a freshly fetched light into a `Light`.
    pub fn make(
        id: usize,
        name: String,
        modelid: String,
        swversion: String,
        uniqueid: String,
        state: LightState,
    ) -> (l: Light)
        ensures
            l == (Light { id, name, modelid, swversion, uniqueid, state }),
    {
        Light { id, name, modelid, swversion, uniqueid, state }
    }
}

/// The view of an optional string.
pub open spec fn opt_str_view(s: &Option<String>) -> Option<Seq<char>> {
    match s {
        None => None,
        Some(m) => Some(m@),
    }
}

/// The light state that a set of raw colour-mode fields denotes, or nothing
/// when the mode tag is missing or unsupported, or the field the tag selects
/// is missing.
pub open spec fn spec_state_from_parts(
    on: bool,
    bri: u8,
    colormode: Option<Seq<char>>,
    hue: Option<u16>,
    sat: Option<u8>,
    xy_bits: Option<(u32, u32)>,
    ct: Option<u16>,
) -> Option<LightState> {
    match colormode {
        None => None,
        Some(mode) => if mode == "hs"@ {
            match (hue, sat) {
                (Some(h), Some(s)) => Some(
                    LightState { on, bri, color: ColorState::Hs(Hs { hue: h, sat: s }) },
                ),
                _ => None,
            }
        } else if mode == "xy"@ {
            match xy_bits {
                Some(xy) => Some(
                    LightState { on, bri, color: ColorState::Xy(Xy { x_bits: xy.0, y_bits: xy.1 }) },
                ),
                None => None,
            }
        } else if mode == "ct"@ {
            match ct {
                Some(c) => Some(LightState { on, bri, color: ColorState::Ct(Ct { ct: c }) }),
                None => None,
            }
        } else {
            None
        },
    }
}

impl LightState {
    /// Builds a `LightState` from the plain fields a freshly fetched light
    /// reports: the on/off flag, the brightness, the colour-mode tag, and
    /// one optional field per colour mode, of which exactly the one the tag
    /// selects is read.
    pub fn from_parts(
        on: bool,
        bri: u8,
        colormode: &Option<String>,
        hue: Option<u16>,
        sat: Option<u8>,
        xy_bits: Option<(u32, u32)>,
        ct: Option<u16>,
    ) -> (r: Option<LightState>)
        ensures
            r == spec_state_from_parts(on, bri, opt_str_view(colormode), hue, sat, xy_bits, ct),
    {
        match colormode {
            None => None,
            Some(mode) => {
                let hs_tag: String = "hs".to_owned();
                let xy_tag: String = "xy".to_owned();
                let ct_tag: String = "ct".to_owned();
                if *mode == hs_tag {
                    match (hue, sat) {
                        (Some(h), Some(s)) => Some(
                            LightState { on, bri, color: ColorState::Hs(Hs { hue: h, sat: s }) },
                        ),
                        _ => None,
                    }
                } else if *mode == xy_tag {
                    match xy_bits {
                        Some(xy) => Some(
                            LightState {
                                on,
                                bri,
                                color: ColorState::Xy(Xy { x_bits: xy.0, y_bits: xy.1 }),
                            },
                        ),
                        None => None,
                    }
                } else if *mode == ct_tag {
                    match ct {
                        Some(c) => Some(
                            LightState { on, bri, color: ColorState::Ct(Ct { ct: c }) },
                        ),
                        None => None,
                    }
                } else {
                    None
                }
            },
        }
    }
}

} // verus!
