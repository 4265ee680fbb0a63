//! The restore command builder: turns a remembered light state into the
//! command payload that re-applies that exact state.

use crate::data::ColorState;
use crate::data::Light;
use crate::data::LightState;
use vstd::prelude::*;

verus! {

/// A command to re-apply a light state: turn the light on, set its
/// brightness, and set its colour using exactly the one mode the remembered
/// state carries. Unset fields are left untouched by the bridge.
#[derive(Clone, Copy, PartialEq, Eq, Debug)]
pub struct RestoreCommand {
    pub on: bool,
    pub bri: u8,
    pub hue: Option<u16>,
    pub sat: Option<u8>,
    pub xy_bits: Option<(u32, u32)>,
    pub ct: Option<u16>,
}

/// The command that restores a remembered light state.
///
/// For a colour-temperature state the saturation is additionally forced to
/// its maximum, 254, to counteract fixtures that otherwise render
/// desaturated tones after power loss; this is a deliberate compensating
/// rule, not a general invariant.
pub open spec fn spec_restore_command(s: LightState) -> RestoreCommand {
    match s.color {
        ColorState::Hs(hs) => RestoreCommand {
            on: true,
            bri: s.bri,
            hue: Some(hs.hue),
            sat: Some(hs.sat),
            xy_bits: None,
            ct: None,
        },
        ColorState::Xy(xy) => RestoreCommand {
            on: true,
            bri: s.bri,
            hue: None,
            sat: None,
            xy_bits: Some((xy.x_bits, xy.y_bits)),
            ct: None,
        },
        ColorState::Ct(ct) => RestoreCommand {
            on: true,
            bri: s.bri,
            hue: None,
            sat: Some(254),
            xy_bits: None,
            ct: Some(ct.ct),
        },
    }
}

/// Builds the command that re-applies the remembered state of `light`.
/// Issuing the command to the bridge is the caller's responsibility.
pub fn build_restore_command(light: &Light) -> (cmd: RestoreCommand)
    ensures
        cmd == spec_restore_command(light.state),
{
    match light.state.color {
        ColorState::Hs(hs) => RestoreCommand {
            on: true,
            bri: light.state.bri,
            hue: Some(hs.hue),
            sat: Some(hs.sat),
            xy_bits: None,
            ct: None,
        },
        ColorState::Xy(xy) => RestoreCommand {
            on: true,
            bri: light.state.bri,
            hue: None,
            sat: None,
            xy_bits: Some((xy.x_bits, xy.y_bits)),
            ct: None,
        },
        ColorState::Ct(ct) => RestoreCommand {
            on: true,
            bri: light.state.bri,
            hue: None,
            sat: Some(254),
            xy_bits: None,
            ct: Some(ct.ct),
        },
    }
}

} // verus!
