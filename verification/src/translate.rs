//! The command translator: maps a light's merged logical state to a radio
//! command in the wire protocol's native ranges, or to `None` while the mode
//! or any mode-required field is still unknown.

use vstd::prelude::*;

use crate::protocol::{ModeType, State};

verus! {

/// A validated command for one light, ready for wire encoding. `CCT` carries
/// (dim 0..100, ct 0..100, gm 0..100); `HSI` carries (hue 0..360, sat 0..100,
/// dim 0..100).
#[derive(Debug, Clone, Copy, PartialEq, Eq, Structural)]
pub enum LightCommand {
    CCT(u8, u8, u8),
    HSI(u16, u8, u8),
}

/// Rescaling of a colour temperature in Kelvin to the wire range 0..100:
/// linear over the source range 2700..7500, saturating outside it.
pub open spec fn map_ct_spec(ct: u16) -> u8 {
    if ct < 2700 {
        0
    } else if ct > 7500 {
        100
    } else {
        (((ct - 2700) * 100) / 4800) as u8
    }
}

/// Rescaling of a green/magenta tint from -100..100 to the wire range 0..100,
/// saturating outside the source range.
pub open spec fn map_gm_spec(gm: i16) -> u8 {
    if gm < -100 {
        0
    } else if gm > 100 {
        100
    } else {
        (((gm + 100) / 2) as u8)
    }
}

/// Saturation of a value to an upper bound: values above `max` map to `max`
/// and never wrap around.
pub open spec fn cap_spec(v: u16, max: u16) -> u16 {
    if v > max {
        max
    } else {
        v
    }
}

/// What the translator returns for a given state: `None` while the mode or a
/// mode-required field is missing, otherwise the fully rescaled command.
pub open spec fn translate_spec(state: State) -> Option<LightCommand> {
    match state.mode {
        Some(ModeType::CCT) => {
            if state.dim is Some && state.ct is Some && state.gm is Some {
                Some(
                    LightCommand::CCT(
                        cap_spec(state.dim->0, 100) as u8,
                        map_ct_spec(state.ct->0),
                        map_gm_spec(state.gm->0),
                    ),
                )
            } else {
                None
            }
        },
        Some(ModeType::HSI) => {
            if state.hue is Some && state.sat is Some && state.dim is Some {
                Some(
                    LightCommand::HSI(
                        cap_spec(state.hue->0, 360),
                        cap_spec(state.sat->0, 100) as u8,
                        cap_spec(state.dim->0, 100) as u8,
                    ),
                )
            } else {
                None
            }
        },
        None => None,
    }
}

/// Translates a light's merged state into a radio command, validating and
/// rescaling every field into its wire range; returns `None` if and only if
/// the mode is unset or a field the mode requires is missing.
pub fn update_light(state: &State) -> (r: Option<LightCommand>)
    ensures
        r == translate_spec(*state),
{
    match state.mode {
        Some(ModeType::CCT) => {
            if let (Some(dim), Some(ct), Some(gm)) = (state.dim, state.ct, state.gm) {
                let ct_val: u8 = if ct < 2700 {
                    0
                } else if ct > 7500 {
                    100
                } else {
                    (((ct as u32) - 2700) * 100 / 4800) as u8
                };
                let gm_val: u8 = if gm < -100 {
                    0
                } else if gm > 100 {
                    100
                } else {
                    (((gm as i32) + 100) / 2) as u8
                };
                let dim_val: u8 = if dim > 100 {
                    100
                } else {
                    dim as u8
                };
                Some(LightCommand::CCT(dim_val, ct_val, gm_val))
            } else {
                None
            }
        },
        Some(ModeType::HSI) => {
            if let (Some(hue), Some(sat), Some(dim)) = (state.hue, state.sat, state.dim) {
                let hue_val: u16 = if hue > 360 {
                    360
                } else {
                    hue
                };
                let sat_val: u8 = if sat > 100 {
                    100
                } else {
                    sat as u8
                };
                let dim_val: u8 = if dim > 100 {
                    100
                } else {
                    dim as u8
                };
                Some(LightCommand::HSI(hue_val, sat_val, dim_val))
            } else {
                None
            }
        },
        None => None,
    }
}

/// The translator returns `None` whenever the mode is unset or any field the
/// mode requires is missing, regardless of what the other fields hold.
pub proof fn lemma_translate_incomplete(state: State)
    requires
        state.mode is None || (state.mode == Some(ModeType::CCT) && !(state.dim is Some
            && state.ct is Some && state.gm is Some)) || (state.mode == Some(ModeType::HSI) && !(
        state.hue is Some && state.sat is Some && state.dim is Some)),
    ensures
        translate_spec(state) is None,
{
}

/// Every value the translator emits is saturated into its wire range and
/// never wraps: dim, sat, gm and ct land in 0..100 and hue in 0..360, with
/// inputs above a range mapped to its maximum.
pub proof fn lemma_translate_saturates(state: State)
    ensures
        translate_spec(state) matches Some(LightCommand::CCT(dim, ct, gm)) ==> dim <= 100 && ct
            <= 100 && gm <= 100 && (state.dim->0 > 100 ==> dim == 100) && (state.ct->0 > 7500
            ==> ct == 100) && (state.gm->0 > 100 ==> gm == 100),
        translate_spec(state) matches Some(LightCommand::HSI(hue, sat, dim)) ==> hue <= 360 && sat
            <= 100 && dim <= 100 && (state.hue->0 > 360 ==> hue == 360) && (state.sat->0 > 100
            ==> sat == 100) && (state.dim->0 > 100 ==> dim == 100),
{
}

} // verus!
