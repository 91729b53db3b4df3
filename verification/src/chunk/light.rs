//! The light record.  Its trailing switch-layer index exists on the wire
//! only from a fixed format version on; older records leave it absent.

use vstd::prelude::*;

use crate::algebra::{spec_parse_f32, FloatBits};
use crate::color::{spec_parse_rgba, Rgba};
use crate::decode::{spec_parse_i32, spec_parse_u32, Decode, DecodeError, NoCtx, PositionTracker};

verus! {

/// First format version whose light records carry a switch-layer index.
pub const LIGHT_SWITCH_LAYER_VERSION: i32 = 0x666 + 0x39;

#[derive(Clone, Copy, Debug, PartialEq, Eq)]
pub struct Light {
    pub base_flags: u32,
    pub light_type: i32,
    pub flags: u32,
    pub radius: FloatBits,
    pub light_color: Rgba,
    pub cone_angle: FloatBits,
    pub photon_light_abs_scale: FloatBits,
    pub light_switch_layer_index: Option<u32>,
}

impl DeepView for Light {
    type V = Light;

    open spec fn deep_view(&self) -> Light {
        *self
    }
}

/// The decoding context is the format version from the record's header.
pub open spec fn spec_parse_light(s: Seq<u8>, pos: int, version: i32) -> Result<
    (Light, int),
    DecodeError,
> {
    match spec_parse_u32(s, pos) {
        Err(e) => Err(e),
        Ok((base_flags, pos)) => match spec_parse_i32(s, pos) {
            Err(e) => Err(e),
            Ok((light_type, pos)) => match spec_parse_u32(s, pos) {
                Err(e) => Err(e),
                Ok((flags, pos)) => match spec_parse_f32(s, pos) {
                    Err(e) => Err(e),
                    Ok((radius, pos)) => match spec_parse_rgba(s, pos) {
                        Err(e) => Err(e),
                        Ok((light_color, pos)) => match spec_parse_f32(s, pos) {
                            Err(e) => Err(e),
                            Ok((cone_angle, pos)) => match spec_parse_f32(s, pos) {
                                Err(e) => Err(e),
                                Ok((photon_light_abs_scale, pos)) => if version
                                    >= LIGHT_SWITCH_LAYER_VERSION {
                                    match spec_parse_u32(s, pos) {
                                        Err(e) => Err(e),
                                        Ok((idx, pos)) => Ok(
                                            (
                                                Light {
                                                    base_flags,
                                                    light_type,
                                                    flags,
                                                    radius,
                                                    light_color,
                                                    cone_angle,
                                                    photon_light_abs_scale,
                                                    light_switch_layer_index: Some(idx),
                                                },
                                                pos,
                                            ),
                                        ),
                                    }
                                } else {
                                    Ok(
                                        (
                                            Light {
                                                base_flags,
                                                light_type,
                                                flags,
                                                radius,
                                                light_color,
                                                cone_angle,
                                                photon_light_abs_scale,
                                                light_switch_layer_index: None,
                                            },
                                            pos,
                                        ),
                                    )
                                },
                            },
                        },
                    },
                },
            },
        },
    }
}

impl Decode<i32> for Light {
    open spec fn spec_parse(s: Seq<u8>, pos: int, c: i32) -> Result<(Light, int), DecodeError> {
        spec_parse_light(s, pos, c)
    }

    proof fn parse_bounds(s: Seq<u8>, pos: int, c: i32) {
    }

    fn decode(r: &mut PositionTracker, c: i32) -> (res: Result<Light, DecodeError>) {
        let ghost s = old(r).data();
        let ghost p0 = old(r).pos();
        let base_flags = match r.read_u32() {
            Ok(v) => v,
            Err(e) => {
                proof {
                    assert(spec_parse_light(s, p0, c) == Err::<(Light, int), DecodeError>(e));
                }
                return Err(e);
            },
        };
        let light_type = match r.read_i32() {
            Ok(v) => v,
            Err(e) => {
                proof {
                    assert(spec_parse_light(s, p0, c) == Err::<(Light, int), DecodeError>(e));
                }
                return Err(e);
            },
        };
        let flags = match r.read_u32() {
            Ok(v) => v,
            Err(e) => {
                proof {
                    assert(spec_parse_light(s, p0, c) == Err::<(Light, int), DecodeError>(e));
                }
                return Err(e);
            },
        };
        let radius = match FloatBits::decode(r, NoCtx) {
            Ok(v) => v,
            Err(e) => {
                proof {
                    assert(spec_parse_light(s, p0, c) == Err::<(Light, int), DecodeError>(e));
                }
                return Err(e);
            },
        };
        let light_color = match Rgba::decode(r, NoCtx) {
            Ok(v) => v,
            Err(e) => {
                proof {
                    assert(spec_parse_light(s, p0, c) == Err::<(Light, int), DecodeError>(e));
                }
                return Err(e);
            },
        };
        let cone_angle = match FloatBits::decode(r, NoCtx) {
            Ok(v) => v,
            Err(e) => {
                proof {
                    assert(spec_parse_light(s, p0, c) == Err::<(Light, int), DecodeError>(e));
                }
                return Err(e);
            },
        };
        let photon_light_abs_scale = match FloatBits::decode(r, NoCtx) {
            Ok(v) => v,
            Err(e) => {
                proof {
                    assert(spec_parse_light(s, p0, c) == Err::<(Light, int), DecodeError>(e));
                }
                return Err(e);
            },
        };
        let light_switch_layer_index = if c >= LIGHT_SWITCH_LAYER_VERSION {
            match r.read_u32() {
                Ok(v) => Some(v),
                Err(e) => {
                    proof {
                        assert(spec_parse_light(s, p0, c) == Err::<(Light, int), DecodeError>(e));
                    }
                    return Err(e);
                },
            }
        } else {
            None
        };
        let out = Light {
            base_flags,
            light_type,
            flags,
            radius,
            light_color,
            cone_angle,
            photon_light_abs_scale,
            light_switch_layer_index,
        };
        proof {
            assert(spec_parse_light(s, p0, c) == Ok::<(Light, int), DecodeError>((out, r.pos())));
            assert(<Light as Decode<i32>>::spec_parse(s, p0, c) == spec_parse_light(s, p0, c));
        }
        Ok(out)
    }
}

/// Version gating: decoded against an older header version, a light leaves
/// its switch-layer index absent and consumes exactly the fixed fields;
/// from the threshold version on, the index is present and read.
pub proof fn lemma_light_version_gating(s: Seq<u8>, pos: int, version: i32)
    ensures
        match spec_parse_light(s, pos, version) {
            Ok((light, p)) => (version < LIGHT_SWITCH_LAYER_VERSION ==> light
                .light_switch_layer_index is None && p == pos + 28) && (version
                >= LIGHT_SWITCH_LAYER_VERSION ==> light.light_switch_layer_index is Some && p == pos
                + 32),
            Err(_) => true,
        },
{
}

} // verus!
