//! The camera-projection record.

use vstd::prelude::*;

use crate::decode::{Decode, DecodeError, NoCtx, PositionTracker, spec_parse_i32};
use crate::algebra::{FloatBits, Rectangle, spec_parse_f32, spec_parse_rectangle};

verus! {

#[derive(Clone, Copy, Debug, PartialEq, Eq, Structural)]
pub struct CameraProjection {
    pub type_: i32,
    pub near_z: FloatBits,
    pub far_z: FloatBits,
    pub angle_y: FloatBits,
    pub rectangle: Rectangle,
}

impl DeepView for CameraProjection {
    type V = CameraProjection;

    open spec fn deep_view(&self) -> CameraProjection {
        *self
    }
}

pub open spec fn spec_parse_camera_projection(s: Seq<u8>, pos: int) -> Result<(CameraProjection, int), DecodeError> {
    match spec_parse_i32(s, pos) {
        Err(e) => Err(e),
        Ok((type_, pos)) => {
            match spec_parse_f32(s, pos) {
                Err(e) => Err(e),
                Ok((near_z, pos)) => {
                    match spec_parse_f32(s, pos) {
                        Err(e) => Err(e),
                        Ok((far_z, pos)) => {
                            match spec_parse_f32(s, pos) {
                                Err(e) => Err(e),
                                Ok((angle_y, pos)) => {
                                    match spec_parse_rectangle(s, pos) {
                                        Err(e) => Err(e),
                                        Ok((rectangle, pos)) => {
                                            Ok((
                                                CameraProjection {
                                                    type_: type_,
                                                    near_z: near_z,
                                                    far_z: far_z,
                                                    angle_y: angle_y,
                                                    rectangle: rectangle,
                                                },
                                                pos,
                                            ))
                                        },
                                    }
                                },
                            }
                        },
                    }
                },
            }
        },
    }
}

impl Decode<NoCtx> for CameraProjection {
    open spec fn spec_parse(s: Seq<u8>, pos: int, c: NoCtx) -> Result<(CameraProjection, int), DecodeError> {
        spec_parse_camera_projection(s, pos)
    }

    proof fn parse_bounds(s: Seq<u8>, pos: int, c: NoCtx) {
    }

    fn decode(r: &mut PositionTracker, c: NoCtx) -> (res: Result<CameraProjection, DecodeError>) {
        let ghost s = old(r).data();
        let ghost p0 = old(r).pos();
        let type_ = match r.read_i32() {
            Ok(v) => v,
            Err(e) => {
                proof {
                    assert(spec_parse_camera_projection(s, p0) == Err::<(CameraProjection, int), DecodeError>(e));
                    assert(<CameraProjection as Decode<NoCtx>>::spec_parse(s, p0, NoCtx) == spec_parse_camera_projection(s, p0));
                }
                return Err(e);
            },
        };
        let near_z = match FloatBits::decode(r, NoCtx) {
            Ok(v) => v,
            Err(e) => {
                proof {
                    assert(spec_parse_camera_projection(s, p0) == Err::<(CameraProjection, int), DecodeError>(e));
                    assert(<CameraProjection as Decode<NoCtx>>::spec_parse(s, p0, NoCtx) == spec_parse_camera_projection(s, p0));
                }
                return Err(e);
            },
        };
        let far_z = match FloatBits::decode(r, NoCtx) {
            Ok(v) => v,
            Err(e) => {
                proof {
                    assert(spec_parse_camera_projection(s, p0) == Err::<(CameraProjection, int), DecodeError>(e));
                    assert(<CameraProjection as Decode<NoCtx>>::spec_parse(s, p0, NoCtx) == spec_parse_camera_projection(s, p0));
                }
                return Err(e);
            },
        };
        let angle_y = match FloatBits::decode(r, NoCtx) {
            Ok(v) => v,
            Err(e) => {
                proof {
                    assert(spec_parse_camera_projection(s, p0) == Err::<(CameraProjection, int), DecodeError>(e));
                    assert(<CameraProjection as Decode<NoCtx>>::spec_parse(s, p0, NoCtx) == spec_parse_camera_projection(s, p0));
                }
                return Err(e);
            },
        };
        let rectangle = match Rectangle::decode(r, NoCtx) {
            Ok(v) => v,
            Err(e) => {
                proof {
                    assert(spec_parse_camera_projection(s, p0) == Err::<(CameraProjection, int), DecodeError>(e));
                    assert(<CameraProjection as Decode<NoCtx>>::spec_parse(s, p0, NoCtx) == spec_parse_camera_projection(s, p0));
                }
                return Err(e);
            },
        };
        let out = CameraProjection {
            type_,
            near_z,
            far_z,
            angle_y,
            rectangle,
        };
        proof {
            assert(spec_parse_camera_projection(s, p0) == Ok::<(CameraProjection, int), DecodeError>((out.deep_view(), r.pos())));
            assert(<CameraProjection as Decode<NoCtx>>::spec_parse(s, p0, NoCtx) == spec_parse_camera_projection(s, p0));
        }
        Ok(out)
    }
}

} // verus!
