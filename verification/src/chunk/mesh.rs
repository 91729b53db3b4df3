//! The mesh (model group) record.

use vstd::prelude::*;

use crate::decode::{Decode, DecodeError, NoCtx, PositionTracker, spec_parse_bool, spec_parse_u16, spec_parse_u32};
use crate::algebra::{FloatBits, Vector3, spec_parse_f32, spec_parse_vector3};
use crate::bounding_box::{BoundingBox, spec_parse_bounding_box};

verus! {

#[derive(Clone, Copy, Debug, PartialEq, Eq, Structural)]
pub struct Mesh {
    pub flags: u32,
    pub material_blocks_count: u16,
    pub bounds: BoundingBox,
    pub center: Vector3,
    pub radius: FloatBits,
    pub have_bsp: bool,
}

impl DeepView for Mesh {
    type V = Mesh;

    open spec fn deep_view(&self) -> Mesh {
        *self
    }
}

pub open spec fn spec_parse_mesh(s: Seq<u8>, pos: int) -> Result<(Mesh, int), DecodeError> {
    match spec_parse_u32(s, pos) {
        Err(e) => Err(e),
        Ok((flags, pos)) => {
            match spec_parse_u16(s, pos) {
                Err(e) => Err(e),
                Ok((material_blocks_count, pos)) => {
                    match spec_parse_bounding_box(s, pos) {
                        Err(e) => Err(e),
                        Ok((bounds, pos)) => {
                            match spec_parse_vector3(s, pos) {
                                Err(e) => Err(e),
                                Ok((center, pos)) => {
                                    match spec_parse_f32(s, pos) {
                                        Err(e) => Err(e),
                                        Ok((radius, pos)) => {
                                            match spec_parse_bool(s, pos) {
                                                Err(e) => Err(e),
                                                Ok((have_bsp, pos)) => {
                                                    Ok((
                                                        Mesh {
                                                            flags: flags,
                                                            material_blocks_count: material_blocks_count,
                                                            bounds: bounds,
                                                            center: center,
                                                            radius: radius,
                                                            have_bsp: have_bsp,
                                                        },
                                                        pos,
                                                    ))
                                                },
                                            }
                                        },
                                    }
                                },
                            }
                        },
                    }
                },
            }
        },
    }
}

impl Decode<NoCtx> for Mesh {
    open spec fn spec_parse(s: Seq<u8>, pos: int, c: NoCtx) -> Result<(Mesh, int), DecodeError> {
        spec_parse_mesh(s, pos)
    }

    proof fn parse_bounds(s: Seq<u8>, pos: int, c: NoCtx) {
    }

    fn decode(r: &mut PositionTracker, c: NoCtx) -> (res: Result<Mesh, DecodeError>) {
        let ghost s = old(r).data();
        let ghost p0 = old(r).pos();
        let flags = match r.read_u32() {
            Ok(v) => v,
            Err(e) => {
                proof {
                    assert(spec_parse_mesh(s, p0) == Err::<(Mesh, int), DecodeError>(e));
                    assert(<Mesh as Decode<NoCtx>>::spec_parse(s, p0, NoCtx) == spec_parse_mesh(s, p0));
                }
                return Err(e);
            },
        };
        let material_blocks_count = match r.read_u16() {
            Ok(v) => v,
            Err(e) => {
                proof {
                    assert(spec_parse_mesh(s, p0) == Err::<(Mesh, int), DecodeError>(e));
                    assert(<Mesh as Decode<NoCtx>>::spec_parse(s, p0, NoCtx) == spec_parse_mesh(s, p0));
                }
                return Err(e);
            },
        };
        let bounds = match BoundingBox::decode(r, NoCtx) {
            Ok(v) => v,
            Err(e) => {
                proof {
                    assert(spec_parse_mesh(s, p0) == Err::<(Mesh, int), DecodeError>(e));
                    assert(<Mesh as Decode<NoCtx>>::spec_parse(s, p0, NoCtx) == spec_parse_mesh(s, p0));
                }
                return Err(e);
            },
        };
        let center = match Vector3::decode(r, NoCtx) {
            Ok(v) => v,
            Err(e) => {
                proof {
                    assert(spec_parse_mesh(s, p0) == Err::<(Mesh, int), DecodeError>(e));
                    assert(<Mesh as Decode<NoCtx>>::spec_parse(s, p0, NoCtx) == spec_parse_mesh(s, p0));
                }
                return Err(e);
            },
        };
        let radius = match FloatBits::decode(r, NoCtx) {
            Ok(v) => v,
            Err(e) => {
                proof {
                    assert(spec_parse_mesh(s, p0) == Err::<(Mesh, int), DecodeError>(e));
                    assert(<Mesh as Decode<NoCtx>>::spec_parse(s, p0, NoCtx) == spec_parse_mesh(s, p0));
                }
                return Err(e);
            },
        };
        let have_bsp = match r.read_bool() {
            Ok(v) => v,
            Err(e) => {
                proof {
                    assert(spec_parse_mesh(s, p0) == Err::<(Mesh, int), DecodeError>(e));
                    assert(<Mesh as Decode<NoCtx>>::spec_parse(s, p0, NoCtx) == spec_parse_mesh(s, p0));
                }
                return Err(e);
            },
        };
        let out = Mesh {
            flags,
            material_blocks_count,
            bounds,
            center,
            radius,
            have_bsp,
        };
        proof {
            assert(spec_parse_mesh(s, p0) == Ok::<(Mesh, int), DecodeError>((out.deep_view(), r.pos())));
            assert(<Mesh as Decode<NoCtx>>::spec_parse(s, p0, NoCtx) == spec_parse_mesh(s, p0));
        }
        Ok(out)
    }
}

} // verus!
