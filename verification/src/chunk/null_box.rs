//! The null-box (link emitter) record.

use vstd::prelude::*;

use crate::decode::{Decode, DecodeError, NoCtx, PositionTracker, spec_parse_u32};
use crate::bounding_box::{OrientedBoundingBox, OrientedBoundingBoxView, spec_parse_oriented_bounding_box};

verus! {

#[derive(Clone, Debug, PartialEq, Eq)]
pub struct NullBox {
    pub base_flags: u32,
    pub null_index: u32,
    pub bounds: OrientedBoundingBox,
    pub name_hash: u32,
    pub spawn_type: u32,
}

pub struct NullBoxView {
    pub base_flags: u32,
    pub null_index: u32,
    pub bounds: OrientedBoundingBoxView,
    pub name_hash: u32,
    pub spawn_type: u32,
}

impl DeepView for NullBox {
    type V = NullBoxView;

    open spec fn deep_view(&self) -> NullBoxView {
        NullBoxView {
            base_flags: self.base_flags,
            null_index: self.null_index,
            bounds: self.bounds.deep_view(),
            name_hash: self.name_hash,
            spawn_type: self.spawn_type,
        }
    }
}

pub open spec fn spec_parse_null_box(s: Seq<u8>, pos: int) -> Result<(NullBoxView, int), DecodeError> {
    match spec_parse_u32(s, pos) {
        Err(e) => Err(e),
        Ok((base_flags, pos)) => {
            match spec_parse_u32(s, pos) {
                Err(e) => Err(e),
                Ok((null_index, pos)) => {
                    match spec_parse_oriented_bounding_box(s, pos) {
                        Err(e) => Err(e),
                        Ok((bounds, pos)) => {
                            match spec_parse_u32(s, pos) {
                                Err(e) => Err(e),
                                Ok((name_hash, pos)) => {
                                    match spec_parse_u32(s, pos) {
                                        Err(e) => Err(e),
                                        Ok((spawn_type, pos)) => {
                                            Ok((
                                                NullBoxView {
                                                    base_flags: base_flags,
                                                    null_index: null_index,
                                                    bounds: bounds,
                                                    name_hash: name_hash,
                                                    spawn_type: spawn_type,
                                                },
                                                pos,
                                            ))
                                        },
                                    }
                                },
                            }
                        },
                    }
                },
            }
        },
    }
}

impl Decode<NoCtx> for NullBox {
    open spec fn spec_parse(s: Seq<u8>, pos: int, c: NoCtx) -> Result<(NullBoxView, int), DecodeError> {
        spec_parse_null_box(s, pos)
    }

    proof fn parse_bounds(s: Seq<u8>, pos: int, c: NoCtx) {
    }

    fn decode(r: &mut PositionTracker, c: NoCtx) -> (res: Result<NullBox, DecodeError>) {
        let ghost s = old(r).data();
        let ghost p0 = old(r).pos();
        let base_flags = match r.read_u32() {
            Ok(v) => v,
            Err(e) => {
                proof {
                    assert(spec_parse_null_box(s, p0) == Err::<(NullBoxView, int), DecodeError>(e));
                    assert(<NullBox as Decode<NoCtx>>::spec_parse(s, p0, NoCtx) == spec_parse_null_box(s, p0));
                }
                return Err(e);
            },
        };
        let null_index = match r.read_u32() {
            Ok(v) => v,
            Err(e) => {
                proof {
                    assert(spec_parse_null_box(s, p0) == Err::<(NullBoxView, int), DecodeError>(e));
                    assert(<NullBox as Decode<NoCtx>>::spec_parse(s, p0, NoCtx) == spec_parse_null_box(s, p0));
                }
                return Err(e);
            },
        };
        let bounds = match OrientedBoundingBox::decode(r, NoCtx) {
            Ok(v) => v,
            Err(e) => {
                proof {
                    assert(spec_parse_null_box(s, p0) == Err::<(NullBoxView, int), DecodeError>(e));
                    assert(<NullBox as Decode<NoCtx>>::spec_parse(s, p0, NoCtx) == spec_parse_null_box(s, p0));
                }
                return Err(e);
            },
        };
        let name_hash = match r.read_u32() {
            Ok(v) => v,
            Err(e) => {
                proof {
                    assert(spec_parse_null_box(s, p0) == Err::<(NullBoxView, int), DecodeError>(e));
                    assert(<NullBox as Decode<NoCtx>>::spec_parse(s, p0, NoCtx) == spec_parse_null_box(s, p0));
                }
                return Err(e);
            },
        };
        let spawn_type = match r.read_u32() {
            Ok(v) => v,
            Err(e) => {
                proof {
                    assert(spec_parse_null_box(s, p0) == Err::<(NullBoxView, int), DecodeError>(e));
                    assert(<NullBox as Decode<NoCtx>>::spec_parse(s, p0, NoCtx) == spec_parse_null_box(s, p0));
                }
                return Err(e);
            },
        };
        let out = NullBox {
            base_flags,
            null_index,
            bounds,
            name_hash,
            spawn_type,
        };
        proof {
            assert(spec_parse_null_box(s, p0) == Ok::<(NullBoxView, int), DecodeError>((out.deep_view(), r.pos())));
            assert(<NullBox as Decode<NoCtx>>::spec_parse(s, p0, NoCtx) == spec_parse_null_box(s, p0));
        }
        Ok(out)
    }
}

} // verus!
