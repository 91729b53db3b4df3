//! The spline (area) record.

use vstd::prelude::*;

use crate::decode::{Decode, DecodeError, NoCtx, PositionTracker, decode_vec_n, lemma_parse_n_bounds, spec_parse_bool, spec_parse_n, spec_parse_u32};
use crate::algebra::{Vector3};

verus! {

#[derive(Clone, Debug, PartialEq, Eq)]
pub struct Spline {
    pub points: Vec<Vector3>,
    pub closed: bool,
    pub type_: u32,
}

pub struct SplineView {
    pub points: Seq<Vector3>,
    pub closed: bool,
    pub type_: u32,
}

impl DeepView for Spline {
    type V = SplineView;

    open spec fn deep_view(&self) -> SplineView {
        SplineView {
            points: self.points.deep_view(),
            closed: self.closed,
            type_: self.type_,
        }
    }
}

pub open spec fn spec_parse_spline(s: Seq<u8>, pos: int) -> Result<(SplineView, int), DecodeError> {
    match spec_parse_u32(s, pos) {
        Err(e) => Err(e),
        Ok((points_count, pos)) => {
            match spec_parse_bool(s, pos) {
                Err(e) => Err(e),
                Ok((closed, pos)) => {
                    match spec_parse_u32(s, pos) {
                        Err(e) => Err(e),
                        Ok((type_, pos)) => {
                            match spec_parse_n::<NoCtx, Vector3>(s, pos, points_count as nat, NoCtx) {
                                Err(e) => Err(e),
                                Ok((points, pos)) => {
                                    Ok((
                                        SplineView {
                                            points: points,
                                            closed: closed,
                                            type_: type_,
                                        },
                                        pos,
                                    ))
                                },
                            }
                        },
                    }
                },
            }
        },
    }
}

impl Decode<NoCtx> for Spline {
    open spec fn spec_parse(s: Seq<u8>, pos: int, c: NoCtx) -> Result<(SplineView, int), DecodeError> {
        spec_parse_spline(s, pos)
    }

    proof fn parse_bounds(s: Seq<u8>, pos: int, c: NoCtx) {
            match spec_parse_u32(s, pos) {
                Err(_) => {},
                Ok((points_count, pos)) => {
                    match spec_parse_bool(s, pos) {
                        Err(_) => {},
                        Ok((closed, pos)) => {
                            match spec_parse_u32(s, pos) {
                                Err(_) => {},
                                Ok((type_, pos)) => {
                                    lemma_parse_n_bounds::<NoCtx, Vector3>(s, pos, points_count as nat, NoCtx);
                                    match spec_parse_n::<NoCtx, Vector3>(s, pos, points_count as nat, NoCtx) {
                                        Err(_) => {},
                                        Ok((points, pos)) => {
                                        },
                                    }
                                },
                            }
                        },
                    }
                },
            }
    }

    fn decode(r: &mut PositionTracker, c: NoCtx) -> (res: Result<Spline, DecodeError>) {
        let ghost s = old(r).data();
        let ghost p0 = old(r).pos();
        let points_count = match r.read_u32() {
            Ok(v) => v,
            Err(e) => {
                proof {
                    assert(spec_parse_spline(s, p0) == Err::<(SplineView, int), DecodeError>(e));
                    assert(<Spline as Decode<NoCtx>>::spec_parse(s, p0, NoCtx) == spec_parse_spline(s, p0));
                }
                return Err(e);
            },
        };
        let closed = match r.read_bool() {
            Ok(v) => v,
            Err(e) => {
                proof {
                    assert(spec_parse_spline(s, p0) == Err::<(SplineView, int), DecodeError>(e));
                    assert(<Spline as Decode<NoCtx>>::spec_parse(s, p0, NoCtx) == spec_parse_spline(s, p0));
                }
                return Err(e);
            },
        };
        let type_ = match r.read_u32() {
            Ok(v) => v,
            Err(e) => {
                proof {
                    assert(spec_parse_spline(s, p0) == Err::<(SplineView, int), DecodeError>(e));
                    assert(<Spline as Decode<NoCtx>>::spec_parse(s, p0, NoCtx) == spec_parse_spline(s, p0));
                }
                return Err(e);
            },
        };
        let points = match decode_vec_n::<NoCtx, Vector3>(r, points_count as u64, NoCtx) {
            Ok(v) => v,
            Err(e) => {
                proof {
                    assert(spec_parse_spline(s, p0) == Err::<(SplineView, int), DecodeError>(e));
                    assert(<Spline as Decode<NoCtx>>::spec_parse(s, p0, NoCtx) == spec_parse_spline(s, p0));
                }
                return Err(e);
            },
        };
        let out = Spline {
            points,
            closed,
            type_,
        };
        proof {
            assert(spec_parse_spline(s, p0) == Ok::<(SplineView, int), DecodeError>((out.deep_view(), r.pos())));
            assert(<Spline as Decode<NoCtx>>::spec_parse(s, p0, NoCtx) == spec_parse_spline(s, p0));
        }
        Ok(out)
    }
}

} // verus!
