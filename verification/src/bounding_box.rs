//! Axis-aligned and oriented bounding volumes.

use vstd::prelude::*;

use crate::algebra::{spec_parse_f32, spec_parse_vector3, FloatBits, Vector3};
use crate::decode::{Decode, DecodeError, NoCtx, PositionTracker};

verus! {

#[derive(Clone, Copy, Debug, PartialEq, Eq, Structural)]
pub struct BoundingBox {
    pub supremum: Vector3,
    pub infimum: Vector3,
}

impl BoundingBox {
    pub fn new(supremum: Vector3, infimum: Vector3) -> (r: Self)
        ensures
            r == (BoundingBox { supremum, infimum }),
    {
        BoundingBox { supremum, infimum }
    }
}

impl DeepView for BoundingBox {
    type V = BoundingBox;

    open spec fn deep_view(&self) -> BoundingBox {
        *self
    }
}

pub open spec fn spec_parse_bounding_box(s: Seq<u8>, pos: int) -> Result<
    (BoundingBox, int),
    DecodeError,
> {
    match spec_parse_vector3(s, pos) {
        Err(e) => Err(e),
        Ok((supremum, pos)) => match spec_parse_vector3(s, pos) {
            Err(e) => Err(e),
            Ok((infimum, pos)) => Ok((BoundingBox { supremum, infimum }, pos)),
        },
    }
}

impl Decode<NoCtx> for BoundingBox {
    open spec fn spec_parse(s: Seq<u8>, pos: int, c: NoCtx) -> Result<
        (BoundingBox, int),
        DecodeError,
    > {
        spec_parse_bounding_box(s, pos)
    }

    proof fn parse_bounds(s: Seq<u8>, pos: int, c: NoCtx) {
    }

    fn decode(r: &mut PositionTracker, c: NoCtx) -> (res: Result<BoundingBox, DecodeError>) {
        let ghost s = old(r).data();
        let ghost p0 = old(r).pos();
        let supremum = match Vector3::decode(r, NoCtx) {
            Ok(v) => v,
            Err(e) => {
                proof {
                    assert(spec_parse_bounding_box(s, p0) == Err::<(BoundingBox, int), DecodeError>(e));
                    assert(<BoundingBox as Decode<NoCtx>>::spec_parse(s, p0, NoCtx) == spec_parse_bounding_box(s, p0));
                }
                return Err(e);
            },
        };
        let infimum = match Vector3::decode(r, NoCtx) {
            Ok(v) => v,
            Err(e) => {
                proof {
                    assert(spec_parse_bounding_box(s, p0) == Err::<(BoundingBox, int), DecodeError>(e));
                    assert(<BoundingBox as Decode<NoCtx>>::spec_parse(s, p0, NoCtx) == spec_parse_bounding_box(s, p0));
                }
                return Err(e);
            },
        };
        let out = BoundingBox { supremum, infimum };
        proof {
            assert(spec_parse_bounding_box(s, p0) == Ok::<(BoundingBox, int), DecodeError>((out.deep_view(), r.pos())));
            assert(<BoundingBox as Decode<NoCtx>>::spec_parse(s, p0, NoCtx) == spec_parse_bounding_box(s, p0));
        }
        Ok(out)
    }
}

/// A center with three axes, each axis followed on the wire by its extent.
#[derive(Clone, Copy, Debug, PartialEq, Eq)]
pub struct OrientedBoundingBox {
    pub center: Vector3,
    pub axes: [Vector3; 3],
    pub extents: [FloatBits; 3],
}

pub struct OrientedBoundingBoxView {
    pub center: Vector3,
    pub axes: Seq<Vector3>,
    pub extents: Seq<FloatBits>,
}

impl DeepView for OrientedBoundingBox {
    type V = OrientedBoundingBoxView;

    open spec fn deep_view(&self) -> OrientedBoundingBoxView {
        OrientedBoundingBoxView {
            center: self.center,
            axes: self.axes.deep_view(),
            extents: self.extents.deep_view(),
        }
    }
}

pub open spec fn spec_parse_oriented_bounding_box(s: Seq<u8>, pos: int) -> Result<
    (OrientedBoundingBoxView, int),
    DecodeError,
> {
    match spec_parse_vector3(s, pos) {
        Err(e) => Err(e),
        Ok((center, pos)) => match spec_parse_vector3(s, pos) {
            Err(e) => Err(e),
            Ok((a0, pos)) => match spec_parse_f32(s, pos) {
                Err(e) => Err(e),
                Ok((e0, pos)) => match spec_parse_vector3(s, pos) {
                    Err(e) => Err(e),
                    Ok((a1, pos)) => match spec_parse_f32(s, pos) {
                        Err(e) => Err(e),
                        Ok((e1, pos)) => match spec_parse_vector3(s, pos) {
                            Err(e) => Err(e),
                            Ok((a2, pos)) => match spec_parse_f32(s, pos) {
                                Err(e) => Err(e),
                                Ok((e2, pos)) => Ok(
                                    (
                                        OrientedBoundingBoxView {
                                            center,
                                            axes: seq![a0, a1, a2],
                                            extents: seq![e0, e1, e2],
                                        },
                                        pos,
                                    ),
                                ),
                            },
                        },
                    },
                },
            },
        },
    }
}

impl Decode<NoCtx> for OrientedBoundingBox {
    open spec fn spec_parse(s: Seq<u8>, pos: int, c: NoCtx) -> Result<
        (OrientedBoundingBoxView, int),
        DecodeError,
    > {
        spec_parse_oriented_bounding_box(s, pos)
    }

    proof fn parse_bounds(s: Seq<u8>, pos: int, c: NoCtx) {
    }

    fn decode(r: &mut PositionTracker, c: NoCtx) -> (res: Result<
        OrientedBoundingBox,
        DecodeError,
    >) {
        let ghost s = old(r).data();
        let ghost p0 = old(r).pos();
        let center = match Vector3::decode(r, NoCtx) {
            Ok(v) => v,
            Err(e) => {
                proof {
                    assert(spec_parse_oriented_bounding_box(s, p0) == Err::<(OrientedBoundingBoxView, int), DecodeError>(e));
                    assert(<OrientedBoundingBox as Decode<NoCtx>>::spec_parse(s, p0, NoCtx) == spec_parse_oriented_bounding_box(s, p0));
                }
                return Err(e);
            },
        };
        let a0 = match Vector3::decode(r, NoCtx) {
            Ok(v) => v,
            Err(e) => {
                proof {
                    assert(spec_parse_oriented_bounding_box(s, p0) == Err::<(OrientedBoundingBoxView, int), DecodeError>(e));
                    assert(<OrientedBoundingBox as Decode<NoCtx>>::spec_parse(s, p0, NoCtx) == spec_parse_oriented_bounding_box(s, p0));
                }
                return Err(e);
            },
        };
        let e0 = match FloatBits::decode(r, NoCtx) {
            Ok(v) => v,
            Err(e) => {
                proof {
                    assert(spec_parse_oriented_bounding_box(s, p0) == Err::<(OrientedBoundingBoxView, int), DecodeError>(e));
                    assert(<OrientedBoundingBox as Decode<NoCtx>>::spec_parse(s, p0, NoCtx) == spec_parse_oriented_bounding_box(s, p0));
                }
                return Err(e);
            },
        };
        let a1 = match Vector3::decode(r, NoCtx) {
            Ok(v) => v,
            Err(e) => {
                proof {
                    assert(spec_parse_oriented_bounding_box(s, p0) == Err::<(OrientedBoundingBoxView, int), DecodeError>(e));
                    assert(<OrientedBoundingBox as Decode<NoCtx>>::spec_parse(s, p0, NoCtx) == spec_parse_oriented_bounding_box(s, p0));
                }
                return Err(e);
            },
        };
        let e1 = match FloatBits::decode(r, NoCtx) {
            Ok(v) => v,
            Err(e) => {
                proof {
                    assert(spec_parse_oriented_bounding_box(s, p0) == Err::<(OrientedBoundingBoxView, int), DecodeError>(e));
                    assert(<OrientedBoundingBox as Decode<NoCtx>>::spec_parse(s, p0, NoCtx) == spec_parse_oriented_bounding_box(s, p0));
                }
                return Err(e);
            },
        };
        let a2 = match Vector3::decode(r, NoCtx) {
            Ok(v) => v,
            Err(e) => {
                proof {
                    assert(spec_parse_oriented_bounding_box(s, p0) == Err::<(OrientedBoundingBoxView, int), DecodeError>(e));
                    assert(<OrientedBoundingBox as Decode<NoCtx>>::spec_parse(s, p0, NoCtx) == spec_parse_oriented_bounding_box(s, p0));
                }
                return Err(e);
            },
        };
        let e2 = match FloatBits::decode(r, NoCtx) {
            Ok(v) => v,
            Err(e) => {
                proof {
                    assert(spec_parse_oriented_bounding_box(s, p0) == Err::<(OrientedBoundingBoxView, int), DecodeError>(e));
                    assert(<OrientedBoundingBox as Decode<NoCtx>>::spec_parse(s, p0, NoCtx) == spec_parse_oriented_bounding_box(s, p0));
                }
                return Err(e);
            },
        };
        let out = OrientedBoundingBox { center, axes: [a0, a1, a2], extents: [e0, e1, e2] };
        proof {
            assert(out.axes.deep_view() =~= seq![a0, a1, a2]);
            assert(out.extents.deep_view() =~= seq![e0, e1, e2]);
        }
        let out = out;
        proof {
            assert(spec_parse_oriented_bounding_box(s, p0) == Ok::<(OrientedBoundingBoxView, int), DecodeError>((out.deep_view(), r.pos())));
            assert(<OrientedBoundingBox as Decode<NoCtx>>::spec_parse(s, p0, NoCtx) == spec_parse_oriented_bounding_box(s, p0));
        }
        Ok(out)
    }
}

} // verus!
