//! Null (waypoint marker) records, stored as a count-prefixed list.

use vstd::prelude::*;

use crate::decode::{Decode, DecodeError, NoCtx, PositionTracker, spec_parse_str_plain, spec_parse_u32};
use crate::algebra::{Matrix, spec_parse_matrix};
use crate::bounding_box::{BoundingBox, spec_parse_bounding_box};

verus! {

#[derive(Clone, Debug, PartialEq, Eq)]
pub struct Null {
    pub matrix: Matrix,
    pub bounding_box: BoundingBox,
    pub hash: u32,
    pub floor_flags: u32,
    pub flags: u32,
    pub spawn_type: u32,
    pub name: Vec<u8>,
}

pub struct NullView {
    pub matrix: Matrix,
    pub bounding_box: BoundingBox,
    pub hash: u32,
    pub floor_flags: u32,
    pub flags: u32,
    pub spawn_type: u32,
    pub name: Seq<u8>,
}

impl DeepView for Null {
    type V = NullView;

    open spec fn deep_view(&self) -> NullView {
        NullView {
            matrix: self.matrix,
            bounding_box: self.bounding_box,
            hash: self.hash,
            floor_flags: self.floor_flags,
            flags: self.flags,
            spawn_type: self.spawn_type,
            name: self.name@,
        }
    }
}

pub open spec fn spec_parse_null(s: Seq<u8>, pos: int) -> Result<(NullView, int), DecodeError> {
    match spec_parse_matrix(s, pos) {
        Err(e) => Err(e),
        Ok((matrix, pos)) => {
            match spec_parse_bounding_box(s, pos) {
                Err(e) => Err(e),
                Ok((bounding_box, pos)) => {
                    match spec_parse_u32(s, pos) {
                        Err(e) => Err(e),
                        Ok((hash, pos)) => {
                            match spec_parse_u32(s, pos) {
                                Err(e) => Err(e),
                                Ok((floor_flags, pos)) => {
                                    match spec_parse_u32(s, pos) {
                                        Err(e) => Err(e),
                                        Ok((flags, pos)) => {
                                            match spec_parse_u32(s, pos) {
                                                Err(e) => Err(e),
                                                Ok((spawn_type, pos)) => {
                                                    match spec_parse_str_plain(s, pos) {
                                                        Err(e) => Err(e),
                                                        Ok((name, pos)) => {
                                                            Ok((
                                                                NullView {
                                                                    matrix: matrix,
                                                                    bounding_box: bounding_box,
                                                                    hash: hash,
                                                                    floor_flags: floor_flags,
                                                                    flags: flags,
                                                                    spawn_type: spawn_type,
                                                                    name: name,
                                                                },
                                                                pos,
                                                            ))
                                                        },
                                                    }
                                                },
                                            }
                                        },
                                    }
                                },
                            }
                        },
                    }
                },
            }
        },
    }
}

impl Decode<NoCtx> for Null {
    open spec fn spec_parse(s: Seq<u8>, pos: int, c: NoCtx) -> Result<(NullView, int), DecodeError> {
        spec_parse_null(s, pos)
    }

    proof fn parse_bounds(s: Seq<u8>, pos: int, c: NoCtx) {
    }

    fn decode(r: &mut PositionTracker, c: NoCtx) -> (res: Result<Null, DecodeError>) {
        let ghost s = old(r).data();
        let ghost p0 = old(r).pos();
        let matrix = match Matrix::decode(r, NoCtx) {
            Ok(v) => v,
            Err(e) => {
                proof {
                    assert(spec_parse_null(s, p0) == Err::<(NullView, int), DecodeError>(e));
                    assert(<Null as Decode<NoCtx>>::spec_parse(s, p0, NoCtx) == spec_parse_null(s, p0));
                }
                return Err(e);
            },
        };
        let bounding_box = match BoundingBox::decode(r, NoCtx) {
            Ok(v) => v,
            Err(e) => {
                proof {
                    assert(spec_parse_null(s, p0) == Err::<(NullView, int), DecodeError>(e));
                    assert(<Null as Decode<NoCtx>>::spec_parse(s, p0, NoCtx) == spec_parse_null(s, p0));
                }
                return Err(e);
            },
        };
        let hash = match r.read_u32() {
            Ok(v) => v,
            Err(e) => {
                proof {
                    assert(spec_parse_null(s, p0) == Err::<(NullView, int), DecodeError>(e));
                    assert(<Null as Decode<NoCtx>>::spec_parse(s, p0, NoCtx) == spec_parse_null(s, p0));
                }
                return Err(e);
            },
        };
        let floor_flags = match r.read_u32() {
            Ok(v) => v,
            Err(e) => {
                proof {
                    assert(spec_parse_null(s, p0) == Err::<(NullView, int), DecodeError>(e));
                    assert(<Null as Decode<NoCtx>>::spec_parse(s, p0, NoCtx) == spec_parse_null(s, p0));
                }
                return Err(e);
            },
        };
        let flags = match r.read_u32() {
            Ok(v) => v,
            Err(e) => {
                proof {
                    assert(spec_parse_null(s, p0) == Err::<(NullView, int), DecodeError>(e));
                    assert(<Null as Decode<NoCtx>>::spec_parse(s, p0, NoCtx) == spec_parse_null(s, p0));
                }
                return Err(e);
            },
        };
        let spawn_type = match r.read_u32() {
            Ok(v) => v,
            Err(e) => {
                proof {
                    assert(spec_parse_null(s, p0) == Err::<(NullView, int), DecodeError>(e));
                    assert(<Null as Decode<NoCtx>>::spec_parse(s, p0, NoCtx) == spec_parse_null(s, p0));
                }
                return Err(e);
            },
        };
        let name = match r.read_string() {
            Ok(v) => v,
            Err(e) => {
                proof {
                    assert(spec_parse_null(s, p0) == Err::<(NullView, int), DecodeError>(e));
                    assert(<Null as Decode<NoCtx>>::spec_parse(s, p0, NoCtx) == spec_parse_null(s, p0));
                }
                return Err(e);
            },
        };
        let out = Null {
            matrix,
            bounding_box,
            hash,
            floor_flags,
            flags,
            spawn_type,
            name,
        };
        proof {
            assert(spec_parse_null(s, p0) == Ok::<(NullView, int), DecodeError>((out.deep_view(), r.pos())));
            assert(<Null as Decode<NoCtx>>::spec_parse(s, p0, NoCtx) == spec_parse_null(s, p0));
        }
        Ok(out)
    }
}

pub type Nulls = Vec<Null>;

} // verus!
