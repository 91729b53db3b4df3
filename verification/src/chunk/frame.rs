//! The frame (bone object) record.

use vstd::prelude::*;

use crate::decode::{Decode, DecodeError, NoCtx, PositionTracker, spec_parse_i32, spec_parse_str_plain, spec_parse_u32};
use crate::algebra::{Matrix, spec_parse_matrix};

verus! {

#[derive(Clone, Debug, PartialEq, Eq)]
pub struct Frame {
    pub local_transform_matrix: Matrix,
    pub global_transform_matrix: Matrix,
    pub bone_index: i32,
    pub flags: u32,
    pub id: u32,
    pub name: Vec<u8>,
}

pub struct FrameView {
    pub local_transform_matrix: Matrix,
    pub global_transform_matrix: Matrix,
    pub bone_index: i32,
    pub flags: u32,
    pub id: u32,
    pub name: Seq<u8>,
}

impl DeepView for Frame {
    type V = FrameView;

    open spec fn deep_view(&self) -> FrameView {
        FrameView {
            local_transform_matrix: self.local_transform_matrix,
            global_transform_matrix: self.global_transform_matrix,
            bone_index: self.bone_index,
            flags: self.flags,
            id: self.id,
            name: self.name@,
        }
    }
}

pub open spec fn spec_parse_frame(s: Seq<u8>, pos: int) -> Result<(FrameView, int), DecodeError> {
    match spec_parse_matrix(s, pos) {
        Err(e) => Err(e),
        Ok((local_transform_matrix, pos)) => {
            match spec_parse_matrix(s, pos) {
                Err(e) => Err(e),
                Ok((global_transform_matrix, pos)) => {
                    match spec_parse_i32(s, pos) {
                        Err(e) => Err(e),
                        Ok((bone_index, pos)) => {
                            match spec_parse_u32(s, pos) {
                                Err(e) => Err(e),
                                Ok((flags, pos)) => {
                                    match spec_parse_u32(s, pos) {
                                        Err(e) => Err(e),
                                        Ok((id, pos)) => {
                                            match spec_parse_str_plain(s, pos) {
                                                Err(e) => Err(e),
                                                Ok((name, pos)) => {
                                                    Ok((
                                                        FrameView {
                                                            local_transform_matrix: local_transform_matrix,
                                                            global_transform_matrix: global_transform_matrix,
                                                            bone_index: bone_index,
                                                            flags: flags,
                                                            id: id,
                                                            name: name,
                                                        },
                                                        pos,
                                                    ))
                                                },
                                            }
                                        },
                                    }
                                },
                            }
                        },
                    }
                },
            }
        },
    }
}

impl Decode<NoCtx> for Frame {
    open spec fn spec_parse(s: Seq<u8>, pos: int, c: NoCtx) -> Result<(FrameView, int), DecodeError> {
        spec_parse_frame(s, pos)
    }

    proof fn parse_bounds(s: Seq<u8>, pos: int, c: NoCtx) {
    }

    fn decode(r: &mut PositionTracker, c: NoCtx) -> (res: Result<Frame, DecodeError>) {
        let ghost s = old(r).data();
        let ghost p0 = old(r).pos();
        let local_transform_matrix = match Matrix::decode(r, NoCtx) {
            Ok(v) => v,
            Err(e) => {
                proof {
                    assert(spec_parse_frame(s, p0) == Err::<(FrameView, int), DecodeError>(e));
                    assert(<Frame as Decode<NoCtx>>::spec_parse(s, p0, NoCtx) == spec_parse_frame(s, p0));
                }
                return Err(e);
            },
        };
        let global_transform_matrix = match Matrix::decode(r, NoCtx) {
            Ok(v) => v,
            Err(e) => {
                proof {
                    assert(spec_parse_frame(s, p0) == Err::<(FrameView, int), DecodeError>(e));
                    assert(<Frame as Decode<NoCtx>>::spec_parse(s, p0, NoCtx) == spec_parse_frame(s, p0));
                }
                return Err(e);
            },
        };
        let bone_index = match r.read_i32() {
            Ok(v) => v,
            Err(e) => {
                proof {
                    assert(spec_parse_frame(s, p0) == Err::<(FrameView, int), DecodeError>(e));
                    assert(<Frame as Decode<NoCtx>>::spec_parse(s, p0, NoCtx) == spec_parse_frame(s, p0));
                }
                return Err(e);
            },
        };
        let flags = match r.read_u32() {
            Ok(v) => v,
            Err(e) => {
                proof {
                    assert(spec_parse_frame(s, p0) == Err::<(FrameView, int), DecodeError>(e));
                    assert(<Frame as Decode<NoCtx>>::spec_parse(s, p0, NoCtx) == spec_parse_frame(s, p0));
                }
                return Err(e);
            },
        };
        let id = match r.read_u32() {
            Ok(v) => v,
            Err(e) => {
                proof {
                    assert(spec_parse_frame(s, p0) == Err::<(FrameView, int), DecodeError>(e));
                    assert(<Frame as Decode<NoCtx>>::spec_parse(s, p0, NoCtx) == spec_parse_frame(s, p0));
                }
                return Err(e);
            },
        };
        let name = match r.read_string() {
            Ok(v) => v,
            Err(e) => {
                proof {
                    assert(spec_parse_frame(s, p0) == Err::<(FrameView, int), DecodeError>(e));
                    assert(<Frame as Decode<NoCtx>>::spec_parse(s, p0, NoCtx) == spec_parse_frame(s, p0));
                }
                return Err(e);
            },
        };
        let out = Frame {
            local_transform_matrix,
            global_transform_matrix,
            bone_index,
            flags,
            id,
            name,
        };
        proof {
            assert(spec_parse_frame(s, p0) == Ok::<(FrameView, int), DecodeError>((out.deep_view(), r.pos())));
            assert(<Frame as Decode<NoCtx>>::spec_parse(s, p0, NoCtx) == spec_parse_frame(s, p0));
        }
        Ok(out)
    }
}

} // verus!
