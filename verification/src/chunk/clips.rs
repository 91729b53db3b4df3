//! The animation clips record.

use vstd::prelude::*;

use crate::decode::{Decode, DecodeError, NoCtx, PositionTracker, spec_parse_i32, spec_parse_sequence, spec_parse_str_plain, spec_parse_u32};
use crate::algebra::{FloatBits, spec_parse_f32};

verus! {

#[derive(Clone, Debug, PartialEq, Eq)]
pub struct Clips {
    pub name_hash: u32,
    pub minimum_time: FloatBits,
    pub maximum_time: FloatBits,
    pub base_poses: Vec<Scaffold>,
    pub sequence_count: i32,
    pub name: Vec<u8>,
}

pub struct ClipsView {
    pub name_hash: u32,
    pub minimum_time: FloatBits,
    pub maximum_time: FloatBits,
    pub base_poses: Seq<Scaffold>,
    pub sequence_count: i32,
    pub name: Seq<u8>,
}

impl DeepView for Clips {
    type V = ClipsView;

    open spec fn deep_view(&self) -> ClipsView {
        ClipsView {
            name_hash: self.name_hash,
            minimum_time: self.minimum_time,
            maximum_time: self.maximum_time,
            base_poses: self.base_poses.deep_view(),
            sequence_count: self.sequence_count,
            name: self.name@,
        }
    }
}

pub open spec fn spec_parse_clips(s: Seq<u8>, pos: int) -> Result<(ClipsView, int), DecodeError> {
    match spec_parse_u32(s, pos) {
        Err(e) => Err(e),
        Ok((name_hash, pos)) => {
            match spec_parse_f32(s, pos) {
                Err(e) => Err(e),
                Ok((minimum_time, pos)) => {
                    match spec_parse_f32(s, pos) {
                        Err(e) => Err(e),
                        Ok((maximum_time, pos)) => {
                            match spec_parse_sequence::<NoCtx, Scaffold>(s, pos, NoCtx) {
                                Err(e) => Err(e),
                                Ok((base_poses, pos)) => {
                                    match spec_parse_i32(s, pos) {
                                        Err(e) => Err(e),
                                        Ok((sequence_count, pos)) => {
                                            match spec_parse_str_plain(s, pos) {
                                                Err(e) => Err(e),
                                                Ok((name, pos)) => {
                                                    Ok((
                                                        ClipsView {
                                                            name_hash: name_hash,
                                                            minimum_time: minimum_time,
                                                            maximum_time: maximum_time,
                                                            base_poses: base_poses,
                                                            sequence_count: sequence_count,
                                                            name: name,
                                                        },
                                                        pos,
                                                    ))
                                                },
                                            }
                                        },
                                    }
                                },
                            }
                        },
                    }
                },
            }
        },
    }
}

impl Decode<NoCtx> for Clips {
    open spec fn spec_parse(s: Seq<u8>, pos: int, c: NoCtx) -> Result<(ClipsView, int), DecodeError> {
        spec_parse_clips(s, pos)
    }

    proof fn parse_bounds(s: Seq<u8>, pos: int, c: NoCtx) {
            match spec_parse_u32(s, pos) {
                Err(_) => {},
                Ok((name_hash, pos)) => {
                    match spec_parse_f32(s, pos) {
                        Err(_) => {},
                        Ok((minimum_time, pos)) => {
                            match spec_parse_f32(s, pos) {
                                Err(_) => {},
                                Ok((maximum_time, pos)) => {
                                    <Vec<Scaffold> as Decode<NoCtx>>::parse_bounds(s, pos, NoCtx);
                                    match spec_parse_sequence::<NoCtx, Scaffold>(s, pos, NoCtx) {
                                        Err(_) => {},
                                        Ok((base_poses, pos)) => {
                                        },
                                    }
                                },
                            }
                        },
                    }
                },
            }
    }

    fn decode(r: &mut PositionTracker, c: NoCtx) -> (res: Result<Clips, DecodeError>) {
        let ghost s = old(r).data();
        let ghost p0 = old(r).pos();
        let name_hash = match r.read_u32() {
            Ok(v) => v,
            Err(e) => {
                proof {
                    assert(spec_parse_clips(s, p0) == Err::<(ClipsView, int), DecodeError>(e));
                    assert(<Clips as Decode<NoCtx>>::spec_parse(s, p0, NoCtx) == spec_parse_clips(s, p0));
                }
                return Err(e);
            },
        };
        let minimum_time = match FloatBits::decode(r, NoCtx) {
            Ok(v) => v,
            Err(e) => {
                proof {
                    assert(spec_parse_clips(s, p0) == Err::<(ClipsView, int), DecodeError>(e));
                    assert(<Clips as Decode<NoCtx>>::spec_parse(s, p0, NoCtx) == spec_parse_clips(s, p0));
                }
                return Err(e);
            },
        };
        let maximum_time = match FloatBits::decode(r, NoCtx) {
            Ok(v) => v,
            Err(e) => {
                proof {
                    assert(spec_parse_clips(s, p0) == Err::<(ClipsView, int), DecodeError>(e));
                    assert(<Clips as Decode<NoCtx>>::spec_parse(s, p0, NoCtx) == spec_parse_clips(s, p0));
                }
                return Err(e);
            },
        };
        let base_poses = match Vec::<Scaffold>::decode(r, NoCtx) {
            Ok(v) => v,
            Err(e) => {
                proof {
                    assert(spec_parse_clips(s, p0) == Err::<(ClipsView, int), DecodeError>(e));
                    assert(<Clips as Decode<NoCtx>>::spec_parse(s, p0, NoCtx) == spec_parse_clips(s, p0));
                }
                return Err(e);
            },
        };
        let sequence_count = match r.read_i32() {
            Ok(v) => v,
            Err(e) => {
                proof {
                    assert(spec_parse_clips(s, p0) == Err::<(ClipsView, int), DecodeError>(e));
                    assert(<Clips as Decode<NoCtx>>::spec_parse(s, p0, NoCtx) == spec_parse_clips(s, p0));
                }
                return Err(e);
            },
        };
        let name = match r.read_string() {
            Ok(v) => v,
            Err(e) => {
                proof {
                    assert(spec_parse_clips(s, p0) == Err::<(ClipsView, int), DecodeError>(e));
                    assert(<Clips as Decode<NoCtx>>::spec_parse(s, p0, NoCtx) == spec_parse_clips(s, p0));
                }
                return Err(e);
            },
        };
        let out = Clips {
            name_hash,
            minimum_time,
            maximum_time,
            base_poses,
            sequence_count,
            name,
        };
        proof {
            assert(spec_parse_clips(s, p0) == Ok::<(ClipsView, int), DecodeError>((out.deep_view(), r.pos())));
            assert(<Clips as Decode<NoCtx>>::spec_parse(s, p0, NoCtx) == spec_parse_clips(s, p0));
        }
        Ok(out)
    }
}

#[derive(Clone, Copy, Debug, PartialEq, Eq, Structural)]
pub struct Scaffold {
    pub hash1: u32,
    pub hash2: u32,
}

impl DeepView for Scaffold {
    type V = Scaffold;

    open spec fn deep_view(&self) -> Scaffold {
        *self
    }
}

pub open spec fn spec_parse_scaffold(s: Seq<u8>, pos: int) -> Result<(Scaffold, int), DecodeError> {
    match spec_parse_u32(s, pos) {
        Err(e) => Err(e),
        Ok((hash1, pos)) => {
            match spec_parse_u32(s, pos) {
                Err(e) => Err(e),
                Ok((hash2, pos)) => {
                    Ok((
                        Scaffold {
                            hash1: hash1,
                            hash2: hash2,
                        },
                        pos,
                    ))
                },
            }
        },
    }
}

impl Decode<NoCtx> for Scaffold {
    open spec fn spec_parse(s: Seq<u8>, pos: int, c: NoCtx) -> Result<(Scaffold, int), DecodeError> {
        spec_parse_scaffold(s, pos)
    }

    proof fn parse_bounds(s: Seq<u8>, pos: int, c: NoCtx) {
    }

    fn decode(r: &mut PositionTracker, c: NoCtx) -> (res: Result<Scaffold, DecodeError>) {
        let ghost s = old(r).data();
        let ghost p0 = old(r).pos();
        let hash1 = match r.read_u32() {
            Ok(v) => v,
            Err(e) => {
                proof {
                    assert(spec_parse_scaffold(s, p0) == Err::<(Scaffold, int), DecodeError>(e));
                    assert(<Scaffold as Decode<NoCtx>>::spec_parse(s, p0, NoCtx) == spec_parse_scaffold(s, p0));
                }
                return Err(e);
            },
        };
        let hash2 = match r.read_u32() {
            Ok(v) => v,
            Err(e) => {
                proof {
                    assert(spec_parse_scaffold(s, p0) == Err::<(Scaffold, int), DecodeError>(e));
                    assert(<Scaffold as Decode<NoCtx>>::spec_parse(s, p0, NoCtx) == spec_parse_scaffold(s, p0));
                }
                return Err(e);
            },
        };
        let out = Scaffold {
            hash1,
            hash2,
        };
        proof {
            assert(spec_parse_scaffold(s, p0) == Ok::<(Scaffold, int), DecodeError>((out.deep_view(), r.pos())));
            assert(<Scaffold as Decode<NoCtx>>::spec_parse(s, p0, NoCtx) == spec_parse_scaffold(s, p0));
        }
        Ok(out)
    }
}

} // verus!
