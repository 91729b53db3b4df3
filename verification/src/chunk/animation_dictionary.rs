//! The animation dictionary record.

use vstd::prelude::*;

use crate::decode::{Decode, DecodeError, NoCtx, PositionTracker, spec_parse_i32, spec_parse_sequence};
use crate::algebra::{QuantizedQuaternion, Vector3, spec_parse_quat_i16, spec_parse_vector3};

verus! {

#[derive(Clone, Debug, PartialEq, Eq)]
pub struct AnimationDictionary {
    pub base_poses: Vec<BasePose>,
    pub clip_count: i32,
}

pub struct AnimationDictionaryView {
    pub base_poses: Seq<BasePose>,
    pub clip_count: i32,
}

impl DeepView for AnimationDictionary {
    type V = AnimationDictionaryView;

    open spec fn deep_view(&self) -> AnimationDictionaryView {
        AnimationDictionaryView {
            base_poses: self.base_poses.deep_view(),
            clip_count: self.clip_count,
        }
    }
}

pub open spec fn spec_parse_animation_dictionary(s: Seq<u8>, pos: int) -> Result<(AnimationDictionaryView, int), DecodeError> {
    match spec_parse_sequence::<NoCtx, BasePose>(s, pos, NoCtx) {
        Err(e) => Err(e),
        Ok((base_poses, pos)) => {
            match spec_parse_i32(s, pos) {
                Err(e) => Err(e),
                Ok((clip_count, pos)) => {
                    Ok((
                        AnimationDictionaryView {
                            base_poses: base_poses,
                            clip_count: clip_count,
                        },
                        pos,
                    ))
                },
            }
        },
    }
}

impl Decode<NoCtx> for AnimationDictionary {
    open spec fn spec_parse(s: Seq<u8>, pos: int, c: NoCtx) -> Result<(AnimationDictionaryView, int), DecodeError> {
        spec_parse_animation_dictionary(s, pos)
    }

    proof fn parse_bounds(s: Seq<u8>, pos: int, c: NoCtx) {
            <Vec<BasePose> as Decode<NoCtx>>::parse_bounds(s, pos, NoCtx);
            match spec_parse_sequence::<NoCtx, BasePose>(s, pos, NoCtx) {
                Err(_) => {},
                Ok((base_poses, pos)) => {
                },
            }
    }

    fn decode(r: &mut PositionTracker, c: NoCtx) -> (res: Result<AnimationDictionary, DecodeError>) {
        let ghost s = old(r).data();
        let ghost p0 = old(r).pos();
        let base_poses = match Vec::<BasePose>::decode(r, NoCtx) {
            Ok(v) => v,
            Err(e) => {
                proof {
                    assert(spec_parse_animation_dictionary(s, p0) == Err::<(AnimationDictionaryView, int), DecodeError>(e));
                    assert(<AnimationDictionary as Decode<NoCtx>>::spec_parse(s, p0, NoCtx) == spec_parse_animation_dictionary(s, p0));
                }
                return Err(e);
            },
        };
        let clip_count = match r.read_i32() {
            Ok(v) => v,
            Err(e) => {
                proof {
                    assert(spec_parse_animation_dictionary(s, p0) == Err::<(AnimationDictionaryView, int), DecodeError>(e));
                    assert(<AnimationDictionary as Decode<NoCtx>>::spec_parse(s, p0, NoCtx) == spec_parse_animation_dictionary(s, p0));
                }
                return Err(e);
            },
        };
        let out = AnimationDictionary {
            base_poses,
            clip_count,
        };
        proof {
            assert(spec_parse_animation_dictionary(s, p0) == Ok::<(AnimationDictionaryView, int), DecodeError>((out.deep_view(), r.pos())));
            assert(<AnimationDictionary as Decode<NoCtx>>::spec_parse(s, p0, NoCtx) == spec_parse_animation_dictionary(s, p0));
        }
        Ok(out)
    }
}

#[derive(Clone, Copy, Debug, PartialEq, Eq, Structural)]
pub struct BasePose {
    pub rotation: QuantizedQuaternion<i16>,
    pub position: Vector3,
}

impl DeepView for BasePose {
    type V = BasePose;

    open spec fn deep_view(&self) -> BasePose {
        *self
    }
}

pub open spec fn spec_parse_base_pose(s: Seq<u8>, pos: int) -> Result<(BasePose, int), DecodeError> {
    match spec_parse_quat_i16(s, pos) {
        Err(e) => Err(e),
        Ok((rotation, pos)) => {
            match spec_parse_vector3(s, pos) {
                Err(e) => Err(e),
                Ok((position, pos)) => {
                    Ok((
                        BasePose {
                            rotation: rotation,
                            position: position,
                        },
                        pos,
                    ))
                },
            }
        },
    }
}

impl Decode<NoCtx> for BasePose {
    open spec fn spec_parse(s: Seq<u8>, pos: int, c: NoCtx) -> Result<(BasePose, int), DecodeError> {
        spec_parse_base_pose(s, pos)
    }

    proof fn parse_bounds(s: Seq<u8>, pos: int, c: NoCtx) {
    }

    fn decode(r: &mut PositionTracker, c: NoCtx) -> (res: Result<BasePose, DecodeError>) {
        let ghost s = old(r).data();
        let ghost p0 = old(r).pos();
        let rotation = match QuantizedQuaternion::<i16>::decode(r, NoCtx) {
            Ok(v) => v,
            Err(e) => {
                proof {
                    assert(spec_parse_base_pose(s, p0) == Err::<(BasePose, int), DecodeError>(e));
                    assert(<BasePose as Decode<NoCtx>>::spec_parse(s, p0, NoCtx) == spec_parse_base_pose(s, p0));
                }
                return Err(e);
            },
        };
        let position = match Vector3::decode(r, NoCtx) {
            Ok(v) => v,
            Err(e) => {
                proof {
                    assert(spec_parse_base_pose(s, p0) == Err::<(BasePose, int), DecodeError>(e));
                    assert(<BasePose as Decode<NoCtx>>::spec_parse(s, p0, NoCtx) == spec_parse_base_pose(s, p0));
                }
                return Err(e);
            },
        };
        let out = BasePose {
            rotation,
            position,
        };
        proof {
            assert(spec_parse_base_pose(s, p0) == Ok::<(BasePose, int), DecodeError>((out.deep_view(), r.pos())));
            assert(<BasePose as Decode<NoCtx>>::spec_parse(s, p0, NoCtx) == spec_parse_base_pose(s, p0));
        }
        Ok(out)
    }
}

} // verus!
