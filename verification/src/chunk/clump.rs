//! The clump (skeleton) record.

use vstd::prelude::*;

use crate::decode::{Decode, DecodeError, NoCtx, PositionTracker, spec_parse_bool, spec_parse_optional, spec_parse_sequence, spec_parse_u32, spec_parse_u64};
use crate::algebra::{Matrix, Vector3, spec_parse_matrix, spec_parse_vector3};
use crate::bounding_box::{BoundingBox, spec_parse_bounding_box};

verus! {

#[derive(Clone, Debug, PartialEq, Eq)]
pub struct Clump {
    pub base_flags: u32,
    pub name_hash: u32,
    pub flags: u64,
    pub floor_flags: u32,
    pub bone_count: Vec<Bone>,
    pub has_hierarchy: bool,
    pub default_animation_hash: u32,
    pub mirror_data: Option<MirrorData>,
}

pub struct ClumpView {
    pub base_flags: u32,
    pub name_hash: u32,
    pub flags: u64,
    pub floor_flags: u32,
    pub bone_count: Seq<Bone>,
    pub has_hierarchy: bool,
    pub default_animation_hash: u32,
    pub mirror_data: Option<MirrorData>,
}

impl DeepView for Clump {
    type V = ClumpView;

    open spec fn deep_view(&self) -> ClumpView {
        ClumpView {
            base_flags: self.base_flags,
            name_hash: self.name_hash,
            flags: self.flags,
            floor_flags: self.floor_flags,
            bone_count: self.bone_count.deep_view(),
            has_hierarchy: self.has_hierarchy,
            default_animation_hash: self.default_animation_hash,
            mirror_data: self.mirror_data,
        }
    }
}

pub open spec fn spec_parse_clump(s: Seq<u8>, pos: int) -> Result<(ClumpView, int), DecodeError> {
    match spec_parse_u32(s, pos) {
        Err(e) => Err(e),
        Ok((base_flags, pos)) => {
            match spec_parse_u32(s, pos) {
                Err(e) => Err(e),
                Ok((name_hash, pos)) => {
                    match spec_parse_u64(s, pos) {
                        Err(e) => Err(e),
                        Ok((flags, pos)) => {
                            match spec_parse_u32(s, pos) {
                                Err(e) => Err(e),
                                Ok((floor_flags, pos)) => {
                                    match spec_parse_sequence::<NoCtx, Bone>(s, pos, NoCtx) {
                                        Err(e) => Err(e),
                                        Ok((bone_count, pos)) => {
                                            match spec_parse_bool(s, pos) {
                                                Err(e) => Err(e),
                                                Ok((has_hierarchy, pos)) => {
                                                    match spec_parse_u32(s, pos) {
                                                        Err(e) => Err(e),
                                                        Ok((default_animation_hash, pos)) => {
                                                            match spec_parse_optional::<NoCtx, MirrorData>(s, pos, NoCtx) {
                                                                Err(e) => Err(e),
                                                                Ok((mirror_data, pos)) => {
                                                                    Ok((
                                                                        ClumpView {
                                                                            base_flags: base_flags,
                                                                            name_hash: name_hash,
                                                                            flags: flags,
                                                                            floor_flags: floor_flags,
                                                                            bone_count: bone_count,
                                                                            has_hierarchy: has_hierarchy,
                                                                            default_animation_hash: default_animation_hash,
                                                                            mirror_data: mirror_data,
                                                                        },
                                                                        pos,
                                                                    ))
                                                                },
                                                            }
                                                        },
                                                    }
                                                },
                                            }
                                        },
                                    }
                                },
                            }
                        },
                    }
                },
            }
        },
    }
}

impl Decode<NoCtx> for Clump {
    open spec fn spec_parse(s: Seq<u8>, pos: int, c: NoCtx) -> Result<(ClumpView, int), DecodeError> {
        spec_parse_clump(s, pos)
    }

    proof fn parse_bounds(s: Seq<u8>, pos: int, c: NoCtx) {
            match spec_parse_u32(s, pos) {
                Err(_) => {},
                Ok((base_flags, pos)) => {
                    match spec_parse_u32(s, pos) {
                        Err(_) => {},
                        Ok((name_hash, pos)) => {
                            match spec_parse_u64(s, pos) {
                                Err(_) => {},
                                Ok((flags, pos)) => {
                                    match spec_parse_u32(s, pos) {
                                        Err(_) => {},
                                        Ok((floor_flags, pos)) => {
                                            <Vec<Bone> as Decode<NoCtx>>::parse_bounds(s, pos, NoCtx);
                                            match spec_parse_sequence::<NoCtx, Bone>(s, pos, NoCtx) {
                                                Err(_) => {},
                                                Ok((bone_count, pos)) => {
                                                    match spec_parse_bool(s, pos) {
                                                        Err(_) => {},
                                                        Ok((has_hierarchy, pos)) => {
                                                            match spec_parse_u32(s, pos) {
                                                                Err(_) => {},
                                                                Ok((default_animation_hash, pos)) => {
                                                                    <Option<MirrorData> as Decode<NoCtx>>::parse_bounds(s, pos, NoCtx);
                                                                    match spec_parse_optional::<NoCtx, MirrorData>(s, pos, NoCtx) {
                                                                        Err(_) => {},
                                                                        Ok((mirror_data, pos)) => {
                                                                        },
                                                                    }
                                                                },
                                                            }
                                                        },
                                                    }
                                                },
                                            }
                                        },
                                    }
                                },
                            }
                        },
                    }
                },
            }
    }

    fn decode(r: &mut PositionTracker, c: NoCtx) -> (res: Result<Clump, DecodeError>) {
        let ghost s = old(r).data();
        let ghost p0 = old(r).pos();
        let base_flags = match r.read_u32() {
            Ok(v) => v,
            Err(e) => {
                proof {
                    assert(spec_parse_clump(s, p0) == Err::<(ClumpView, int), DecodeError>(e));
                    assert(<Clump as Decode<NoCtx>>::spec_parse(s, p0, NoCtx) == spec_parse_clump(s, p0));
                }
                return Err(e);
            },
        };
        let name_hash = match r.read_u32() {
            Ok(v) => v,
            Err(e) => {
                proof {
                    assert(spec_parse_clump(s, p0) == Err::<(ClumpView, int), DecodeError>(e));
                    assert(<Clump as Decode<NoCtx>>::spec_parse(s, p0, NoCtx) == spec_parse_clump(s, p0));
                }
                return Err(e);
            },
        };
        let flags = match r.read_u64() {
            Ok(v) => v,
            Err(e) => {
                proof {
                    assert(spec_parse_clump(s, p0) == Err::<(ClumpView, int), DecodeError>(e));
                    assert(<Clump as Decode<NoCtx>>::spec_parse(s, p0, NoCtx) == spec_parse_clump(s, p0));
                }
                return Err(e);
            },
        };
        let floor_flags = match r.read_u32() {
            Ok(v) => v,
            Err(e) => {
                proof {
                    assert(spec_parse_clump(s, p0) == Err::<(ClumpView, int), DecodeError>(e));
                    assert(<Clump as Decode<NoCtx>>::spec_parse(s, p0, NoCtx) == spec_parse_clump(s, p0));
                }
                return Err(e);
            },
        };
        let bone_count = match Vec::<Bone>::decode(r, NoCtx) {
            Ok(v) => v,
            Err(e) => {
                proof {
                    assert(spec_parse_clump(s, p0) == Err::<(ClumpView, int), DecodeError>(e));
                    assert(<Clump as Decode<NoCtx>>::spec_parse(s, p0, NoCtx) == spec_parse_clump(s, p0));
                }
                return Err(e);
            },
        };
        let has_hierarchy = match r.read_bool() {
            Ok(v) => v,
            Err(e) => {
                proof {
                    assert(spec_parse_clump(s, p0) == Err::<(ClumpView, int), DecodeError>(e));
                    assert(<Clump as Decode<NoCtx>>::spec_parse(s, p0, NoCtx) == spec_parse_clump(s, p0));
                }
                return Err(e);
            },
        };
        let default_animation_hash = match r.read_u32() {
            Ok(v) => v,
            Err(e) => {
                proof {
                    assert(spec_parse_clump(s, p0) == Err::<(ClumpView, int), DecodeError>(e));
                    assert(<Clump as Decode<NoCtx>>::spec_parse(s, p0, NoCtx) == spec_parse_clump(s, p0));
                }
                return Err(e);
            },
        };
        let mirror_data = match Option::<MirrorData>::decode(r, NoCtx) {
            Ok(v) => v,
            Err(e) => {
                proof {
                    assert(spec_parse_clump(s, p0) == Err::<(ClumpView, int), DecodeError>(e));
                    assert(<Clump as Decode<NoCtx>>::spec_parse(s, p0, NoCtx) == spec_parse_clump(s, p0));
                }
                return Err(e);
            },
        };
        let out = Clump {
            base_flags,
            name_hash,
            flags,
            floor_flags,
            bone_count,
            has_hierarchy,
            default_animation_hash,
            mirror_data,
        };
        proof {
            assert(spec_parse_clump(s, p0) == Ok::<(ClumpView, int), DecodeError>((out.deep_view(), r.pos())));
            assert(<Clump as Decode<NoCtx>>::spec_parse(s, p0, NoCtx) == spec_parse_clump(s, p0));
        }
        Ok(out)
    }
}

#[derive(Clone, Copy, Debug, PartialEq, Eq, Structural)]
pub struct Bone {
    pub bone_id: u32,
    pub inverted_base_pose: Matrix,
}

impl DeepView for Bone {
    type V = Bone;

    open spec fn deep_view(&self) -> Bone {
        *self
    }
}

pub open spec fn spec_parse_bone(s: Seq<u8>, pos: int) -> Result<(Bone, int), DecodeError> {
    match spec_parse_u32(s, pos) {
        Err(e) => Err(e),
        Ok((bone_id, pos)) => {
            match spec_parse_matrix(s, pos) {
                Err(e) => Err(e),
                Ok((inverted_base_pose, pos)) => {
                    Ok((
                        Bone {
                            bone_id: bone_id,
                            inverted_base_pose: inverted_base_pose,
                        },
                        pos,
                    ))
                },
            }
        },
    }
}

impl Decode<NoCtx> for Bone {
    open spec fn spec_parse(s: Seq<u8>, pos: int, c: NoCtx) -> Result<(Bone, int), DecodeError> {
        spec_parse_bone(s, pos)
    }

    proof fn parse_bounds(s: Seq<u8>, pos: int, c: NoCtx) {
    }

    fn decode(r: &mut PositionTracker, c: NoCtx) -> (res: Result<Bone, DecodeError>) {
        let ghost s = old(r).data();
        let ghost p0 = old(r).pos();
        let bone_id = match r.read_u32() {
            Ok(v) => v,
            Err(e) => {
                proof {
                    assert(spec_parse_bone(s, p0) == Err::<(Bone, int), DecodeError>(e));
                    assert(<Bone as Decode<NoCtx>>::spec_parse(s, p0, NoCtx) == spec_parse_bone(s, p0));
                }
                return Err(e);
            },
        };
        let inverted_base_pose = match Matrix::decode(r, NoCtx) {
            Ok(v) => v,
            Err(e) => {
                proof {
                    assert(spec_parse_bone(s, p0) == Err::<(Bone, int), DecodeError>(e));
                    assert(<Bone as Decode<NoCtx>>::spec_parse(s, p0, NoCtx) == spec_parse_bone(s, p0));
                }
                return Err(e);
            },
        };
        let out = Bone {
            bone_id,
            inverted_base_pose,
        };
        proof {
            assert(spec_parse_bone(s, p0) == Ok::<(Bone, int), DecodeError>((out.deep_view(), r.pos())));
            assert(<Bone as Decode<NoCtx>>::spec_parse(s, p0, NoCtx) == spec_parse_bone(s, p0));
        }
        Ok(out)
    }
}

#[derive(Clone, Copy, Debug, PartialEq, Eq, Structural)]
pub struct MirrorData {
    pub mirror_contents: BoundingBox,
    pub reflection_plane: ClumpPlane,
}

impl DeepView for MirrorData {
    type V = MirrorData;

    open spec fn deep_view(&self) -> MirrorData {
        *self
    }
}

pub open spec fn spec_parse_mirror_data(s: Seq<u8>, pos: int) -> Result<(MirrorData, int), DecodeError> {
    match spec_parse_bounding_box(s, pos) {
        Err(e) => Err(e),
        Ok((mirror_contents, pos)) => {
            match spec_parse_clump_plane(s, pos) {
                Err(e) => Err(e),
                Ok((reflection_plane, pos)) => {
                    Ok((
                        MirrorData {
                            mirror_contents: mirror_contents,
                            reflection_plane: reflection_plane,
                        },
                        pos,
                    ))
                },
            }
        },
    }
}

impl Decode<NoCtx> for MirrorData {
    open spec fn spec_parse(s: Seq<u8>, pos: int, c: NoCtx) -> Result<(MirrorData, int), DecodeError> {
        spec_parse_mirror_data(s, pos)
    }

    proof fn parse_bounds(s: Seq<u8>, pos: int, c: NoCtx) {
    }

    fn decode(r: &mut PositionTracker, c: NoCtx) -> (res: Result<MirrorData, DecodeError>) {
        let ghost s = old(r).data();
        let ghost p0 = old(r).pos();
        let mirror_contents = match BoundingBox::decode(r, NoCtx) {
            Ok(v) => v,
            Err(e) => {
                proof {
                    assert(spec_parse_mirror_data(s, p0) == Err::<(MirrorData, int), DecodeError>(e));
                    assert(<MirrorData as Decode<NoCtx>>::spec_parse(s, p0, NoCtx) == spec_parse_mirror_data(s, p0));
                }
                return Err(e);
            },
        };
        let reflection_plane = match ClumpPlane::decode(r, NoCtx) {
            Ok(v) => v,
            Err(e) => {
                proof {
                    assert(spec_parse_mirror_data(s, p0) == Err::<(MirrorData, int), DecodeError>(e));
                    assert(<MirrorData as Decode<NoCtx>>::spec_parse(s, p0, NoCtx) == spec_parse_mirror_data(s, p0));
                }
                return Err(e);
            },
        };
        let out = MirrorData {
            mirror_contents,
            reflection_plane,
        };
        proof {
            assert(spec_parse_mirror_data(s, p0) == Ok::<(MirrorData, int), DecodeError>((out.deep_view(), r.pos())));
            assert(<MirrorData as Decode<NoCtx>>::spec_parse(s, p0, NoCtx) == spec_parse_mirror_data(s, p0));
        }
        Ok(out)
    }
}

#[derive(Clone, Copy, Debug, PartialEq, Eq, Structural)]
pub struct ClumpPlane {
    pub normal: Vector3,
    pub point_on_plane: Vector3,
}

impl DeepView for ClumpPlane {
    type V = ClumpPlane;

    open spec fn deep_view(&self) -> ClumpPlane {
        *self
    }
}

pub open spec fn spec_parse_clump_plane(s: Seq<u8>, pos: int) -> Result<(ClumpPlane, int), DecodeError> {
    match spec_parse_vector3(s, pos) {
        Err(e) => Err(e),
        Ok((normal, pos)) => {
            match spec_parse_vector3(s, pos) {
                Err(e) => Err(e),
                Ok((point_on_plane, pos)) => {
                    Ok((
                        ClumpPlane {
                            normal: normal,
                            point_on_plane: point_on_plane,
                        },
                        pos,
                    ))
                },
            }
        },
    }
}

impl Decode<NoCtx> for ClumpPlane {
    open spec fn spec_parse(s: Seq<u8>, pos: int, c: NoCtx) -> Result<(ClumpPlane, int), DecodeError> {
        spec_parse_clump_plane(s, pos)
    }

    proof fn parse_bounds(s: Seq<u8>, pos: int, c: NoCtx) {
    }

    fn decode(r: &mut PositionTracker, c: NoCtx) -> (res: Result<ClumpPlane, DecodeError>) {
        let ghost s = old(r).data();
        let ghost p0 = old(r).pos();
        let normal = match Vector3::decode(r, NoCtx) {
            Ok(v) => v,
            Err(e) => {
                proof {
                    assert(spec_parse_clump_plane(s, p0) == Err::<(ClumpPlane, int), DecodeError>(e));
                    assert(<ClumpPlane as Decode<NoCtx>>::spec_parse(s, p0, NoCtx) == spec_parse_clump_plane(s, p0));
                }
                return Err(e);
            },
        };
        let point_on_plane = match Vector3::decode(r, NoCtx) {
            Ok(v) => v,
            Err(e) => {
                proof {
                    assert(spec_parse_clump_plane(s, p0) == Err::<(ClumpPlane, int), DecodeError>(e));
                    assert(<ClumpPlane as Decode<NoCtx>>::spec_parse(s, p0, NoCtx) == spec_parse_clump_plane(s, p0));
                }
                return Err(e);
            },
        };
        let out = ClumpPlane {
            normal,
            point_on_plane,
        };
        proof {
            assert(spec_parse_clump_plane(s, p0) == Ok::<(ClumpPlane, int), DecodeError>((out.deep_view(), r.pos())));
            assert(<ClumpPlane as Decode<NoCtx>>::spec_parse(s, p0, NoCtx) == spec_parse_clump_plane(s, p0));
        }
        Ok(out)
    }
}

} // verus!
