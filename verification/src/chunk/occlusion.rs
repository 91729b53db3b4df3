//! The occlusion tree record.  A single flag read once for the whole
//! structure decides whether branch child pointers are present on the wire
//! at all.

use vstd::prelude::*;

use crate::algebra::{spec_parse_plane, Plane};
use crate::decode::{
    decode_vec_n, lemma_parse_n_bounds, spec_parse_bool, spec_parse_n, spec_parse_sequence,
    spec_parse_u32, Decode, DecodeError, NoCtx, PositionTracker,
};

verus! {

#[derive(Clone, Copy, Debug, PartialEq, Eq, Structural)]
pub struct OcclusionLeaf {
    pub faces: u32,
}

impl DeepView for OcclusionLeaf {
    type V = OcclusionLeaf;

    open spec fn deep_view(&self) -> OcclusionLeaf {
        *self
    }
}

pub open spec fn spec_parse_occlusion_leaf(s: Seq<u8>, pos: int) -> Result<
    (OcclusionLeaf, int),
    DecodeError,
> {
    match spec_parse_u32(s, pos) {
        Err(e) => Err(e),
        Ok((faces, pos)) => Ok((OcclusionLeaf { faces }, pos)),
    }
}

impl Decode<NoCtx> for OcclusionLeaf {
    open spec fn spec_parse(s: Seq<u8>, pos: int, c: NoCtx) -> Result<
        (OcclusionLeaf, int),
        DecodeError,
    > {
        spec_parse_occlusion_leaf(s, pos)
    }

    proof fn parse_bounds(s: Seq<u8>, pos: int, c: NoCtx) {
    }

    fn decode(r: &mut PositionTracker, c: NoCtx) -> (res: Result<OcclusionLeaf, DecodeError>) {
        let faces = match r.read_u32() {
            Ok(v) => v,
            Err(e) => return Err(e),
        };
        Ok(OcclusionLeaf { faces })
    }
}

/// A branch node.  In plane-BSP mode the two child pointers are not on the
/// wire and decode as zero.
#[derive(Clone, Copy, Debug, PartialEq, Eq, Structural)]
pub struct OcclusionBranch {
    pub plane: Plane,
    pub negative_leaf: u32,
    pub negative: u32,
    pub positive_leaf: u32,
    pub positive: u32,
}

impl DeepView for OcclusionBranch {
    type V = OcclusionBranch;

    open spec fn deep_view(&self) -> OcclusionBranch {
        *self
    }
}

/// The decoding context is the structure-wide plane-BSP flag.
pub open spec fn spec_parse_occlusion_branch(s: Seq<u8>, pos: int, is_plane_bsp: bool) -> Result<
    (OcclusionBranch, int),
    DecodeError,
> {
    match spec_parse_plane(s, pos) {
        Err(e) => Err(e),
        Ok((plane, pos)) => match spec_parse_u32(s, pos) {
            Err(e) => Err(e),
            Ok((negative_leaf, pos)) => if is_plane_bsp {
                match spec_parse_u32(s, pos) {
                    Err(e) => Err(e),
                    Ok((positive_leaf, pos)) => Ok(
                        (
                            OcclusionBranch {
                                plane,
                                negative_leaf,
                                negative: 0,
                                positive_leaf,
                                positive: 0,
                            },
                            pos,
                        ),
                    ),
                }
            } else {
                match spec_parse_u32(s, pos) {
                    Err(e) => Err(e),
                    Ok((negative, pos)) => match spec_parse_u32(s, pos) {
                        Err(e) => Err(e),
                        Ok((positive_leaf, pos)) => match spec_parse_u32(s, pos) {
                            Err(e) => Err(e),
                            Ok((positive, pos)) => Ok(
                                (
                                    OcclusionBranch {
                                        plane,
                                        negative_leaf,
                                        negative,
                                        positive_leaf,
                                        positive,
                                    },
                                    pos,
                                ),
                            ),
                        },
                    },
                }
            },
        },
    }
}

impl Decode<bool> for OcclusionBranch {
    open spec fn spec_parse(s: Seq<u8>, pos: int, c: bool) -> Result<
        (OcclusionBranch, int),
        DecodeError,
    > {
        spec_parse_occlusion_branch(s, pos, c)
    }

    proof fn parse_bounds(s: Seq<u8>, pos: int, c: bool) {
    }

    fn decode(r: &mut PositionTracker, c: bool) -> (res: Result<OcclusionBranch, DecodeError>) {
        let ghost s = old(r).data();
        let ghost p0 = old(r).pos();
        let plane = match Plane::decode(r, NoCtx) {
            Ok(v) => v,
            Err(e) => {
                proof {
                    assert(spec_parse_occlusion_branch(s, p0, c) == Err::<
                        (OcclusionBranch, int),
                        DecodeError,
                    >(e));
                }
                return Err(e);
            },
        };
        let negative_leaf = match r.read_u32() {
            Ok(v) => v,
            Err(e) => {
                proof {
                    assert(spec_parse_occlusion_branch(s, p0, c) == Err::<
                        (OcclusionBranch, int),
                        DecodeError,
                    >(e));
                }
                return Err(e);
            },
        };
        let negative = if c {
            0
        } else {
            match r.read_u32() {
                Ok(v) => v,
                Err(e) => {
                    proof {
                        assert(spec_parse_occlusion_branch(s, p0, c) == Err::<
                            (OcclusionBranch, int),
                            DecodeError,
                        >(e));
                    }
                    return Err(e);
                },
            }
        };
        let positive_leaf = match r.read_u32() {
            Ok(v) => v,
            Err(e) => {
                proof {
                    assert(spec_parse_occlusion_branch(s, p0, c) == Err::<
                        (OcclusionBranch, int),
                        DecodeError,
                    >(e));
                }
                return Err(e);
            },
        };
        let positive = if c {
            0
        } else {
            match r.read_u32() {
                Ok(v) => v,
                Err(e) => {
                    proof {
                        assert(spec_parse_occlusion_branch(s, p0, c) == Err::<
                            (OcclusionBranch, int),
                            DecodeError,
                        >(e));
                    }
                    return Err(e);
                },
            }
        };
        let out = OcclusionBranch { plane, negative_leaf, negative, positive_leaf, positive };
        proof {
            assert(spec_parse_occlusion_branch(s, p0, c) == Ok::<
                (OcclusionBranch, int),
                DecodeError,
            >((out, r.pos())));
            assert(<OcclusionBranch as Decode<bool>>::spec_parse(s, p0, c)
                == spec_parse_occlusion_branch(s, p0, c));
        }
        Ok(out)
    }
}

#[derive(Clone, Debug, PartialEq, Eq)]
pub struct Occlusion {
    pub branches: Vec<OcclusionBranch>,
    pub leaves: Vec<OcclusionLeaf>,
    pub has_occlusion_meshes: bool,
}

pub struct OcclusionView {
    pub branches: Seq<OcclusionBranch>,
    pub leaves: Seq<OcclusionLeaf>,
    pub has_occlusion_meshes: bool,
}

impl DeepView for Occlusion {
    type V = OcclusionView;

    open spec fn deep_view(&self) -> OcclusionView {
        OcclusionView {
            branches: self.branches.deep_view(),
            leaves: self.leaves.deep_view(),
            has_occlusion_meshes: self.has_occlusion_meshes,
        }
    }
}

pub open spec fn spec_parse_occlusion(s: Seq<u8>, pos: int) -> Result<
    (OcclusionView, int),
    DecodeError,
> {
    match spec_parse_bool(s, pos) {
        Err(e) => Err(e),
        Ok((is_plane_bsp, pos)) => match spec_parse_u32(s, pos) {
            Err(e) => Err(e),
            Ok((branches_count, pos)) => match spec_parse_n::<bool, OcclusionBranch>(
                s,
                pos,
                branches_count as nat,
                is_plane_bsp,
            ) {
                Err(e) => Err(e),
                Ok((branches, pos)) => match spec_parse_sequence::<NoCtx, OcclusionLeaf>(
                    s,
                    pos,
                    NoCtx,
                ) {
                    Err(e) => Err(e),
                    Ok((leaves, pos)) => match spec_parse_bool(s, pos) {
                        Err(e) => Err(e),
                        Ok((has_occlusion_meshes, pos)) => Ok(
                            (OcclusionView { branches, leaves, has_occlusion_meshes }, pos),
                        ),
                    },
                },
            },
        },
    }
}

impl Decode<NoCtx> for Occlusion {
    open spec fn spec_parse(s: Seq<u8>, pos: int, c: NoCtx) -> Result<
        (OcclusionView, int),
        DecodeError,
    > {
        spec_parse_occlusion(s, pos)
    }

    proof fn parse_bounds(s: Seq<u8>, pos: int, c: NoCtx) {
        match spec_parse_bool(s, pos) {
            Err(_) => {},
            Ok((is_plane_bsp, pos)) => {
                match spec_parse_u32(s, pos) {
                    Err(_) => {},
                    Ok((branches_count, pos)) => {
                        lemma_parse_n_bounds::<bool, OcclusionBranch>(
                            s,
                            pos,
                            branches_count as nat,
                            is_plane_bsp,
                        );
                        match spec_parse_n::<bool, OcclusionBranch>(
                            s,
                            pos,
                            branches_count as nat,
                            is_plane_bsp,
                        ) {
                            Err(_) => {},
                            Ok((branches, pos)) => {
                                <Vec<OcclusionLeaf> as Decode<NoCtx>>::parse_bounds(s, pos, NoCtx);
                            },
                        }
                    },
                }
            },
        }
    }

    fn decode(r: &mut PositionTracker, c: NoCtx) -> (res: Result<Occlusion, DecodeError>) {
        let ghost s = old(r).data();
        let ghost p0 = old(r).pos();
        let is_plane_bsp = match r.read_bool() {
            Ok(v) => v,
            Err(e) => {
                proof {
                    assert(spec_parse_occlusion(s, p0) == Err::<(OcclusionView, int), DecodeError>(
                        e,
                    ));
                }
                return Err(e);
            },
        };
        let branches_count = match r.read_u32() {
            Ok(v) => v,
            Err(e) => {
                proof {
                    assert(spec_parse_occlusion(s, p0) == Err::<(OcclusionView, int), DecodeError>(
                        e,
                    ));
                }
                return Err(e);
            },
        };
        let branches = match decode_vec_n::<bool, OcclusionBranch>(
            r,
            branches_count as u64,
            is_plane_bsp,
        ) {
            Ok(v) => v,
            Err(e) => {
                proof {
                    assert(spec_parse_occlusion(s, p0) == Err::<(OcclusionView, int), DecodeError>(
                        e,
                    ));
                }
                return Err(e);
            },
        };
        let leaves = match Vec::<OcclusionLeaf>::decode(r, NoCtx) {
            Ok(v) => v,
            Err(e) => {
                proof {
                    assert(spec_parse_occlusion(s, p0) == Err::<(OcclusionView, int), DecodeError>(
                        e,
                    ));
                }
                return Err(e);
            },
        };
        let has_occlusion_meshes = match r.read_bool() {
            Ok(v) => v,
            Err(e) => {
                proof {
                    assert(spec_parse_occlusion(s, p0) == Err::<(OcclusionView, int), DecodeError>(
                        e,
                    ));
                }
                return Err(e);
            },
        };
        let out = Occlusion { branches, leaves, has_occlusion_meshes };
        proof {
            assert(spec_parse_occlusion(s, p0) == Ok::<(OcclusionView, int), DecodeError>(
                (out.deep_view(), r.pos()),
            ));
        }
        Ok(out)
    }
}

/// Plane-BSP mode: a branch consumes 24 bytes and leaves both child
/// pointers zero; otherwise it consumes 32 bytes and reads them.
pub proof fn lemma_occlusion_branch_modes(s: Seq<u8>, pos: int, is_plane_bsp: bool)
    ensures
        match spec_parse_occlusion_branch(s, pos, is_plane_bsp) {
            Ok((b, p)) => (is_plane_bsp ==> b.negative == 0 && b.positive == 0 && p == pos + 24)
                && (!is_plane_bsp ==> p == pos + 32),
            Err(_) => true,
        },
{
}

} // verus!
