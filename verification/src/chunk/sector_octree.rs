//! The sector-octree record: three count-prefixed lists of blocks, leaves
//! and octants.

use vstd::prelude::*;

use crate::bounding_box::{spec_parse_bounding_box, BoundingBox};
use crate::decode::{
    spec_parse_bool, spec_parse_i32, spec_parse_sequence, spec_parse_u32, Decode, DecodeError,
    NoCtx, PositionTracker,
};

verus! {

#[derive(Clone, Copy, Debug, PartialEq, Eq, Structural)]
pub struct SectorOctreeBlock {
    pub material_block_index: u32,
}

impl DeepView for SectorOctreeBlock {
    type V = SectorOctreeBlock;

    open spec fn deep_view(&self) -> SectorOctreeBlock {
        *self
    }
}

pub open spec fn spec_parse_sector_octree_block(s: Seq<u8>, pos: int) -> Result<
    (SectorOctreeBlock, int),
    DecodeError,
> {
    match spec_parse_u32(s, pos) {
        Err(e) => Err(e),
        Ok((material_block_index, pos)) => Ok((SectorOctreeBlock { material_block_index }, pos)),
    }
}

impl Decode<NoCtx> for SectorOctreeBlock {
    open spec fn spec_parse(s: Seq<u8>, pos: int, c: NoCtx) -> Result<
        (SectorOctreeBlock, int),
        DecodeError,
    > {
        spec_parse_sector_octree_block(s, pos)
    }

    proof fn parse_bounds(s: Seq<u8>, pos: int, c: NoCtx) {
    }

    fn decode(r: &mut PositionTracker, c: NoCtx) -> (res: Result<SectorOctreeBlock, DecodeError>) {
        let material_block_index = match r.read_u32() {
            Ok(v) => v,
            Err(e) => return Err(e),
        };
        Ok(SectorOctreeBlock { material_block_index })
    }
}

/// A leaf; its world-block index is on the wire only when the leaf has a
/// positive world-block count.
#[derive(Clone, Copy, Debug, PartialEq, Eq)]
pub struct SectorOctreeLeaf {
    pub sector_floor_flag: u32,
    pub world_blocks_count: i32,
    pub world_block_index: Option<u32>,
    pub zone_count: u32,
    pub zone: u32,
}

impl DeepView for SectorOctreeLeaf {
    type V = SectorOctreeLeaf;

    open spec fn deep_view(&self) -> SectorOctreeLeaf {
        *self
    }
}

pub open spec fn spec_parse_sector_octree_leaf(s: Seq<u8>, pos: int) -> Result<
    (SectorOctreeLeaf, int),
    DecodeError,
> {
    match spec_parse_u32(s, pos) {
        Err(e) => Err(e),
        Ok((sector_floor_flag, pos)) => match spec_parse_i32(s, pos) {
            Err(e) => Err(e),
            Ok((world_blocks_count, pos)) => if world_blocks_count > 0 {
                match spec_parse_u32(s, pos) {
                    Err(e) => Err(e),
                    Ok((world_block_index, pos)) => match spec_parse_u32(s, pos) {
                        Err(e) => Err(e),
                        Ok((zone_count, pos)) => match spec_parse_u32(s, pos) {
                            Err(e) => Err(e),
                            Ok((zone, pos)) => Ok(
                                (
                                    SectorOctreeLeaf {
                                        sector_floor_flag,
                                        world_blocks_count,
                                        world_block_index: Some(world_block_index),
                                        zone_count,
                                        zone,
                                    },
                                    pos,
                                ),
                            ),
                        },
                    },
                }
            } else {
                match spec_parse_u32(s, pos) {
                    Err(e) => Err(e),
                    Ok((zone_count, pos)) => match spec_parse_u32(s, pos) {
                        Err(e) => Err(e),
                        Ok((zone, pos)) => Ok(
                            (
                                SectorOctreeLeaf {
                                    sector_floor_flag,
                                    world_blocks_count,
                                    world_block_index: None,
                                    zone_count,
                                    zone,
                                },
                                pos,
                            ),
                        ),
                    },
                }
            },
        },
    }
}

impl Decode<NoCtx> for SectorOctreeLeaf {
    open spec fn spec_parse(s: Seq<u8>, pos: int, c: NoCtx) -> Result<
        (SectorOctreeLeaf, int),
        DecodeError,
    > {
        spec_parse_sector_octree_leaf(s, pos)
    }

    proof fn parse_bounds(s: Seq<u8>, pos: int, c: NoCtx) {
    }

    fn decode(r: &mut PositionTracker, c: NoCtx) -> (res: Result<SectorOctreeLeaf, DecodeError>) {
        let ghost s = old(r).data();
        let ghost p0 = old(r).pos();
        let sector_floor_flag = match r.read_u32() {
            Ok(v) => v,
            Err(e) => {
                proof {
                    assert(spec_parse_sector_octree_leaf(s, p0) == Err::<
                        (SectorOctreeLeaf, int),
                        DecodeError,
                    >(e));
                }
                return Err(e);
            },
        };
        let world_blocks_count = match r.read_i32() {
            Ok(v) => v,
            Err(e) => {
                proof {
                    assert(spec_parse_sector_octree_leaf(s, p0) == Err::<
                        (SectorOctreeLeaf, int),
                        DecodeError,
                    >(e));
                }
                return Err(e);
            },
        };
        let world_block_index = if world_blocks_count > 0 {
            match r.read_u32() {
                Ok(v) => Some(v),
                Err(e) => {
                    proof {
                        assert(spec_parse_sector_octree_leaf(s, p0) == Err::<
                            (SectorOctreeLeaf, int),
                            DecodeError,
                        >(e));
                    }
                    return Err(e);
                },
            }
        } else {
            None
        };
        let zone_count = match r.read_u32() {
            Ok(v) => v,
            Err(e) => {
                proof {
                    assert(spec_parse_sector_octree_leaf(s, p0) == Err::<
                        (SectorOctreeLeaf, int),
                        DecodeError,
                    >(e));
                }
                return Err(e);
            },
        };
        let zone = match r.read_u32() {
            Ok(v) => v,
            Err(e) => {
                proof {
                    assert(spec_parse_sector_octree_leaf(s, p0) == Err::<
                        (SectorOctreeLeaf, int),
                        DecodeError,
                    >(e));
                }
                return Err(e);
            },
        };
        let out = SectorOctreeLeaf {
            sector_floor_flag,
            world_blocks_count,
            world_block_index,
            zone_count,
            zone,
        };
        proof {
            assert(spec_parse_sector_octree_leaf(s, p0) == Ok::<
                (SectorOctreeLeaf, int),
                DecodeError,
            >((out, r.pos())));
            assert(<SectorOctreeLeaf as Decode<NoCtx>>::spec_parse(s, p0, NoCtx)
                == spec_parse_sector_octree_leaf(s, p0));
        }
        Ok(out)
    }
}

/// An octant: shared bounds and flags, then either a leaf index or a
/// subtree index depending on a boolean on the wire.
#[derive(Clone, Copy, Debug, PartialEq, Eq, Structural)]
pub enum SectorOctreeOctant {
    Leaf { bounds: BoundingBox, flags: u32, leaf_index: u32 },
    Subtree { bounds: BoundingBox, flags: u32, subtree_index: u32 },
}

impl DeepView for SectorOctreeOctant {
    type V = SectorOctreeOctant;

    open spec fn deep_view(&self) -> SectorOctreeOctant {
        *self
    }
}

pub open spec fn spec_parse_sector_octree_octant(s: Seq<u8>, pos: int) -> Result<
    (SectorOctreeOctant, int),
    DecodeError,
> {
    match spec_parse_bounding_box(s, pos) {
        Err(e) => Err(e),
        Ok((bounds, pos)) => match spec_parse_u32(s, pos) {
            Err(e) => Err(e),
            Ok((flags, pos)) => match spec_parse_bool(s, pos) {
                Err(e) => Err(e),
                Ok((is_leaf, pos)) => match spec_parse_u32(s, pos) {
                    Err(e) => Err(e),
                    Ok((index, pos)) => if is_leaf {
                        Ok((SectorOctreeOctant::Leaf { bounds, flags, leaf_index: index }, pos))
                    } else {
                        Ok(
                            (
                                SectorOctreeOctant::Subtree {
                                    bounds,
                                    flags,
                                    subtree_index: index,
                                },
                                pos,
                            ),
                        )
                    },
                },
            },
        },
    }
}

impl Decode<NoCtx> for SectorOctreeOctant {
    open spec fn spec_parse(s: Seq<u8>, pos: int, c: NoCtx) -> Result<
        (SectorOctreeOctant, int),
        DecodeError,
    > {
        spec_parse_sector_octree_octant(s, pos)
    }

    proof fn parse_bounds(s: Seq<u8>, pos: int, c: NoCtx) {
    }

    fn decode(r: &mut PositionTracker, c: NoCtx) -> (res: Result<SectorOctreeOctant, DecodeError>) {
        let ghost s = old(r).data();
        let ghost p0 = old(r).pos();
        let bounds = match BoundingBox::decode(r, NoCtx) {
            Ok(v) => v,
            Err(e) => {
                proof {
                    assert(spec_parse_sector_octree_octant(s, p0) == Err::<
                        (SectorOctreeOctant, int),
                        DecodeError,
                    >(e));
                }
                return Err(e);
            },
        };
        let flags = match r.read_u32() {
            Ok(v) => v,
            Err(e) => {
                proof {
                    assert(spec_parse_sector_octree_octant(s, p0) == Err::<
                        (SectorOctreeOctant, int),
                        DecodeError,
                    >(e));
                }
                return Err(e);
            },
        };
        let is_leaf = match r.read_bool() {
            Ok(v) => v,
            Err(e) => {
                proof {
                    assert(spec_parse_sector_octree_octant(s, p0) == Err::<
                        (SectorOctreeOctant, int),
                        DecodeError,
                    >(e));
                }
                return Err(e);
            },
        };
        let index = match r.read_u32() {
            Ok(v) => v,
            Err(e) => {
                proof {
                    assert(spec_parse_sector_octree_octant(s, p0) == Err::<
                        (SectorOctreeOctant, int),
                        DecodeError,
                    >(e));
                }
                return Err(e);
            },
        };
        let out = if is_leaf {
            SectorOctreeOctant::Leaf { bounds, flags, leaf_index: index }
        } else {
            SectorOctreeOctant::Subtree { bounds, flags, subtree_index: index }
        };
        proof {
            assert(spec_parse_sector_octree_octant(s, p0) == Ok::<
                (SectorOctreeOctant, int),
                DecodeError,
            >((out, r.pos())));
            assert(<SectorOctreeOctant as Decode<NoCtx>>::spec_parse(s, p0, NoCtx)
                == spec_parse_sector_octree_octant(s, p0));
        }
        Ok(out)
    }
}

#[derive(Clone, Debug, PartialEq, Eq)]
pub struct SectorOctree {
    pub blocks: Vec<SectorOctreeBlock>,
    pub leaves: Vec<SectorOctreeLeaf>,
    pub octants: Vec<SectorOctreeOctant>,
}

pub struct SectorOctreeView {
    pub blocks: Seq<SectorOctreeBlock>,
    pub leaves: Seq<SectorOctreeLeaf>,
    pub octants: Seq<SectorOctreeOctant>,
}

impl DeepView for SectorOctree {
    type V = SectorOctreeView;

    open spec fn deep_view(&self) -> SectorOctreeView {
        SectorOctreeView {
            blocks: self.blocks.deep_view(),
            leaves: self.leaves.deep_view(),
            octants: self.octants.deep_view(),
        }
    }
}

pub open spec fn spec_parse_sector_octree(s: Seq<u8>, pos: int) -> Result<
    (SectorOctreeView, int),
    DecodeError,
> {
    match spec_parse_sequence::<NoCtx, SectorOctreeBlock>(s, pos, NoCtx) {
        Err(e) => Err(e),
        Ok((blocks, pos)) => match spec_parse_sequence::<NoCtx, SectorOctreeLeaf>(s, pos, NoCtx) {
            Err(e) => Err(e),
            Ok((leaves, pos)) => match spec_parse_sequence::<NoCtx, SectorOctreeOctant>(
                s,
                pos,
                NoCtx,
            ) {
                Err(e) => Err(e),
                Ok((octants, pos)) => Ok((SectorOctreeView { blocks, leaves, octants }, pos)),
            },
        },
    }
}

impl Decode<NoCtx> for SectorOctree {
    open spec fn spec_parse(s: Seq<u8>, pos: int, c: NoCtx) -> Result<
        (SectorOctreeView, int),
        DecodeError,
    > {
        spec_parse_sector_octree(s, pos)
    }

    proof fn parse_bounds(s: Seq<u8>, pos: int, c: NoCtx) {
        <Vec<SectorOctreeBlock> as Decode<NoCtx>>::parse_bounds(s, pos, NoCtx);
        match spec_parse_sequence::<NoCtx, SectorOctreeBlock>(s, pos, NoCtx) {
            Err(_) => {},
            Ok((blocks, pos)) => {
                <Vec<SectorOctreeLeaf> as Decode<NoCtx>>::parse_bounds(s, pos, NoCtx);
                match spec_parse_sequence::<NoCtx, SectorOctreeLeaf>(s, pos, NoCtx) {
                    Err(_) => {},
                    Ok((leaves, pos)) => {
                        <Vec<SectorOctreeOctant> as Decode<NoCtx>>::parse_bounds(s, pos, NoCtx);
                    },
                }
            },
        }
    }

    fn decode(r: &mut PositionTracker, c: NoCtx) -> (res: Result<SectorOctree, DecodeError>) {
        let ghost s = old(r).data();
        let ghost p0 = old(r).pos();
        let blocks = match Vec::<SectorOctreeBlock>::decode(r, NoCtx) {
            Ok(v) => v,
            Err(e) => {
                proof {
                    assert(spec_parse_sector_octree(s, p0) == Err::<
                        (SectorOctreeView, int),
                        DecodeError,
                    >(e));
                }
                return Err(e);
            },
        };
        let leaves = match Vec::<SectorOctreeLeaf>::decode(r, NoCtx) {
            Ok(v) => v,
            Err(e) => {
                proof {
                    assert(spec_parse_sector_octree(s, p0) == Err::<
                        (SectorOctreeView, int),
                        DecodeError,
                    >(e));
                }
                return Err(e);
            },
        };
        let octants = match Vec::<SectorOctreeOctant>::decode(r, NoCtx) {
            Ok(v) => v,
            Err(e) => {
                proof {
                    assert(spec_parse_sector_octree(s, p0) == Err::<
                        (SectorOctreeView, int),
                        DecodeError,
                    >(e));
                }
                return Err(e);
            },
        };
        let out = SectorOctree { blocks, leaves, octants };
        proof {
            assert(spec_parse_sector_octree(s, p0) == Ok::<(SectorOctreeView, int), DecodeError>(
                (out.deep_view(), r.pos()),
            ));
        }
        Ok(out)
    }
}

} // verus!
