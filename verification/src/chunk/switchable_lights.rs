//! The switchable-lights record.  A leading mode word (at most 3) gates a
//! gamma value and a layer remap table; light maps carry update blocks
//! whose pixel counts come either from the map's update region or from
//! per-block sub-rectangles, depending on the mode.

use vstd::prelude::*;

use crate::algebra::{spec_parse_f32, spec_parse_rectangle, FloatBits, Rectangle};
use crate::color::{spec_parse_rgba, Rgba};
use crate::decode::{
    decode_vec_n, lemma_parse_n_bounds, spec_parse_bool, spec_parse_bytes, spec_parse_n,
    spec_parse_sequence, spec_parse_u32, Decode, DecodeError, NoCtx, PositionTracker,
};

verus! {

/// The bit pattern of the 32-bit float 4.0, the gamma default for the
/// oldest mode.
pub const FLOAT_FOUR_BITS: u32 = 0x40800000;

/// Modes from this one on store a layer remap table.
pub const STORE_LAYER_REMAP_COUNT: u32 = 3;

/// Modes from this one on store per-block update sub-rectangles.
pub const UPDATE_SUBRECTS_COUNT: u32 = 2;

#[derive(Clone, Copy, Debug, PartialEq, Eq, Structural)]
pub struct UpdateRGBA {
    pub vertex_index: u32,
    pub color: Rgba,
}

impl DeepView for UpdateRGBA {
    type V = UpdateRGBA;

    open spec fn deep_view(&self) -> UpdateRGBA {
        *self
    }
}

pub open spec fn spec_parse_updatergba(s: Seq<u8>, pos: int) -> Result<(UpdateRGBA, int), DecodeError> {
    match spec_parse_u32(s, pos) {
        Err(e) => Err(e),
        Ok((vertex_index, pos)) => {
            match spec_parse_rgba(s, pos) {
                Err(e) => Err(e),
                Ok((color, pos)) => {
                    Ok((
                        UpdateRGBA {
                            vertex_index: vertex_index,
                            color: color,
                        },
                        pos,
                    ))
                },
            }
        },
    }
}

impl Decode<NoCtx> for UpdateRGBA {
    open spec fn spec_parse(s: Seq<u8>, pos: int, c: NoCtx) -> Result<(UpdateRGBA, int), DecodeError> {
        spec_parse_updatergba(s, pos)
    }

    proof fn parse_bounds(s: Seq<u8>, pos: int, c: NoCtx) {
    }

    fn decode(r: &mut PositionTracker, c: NoCtx) -> (res: Result<UpdateRGBA, DecodeError>) {
        let ghost s = old(r).data();
        let ghost p0 = old(r).pos();
        let vertex_index = match r.read_u32() {
            Ok(v) => v,
            Err(e) => {
                proof {
                    assert(spec_parse_updatergba(s, p0) == Err::<(UpdateRGBA, int), DecodeError>(e));
                    assert(<UpdateRGBA as Decode<NoCtx>>::spec_parse(s, p0, NoCtx) == spec_parse_updatergba(s, p0));
                }
                return Err(e);
            },
        };
        let color = match Rgba::decode(r, NoCtx) {
            Ok(v) => v,
            Err(e) => {
                proof {
                    assert(spec_parse_updatergba(s, p0) == Err::<(UpdateRGBA, int), DecodeError>(e));
                    assert(<UpdateRGBA as Decode<NoCtx>>::spec_parse(s, p0, NoCtx) == spec_parse_updatergba(s, p0));
                }
                return Err(e);
            },
        };
        let out = UpdateRGBA {
            vertex_index,
            color,
        };
        proof {
            assert(spec_parse_updatergba(s, p0) == Ok::<(UpdateRGBA, int), DecodeError>((out.deep_view(), r.pos())));
            assert(<UpdateRGBA as Decode<NoCtx>>::spec_parse(s, p0, NoCtx) == spec_parse_updatergba(s, p0));
        }
        Ok(out)
    }
}

#[derive(Clone, Debug, PartialEq, Eq)]
pub struct SingleVertexSwitchBlock {
    pub material_block_index: u32,
    pub updates: Vec<UpdateRGBA>,
}

pub struct SingleVertexSwitchBlockView {
    pub material_block_index: u32,
    pub updates: Seq<UpdateRGBA>,
}

impl DeepView for SingleVertexSwitchBlock {
    type V = SingleVertexSwitchBlockView;

    open spec fn deep_view(&self) -> SingleVertexSwitchBlockView {
        SingleVertexSwitchBlockView {
            material_block_index: self.material_block_index,
            updates: self.updates.deep_view(),
        }
    }
}

pub open spec fn spec_parse_single_vertexswitch_block(s: Seq<u8>, pos: int) -> Result<(SingleVertexSwitchBlockView, int), DecodeError> {
    match spec_parse_u32(s, pos) {
        Err(e) => Err(e),
        Ok((material_block_index, pos)) => {
            match spec_parse_sequence::<NoCtx, UpdateRGBA>(s, pos, NoCtx) {
                Err(e) => Err(e),
                Ok((updates, pos)) => {
                    Ok((
                        SingleVertexSwitchBlockView {
                            material_block_index: material_block_index,
                            updates: updates,
                        },
                        pos,
                    ))
                },
            }
        },
    }
}

impl Decode<NoCtx> for SingleVertexSwitchBlock {
    open spec fn spec_parse(s: Seq<u8>, pos: int, c: NoCtx) -> Result<(SingleVertexSwitchBlockView, int), DecodeError> {
        spec_parse_single_vertexswitch_block(s, pos)
    }

    proof fn parse_bounds(s: Seq<u8>, pos: int, c: NoCtx) {
            match spec_parse_u32(s, pos) {
                Err(_) => {},
                Ok((material_block_index, pos)) => {
                    <Vec<UpdateRGBA> as Decode<NoCtx>>::parse_bounds(s, pos, NoCtx);
                    match spec_parse_sequence::<NoCtx, UpdateRGBA>(s, pos, NoCtx) {
                        Err(_) => {},
                        Ok((updates, pos)) => {
                        },
                    }
                },
            }
    }

    fn decode(r: &mut PositionTracker, c: NoCtx) -> (res: Result<SingleVertexSwitchBlock, DecodeError>) {
        let ghost s = old(r).data();
        let ghost p0 = old(r).pos();
        let material_block_index = match r.read_u32() {
            Ok(v) => v,
            Err(e) => {
                proof {
                    assert(spec_parse_single_vertexswitch_block(s, p0) == Err::<(SingleVertexSwitchBlockView, int), DecodeError>(e));
                    assert(<SingleVertexSwitchBlock as Decode<NoCtx>>::spec_parse(s, p0, NoCtx) == spec_parse_single_vertexswitch_block(s, p0));
                }
                return Err(e);
            },
        };
        let updates = match Vec::<UpdateRGBA>::decode(r, NoCtx) {
            Ok(v) => v,
            Err(e) => {
                proof {
                    assert(spec_parse_single_vertexswitch_block(s, p0) == Err::<(SingleVertexSwitchBlockView, int), DecodeError>(e));
                    assert(<SingleVertexSwitchBlock as Decode<NoCtx>>::spec_parse(s, p0, NoCtx) == spec_parse_single_vertexswitch_block(s, p0));
                }
                return Err(e);
            },
        };
        let out = SingleVertexSwitchBlock {
            material_block_index,
            updates,
        };
        proof {
            assert(spec_parse_single_vertexswitch_block(s, p0) == Ok::<(SingleVertexSwitchBlockView, int), DecodeError>((out.deep_view(), r.pos())));
            assert(<SingleVertexSwitchBlock as Decode<NoCtx>>::spec_parse(s, p0, NoCtx) == spec_parse_single_vertexswitch_block(s, p0));
        }
        Ok(out)
    }
}

#[derive(Clone, Debug, PartialEq, Eq)]
pub struct SwitchableLightData {
    pub dependent_light_maps: Vec<u32>,
    pub vertex_blocks: Vec<SingleVertexSwitchBlock>,
}

pub struct SwitchableLightDataView {
    pub dependent_light_maps: Seq<u32>,
    pub vertex_blocks: Seq<SingleVertexSwitchBlockView>,
}

impl DeepView for SwitchableLightData {
    type V = SwitchableLightDataView;

    open spec fn deep_view(&self) -> SwitchableLightDataView {
        SwitchableLightDataView {
            dependent_light_maps: self.dependent_light_maps.deep_view(),
            vertex_blocks: self.vertex_blocks.deep_view(),
        }
    }
}

pub open spec fn spec_parse_switchable_lightdata(s: Seq<u8>, pos: int) -> Result<(SwitchableLightDataView, int), DecodeError> {
    match spec_parse_sequence::<NoCtx, u32>(s, pos, NoCtx) {
        Err(e) => Err(e),
        Ok((dependent_light_maps, pos)) => {
            match spec_parse_sequence::<NoCtx, SingleVertexSwitchBlock>(s, pos, NoCtx) {
                Err(e) => Err(e),
                Ok((vertex_blocks, pos)) => {
                    Ok((
                        SwitchableLightDataView {
                            dependent_light_maps: dependent_light_maps,
                            vertex_blocks: vertex_blocks,
                        },
                        pos,
                    ))
                },
            }
        },
    }
}

impl Decode<NoCtx> for SwitchableLightData {
    open spec fn spec_parse(s: Seq<u8>, pos: int, c: NoCtx) -> Result<(SwitchableLightDataView, int), DecodeError> {
        spec_parse_switchable_lightdata(s, pos)
    }

    proof fn parse_bounds(s: Seq<u8>, pos: int, c: NoCtx) {
            <Vec<u32> as Decode<NoCtx>>::parse_bounds(s, pos, NoCtx);
            match spec_parse_sequence::<NoCtx, u32>(s, pos, NoCtx) {
                Err(_) => {},
                Ok((dependent_light_maps, pos)) => {
                    <Vec<SingleVertexSwitchBlock> as Decode<NoCtx>>::parse_bounds(s, pos, NoCtx);
                    match spec_parse_sequence::<NoCtx, SingleVertexSwitchBlock>(s, pos, NoCtx) {
                        Err(_) => {},
                        Ok((vertex_blocks, pos)) => {
                        },
                    }
                },
            }
    }

    fn decode(r: &mut PositionTracker, c: NoCtx) -> (res: Result<SwitchableLightData, DecodeError>) {
        let ghost s = old(r).data();
        let ghost p0 = old(r).pos();
        let dependent_light_maps = match Vec::<u32>::decode(r, NoCtx) {
            Ok(v) => v,
            Err(e) => {
                proof {
                    assert(spec_parse_switchable_lightdata(s, p0) == Err::<(SwitchableLightDataView, int), DecodeError>(e));
                    assert(<SwitchableLightData as Decode<NoCtx>>::spec_parse(s, p0, NoCtx) == spec_parse_switchable_lightdata(s, p0));
                }
                return Err(e);
            },
        };
        let vertex_blocks = match Vec::<SingleVertexSwitchBlock>::decode(r, NoCtx) {
            Ok(v) => v,
            Err(e) => {
                proof {
                    assert(spec_parse_switchable_lightdata(s, p0) == Err::<(SwitchableLightDataView, int), DecodeError>(e));
                    assert(<SwitchableLightData as Decode<NoCtx>>::spec_parse(s, p0, NoCtx) == spec_parse_switchable_lightdata(s, p0));
                }
                return Err(e);
            },
        };
        let out = SwitchableLightData {
            dependent_light_maps,
            vertex_blocks,
        };
        proof {
            assert(spec_parse_switchable_lightdata(s, p0) == Ok::<(SwitchableLightDataView, int), DecodeError>((out.deep_view(), r.pos())));
            assert(<SwitchableLightData as Decode<NoCtx>>::spec_parse(s, p0, NoCtx) == spec_parse_switchable_lightdata(s, p0));
        }
        Ok(out)
    }
}

#[derive(Clone, Copy, Debug, PartialEq, Eq, Structural)]
pub struct MaterialBlockSwitchInfo {
    pub lighting_id: u32,
    pub is_world_geometry: bool,
    pub vertices_count: u32,
}

impl DeepView for MaterialBlockSwitchInfo {
    type V = MaterialBlockSwitchInfo;

    open spec fn deep_view(&self) -> MaterialBlockSwitchInfo {
        *self
    }
}

pub open spec fn spec_parse_material_blockswitch_info(s: Seq<u8>, pos: int) -> Result<(MaterialBlockSwitchInfo, int), DecodeError> {
    match spec_parse_u32(s, pos) {
        Err(e) => Err(e),
        Ok((lighting_id, pos)) => {
            match spec_parse_bool(s, pos) {
                Err(e) => Err(e),
                Ok((is_world_geometry, pos)) => {
                    match spec_parse_u32(s, pos) {
                        Err(e) => Err(e),
                        Ok((vertices_count, pos)) => {
                            Ok((
                                MaterialBlockSwitchInfo {
                                    lighting_id: lighting_id,
                                    is_world_geometry: is_world_geometry,
                                    vertices_count: vertices_count,
                                },
                                pos,
                            ))
                        },
                    }
                },
            }
        },
    }
}

impl Decode<NoCtx> for MaterialBlockSwitchInfo {
    open spec fn spec_parse(s: Seq<u8>, pos: int, c: NoCtx) -> Result<(MaterialBlockSwitchInfo, int), DecodeError> {
        spec_parse_material_blockswitch_info(s, pos)
    }

    proof fn parse_bounds(s: Seq<u8>, pos: int, c: NoCtx) {
    }

    fn decode(r: &mut PositionTracker, c: NoCtx) -> (res: Result<MaterialBlockSwitchInfo, DecodeError>) {
        let ghost s = old(r).data();
        let ghost p0 = old(r).pos();
        let lighting_id = match r.read_u32() {
            Ok(v) => v,
            Err(e) => {
                proof {
                    assert(spec_parse_material_blockswitch_info(s, p0) == Err::<(MaterialBlockSwitchInfo, int), DecodeError>(e));
                    assert(<MaterialBlockSwitchInfo as Decode<NoCtx>>::spec_parse(s, p0, NoCtx) == spec_parse_material_blockswitch_info(s, p0));
                }
                return Err(e);
            },
        };
        let is_world_geometry = match r.read_bool() {
            Ok(v) => v,
            Err(e) => {
                proof {
                    assert(spec_parse_material_blockswitch_info(s, p0) == Err::<(MaterialBlockSwitchInfo, int), DecodeError>(e));
                    assert(<MaterialBlockSwitchInfo as Decode<NoCtx>>::spec_parse(s, p0, NoCtx) == spec_parse_material_blockswitch_info(s, p0));
                }
                return Err(e);
            },
        };
        let vertices_count = match r.read_u32() {
            Ok(v) => v,
            Err(e) => {
                proof {
                    assert(spec_parse_material_blockswitch_info(s, p0) == Err::<(MaterialBlockSwitchInfo, int), DecodeError>(e));
                    assert(<MaterialBlockSwitchInfo as Decode<NoCtx>>::spec_parse(s, p0, NoCtx) == spec_parse_material_blockswitch_info(s, p0));
                }
                return Err(e);
            },
        };
        let out = MaterialBlockSwitchInfo {
            lighting_id,
            is_world_geometry,
            vertices_count,
        };
        proof {
            assert(spec_parse_material_blockswitch_info(s, p0) == Ok::<(MaterialBlockSwitchInfo, int), DecodeError>((out.deep_view(), r.pos())));
            assert(<MaterialBlockSwitchInfo as Decode<NoCtx>>::spec_parse(s, p0, NoCtx) == spec_parse_material_blockswitch_info(s, p0));
        }
        Ok(out)
    }
}
/// An update block.  When the context (the pixel count inherited from the
/// map's update region) is zero, the block carries its own sub-rectangle
/// and takes its pixel count from it; the sub-rectangle itself is not
/// retained.
#[derive(Clone, Debug, PartialEq, Eq)]
pub struct LightMapUpdateBlock {
    pub layer_index: u32,
    pub additive_data: Vec<Rgba>,
}

pub struct LightMapUpdateBlockView {
    pub layer_index: u32,
    pub additive_data: Seq<Rgba>,
}

impl DeepView for LightMapUpdateBlock {
    type V = LightMapUpdateBlockView;

    open spec fn deep_view(&self) -> LightMapUpdateBlockView {
        LightMapUpdateBlockView {
            layer_index: self.layer_index,
            additive_data: self.additive_data.deep_view(),
        }
    }
}

/// A non-positive pixel count reads no colors.
pub open spec fn spec_pixel_run_count(pixels: int) -> nat {
    if pixels > 0 {
        pixels as nat
    } else {
        0
    }
}

pub open spec fn spec_parse_light_map_update_block(s: Seq<u8>, pos: int, pixels_to_read: i64)
    -> Result<(LightMapUpdateBlockView, int), DecodeError> {
    match spec_parse_u32(s, pos) {
        Err(e) => Err(e),
        Ok((layer_index, pos)) => if pixels_to_read == 0 {
            match spec_parse_rectangle(s, pos) {
                Err(e) => Err(e),
                Ok((sub, pos)) => match spec_parse_n::<NoCtx, Rgba>(
                    s,
                    pos,
                    spec_pixel_run_count(sub.width * sub.height),
                    NoCtx,
                ) {
                    Err(e) => Err(e),
                    Ok((additive_data, pos)) => Ok(
                        (LightMapUpdateBlockView { layer_index, additive_data }, pos),
                    ),
                },
            }
        } else {
            match spec_parse_n::<NoCtx, Rgba>(
                s,
                pos,
                spec_pixel_run_count(pixels_to_read as int),
                NoCtx,
            ) {
                Err(e) => Err(e),
                Ok((additive_data, pos)) => Ok(
                    (LightMapUpdateBlockView { layer_index, additive_data }, pos),
                ),
            }
        },
    }
}

impl Decode<i64> for LightMapUpdateBlock {
    open spec fn spec_parse(s: Seq<u8>, pos: int, c: i64) -> Result<
        (LightMapUpdateBlockView, int),
        DecodeError,
    > {
        spec_parse_light_map_update_block(s, pos, c)
    }

    proof fn parse_bounds(s: Seq<u8>, pos: int, c: i64) {
        match spec_parse_u32(s, pos) {
            Err(_) => {},
            Ok((layer_index, pos)) => {
                if c == 0 {
                    match spec_parse_rectangle(s, pos) {
                        Err(_) => {},
                        Ok((sub, pos)) => {
                            lemma_parse_n_bounds::<NoCtx, Rgba>(
                                s,
                                pos,
                                spec_pixel_run_count(sub.width * sub.height),
                                NoCtx,
                            );
                        },
                    }
                } else {
                    lemma_parse_n_bounds::<NoCtx, Rgba>(
                        s,
                        pos,
                        spec_pixel_run_count(c as int),
                        NoCtx,
                    );
                }
            },
        }
    }

    fn decode(r: &mut PositionTracker, c: i64) -> (res: Result<LightMapUpdateBlock, DecodeError>) {
        let ghost s = old(r).data();
        let ghost p0 = old(r).pos();
        let layer_index = match r.read_u32() {
            Ok(v) => v,
            Err(e) => {
                proof {
                    assert(spec_parse_light_map_update_block(s, p0, c) == Err::<
                        (LightMapUpdateBlockView, int),
                        DecodeError,
                    >(e));
                }
                return Err(e);
            },
        };
        let pixels: i64 = if c == 0 {
            let sub = match Rectangle::decode(r, NoCtx) {
                Ok(v) => v,
                Err(e) => {
                    proof {
                        assert(spec_parse_light_map_update_block(s, p0, c) == Err::<
                            (LightMapUpdateBlockView, int),
                            DecodeError,
                        >(e));
                    }
                    return Err(e);
                },
            };
            proof {
                assert(-0x8000000000000000 <= (sub.width as int) * (sub.height as int)
                    < 0x8000000000000000) by (nonlinear_arith)
                    requires
                        -0x80000000 <= sub.width as int <= 0x7FFFFFFF,
                        -0x80000000 <= sub.height as int <= 0x7FFFFFFF,
                ;
            }
            (sub.width as i64) * (sub.height as i64)
        } else {
            c
        };
        let n: u64 = if pixels > 0 {
            pixels as u64
        } else {
            0
        };
        let additive_data = match decode_vec_n::<NoCtx, Rgba>(r, n, NoCtx) {
            Ok(v) => v,
            Err(e) => {
                proof {
                    assert(spec_parse_light_map_update_block(s, p0, c) == Err::<
                        (LightMapUpdateBlockView, int),
                        DecodeError,
                    >(e));
                }
                return Err(e);
            },
        };
        let out = LightMapUpdateBlock { layer_index, additive_data };
        proof {
            assert(spec_parse_light_map_update_block(s, p0, c) == Ok::<
                (LightMapUpdateBlockView, int),
                DecodeError,
            >((out.deep_view(), r.pos())));
        }
        Ok(out)
    }
}

/// A light map: a texture hash, a fixed 12-character name, the update
/// region, and a counted run of update blocks.  The decoding context is
/// the record's leading mode word.
#[derive(Clone, Debug, PartialEq, Eq)]
pub struct SwitchableLightMap {
    pub texture_hash: u32,
    pub name: Vec<u8>,
    pub update_region: Rectangle,
    pub update_blocks: Vec<LightMapUpdateBlock>,
}

pub struct SwitchableLightMapView {
    pub texture_hash: u32,
    pub name: Seq<u8>,
    pub update_region: Rectangle,
    pub update_blocks: Seq<LightMapUpdateBlockView>,
}

impl DeepView for SwitchableLightMap {
    type V = SwitchableLightMapView;

    open spec fn deep_view(&self) -> SwitchableLightMapView {
        SwitchableLightMapView {
            texture_hash: self.texture_hash,
            name: self.name@,
            update_region: self.update_region,
            update_blocks: self.update_blocks.deep_view(),
        }
    }
}

/// The pixel count every update block of a map inherits: zero (each block
/// brings a sub-rectangle) for modes with per-block sub-rectangles, the
/// area of the update region otherwise.
pub open spec fn spec_map_pixels_to_read(magic: u32, region: Rectangle) -> int {
    if magic >= UPDATE_SUBRECTS_COUNT {
        0
    } else {
        region.width * region.height
    }
}

pub open spec fn spec_parse_switchable_light_map(s: Seq<u8>, pos: int, magic: u32) -> Result<
    (SwitchableLightMapView, int),
    DecodeError,
> {
    match spec_parse_u32(s, pos) {
        Err(e) => Err(e),
        Ok((texture_hash, pos)) => match spec_parse_bytes(s, pos, 12) {
            Err(e) => Err(e),
            Ok((name, pos)) => match spec_parse_rectangle(s, pos) {
                Err(e) => Err(e),
                Ok((update_region, pos)) => match spec_parse_u32(s, pos) {
                    Err(e) => Err(e),
                    Ok((update_block_count, pos)) => match spec_parse_n::<i64, LightMapUpdateBlock>(
                        s,
                        pos,
                        update_block_count as nat,
                        spec_map_pixels_to_read(magic, update_region) as i64,
                    ) {
                        Err(e) => Err(e),
                        Ok((update_blocks, pos)) => Ok(
                            (
                                SwitchableLightMapView {
                                    texture_hash,
                                    name,
                                    update_region,
                                    update_blocks,
                                },
                                pos,
                            ),
                        ),
                    },
                },
            },
        },
    }
}

impl Decode<u32> for SwitchableLightMap {
    open spec fn spec_parse(s: Seq<u8>, pos: int, c: u32) -> Result<
        (SwitchableLightMapView, int),
        DecodeError,
    > {
        spec_parse_switchable_light_map(s, pos, c)
    }

    proof fn parse_bounds(s: Seq<u8>, pos: int, c: u32) {
        match spec_parse_u32(s, pos) {
            Err(_) => {},
            Ok((texture_hash, pos)) => {
                match spec_parse_bytes(s, pos, 12) {
                    Err(_) => {},
                    Ok((name, pos)) => {
                        match spec_parse_rectangle(s, pos) {
                            Err(_) => {},
                            Ok((update_region, pos)) => {
                                match spec_parse_u32(s, pos) {
                                    Err(_) => {},
                                    Ok((update_block_count, pos)) => {
                                        lemma_parse_n_bounds::<i64, LightMapUpdateBlock>(
                                            s,
                                            pos,
                                            update_block_count as nat,
                                            spec_map_pixels_to_read(c, update_region) as i64,
                                        );
                                    },
                                }
                            },
                        }
                    },
                }
            },
        }
    }

    fn decode(r: &mut PositionTracker, c: u32) -> (res: Result<SwitchableLightMap, DecodeError>) {
        let ghost s = old(r).data();
        let ghost p0 = old(r).pos();
        let texture_hash = match r.read_u32() {
            Ok(v) => v,
            Err(e) => {
                proof {
                    assert(spec_parse_switchable_light_map(s, p0, c) == Err::<
                        (SwitchableLightMapView, int),
                        DecodeError,
                    >(e));
                }
                return Err(e);
            },
        };
        let name = match r.read_bytes(12) {
            Ok(v) => v,
            Err(e) => {
                proof {
                    assert(spec_parse_switchable_light_map(s, p0, c) == Err::<
                        (SwitchableLightMapView, int),
                        DecodeError,
                    >(e));
                }
                return Err(e);
            },
        };
        let update_region = match Rectangle::decode(r, NoCtx) {
            Ok(v) => v,
            Err(e) => {
                proof {
                    assert(spec_parse_switchable_light_map(s, p0, c) == Err::<
                        (SwitchableLightMapView, int),
                        DecodeError,
                    >(e));
                }
                return Err(e);
            },
        };
        let update_block_count = match r.read_u32() {
            Ok(v) => v,
            Err(e) => {
                proof {
                    assert(spec_parse_switchable_light_map(s, p0, c) == Err::<
                        (SwitchableLightMapView, int),
                        DecodeError,
                    >(e));
                }
                return Err(e);
            },
        };
        let pixels_to_read: i64 = if c >= UPDATE_SUBRECTS_COUNT {
            0
        } else {
            proof {
                assert(-0x8000000000000000 <= (update_region.width as int) * (
                update_region.height as int) < 0x8000000000000000) by (nonlinear_arith)
                    requires
                        -0x80000000 <= update_region.width as int <= 0x7FFFFFFF,
                        -0x80000000 <= update_region.height as int <= 0x7FFFFFFF,
                ;
            }
            (update_region.width as i64) * (update_region.height as i64)
        };
        let update_blocks = match decode_vec_n::<i64, LightMapUpdateBlock>(
            r,
            update_block_count as u64,
            pixels_to_read,
        ) {
            Ok(v) => v,
            Err(e) => {
                proof {
                    assert(spec_parse_switchable_light_map(s, p0, c) == Err::<
                        (SwitchableLightMapView, int),
                        DecodeError,
                    >(e));
                }
                return Err(e);
            },
        };
        let out = SwitchableLightMap { texture_hash, name, update_region, update_blocks };
        proof {
            assert(spec_parse_switchable_light_map(s, p0, c) == Ok::<
                (SwitchableLightMapView, int),
                DecodeError,
            >((out.deep_view(), r.pos())));
        }
        Ok(out)
    }
}

/// The whole record: mode word, optionally-defaulted gamma, optional
/// layer remap table, light maps (the mode word threads into each), light
/// data and material blocks.
#[derive(Clone, Debug, PartialEq, Eq)]
pub struct SwitchableLights {
    pub gamma_ramp_power: FloatBits,
    pub layer_remap_table: Option<Vec<u32>>,
    pub light_maps: Vec<SwitchableLightMap>,
    pub light_data: Vec<SwitchableLightData>,
    pub material_blocks: Vec<MaterialBlockSwitchInfo>,
}

pub struct SwitchableLightsView {
    pub gamma_ramp_power: FloatBits,
    pub layer_remap_table: Option<Seq<u32>>,
    pub light_maps: Seq<SwitchableLightMapView>,
    pub light_data: Seq<SwitchableLightDataView>,
    pub material_blocks: Seq<MaterialBlockSwitchInfo>,
}

impl DeepView for SwitchableLights {
    type V = SwitchableLightsView;

    open spec fn deep_view(&self) -> SwitchableLightsView {
        SwitchableLightsView {
            gamma_ramp_power: self.gamma_ramp_power,
            layer_remap_table: self.layer_remap_table.deep_view(),
            light_maps: self.light_maps.deep_view(),
            light_data: self.light_data.deep_view(),
            material_blocks: self.material_blocks.deep_view(),
        }
    }
}

pub open spec fn spec_parse_switchable_lights(s: Seq<u8>, pos: int) -> Result<
    (SwitchableLightsView, int),
    DecodeError,
> {
    match spec_parse_u32(s, pos) {
        Err(e) => Err(e),
        Ok((magic, pos)) => if magic > 3 {
            Err(DecodeError::ConversionFailure)
        } else {
            match (if magic >= 1 {
                spec_parse_f32(s, pos)
            } else {
                Ok((FloatBits { bits: FLOAT_FOUR_BITS }, pos))
            }) {
                Err(e) => Err(e),
                Ok((gamma_ramp_power, pos)) => match (if magic >= STORE_LAYER_REMAP_COUNT {
                    match spec_parse_sequence::<NoCtx, u32>(s, pos, NoCtx) {
                        Err(e) => Err(e),
                        Ok((t, pos)) => Ok((Some(t), pos)),
                    }
                } else {
                    Ok((None, pos))
                }) {
                    Err(e) => Err(e),
                    Ok((layer_remap_table, pos)) => match spec_parse_sequence::<
                        u32,
                        SwitchableLightMap,
                    >(s, pos, magic) {
                        Err(e) => Err(e),
                        Ok((light_maps, pos)) => match spec_parse_sequence::<
                            NoCtx,
                            SwitchableLightData,
                        >(s, pos, NoCtx) {
                            Err(e) => Err(e),
                            Ok((light_data, pos)) => match spec_parse_sequence::<
                                NoCtx,
                                MaterialBlockSwitchInfo,
                            >(s, pos, NoCtx) {
                                Err(e) => Err(e),
                                Ok((material_blocks, pos)) => Ok(
                                    (
                                        SwitchableLightsView {
                                            gamma_ramp_power,
                                            layer_remap_table,
                                            light_maps,
                                            light_data,
                                            material_blocks,
                                        },
                                        pos,
                                    ),
                                ),
                            },
                        },
                    },
                },
            }
        },
    }
}

impl Decode<NoCtx> for SwitchableLights {
    open spec fn spec_parse(s: Seq<u8>, pos: int, c: NoCtx) -> Result<
        (SwitchableLightsView, int),
        DecodeError,
    > {
        spec_parse_switchable_lights(s, pos)
    }

    proof fn parse_bounds(s: Seq<u8>, pos: int, c: NoCtx) {
        match spec_parse_u32(s, pos) {
            Err(_) => {},
            Ok((magic, pos)) => {
                if magic <= 3 {
                    match (if magic >= 1 {
                        spec_parse_f32(s, pos)
                    } else {
                        Ok((FloatBits { bits: FLOAT_FOUR_BITS }, pos))
                    }) {
                        Err(_) => {},
                        Ok((gamma_ramp_power, pos)) => {
                            <Vec<u32> as Decode<NoCtx>>::parse_bounds(s, pos, NoCtx);
                            match (if magic >= STORE_LAYER_REMAP_COUNT {
                                match spec_parse_sequence::<NoCtx, u32>(s, pos, NoCtx) {
                                    Err(e) => Err(e),
                                    Ok((t, pos)) => Ok((Some(t), pos)),
                                }
                            } else {
                                Ok((None, pos))
                            }) {
                                Err(_) => {},
                                Ok((layer_remap_table, pos)) => {
                                    <Vec<SwitchableLightMap> as Decode<u32>>::parse_bounds(
                                        s,
                                        pos,
                                        magic,
                                    );
                                    match spec_parse_sequence::<u32, SwitchableLightMap>(
                                        s,
                                        pos,
                                        magic,
                                    ) {
                                        Err(_) => {},
                                        Ok((light_maps, pos)) => {
                                            <Vec<SwitchableLightData> as Decode<
                                                NoCtx,
                                            >>::parse_bounds(s, pos, NoCtx);
                                            match spec_parse_sequence::<NoCtx, SwitchableLightData>(
                                                s,
                                                pos,
                                                NoCtx,
                                            ) {
                                                Err(_) => {},
                                                Ok((light_data, pos)) => {
                                                    <Vec<MaterialBlockSwitchInfo> as Decode<
                                                        NoCtx,
                                                    >>::parse_bounds(s, pos, NoCtx);
                                                },
                                            }
                                        },
                                    }
                                },
                            }
                        },
                    }
                }
            },
        }
    }

    fn decode(r: &mut PositionTracker, c: NoCtx) -> (res: Result<SwitchableLights, DecodeError>) {
        let ghost s = old(r).data();
        let ghost p0 = old(r).pos();
        let magic = match r.read_u32() {
            Ok(v) => v,
            Err(e) => {
                proof {
                    assert(spec_parse_switchable_lights(s, p0) == Err::<
                        (SwitchableLightsView, int),
                        DecodeError,
                    >(e));
                }
                return Err(e);
            },
        };
        if magic > 3 {
            proof {
                assert(spec_parse_switchable_lights(s, p0) == Err::<
                    (SwitchableLightsView, int),
                    DecodeError,
                >(DecodeError::ConversionFailure));
            }
            return Err(DecodeError::ConversionFailure);
        }
        let gamma_ramp_power = if magic >= 1 {
            match FloatBits::decode(r, NoCtx) {
                Ok(v) => v,
                Err(e) => {
                    proof {
                        assert(spec_parse_switchable_lights(s, p0) == Err::<
                            (SwitchableLightsView, int),
                            DecodeError,
                        >(e));
                    }
                    return Err(e);
                },
            }
        } else {
            FloatBits { bits: FLOAT_FOUR_BITS }
        };
        let layer_remap_table = if magic >= STORE_LAYER_REMAP_COUNT {
            match Vec::<u32>::decode(r, NoCtx) {
                Ok(v) => Some(v),
                Err(e) => {
                    proof {
                        assert(spec_parse_switchable_lights(s, p0) == Err::<
                            (SwitchableLightsView, int),
                            DecodeError,
                        >(e));
                    }
                    return Err(e);
                },
            }
        } else {
            None
        };
        let light_maps = match Vec::<SwitchableLightMap>::decode(r, magic) {
            Ok(v) => v,
            Err(e) => {
                proof {
                    assert(spec_parse_switchable_lights(s, p0) == Err::<
                        (SwitchableLightsView, int),
                        DecodeError,
                    >(e));
                }
                return Err(e);
            },
        };
        let light_data = match Vec::<SwitchableLightData>::decode(r, NoCtx) {
            Ok(v) => v,
            Err(e) => {
                proof {
                    assert(spec_parse_switchable_lights(s, p0) == Err::<
                        (SwitchableLightsView, int),
                        DecodeError,
                    >(e));
                }
                return Err(e);
            },
        };
        let material_blocks = match Vec::<MaterialBlockSwitchInfo>::decode(r, NoCtx) {
            Ok(v) => v,
            Err(e) => {
                proof {
                    assert(spec_parse_switchable_lights(s, p0) == Err::<
                        (SwitchableLightsView, int),
                        DecodeError,
                    >(e));
                }
                return Err(e);
            },
        };
        let out = SwitchableLights {
            gamma_ramp_power,
            layer_remap_table,
            light_maps,
            light_data,
            material_blocks,
        };
        proof {
            assert(spec_parse_switchable_lights(s, p0) == Ok::<
                (SwitchableLightsView, int),
                DecodeError,
            >((out.deep_view(), r.pos())));
        }
        Ok(out)
    }
}

} // verus!
