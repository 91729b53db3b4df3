//! The material record: a fixed header, then five texture slots, five
//! optional matrices and five generator indices as three parallel passes
//! over the same five-wide dimension, and two trailing fields.  A texture
//! slot with an empty name carries no further fields on the wire.

use vstd::prelude::*;

use crate::algebra::{spec_parse_f32, spec_parse_matrix, FloatBits, Matrix};
use crate::color::{spec_parse_rgba_i32, Rgba};
use crate::decode::{
    spec_parse_bool, spec_parse_i32, spec_parse_optional, spec_parse_str_wide_nul, spec_parse_u32,
    Decode, DecodeError, NoCtx, PositionTracker,
};

verus! {

#[derive(Clone, Copy, Debug, PartialEq, Eq, Structural)]
pub struct BlendModes {
    pub source_mode: i32,
    pub destination_mode: i32,
}

impl DeepView for BlendModes {
    type V = BlendModes;

    open spec fn deep_view(&self) -> BlendModes {
        *self
    }
}

pub open spec fn spec_parse_blend_modes(s: Seq<u8>, pos: int) -> Result<(BlendModes, int), DecodeError> {
    match spec_parse_i32(s, pos) {
        Err(e) => Err(e),
        Ok((source_mode, pos)) => {
            match spec_parse_i32(s, pos) {
                Err(e) => Err(e),
                Ok((destination_mode, pos)) => {
                    Ok((
                        BlendModes {
                            source_mode: source_mode,
                            destination_mode: destination_mode,
                        },
                        pos,
                    ))
                },
            }
        },
    }
}

impl Decode<NoCtx> for BlendModes {
    open spec fn spec_parse(s: Seq<u8>, pos: int, c: NoCtx) -> Result<(BlendModes, int), DecodeError> {
        spec_parse_blend_modes(s, pos)
    }

    proof fn parse_bounds(s: Seq<u8>, pos: int, c: NoCtx) {
    }

    fn decode(r: &mut PositionTracker, c: NoCtx) -> (res: Result<BlendModes, DecodeError>) {
        let ghost s = old(r).data();
        let ghost p0 = old(r).pos();
        let source_mode = match r.read_i32() {
            Ok(v) => v,
            Err(e) => {
                proof {
                    assert(spec_parse_blend_modes(s, p0) == Err::<(BlendModes, int), DecodeError>(e));
                    assert(<BlendModes as Decode<NoCtx>>::spec_parse(s, p0, NoCtx) == spec_parse_blend_modes(s, p0));
                }
                return Err(e);
            },
        };
        let destination_mode = match r.read_i32() {
            Ok(v) => v,
            Err(e) => {
                proof {
                    assert(spec_parse_blend_modes(s, p0) == Err::<(BlendModes, int), DecodeError>(e));
                    assert(<BlendModes as Decode<NoCtx>>::spec_parse(s, p0, NoCtx) == spec_parse_blend_modes(s, p0));
                }
                return Err(e);
            },
        };
        let out = BlendModes {
            source_mode,
            destination_mode,
        };
        proof {
            assert(spec_parse_blend_modes(s, p0) == Ok::<(BlendModes, int), DecodeError>((out.deep_view(), r.pos())));
            assert(<BlendModes as Decode<NoCtx>>::spec_parse(s, p0, NoCtx) == spec_parse_blend_modes(s, p0));
        }
        Ok(out)
    }
}

#[derive(Clone, Copy, Debug, PartialEq, Eq, Structural)]
pub struct AlphaTestMode {
    pub comparision_function: i32,
    pub reference: FloatBits,
}

impl DeepView for AlphaTestMode {
    type V = AlphaTestMode;

    open spec fn deep_view(&self) -> AlphaTestMode {
        *self
    }
}

pub open spec fn spec_parse_alpha_test_mode(s: Seq<u8>, pos: int) -> Result<(AlphaTestMode, int), DecodeError> {
    match spec_parse_i32(s, pos) {
        Err(e) => Err(e),
        Ok((comparision_function, pos)) => {
            match spec_parse_f32(s, pos) {
                Err(e) => Err(e),
                Ok((reference, pos)) => {
                    Ok((
                        AlphaTestMode {
                            comparision_function: comparision_function,
                            reference: reference,
                        },
                        pos,
                    ))
                },
            }
        },
    }
}

impl Decode<NoCtx> for AlphaTestMode {
    open spec fn spec_parse(s: Seq<u8>, pos: int, c: NoCtx) -> Result<(AlphaTestMode, int), DecodeError> {
        spec_parse_alpha_test_mode(s, pos)
    }

    proof fn parse_bounds(s: Seq<u8>, pos: int, c: NoCtx) {
    }

    fn decode(r: &mut PositionTracker, c: NoCtx) -> (res: Result<AlphaTestMode, DecodeError>) {
        let ghost s = old(r).data();
        let ghost p0 = old(r).pos();
        let comparision_function = match r.read_i32() {
            Ok(v) => v,
            Err(e) => {
                proof {
                    assert(spec_parse_alpha_test_mode(s, p0) == Err::<(AlphaTestMode, int), DecodeError>(e));
                    assert(<AlphaTestMode as Decode<NoCtx>>::spec_parse(s, p0, NoCtx) == spec_parse_alpha_test_mode(s, p0));
                }
                return Err(e);
            },
        };
        let reference = match FloatBits::decode(r, NoCtx) {
            Ok(v) => v,
            Err(e) => {
                proof {
                    assert(spec_parse_alpha_test_mode(s, p0) == Err::<(AlphaTestMode, int), DecodeError>(e));
                    assert(<AlphaTestMode as Decode<NoCtx>>::spec_parse(s, p0, NoCtx) == spec_parse_alpha_test_mode(s, p0));
                }
                return Err(e);
            },
        };
        let out = AlphaTestMode {
            comparision_function,
            reference,
        };
        proof {
            assert(spec_parse_alpha_test_mode(s, p0) == Ok::<(AlphaTestMode, int), DecodeError>((out.deep_view(), r.pos())));
            assert(<AlphaTestMode as Decode<NoCtx>>::spec_parse(s, p0, NoCtx) == spec_parse_alpha_test_mode(s, p0));
        }
        Ok(out)
    }
}
/// One texture slot.  The fields after the name are on the wire only when
/// the name is non-empty; an empty name stands for an unused slot.
#[derive(Clone, Debug, PartialEq, Eq)]
pub struct MaterialTexture {
    pub uv_set: u32,
    pub name: Vec<u8>,
    pub format: Option<i32>,
    pub filter: Option<i32>,
    pub address: Option<i32>,
    pub mask_name: Option<Vec<u8>>,
    pub border_color: Option<Rgba>,
    pub hash: Option<u32>,
}

pub struct MaterialTextureView {
    pub uv_set: u32,
    pub name: Seq<u8>,
    pub format: Option<i32>,
    pub filter: Option<i32>,
    pub address: Option<i32>,
    pub mask_name: Option<Seq<u8>>,
    pub border_color: Option<Rgba>,
    pub hash: Option<u32>,
}

impl DeepView for MaterialTexture {
    type V = MaterialTextureView;

    open spec fn deep_view(&self) -> MaterialTextureView {
        MaterialTextureView {
            uv_set: self.uv_set,
            name: self.name@,
            format: self.format,
            filter: self.filter,
            address: self.address,
            mask_name: match self.mask_name {
                Some(ref m) => Some(m@),
                None => None,
            },
            border_color: self.border_color,
            hash: self.hash,
        }
    }
}

pub open spec fn spec_parse_material_texture(s: Seq<u8>, pos: int) -> Result<
    (MaterialTextureView, int),
    DecodeError,
> {
    match spec_parse_u32(s, pos) {
        Err(e) => Err(e),
        Ok((uv_set, pos)) => match spec_parse_str_wide_nul(s, pos) {
            Err(e) => Err(e),
            Ok((name, pos)) => if name.len() > 0 {
                match spec_parse_i32(s, pos) {
                    Err(e) => Err(e),
                    Ok((format, pos)) => match spec_parse_i32(s, pos) {
                        Err(e) => Err(e),
                        Ok((filter, pos)) => match spec_parse_i32(s, pos) {
                            Err(e) => Err(e),
                            Ok((address, pos)) => match spec_parse_str_wide_nul(s, pos) {
                                Err(e) => Err(e),
                                Ok((mask_name, pos)) => match spec_parse_rgba_i32(s, pos) {
                                    Err(e) => Err(e),
                                    Ok((border_color, pos)) => match spec_parse_u32(s, pos) {
                                        Err(e) => Err(e),
                                        Ok((hash, pos)) => Ok(
                                            (
                                                MaterialTextureView {
                                                    uv_set,
                                                    name,
                                                    format: Some(format),
                                                    filter: Some(filter),
                                                    address: Some(address),
                                                    mask_name: Some(mask_name),
                                                    border_color: Some(border_color),
                                                    hash: Some(hash),
                                                },
                                                pos,
                                            ),
                                        ),
                                    },
                                },
                            },
                        },
                    },
                }
            } else {
                Ok(
                    (
                        MaterialTextureView {
                            uv_set,
                            name,
                            format: None,
                            filter: None,
                            address: None,
                            mask_name: None,
                            border_color: None,
                            hash: None,
                        },
                        pos,
                    ),
                )
            },
        },
    }
}

impl Decode<NoCtx> for MaterialTexture {
    open spec fn spec_parse(s: Seq<u8>, pos: int, c: NoCtx) -> Result<
        (MaterialTextureView, int),
        DecodeError,
    > {
        spec_parse_material_texture(s, pos)
    }

    proof fn parse_bounds(s: Seq<u8>, pos: int, c: NoCtx) {
    }

    fn decode(r: &mut PositionTracker, c: NoCtx) -> (res: Result<MaterialTexture, DecodeError>) {
        let ghost s = old(r).data();
        let ghost p0 = old(r).pos();
        let uv_set = match r.read_u32() {
            Ok(v) => v,
            Err(e) => {
                proof {
                    assert(spec_parse_material_texture(s, p0) == Err::<
                        (MaterialTextureView, int),
                        DecodeError,
                    >(e));
                }
                return Err(e);
            },
        };
        let name = match r.read_wide_nul_string() {
            Ok(v) => v,
            Err(e) => {
                proof {
                    assert(spec_parse_material_texture(s, p0) == Err::<
                        (MaterialTextureView, int),
                        DecodeError,
                    >(e));
                }
                return Err(e);
            },
        };
        if name.len() > 0 {
            let format = match r.read_i32() {
                Ok(v) => v,
                Err(e) => {
                    proof {
                        assert(spec_parse_material_texture(s, p0) == Err::<
                            (MaterialTextureView, int),
                            DecodeError,
                        >(e));
                    }
                    return Err(e);
                },
            };
            let filter = match r.read_i32() {
                Ok(v) => v,
                Err(e) => {
                    proof {
                        assert(spec_parse_material_texture(s, p0) == Err::<
                            (MaterialTextureView, int),
                            DecodeError,
                        >(e));
                    }
                    return Err(e);
                },
            };
            let address = match r.read_i32() {
                Ok(v) => v,
                Err(e) => {
                    proof {
                        assert(spec_parse_material_texture(s, p0) == Err::<
                            (MaterialTextureView, int),
                            DecodeError,
                        >(e));
                    }
                    return Err(e);
                },
            };
            let mask_name = match r.read_wide_nul_string() {
                Ok(v) => v,
                Err(e) => {
                    proof {
                        assert(spec_parse_material_texture(s, p0) == Err::<
                            (MaterialTextureView, int),
                            DecodeError,
                        >(e));
                    }
                    return Err(e);
                },
            };
            let border_color = match Rgba::decode_i32(r) {
                Ok(v) => v,
                Err(e) => {
                    proof {
                        assert(spec_parse_material_texture(s, p0) == Err::<
                            (MaterialTextureView, int),
                            DecodeError,
                        >(e));
                    }
                    return Err(e);
                },
            };
            let hash = match r.read_u32() {
                Ok(v) => v,
                Err(e) => {
                    proof {
                        assert(spec_parse_material_texture(s, p0) == Err::<
                            (MaterialTextureView, int),
                            DecodeError,
                        >(e));
                    }
                    return Err(e);
                },
            };
            let out = MaterialTexture {
                uv_set,
                name,
                format: Some(format),
                filter: Some(filter),
                address: Some(address),
                mask_name: Some(mask_name),
                border_color: Some(border_color),
                hash: Some(hash),
            };
            proof {
                assert(spec_parse_material_texture(s, p0) == Ok::<
                    (MaterialTextureView, int),
                    DecodeError,
                >((out.deep_view(), r.pos())));
            }
            Ok(out)
        } else {
            let out = MaterialTexture {
                uv_set,
                name,
                format: None,
                filter: None,
                address: None,
                mask_name: None,
                border_color: None,
                hash: None,
            };
            proof {
                assert(spec_parse_material_texture(s, p0) == Ok::<
                    (MaterialTextureView, int),
                    DecodeError,
                >((out.deep_view(), r.pos())));
            }
            Ok(out)
        }
    }
}

/// An unused texture slot decodes to a defaulted slot: every gated field
/// is absent if and only if the name is empty.
pub proof fn lemma_material_texture_gating(s: Seq<u8>, pos: int)
    ensures
        match spec_parse_material_texture(s, pos) {
            Ok((t, p)) => (t.name.len() == 0 <==> t.format is None) && (t.format is None
                <==> t.filter is None) && (t.filter is None <==> t.address is None) && (
            t.address is None <==> t.mask_name is None) && (t.mask_name is None
                <==> t.border_color is None) && (t.border_color is None <==> t.hash is None),
            Err(_) => true,
        },
{
}

#[derive(Clone, Debug, PartialEq, Eq)]
pub struct Material {
    pub flags: u32,
    pub name_hash: u32,
    pub additive_lighting_model: bool,
    pub color: Rgba,
    pub specular: Rgba,
    pub power: FloatBits,
    pub shading_mode: i32,
    pub blend: bool,
    pub blend_modes: BlendModes,
    pub alpha_test: bool,
    pub alpha_test_mode: AlphaTestMode,
    pub depth_buffer_write: bool,
    pub depth_buffer_comparison_mode: i32,
    pub material_hash: u32,
    pub owner: u32,
    pub color_buffer_write: u32,
    pub textures: [MaterialTexture; 5],
    pub matrices: [Option<Matrix>; 5],
    pub generators: [i32; 5],
    pub envmap_type: i32,
    pub planar_sheer_envmap_distance: FloatBits,
}

pub struct MaterialView {
    pub flags: u32,
    pub name_hash: u32,
    pub additive_lighting_model: bool,
    pub color: Rgba,
    pub specular: Rgba,
    pub power: FloatBits,
    pub shading_mode: i32,
    pub blend: bool,
    pub blend_modes: BlendModes,
    pub alpha_test: bool,
    pub alpha_test_mode: AlphaTestMode,
    pub depth_buffer_write: bool,
    pub depth_buffer_comparison_mode: i32,
    pub material_hash: u32,
    pub owner: u32,
    pub color_buffer_write: u32,
    pub textures: Seq<MaterialTextureView>,
    pub matrices: Seq<Option<Matrix>>,
    pub generators: Seq<i32>,
    pub envmap_type: i32,
    pub planar_sheer_envmap_distance: FloatBits,
}

impl DeepView for Material {
    type V = MaterialView;

    open spec fn deep_view(&self) -> MaterialView {
        MaterialView {
            flags: self.flags,
            name_hash: self.name_hash,
            additive_lighting_model: self.additive_lighting_model,
            color: self.color,
            specular: self.specular,
            power: self.power,
            shading_mode: self.shading_mode,
            blend: self.blend,
            blend_modes: self.blend_modes,
            alpha_test: self.alpha_test,
            alpha_test_mode: self.alpha_test_mode,
            depth_buffer_write: self.depth_buffer_write,
            depth_buffer_comparison_mode: self.depth_buffer_comparison_mode,
            material_hash: self.material_hash,
            owner: self.owner,
            color_buffer_write: self.color_buffer_write,
            textures: self.textures.deep_view(),
            matrices: self.matrices.deep_view(),
            generators: self.generators.deep_view(),
            envmap_type: self.envmap_type,
            planar_sheer_envmap_distance: self.planar_sheer_envmap_distance,
        }
    }
}

/// The fixed fields before the five-wide passes.
pub open spec fn spec_parse_material_head(s: Seq<u8>, pos: int) -> Result<
    (MaterialView, int),
    DecodeError,
> {
    match spec_parse_u32(s, pos) {
        Err(e) => Err(e),
        Ok((flags, pos)) => match spec_parse_u32(s, pos) {
            Err(e) => Err(e),
            Ok((name_hash, pos)) => match spec_parse_bool(s, pos) {
                Err(e) => Err(e),
                Ok((additive_lighting_model, pos)) => match spec_parse_rgba_i32(s, pos) {
                    Err(e) => Err(e),
                    Ok((color, pos)) => match spec_parse_rgba_i32(s, pos) {
                        Err(e) => Err(e),
                        Ok((specular, pos)) => match spec_parse_f32(s, pos) {
                            Err(e) => Err(e),
                            Ok((power, pos)) => match spec_parse_i32(s, pos) {
                                Err(e) => Err(e),
                                Ok((shading_mode, pos)) => match spec_parse_bool(s, pos) {
                                    Err(e) => Err(e),
                                    Ok((blend, pos)) => match spec_parse_blend_modes(s, pos) {
                                        Err(e) => Err(e),
                                        Ok((blend_modes, pos)) => match spec_parse_bool(s, pos) {
                                            Err(e) => Err(e),
                                            Ok((alpha_test, pos)) => match
                                                spec_parse_alpha_test_mode(s, pos) {
                                                Err(e) => Err(e),
                                                Ok((alpha_test_mode, pos)) => match spec_parse_bool(
                                                    s,
                                                    pos,
                                                ) {
                                                    Err(e) => Err(e),
                                                    Ok((depth_buffer_write, pos)) => match
                                                        spec_parse_i32(s, pos) {
                                                        Err(e) => Err(e),
                                                        Ok(
                                                            (depth_buffer_comparison_mode, pos),
                                                        ) => match spec_parse_u32(s, pos) {
                                                            Err(e) => Err(e),
                                                            Ok((material_hash, pos)) => match
                                                                spec_parse_u32(s, pos) {
                                                                Err(e) => Err(e),
                                                                Ok((owner, pos)) => match
                                                                    spec_parse_u32(s, pos) {
                                                                    Err(e) => Err(e),
                                                                    Ok(
                                                                        (color_buffer_write, pos),
                                                                    ) => Ok(
                                                                        (
                                                                            MaterialView {
                                                                                flags,
                                                                                name_hash,
                                                                                additive_lighting_model,
                                                                                color,
                                                                                specular,
                                                                                power,
                                                                                shading_mode,
                                                                                blend,
                                                                                blend_modes,
                                                                                alpha_test,
                                                                                alpha_test_mode,
                                                                                depth_buffer_write,
                                                                                depth_buffer_comparison_mode,
                                                                                material_hash,
                                                                                owner,
                                                                                color_buffer_write,
                                                                                textures: Seq::empty(),
                                                                                matrices: Seq::empty(),
                                                                                generators: Seq::empty(),
                                                                                envmap_type: 0,
                                                                                planar_sheer_envmap_distance: FloatBits { bits: 0 },
                                                                            },
                                                                            pos,
                                                                        ),
                                                                    ),
                                                                },
                                                            },
                                                        },
                                                    },
                                                },
                                            },
                                        },
                                    },
                                },
                            },
                        },
                    },
                },
            },
        },
    }
}

/// One pass of five texture slots.
pub open spec fn spec_parse_textures5(s: Seq<u8>, pos: int) -> Result<
    (Seq<MaterialTextureView>, int),
    DecodeError,
> {
    match spec_parse_material_texture(s, pos) {
        Err(e) => Err(e),
        Ok((t0, pos)) => match spec_parse_material_texture(s, pos) {
            Err(e) => Err(e),
            Ok((t1, pos)) => match spec_parse_material_texture(s, pos) {
                Err(e) => Err(e),
                Ok((t2, pos)) => match spec_parse_material_texture(s, pos) {
                    Err(e) => Err(e),
                    Ok((t3, pos)) => match spec_parse_material_texture(s, pos) {
                        Err(e) => Err(e),
                        Ok((t4, pos)) => Ok((seq![t0, t1, t2, t3, t4], pos)),
                    },
                },
            },
        },
    }
}

/// One pass of five presence-flagged matrices.
pub open spec fn spec_parse_matrices5(s: Seq<u8>, pos: int) -> Result<
    (Seq<Option<Matrix>>, int),
    DecodeError,
> {
    match spec_parse_optional::<NoCtx, Matrix>(s, pos, NoCtx) {
        Err(e) => Err(e),
        Ok((m0, pos)) => match spec_parse_optional::<NoCtx, Matrix>(s, pos, NoCtx) {
            Err(e) => Err(e),
            Ok((m1, pos)) => match spec_parse_optional::<NoCtx, Matrix>(s, pos, NoCtx) {
                Err(e) => Err(e),
                Ok((m2, pos)) => match spec_parse_optional::<NoCtx, Matrix>(s, pos, NoCtx) {
                    Err(e) => Err(e),
                    Ok((m3, pos)) => match spec_parse_optional::<NoCtx, Matrix>(s, pos, NoCtx) {
                        Err(e) => Err(e),
                        Ok((m4, pos)) => Ok((seq![m0, m1, m2, m3, m4], pos)),
                    },
                },
            },
        },
    }
}

/// One pass of five generator indices.
pub open spec fn spec_parse_generators5(s: Seq<u8>, pos: int) -> Result<
    (Seq<i32>, int),
    DecodeError,
> {
    match spec_parse_i32(s, pos) {
        Err(e) => Err(e),
        Ok((g0, pos)) => match spec_parse_i32(s, pos) {
            Err(e) => Err(e),
            Ok((g1, pos)) => match spec_parse_i32(s, pos) {
                Err(e) => Err(e),
                Ok((g2, pos)) => match spec_parse_i32(s, pos) {
                    Err(e) => Err(e),
                    Ok((g3, pos)) => match spec_parse_i32(s, pos) {
                        Err(e) => Err(e),
                        Ok((g4, pos)) => Ok((seq![g0, g1, g2, g3, g4], pos)),
                    },
                },
            },
        },
    }
}

/// A whole material: the head, the three passes, the two trailing fields.
pub open spec fn spec_parse_material(s: Seq<u8>, pos: int) -> Result<
    (MaterialView, int),
    DecodeError,
> {
    match spec_parse_material_head(s, pos) {
        Err(e) => Err(e),
        Ok((head, pos)) => match spec_parse_textures5(s, pos) {
            Err(e) => Err(e),
            Ok((textures, pos)) => match spec_parse_matrices5(s, pos) {
                Err(e) => Err(e),
                Ok((matrices, pos)) => match spec_parse_generators5(s, pos) {
                    Err(e) => Err(e),
                    Ok((generators, pos)) => match spec_parse_i32(s, pos) {
                        Err(e) => Err(e),
                        Ok((envmap_type, pos)) => match spec_parse_f32(s, pos) {
                            Err(e) => Err(e),
                            Ok((psed, pos)) => Ok(
                                (
                                    MaterialView {
                                        textures,
                                        matrices,
                                        generators,
                                        envmap_type,
                                        planar_sheer_envmap_distance: psed,
                                        ..head
                                    },
                                    pos,
                                ),
                            ),
                        },
                    },
                },
            },
        },
    }
}

/// The executable shape of a parsed material head.
#[derive(Clone, Copy, Debug, PartialEq, Eq)]
pub struct MaterialHead {
    pub flags: u32,
    pub name_hash: u32,
    pub additive_lighting_model: bool,
    pub color: Rgba,
    pub specular: Rgba,
    pub power: FloatBits,
    pub shading_mode: i32,
    pub blend: bool,
    pub blend_modes: BlendModes,
    pub alpha_test: bool,
    pub alpha_test_mode: AlphaTestMode,
    pub depth_buffer_write: bool,
    pub depth_buffer_comparison_mode: i32,
    pub material_hash: u32,
    pub owner: u32,
    pub color_buffer_write: u32,
}

/// The head view a head value stands for, with empty tail fields.
pub open spec fn spec_material_head_view(h: MaterialHead) -> MaterialView {
    MaterialView {
        flags: h.flags,
        name_hash: h.name_hash,
        additive_lighting_model: h.additive_lighting_model,
        color: h.color,
        specular: h.specular,
        power: h.power,
        shading_mode: h.shading_mode,
        blend: h.blend,
        blend_modes: h.blend_modes,
        alpha_test: h.alpha_test,
        alpha_test_mode: h.alpha_test_mode,
        depth_buffer_write: h.depth_buffer_write,
        depth_buffer_comparison_mode: h.depth_buffer_comparison_mode,
        material_hash: h.material_hash,
        owner: h.owner,
        color_buffer_write: h.color_buffer_write,
        textures: Seq::empty(),
        matrices: Seq::empty(),
        generators: Seq::empty(),
        envmap_type: 0,
        planar_sheer_envmap_distance: FloatBits { bits: 0 },
    }
}

/// Reads the fixed fields before the five-wide passes.
#[verifier::rlimit(100)]
#[verifier::spinoff_prover]
fn decode_material_head(r: &mut PositionTracker) -> (res: Result<MaterialHead, DecodeError>)
    requires
        old(r).wf(),
    ensures
        final(r).wf(),
        final(r).data() == old(r).data(),
        old(r).pos() <= final(r).pos(),
        match res {
            Ok(h) => spec_parse_material_head(old(r).data(), old(r).pos()) == Ok::<
                (MaterialView, int),
                DecodeError,
            >((spec_material_head_view(h), final(r).pos())),
            Err(e) => spec_parse_material_head(old(r).data(), old(r).pos()) == Err::<
                (MaterialView, int),
                DecodeError,
            >(e),
        },
{
    let ghost s = old(r).data();
    let ghost p0 = old(r).pos();
        let flags = match r.read_u32() {
            Ok(v) => v,
            Err(e) => {
                proof {
                    assert(spec_parse_material_head(s, p0) == Err::<
                        (MaterialView, int),
                        DecodeError,
                    >(e));
                }
                return Err(e);
            },
        };
        let name_hash = match r.read_u32() {
            Ok(v) => v,
            Err(e) => {
                proof {
                    assert(spec_parse_material_head(s, p0) == Err::<
                        (MaterialView, int),
                        DecodeError,
                    >(e));
                }
                return Err(e);
            },
        };
        let additive_lighting_model = match r.read_bool() {
            Ok(v) => v,
            Err(e) => {
                proof {
                    assert(spec_parse_material_head(s, p0) == Err::<
                        (MaterialView, int),
                        DecodeError,
                    >(e));
                }
                return Err(e);
            },
        };
        let color = match Rgba::decode_i32(r) {
            Ok(v) => v,
            Err(e) => {
                proof {
                    assert(spec_parse_material_head(s, p0) == Err::<
                        (MaterialView, int),
                        DecodeError,
                    >(e));
                }
                return Err(e);
            },
        };
        let specular = match Rgba::decode_i32(r) {
            Ok(v) => v,
            Err(e) => {
                proof {
                    assert(spec_parse_material_head(s, p0) == Err::<
                        (MaterialView, int),
                        DecodeError,
                    >(e));
                }
                return Err(e);
            },
        };
        let power = match FloatBits::decode(r, NoCtx) {
            Ok(v) => v,
            Err(e) => {
                proof {
                    assert(spec_parse_material_head(s, p0) == Err::<
                        (MaterialView, int),
                        DecodeError,
                    >(e));
                }
                return Err(e);
            },
        };
        let shading_mode = match r.read_i32() {
            Ok(v) => v,
            Err(e) => {
                proof {
                    assert(spec_parse_material_head(s, p0) == Err::<
                        (MaterialView, int),
                        DecodeError,
                    >(e));
                }
                return Err(e);
            },
        };
        let blend = match r.read_bool() {
            Ok(v) => v,
            Err(e) => {
                proof {
                    assert(spec_parse_material_head(s, p0) == Err::<
                        (MaterialView, int),
                        DecodeError,
                    >(e));
                }
                return Err(e);
            },
        };
        let blend_modes = match BlendModes::decode(r, NoCtx) {
            Ok(v) => v,
            Err(e) => {
                proof {
                    assert(spec_parse_material_head(s, p0) == Err::<
                        (MaterialView, int),
                        DecodeError,
                    >(e));
                }
                return Err(e);
            },
        };
        let alpha_test = match r.read_bool() {
            Ok(v) => v,
            Err(e) => {
                proof {
                    assert(spec_parse_material_head(s, p0) == Err::<
                        (MaterialView, int),
                        DecodeError,
                    >(e));
                }
                return Err(e);
            },
        };
        let alpha_test_mode = match AlphaTestMode::decode(r, NoCtx) {
            Ok(v) => v,
            Err(e) => {
                proof {
                    assert(spec_parse_material_head(s, p0) == Err::<
                        (MaterialView, int),
                        DecodeError,
                    >(e));
                }
                return Err(e);
            },
        };
        let depth_buffer_write = match r.read_bool() {
            Ok(v) => v,
            Err(e) => {
                proof {
                    assert(spec_parse_material_head(s, p0) == Err::<
                        (MaterialView, int),
                        DecodeError,
                    >(e));
                }
                return Err(e);
            },
        };
        let depth_buffer_comparison_mode = match r.read_i32() {
            Ok(v) => v,
            Err(e) => {
                proof {
                    assert(spec_parse_material_head(s, p0) == Err::<
                        (MaterialView, int),
                        DecodeError,
                    >(e));
                }
                return Err(e);
            },
        };
        let material_hash = match r.read_u32() {
            Ok(v) => v,
            Err(e) => {
                proof {
                    assert(spec_parse_material_head(s, p0) == Err::<
                        (MaterialView, int),
                        DecodeError,
                    >(e));
                }
                return Err(e);
            },
        };
        let owner = match r.read_u32() {
            Ok(v) => v,
            Err(e) => {
                proof {
                    assert(spec_parse_material_head(s, p0) == Err::<
                        (MaterialView, int),
                        DecodeError,
                    >(e));
                }
                return Err(e);
            },
        };
        let color_buffer_write = match r.read_u32() {
            Ok(v) => v,
            Err(e) => {
                proof {
                    assert(spec_parse_material_head(s, p0) == Err::<
                        (MaterialView, int),
                        DecodeError,
                    >(e));
                }
                return Err(e);
            },
        };
    let out = MaterialHead {
        flags,
        name_hash,
        additive_lighting_model,
        color,
        specular,
        power,
        shading_mode,
        blend,
        blend_modes,
        alpha_test,
        alpha_test_mode,
        depth_buffer_write,
        depth_buffer_comparison_mode,
        material_hash,
        owner,
        color_buffer_write,
    };
    proof {
        assert(spec_parse_material_head(s, p0) == Ok::<(MaterialView, int), DecodeError>(
            (spec_material_head_view(out), r.pos()),
        ));
    }
    Ok(out)
}

/// Reads one five-wide pass.
#[verifier::rlimit(100)]
#[verifier::spinoff_prover]
fn decode_textures5(r: &mut PositionTracker) -> (res: Result<[MaterialTexture; 5], DecodeError>)
    requires
        old(r).wf(),
    ensures
        final(r).wf(),
        final(r).data() == old(r).data(),
        old(r).pos() <= final(r).pos(),
        match res {
            Ok(v) => spec_parse_textures5(old(r).data(), old(r).pos()) == Ok::<
                (Seq<MaterialTextureView>, int),
                DecodeError,
            >((v.deep_view(), final(r).pos())),
            Err(e) => spec_parse_textures5(old(r).data(), old(r).pos()) == Err::<
                (Seq<MaterialTextureView>, int),
                DecodeError,
            >(e),
        },
{
    let ghost s = old(r).data();
    let ghost p0 = old(r).pos();
    let x0 = match MaterialTexture::decode(r, NoCtx) {
        Ok(v) => v,
        Err(e) => {
            proof {
                assert(spec_parse_textures5(s, p0) == Err::<(Seq<MaterialTextureView>, int), DecodeError>(e));
            }
            return Err(e);
        },
    };
    let x1 = match MaterialTexture::decode(r, NoCtx) {
        Ok(v) => v,
        Err(e) => {
            proof {
                assert(spec_parse_textures5(s, p0) == Err::<(Seq<MaterialTextureView>, int), DecodeError>(e));
            }
            return Err(e);
        },
    };
    let x2 = match MaterialTexture::decode(r, NoCtx) {
        Ok(v) => v,
        Err(e) => {
            proof {
                assert(spec_parse_textures5(s, p0) == Err::<(Seq<MaterialTextureView>, int), DecodeError>(e));
            }
            return Err(e);
        },
    };
    let x3 = match MaterialTexture::decode(r, NoCtx) {
        Ok(v) => v,
        Err(e) => {
            proof {
                assert(spec_parse_textures5(s, p0) == Err::<(Seq<MaterialTextureView>, int), DecodeError>(e));
            }
            return Err(e);
        },
    };
    let x4 = match MaterialTexture::decode(r, NoCtx) {
        Ok(v) => v,
        Err(e) => {
            proof {
                assert(spec_parse_textures5(s, p0) == Err::<(Seq<MaterialTextureView>, int), DecodeError>(e));
            }
            return Err(e);
        },
    };
    let out = [x0, x1, x2, x3, x4];
    proof {
        assert(out.deep_view() =~= seq![x0.deep_view(), x1.deep_view(), x2.deep_view(), x3.deep_view(), x4.deep_view()]);
        assert(spec_parse_textures5(s, p0) == Ok::<(Seq<MaterialTextureView>, int), DecodeError>((out.deep_view(), r.pos())));
    }
    Ok(out)
}

/// Reads one five-wide pass.
#[verifier::rlimit(100)]
#[verifier::spinoff_prover]
fn decode_matrices5(r: &mut PositionTracker) -> (res: Result<[Option<Matrix>; 5], DecodeError>)
    requires
        old(r).wf(),
    ensures
        final(r).wf(),
        final(r).data() == old(r).data(),
        old(r).pos() <= final(r).pos(),
        match res {
            Ok(v) => spec_parse_matrices5(old(r).data(), old(r).pos()) == Ok::<
                (Seq<Option<Matrix>>, int),
                DecodeError,
            >((v.deep_view(), final(r).pos())),
            Err(e) => spec_parse_matrices5(old(r).data(), old(r).pos()) == Err::<
                (Seq<Option<Matrix>>, int),
                DecodeError,
            >(e),
        },
{
    let ghost s = old(r).data();
    let ghost p0 = old(r).pos();
    let x0 = match Option::<Matrix>::decode(r, NoCtx) {
        Ok(v) => v,
        Err(e) => {
            proof {
                assert(spec_parse_matrices5(s, p0) == Err::<(Seq<Option<Matrix>>, int), DecodeError>(e));
            }
            return Err(e);
        },
    };
    let x1 = match Option::<Matrix>::decode(r, NoCtx) {
        Ok(v) => v,
        Err(e) => {
            proof {
                assert(spec_parse_matrices5(s, p0) == Err::<(Seq<Option<Matrix>>, int), DecodeError>(e));
            }
            return Err(e);
        },
    };
    let x2 = match Option::<Matrix>::decode(r, NoCtx) {
        Ok(v) => v,
        Err(e) => {
            proof {
                assert(spec_parse_matrices5(s, p0) == Err::<(Seq<Option<Matrix>>, int), DecodeError>(e));
            }
            return Err(e);
        },
    };
    let x3 = match Option::<Matrix>::decode(r, NoCtx) {
        Ok(v) => v,
        Err(e) => {
            proof {
                assert(spec_parse_matrices5(s, p0) == Err::<(Seq<Option<Matrix>>, int), DecodeError>(e));
            }
            return Err(e);
        },
    };
    let x4 = match Option::<Matrix>::decode(r, NoCtx) {
        Ok(v) => v,
        Err(e) => {
            proof {
                assert(spec_parse_matrices5(s, p0) == Err::<(Seq<Option<Matrix>>, int), DecodeError>(e));
            }
            return Err(e);
        },
    };
    let out = [x0, x1, x2, x3, x4];
    proof {
        assert(out.deep_view() =~= seq![x0.deep_view(), x1.deep_view(), x2.deep_view(), x3.deep_view(), x4.deep_view()]);
        assert(spec_parse_matrices5(s, p0) == Ok::<(Seq<Option<Matrix>>, int), DecodeError>((out.deep_view(), r.pos())));
    }
    Ok(out)
}

/// Reads one five-wide pass.
#[verifier::rlimit(100)]
#[verifier::spinoff_prover]
fn decode_generators5(r: &mut PositionTracker) -> (res: Result<[i32; 5], DecodeError>)
    requires
        old(r).wf(),
    ensures
        final(r).wf(),
        final(r).data() == old(r).data(),
        old(r).pos() <= final(r).pos(),
        match res {
            Ok(v) => spec_parse_generators5(old(r).data(), old(r).pos()) == Ok::<
                (Seq<i32>, int),
                DecodeError,
            >((v.deep_view(), final(r).pos())),
            Err(e) => spec_parse_generators5(old(r).data(), old(r).pos()) == Err::<
                (Seq<i32>, int),
                DecodeError,
            >(e),
        },
{
    let ghost s = old(r).data();
    let ghost p0 = old(r).pos();
    let x0 = match r.read_i32() {
        Ok(v) => v,
        Err(e) => {
            proof {
                assert(spec_parse_generators5(s, p0) == Err::<(Seq<i32>, int), DecodeError>(e));
            }
            return Err(e);
        },
    };
    let x1 = match r.read_i32() {
        Ok(v) => v,
        Err(e) => {
            proof {
                assert(spec_parse_generators5(s, p0) == Err::<(Seq<i32>, int), DecodeError>(e));
            }
            return Err(e);
        },
    };
    let x2 = match r.read_i32() {
        Ok(v) => v,
        Err(e) => {
            proof {
                assert(spec_parse_generators5(s, p0) == Err::<(Seq<i32>, int), DecodeError>(e));
            }
            return Err(e);
        },
    };
    let x3 = match r.read_i32() {
        Ok(v) => v,
        Err(e) => {
            proof {
                assert(spec_parse_generators5(s, p0) == Err::<(Seq<i32>, int), DecodeError>(e));
            }
            return Err(e);
        },
    };
    let x4 = match r.read_i32() {
        Ok(v) => v,
        Err(e) => {
            proof {
                assert(spec_parse_generators5(s, p0) == Err::<(Seq<i32>, int), DecodeError>(e));
            }
            return Err(e);
        },
    };
    let out = [x0, x1, x2, x3, x4];
    proof {
        assert(out.deep_view() =~= seq![x0, x1, x2, x3, x4]);
        assert(spec_parse_generators5(s, p0) == Ok::<(Seq<i32>, int), DecodeError>((out.deep_view(), r.pos())));
    }
    Ok(out)
}

/// Bounds for the fixed head fields.
#[verifier::rlimit(100)]
#[verifier::spinoff_prover]
proof fn lemma_material_head_bounds(s: Seq<u8>, pos: int)
    ensures
        match spec_parse_material_head(s, pos) {
            Ok((v, p)) => 0 <= pos <= p <= s.len(),
            Err(_) => true,
        },
{
}

/// Bounds for the texture pass.
#[verifier::rlimit(100)]
#[verifier::spinoff_prover]
proof fn lemma_textures5_bounds(s: Seq<u8>, pos: int)
    ensures
        match spec_parse_textures5(s, pos) {
            Ok((v, p)) => 0 <= pos <= p <= s.len(),
            Err(_) => true,
        },
{
}

/// Bounds for the matrix pass.
#[verifier::rlimit(100)]
#[verifier::spinoff_prover]
proof fn lemma_matrices5_bounds(s: Seq<u8>, pos: int)
    ensures
        match spec_parse_matrices5(s, pos) {
            Ok((v, p)) => 0 <= pos <= p <= s.len(),
            Err(_) => true,
        },
{
    <Option<Matrix> as Decode<NoCtx>>::parse_bounds(s, pos, NoCtx);
    match spec_parse_optional::<NoCtx, Matrix>(s, pos, NoCtx) {
        Err(_) => {},
        Ok((m0, pos)) => {
            <Option<Matrix> as Decode<NoCtx>>::parse_bounds(s, pos, NoCtx);
            match spec_parse_optional::<NoCtx, Matrix>(s, pos, NoCtx) {
                Err(_) => {},
                Ok((m1, pos)) => {
                    <Option<Matrix> as Decode<NoCtx>>::parse_bounds(s, pos, NoCtx);
                    match spec_parse_optional::<NoCtx, Matrix>(s, pos, NoCtx) {
                        Err(_) => {},
                        Ok((m2, pos)) => {
                            <Option<Matrix> as Decode<NoCtx>>::parse_bounds(s, pos, NoCtx);
                            match spec_parse_optional::<NoCtx, Matrix>(s, pos, NoCtx) {
                                Err(_) => {},
                                Ok((m3, pos)) => {
                                    <Option<Matrix> as Decode<NoCtx>>::parse_bounds(s, pos, NoCtx);
                                },
                            }
                        },
                    }
                },
            }
        },
    }
}

/// Bounds for the generator pass.
#[verifier::rlimit(100)]
#[verifier::spinoff_prover]
proof fn lemma_generators5_bounds(s: Seq<u8>, pos: int)
    ensures
        match spec_parse_generators5(s, pos) {
            Ok((v, p)) => 0 <= pos <= p <= s.len(),
            Err(_) => true,
        },
{
}

impl Decode<NoCtx> for Material {
    open spec fn spec_parse(s: Seq<u8>, pos: int, c: NoCtx) -> Result<
        (MaterialView, int),
        DecodeError,
    > {
        spec_parse_material(s, pos)
    }

    proof fn parse_bounds(s: Seq<u8>, pos: int, c: NoCtx) {
        lemma_material_head_bounds(s, pos);
        match spec_parse_material_head(s, pos) {
            Err(_) => {},
            Ok((head, pos)) => {
                lemma_textures5_bounds(s, pos);
                match spec_parse_textures5(s, pos) {
                    Err(_) => {},
                    Ok((tx, pos)) => {
                        lemma_matrices5_bounds(s, pos);
                        match spec_parse_matrices5(s, pos) {
                            Err(_) => {},
                            Ok((mx, pos)) => {
                                lemma_generators5_bounds(s, pos);
                            },
                        }
                    },
                }
            },
        }
    }

    #[verifier::rlimit(100)]
    #[verifier::spinoff_prover]
    fn decode(r: &mut PositionTracker, c: NoCtx) -> (res: Result<Material, DecodeError>) {
        let ghost s = old(r).data();
        let ghost p0 = old(r).pos();
        let head = match decode_material_head(r) {
            Ok(v) => v,
            Err(e) => {
                proof {
                    assert(spec_parse_material(s, p0) == Err::<(MaterialView, int), DecodeError>(
                        e,
                    ));
                }
                return Err(e);
            },
        };
        let textures = match decode_textures5(r) {
            Ok(v) => v,
            Err(e) => {
                proof {
                    assert(spec_parse_material(s, p0) == Err::<(MaterialView, int), DecodeError>(
                        e,
                    ));
                }
                return Err(e);
            },
        };
        let matrices = match decode_matrices5(r) {
            Ok(v) => v,
            Err(e) => {
                proof {
                    assert(spec_parse_material(s, p0) == Err::<(MaterialView, int), DecodeError>(
                        e,
                    ));
                }
                return Err(e);
            },
        };
        let generators = match decode_generators5(r) {
            Ok(v) => v,
            Err(e) => {
                proof {
                    assert(spec_parse_material(s, p0) == Err::<(MaterialView, int), DecodeError>(
                        e,
                    ));
                }
                return Err(e);
            },
        };
        let envmap_type = match r.read_i32() {
            Ok(v) => v,
            Err(e) => {
                proof {
                    assert(spec_parse_material(s, p0) == Err::<(MaterialView, int), DecodeError>(
                        e,
                    ));
                }
                return Err(e);
            },
        };
        let planar_sheer_envmap_distance = match FloatBits::decode(r, NoCtx) {
            Ok(v) => v,
            Err(e) => {
                proof {
                    assert(spec_parse_material(s, p0) == Err::<(MaterialView, int), DecodeError>(
                        e,
                    ));
                }
                return Err(e);
            },
        };
        let out = Material {
            flags: head.flags,
            name_hash: head.name_hash,
            additive_lighting_model: head.additive_lighting_model,
            color: head.color,
            specular: head.specular,
            power: head.power,
            shading_mode: head.shading_mode,
            blend: head.blend,
            blend_modes: head.blend_modes,
            alpha_test: head.alpha_test,
            alpha_test_mode: head.alpha_test_mode,
            depth_buffer_write: head.depth_buffer_write,
            depth_buffer_comparison_mode: head.depth_buffer_comparison_mode,
            material_hash: head.material_hash,
            owner: head.owner,
            color_buffer_write: head.color_buffer_write,
            textures,
            matrices,
            generators,
            envmap_type,
            planar_sheer_envmap_distance,
        };
        proof {
            assert(spec_parse_material(s, p0) == Ok::<(MaterialView, int), DecodeError>(
                (out.deep_view(), r.pos()),
            ));
        }
        Ok(out)
    }
}

} // verus!
