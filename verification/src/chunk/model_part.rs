//! The model-part record: a run of vertices whose per-vertex layout is
//! driven by one flag word shared by the whole part, then a run of
//! triangle index triples.

use vstd::prelude::*;

use crate::algebra::{spec_parse_f32, spec_parse_vector3, FloatBits, Vector3};
use crate::color::{spec_parse_rgba, Rgba};
use crate::decode::{
    decode_vec_n, lemma_parse_n_bounds, spec_parse_i32, spec_parse_n, spec_parse_u16,
    spec_parse_u32, Decode, DecodeError, NoCtx, PositionTracker,
};

verus! {

/// Bit of the shared flag word gating the position field.
pub const HAS_VERTEX: u32 = 1 << 8;

/// Bit gating the reciprocal homogeneous w field.
pub const HAS_RECIPROCAL_HOMOGENEOUS_W: u32 = 1 << 9;

/// Bit gating the normal field.
pub const HAS_NORMAL: u32 = 1 << 10;

/// Bit gating the diffuse color field.
pub const HAS_DIFFUSE: u32 = 1 << 11;

/// Bit gating the skinning weight field.
pub const HAS_WEIGHT: u32 = 1 << 12;

/// Bit gating the bone index pair.
pub const HAS_INDICES: u32 = 1 << 13;

/// Low byte of the shared flag word: the number of UV coordinate pairs.
pub const UV_COUNT_MASK: u32 = 0xFF;

#[derive(Clone, Copy, Debug, PartialEq, Eq, Structural)]
pub struct Index {
    pub index0: u32,
    pub index1: u32,
    pub index2: u32,
}

impl DeepView for Index {
    type V = Index;

    open spec fn deep_view(&self) -> Index {
        *self
    }
}

pub open spec fn spec_parse_index(s: Seq<u8>, pos: int) -> Result<(Index, int), DecodeError> {
    match spec_parse_u32(s, pos) {
        Err(e) => Err(e),
        Ok((index0, pos)) => {
            match spec_parse_u32(s, pos) {
                Err(e) => Err(e),
                Ok((index1, pos)) => {
                    match spec_parse_u32(s, pos) {
                        Err(e) => Err(e),
                        Ok((index2, pos)) => {
                            Ok((
                                Index {
                                    index0: index0,
                                    index1: index1,
                                    index2: index2,
                                },
                                pos,
                            ))
                        },
                    }
                },
            }
        },
    }
}

impl Decode<NoCtx> for Index {
    open spec fn spec_parse(s: Seq<u8>, pos: int, c: NoCtx) -> Result<(Index, int), DecodeError> {
        spec_parse_index(s, pos)
    }

    proof fn parse_bounds(s: Seq<u8>, pos: int, c: NoCtx) {
    }

    fn decode(r: &mut PositionTracker, c: NoCtx) -> (res: Result<Index, DecodeError>) {
        let ghost s = old(r).data();
        let ghost p0 = old(r).pos();
        let index0 = match r.read_u32() {
            Ok(v) => v,
            Err(e) => {
                proof {
                    assert(spec_parse_index(s, p0) == Err::<(Index, int), DecodeError>(e));
                    assert(<Index as Decode<NoCtx>>::spec_parse(s, p0, NoCtx) == spec_parse_index(s, p0));
                }
                return Err(e);
            },
        };
        let index1 = match r.read_u32() {
            Ok(v) => v,
            Err(e) => {
                proof {
                    assert(spec_parse_index(s, p0) == Err::<(Index, int), DecodeError>(e));
                    assert(<Index as Decode<NoCtx>>::spec_parse(s, p0, NoCtx) == spec_parse_index(s, p0));
                }
                return Err(e);
            },
        };
        let index2 = match r.read_u32() {
            Ok(v) => v,
            Err(e) => {
                proof {
                    assert(spec_parse_index(s, p0) == Err::<(Index, int), DecodeError>(e));
                    assert(<Index as Decode<NoCtx>>::spec_parse(s, p0, NoCtx) == spec_parse_index(s, p0));
                }
                return Err(e);
            },
        };
        let out = Index {
            index0,
            index1,
            index2,
        };
        proof {
            assert(spec_parse_index(s, p0) == Ok::<(Index, int), DecodeError>((out.deep_view(), r.pos())));
            assert(<Index as Decode<NoCtx>>::spec_parse(s, p0, NoCtx) == spec_parse_index(s, p0));
        }
        Ok(out)
    }
}
pub open spec fn spec_parse_uv_pair(s: Seq<u8>, pos: int) -> Result<
    ((FloatBits, FloatBits), int),
    DecodeError,
> {
    match spec_parse_f32(s, pos) {
        Err(e) => Err(e),
        Ok((u, pos)) => match spec_parse_f32(s, pos) {
            Err(e) => Err(e),
            Ok((v, pos)) => Ok(((u, v), pos)),
        },
    }
}

impl Decode<NoCtx> for (FloatBits, FloatBits) {
    open spec fn spec_parse(s: Seq<u8>, pos: int, c: NoCtx) -> Result<
        ((FloatBits, FloatBits), int),
        DecodeError,
    > {
        spec_parse_uv_pair(s, pos)
    }

    proof fn parse_bounds(s: Seq<u8>, pos: int, c: NoCtx) {
    }

    fn decode(r: &mut PositionTracker, c: NoCtx) -> (res: Result<
        (FloatBits, FloatBits),
        DecodeError,
    >) {
        let ghost s = old(r).data();
        let ghost p0 = old(r).pos();
        let u = match FloatBits::decode(r, NoCtx) {
            Ok(v) => v,
            Err(e) => {
                proof {
                    assert(spec_parse_uv_pair(s, p0) == Err::<
                        ((FloatBits, FloatBits), int),
                        DecodeError,
                    >(e));
                }
                return Err(e);
            },
        };
        let v = match FloatBits::decode(r, NoCtx) {
            Ok(v) => v,
            Err(e) => {
                proof {
                    assert(spec_parse_uv_pair(s, p0) == Err::<
                        ((FloatBits, FloatBits), int),
                        DecodeError,
                    >(e));
                }
                return Err(e);
            },
        };
        let out = (u, v);
        proof {
            assert(out.deep_view() == (u, v));
            assert(spec_parse_uv_pair(s, p0) == Ok::<((FloatBits, FloatBits), int), DecodeError>(
                (out.deep_view(), r.pos()),
            ));
        }
        Ok(out)
    }
}

/// One vertex; which fields are present is decided by the part-wide flag
/// word, passed in as the decoding context and applied to every vertex of
/// the part alike.
#[derive(Clone, Debug, PartialEq, Eq)]
pub struct Vertex {
    pub vertex: Option<Vector3>,
    pub normal: Option<Vector3>,
    pub reciprocal_homogeneous_w: Option<FloatBits>,
    pub diffuse: Option<Rgba>,
    pub weight: Option<FloatBits>,
    pub indices: Option<(u16, u16)>,
    pub uvs: Vec<(FloatBits, FloatBits)>,
}

pub struct VertexView {
    pub vertex: Option<Vector3>,
    pub normal: Option<Vector3>,
    pub reciprocal_homogeneous_w: Option<FloatBits>,
    pub diffuse: Option<Rgba>,
    pub weight: Option<FloatBits>,
    pub indices: Option<(u16, u16)>,
    pub uvs: Seq<(FloatBits, FloatBits)>,
}

impl DeepView for Vertex {
    type V = VertexView;

    open spec fn deep_view(&self) -> VertexView {
        VertexView {
            vertex: self.vertex,
            normal: self.normal,
            reciprocal_homogeneous_w: self.reciprocal_homogeneous_w,
            diffuse: self.diffuse,
            weight: self.weight,
            indices: self.indices,
            uvs: self.uvs.deep_view(),
        }
    }
}

pub open spec fn spec_parse_vertex(s: Seq<u8>, pos: int, flags: u32) -> Result<
    (VertexView, int),
    DecodeError,
> {
    match (if flags & HAS_VERTEX != 0 {
        match spec_parse_vector3(s, pos) {
            Err(e) => Err(e),
            Ok((v, pos)) => Ok((Some(v), pos)),
        }
    } else {
        Ok((None, pos))
    }) {
        Err(e) => Err(e),
        Ok((vertex, pos)) => match (if flags & HAS_NORMAL != 0 {
            match spec_parse_vector3(s, pos) {
                Err(e) => Err(e),
                Ok((v, pos)) => Ok((Some(v), pos)),
            }
        } else {
            Ok((None, pos))
        }) {
            Err(e) => Err(e),
            Ok((normal, pos)) => match (if flags & HAS_RECIPROCAL_HOMOGENEOUS_W != 0 {
                match spec_parse_f32(s, pos) {
                    Err(e) => Err(e),
                    Ok((v, pos)) => Ok((Some(v), pos)),
                }
            } else {
                Ok((None, pos))
            }) {
                Err(e) => Err(e),
                Ok((reciprocal_homogeneous_w, pos)) => match (if flags & HAS_DIFFUSE != 0 {
                    match spec_parse_rgba(s, pos) {
                        Err(e) => Err(e),
                        Ok((v, pos)) => Ok((Some(v), pos)),
                    }
                } else {
                    Ok((None, pos))
                }) {
                    Err(e) => Err(e),
                    Ok((diffuse, pos)) => match (if flags & HAS_WEIGHT != 0 {
                        match spec_parse_f32(s, pos) {
                            Err(e) => Err(e),
                            Ok((v, pos)) => Ok((Some(v), pos)),
                        }
                    } else {
                        Ok((None, pos))
                    }) {
                        Err(e) => Err(e),
                        Ok((weight, pos)) => match (if flags & HAS_INDICES != 0 {
                            match spec_parse_u16(s, pos) {
                                Err(e) => Err(e),
                                Ok((i0, pos)) => match spec_parse_u16(s, pos) {
                                    Err(e) => Err(e),
                                    Ok((i1, pos)) => Ok((Some((i0, i1)), pos)),
                                },
                            }
                        } else {
                            Ok((None, pos))
                        }) {
                            Err(e) => Err(e),
                            Ok((indices, pos)) => match spec_parse_n::<NoCtx, (FloatBits, FloatBits)>(
                                s,
                                pos,
                                (flags & UV_COUNT_MASK) as nat,
                                NoCtx,
                            ) {
                                Err(e) => Err(e),
                                Ok((uvs, pos)) => Ok(
                                    (
                                        VertexView {
                                            vertex,
                                            normal,
                                            reciprocal_homogeneous_w,
                                            diffuse,
                                            weight,
                                            indices,
                                            uvs,
                                        },
                                        pos,
                                    ),
                                ),
                            },
                        },
                    },
                },
            },
        },
    }
}

impl Decode<u32> for Vertex {
    open spec fn spec_parse(s: Seq<u8>, pos: int, c: u32) -> Result<(VertexView, int), DecodeError> {
        spec_parse_vertex(s, pos, c)
    }

    proof fn parse_bounds(s: Seq<u8>, pos: int, c: u32) {
        match (if c & HAS_VERTEX != 0 {
            match spec_parse_vector3(s, pos) {
                Err(e) => Err(e),
                Ok((v, pos)) => Ok((Some(v), pos)),
            }
        } else {
            Ok((None, pos))
        }) {
            Err(_) => {},
            Ok((vertex, pos)) => {
                match (if c & HAS_NORMAL != 0 {
                    match spec_parse_vector3(s, pos) {
                        Err(e) => Err(e),
                        Ok((v, pos)) => Ok((Some(v), pos)),
                    }
                } else {
                    Ok((None, pos))
                }) {
                    Err(_) => {},
                    Ok((normal, pos)) => {
                        match (if c & HAS_RECIPROCAL_HOMOGENEOUS_W != 0 {
                            match spec_parse_f32(s, pos) {
                                Err(e) => Err(e),
                                Ok((v, pos)) => Ok((Some(v), pos)),
                            }
                        } else {
                            Ok((None, pos))
                        }) {
                            Err(_) => {},
                            Ok((rhw, pos)) => {
                                match (if c & HAS_DIFFUSE != 0 {
                                    match spec_parse_rgba(s, pos) {
                                        Err(e) => Err(e),
                                        Ok((v, pos)) => Ok((Some(v), pos)),
                                    }
                                } else {
                                    Ok((None, pos))
                                }) {
                                    Err(_) => {},
                                    Ok((diffuse, pos)) => {
                                        match (if c & HAS_WEIGHT != 0 {
                                            match spec_parse_f32(s, pos) {
                                                Err(e) => Err(e),
                                                Ok((v, pos)) => Ok((Some(v), pos)),
                                            }
                                        } else {
                                            Ok((None, pos))
                                        }) {
                                            Err(_) => {},
                                            Ok((weight, pos)) => {
                                                match (if c & HAS_INDICES != 0 {
                                                    match spec_parse_u16(s, pos) {
                                                        Err(e) => Err(e),
                                                        Ok((i0, pos)) => match spec_parse_u16(
                                                            s,
                                                            pos,
                                                        ) {
                                                            Err(e) => Err(e),
                                                            Ok((i1, pos)) => Ok(
                                                                (Some((i0, i1)), pos),
                                                            ),
                                                        },
                                                    }
                                                } else {
                                                    Ok((None, pos))
                                                }) {
                                                    Err(_) => {},
                                                    Ok((indices, pos)) => {
                                                        lemma_parse_n_bounds::<
                                                            NoCtx,
                                                            (FloatBits, FloatBits),
                                                        >(
                                                            s,
                                                            pos,
                                                            (c & UV_COUNT_MASK) as nat,
                                                            NoCtx,
                                                        );
                                                    },
                                                }
                                            },
                                        }
                                    },
                                }
                            },
                        }
                    },
                }
            },
        }
    }

    #[verifier::rlimit(50)]
    fn decode(r: &mut PositionTracker, c: u32) -> (res: Result<Vertex, DecodeError>) {
        let ghost s = old(r).data();
        let ghost p0 = old(r).pos();
        let vertex = if c & HAS_VERTEX != 0 {
            match Vector3::decode(r, NoCtx) {
                Ok(v) => Some(v),
                Err(e) => {
                    proof {
                        assert(spec_parse_vertex(s, p0, c) == Err::<
                            (VertexView, int),
                            DecodeError,
                        >(e));
                    }
                    return Err(e);
                },
            }
        } else {
            None
        };
        let normal = if c & HAS_NORMAL != 0 {
            match Vector3::decode(r, NoCtx) {
                Ok(v) => Some(v),
                Err(e) => {
                    proof {
                        assert(spec_parse_vertex(s, p0, c) == Err::<
                            (VertexView, int),
                            DecodeError,
                        >(e));
                    }
                    return Err(e);
                },
            }
        } else {
            None
        };
        let reciprocal_homogeneous_w = if c & HAS_RECIPROCAL_HOMOGENEOUS_W != 0 {
            match FloatBits::decode(r, NoCtx) {
                Ok(v) => Some(v),
                Err(e) => {
                    proof {
                        assert(spec_parse_vertex(s, p0, c) == Err::<
                            (VertexView, int),
                            DecodeError,
                        >(e));
                    }
                    return Err(e);
                },
            }
        } else {
            None
        };
        let diffuse = if c & HAS_DIFFUSE != 0 {
            match Rgba::decode(r, NoCtx) {
                Ok(v) => Some(v),
                Err(e) => {
                    proof {
                        assert(spec_parse_vertex(s, p0, c) == Err::<
                            (VertexView, int),
                            DecodeError,
                        >(e));
                    }
                    return Err(e);
                },
            }
        } else {
            None
        };
        let weight = if c & HAS_WEIGHT != 0 {
            match FloatBits::decode(r, NoCtx) {
                Ok(v) => Some(v),
                Err(e) => {
                    proof {
                        assert(spec_parse_vertex(s, p0, c) == Err::<
                            (VertexView, int),
                            DecodeError,
                        >(e));
                    }
                    return Err(e);
                },
            }
        } else {
            None
        };
        let indices = if c & HAS_INDICES != 0 {
            let i0 = match r.read_u16() {
                Ok(v) => v,
                Err(e) => {
                    proof {
                        assert(spec_parse_vertex(s, p0, c) == Err::<
                            (VertexView, int),
                            DecodeError,
                        >(e));
                    }
                    return Err(e);
                },
            };
            let i1 = match r.read_u16() {
                Ok(v) => v,
                Err(e) => {
                    proof {
                        assert(spec_parse_vertex(s, p0, c) == Err::<
                            (VertexView, int),
                            DecodeError,
                        >(e));
                    }
                    return Err(e);
                },
            };
            Some((i0, i1))
        } else {
            None
        };
        let uvs = match decode_vec_n::<NoCtx, (FloatBits, FloatBits)>(
            r,
            (c & UV_COUNT_MASK) as u64,
            NoCtx,
        ) {
            Ok(v) => v,
            Err(e) => {
                proof {
                    assert(spec_parse_vertex(s, p0, c) == Err::<(VertexView, int), DecodeError>(
                        e,
                    ));
                }
                return Err(e);
            },
        };
        let out = Vertex {
            vertex,
            normal,
            reciprocal_homogeneous_w,
            diffuse,
            weight,
            indices,
            uvs,
        };
        proof {
            assert(spec_parse_vertex(s, p0, c) == Ok::<(VertexView, int), DecodeError>(
                (out.deep_view(), r.pos()),
            ));
        }
        Ok(out)
    }
}



/// The fixed fields of a model part, including the two counts that size
/// the trailing runs.
#[derive(Clone, Copy, Debug, PartialEq, Eq, Structural)]
pub struct ModelPartHead {
    pub read_access_flags: u32,
    pub vertex_read_flags: u32,
    pub write_access_flags: u32,
    pub vertex_write_flags: u32,
    pub hint_flags: u32,
    pub constant_flags: u32,
    pub vertex_flags: u32,
    pub render_flags: u32,
    pub vertex_count: u32,
    pub triangles_count: u16,
    pub strips_count: u16,
    pub strip_triangles_count: u16,
    pub material_hash: u32,
    pub triangle_index0: i32,
    pub triangle_index1: i32,
    pub vertex_index0: i32,
    pub vertex_index1: i32,
    pub layer_z: u32,
    pub floor_flags: u32,
    pub flags: u32,
    pub lighting_sid: u32,
}

impl DeepView for ModelPartHead {
    type V = ModelPartHead;

    open spec fn deep_view(&self) -> ModelPartHead {
        *self
    }
}

pub open spec fn spec_parse_model_part_head(s: Seq<u8>, pos: int) -> Result<
    (ModelPartHead, int),
    DecodeError,
> {
    match spec_parse_u32(s, pos) {
        Err(e) => Err(e),
        Ok((read_access_flags, pos)) => {
            match spec_parse_u32(s, pos) {
                Err(e) => Err(e),
                Ok((vertex_read_flags, pos)) => {
                    match spec_parse_u32(s, pos) {
                        Err(e) => Err(e),
                        Ok((write_access_flags, pos)) => {
                            match spec_parse_u32(s, pos) {
                                Err(e) => Err(e),
                                Ok((vertex_write_flags, pos)) => {
                                    match spec_parse_u32(s, pos) {
                                        Err(e) => Err(e),
                                        Ok((hint_flags, pos)) => {
                                            match spec_parse_u32(s, pos) {
                                                Err(e) => Err(e),
                                                Ok((constant_flags, pos)) => {
                                                    match spec_parse_u32(s, pos) {
                                                        Err(e) => Err(e),
                                                        Ok((vertex_flags, pos)) => {
                                                            match spec_parse_u32(s, pos) {
                                                                Err(e) => Err(e),
                                                                Ok((render_flags, pos)) => {
                                                                    match spec_parse_u32(s, pos) {
                                                                        Err(e) => Err(e),
                                                                        Ok((vertex_count, pos)) => {
                                                                            match spec_parse_u16(s, pos) {
                                                                                Err(e) => Err(e),
                                                                                Ok((triangles_count, pos)) => {
                                                                                    match spec_parse_u16(s, pos) {
                                                                                        Err(e) => Err(e),
                                                                                        Ok((strips_count, pos)) => {
                                                                                            match spec_parse_u16(s, pos) {
                                                                                                Err(e) => Err(e),
                                                                                                Ok((strip_triangles_count, pos)) => {
                                                                                                    match spec_parse_u32(s, pos) {
                                                                                                        Err(e) => Err(e),
                                                                                                        Ok((material_hash, pos)) => {
                                                                                                            match spec_parse_i32(s, pos) {
                                                                                                                Err(e) => Err(e),
                                                                                                                Ok((triangle_index0, pos)) => {
                                                                                                                    match spec_parse_i32(s, pos) {
                                                                                                                        Err(e) => Err(e),
                                                                                                                        Ok((triangle_index1, pos)) => {
                                                                                                                            match spec_parse_i32(s, pos) {
                                                                                                                                Err(e) => Err(e),
                                                                                                                                Ok((vertex_index0, pos)) => {
                                                                                                                                    match spec_parse_i32(s, pos) {
                                                                                                                                        Err(e) => Err(e),
                                                                                                                                        Ok((vertex_index1, pos)) => {
                                                                                                                                            match spec_parse_u32(s, pos) {
                                                                                                                                                Err(e) => Err(e),
                                                                                                                                                Ok((layer_z, pos)) => {
                                                                                                                                                    match spec_parse_u32(s, pos) {
                                                                                                                                                        Err(e) => Err(e),
                                                                                                                                                        Ok((floor_flags, pos)) => {
                                                                                                                                                            match spec_parse_u32(s, pos) {
                                                                                                                                                                Err(e) => Err(e),
                                                                                                                                                                Ok((flags, pos)) => {
                                                                                                                                                                    match spec_parse_u32(s, pos) {
                                                                                                                                                                        Err(e) => Err(e),
                                                                                                                                                                        Ok((lighting_sid, pos)) => {
                                                                                                                                                                            Ok((
                                                                                                                                                                                ModelPartHead {
                                                                                                                                                                                    read_access_flags,
                                                                                                                                                                                    vertex_read_flags,
                                                                                                                                                                                    write_access_flags,
                                                                                                                                                                                    vertex_write_flags,
                                                                                                                                                                                    hint_flags,
                                                                                                                                                                                    constant_flags,
                                                                                                                                                                                    vertex_flags,
                                                                                                                                                                                    render_flags,
                                                                                                                                                                                    vertex_count,
                                                                                                                                                                                    triangles_count,
                                                                                                                                                                                    strips_count,
                                                                                                                                                                                    strip_triangles_count,
                                                                                                                                                                                    material_hash,
                                                                                                                                                                                    triangle_index0,
                                                                                                                                                                                    triangle_index1,
                                                                                                                                                                                    vertex_index0,
                                                                                                                                                                                    vertex_index1,
                                                                                                                                                                                    layer_z,
                                                                                                                                                                                    floor_flags,
                                                                                                                                                                                    flags,
                                                                                                                                                                                    lighting_sid,
                                                                                                                                                                                },
                                                                                                                                                                                pos,
                                                                                                                                                                            ))
                                                                                                                                                                        },
                                                                                                                                                                    }
                                                                                                                                                                },
                                                                                                                                                            }
                                                                                                                                                        },
                                                                                                                                                    }
                                                                                                                                                },
                                                                                                                                            }
                                                                                                                                        },
                                                                                                                                    }
                                                                                                                                },
                                                                                                                            }
                                                                                                                        },
                                                                                                                    }
                                                                                                                },
                                                                                                            }
                                                                                                        },
                                                                                                    }
                                                                                                },
                                                                                            }
                                                                                        },
                                                                                    }
                                                                                },
                                                                            }
                                                                        },
                                                                    }
                                                                },
                                                            }
                                                        },
                                                    }
                                                },
                                            }
                                        },
                                    }
                                },
                            }
                        },
                    }
                },
            }
        },
    }
}

/// Reads the fixed fields of a model part.
#[verifier::rlimit(100)]
#[verifier::spinoff_prover]
fn decode_model_part_head(r: &mut PositionTracker) -> (res: Result<ModelPartHead, DecodeError>)
    requires
        old(r).wf(),
    ensures
        final(r).wf(),
        final(r).data() == old(r).data(),
        old(r).pos() <= final(r).pos(),
        match res {
            Ok(h) => spec_parse_model_part_head(old(r).data(), old(r).pos()) == Ok::<
                (ModelPartHead, int),
                DecodeError,
            >((h, final(r).pos())),
            Err(e) => spec_parse_model_part_head(old(r).data(), old(r).pos()) == Err::<
                (ModelPartHead, int),
                DecodeError,
            >(e),
        },
{
    let ghost s = old(r).data();
    let ghost p0 = old(r).pos();
        let read_access_flags = match r.read_u32() {
            Ok(v) => v,
            Err(e) => {
                proof {
                    assert(spec_parse_model_part_head(s, p0) == Err::<
                        (ModelPartHead, int),
                        DecodeError,
                    >(e));
                }
                return Err(e);
            },
        };
        let vertex_read_flags = match r.read_u32() {
            Ok(v) => v,
            Err(e) => {
                proof {
                    assert(spec_parse_model_part_head(s, p0) == Err::<
                        (ModelPartHead, int),
                        DecodeError,
                    >(e));
                }
                return Err(e);
            },
        };
        let write_access_flags = match r.read_u32() {
            Ok(v) => v,
            Err(e) => {
                proof {
                    assert(spec_parse_model_part_head(s, p0) == Err::<
                        (ModelPartHead, int),
                        DecodeError,
                    >(e));
                }
                return Err(e);
            },
        };
        let vertex_write_flags = match r.read_u32() {
            Ok(v) => v,
            Err(e) => {
                proof {
                    assert(spec_parse_model_part_head(s, p0) == Err::<
                        (ModelPartHead, int),
                        DecodeError,
                    >(e));
                }
                return Err(e);
            },
        };
        let hint_flags = match r.read_u32() {
            Ok(v) => v,
            Err(e) => {
                proof {
                    assert(spec_parse_model_part_head(s, p0) == Err::<
                        (ModelPartHead, int),
                        DecodeError,
                    >(e));
                }
                return Err(e);
            },
        };
        let constant_flags = match r.read_u32() {
            Ok(v) => v,
            Err(e) => {
                proof {
                    assert(spec_parse_model_part_head(s, p0) == Err::<
                        (ModelPartHead, int),
                        DecodeError,
                    >(e));
                }
                return Err(e);
            },
        };
        let vertex_flags = match r.read_u32() {
            Ok(v) => v,
            Err(e) => {
                proof {
                    assert(spec_parse_model_part_head(s, p0) == Err::<
                        (ModelPartHead, int),
                        DecodeError,
                    >(e));
                }
                return Err(e);
            },
        };
        let render_flags = match r.read_u32() {
            Ok(v) => v,
            Err(e) => {
                proof {
                    assert(spec_parse_model_part_head(s, p0) == Err::<
                        (ModelPartHead, int),
                        DecodeError,
                    >(e));
                }
                return Err(e);
            },
        };
        let vertex_count = match r.read_u32() {
            Ok(v) => v,
            Err(e) => {
                proof {
                    assert(spec_parse_model_part_head(s, p0) == Err::<
                        (ModelPartHead, int),
                        DecodeError,
                    >(e));
                }
                return Err(e);
            },
        };
        let triangles_count = match r.read_u16() {
            Ok(v) => v,
            Err(e) => {
                proof {
                    assert(spec_parse_model_part_head(s, p0) == Err::<
                        (ModelPartHead, int),
                        DecodeError,
                    >(e));
                }
                return Err(e);
            },
        };
        let strips_count = match r.read_u16() {
            Ok(v) => v,
            Err(e) => {
                proof {
                    assert(spec_parse_model_part_head(s, p0) == Err::<
                        (ModelPartHead, int),
                        DecodeError,
                    >(e));
                }
                return Err(e);
            },
        };
        let strip_triangles_count = match r.read_u16() {
            Ok(v) => v,
            Err(e) => {
                proof {
                    assert(spec_parse_model_part_head(s, p0) == Err::<
                        (ModelPartHead, int),
                        DecodeError,
                    >(e));
                }
                return Err(e);
            },
        };
        let material_hash = match r.read_u32() {
            Ok(v) => v,
            Err(e) => {
                proof {
                    assert(spec_parse_model_part_head(s, p0) == Err::<
                        (ModelPartHead, int),
                        DecodeError,
                    >(e));
                }
                return Err(e);
            },
        };
        let triangle_index0 = match r.read_i32() {
            Ok(v) => v,
            Err(e) => {
                proof {
                    assert(spec_parse_model_part_head(s, p0) == Err::<
                        (ModelPartHead, int),
                        DecodeError,
                    >(e));
                }
                return Err(e);
            },
        };
        let triangle_index1 = match r.read_i32() {
            Ok(v) => v,
            Err(e) => {
                proof {
                    assert(spec_parse_model_part_head(s, p0) == Err::<
                        (ModelPartHead, int),
                        DecodeError,
                    >(e));
                }
                return Err(e);
            },
        };
        let vertex_index0 = match r.read_i32() {
            Ok(v) => v,
            Err(e) => {
                proof {
                    assert(spec_parse_model_part_head(s, p0) == Err::<
                        (ModelPartHead, int),
                        DecodeError,
                    >(e));
                }
                return Err(e);
            },
        };
        let vertex_index1 = match r.read_i32() {
            Ok(v) => v,
            Err(e) => {
                proof {
                    assert(spec_parse_model_part_head(s, p0) == Err::<
                        (ModelPartHead, int),
                        DecodeError,
                    >(e));
                }
                return Err(e);
            },
        };
        let layer_z = match r.read_u32() {
            Ok(v) => v,
            Err(e) => {
                proof {
                    assert(spec_parse_model_part_head(s, p0) == Err::<
                        (ModelPartHead, int),
                        DecodeError,
                    >(e));
                }
                return Err(e);
            },
        };
        let floor_flags = match r.read_u32() {
            Ok(v) => v,
            Err(e) => {
                proof {
                    assert(spec_parse_model_part_head(s, p0) == Err::<
                        (ModelPartHead, int),
                        DecodeError,
                    >(e));
                }
                return Err(e);
            },
        };
        let flags = match r.read_u32() {
            Ok(v) => v,
            Err(e) => {
                proof {
                    assert(spec_parse_model_part_head(s, p0) == Err::<
                        (ModelPartHead, int),
                        DecodeError,
                    >(e));
                }
                return Err(e);
            },
        };
        let lighting_sid = match r.read_u32() {
            Ok(v) => v,
            Err(e) => {
                proof {
                    assert(spec_parse_model_part_head(s, p0) == Err::<
                        (ModelPartHead, int),
                        DecodeError,
                    >(e));
                }
                return Err(e);
            },
        };
    let out = ModelPartHead {
        read_access_flags,
        vertex_read_flags,
        write_access_flags,
        vertex_write_flags,
        hint_flags,
        constant_flags,
        vertex_flags,
        render_flags,
        vertex_count,
        triangles_count,
        strips_count,
        strip_triangles_count,
        material_hash,
        triangle_index0,
        triangle_index1,
        vertex_index0,
        vertex_index1,
        layer_z,
        floor_flags,
        flags,
        lighting_sid,
    };
    proof {
        assert(spec_parse_model_part_head(s, p0) == Ok::<(ModelPartHead, int), DecodeError>(
            (out, r.pos()),
        ));
    }
    Ok(out)
}

#[derive(Clone, Debug, PartialEq, Eq)]
pub struct ModelPart {
    pub read_access_flags: u32,
    pub vertex_read_flags: u32,
    pub write_access_flags: u32,
    pub vertex_write_flags: u32,
    pub hint_flags: u32,
    pub constant_flags: u32,
    pub vertex_flags: u32,
    pub render_flags: u32,
    pub triangles_count: u16,
    pub strips_count: u16,
    pub strip_triangles_count: u16,
    pub material_hash: u32,
    pub triangle_index0: i32,
    pub triangle_index1: i32,
    pub vertex_index0: i32,
    pub vertex_index1: i32,
    pub layer_z: u32,
    pub floor_flags: u32,
    pub flags: u32,
    pub lighting_sid: u32,
    pub vertices: Vec<Vertex>,
    pub indices: Vec<Index>,
}

pub struct ModelPartView {
    pub read_access_flags: u32,
    pub vertex_read_flags: u32,
    pub write_access_flags: u32,
    pub vertex_write_flags: u32,
    pub hint_flags: u32,
    pub constant_flags: u32,
    pub vertex_flags: u32,
    pub render_flags: u32,
    pub triangles_count: u16,
    pub strips_count: u16,
    pub strip_triangles_count: u16,
    pub material_hash: u32,
    pub triangle_index0: i32,
    pub triangle_index1: i32,
    pub vertex_index0: i32,
    pub vertex_index1: i32,
    pub layer_z: u32,
    pub floor_flags: u32,
    pub flags: u32,
    pub lighting_sid: u32,
    pub vertices: Seq<VertexView>,
    pub indices: Seq<Index>,
}

impl DeepView for ModelPart {
    type V = ModelPartView;

    open spec fn deep_view(&self) -> ModelPartView {
        ModelPartView {
            read_access_flags: self.read_access_flags,
            vertex_read_flags: self.vertex_read_flags,
            write_access_flags: self.write_access_flags,
            vertex_write_flags: self.vertex_write_flags,
            hint_flags: self.hint_flags,
            constant_flags: self.constant_flags,
            vertex_flags: self.vertex_flags,
            render_flags: self.render_flags,
            triangles_count: self.triangles_count,
            strips_count: self.strips_count,
            strip_triangles_count: self.strip_triangles_count,
            material_hash: self.material_hash,
            triangle_index0: self.triangle_index0,
            triangle_index1: self.triangle_index1,
            vertex_index0: self.vertex_index0,
            vertex_index1: self.vertex_index1,
            layer_z: self.layer_z,
            floor_flags: self.floor_flags,
            flags: self.flags,
            lighting_sid: self.lighting_sid,
            vertices: self.vertices.deep_view(),
            indices: self.indices.deep_view(),
        }
    }
}

/// The view a model part takes from its head and its two runs.
pub open spec fn spec_model_part_view(
    h: ModelPartHead,
    vertices: Seq<VertexView>,
    indices: Seq<Index>,
) -> ModelPartView {
    ModelPartView {
        read_access_flags: h.read_access_flags,
        vertex_read_flags: h.vertex_read_flags,
        write_access_flags: h.write_access_flags,
        vertex_write_flags: h.vertex_write_flags,
        hint_flags: h.hint_flags,
        constant_flags: h.constant_flags,
        vertex_flags: h.vertex_flags,
        render_flags: h.render_flags,
        triangles_count: h.triangles_count,
        strips_count: h.strips_count,
        strip_triangles_count: h.strip_triangles_count,
        material_hash: h.material_hash,
        triangle_index0: h.triangle_index0,
        triangle_index1: h.triangle_index1,
        vertex_index0: h.vertex_index0,
        vertex_index1: h.vertex_index1,
        layer_z: h.layer_z,
        floor_flags: h.floor_flags,
        flags: h.flags,
        lighting_sid: h.lighting_sid,
        vertices,
        indices,
    }
}

pub open spec fn spec_parse_model_part(s: Seq<u8>, pos: int) -> Result<
    (ModelPartView, int),
    DecodeError,
> {
    match spec_parse_model_part_head(s, pos) {
        Err(e) => Err(e),
        Ok((h, pos)) => match spec_parse_n::<u32, Vertex>(
            s,
            pos,
            h.vertex_count as nat,
            h.vertex_flags,
        ) {
            Err(e) => Err(e),
            Ok((vertices, pos)) => match spec_parse_n::<NoCtx, Index>(
                s,
                pos,
                h.triangles_count as nat,
                NoCtx,
            ) {
                Err(e) => Err(e),
                Ok((indices, pos)) => Ok((spec_model_part_view(h, vertices, indices), pos)),
            },
        },
    }
}

impl Decode<NoCtx> for ModelPart {
    open spec fn spec_parse(s: Seq<u8>, pos: int, c: NoCtx) -> Result<
        (ModelPartView, int),
        DecodeError,
    > {
        spec_parse_model_part(s, pos)
    }

    proof fn parse_bounds(s: Seq<u8>, pos: int, c: NoCtx) {
        match spec_parse_model_part_head(s, pos) {
            Err(_) => {},
            Ok((h, pos)) => {
                lemma_parse_n_bounds::<u32, Vertex>(s, pos, h.vertex_count as nat, h.vertex_flags);
                match spec_parse_n::<u32, Vertex>(s, pos, h.vertex_count as nat, h.vertex_flags) {
                    Err(_) => {},
                    Ok((vertices, pos)) => {
                        lemma_parse_n_bounds::<NoCtx, Index>(
                            s,
                            pos,
                            h.triangles_count as nat,
                            NoCtx,
                        );
                    },
                }
            },
        }
    }

    fn decode(r: &mut PositionTracker, c: NoCtx) -> (res: Result<ModelPart, DecodeError>) {
        let ghost s = old(r).data();
        let ghost p0 = old(r).pos();
        let h = match decode_model_part_head(r) {
            Ok(v) => v,
            Err(e) => {
                proof {
                    assert(spec_parse_model_part(s, p0) == Err::<(ModelPartView, int), DecodeError>(
                        e,
                    ));
                }
                return Err(e);
            },
        };
        let vertices = match decode_vec_n::<u32, Vertex>(r, h.vertex_count as u64, h.vertex_flags) {
            Ok(v) => v,
            Err(e) => {
                proof {
                    assert(spec_parse_model_part(s, p0) == Err::<(ModelPartView, int), DecodeError>(
                        e,
                    ));
                }
                return Err(e);
            },
        };
        let indices = match decode_vec_n::<NoCtx, Index>(r, h.triangles_count as u64, NoCtx) {
            Ok(v) => v,
            Err(e) => {
                proof {
                    assert(spec_parse_model_part(s, p0) == Err::<(ModelPartView, int), DecodeError>(
                        e,
                    ));
                }
                return Err(e);
            },
        };
        let out = ModelPart {
            read_access_flags: h.read_access_flags,
            vertex_read_flags: h.vertex_read_flags,
            write_access_flags: h.write_access_flags,
            vertex_write_flags: h.vertex_write_flags,
            hint_flags: h.hint_flags,
            constant_flags: h.constant_flags,
            vertex_flags: h.vertex_flags,
            render_flags: h.render_flags,
            triangles_count: h.triangles_count,
            strips_count: h.strips_count,
            strip_triangles_count: h.strip_triangles_count,
            material_hash: h.material_hash,
            triangle_index0: h.triangle_index0,
            triangle_index1: h.triangle_index1,
            vertex_index0: h.vertex_index0,
            vertex_index1: h.vertex_index1,
            layer_z: h.layer_z,
            floor_flags: h.floor_flags,
            flags: h.flags,
            lighting_sid: h.lighting_sid,
            vertices,
            indices,
        };
        proof {
            assert(spec_parse_model_part(s, p0) == Ok::<(ModelPartView, int), DecodeError>(
                (out.deep_view(), r.pos()),
            ));
        }
        Ok(out)
    }
}

} // verus!
