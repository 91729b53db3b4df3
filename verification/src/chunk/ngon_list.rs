//! The occlusion-mesh n-gon list record.

use vstd::prelude::*;

use crate::decode::{Decode, DecodeError, NoCtx, PositionTracker, decode_vec_n, lemma_parse_n_bounds, spec_parse_i32, spec_parse_n, spec_parse_u32};
use crate::algebra::{Plane, Vector3, spec_parse_plane, spec_parse_vector3};

verus! {

#[derive(Clone, Debug, PartialEq, Eq)]
pub struct NGonList {
    pub vertices: Vec<NGonVertex>,
    pub faces: Vec<NGonFace>,
}

pub struct NGonListView {
    pub vertices: Seq<NGonVertex>,
    pub faces: Seq<NGonFace>,
}

impl DeepView for NGonList {
    type V = NGonListView;

    open spec fn deep_view(&self) -> NGonListView {
        NGonListView {
            vertices: self.vertices.deep_view(),
            faces: self.faces.deep_view(),
        }
    }
}

pub open spec fn spec_parse_ngon_list(s: Seq<u8>, pos: int) -> Result<(NGonListView, int), DecodeError> {
    match spec_parse_u32(s, pos) {
        Err(e) => Err(e),
        Ok((vertex_count, pos)) => {
            match spec_parse_i32(s, pos) {
                Err(e) => Err(e),
                Ok((face_count, pos)) => {
                    if face_count < 0 {
                        Err(DecodeError::ConversionFailure)
                    } else {
                        match spec_parse_n::<NoCtx, NGonVertex>(s, pos, vertex_count as nat, NoCtx) {
                            Err(e) => Err(e),
                            Ok((vertices, pos)) => {
                                match spec_parse_n::<NoCtx, NGonFace>(s, pos, face_count as nat, NoCtx) {
                                    Err(e) => Err(e),
                                    Ok((faces, pos)) => {
                                        Ok((
                                            NGonListView {
                                                vertices: vertices,
                                                faces: faces,
                                            },
                                            pos,
                                        ))
                                    },
                                }
                            },
                        }
                    }
                },
            }
        },
    }
}

impl Decode<NoCtx> for NGonList {
    open spec fn spec_parse(s: Seq<u8>, pos: int, c: NoCtx) -> Result<(NGonListView, int), DecodeError> {
        spec_parse_ngon_list(s, pos)
    }

    proof fn parse_bounds(s: Seq<u8>, pos: int, c: NoCtx) {
            match spec_parse_u32(s, pos) {
                Err(_) => {},
                Ok((vertex_count, pos)) => {
                    match spec_parse_i32(s, pos) {
                        Err(_) => {},
                        Ok((face_count, pos)) => {
                            lemma_parse_n_bounds::<NoCtx, NGonVertex>(s, pos, vertex_count as nat, NoCtx);
                            match spec_parse_n::<NoCtx, NGonVertex>(s, pos, vertex_count as nat, NoCtx) {
                                Err(_) => {},
                                Ok((vertices, pos)) => {
                                    lemma_parse_n_bounds::<NoCtx, NGonFace>(s, pos, face_count as nat, NoCtx);
                                    match spec_parse_n::<NoCtx, NGonFace>(s, pos, face_count as nat, NoCtx) {
                                        Err(_) => {},
                                        Ok((faces, pos)) => {
                                        },
                                    }
                                },
                            }
                        },
                    }
                },
            }
    }

    fn decode(r: &mut PositionTracker, c: NoCtx) -> (res: Result<NGonList, DecodeError>) {
        let ghost s = old(r).data();
        let ghost p0 = old(r).pos();
        let vertex_count = match r.read_u32() {
            Ok(v) => v,
            Err(e) => {
                proof {
                    assert(spec_parse_ngon_list(s, p0) == Err::<(NGonListView, int), DecodeError>(e));
                    assert(<NGonList as Decode<NoCtx>>::spec_parse(s, p0, NoCtx) == spec_parse_ngon_list(s, p0));
                }
                return Err(e);
            },
        };
        let face_count = match r.read_i32() {
            Ok(v) => v,
            Err(e) => {
                proof {
                    assert(spec_parse_ngon_list(s, p0) == Err::<(NGonListView, int), DecodeError>(e));
                    assert(<NGonList as Decode<NoCtx>>::spec_parse(s, p0, NoCtx) == spec_parse_ngon_list(s, p0));
                }
                return Err(e);
            },
        };
        if face_count < 0 {
            proof {
                assert(spec_parse_ngon_list(s, p0) == Err::<(NGonListView, int), DecodeError>(DecodeError::ConversionFailure));
                assert(<NGonList as Decode<NoCtx>>::spec_parse(s, p0, NoCtx) == spec_parse_ngon_list(s, p0));
            }
            return Err(DecodeError::ConversionFailure);
        }
        let vertices = match decode_vec_n::<NoCtx, NGonVertex>(r, vertex_count as u64, NoCtx) {
            Ok(v) => v,
            Err(e) => {
                proof {
                    assert(spec_parse_ngon_list(s, p0) == Err::<(NGonListView, int), DecodeError>(e));
                    assert(<NGonList as Decode<NoCtx>>::spec_parse(s, p0, NoCtx) == spec_parse_ngon_list(s, p0));
                }
                return Err(e);
            },
        };
        let faces = match decode_vec_n::<NoCtx, NGonFace>(r, face_count as u64, NoCtx) {
            Ok(v) => v,
            Err(e) => {
                proof {
                    assert(spec_parse_ngon_list(s, p0) == Err::<(NGonListView, int), DecodeError>(e));
                    assert(<NGonList as Decode<NoCtx>>::spec_parse(s, p0, NoCtx) == spec_parse_ngon_list(s, p0));
                }
                return Err(e);
            },
        };
        let out = NGonList {
            vertices,
            faces,
        };
        proof {
            assert(spec_parse_ngon_list(s, p0) == Ok::<(NGonListView, int), DecodeError>((out.deep_view(), r.pos())));
            assert(<NGonList as Decode<NoCtx>>::spec_parse(s, p0, NoCtx) == spec_parse_ngon_list(s, p0));
        }
        Ok(out)
    }
}

#[derive(Clone, Copy, Debug, PartialEq, Eq, Structural)]
pub struct NGonVertex {
    pub vector: Vector3,
    pub edge_plane: Plane,
}

impl DeepView for NGonVertex {
    type V = NGonVertex;

    open spec fn deep_view(&self) -> NGonVertex {
        *self
    }
}

pub open spec fn spec_parse_ngon_vertex(s: Seq<u8>, pos: int) -> Result<(NGonVertex, int), DecodeError> {
    match spec_parse_vector3(s, pos) {
        Err(e) => Err(e),
        Ok((vector, pos)) => {
            match spec_parse_plane(s, pos) {
                Err(e) => Err(e),
                Ok((edge_plane, pos)) => {
                    Ok((
                        NGonVertex {
                            vector: vector,
                            edge_plane: edge_plane,
                        },
                        pos,
                    ))
                },
            }
        },
    }
}

impl Decode<NoCtx> for NGonVertex {
    open spec fn spec_parse(s: Seq<u8>, pos: int, c: NoCtx) -> Result<(NGonVertex, int), DecodeError> {
        spec_parse_ngon_vertex(s, pos)
    }

    proof fn parse_bounds(s: Seq<u8>, pos: int, c: NoCtx) {
    }

    fn decode(r: &mut PositionTracker, c: NoCtx) -> (res: Result<NGonVertex, DecodeError>) {
        let ghost s = old(r).data();
        let ghost p0 = old(r).pos();
        let vector = match Vector3::decode(r, NoCtx) {
            Ok(v) => v,
            Err(e) => {
                proof {
                    assert(spec_parse_ngon_vertex(s, p0) == Err::<(NGonVertex, int), DecodeError>(e));
                    assert(<NGonVertex as Decode<NoCtx>>::spec_parse(s, p0, NoCtx) == spec_parse_ngon_vertex(s, p0));
                }
                return Err(e);
            },
        };
        let edge_plane = match Plane::decode(r, NoCtx) {
            Ok(v) => v,
            Err(e) => {
                proof {
                    assert(spec_parse_ngon_vertex(s, p0) == Err::<(NGonVertex, int), DecodeError>(e));
                    assert(<NGonVertex as Decode<NoCtx>>::spec_parse(s, p0, NoCtx) == spec_parse_ngon_vertex(s, p0));
                }
                return Err(e);
            },
        };
        let out = NGonVertex {
            vector,
            edge_plane,
        };
        proof {
            assert(spec_parse_ngon_vertex(s, p0) == Ok::<(NGonVertex, int), DecodeError>((out.deep_view(), r.pos())));
            assert(<NGonVertex as Decode<NoCtx>>::spec_parse(s, p0, NoCtx) == spec_parse_ngon_vertex(s, p0));
        }
        Ok(out)
    }
}

/// An n-gon face; `test_count` is not stored on the wire and is always zero after decoding.
#[derive(Clone, Copy, Debug, PartialEq, Eq, Structural)]
pub struct NGonFace {
    pub face_plane: Plane,
    pub vertex_index: u32,
    pub vertex_count: u32,
    pub flags: u32,
    pub test_count: u32,
}

impl DeepView for NGonFace {
    type V = NGonFace;

    open spec fn deep_view(&self) -> NGonFace {
        *self
    }
}

pub open spec fn spec_parse_ngon_face(s: Seq<u8>, pos: int) -> Result<(NGonFace, int), DecodeError> {
    match spec_parse_plane(s, pos) {
        Err(e) => Err(e),
        Ok((face_plane, pos)) => {
            match spec_parse_u32(s, pos) {
                Err(e) => Err(e),
                Ok((vertex_index, pos)) => {
                    match spec_parse_u32(s, pos) {
                        Err(e) => Err(e),
                        Ok((vertex_count, pos)) => {
                            match spec_parse_u32(s, pos) {
                                Err(e) => Err(e),
                                Ok((flags, pos)) => {
                                    Ok((
                                        NGonFace {
                                            face_plane: face_plane,
                                            vertex_index: vertex_index,
                                            vertex_count: vertex_count,
                                            flags: flags,
                                            test_count: 0,
                                        },
                                        pos,
                                    ))
                                },
                            }
                        },
                    }
                },
            }
        },
    }
}

impl Decode<NoCtx> for NGonFace {
    open spec fn spec_parse(s: Seq<u8>, pos: int, c: NoCtx) -> Result<(NGonFace, int), DecodeError> {
        spec_parse_ngon_face(s, pos)
    }

    proof fn parse_bounds(s: Seq<u8>, pos: int, c: NoCtx) {
    }

    fn decode(r: &mut PositionTracker, c: NoCtx) -> (res: Result<NGonFace, DecodeError>) {
        let ghost s = old(r).data();
        let ghost p0 = old(r).pos();
        let face_plane = match Plane::decode(r, NoCtx) {
            Ok(v) => v,
            Err(e) => {
                proof {
                    assert(spec_parse_ngon_face(s, p0) == Err::<(NGonFace, int), DecodeError>(e));
                    assert(<NGonFace as Decode<NoCtx>>::spec_parse(s, p0, NoCtx) == spec_parse_ngon_face(s, p0));
                }
                return Err(e);
            },
        };
        let vertex_index = match r.read_u32() {
            Ok(v) => v,
            Err(e) => {
                proof {
                    assert(spec_parse_ngon_face(s, p0) == Err::<(NGonFace, int), DecodeError>(e));
                    assert(<NGonFace as Decode<NoCtx>>::spec_parse(s, p0, NoCtx) == spec_parse_ngon_face(s, p0));
                }
                return Err(e);
            },
        };
        let vertex_count = match r.read_u32() {
            Ok(v) => v,
            Err(e) => {
                proof {
                    assert(spec_parse_ngon_face(s, p0) == Err::<(NGonFace, int), DecodeError>(e));
                    assert(<NGonFace as Decode<NoCtx>>::spec_parse(s, p0, NoCtx) == spec_parse_ngon_face(s, p0));
                }
                return Err(e);
            },
        };
        let flags = match r.read_u32() {
            Ok(v) => v,
            Err(e) => {
                proof {
                    assert(spec_parse_ngon_face(s, p0) == Err::<(NGonFace, int), DecodeError>(e));
                    assert(<NGonFace as Decode<NoCtx>>::spec_parse(s, p0, NoCtx) == spec_parse_ngon_face(s, p0));
                }
                return Err(e);
            },
        };
        let out = NGonFace {
            face_plane,
            vertex_index,
            vertex_count,
            flags,
            test_count: 0,
        };
        proof {
            assert(spec_parse_ngon_face(s, p0) == Ok::<(NGonFace, int), DecodeError>((out.deep_view(), r.pos())));
            assert(<NGonFace as Decode<NoCtx>>::spec_parse(s, p0, NoCtx) == spec_parse_ngon_face(s, p0));
        }
        Ok(out)
    }
}

} // verus!
