//! The animation-key record.  The key payload is a tagged union selected
//! by a discriminant read at the head of the record; shape keys branch
//! further on a per-key key-frame boolean, and UV keys interleave counted
//! index runs into pairs.

use vstd::prelude::*;

use crate::algebra::{
    spec_parse_f32, spec_parse_quat_i32, spec_parse_vector3, FloatBits, QuantizedQuaternion,
    Vector3,
};
use crate::bounding_box::{spec_parse_bounding_box, BoundingBox};
use crate::decode::{
    decode_vec_n, lemma_parse_n_bounds, spec_parse_bool, spec_parse_i32, spec_parse_n,
    spec_parse_optional, spec_parse_u16, spec_parse_u32, spec_parse_u8, Decode, DecodeError, NoCtx,
    PositionTracker,
};

verus! {

/// Interpolation modes for key times.
#[derive(Clone, Copy, Debug, PartialEq, Eq, Structural)]
pub enum Interpolation {
    Linear,
    CubicSpline,
}

impl DeepView for Interpolation {
    type V = Interpolation;

    open spec fn deep_view(&self) -> Interpolation {
        *self
    }
}

pub open spec fn spec_interpolation_of(v: i32) -> Option<Interpolation> {
    if v == 0 {
        Some(Interpolation::Linear)
    } else if v == 1 {
        Some(Interpolation::CubicSpline)
    } else {
        None
    }
}

pub open spec fn spec_parse_interpolation(s: Seq<u8>, pos: int) -> Result<
    (Interpolation, int),
    DecodeError,
> {
    match spec_parse_i32(s, pos) {
        Err(e) => Err(e),
        Ok((v, pos)) => match spec_interpolation_of(v) {
            Some(i) => Ok((i, pos)),
            None => Err(DecodeError::ConversionFailure),
        },
    }
}

impl Decode<NoCtx> for Interpolation {
    open spec fn spec_parse(s: Seq<u8>, pos: int, c: NoCtx) -> Result<
        (Interpolation, int),
        DecodeError,
    > {
        spec_parse_interpolation(s, pos)
    }

    proof fn parse_bounds(s: Seq<u8>, pos: int, c: NoCtx) {
    }

    fn decode(r: &mut PositionTracker, c: NoCtx) -> (res: Result<Interpolation, DecodeError>) {
        let v = match r.read_i32() {
            Ok(v) => v,
            Err(e) => return Err(e),
        };
        if v == 0 {
            Ok(Interpolation::Linear)
        } else if v == 1 {
            Ok(Interpolation::CubicSpline)
        } else {
            Err(DecodeError::ConversionFailure)
        }
    }
}

/// The discriminant that selects the key payload's shape.
#[derive(Clone, Copy, Debug, PartialEq, Eq, Structural)]
pub enum AnimationKeyType {
    Rotate,
    Translate,
    Shape,
    Uv,
    VisibilityState,
}

impl DeepView for AnimationKeyType {
    type V = AnimationKeyType;

    open spec fn deep_view(&self) -> AnimationKeyType {
        *self
    }
}

pub open spec fn spec_animation_key_type_of(v: i32) -> Option<AnimationKeyType> {
    if v == 0 {
        Some(AnimationKeyType::Rotate)
    } else if v == 1 {
        Some(AnimationKeyType::Translate)
    } else if v == 2 {
        Some(AnimationKeyType::Shape)
    } else if v == 3 {
        Some(AnimationKeyType::Uv)
    } else if v == 4 {
        Some(AnimationKeyType::VisibilityState)
    } else {
        None
    }
}

impl AnimationKeyType {
    /// The key type a raw discriminant stands for, if any.
    pub fn from_i32(v: i32) -> (res: Option<AnimationKeyType>)
        ensures
            res == spec_animation_key_type_of(v),
    {
        if v == 0 {
            Some(AnimationKeyType::Rotate)
        } else if v == 1 {
            Some(AnimationKeyType::Translate)
        } else if v == 2 {
            Some(AnimationKeyType::Shape)
        } else if v == 3 {
            Some(AnimationKeyType::Uv)
        } else if v == 4 {
            Some(AnimationKeyType::VisibilityState)
        } else {
            None
        }
    }
}

/// A visibility key: a single byte, zero or one.
#[derive(Clone, Copy, Debug, PartialEq, Eq, Structural)]
pub enum VisibilityState {
    Off,
    On,
}

impl DeepView for VisibilityState {
    type V = VisibilityState;

    open spec fn deep_view(&self) -> VisibilityState {
        *self
    }
}

pub open spec fn spec_visibility_state_of(v: u8) -> Option<VisibilityState> {
    if v == 0 {
        Some(VisibilityState::Off)
    } else if v == 1 {
        Some(VisibilityState::On)
    } else {
        None
    }
}

pub open spec fn spec_parse_visibility_state(s: Seq<u8>, pos: int) -> Result<
    (VisibilityState, int),
    DecodeError,
> {
    match spec_parse_u8(s, pos) {
        Err(e) => Err(e),
        Ok((v, pos)) => match spec_visibility_state_of(v) {
            Some(st) => Ok((st, pos)),
            None => Err(DecodeError::ConversionFailure),
        },
    }
}

impl Decode<NoCtx> for VisibilityState {
    open spec fn spec_parse(s: Seq<u8>, pos: int, c: NoCtx) -> Result<
        (VisibilityState, int),
        DecodeError,
    > {
        spec_parse_visibility_state(s, pos)
    }

    proof fn parse_bounds(s: Seq<u8>, pos: int, c: NoCtx) {
    }

    fn decode(r: &mut PositionTracker, c: NoCtx) -> (res: Result<VisibilityState, DecodeError>) {
        let v = match r.read_u8() {
            Ok(v) => v,
            Err(e) => return Err(e),
        };
        if v == 0 {
            Ok(VisibilityState::Off)
        } else if v == 1 {
            Ok(VisibilityState::On)
        } else {
            Err(DecodeError::ConversionFailure)
        }
    }
}

/// Per-channel quantization modes for compressed key data; a zero
/// discriminant stands for no quantization at all.
#[derive(Clone, Copy, Debug, PartialEq, Eq, Structural)]
pub enum AdaptiveDifferentialPulseCodeModulationType {
    Disabled,
    Linear,
    Exponential,
}

impl DeepView for AdaptiveDifferentialPulseCodeModulationType {
    type V = AdaptiveDifferentialPulseCodeModulationType;

    open spec fn deep_view(&self) -> AdaptiveDifferentialPulseCodeModulationType {
        *self
    }
}

pub open spec fn spec_adpcm_type_of(v: i32) -> Option<
    AdaptiveDifferentialPulseCodeModulationType,
> {
    if v == 0 {
        Some(AdaptiveDifferentialPulseCodeModulationType::Disabled)
    } else if v == 1 {
        Some(AdaptiveDifferentialPulseCodeModulationType::Linear)
    } else if v == 2 {
        Some(AdaptiveDifferentialPulseCodeModulationType::Exponential)
    } else {
        None
    }
}

pub open spec fn spec_parse_adpcm_type(s: Seq<u8>, pos: int) -> Result<
    (AdaptiveDifferentialPulseCodeModulationType, int),
    DecodeError,
> {
    match spec_parse_i32(s, pos) {
        Err(e) => Err(e),
        Ok((v, pos)) => match spec_adpcm_type_of(v) {
            Some(t) => Ok((t, pos)),
            None => Err(DecodeError::ConversionFailure),
        },
    }
}

impl Decode<NoCtx> for AdaptiveDifferentialPulseCodeModulationType {
    open spec fn spec_parse(s: Seq<u8>, pos: int, c: NoCtx) -> Result<
        (AdaptiveDifferentialPulseCodeModulationType, int),
        DecodeError,
    > {
        spec_parse_adpcm_type(s, pos)
    }

    proof fn parse_bounds(s: Seq<u8>, pos: int, c: NoCtx) {
    }

    fn decode(r: &mut PositionTracker, c: NoCtx) -> (res: Result<
        AdaptiveDifferentialPulseCodeModulationType,
        DecodeError,
    >) {
        let v = match r.read_i32() {
            Ok(v) => v,
            Err(e) => return Err(e),
        };
        if v == 0 {
            Ok(AdaptiveDifferentialPulseCodeModulationType::Disabled)
        } else if v == 1 {
            Ok(AdaptiveDifferentialPulseCodeModulationType::Linear)
        } else if v == 2 {
            Ok(AdaptiveDifferentialPulseCodeModulationType::Exponential)
        } else {
            Err(DecodeError::ConversionFailure)
        }
    }
}

#[derive(Clone, Copy, Debug, PartialEq, Eq, Structural)]
pub struct AdaptiveDifferentialPulseCodeModulation {
    pub vertex_type: AdaptiveDifferentialPulseCodeModulationType,
    pub normal_type: AdaptiveDifferentialPulseCodeModulationType,
    pub vertex_range: Vector3,
    pub normal_range: Vector3,
}

impl DeepView for AdaptiveDifferentialPulseCodeModulation {
    type V = AdaptiveDifferentialPulseCodeModulation;

    open spec fn deep_view(&self) -> AdaptiveDifferentialPulseCodeModulation {
        *self
    }
}

pub open spec fn spec_parse_adaptive_differentialpulse_codemodulation(s: Seq<u8>, pos: int) -> Result<(AdaptiveDifferentialPulseCodeModulation, int), DecodeError> {
    match spec_parse_adpcm_type(s, pos) {
        Err(e) => Err(e),
        Ok((vertex_type, pos)) => {
            match spec_parse_adpcm_type(s, pos) {
                Err(e) => Err(e),
                Ok((normal_type, pos)) => {
                    match spec_parse_vector3(s, pos) {
                        Err(e) => Err(e),
                        Ok((vertex_range, pos)) => {
                            match spec_parse_vector3(s, pos) {
                                Err(e) => Err(e),
                                Ok((normal_range, pos)) => {
                                    Ok((
                                        AdaptiveDifferentialPulseCodeModulation {
                                            vertex_type: vertex_type,
                                            normal_type: normal_type,
                                            vertex_range: vertex_range,
                                            normal_range: normal_range,
                                        },
                                        pos,
                                    ))
                                },
                            }
                        },
                    }
                },
            }
        },
    }
}

impl Decode<NoCtx> for AdaptiveDifferentialPulseCodeModulation {
    open spec fn spec_parse(s: Seq<u8>, pos: int, c: NoCtx) -> Result<(AdaptiveDifferentialPulseCodeModulation, int), DecodeError> {
        spec_parse_adaptive_differentialpulse_codemodulation(s, pos)
    }

    proof fn parse_bounds(s: Seq<u8>, pos: int, c: NoCtx) {
    }

    fn decode(r: &mut PositionTracker, c: NoCtx) -> (res: Result<AdaptiveDifferentialPulseCodeModulation, DecodeError>) {
        let ghost s = old(r).data();
        let ghost p0 = old(r).pos();
        let vertex_type = match AdaptiveDifferentialPulseCodeModulationType::decode(r, NoCtx) {
            Ok(v) => v,
            Err(e) => {
                proof {
                    assert(spec_parse_adaptive_differentialpulse_codemodulation(s, p0) == Err::<(AdaptiveDifferentialPulseCodeModulation, int), DecodeError>(e));
                    assert(<AdaptiveDifferentialPulseCodeModulation as Decode<NoCtx>>::spec_parse(s, p0, NoCtx) == spec_parse_adaptive_differentialpulse_codemodulation(s, p0));
                }
                return Err(e);
            },
        };
        let normal_type = match AdaptiveDifferentialPulseCodeModulationType::decode(r, NoCtx) {
            Ok(v) => v,
            Err(e) => {
                proof {
                    assert(spec_parse_adaptive_differentialpulse_codemodulation(s, p0) == Err::<(AdaptiveDifferentialPulseCodeModulation, int), DecodeError>(e));
                    assert(<AdaptiveDifferentialPulseCodeModulation as Decode<NoCtx>>::spec_parse(s, p0, NoCtx) == spec_parse_adaptive_differentialpulse_codemodulation(s, p0));
                }
                return Err(e);
            },
        };
        let vertex_range = match Vector3::decode(r, NoCtx) {
            Ok(v) => v,
            Err(e) => {
                proof {
                    assert(spec_parse_adaptive_differentialpulse_codemodulation(s, p0) == Err::<(AdaptiveDifferentialPulseCodeModulation, int), DecodeError>(e));
                    assert(<AdaptiveDifferentialPulseCodeModulation as Decode<NoCtx>>::spec_parse(s, p0, NoCtx) == spec_parse_adaptive_differentialpulse_codemodulation(s, p0));
                }
                return Err(e);
            },
        };
        let normal_range = match Vector3::decode(r, NoCtx) {
            Ok(v) => v,
            Err(e) => {
                proof {
                    assert(spec_parse_adaptive_differentialpulse_codemodulation(s, p0) == Err::<(AdaptiveDifferentialPulseCodeModulation, int), DecodeError>(e));
                    assert(<AdaptiveDifferentialPulseCodeModulation as Decode<NoCtx>>::spec_parse(s, p0, NoCtx) == spec_parse_adaptive_differentialpulse_codemodulation(s, p0));
                }
                return Err(e);
            },
        };
        let out = AdaptiveDifferentialPulseCodeModulation {
            vertex_type,
            normal_type,
            vertex_range,
            normal_range,
        };
        proof {
            assert(spec_parse_adaptive_differentialpulse_codemodulation(s, p0) == Ok::<(AdaptiveDifferentialPulseCodeModulation, int), DecodeError>((out.deep_view(), r.pos())));
            assert(<AdaptiveDifferentialPulseCodeModulation as Decode<NoCtx>>::spec_parse(s, p0, NoCtx) == spec_parse_adaptive_differentialpulse_codemodulation(s, p0));
        }
        Ok(out)
    }
}
/// Absolute vertex positions of a key-frame shape key.
#[derive(Clone, Debug, PartialEq, Eq)]
pub struct KeyFrameAnimatedVertices {
    pub elements: Vec<Vector3>,
}

pub struct KeyFrameAnimatedVerticesView {
    pub elements: Seq<Vector3>,
}

impl DeepView for KeyFrameAnimatedVertices {
    type V = KeyFrameAnimatedVerticesView;

    open spec fn deep_view(&self) -> KeyFrameAnimatedVerticesView {
        KeyFrameAnimatedVerticesView {
            elements: self.elements.deep_view(),
        }
    }
}

pub open spec fn spec_parse_key_frame_animated_vertices(s: Seq<u8>, pos: int) -> Result<(KeyFrameAnimatedVerticesView, int), DecodeError> {
    match spec_parse_u16(s, pos) {
        Err(e) => Err(e),
        Ok((animated_vertices_count, pos)) => {
            match spec_parse_n::<NoCtx, Vector3>(s, pos, animated_vertices_count as nat, NoCtx) {
                Err(e) => Err(e),
                Ok((elements, pos)) => {
                    Ok((
                        KeyFrameAnimatedVerticesView {
                            elements: elements,
                        },
                        pos,
                    ))
                },
            }
        },
    }
}

impl Decode<NoCtx> for KeyFrameAnimatedVertices {
    open spec fn spec_parse(s: Seq<u8>, pos: int, c: NoCtx) -> Result<(KeyFrameAnimatedVerticesView, int), DecodeError> {
        spec_parse_key_frame_animated_vertices(s, pos)
    }

    proof fn parse_bounds(s: Seq<u8>, pos: int, c: NoCtx) {
            match spec_parse_u16(s, pos) {
                Err(_) => {},
                Ok((animated_vertices_count, pos)) => {
                    lemma_parse_n_bounds::<NoCtx, Vector3>(s, pos, animated_vertices_count as nat, NoCtx);
                    match spec_parse_n::<NoCtx, Vector3>(s, pos, animated_vertices_count as nat, NoCtx) {
                        Err(_) => {},
                        Ok((elements, pos)) => {
                        },
                    }
                },
            }
    }

    fn decode(r: &mut PositionTracker, c: NoCtx) -> (res: Result<KeyFrameAnimatedVertices, DecodeError>) {
        let ghost s = old(r).data();
        let ghost p0 = old(r).pos();
        let animated_vertices_count = match r.read_u16() {
            Ok(v) => v,
            Err(e) => {
                proof {
                    assert(spec_parse_key_frame_animated_vertices(s, p0) == Err::<(KeyFrameAnimatedVerticesView, int), DecodeError>(e));
                    assert(<KeyFrameAnimatedVertices as Decode<NoCtx>>::spec_parse(s, p0, NoCtx) == spec_parse_key_frame_animated_vertices(s, p0));
                }
                return Err(e);
            },
        };
        let elements = match decode_vec_n::<NoCtx, Vector3>(r, animated_vertices_count as u64, NoCtx) {
            Ok(v) => v,
            Err(e) => {
                proof {
                    assert(spec_parse_key_frame_animated_vertices(s, p0) == Err::<(KeyFrameAnimatedVerticesView, int), DecodeError>(e));
                    assert(<KeyFrameAnimatedVertices as Decode<NoCtx>>::spec_parse(s, p0, NoCtx) == spec_parse_key_frame_animated_vertices(s, p0));
                }
                return Err(e);
            },
        };
        let out = KeyFrameAnimatedVertices {
            elements,
        };
        proof {
            assert(spec_parse_key_frame_animated_vertices(s, p0) == Ok::<(KeyFrameAnimatedVerticesView, int), DecodeError>((out.deep_view(), r.pos())));
            assert(<KeyFrameAnimatedVertices as Decode<NoCtx>>::spec_parse(s, p0, NoCtx) == spec_parse_key_frame_animated_vertices(s, p0));
        }
        Ok(out)
    }
}

/// Absolute normals of a key-frame shape key.
#[derive(Clone, Debug, PartialEq, Eq)]
pub struct KeyFrameNormals {
    pub elements: Vec<Vector3>,
}

pub struct KeyFrameNormalsView {
    pub elements: Seq<Vector3>,
}

impl DeepView for KeyFrameNormals {
    type V = KeyFrameNormalsView;

    open spec fn deep_view(&self) -> KeyFrameNormalsView {
        KeyFrameNormalsView {
            elements: self.elements.deep_view(),
        }
    }
}

pub open spec fn spec_parse_key_frame_normals(s: Seq<u8>, pos: int) -> Result<(KeyFrameNormalsView, int), DecodeError> {
    match spec_parse_u16(s, pos) {
        Err(e) => Err(e),
        Ok((normals_count, pos)) => {
            match spec_parse_n::<NoCtx, Vector3>(s, pos, normals_count as nat, NoCtx) {
                Err(e) => Err(e),
                Ok((elements, pos)) => {
                    Ok((
                        KeyFrameNormalsView {
                            elements: elements,
                        },
                        pos,
                    ))
                },
            }
        },
    }
}

impl Decode<NoCtx> for KeyFrameNormals {
    open spec fn spec_parse(s: Seq<u8>, pos: int, c: NoCtx) -> Result<(KeyFrameNormalsView, int), DecodeError> {
        spec_parse_key_frame_normals(s, pos)
    }

    proof fn parse_bounds(s: Seq<u8>, pos: int, c: NoCtx) {
            match spec_parse_u16(s, pos) {
                Err(_) => {},
                Ok((normals_count, pos)) => {
                    lemma_parse_n_bounds::<NoCtx, Vector3>(s, pos, normals_count as nat, NoCtx);
                    match spec_parse_n::<NoCtx, Vector3>(s, pos, normals_count as nat, NoCtx) {
                        Err(_) => {},
                        Ok((elements, pos)) => {
                        },
                    }
                },
            }
    }

    fn decode(r: &mut PositionTracker, c: NoCtx) -> (res: Result<KeyFrameNormals, DecodeError>) {
        let ghost s = old(r).data();
        let ghost p0 = old(r).pos();
        let normals_count = match r.read_u16() {
            Ok(v) => v,
            Err(e) => {
                proof {
                    assert(spec_parse_key_frame_normals(s, p0) == Err::<(KeyFrameNormalsView, int), DecodeError>(e));
                    assert(<KeyFrameNormals as Decode<NoCtx>>::spec_parse(s, p0, NoCtx) == spec_parse_key_frame_normals(s, p0));
                }
                return Err(e);
            },
        };
        let elements = match decode_vec_n::<NoCtx, Vector3>(r, normals_count as u64, NoCtx) {
            Ok(v) => v,
            Err(e) => {
                proof {
                    assert(spec_parse_key_frame_normals(s, p0) == Err::<(KeyFrameNormalsView, int), DecodeError>(e));
                    assert(<KeyFrameNormals as Decode<NoCtx>>::spec_parse(s, p0, NoCtx) == spec_parse_key_frame_normals(s, p0));
                }
                return Err(e);
            },
        };
        let out = KeyFrameNormals {
            elements,
        };
        proof {
            assert(spec_parse_key_frame_normals(s, p0) == Ok::<(KeyFrameNormalsView, int), DecodeError>((out.deep_view(), r.pos())));
            assert(<KeyFrameNormals as Decode<NoCtx>>::spec_parse(s, p0, NoCtx) == spec_parse_key_frame_normals(s, p0));
        }
        Ok(out)
    }
}

/// Sparse vertex deltas of a non-key-frame shape key, as parallel index and value runs.
#[derive(Clone, Debug, PartialEq, Eq)]
pub struct NotKeyFrameAnimatedVertices {
    pub indices: Vec<u16>,
    pub elements: Vec<u16>,
}

pub struct NotKeyFrameAnimatedVerticesView {
    pub indices: Seq<u16>,
    pub elements: Seq<u16>,
}

impl DeepView for NotKeyFrameAnimatedVertices {
    type V = NotKeyFrameAnimatedVerticesView;

    open spec fn deep_view(&self) -> NotKeyFrameAnimatedVerticesView {
        NotKeyFrameAnimatedVerticesView {
            indices: self.indices.deep_view(),
            elements: self.elements.deep_view(),
        }
    }
}

pub open spec fn spec_parse_not_key_frame_animated_vertices(s: Seq<u8>, pos: int) -> Result<(NotKeyFrameAnimatedVerticesView, int), DecodeError> {
    match spec_parse_u16(s, pos) {
        Err(e) => Err(e),
        Ok((animated_vertices_count, pos)) => {
            match spec_parse_n::<NoCtx, u16>(s, pos, animated_vertices_count as nat, NoCtx) {
                Err(e) => Err(e),
                Ok((indices, pos)) => {
                    match spec_parse_n::<NoCtx, u16>(s, pos, animated_vertices_count as nat, NoCtx) {
                        Err(e) => Err(e),
                        Ok((elements, pos)) => {
                            Ok((
                                NotKeyFrameAnimatedVerticesView {
                                    indices: indices,
                                    elements: elements,
                                },
                                pos,
                            ))
                        },
                    }
                },
            }
        },
    }
}

impl Decode<NoCtx> for NotKeyFrameAnimatedVertices {
    open spec fn spec_parse(s: Seq<u8>, pos: int, c: NoCtx) -> Result<(NotKeyFrameAnimatedVerticesView, int), DecodeError> {
        spec_parse_not_key_frame_animated_vertices(s, pos)
    }

    proof fn parse_bounds(s: Seq<u8>, pos: int, c: NoCtx) {
            match spec_parse_u16(s, pos) {
                Err(_) => {},
                Ok((animated_vertices_count, pos)) => {
                    lemma_parse_n_bounds::<NoCtx, u16>(s, pos, animated_vertices_count as nat, NoCtx);
                    match spec_parse_n::<NoCtx, u16>(s, pos, animated_vertices_count as nat, NoCtx) {
                        Err(_) => {},
                        Ok((indices, pos)) => {
                            lemma_parse_n_bounds::<NoCtx, u16>(s, pos, animated_vertices_count as nat, NoCtx);
                            match spec_parse_n::<NoCtx, u16>(s, pos, animated_vertices_count as nat, NoCtx) {
                                Err(_) => {},
                                Ok((elements, pos)) => {
                                },
                            }
                        },
                    }
                },
            }
    }

    fn decode(r: &mut PositionTracker, c: NoCtx) -> (res: Result<NotKeyFrameAnimatedVertices, DecodeError>) {
        let ghost s = old(r).data();
        let ghost p0 = old(r).pos();
        let animated_vertices_count = match r.read_u16() {
            Ok(v) => v,
            Err(e) => {
                proof {
                    assert(spec_parse_not_key_frame_animated_vertices(s, p0) == Err::<(NotKeyFrameAnimatedVerticesView, int), DecodeError>(e));
                    assert(<NotKeyFrameAnimatedVertices as Decode<NoCtx>>::spec_parse(s, p0, NoCtx) == spec_parse_not_key_frame_animated_vertices(s, p0));
                }
                return Err(e);
            },
        };
        let indices = match decode_vec_n::<NoCtx, u16>(r, animated_vertices_count as u64, NoCtx) {
            Ok(v) => v,
            Err(e) => {
                proof {
                    assert(spec_parse_not_key_frame_animated_vertices(s, p0) == Err::<(NotKeyFrameAnimatedVerticesView, int), DecodeError>(e));
                    assert(<NotKeyFrameAnimatedVertices as Decode<NoCtx>>::spec_parse(s, p0, NoCtx) == spec_parse_not_key_frame_animated_vertices(s, p0));
                }
                return Err(e);
            },
        };
        let elements = match decode_vec_n::<NoCtx, u16>(r, animated_vertices_count as u64, NoCtx) {
            Ok(v) => v,
            Err(e) => {
                proof {
                    assert(spec_parse_not_key_frame_animated_vertices(s, p0) == Err::<(NotKeyFrameAnimatedVerticesView, int), DecodeError>(e));
                    assert(<NotKeyFrameAnimatedVertices as Decode<NoCtx>>::spec_parse(s, p0, NoCtx) == spec_parse_not_key_frame_animated_vertices(s, p0));
                }
                return Err(e);
            },
        };
        let out = NotKeyFrameAnimatedVertices {
            indices,
            elements,
        };
        proof {
            assert(spec_parse_not_key_frame_animated_vertices(s, p0) == Ok::<(NotKeyFrameAnimatedVerticesView, int), DecodeError>((out.deep_view(), r.pos())));
            assert(<NotKeyFrameAnimatedVertices as Decode<NoCtx>>::spec_parse(s, p0, NoCtx) == spec_parse_not_key_frame_animated_vertices(s, p0));
        }
        Ok(out)
    }
}

/// Sparse normal deltas of a non-key-frame shape key.
#[derive(Clone, Debug, PartialEq, Eq)]
pub struct NotKeyFrameNormals {
    pub indices: Vec<u16>,
    pub elements: Vec<u16>,
}

pub struct NotKeyFrameNormalsView {
    pub indices: Seq<u16>,
    pub elements: Seq<u16>,
}

impl DeepView for NotKeyFrameNormals {
    type V = NotKeyFrameNormalsView;

    open spec fn deep_view(&self) -> NotKeyFrameNormalsView {
        NotKeyFrameNormalsView {
            indices: self.indices.deep_view(),
            elements: self.elements.deep_view(),
        }
    }
}

pub open spec fn spec_parse_not_key_frame_normals(s: Seq<u8>, pos: int) -> Result<(NotKeyFrameNormalsView, int), DecodeError> {
    match spec_parse_u16(s, pos) {
        Err(e) => Err(e),
        Ok((normals_count, pos)) => {
            match spec_parse_n::<NoCtx, u16>(s, pos, normals_count as nat, NoCtx) {
                Err(e) => Err(e),
                Ok((indices, pos)) => {
                    match spec_parse_n::<NoCtx, u16>(s, pos, normals_count as nat, NoCtx) {
                        Err(e) => Err(e),
                        Ok((elements, pos)) => {
                            Ok((
                                NotKeyFrameNormalsView {
                                    indices: indices,
                                    elements: elements,
                                },
                                pos,
                            ))
                        },
                    }
                },
            }
        },
    }
}

impl Decode<NoCtx> for NotKeyFrameNormals {
    open spec fn spec_parse(s: Seq<u8>, pos: int, c: NoCtx) -> Result<(NotKeyFrameNormalsView, int), DecodeError> {
        spec_parse_not_key_frame_normals(s, pos)
    }

    proof fn parse_bounds(s: Seq<u8>, pos: int, c: NoCtx) {
            match spec_parse_u16(s, pos) {
                Err(_) => {},
                Ok((normals_count, pos)) => {
                    lemma_parse_n_bounds::<NoCtx, u16>(s, pos, normals_count as nat, NoCtx);
                    match spec_parse_n::<NoCtx, u16>(s, pos, normals_count as nat, NoCtx) {
                        Err(_) => {},
                        Ok((indices, pos)) => {
                            lemma_parse_n_bounds::<NoCtx, u16>(s, pos, normals_count as nat, NoCtx);
                            match spec_parse_n::<NoCtx, u16>(s, pos, normals_count as nat, NoCtx) {
                                Err(_) => {},
                                Ok((elements, pos)) => {
                                },
                            }
                        },
                    }
                },
            }
    }

    fn decode(r: &mut PositionTracker, c: NoCtx) -> (res: Result<NotKeyFrameNormals, DecodeError>) {
        let ghost s = old(r).data();
        let ghost p0 = old(r).pos();
        let normals_count = match r.read_u16() {
            Ok(v) => v,
            Err(e) => {
                proof {
                    assert(spec_parse_not_key_frame_normals(s, p0) == Err::<(NotKeyFrameNormalsView, int), DecodeError>(e));
                    assert(<NotKeyFrameNormals as Decode<NoCtx>>::spec_parse(s, p0, NoCtx) == spec_parse_not_key_frame_normals(s, p0));
                }
                return Err(e);
            },
        };
        let indices = match decode_vec_n::<NoCtx, u16>(r, normals_count as u64, NoCtx) {
            Ok(v) => v,
            Err(e) => {
                proof {
                    assert(spec_parse_not_key_frame_normals(s, p0) == Err::<(NotKeyFrameNormalsView, int), DecodeError>(e));
                    assert(<NotKeyFrameNormals as Decode<NoCtx>>::spec_parse(s, p0, NoCtx) == spec_parse_not_key_frame_normals(s, p0));
                }
                return Err(e);
            },
        };
        let elements = match decode_vec_n::<NoCtx, u16>(r, normals_count as u64, NoCtx) {
            Ok(v) => v,
            Err(e) => {
                proof {
                    assert(spec_parse_not_key_frame_normals(s, p0) == Err::<(NotKeyFrameNormalsView, int), DecodeError>(e));
                    assert(<NotKeyFrameNormals as Decode<NoCtx>>::spec_parse(s, p0, NoCtx) == spec_parse_not_key_frame_normals(s, p0));
                }
                return Err(e);
            },
        };
        let out = NotKeyFrameNormals {
            indices,
            elements,
        };
        proof {
            assert(spec_parse_not_key_frame_normals(s, p0) == Ok::<(NotKeyFrameNormalsView, int), DecodeError>((out.deep_view(), r.pos())));
            assert(<NotKeyFrameNormals as Decode<NoCtx>>::spec_parse(s, p0, NoCtx) == spec_parse_not_key_frame_normals(s, p0));
        }
        Ok(out)
    }
}
/// A shape key: a per-key boolean selects absolute key-frame data or
/// sparse delta data.
#[derive(Clone, Debug, PartialEq, Eq)]
pub enum Shape {
    KeyFrame { animated_vertices: KeyFrameAnimatedVertices, normals: KeyFrameNormals },
    NotKeyFrame { animated_vertices: NotKeyFrameAnimatedVertices, normals: NotKeyFrameNormals },
}

pub enum ShapeView {
    KeyFrame { animated_vertices: KeyFrameAnimatedVerticesView, normals: KeyFrameNormalsView },
    NotKeyFrame {
        animated_vertices: NotKeyFrameAnimatedVerticesView,
        normals: NotKeyFrameNormalsView,
    },
}

impl DeepView for Shape {
    type V = ShapeView;

    open spec fn deep_view(&self) -> ShapeView {
        match self {
            Shape::KeyFrame { animated_vertices, normals } => ShapeView::KeyFrame {
                animated_vertices: animated_vertices.deep_view(),
                normals: normals.deep_view(),
            },
            Shape::NotKeyFrame { animated_vertices, normals } => ShapeView::NotKeyFrame {
                animated_vertices: animated_vertices.deep_view(),
                normals: normals.deep_view(),
            },
        }
    }
}

pub open spec fn spec_parse_shape(s: Seq<u8>, pos: int) -> Result<(ShapeView, int), DecodeError> {
    match spec_parse_bool(s, pos) {
        Err(e) => Err(e),
        Ok((key_frame, pos)) => if key_frame {
            match spec_parse_key_frame_animated_vertices(s, pos) {
                Err(e) => Err(e),
                Ok((animated_vertices, pos)) => match spec_parse_key_frame_normals(s, pos) {
                    Err(e) => Err(e),
                    Ok((normals, pos)) => Ok(
                        (ShapeView::KeyFrame { animated_vertices, normals }, pos),
                    ),
                },
            }
        } else {
            match spec_parse_not_key_frame_animated_vertices(s, pos) {
                Err(e) => Err(e),
                Ok((animated_vertices, pos)) => match spec_parse_not_key_frame_normals(s, pos) {
                    Err(e) => Err(e),
                    Ok((normals, pos)) => Ok(
                        (ShapeView::NotKeyFrame { animated_vertices, normals }, pos),
                    ),
                },
            }
        },
    }
}

impl Decode<NoCtx> for Shape {
    open spec fn spec_parse(s: Seq<u8>, pos: int, c: NoCtx) -> Result<(ShapeView, int), DecodeError> {
        spec_parse_shape(s, pos)
    }

    proof fn parse_bounds(s: Seq<u8>, pos: int, c: NoCtx) {
        match spec_parse_bool(s, pos) {
            Err(_) => {},
            Ok((key_frame, pos)) => {
                if key_frame {
                    <KeyFrameAnimatedVertices as Decode<NoCtx>>::parse_bounds(s, pos, NoCtx);
                    match spec_parse_key_frame_animated_vertices(s, pos) {
                        Err(_) => {},
                        Ok((av, pos)) => {
                            <KeyFrameNormals as Decode<NoCtx>>::parse_bounds(s, pos, NoCtx);
                        },
                    }
                } else {
                    <NotKeyFrameAnimatedVertices as Decode<NoCtx>>::parse_bounds(s, pos, NoCtx);
                    match spec_parse_not_key_frame_animated_vertices(s, pos) {
                        Err(_) => {},
                        Ok((av, pos)) => {
                            <NotKeyFrameNormals as Decode<NoCtx>>::parse_bounds(s, pos, NoCtx);
                        },
                    }
                }
            },
        }
    }

    fn decode(r: &mut PositionTracker, c: NoCtx) -> (res: Result<Shape, DecodeError>) {
        let ghost s = old(r).data();
        let ghost p0 = old(r).pos();
        let key_frame = match r.read_bool() {
            Ok(v) => v,
            Err(e) => {
                proof {
                    assert(spec_parse_shape(s, p0) == Err::<(ShapeView, int), DecodeError>(e));
                }
                return Err(e);
            },
        };
        if key_frame {
            let animated_vertices = match KeyFrameAnimatedVertices::decode(r, NoCtx) {
                Ok(v) => v,
                Err(e) => {
                    proof {
                        assert(spec_parse_shape(s, p0) == Err::<(ShapeView, int), DecodeError>(e));
                    }
                    return Err(e);
                },
            };
            let normals = match KeyFrameNormals::decode(r, NoCtx) {
                Ok(v) => v,
                Err(e) => {
                    proof {
                        assert(spec_parse_shape(s, p0) == Err::<(ShapeView, int), DecodeError>(e));
                    }
                    return Err(e);
                },
            };
            let out = Shape::KeyFrame { animated_vertices, normals };
            proof {
                assert(spec_parse_shape(s, p0) == Ok::<(ShapeView, int), DecodeError>(
                    (out.deep_view(), r.pos()),
                ));
            }
            Ok(out)
        } else {
            let animated_vertices = match NotKeyFrameAnimatedVertices::decode(r, NoCtx) {
                Ok(v) => v,
                Err(e) => {
                    proof {
                        assert(spec_parse_shape(s, p0) == Err::<(ShapeView, int), DecodeError>(e));
                    }
                    return Err(e);
                },
            };
            let normals = match NotKeyFrameNormals::decode(r, NoCtx) {
                Ok(v) => v,
                Err(e) => {
                    proof {
                        assert(spec_parse_shape(s, p0) == Err::<(ShapeView, int), DecodeError>(e));
                    }
                    return Err(e);
                },
            };
            let out = Shape::NotKeyFrame { animated_vertices, normals };
            proof {
                assert(spec_parse_shape(s, p0) == Ok::<(ShapeView, int), DecodeError>(
                    (out.deep_view(), r.pos()),
                ));
            }
            Ok(out)
        }
    }
}

/// One UV key coordinate pair.
#[derive(Clone, Copy, Debug, PartialEq, Eq, Structural)]
pub struct Uv {
    pub u: u16,
    pub v: u16,
}

impl Uv {
    pub fn new(u: u16, v: u16) -> (r: Self)
        ensures
            r == (Uv { u, v }),
    {
        Uv { u, v }
    }
}

impl DeepView for Uv {
    type V = Uv;

    open spec fn deep_view(&self) -> Uv {
        *self
    }
}

/// One UV group: a count, a run of u components, a run of v components,
/// paired up positionally.
pub open spec fn spec_parse_uv_group(s: Seq<u8>, pos: int) -> Result<(Seq<Uv>, int), DecodeError> {
    match spec_parse_u16(s, pos) {
        Err(e) => Err(e),
        Ok((cnt, pos)) => match spec_parse_n::<NoCtx, u16>(s, pos, cnt as nat, NoCtx) {
            Err(e) => Err(e),
            Ok((us, pos)) => match spec_parse_n::<NoCtx, u16>(s, pos, cnt as nat, NoCtx) {
                Err(e) => Err(e),
                Ok((vs, pos)) => Ok(
                    (Seq::new(cnt as nat, |i: int| Uv { u: us[i], v: vs[i] }), pos),
                ),
            },
        },
    }
}

/// `n` UV groups, flattened in order.
pub open spec fn spec_parse_uv_groups(s: Seq<u8>, pos: int, n: nat) -> Result<
    (Seq<Uv>, int),
    DecodeError,
>
    decreases n,
{
    if n == 0 {
        Ok((Seq::empty(), pos))
    } else {
        match spec_parse_uv_group(s, pos) {
            Err(e) => Err(e),
            Ok((g, pos2)) => match spec_parse_uv_groups(s, pos2, (n - 1) as nat) {
                Err(e) => Err(e),
                Ok((rest, pos3)) => Ok((g + rest, pos3)),
            },
        }
    }
}

/// Parsing one more group appends it at the back.
proof fn lemma_uv_groups_snoc(s: Seq<u8>, pos: int, n: nat)
    ensures
        spec_parse_uv_groups(s, pos, n + 1) == (match spec_parse_uv_groups(s, pos, n) {
            Ok((gs, p)) => match spec_parse_uv_group(s, p) {
                Ok((g, p2)) => Ok::<(Seq<Uv>, int), DecodeError>((gs + g, p2)),
                Err(e) => Err::<(Seq<Uv>, int), DecodeError>(e),
            },
            Err(e) => Err::<(Seq<Uv>, int), DecodeError>(e),
        }),
    decreases n,
{
    if n == 0 {
        match spec_parse_uv_group(s, pos) {
            Ok((g, p2)) => {
                assert(spec_parse_uv_groups(s, p2, 0) == Ok::<(Seq<Uv>, int), DecodeError>(
                    (Seq::empty(), p2),
                ));
                assert(g + Seq::<Uv>::empty() =~= Seq::<Uv>::empty() + g);
            },
            Err(e) => {},
        }
    } else {
        match spec_parse_uv_group(s, pos) {
            Ok((g, pos2)) => {
                lemma_uv_groups_snoc(s, pos2, (n - 1) as nat);
                assert(spec_parse_uv_groups(s, pos, n + 1) == (match spec_parse_uv_groups(
                    s,
                    pos2,
                    n,
                ) {
                    Ok((gs, p3)) => Ok::<(Seq<Uv>, int), DecodeError>((g + gs, p3)),
                    Err(e) => Err::<(Seq<Uv>, int), DecodeError>(e),
                }));
                assert(spec_parse_uv_groups(s, pos, n) == (match spec_parse_uv_groups(
                    s,
                    pos2,
                    (n - 1) as nat,
                ) {
                    Ok((gs, p3)) => Ok::<(Seq<Uv>, int), DecodeError>((g + gs, p3)),
                    Err(e) => Err::<(Seq<Uv>, int), DecodeError>(e),
                }));
                match spec_parse_uv_groups(s, pos2, (n - 1) as nat) {
                    Ok((gs, p)) => {
                        match spec_parse_uv_group(s, p) {
                            Ok((g2, p2)) => {
                                assert(g + (gs + g2) =~= (g + gs) + g2);
                            },
                            Err(e) => {},
                        }
                    },
                    Err(e) => {},
                }
            },
            Err(e) => {},
        }
    }
}

/// If a prefix of groups parses and the next group fails, any longer run
/// fails with the same error.
proof fn lemma_uv_groups_err(
    s: Seq<u8>,
    pos: int,
    i: nat,
    m: nat,
    gs: Seq<Uv>,
    p: int,
    e: DecodeError,
)
    requires
        i < m,
        spec_parse_uv_groups(s, pos, i) == Ok::<(Seq<Uv>, int), DecodeError>((gs, p)),
        spec_parse_uv_group(s, p) == Err::<(Seq<Uv>, int), DecodeError>(e),
    ensures
        spec_parse_uv_groups(s, pos, m) == Err::<(Seq<Uv>, int), DecodeError>(e),
    decreases i,
{
    if i == 0 {
    } else {
        match spec_parse_uv_group(s, pos) {
            Ok((g, pos2)) => {
                match spec_parse_uv_groups(s, pos2, (i - 1) as nat) {
                    Ok((gs2, p2)) => {
                        lemma_uv_groups_err(s, pos2, (i - 1) as nat, (m - 1) as nat, gs2, p2, e);
                    },
                    Err(_) => {
                        assert(false);
                    },
                }
            },
            Err(_) => {
                assert(false);
            },
        }
    }
}

/// A successful run of groups never moves backwards and stays in bounds
/// when it consumed anything.
proof fn lemma_uv_groups_bounds(s: Seq<u8>, pos: int, n: nat)
    ensures
        match spec_parse_uv_groups(s, pos, n) {
            Ok((gs, p)) => pos <= p && (p > pos ==> 0 <= pos && p <= s.len()),
            Err(_) => true,
        },
    decreases n,
{
    if n > 0 {
        match spec_parse_uv_group(s, pos) {
            Ok((g, pos2)) => {
                lemma_parse_n_bounds::<NoCtx, u16>(s, pos + 2, 0, NoCtx);
                lemma_uv_groups_bounds(s, pos2, (n - 1) as nat);
                match spec_parse_u16(s, pos) {
                    Ok((cnt, q)) => {
                        lemma_parse_n_bounds::<NoCtx, u16>(s, q, cnt as nat, NoCtx);
                        match spec_parse_n::<NoCtx, u16>(s, q, cnt as nat, NoCtx) {
                            Ok((us, q2)) => {
                                lemma_parse_n_bounds::<NoCtx, u16>(s, q2, cnt as nat, NoCtx);
                            },
                            Err(_) => {},
                        }
                    },
                    Err(_) => {},
                }
            },
            Err(_) => {},
        }
    }
}

/// Reads `n` UV groups, flattening the pairs in order.
fn decode_uv_groups(r: &mut PositionTracker, n: u64) -> (res: Result<Vec<Uv>, DecodeError>)
    requires
        old(r).wf(),
    ensures
        final(r).wf(),
        final(r).data() == old(r).data(),
        old(r).pos() <= final(r).pos(),
        match res {
            Ok(v) => spec_parse_uv_groups(old(r).data(), old(r).pos(), n as nat) == Ok::<
                (Seq<Uv>, int),
                DecodeError,
            >((v.deep_view(), final(r).pos())),
            Err(e) => spec_parse_uv_groups(old(r).data(), old(r).pos(), n as nat) == Err::<
                (Seq<Uv>, int),
                DecodeError,
            >(e),
        },
{
    let ghost s = old(r).data();
    let ghost p0 = old(r).pos();
    let mut out: Vec<Uv> = Vec::new();
    let mut i: u64 = 0;
    proof {
        assert(out.deep_view() =~= Seq::<Uv>::empty());
    }
    while i < n
        invariant
            s == old(r).data(),
            p0 == old(r).pos(),
            r.wf(),
            r.data() == s,
            p0 <= r.pos(),
            i <= n,
            spec_parse_uv_groups(s, p0, i as nat) == Ok::<(Seq<Uv>, int), DecodeError>(
                (out.deep_view(), r.pos()),
            ),
        decreases n - i,
    {
        let ghost prev_out = out.deep_view();
        let ghost prev_pos = r.pos();
        let cnt = match r.read_u16() {
            Ok(v) => v,
            Err(e) => {
                proof {
                    assert(spec_parse_uv_group(s, prev_pos) == Err::<(Seq<Uv>, int), DecodeError>(
                        e,
                    ));
                    lemma_uv_groups_err(s, p0, i as nat, n as nat, prev_out, prev_pos, e);
                }
                return Err(e);
            },
        };
        let ghost pu = r.pos();
        let us = match decode_vec_n::<NoCtx, u16>(r, cnt as u64, NoCtx) {
            Ok(v) => v,
            Err(e) => {
                proof {
                    assert(spec_parse_uv_group(s, prev_pos) == Err::<(Seq<Uv>, int), DecodeError>(
                        e,
                    ));
                    lemma_uv_groups_err(s, p0, i as nat, n as nat, prev_out, prev_pos, e);
                }
                return Err(e);
            },
        };
        let ghost pv = r.pos();
        let vs = match decode_vec_n::<NoCtx, u16>(r, cnt as u64, NoCtx) {
            Ok(v) => v,
            Err(e) => {
                proof {
                    assert(spec_parse_uv_group(s, prev_pos) == Err::<(Seq<Uv>, int), DecodeError>(
                        e,
                    ));
                    lemma_uv_groups_err(s, p0, i as nat, n as nat, prev_out, prev_pos, e);
                }
                return Err(e);
            },
        };
        let ghost gseq = Seq::new(cnt as nat, |j: int| Uv { u: us.deep_view()[j], v: vs.deep_view()[j] });
        proof {
            lemma_parse_n_bounds::<NoCtx, u16>(s, pu, cnt as nat, NoCtx);
            lemma_parse_n_bounds::<NoCtx, u16>(s, pv, cnt as nat, NoCtx);
            assert(us.len() == cnt);
            assert(vs.len() == cnt);
            assert(spec_parse_uv_group(s, prev_pos) == Ok::<(Seq<Uv>, int), DecodeError>(
                (gseq, r.pos()),
            ));
        }
        let mut gv: Vec<Uv> = Vec::new();
        let mut k: usize = 0;
        while k < cnt as usize
            invariant
                k <= cnt as usize,
                us.len() == cnt,
                vs.len() == cnt,
                gv@ =~= Seq::new(k as nat, |j: int| Uv { u: us@[j], v: vs@[j] }),
            decreases cnt as usize - k,
        {
            let uv = Uv { u: us[k], v: vs[k] };
            gv.push(uv);
            proof {
                assert(gv@ =~= Seq::new((k + 1) as nat, |j: int| Uv { u: us@[j], v: vs@[j] }));
            }
            k = k + 1;
        }
        proof {
            assert(us.deep_view() =~= us@);
            assert(vs.deep_view() =~= vs@);
            assert(gv.deep_view() =~= gseq);
            lemma_uv_groups_snoc(s, p0, i as nat);
        }
        let mut gv2 = gv;
        out.append(&mut gv2);
        proof {
            assert(out.deep_view() =~= prev_out + gseq);
        }
        i = i + 1;
    }
    Ok(out)
}

/// The key payloads, one variant per key type.
#[derive(Clone, Debug, PartialEq, Eq)]
pub enum AnimationKeys {
    Rotations(Vec<QuantizedQuaternion<i32>>),
    Translations(Vec<Vector3>),
    Shapes(Vec<Shape>),
    Uvs(Vec<Uv>),
    VisibilityStates(Vec<VisibilityState>),
}

pub enum AnimationKeysView {
    Rotations(Seq<QuantizedQuaternion<i32>>),
    Translations(Seq<Vector3>),
    Shapes(Seq<ShapeView>),
    Uvs(Seq<Uv>),
    VisibilityStates(Seq<VisibilityState>),
}

impl DeepView for AnimationKeys {
    type V = AnimationKeysView;

    open spec fn deep_view(&self) -> AnimationKeysView {
        match self {
            AnimationKeys::Rotations(v) => AnimationKeysView::Rotations(v.deep_view()),
            AnimationKeys::Translations(v) => AnimationKeysView::Translations(v.deep_view()),
            AnimationKeys::Shapes(v) => AnimationKeysView::Shapes(v.deep_view()),
            AnimationKeys::Uvs(v) => AnimationKeysView::Uvs(v.deep_view()),
            AnimationKeys::VisibilityStates(v) => AnimationKeysView::VisibilityStates(
                v.deep_view(),
            ),
        }
    }
}

/// A negative key count reads no keys.
pub open spec fn spec_key_run_count(key_count: i32) -> nat {
    if key_count < 0 {
        0
    } else {
        key_count as nat
    }
}

#[derive(Clone, Debug, PartialEq, Eq)]
pub struct AnimationKey {
    pub type_: i32,
    pub target_hash: u32,
    pub time_step: FloatBits,
    pub material_block_index: u16,
    pub bounding_box_maximum: Option<BoundingBox>,
    pub interpolation_type: Interpolation,
    pub times: Option<Vec<FloatBits>>,
    pub keys: AnimationKeys,
    pub adaptive_differential_pulse_code_modulation: Option<
        AdaptiveDifferentialPulseCodeModulation,
    >,
}

pub struct AnimationKeyView {
    pub type_: i32,
    pub target_hash: u32,
    pub time_step: FloatBits,
    pub material_block_index: u16,
    pub bounding_box_maximum: Option<BoundingBox>,
    pub interpolation_type: Interpolation,
    pub times: Option<Seq<FloatBits>>,
    pub keys: AnimationKeysView,
    pub adaptive_differential_pulse_code_modulation: Option<
        AdaptiveDifferentialPulseCodeModulation,
    >,
}

impl DeepView for AnimationKey {
    type V = AnimationKeyView;

    open spec fn deep_view(&self) -> AnimationKeyView {
        AnimationKeyView {
            type_: self.type_,
            target_hash: self.target_hash,
            time_step: self.time_step,
            material_block_index: self.material_block_index,
            bounding_box_maximum: self.bounding_box_maximum,
            interpolation_type: self.interpolation_type,
            times: self.times.deep_view(),
            keys: self.keys.deep_view(),
            adaptive_differential_pulse_code_modulation: self
                .adaptive_differential_pulse_code_modulation,
        }
    }
}

/// The key payload for a known key type and key count.
pub open spec fn spec_parse_keys(s: Seq<u8>, pos: int, kt: AnimationKeyType, key_count: i32)
    -> Result<(AnimationKeysView, int), DecodeError> {
    match kt {
        AnimationKeyType::Rotate => match spec_parse_n::<NoCtx, QuantizedQuaternion<i32>>(
            s,
            pos,
            spec_key_run_count(key_count),
            NoCtx,
        ) {
            Err(e) => Err(e),
            Ok((v, pos)) => Ok((AnimationKeysView::Rotations(v), pos)),
        },
        AnimationKeyType::Translate => match spec_parse_n::<NoCtx, Vector3>(
            s,
            pos,
            spec_key_run_count(key_count),
            NoCtx,
        ) {
            Err(e) => Err(e),
            Ok((v, pos)) => Ok((AnimationKeysView::Translations(v), pos)),
        },
        AnimationKeyType::Shape => match spec_parse_n::<NoCtx, Shape>(
            s,
            pos,
            spec_key_run_count(key_count),
            NoCtx,
        ) {
            Err(e) => Err(e),
            Ok((v, pos)) => Ok((AnimationKeysView::Shapes(v), pos)),
        },
        AnimationKeyType::Uv => match spec_parse_uv_groups(
            s,
            pos,
            2 * spec_key_run_count(key_count),
        ) {
            Err(e) => Err(e),
            Ok((v, pos)) => Ok((AnimationKeysView::Uvs(v), pos)),
        },
        AnimationKeyType::VisibilityState => match spec_parse_n::<NoCtx, VisibilityState>(
            s,
            pos,
            spec_key_run_count(key_count),
            NoCtx,
        ) {
            Err(e) => Err(e),
            Ok((v, pos)) => Ok((AnimationKeysView::VisibilityStates(v), pos)),
        },
    }
}

pub open spec fn spec_parse_animation_key(s: Seq<u8>, pos: int) -> Result<
    (AnimationKeyView, int),
    DecodeError,
> {
    match spec_parse_i32(s, pos) {
        Err(e) => Err(e),
        Ok((type_, pos)) => match spec_parse_u32(s, pos) {
            Err(e) => Err(e),
            Ok((target_hash, pos)) => match spec_parse_f32(s, pos) {
                Err(e) => Err(e),
                Ok((time_step, pos)) => match spec_parse_i32(s, pos) {
                    Err(e) => Err(e),
                    Ok((key_count, pos)) => match spec_parse_u16(s, pos) {
                        Err(e) => Err(e),
                        Ok((material_block_index, pos)) => match spec_parse_optional::<
                            NoCtx,
                            BoundingBox,
                        >(s, pos, NoCtx) {
                            Err(e) => Err(e),
                            Ok((bounding_box_maximum, pos)) => match spec_parse_interpolation(
                                s,
                                pos,
                            ) {
                                Err(e) => Err(e),
                                Ok((interpolation_type, pos)) => match spec_parse_bool(s, pos) {
                                    Err(e) => Err(e),
                                    Ok((has_times, pos)) => match (if has_times {
                                        match spec_parse_n::<NoCtx, FloatBits>(
                                            s,
                                            pos,
                                            spec_key_run_count(key_count),
                                            NoCtx,
                                        ) {
                                            Err(e) => Err(e),
                                            Ok((t, pos)) => Ok((Some(t), pos)),
                                        }
                                    } else {
                                        Ok((None, pos))
                                    }) {
                                        Err(e) => Err(e),
                                        Ok((times, pos)) => match spec_animation_key_type_of(
                                            type_,
                                        ) {
                                            None => Err(DecodeError::ConversionFailure),
                                            Some(kt) => match spec_parse_keys(
                                                s,
                                                pos,
                                                kt,
                                                key_count,
                                            ) {
                                                Err(e) => Err(e),
                                                Ok((keys, pos)) => match spec_parse_optional::<
                                                    NoCtx,
                                                    AdaptiveDifferentialPulseCodeModulation,
                                                >(s, pos, NoCtx) {
                                                    Err(e) => Err(e),
                                                    Ok((adpcm, pos)) => Ok(
                                                        (
                                                            AnimationKeyView {
                                                                type_,
                                                                target_hash,
                                                                time_step,
                                                                material_block_index,
                                                                bounding_box_maximum,
                                                                interpolation_type,
                                                                times,
                                                                keys,
                                                                adaptive_differential_pulse_code_modulation: adpcm,
                                                            },
                                                            pos,
                                                        ),
                                                    ),
                                                },
                                            },
                                        },
                                    },
                                },
                            },
                        },
                    },
                },
            },
        },
    }
}

impl Decode<NoCtx> for AnimationKey {
    open spec fn spec_parse(s: Seq<u8>, pos: int, c: NoCtx) -> Result<
        (AnimationKeyView, int),
        DecodeError,
    > {
        spec_parse_animation_key(s, pos)
    }

    #[verifier::rlimit(100)]
    #[verifier::spinoff_prover]
    proof fn parse_bounds(s: Seq<u8>, pos: int, c: NoCtx) {
        match spec_parse_i32(s, pos) {
            Err(_) => {},
            Ok((type_, pos)) => {
                match spec_parse_u32(s, pos) {
                    Err(_) => {},
                    Ok((target_hash, pos)) => {
                        match spec_parse_f32(s, pos) {
                            Err(_) => {},
                            Ok((time_step, pos)) => {
                                match spec_parse_i32(s, pos) {
                                    Err(_) => {},
                                    Ok((key_count, pos)) => {
                                        match spec_parse_u16(s, pos) {
                                            Err(_) => {},
                                            Ok((mbi, pos)) => {
                                                <Option<BoundingBox> as Decode<
                                                    NoCtx,
                                                >>::parse_bounds(s, pos, NoCtx);
                                                match spec_parse_optional::<NoCtx, BoundingBox>(
                                                    s,
                                                    pos,
                                                    NoCtx,
                                                ) {
                                                    Err(_) => {},
                                                    Ok((bbm, pos)) => {
                                                        match spec_parse_interpolation(s, pos) {
                                                            Err(_) => {},
                                                            Ok((it, pos)) => {
                                                                parse_bounds_tail(
                                                                    s,
                                                                    pos,
                                                                    type_,
                                                                    key_count,
                                                                );
                                                            },
                                                        }
                                                    },
                                                }
                                            },
                                        }
                                    },
                                }
                            },
                        }
                    },
                }
            },
        }
    }

    #[verifier::rlimit(100)]
    #[verifier::spinoff_prover]
    fn decode(r: &mut PositionTracker, c: NoCtx) -> (res: Result<AnimationKey, DecodeError>) {
        let ghost s = old(r).data();
        let ghost p0 = old(r).pos();
        let type_ = match r.read_i32() {
            Ok(v) => v,
            Err(e) => {
                proof {
                    assert(spec_parse_animation_key(s, p0) == Err::<
                        (AnimationKeyView, int),
                        DecodeError,
                    >(e));
                }
                return Err(e);
            },
        };
        let target_hash = match r.read_u32() {
            Ok(v) => v,
            Err(e) => {
                proof {
                    assert(spec_parse_animation_key(s, p0) == Err::<
                        (AnimationKeyView, int),
                        DecodeError,
                    >(e));
                }
                return Err(e);
            },
        };
        let time_step = match FloatBits::decode(r, NoCtx) {
            Ok(v) => v,
            Err(e) => {
                proof {
                    assert(spec_parse_animation_key(s, p0) == Err::<
                        (AnimationKeyView, int),
                        DecodeError,
                    >(e));
                }
                return Err(e);
            },
        };
        let key_count = match r.read_i32() {
            Ok(v) => v,
            Err(e) => {
                proof {
                    assert(spec_parse_animation_key(s, p0) == Err::<
                        (AnimationKeyView, int),
                        DecodeError,
                    >(e));
                }
                return Err(e);
            },
        };
        let material_block_index = match r.read_u16() {
            Ok(v) => v,
            Err(e) => {
                proof {
                    assert(spec_parse_animation_key(s, p0) == Err::<
                        (AnimationKeyView, int),
                        DecodeError,
                    >(e));
                }
                return Err(e);
            },
        };
        let bounding_box_maximum = match Option::<BoundingBox>::decode(r, NoCtx) {
            Ok(v) => v,
            Err(e) => {
                proof {
                    assert(spec_parse_animation_key(s, p0) == Err::<
                        (AnimationKeyView, int),
                        DecodeError,
                    >(e));
                }
                return Err(e);
            },
        };
        let interpolation_type = match Interpolation::decode(r, NoCtx) {
            Ok(v) => v,
            Err(e) => {
                proof {
                    assert(spec_parse_animation_key(s, p0) == Err::<
                        (AnimationKeyView, int),
                        DecodeError,
                    >(e));
                }
                return Err(e);
            },
        };
        let has_times = match r.read_bool() {
            Ok(v) => v,
            Err(e) => {
                proof {
                    assert(spec_parse_animation_key(s, p0) == Err::<
                        (AnimationKeyView, int),
                        DecodeError,
                    >(e));
                }
                return Err(e);
            },
        };
        let kn: u64 = if key_count < 0 {
            0
        } else {
            key_count as u64
        };
        let times = if has_times {
            match decode_vec_n::<NoCtx, FloatBits>(r, kn, NoCtx) {
                Ok(v) => Some(v),
                Err(e) => {
                    proof {
                        assert(spec_parse_animation_key(s, p0) == Err::<
                            (AnimationKeyView, int),
                            DecodeError,
                        >(e));
                    }
                    return Err(e);
                },
            }
        } else {
            None
        };
        let kt = match AnimationKeyType::from_i32(type_) {
            Some(v) => v,
            None => {
                proof {
                    assert(spec_parse_animation_key(s, p0) == Err::<
                        (AnimationKeyView, int),
                        DecodeError,
                    >(DecodeError::ConversionFailure));
                }
                return Err(DecodeError::ConversionFailure);
            },
        };
        let ghost pk = r.pos();
        let keys = match kt {
            AnimationKeyType::Rotate => {
                match decode_vec_n::<NoCtx, QuantizedQuaternion<i32>>(r, kn, NoCtx) {
                    Ok(v) => AnimationKeys::Rotations(v),
                    Err(e) => {
                        proof {
                            assert(spec_parse_keys(s, pk, kt, key_count) == Err::<
                                (AnimationKeysView, int),
                                DecodeError,
                            >(e));
                            assert(spec_parse_animation_key(s, p0) == Err::<
                                (AnimationKeyView, int),
                                DecodeError,
                            >(e));
                        }
                        return Err(e);
                    },
                }
            },
            AnimationKeyType::Translate => {
                match decode_vec_n::<NoCtx, Vector3>(r, kn, NoCtx) {
                    Ok(v) => AnimationKeys::Translations(v),
                    Err(e) => {
                        proof {
                            assert(spec_parse_keys(s, pk, kt, key_count) == Err::<
                                (AnimationKeysView, int),
                                DecodeError,
                            >(e));
                            assert(spec_parse_animation_key(s, p0) == Err::<
                                (AnimationKeyView, int),
                                DecodeError,
                            >(e));
                        }
                        return Err(e);
                    },
                }
            },
            AnimationKeyType::Shape => {
                match decode_vec_n::<NoCtx, Shape>(r, kn, NoCtx) {
                    Ok(v) => AnimationKeys::Shapes(v),
                    Err(e) => {
                        proof {
                            assert(spec_parse_keys(s, pk, kt, key_count) == Err::<
                                (AnimationKeysView, int),
                                DecodeError,
                            >(e));
                            assert(spec_parse_animation_key(s, p0) == Err::<
                                (AnimationKeyView, int),
                                DecodeError,
                            >(e));
                        }
                        return Err(e);
                    },
                }
            },
            AnimationKeyType::Uv => {
                match decode_uv_groups(r, 2 * kn) {
                    Ok(v) => AnimationKeys::Uvs(v),
                    Err(e) => {
                        proof {
                            assert(spec_parse_keys(s, pk, kt, key_count) == Err::<
                                (AnimationKeysView, int),
                                DecodeError,
                            >(e));
                            assert(spec_parse_animation_key(s, p0) == Err::<
                                (AnimationKeyView, int),
                                DecodeError,
                            >(e));
                        }
                        return Err(e);
                    },
                }
            },
            AnimationKeyType::VisibilityState => {
                match decode_vec_n::<NoCtx, VisibilityState>(r, kn, NoCtx) {
                    Ok(v) => AnimationKeys::VisibilityStates(v),
                    Err(e) => {
                        proof {
                            assert(spec_parse_keys(s, pk, kt, key_count) == Err::<
                                (AnimationKeysView, int),
                                DecodeError,
                            >(e));
                            assert(spec_parse_animation_key(s, p0) == Err::<
                                (AnimationKeyView, int),
                                DecodeError,
                            >(e));
                        }
                        return Err(e);
                    },
                }
            },
        };
        proof {
            assert(spec_parse_keys(s, pk, kt, key_count) == Ok::<
                (AnimationKeysView, int),
                DecodeError,
            >((keys.deep_view(), r.pos())));
        }
        let adaptive_differential_pulse_code_modulation = match Option::<
            AdaptiveDifferentialPulseCodeModulation,
        >::decode(r, NoCtx) {
            Ok(v) => v,
            Err(e) => {
                proof {
                    assert(spec_parse_animation_key(s, p0) == Err::<
                        (AnimationKeyView, int),
                        DecodeError,
                    >(e));
                }
                return Err(e);
            },
        };
        let out = AnimationKey {
            type_,
            target_hash,
            time_step,
            material_block_index,
            bounding_box_maximum,
            interpolation_type,
            times,
            keys,
            adaptive_differential_pulse_code_modulation,
        };
        proof {
            assert(spec_parse_animation_key(s, p0) == Ok::<(AnimationKeyView, int), DecodeError>(
                (out.deep_view(), r.pos()),
            ));
        }
        Ok(out)
    }
}

/// Bounds for the part of an animation key after the interpolation mode.
#[verifier::rlimit(100)]
proof fn parse_bounds_tail(s: Seq<u8>, pos: int, type_: i32, key_count: i32)
    ensures
        match spec_parse_bool(s, pos) {
            Err(_) => true,
            Ok((has_times, pos2)) => {
                match (if has_times {
                    match spec_parse_n::<NoCtx, FloatBits>(
                        s,
                        pos2,
                        spec_key_run_count(key_count),
                        NoCtx,
                    ) {
                        Err(e) => Err(e),
                        Ok((t, p)) => Ok::<(Option<Seq<FloatBits>>, int), DecodeError>(
                            (Some(t), p),
                        ),
                    }
                } else {
                    Ok((None, pos2))
                }) {
                    Err(_) => true,
                    Ok((times, pos3)) => match spec_animation_key_type_of(type_) {
                        None => true,
                        Some(kt) => match spec_parse_keys(s, pos3, kt, key_count) {
                            Err(_) => true,
                            Ok((keys, pos4)) => match spec_parse_optional::<
                                NoCtx,
                                AdaptiveDifferentialPulseCodeModulation,
                            >(s, pos4, NoCtx) {
                                Err(_) => true,
                                Ok((a, pos5)) => pos <= pos5 && (pos5 > pos ==> 0 <= pos && pos5
                                    <= s.len()),
                            },
                        },
                    },
                }
            },
        },
{
    match spec_parse_bool(s, pos) {
        Err(_) => {},
        Ok((has_times, pos2)) => {
            lemma_parse_n_bounds::<NoCtx, FloatBits>(s, pos2, spec_key_run_count(key_count), NoCtx);
            match (if has_times {
                match spec_parse_n::<NoCtx, FloatBits>(
                    s,
                    pos2,
                    spec_key_run_count(key_count),
                    NoCtx,
                ) {
                    Err(e) => Err(e),
                    Ok((t, p)) => Ok::<(Option<Seq<FloatBits>>, int), DecodeError>((Some(t), p)),
                }
            } else {
                Ok((None, pos2))
            }) {
                Err(_) => {},
                Ok((times, pos3)) => {
                    match spec_animation_key_type_of(type_) {
                        None => {},
                        Some(kt) => {
                            lemma_parse_n_bounds::<NoCtx, QuantizedQuaternion<i32>>(
                                s,
                                pos3,
                                spec_key_run_count(key_count),
                                NoCtx,
                            );
                            lemma_parse_n_bounds::<NoCtx, Vector3>(
                                s,
                                pos3,
                                spec_key_run_count(key_count),
                                NoCtx,
                            );
                            lemma_parse_n_bounds::<NoCtx, Shape>(
                                s,
                                pos3,
                                spec_key_run_count(key_count),
                                NoCtx,
                            );
                            lemma_uv_groups_bounds(s, pos3, 2 * spec_key_run_count(key_count));
                            lemma_parse_n_bounds::<NoCtx, VisibilityState>(
                                s,
                                pos3,
                                spec_key_run_count(key_count),
                                NoCtx,
                            );
                            match spec_parse_keys(s, pos3, kt, key_count) {
                                Err(_) => {},
                                Ok((keys, pos4)) => {
                                    <Option<AdaptiveDifferentialPulseCodeModulation> as Decode<
                                        NoCtx,
                                    >>::parse_bounds(s, pos4, NoCtx);
                                },
                            }
                        },
                    }
                },
            }
        },
    }
}

} // verus!
