//! Plain value aggregates: vectors, quaternions, matrices, planes and
//! rectangles.  Floating-point fields are carried as their raw 32-bit
//! little-endian bit patterns (`FloatBits`); the format never computes
//! with them, it only stores and forwards them.

use vstd::prelude::*;

use crate::decode::{
    spec_parse_i32, spec_parse_u32, spec_parse_u64, Decode, DecodeError, NoCtx, PositionTracker,
};

verus! {

/// The bit pattern of the 32-bit float 1.0.
pub const FLOAT_ONE_BITS: u32 = 0x3F800000;

/// A 32-bit float held as its raw bit pattern.
#[derive(Clone, Copy, Debug, PartialEq, Eq, Structural)]
pub struct FloatBits {
    pub bits: u32,
}

impl DeepView for FloatBits {
    type V = FloatBits;

    open spec fn deep_view(&self) -> FloatBits {
        *self
    }
}

/// A 4-byte float field: the same four little-endian bytes as a `u32`.
pub open spec fn spec_parse_f32(s: Seq<u8>, pos: int) -> Result<(FloatBits, int), DecodeError> {
    match spec_parse_u32(s, pos) {
        Ok((b, p)) => Ok((FloatBits { bits: b }, p)),
        Err(e) => Err(e),
    }
}

impl Decode<NoCtx> for FloatBits {
    open spec fn spec_parse(s: Seq<u8>, pos: int, c: NoCtx) -> Result<
        (FloatBits, int),
        DecodeError,
    > {
        spec_parse_f32(s, pos)
    }

    proof fn parse_bounds(s: Seq<u8>, pos: int, c: NoCtx) {
    }

    fn decode(r: &mut PositionTracker, c: NoCtx) -> (res: Result<FloatBits, DecodeError>) {
        let ghost s = old(r).data();
        let ghost p0 = old(r).pos();
        match r.read_u32() {
            Ok(b) => {
                proof {
                    assert(spec_parse_f32(s, p0) == Ok::<(FloatBits, int), DecodeError>((
                        FloatBits { bits: b },
                        r.pos(),
                    )));
                    assert(<FloatBits as Decode<NoCtx>>::spec_parse(s, p0, NoCtx)
                        == spec_parse_f32(s, p0));
                }
                Ok(FloatBits { bits: b })
            },
            Err(e) => Err(e),
        }
    }
}

#[derive(Clone, Copy, Debug, PartialEq, Eq, Structural)]
pub struct Vector3 {
    pub x: FloatBits,
    pub y: FloatBits,
    pub z: FloatBits,
}

impl Vector3 {
    pub fn new(x: FloatBits, y: FloatBits, z: FloatBits) -> (r: Self)
        ensures
            r == (Vector3 { x, y, z }),
    {
        Vector3 { x, y, z }
    }
}

impl DeepView for Vector3 {
    type V = Vector3;

    open spec fn deep_view(&self) -> Vector3 {
        *self
    }
}

pub open spec fn spec_parse_vector3(s: Seq<u8>, pos: int) -> Result<(Vector3, int), DecodeError> {
    match spec_parse_f32(s, pos) {
        Err(e) => Err(e),
        Ok((x, pos)) => match spec_parse_f32(s, pos) {
            Err(e) => Err(e),
            Ok((y, pos)) => match spec_parse_f32(s, pos) {
                Err(e) => Err(e),
                Ok((z, pos)) => Ok((Vector3 { x, y, z }, pos)),
            },
        },
    }
}

impl Decode<NoCtx> for Vector3 {
    open spec fn spec_parse(s: Seq<u8>, pos: int, c: NoCtx) -> Result<(Vector3, int), DecodeError> {
        spec_parse_vector3(s, pos)
    }

    proof fn parse_bounds(s: Seq<u8>, pos: int, c: NoCtx) {
    }

    #[verifier::rlimit(50)]
    fn decode(r: &mut PositionTracker, c: NoCtx) -> (res: Result<Vector3, DecodeError>) {
        let ghost s = old(r).data();
        let ghost p0 = old(r).pos();
        let x = match FloatBits::decode(r, NoCtx) {
            Ok(v) => v,
            Err(e) => return Err(e),
        };
        let y = match FloatBits::decode(r, NoCtx) {
            Ok(v) => v,
            Err(e) => {
                proof {
                    assert(spec_parse_vector3(s, p0) == Err::<(Vector3, int), DecodeError>(e));
                    assert(<Vector3 as Decode<NoCtx>>::spec_parse(s, p0, NoCtx)
                        == spec_parse_vector3(s, p0));
                }
                return Err(e);
            },
        };
        let z = match FloatBits::decode(r, NoCtx) {
            Ok(v) => v,
            Err(e) => {
                proof {
                    assert(spec_parse_vector3(s, p0) == Err::<(Vector3, int), DecodeError>(e));
                    assert(<Vector3 as Decode<NoCtx>>::spec_parse(s, p0, NoCtx)
                        == spec_parse_vector3(s, p0));
                }
                return Err(e);
            },
        };
        proof {
            assert(spec_parse_vector3(s, p0) == Ok::<(Vector3, int), DecodeError>(
                (Vector3 { x, y, z }, r.pos()),
            ));
            assert(<Vector3 as Decode<NoCtx>>::spec_parse(s, p0, NoCtx)
                == spec_parse_vector3(s, p0));
        }
        Ok(Vector3 { x, y, z })
    }
}

#[derive(Clone, Copy, Debug, PartialEq, Eq, Structural)]
pub struct Vector4 {
    pub x: FloatBits,
    pub y: FloatBits,
    pub z: FloatBits,
    pub w: FloatBits,
}

impl Vector4 {
    pub fn new(x: FloatBits, y: FloatBits, z: FloatBits, w: FloatBits) -> (r: Self)
        ensures
            r == (Vector4 { x, y, z, w }),
    {
        Vector4 { x, y, z, w }
    }

    /// Widens a vector with a zero fourth component.
    pub fn from_vector3(v: Vector3) -> (r: Self)
        ensures
            r == spec_vector4_of(v, FloatBits { bits: 0 }),
    {
        Vector4 { x: v.x, y: v.y, z: v.z, w: FloatBits { bits: 0 } }
    }

    /// Widens a vector with the given fourth component.
    pub fn from_vector3_w(v: Vector3, w: FloatBits) -> (r: Self)
        ensures
            r == spec_vector4_of(v, w),
    {
        Vector4 { x: v.x, y: v.y, z: v.z, w }
    }
}

pub open spec fn spec_vector4_of(v: Vector3, w: FloatBits) -> Vector4 {
    Vector4 { x: v.x, y: v.y, z: v.z, w }
}

impl DeepView for Vector4 {
    type V = Vector4;

    open spec fn deep_view(&self) -> Vector4 {
        *self
    }
}

pub open spec fn spec_parse_vector4(s: Seq<u8>, pos: int) -> Result<(Vector4, int), DecodeError> {
    match spec_parse_f32(s, pos) {
        Err(e) => Err(e),
        Ok((x, pos)) => match spec_parse_f32(s, pos) {
            Err(e) => Err(e),
            Ok((y, pos)) => match spec_parse_f32(s, pos) {
                Err(e) => Err(e),
                Ok((z, pos)) => match spec_parse_f32(s, pos) {
                    Err(e) => Err(e),
                    Ok((w, pos)) => Ok((Vector4 { x, y, z, w }, pos)),
                },
            },
        },
    }
}

impl Decode<NoCtx> for Vector4 {
    open spec fn spec_parse(s: Seq<u8>, pos: int, c: NoCtx) -> Result<(Vector4, int), DecodeError> {
        spec_parse_vector4(s, pos)
    }

    proof fn parse_bounds(s: Seq<u8>, pos: int, c: NoCtx) {
    }

    fn decode(r: &mut PositionTracker, c: NoCtx) -> (res: Result<Vector4, DecodeError>) {
        let ghost s = old(r).data();
        let ghost p0 = old(r).pos();
        let x = match FloatBits::decode(r, NoCtx) {
            Ok(v) => v,
            Err(e) => {
                proof {
                    assert(spec_parse_vector4(s, p0) == Err::<(Vector4, int), DecodeError>(e));
                    assert(<Vector4 as Decode<NoCtx>>::spec_parse(s, p0, NoCtx) == spec_parse_vector4(s, p0));
                }
                return Err(e);
            },
        };
        let y = match FloatBits::decode(r, NoCtx) {
            Ok(v) => v,
            Err(e) => {
                proof {
                    assert(spec_parse_vector4(s, p0) == Err::<(Vector4, int), DecodeError>(e));
                    assert(<Vector4 as Decode<NoCtx>>::spec_parse(s, p0, NoCtx) == spec_parse_vector4(s, p0));
                }
                return Err(e);
            },
        };
        let z = match FloatBits::decode(r, NoCtx) {
            Ok(v) => v,
            Err(e) => {
                proof {
                    assert(spec_parse_vector4(s, p0) == Err::<(Vector4, int), DecodeError>(e));
                    assert(<Vector4 as Decode<NoCtx>>::spec_parse(s, p0, NoCtx) == spec_parse_vector4(s, p0));
                }
                return Err(e);
            },
        };
        let w = match FloatBits::decode(r, NoCtx) {
            Ok(v) => v,
            Err(e) => {
                proof {
                    assert(spec_parse_vector4(s, p0) == Err::<(Vector4, int), DecodeError>(e));
                    assert(<Vector4 as Decode<NoCtx>>::spec_parse(s, p0, NoCtx) == spec_parse_vector4(s, p0));
                }
                return Err(e);
            },
        };
        let out = Vector4 { x, y, z, w };
        proof {
            assert(spec_parse_vector4(s, p0) == Ok::<(Vector4, int), DecodeError>((out.deep_view(), r.pos())));
            assert(<Vector4 as Decode<NoCtx>>::spec_parse(s, p0, NoCtx) == spec_parse_vector4(s, p0));
        }
        Ok(out)
    }
}

/// Four equally-sized quantized components of a rotation.
#[derive(Clone, Copy, Debug, PartialEq, Eq, Structural)]
pub struct QuantizedQuaternion<T> {
    pub x: T,
    pub y: T,
    pub z: T,
    pub w: T,
}

impl<T> QuantizedQuaternion<T> {
    pub fn new(x: T, y: T, z: T, w: T) -> (r: Self)
        ensures
            r == (QuantizedQuaternion { x, y, z, w }),
    {
        QuantizedQuaternion { x, y, z, w }
    }
}

impl DeepView for QuantizedQuaternion<i32> {
    type V = QuantizedQuaternion<i32>;

    open spec fn deep_view(&self) -> QuantizedQuaternion<i32> {
        *self
    }
}

impl DeepView for QuantizedQuaternion<i16> {
    type V = QuantizedQuaternion<i16>;

    open spec fn deep_view(&self) -> QuantizedQuaternion<i16> {
        *self
    }
}

pub open spec fn spec_parse_quat_i32(s: Seq<u8>, pos: int) -> Result<
    (QuantizedQuaternion<i32>, int),
    DecodeError,
> {
    match spec_parse_i32(s, pos) {
        Err(e) => Err(e),
        Ok((x, pos)) => match spec_parse_i32(s, pos) {
            Err(e) => Err(e),
            Ok((y, pos)) => match spec_parse_i32(s, pos) {
                Err(e) => Err(e),
                Ok((z, pos)) => match spec_parse_i32(s, pos) {
                    Err(e) => Err(e),
                    Ok((w, pos)) => Ok((QuantizedQuaternion { x, y, z, w }, pos)),
                },
            },
        },
    }
}

impl Decode<NoCtx> for QuantizedQuaternion<i32> {
    open spec fn spec_parse(s: Seq<u8>, pos: int, c: NoCtx) -> Result<
        (QuantizedQuaternion<i32>, int),
        DecodeError,
    > {
        spec_parse_quat_i32(s, pos)
    }

    proof fn parse_bounds(s: Seq<u8>, pos: int, c: NoCtx) {
    }

    fn decode(r: &mut PositionTracker, c: NoCtx) -> (res: Result<
        QuantizedQuaternion<i32>,
        DecodeError,
    >) {
        let ghost s = old(r).data();
        let ghost p0 = old(r).pos();
        let x = match r.read_i32() {
            Ok(v) => v,
            Err(e) => {
                proof {
                    assert(spec_parse_quat_i32(s, p0) == Err::<(QuantizedQuaternion<i32>, int), DecodeError>(e));
                    assert(<QuantizedQuaternion<i32> as Decode<NoCtx>>::spec_parse(s, p0, NoCtx) == spec_parse_quat_i32(s, p0));
                }
                return Err(e);
            },
        };
        let y = match r.read_i32() {
            Ok(v) => v,
            Err(e) => {
                proof {
                    assert(spec_parse_quat_i32(s, p0) == Err::<(QuantizedQuaternion<i32>, int), DecodeError>(e));
                    assert(<QuantizedQuaternion<i32> as Decode<NoCtx>>::spec_parse(s, p0, NoCtx) == spec_parse_quat_i32(s, p0));
                }
                return Err(e);
            },
        };
        let z = match r.read_i32() {
            Ok(v) => v,
            Err(e) => {
                proof {
                    assert(spec_parse_quat_i32(s, p0) == Err::<(QuantizedQuaternion<i32>, int), DecodeError>(e));
                    assert(<QuantizedQuaternion<i32> as Decode<NoCtx>>::spec_parse(s, p0, NoCtx) == spec_parse_quat_i32(s, p0));
                }
                return Err(e);
            },
        };
        let w = match r.read_i32() {
            Ok(v) => v,
            Err(e) => {
                proof {
                    assert(spec_parse_quat_i32(s, p0) == Err::<(QuantizedQuaternion<i32>, int), DecodeError>(e));
                    assert(<QuantizedQuaternion<i32> as Decode<NoCtx>>::spec_parse(s, p0, NoCtx) == spec_parse_quat_i32(s, p0));
                }
                return Err(e);
            },
        };
        let out = QuantizedQuaternion { x, y, z, w };
        proof {
            assert(spec_parse_quat_i32(s, p0) == Ok::<(QuantizedQuaternion<i32>, int), DecodeError>((out.deep_view(), r.pos())));
            assert(<QuantizedQuaternion<i32> as Decode<NoCtx>>::spec_parse(s, p0, NoCtx) == spec_parse_quat_i32(s, p0));
        }
        Ok(out)
    }
}

pub open spec fn spec_parse_quat_i16(s: Seq<u8>, pos: int) -> Result<
    (QuantizedQuaternion<i16>, int),
    DecodeError,
> {
    match crate::decode::spec_parse_i16(s, pos) {
        Err(e) => Err(e),
        Ok((x, pos)) => match crate::decode::spec_parse_i16(s, pos) {
            Err(e) => Err(e),
            Ok((y, pos)) => match crate::decode::spec_parse_i16(s, pos) {
                Err(e) => Err(e),
                Ok((z, pos)) => match crate::decode::spec_parse_i16(s, pos) {
                    Err(e) => Err(e),
                    Ok((w, pos)) => Ok((QuantizedQuaternion { x, y, z, w }, pos)),
                },
            },
        },
    }
}

impl Decode<NoCtx> for QuantizedQuaternion<i16> {
    open spec fn spec_parse(s: Seq<u8>, pos: int, c: NoCtx) -> Result<
        (QuantizedQuaternion<i16>, int),
        DecodeError,
    > {
        spec_parse_quat_i16(s, pos)
    }

    proof fn parse_bounds(s: Seq<u8>, pos: int, c: NoCtx) {
    }

    fn decode(r: &mut PositionTracker, c: NoCtx) -> (res: Result<
        QuantizedQuaternion<i16>,
        DecodeError,
    >) {
        let ghost s = old(r).data();
        let ghost p0 = old(r).pos();
        let x = match r.read_i16() {
            Ok(v) => v,
            Err(e) => {
                proof {
                    assert(spec_parse_quat_i16(s, p0) == Err::<(QuantizedQuaternion<i16>, int), DecodeError>(e));
                    assert(<QuantizedQuaternion<i16> as Decode<NoCtx>>::spec_parse(s, p0, NoCtx) == spec_parse_quat_i16(s, p0));
                }
                return Err(e);
            },
        };
        let y = match r.read_i16() {
            Ok(v) => v,
            Err(e) => {
                proof {
                    assert(spec_parse_quat_i16(s, p0) == Err::<(QuantizedQuaternion<i16>, int), DecodeError>(e));
                    assert(<QuantizedQuaternion<i16> as Decode<NoCtx>>::spec_parse(s, p0, NoCtx) == spec_parse_quat_i16(s, p0));
                }
                return Err(e);
            },
        };
        let z = match r.read_i16() {
            Ok(v) => v,
            Err(e) => {
                proof {
                    assert(spec_parse_quat_i16(s, p0) == Err::<(QuantizedQuaternion<i16>, int), DecodeError>(e));
                    assert(<QuantizedQuaternion<i16> as Decode<NoCtx>>::spec_parse(s, p0, NoCtx) == spec_parse_quat_i16(s, p0));
                }
                return Err(e);
            },
        };
        let w = match r.read_i16() {
            Ok(v) => v,
            Err(e) => {
                proof {
                    assert(spec_parse_quat_i16(s, p0) == Err::<(QuantizedQuaternion<i16>, int), DecodeError>(e));
                    assert(<QuantizedQuaternion<i16> as Decode<NoCtx>>::spec_parse(s, p0, NoCtx) == spec_parse_quat_i16(s, p0));
                }
                return Err(e);
            },
        };
        let out = QuantizedQuaternion { x, y, z, w };
        proof {
            assert(spec_parse_quat_i16(s, p0) == Ok::<(QuantizedQuaternion<i16>, int), DecodeError>((out.deep_view(), r.pos())));
            assert(<QuantizedQuaternion<i16> as Decode<NoCtx>>::spec_parse(s, p0, NoCtx) == spec_parse_quat_i16(s, p0));
        }
        Ok(out)
    }
}

/// A transform: three direction rows widened with w = 0, a position row
/// widened with w = 1.0, and a trailing 8-byte flag word.
#[derive(Clone, Copy, Debug, PartialEq, Eq, Structural)]
pub struct Matrix {
    pub right: Vector4,
    pub up: Vector4,
    pub at: Vector4,
    pub position: Vector4,
    pub flags: u64,
}

impl DeepView for Matrix {
    type V = Matrix;

    open spec fn deep_view(&self) -> Matrix {
        *self
    }
}

pub open spec fn spec_parse_matrix(s: Seq<u8>, pos: int) -> Result<(Matrix, int), DecodeError> {
    match spec_parse_vector3(s, pos) {
        Err(e) => Err(e),
        Ok((right, pos)) => match spec_parse_vector3(s, pos) {
            Err(e) => Err(e),
            Ok((up, pos)) => match spec_parse_vector3(s, pos) {
                Err(e) => Err(e),
                Ok((at, pos)) => match spec_parse_vector3(s, pos) {
                    Err(e) => Err(e),
                    Ok((position, pos)) => match spec_parse_u64(s, pos) {
                        Err(e) => Err(e),
                        Ok((flags, pos)) => Ok(
                            (
                                Matrix {
                                    right: spec_vector4_of(right, FloatBits { bits: 0 }),
                                    up: spec_vector4_of(up, FloatBits { bits: 0 }),
                                    at: spec_vector4_of(at, FloatBits { bits: 0 }),
                                    position: spec_vector4_of(
                                        position,
                                        FloatBits { bits: FLOAT_ONE_BITS },
                                    ),
                                    flags,
                                },
                                pos,
                            ),
                        ),
                    },
                },
            },
        },
    }
}

impl Decode<NoCtx> for Matrix {
    open spec fn spec_parse(s: Seq<u8>, pos: int, c: NoCtx) -> Result<(Matrix, int), DecodeError> {
        spec_parse_matrix(s, pos)
    }

    proof fn parse_bounds(s: Seq<u8>, pos: int, c: NoCtx) {
    }

    #[verifier::rlimit(50)]
    fn decode(r: &mut PositionTracker, c: NoCtx) -> (res: Result<Matrix, DecodeError>) {
        let ghost s = old(r).data();
        let ghost p0 = old(r).pos();
        let right = match Vector3::decode(r, NoCtx) {
            Ok(v) => v,
            Err(e) => {
                proof {
                    assert(spec_parse_matrix(s, p0) == Err::<(Matrix, int), DecodeError>(e));
                    assert(<Matrix as Decode<NoCtx>>::spec_parse(s, p0, NoCtx) == spec_parse_matrix(s, p0));
                }
                return Err(e);
            },
        };
        let up = match Vector3::decode(r, NoCtx) {
            Ok(v) => v,
            Err(e) => {
                proof {
                    assert(spec_parse_matrix(s, p0) == Err::<(Matrix, int), DecodeError>(e));
                    assert(<Matrix as Decode<NoCtx>>::spec_parse(s, p0, NoCtx) == spec_parse_matrix(s, p0));
                }
                return Err(e);
            },
        };
        let at = match Vector3::decode(r, NoCtx) {
            Ok(v) => v,
            Err(e) => {
                proof {
                    assert(spec_parse_matrix(s, p0) == Err::<(Matrix, int), DecodeError>(e));
                    assert(<Matrix as Decode<NoCtx>>::spec_parse(s, p0, NoCtx) == spec_parse_matrix(s, p0));
                }
                return Err(e);
            },
        };
        let position = match Vector3::decode(r, NoCtx) {
            Ok(v) => v,
            Err(e) => {
                proof {
                    assert(spec_parse_matrix(s, p0) == Err::<(Matrix, int), DecodeError>(e));
                    assert(<Matrix as Decode<NoCtx>>::spec_parse(s, p0, NoCtx) == spec_parse_matrix(s, p0));
                }
                return Err(e);
            },
        };
        let flags = match r.read_u64() {
            Ok(v) => v,
            Err(e) => {
                proof {
                    assert(spec_parse_matrix(s, p0) == Err::<(Matrix, int), DecodeError>(e));
                    assert(<Matrix as Decode<NoCtx>>::spec_parse(s, p0, NoCtx) == spec_parse_matrix(s, p0));
                }
                return Err(e);
            },
        };
        let out = Matrix {
            right: Vector4::from_vector3(right),
            up: Vector4::from_vector3(up),
            at: Vector4::from_vector3(at),
            position: Vector4::from_vector3_w(position, FloatBits { bits: FLOAT_ONE_BITS }),
            flags,
        };
        proof {
            assert(spec_parse_matrix(s, p0) == Ok::<(Matrix, int), DecodeError>((out.deep_view(), r.pos())));
            assert(<Matrix as Decode<NoCtx>>::spec_parse(s, p0, NoCtx) == spec_parse_matrix(s, p0));
        }
        Ok(out)
    }
}

#[derive(Clone, Copy, Debug, PartialEq, Eq, Structural)]
pub struct Plane {
    pub a: FloatBits,
    pub b: FloatBits,
    pub c: FloatBits,
    pub d: FloatBits,
}

impl DeepView for Plane {
    type V = Plane;

    open spec fn deep_view(&self) -> Plane {
        *self
    }
}

pub open spec fn spec_parse_plane(s: Seq<u8>, pos: int) -> Result<(Plane, int), DecodeError> {
    match spec_parse_f32(s, pos) {
        Err(e) => Err(e),
        Ok((a, pos)) => match spec_parse_f32(s, pos) {
            Err(e) => Err(e),
            Ok((b, pos)) => match spec_parse_f32(s, pos) {
                Err(e) => Err(e),
                Ok((c, pos)) => match spec_parse_f32(s, pos) {
                    Err(e) => Err(e),
                    Ok((d, pos)) => Ok((Plane { a, b, c, d }, pos)),
                },
            },
        },
    }
}

impl Decode<NoCtx> for Plane {
    open spec fn spec_parse(s: Seq<u8>, pos: int, c: NoCtx) -> Result<(Plane, int), DecodeError> {
        spec_parse_plane(s, pos)
    }

    proof fn parse_bounds(s: Seq<u8>, pos: int, c: NoCtx) {
    }

    fn decode(r: &mut PositionTracker, c: NoCtx) -> (res: Result<Plane, DecodeError>) {
        let ghost s = old(r).data();
        let ghost p0 = old(r).pos();
        let a = match FloatBits::decode(r, NoCtx) {
            Ok(v) => v,
            Err(e) => {
                proof {
                    assert(spec_parse_plane(s, p0) == Err::<(Plane, int), DecodeError>(e));
                    assert(<Plane as Decode<NoCtx>>::spec_parse(s, p0, NoCtx) == spec_parse_plane(s, p0));
                }
                return Err(e);
            },
        };
        let b = match FloatBits::decode(r, NoCtx) {
            Ok(v) => v,
            Err(e) => {
                proof {
                    assert(spec_parse_plane(s, p0) == Err::<(Plane, int), DecodeError>(e));
                    assert(<Plane as Decode<NoCtx>>::spec_parse(s, p0, NoCtx) == spec_parse_plane(s, p0));
                }
                return Err(e);
            },
        };
        let cc = match FloatBits::decode(r, NoCtx) {
            Ok(v) => v,
            Err(e) => {
                proof {
                    assert(spec_parse_plane(s, p0) == Err::<(Plane, int), DecodeError>(e));
                    assert(<Plane as Decode<NoCtx>>::spec_parse(s, p0, NoCtx) == spec_parse_plane(s, p0));
                }
                return Err(e);
            },
        };
        let d = match FloatBits::decode(r, NoCtx) {
            Ok(v) => v,
            Err(e) => {
                proof {
                    assert(spec_parse_plane(s, p0) == Err::<(Plane, int), DecodeError>(e));
                    assert(<Plane as Decode<NoCtx>>::spec_parse(s, p0, NoCtx) == spec_parse_plane(s, p0));
                }
                return Err(e);
            },
        };
        let out = Plane { a, b, c: cc, d };
        proof {
            assert(spec_parse_plane(s, p0) == Ok::<(Plane, int), DecodeError>((out.deep_view(), r.pos())));
            assert(<Plane as Decode<NoCtx>>::spec_parse(s, p0, NoCtx) == spec_parse_plane(s, p0));
        }
        Ok(out)
    }
}

/// A plane with its normal quantized to one byte per component.
#[derive(Clone, Copy, Debug, PartialEq, Eq, Structural)]
pub struct QuantizedPlane {
    pub a: u8,
    pub b: u8,
    pub c: u8,
    pub flags: u8,
    pub d: FloatBits,
}

impl DeepView for QuantizedPlane {
    type V = QuantizedPlane;

    open spec fn deep_view(&self) -> QuantizedPlane {
        *self
    }
}

pub open spec fn spec_parse_quantized_plane(s: Seq<u8>, pos: int) -> Result<
    (QuantizedPlane, int),
    DecodeError,
> {
    match crate::decode::spec_parse_u8(s, pos) {
        Err(e) => Err(e),
        Ok((a, pos)) => match crate::decode::spec_parse_u8(s, pos) {
            Err(e) => Err(e),
            Ok((b, pos)) => match crate::decode::spec_parse_u8(s, pos) {
                Err(e) => Err(e),
                Ok((c, pos)) => match crate::decode::spec_parse_u8(s, pos) {
                    Err(e) => Err(e),
                    Ok((flags, pos)) => match spec_parse_f32(s, pos) {
                        Err(e) => Err(e),
                        Ok((d, pos)) => Ok((QuantizedPlane { a, b, c, flags, d }, pos)),
                    },
                },
            },
        },
    }
}

impl Decode<NoCtx> for QuantizedPlane {
    open spec fn spec_parse(s: Seq<u8>, pos: int, c: NoCtx) -> Result<
        (QuantizedPlane, int),
        DecodeError,
    > {
        spec_parse_quantized_plane(s, pos)
    }

    proof fn parse_bounds(s: Seq<u8>, pos: int, c: NoCtx) {
    }

    fn decode(r: &mut PositionTracker, c: NoCtx) -> (res: Result<QuantizedPlane, DecodeError>) {
        let ghost s = old(r).data();
        let ghost p0 = old(r).pos();
        let a = match r.read_u8() {
            Ok(v) => v,
            Err(e) => {
                proof {
                    assert(spec_parse_quantized_plane(s, p0) == Err::<(QuantizedPlane, int), DecodeError>(e));
                    assert(<QuantizedPlane as Decode<NoCtx>>::spec_parse(s, p0, NoCtx) == spec_parse_quantized_plane(s, p0));
                }
                return Err(e);
            },
        };
        let b = match r.read_u8() {
            Ok(v) => v,
            Err(e) => {
                proof {
                    assert(spec_parse_quantized_plane(s, p0) == Err::<(QuantizedPlane, int), DecodeError>(e));
                    assert(<QuantizedPlane as Decode<NoCtx>>::spec_parse(s, p0, NoCtx) == spec_parse_quantized_plane(s, p0));
                }
                return Err(e);
            },
        };
        let cc = match r.read_u8() {
            Ok(v) => v,
            Err(e) => {
                proof {
                    assert(spec_parse_quantized_plane(s, p0) == Err::<(QuantizedPlane, int), DecodeError>(e));
                    assert(<QuantizedPlane as Decode<NoCtx>>::spec_parse(s, p0, NoCtx) == spec_parse_quantized_plane(s, p0));
                }
                return Err(e);
            },
        };
        let flags = match r.read_u8() {
            Ok(v) => v,
            Err(e) => {
                proof {
                    assert(spec_parse_quantized_plane(s, p0) == Err::<(QuantizedPlane, int), DecodeError>(e));
                    assert(<QuantizedPlane as Decode<NoCtx>>::spec_parse(s, p0, NoCtx) == spec_parse_quantized_plane(s, p0));
                }
                return Err(e);
            },
        };
        let d = match FloatBits::decode(r, NoCtx) {
            Ok(v) => v,
            Err(e) => {
                proof {
                    assert(spec_parse_quantized_plane(s, p0) == Err::<(QuantizedPlane, int), DecodeError>(e));
                    assert(<QuantizedPlane as Decode<NoCtx>>::spec_parse(s, p0, NoCtx) == spec_parse_quantized_plane(s, p0));
                }
                return Err(e);
            },
        };
        let out = QuantizedPlane { a, b, c: cc, flags, d };
        proof {
            assert(spec_parse_quantized_plane(s, p0) == Ok::<(QuantizedPlane, int), DecodeError>((out.deep_view(), r.pos())));
            assert(<QuantizedPlane as Decode<NoCtx>>::spec_parse(s, p0, NoCtx) == spec_parse_quantized_plane(s, p0));
        }
        Ok(out)
    }
}

#[derive(Clone, Copy, Debug, PartialEq, Eq, Structural)]
pub struct Rectangle {
    pub x: i32,
    pub y: i32,
    pub width: i32,
    pub height: i32,
}

impl DeepView for Rectangle {
    type V = Rectangle;

    open spec fn deep_view(&self) -> Rectangle {
        *self
    }
}

pub open spec fn spec_parse_rectangle(s: Seq<u8>, pos: int) -> Result<
    (Rectangle, int),
    DecodeError,
> {
    match spec_parse_i32(s, pos) {
        Err(e) => Err(e),
        Ok((x, pos)) => match spec_parse_i32(s, pos) {
            Err(e) => Err(e),
            Ok((y, pos)) => match spec_parse_i32(s, pos) {
                Err(e) => Err(e),
                Ok((width, pos)) => match spec_parse_i32(s, pos) {
                    Err(e) => Err(e),
                    Ok((height, pos)) => Ok((Rectangle { x, y, width, height }, pos)),
                },
            },
        },
    }
}

impl Decode<NoCtx> for Rectangle {
    open spec fn spec_parse(s: Seq<u8>, pos: int, c: NoCtx) -> Result<
        (Rectangle, int),
        DecodeError,
    > {
        spec_parse_rectangle(s, pos)
    }

    proof fn parse_bounds(s: Seq<u8>, pos: int, c: NoCtx) {
    }

    fn decode(r: &mut PositionTracker, c: NoCtx) -> (res: Result<Rectangle, DecodeError>) {
        let ghost s = old(r).data();
        let ghost p0 = old(r).pos();
        let x = match r.read_i32() {
            Ok(v) => v,
            Err(e) => {
                proof {
                    assert(spec_parse_rectangle(s, p0) == Err::<(Rectangle, int), DecodeError>(e));
                    assert(<Rectangle as Decode<NoCtx>>::spec_parse(s, p0, NoCtx) == spec_parse_rectangle(s, p0));
                }
                return Err(e);
            },
        };
        let y = match r.read_i32() {
            Ok(v) => v,
            Err(e) => {
                proof {
                    assert(spec_parse_rectangle(s, p0) == Err::<(Rectangle, int), DecodeError>(e));
                    assert(<Rectangle as Decode<NoCtx>>::spec_parse(s, p0, NoCtx) == spec_parse_rectangle(s, p0));
                }
                return Err(e);
            },
        };
        let width = match r.read_i32() {
            Ok(v) => v,
            Err(e) => {
                proof {
                    assert(spec_parse_rectangle(s, p0) == Err::<(Rectangle, int), DecodeError>(e));
                    assert(<Rectangle as Decode<NoCtx>>::spec_parse(s, p0, NoCtx) == spec_parse_rectangle(s, p0));
                }
                return Err(e);
            },
        };
        let height = match r.read_i32() {
            Ok(v) => v,
            Err(e) => {
                proof {
                    assert(spec_parse_rectangle(s, p0) == Err::<(Rectangle, int), DecodeError>(e));
                    assert(<Rectangle as Decode<NoCtx>>::spec_parse(s, p0, NoCtx) == spec_parse_rectangle(s, p0));
                }
                return Err(e);
            },
        };
        let out = Rectangle { x, y, width, height };
        proof {
            assert(spec_parse_rectangle(s, p0) == Ok::<(Rectangle, int), DecodeError>((out.deep_view(), r.pos())));
            assert(<Rectangle as Decode<NoCtx>>::spec_parse(s, p0, NoCtx) == spec_parse_rectangle(s, p0));
        }
        Ok(out)
    }
}

} // verus!
