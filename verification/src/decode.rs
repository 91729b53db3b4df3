//! Byte-level decoding core: the error type, the cursor over an in-memory
//! byte buffer, and the little-endian primitive readers.  Every reader has
//! a specification-level parse function describing exactly which bytes it
//! consumes and which value it produces; the executable readers are proved
//! to agree with those functions.

use vstd::prelude::*;

verus! {

/// Everything that can go wrong while decoding a document.
///
/// - `ReadTooMuchData`: a record's payload consumed a number of bytes
///   different from the size declared in its header.
/// - `ConversionFailure`: a raw integer did not correspond to any known
///   enumerated value, or a structural check (negative count, bad string
///   terminator, missing required context) failed.
/// - `IO`: the stream ended in the middle of a required field.
/// - `CountMismatch`: the number of material records seen disagrees with
///   the count declared by the materials pseudo-record.
#[derive(Clone, Copy, Debug, PartialEq, Eq, Structural)]
pub enum DecodeError {
    ReadTooMuchData { expected: usize, actual: usize },
    ConversionFailure,
    IO,
    CountMismatch { expected: usize, actual: usize },
}

/// A cursor over a fully-buffered byte stream that keeps track of how many
/// bytes have been consumed so far.
pub struct PositionTracker {
    pub bytes: Vec<u8>,
    pub current_position: usize,
}

impl PositionTracker {
    /// The cursor never moves past the end of the buffer.
    pub open spec fn wf(&self) -> bool {
        self.current_position <= self.bytes@.len()
    }

    pub open spec fn data(&self) -> Seq<u8> {
        self.bytes@
    }

    pub open spec fn pos(&self) -> int {
        self.current_position as int
    }

    pub fn new(bytes: Vec<u8>) -> (r: Self)
        ensures
            r.wf(),
            r.data() == bytes@,
            r.pos() == 0,
    {
        PositionTracker { bytes, current_position: 0 }
    }

    pub fn position(&self) -> (p: usize)
        ensures
            p as int == self.pos(),
    {
        self.current_position
    }

    pub fn remaining(&self) -> (n: usize)
        requires
            self.wf(),
        ensures
            n as int == self.data().len() - self.pos(),
    {
        self.bytes.len() - self.current_position
    }
}

/// Bytes left in the buffer at `pos`; the termination measure for the
/// sentinel-terminated and record-by-record parsers.
pub open spec fn rem_bytes(s: Seq<u8>, pos: int) -> nat {
    if pos <= s.len() {
        (s.len() - pos) as nat
    } else {
        0
    }
}

/// The unsigned 16-bit value stored little-endian at `pos`.
pub open spec fn le_u16(s: Seq<u8>, pos: int) -> u16 {
    (s[pos] + s[pos + 1] * 0x100) as u16
}

/// The unsigned 32-bit value stored little-endian at `pos`.
pub open spec fn le_u32(s: Seq<u8>, pos: int) -> u32 {
    (s[pos] + s[pos + 1] * 0x100 + s[pos + 2] * 0x10000 + s[pos + 3] * 0x1000000) as u32
}

/// The unsigned 64-bit value stored little-endian at `pos`.
pub open spec fn le_u64(s: Seq<u8>, pos: int) -> u64 {
    (s[pos] + s[pos + 1] * 0x100 + s[pos + 2] * 0x10000 + s[pos + 3] * 0x1000000
        + s[pos + 4] * 0x100000000 + s[pos + 5] * 0x10000000000 + s[pos + 6] * 0x1000000000000
        + s[pos + 7] * 0x100000000000000) as u64
}

pub open spec fn spec_parse_u8(s: Seq<u8>, pos: int) -> Result<(u8, int), DecodeError> {
    if 0 <= pos && pos + 1 <= s.len() {
        Ok((s[pos], pos + 1))
    } else {
        Err(DecodeError::IO)
    }
}

pub open spec fn spec_parse_i8(s: Seq<u8>, pos: int) -> Result<(i8, int), DecodeError> {
    if 0 <= pos && pos + 1 <= s.len() {
        Ok((s[pos] as i8, pos + 1))
    } else {
        Err(DecodeError::IO)
    }
}

pub open spec fn spec_parse_u16(s: Seq<u8>, pos: int) -> Result<(u16, int), DecodeError> {
    if 0 <= pos && pos + 2 <= s.len() {
        Ok((le_u16(s, pos), pos + 2))
    } else {
        Err(DecodeError::IO)
    }
}

pub open spec fn spec_parse_i16(s: Seq<u8>, pos: int) -> Result<(i16, int), DecodeError> {
    if 0 <= pos && pos + 2 <= s.len() {
        Ok((le_u16(s, pos) as i16, pos + 2))
    } else {
        Err(DecodeError::IO)
    }
}

pub open spec fn spec_parse_u32(s: Seq<u8>, pos: int) -> Result<(u32, int), DecodeError> {
    if 0 <= pos && pos + 4 <= s.len() {
        Ok((le_u32(s, pos), pos + 4))
    } else {
        Err(DecodeError::IO)
    }
}

pub open spec fn spec_parse_i32(s: Seq<u8>, pos: int) -> Result<(i32, int), DecodeError> {
    if 0 <= pos && pos + 4 <= s.len() {
        Ok((le_u32(s, pos) as i32, pos + 4))
    } else {
        Err(DecodeError::IO)
    }
}

pub open spec fn spec_parse_u64(s: Seq<u8>, pos: int) -> Result<(u64, int), DecodeError> {
    if 0 <= pos && pos + 8 <= s.len() {
        Ok((le_u64(s, pos), pos + 8))
    } else {
        Err(DecodeError::IO)
    }
}

pub open spec fn spec_parse_i64(s: Seq<u8>, pos: int) -> Result<(i64, int), DecodeError> {
    if 0 <= pos && pos + 8 <= s.len() {
        Ok((le_u64(s, pos) as i64, pos + 8))
    } else {
        Err(DecodeError::IO)
    }
}

/// A boolean on the wire is a 4-byte little-endian integer; any non-zero
/// value counts as true.
pub open spec fn spec_parse_bool(s: Seq<u8>, pos: int) -> Result<(bool, int), DecodeError> {
    if 0 <= pos && pos + 4 <= s.len() {
        Ok((le_u32(s, pos) != 0, pos + 4))
    } else {
        Err(DecodeError::IO)
    }
}

impl PositionTracker {
    pub fn read_u8(&mut self) -> (res: Result<u8, DecodeError>)
        requires
            old(self).wf(),
        ensures
            final(self).wf(),
            final(self).data() == old(self).data(),
            old(self).pos() <= final(self).pos(),
            match res {
                Ok(v) => spec_parse_u8(old(self).data(), old(self).pos())
                    == Ok::<(u8, int), DecodeError>((v, final(self).pos())),
                Err(e) => spec_parse_u8(old(self).data(), old(self).pos())
                    == Err::<(u8, int), DecodeError>(e),
            },
    {
        if self.current_position < self.bytes.len() {
            let b = self.bytes[self.current_position];
            self.current_position = self.current_position + 1;
            Ok(b)
        } else {
            Err(DecodeError::IO)
        }
    }

    pub fn read_i8(&mut self) -> (res: Result<i8, DecodeError>)
        requires
            old(self).wf(),
        ensures
            final(self).wf(),
            final(self).data() == old(self).data(),
            old(self).pos() <= final(self).pos(),
            match res {
                Ok(v) => spec_parse_i8(old(self).data(), old(self).pos())
                    == Ok::<(i8, int), DecodeError>((v, final(self).pos())),
                Err(e) => spec_parse_i8(old(self).data(), old(self).pos())
                    == Err::<(i8, int), DecodeError>(e),
            },
    {
        match self.read_u8() {
            Ok(v) => Ok(
                #[verifier::truncate]
                (v as i8),
            ),
            Err(e) => Err(e),
        }
    }

    pub fn read_u16(&mut self) -> (res: Result<u16, DecodeError>)
        requires
            old(self).wf(),
        ensures
            final(self).wf(),
            final(self).data() == old(self).data(),
            old(self).pos() <= final(self).pos(),
            match res {
                Ok(v) => spec_parse_u16(old(self).data(), old(self).pos())
                    == Ok::<(u16, int), DecodeError>((v, final(self).pos())),
                Err(e) => spec_parse_u16(old(self).data(), old(self).pos())
                    == Err::<(u16, int), DecodeError>(e),
            },
    {
        let len = self.bytes.len();
        let p = self.current_position;
        if len - p >= 2 {
            let b0 = self.bytes[p] as u16;
            let b1 = self.bytes[p + 1] as u16;
            self.current_position = p + 2;
            Ok(b0 + b1 * 0x100)
        } else {
            Err(DecodeError::IO)
        }
    }

    pub fn read_i16(&mut self) -> (res: Result<i16, DecodeError>)
        requires
            old(self).wf(),
        ensures
            final(self).wf(),
            final(self).data() == old(self).data(),
            old(self).pos() <= final(self).pos(),
            match res {
                Ok(v) => spec_parse_i16(old(self).data(), old(self).pos())
                    == Ok::<(i16, int), DecodeError>((v, final(self).pos())),
                Err(e) => spec_parse_i16(old(self).data(), old(self).pos())
                    == Err::<(i16, int), DecodeError>(e),
            },
    {
        match self.read_u16() {
            Ok(v) => Ok(
                #[verifier::truncate]
                (v as i16),
            ),
            Err(e) => Err(e),
        }
    }

    pub fn read_u32(&mut self) -> (res: Result<u32, DecodeError>)
        requires
            old(self).wf(),
        ensures
            final(self).wf(),
            final(self).data() == old(self).data(),
            old(self).pos() <= final(self).pos(),
            match res {
                Ok(v) => spec_parse_u32(old(self).data(), old(self).pos())
                    == Ok::<(u32, int), DecodeError>((v, final(self).pos())),
                Err(e) => spec_parse_u32(old(self).data(), old(self).pos())
                    == Err::<(u32, int), DecodeError>(e),
            },
    {
        let len = self.bytes.len();
        let p = self.current_position;
        if len - p >= 4 {
            let b0 = self.bytes[p] as u32;
            let b1 = self.bytes[p + 1] as u32;
            let b2 = self.bytes[p + 2] as u32;
            let b3 = self.bytes[p + 3] as u32;
            self.current_position = p + 4;
            Ok(b0 + b1 * 0x100 + b2 * 0x10000 + b3 * 0x1000000)
        } else {
            Err(DecodeError::IO)
        }
    }

    pub fn read_i32(&mut self) -> (res: Result<i32, DecodeError>)
        requires
            old(self).wf(),
        ensures
            final(self).wf(),
            final(self).data() == old(self).data(),
            old(self).pos() <= final(self).pos(),
            match res {
                Ok(v) => spec_parse_i32(old(self).data(), old(self).pos())
                    == Ok::<(i32, int), DecodeError>((v, final(self).pos())),
                Err(e) => spec_parse_i32(old(self).data(), old(self).pos())
                    == Err::<(i32, int), DecodeError>(e),
            },
    {
        match self.read_u32() {
            Ok(v) => Ok(
                #[verifier::truncate]
                (v as i32),
            ),
            Err(e) => Err(e),
        }
    }

    pub fn read_u64(&mut self) -> (res: Result<u64, DecodeError>)
        requires
            old(self).wf(),
        ensures
            final(self).wf(),
            final(self).data() == old(self).data(),
            old(self).pos() <= final(self).pos(),
            match res {
                Ok(v) => spec_parse_u64(old(self).data(), old(self).pos())
                    == Ok::<(u64, int), DecodeError>((v, final(self).pos())),
                Err(e) => spec_parse_u64(old(self).data(), old(self).pos())
                    == Err::<(u64, int), DecodeError>(e),
            },
    {
        let len = self.bytes.len();
        let p = self.current_position;
        if len - p >= 8 {
            let b0 = self.bytes[p] as u64;
            let b1 = self.bytes[p + 1] as u64;
            let b2 = self.bytes[p + 2] as u64;
            let b3 = self.bytes[p + 3] as u64;
            let b4 = self.bytes[p + 4] as u64;
            let b5 = self.bytes[p + 5] as u64;
            let b6 = self.bytes[p + 6] as u64;
            let b7 = self.bytes[p + 7] as u64;
            self.current_position = p + 8;
            Ok(b0 + b1 * 0x100 + b2 * 0x10000 + b3 * 0x1000000 + b4 * 0x100000000
                + b5 * 0x10000000000 + b6 * 0x1000000000000 + b7 * 0x100000000000000)
        } else {
            Err(DecodeError::IO)
        }
    }

    pub fn read_i64(&mut self) -> (res: Result<i64, DecodeError>)
        requires
            old(self).wf(),
        ensures
            final(self).wf(),
            final(self).data() == old(self).data(),
            old(self).pos() <= final(self).pos(),
            match res {
                Ok(v) => spec_parse_i64(old(self).data(), old(self).pos())
                    == Ok::<(i64, int), DecodeError>((v, final(self).pos())),
                Err(e) => spec_parse_i64(old(self).data(), old(self).pos())
                    == Err::<(i64, int), DecodeError>(e),
            },
    {
        match self.read_u64() {
            Ok(v) => Ok(
                #[verifier::truncate]
                (v as i64),
            ),
            Err(e) => Err(e),
        }
    }

    pub fn read_bool(&mut self) -> (res: Result<bool, DecodeError>)
        requires
            old(self).wf(),
        ensures
            final(self).wf(),
            final(self).data() == old(self).data(),
            old(self).pos() <= final(self).pos(),
            match res {
                Ok(v) => spec_parse_bool(old(self).data(), old(self).pos())
                    == Ok::<(bool, int), DecodeError>((v, final(self).pos())),
                Err(e) => spec_parse_bool(old(self).data(), old(self).pos())
                    == Err::<(bool, int), DecodeError>(e),
            },
    {
        match self.read_u32() {
            Ok(v) => Ok(v != 0),
            Err(e) => Err(e),
        }
    }
}

} // verus!

verus! {

/// Context for the decoders that need none.
#[derive(Clone, Copy)]
pub struct NoCtx;

/// Decoding capability: a value read off the byte stream, given a copyable
/// context (`NoCtx` for most types; a flag word, format version or similar
/// for the context-dependent ones).  `spec_parse` is the wire-format definition
/// over the mathematical view of the type; `decode` is proved to agree with
/// it exactly, on success and on failure.
pub trait Decode<C: Copy>: DeepView + Sized {
    spec fn spec_parse(s: Seq<u8>, pos: int, c: C) -> Result<(Self::V, int), DecodeError>;

    /// A successful parse never moves backwards, and ends inside the
    /// buffer whenever it consumed anything at all.
    proof fn parse_bounds(s: Seq<u8>, pos: int, c: C)
        ensures
            match Self::spec_parse(s, pos, c) {
                Ok((v, p)) => pos <= p && (p > pos ==> 0 <= pos && p <= s.len()),
                Err(_) => true,
            };

    fn decode(r: &mut PositionTracker, c: C) -> (res: Result<Self, DecodeError>)
        requires
            old(r).wf(),
        ensures
            final(r).wf(),
            final(r).data() == old(r).data(),
            old(r).pos() <= final(r).pos(),
            match res {
                Ok(v) => Self::spec_parse(old(r).data(), old(r).pos(), c)
                    == Ok::<(Self::V, int), DecodeError>((v.deep_view(), final(r).pos())),
                Err(e) => Self::spec_parse(old(r).data(), old(r).pos(), c)
                    == Err::<(Self::V, int), DecodeError>(e),
            };
}

impl Decode<NoCtx> for u8 {
    open spec fn spec_parse(s: Seq<u8>, pos: int, c: NoCtx) -> Result<(u8, int), DecodeError> {
        spec_parse_u8(s, pos)
    }

    proof fn parse_bounds(s: Seq<u8>, pos: int, c: NoCtx) {
    }

    fn decode(r: &mut PositionTracker, c: NoCtx) -> (res: Result<u8, DecodeError>) {
        r.read_u8()
    }
}

impl Decode<NoCtx> for i8 {
    open spec fn spec_parse(s: Seq<u8>, pos: int, c: NoCtx) -> Result<(i8, int), DecodeError> {
        spec_parse_i8(s, pos)
    }

    proof fn parse_bounds(s: Seq<u8>, pos: int, c: NoCtx) {
    }

    fn decode(r: &mut PositionTracker, c: NoCtx) -> (res: Result<i8, DecodeError>) {
        r.read_i8()
    }
}

impl Decode<NoCtx> for u16 {
    open spec fn spec_parse(s: Seq<u8>, pos: int, c: NoCtx) -> Result<(u16, int), DecodeError> {
        spec_parse_u16(s, pos)
    }

    proof fn parse_bounds(s: Seq<u8>, pos: int, c: NoCtx) {
    }

    fn decode(r: &mut PositionTracker, c: NoCtx) -> (res: Result<u16, DecodeError>) {
        r.read_u16()
    }
}

impl Decode<NoCtx> for i16 {
    open spec fn spec_parse(s: Seq<u8>, pos: int, c: NoCtx) -> Result<(i16, int), DecodeError> {
        spec_parse_i16(s, pos)
    }

    proof fn parse_bounds(s: Seq<u8>, pos: int, c: NoCtx) {
    }

    fn decode(r: &mut PositionTracker, c: NoCtx) -> (res: Result<i16, DecodeError>) {
        r.read_i16()
    }
}

impl Decode<NoCtx> for u32 {
    open spec fn spec_parse(s: Seq<u8>, pos: int, c: NoCtx) -> Result<(u32, int), DecodeError> {
        spec_parse_u32(s, pos)
    }

    proof fn parse_bounds(s: Seq<u8>, pos: int, c: NoCtx) {
    }

    fn decode(r: &mut PositionTracker, c: NoCtx) -> (res: Result<u32, DecodeError>) {
        r.read_u32()
    }
}

impl Decode<NoCtx> for i32 {
    open spec fn spec_parse(s: Seq<u8>, pos: int, c: NoCtx) -> Result<(i32, int), DecodeError> {
        spec_parse_i32(s, pos)
    }

    proof fn parse_bounds(s: Seq<u8>, pos: int, c: NoCtx) {
    }

    fn decode(r: &mut PositionTracker, c: NoCtx) -> (res: Result<i32, DecodeError>) {
        r.read_i32()
    }
}

impl Decode<NoCtx> for u64 {
    open spec fn spec_parse(s: Seq<u8>, pos: int, c: NoCtx) -> Result<(u64, int), DecodeError> {
        spec_parse_u64(s, pos)
    }

    proof fn parse_bounds(s: Seq<u8>, pos: int, c: NoCtx) {
    }

    fn decode(r: &mut PositionTracker, c: NoCtx) -> (res: Result<u64, DecodeError>) {
        r.read_u64()
    }
}

impl Decode<NoCtx> for i64 {
    open spec fn spec_parse(s: Seq<u8>, pos: int, c: NoCtx) -> Result<(i64, int), DecodeError> {
        spec_parse_i64(s, pos)
    }

    proof fn parse_bounds(s: Seq<u8>, pos: int, c: NoCtx) {
    }

    fn decode(r: &mut PositionTracker, c: NoCtx) -> (res: Result<i64, DecodeError>) {
        r.read_i64()
    }
}

impl Decode<NoCtx> for bool {
    open spec fn spec_parse(s: Seq<u8>, pos: int, c: NoCtx) -> Result<(bool, int), DecodeError> {
        spec_parse_bool(s, pos)
    }

    proof fn parse_bounds(s: Seq<u8>, pos: int, c: NoCtx) {
    }

    fn decode(r: &mut PositionTracker, c: NoCtx) -> (res: Result<bool, DecodeError>) {
        r.read_bool()
    }
}

/// Exactly `n` consecutive values of `T`, no count prefix.
pub open spec fn spec_parse_n<C: Copy, T: Decode<C>>(s: Seq<u8>, pos: int, n: nat, c: C)
    -> Result<(Seq<T::V>, int), DecodeError>
    decreases n,
{
    if n == 0 {
        Ok((Seq::empty(), pos))
    } else {
        match T::spec_parse(s, pos, c) {
            Ok((v, pos2)) => match spec_parse_n::<C, T>(s, pos2, (n - 1) as nat, c) {
                Ok((vs, pos3)) => Ok((seq![v] + vs, pos3)),
                Err(e) => Err(e),
            },
            Err(e) => Err(e),
        }
    }
}

/// Parsing one more element appends it at the back.
pub proof fn lemma_parse_n_snoc<C: Copy, T: Decode<C>>(s: Seq<u8>, pos: int, n: nat, c: C)
    ensures
        spec_parse_n::<C, T>(s, pos, n + 1, c) == (match spec_parse_n::<C, T>(s, pos, n, c) {
            Ok((vs, p)) => match T::spec_parse(s, p, c) {
                Ok((v, p2)) => Ok::<(Seq<T::V>, int), DecodeError>((vs.push(v), p2)),
                Err(e) => Err::<(Seq<T::V>, int), DecodeError>(e),
            },
            Err(e) => Err::<(Seq<T::V>, int), DecodeError>(e),
        }),
    decreases n,
{
    if n == 0 {
        match T::spec_parse(s, pos, c) {
            Ok((v, p2)) => {
                assert(spec_parse_n::<C, T>(s, p2, 0, c) == Ok::<(Seq<T::V>, int), DecodeError>(
                    (Seq::empty(), p2),
                ));
                assert(seq![v] + Seq::<T::V>::empty() =~= Seq::<T::V>::empty().push(v));
            }
            Err(e) => {}
        }
    } else {
        match T::spec_parse(s, pos, c) {
            Ok((v, pos2)) => {
                lemma_parse_n_snoc::<C, T>(s, pos2, (n - 1) as nat, c);
                assert(spec_parse_n::<C, T>(s, pos, n + 1, c) == (
                match spec_parse_n::<C, T>(s, pos2, n, c) {
                    Ok((vs, p3)) => Ok::<(Seq<T::V>, int), DecodeError>((seq![v] + vs, p3)),
                    Err(e) => Err::<(Seq<T::V>, int), DecodeError>(e),
                }));
                assert(spec_parse_n::<C, T>(s, pos, n, c) == (
                match spec_parse_n::<C, T>(s, pos2, (n - 1) as nat, c) {
                    Ok((vs, p3)) => Ok::<(Seq<T::V>, int), DecodeError>((seq![v] + vs, p3)),
                    Err(e) => Err::<(Seq<T::V>, int), DecodeError>(e),
                }));
                match spec_parse_n::<C, T>(s, pos2, (n - 1) as nat, c) {
                    Ok((vs, p)) => {
                        match T::spec_parse(s, p, c) {
                            Ok((v2, p2)) => {
                                assert(seq![v] + vs.push(v2) =~= (seq![v] + vs).push(v2));
                            }
                            Err(e) => {}
                        }
                    }
                    Err(e) => {}
                }
            }
            Err(e) => {}
        }
    }
}

/// If a prefix of `i` elements parses and the next element fails, any
/// longer run fails with the same error.
pub proof fn lemma_parse_n_err<C: Copy, T: Decode<C>>(
    s: Seq<u8>,
    pos: int,
    i: nat,
    m: nat,
    c: C,
    vs: Seq<T::V>,
    p: int,
    e: DecodeError,
)
    requires
        i < m,
        spec_parse_n::<C, T>(s, pos, i, c) == Ok::<(Seq<T::V>, int), DecodeError>((vs, p)),
        T::spec_parse(s, p, c) == Err::<(T::V, int), DecodeError>(e),
    ensures
        spec_parse_n::<C, T>(s, pos, m, c) == Err::<(Seq<T::V>, int), DecodeError>(e),
    decreases i,
{
    if i == 0 {
    } else {
        match T::spec_parse(s, pos, c) {
            Ok((v, pos2)) => {
                match spec_parse_n::<C, T>(s, pos2, (i - 1) as nat, c) {
                    Ok((vs2, p2)) => {
                        lemma_parse_n_err::<C, T>(
                            s,
                            pos2,
                            (i - 1) as nat,
                            (m - 1) as nat,
                            c,
                            vs2,
                            p2,
                            e,
                        );
                    }
                    Err(_) => {
                        assert(false);
                    }
                }
            }
            Err(_) => {
                assert(false);
            }
        }
    }
}

/// A successful run of `n` elements yields exactly `n` values, never
/// moves backwards, and ends inside the buffer whenever it consumed
/// anything at all.
pub proof fn lemma_parse_n_bounds<C: Copy, T: Decode<C>>(s: Seq<u8>, pos: int, n: nat, c: C)
    ensures
        match spec_parse_n::<C, T>(s, pos, n, c) {
            Ok((vs, p)) => vs.len() == n && pos <= p && (p > pos ==> 0 <= pos && p <= s.len()),
            Err(_) => true,
        },
    decreases n,
{
    if n == 0 {
    } else {
        T::parse_bounds(s, pos, c);
        match T::spec_parse(s, pos, c) {
            Ok((v, pos2)) => {
                lemma_parse_n_bounds::<C, T>(s, pos2, (n - 1) as nat, c);
            }
            Err(_) => {}
        }
    }
}

/// Reads exactly `n` values of `T`, aborting on the first failure; no
/// partial run is ever returned.
pub fn decode_vec_n<C: Copy, T: Decode<C>>(r: &mut PositionTracker, n: u64, c: C) -> (res: Result<
    Vec<T>,
    DecodeError,
>)
    requires
        old(r).wf(),
    ensures
        final(r).wf(),
        final(r).data() == old(r).data(),
        old(r).pos() <= final(r).pos(),
        match res {
            Ok(v) => spec_parse_n::<C, T>(old(r).data(), old(r).pos(), n as nat, c)
                == Ok::<(Seq<T::V>, int), DecodeError>((v.deep_view(), final(r).pos())),
            Err(e) => spec_parse_n::<C, T>(old(r).data(), old(r).pos(), n as nat, c)
                == Err::<(Seq<T::V>, int), DecodeError>(e),
        },
{
    let ghost s = old(r).data();
    let ghost pos0 = old(r).pos();
    let mut out: Vec<T> = Vec::new();
    let mut i: u64 = 0;
    proof {
        assert(out.deep_view() =~= Seq::<T::V>::empty());
    }
    while i < n
        invariant
            s == old(r).data(),
            pos0 == old(r).pos(),
            r.wf(),
            r.data() == s,
            pos0 <= r.pos(),
            i <= n,
            out.len() == i,
            spec_parse_n::<C, T>(s, pos0, i as nat, c) == Ok::<(Seq<T::V>, int), DecodeError>(
                (out.deep_view(), r.pos()),
            ),
        decreases n - i,
    {
        let ghost prev_out = out.deep_view();
        let ghost prev_pos = r.pos();
        match T::decode(r, c) {
            Ok(v) => {
                let ghost vv = v.deep_view();
                proof {
                    lemma_parse_n_snoc::<C, T>(s, pos0, i as nat, c);
                }
                out.push(v);
                proof {
                    assert(out.deep_view() =~= prev_out.push(vv));
                }
                i = i + 1;
            }
            Err(e) => {
                proof {
                    lemma_parse_n_err::<C, T>(s, pos0, i as nat, n as nat, c, prev_out, prev_pos, e);
                }
                return Err(e);
            }
        }
    }
    Ok(out)
}

/// A length-prefixed dynamic array: a 4-byte signed count (negative counts
/// are rejected before any element is read) followed by that many values.
pub open spec fn spec_parse_sequence<C: Copy, T: Decode<C>>(s: Seq<u8>, pos: int, c: C) -> Result<
    (Seq<T::V>, int),
    DecodeError,
> {
    match spec_parse_i32(s, pos) {
        Ok((count, pos2)) => if count < 0 {
            Err(DecodeError::ConversionFailure)
        } else {
            spec_parse_n::<C, T>(s, pos2, count as nat, c)
        },
        Err(e) => Err(e),
    }
}

impl<C: Copy, T: Decode<C>> Decode<C> for Vec<T> {
    open spec fn spec_parse(s: Seq<u8>, pos: int, c: C) -> Result<(Seq<T::V>, int), DecodeError> {
        spec_parse_sequence::<C, T>(s, pos, c)
    }

    proof fn parse_bounds(s: Seq<u8>, pos: int, c: C) {
        match spec_parse_i32(s, pos) {
            Ok((count, pos2)) => {
                if count >= 0 {
                    lemma_parse_n_bounds::<C, T>(s, pos2, count as nat, c);
                }
            }
            Err(_) => {}
        }
        assert(<Vec<T> as Decode<C>>::spec_parse(s, pos, c) == spec_parse_sequence::<C, T>(
            s,
            pos,
            c,
        ));
    }

    fn decode(r: &mut PositionTracker, c: C) -> (res: Result<Vec<T>, DecodeError>) {
        let count = match r.read_i32() {
            Ok(v) => v,
            Err(e) => return Err(e),
        };
        if count < 0 {
            return Err(DecodeError::ConversionFailure);
        }
        decode_vec_n::<C, T>(r, count as u64, c)
    }
}

/// An optional value: a 4-byte presence boolean, then the value if and only
/// if the boolean was non-zero.
pub open spec fn spec_parse_optional<C: Copy, T: Decode<C>>(s: Seq<u8>, pos: int, c: C) -> Result<
    (Option<T::V>, int),
    DecodeError,
> {
    match spec_parse_bool(s, pos) {
        Ok((avail, pos2)) => if avail {
            match T::spec_parse(s, pos2, c) {
                Ok((v, pos3)) => Ok((Some(v), pos3)),
                Err(e) => Err(e),
            }
        } else {
            Ok((None, pos2))
        },
        Err(e) => Err(e),
    }
}

impl<C: Copy, T: Decode<C>> Decode<C> for Option<T> {
    open spec fn spec_parse(s: Seq<u8>, pos: int, c: C) -> Result<
        (Option<T::V>, int),
        DecodeError,
    > {
        spec_parse_optional::<C, T>(s, pos, c)
    }

    proof fn parse_bounds(s: Seq<u8>, pos: int, c: C) {
        match spec_parse_bool(s, pos) {
            Ok((avail, pos2)) => {
                if avail {
                    T::parse_bounds(s, pos2, c);
                }
            }
            Err(_) => {}
        }
        assert(<Option<T> as Decode<C>>::spec_parse(s, pos, c) == spec_parse_optional::<C, T>(
            s,
            pos,
            c,
        ));
    }

    fn decode(r: &mut PositionTracker, c: C) -> (res: Result<Option<T>, DecodeError>) {
        let avail = match r.read_bool() {
            Ok(v) => v,
            Err(e) => return Err(e),
        };
        if avail {
            match T::decode(r, c) {
                Ok(v) => Ok(Some(v)),
                Err(e) => Err(e),
            }
        } else {
            Ok(None)
        }
    }
}

} // verus!

verus! {

/// A run of `n` raw bytes.
pub open spec fn spec_parse_bytes(s: Seq<u8>, pos: int, n: nat) -> Result<
    (Seq<u8>, int),
    DecodeError,
> {
    if 0 <= pos && pos + n <= s.len() {
        Ok((s.subrange(pos, pos + n), pos + n))
    } else {
        Err(DecodeError::IO)
    }
}

/// A run of `n` characters stored 4 bytes apiece, little-endian; only the
/// low byte of each character is meaningful.
pub open spec fn spec_parse_wide_bytes(s: Seq<u8>, pos: int, n: nat) -> Result<
    (Seq<u8>, int),
    DecodeError,
> {
    if 0 <= pos && pos + 4 * n <= s.len() {
        Ok((Seq::new(n, |i: int| s[pos + 4 * i]), pos + 4 * n))
    } else {
        Err(DecodeError::IO)
    }
}

/// A plain string: a 4-byte signed count, then that many one-byte
/// characters.  Negative counts are rejected.
pub open spec fn spec_parse_str_plain(s: Seq<u8>, pos: int) -> Result<(Seq<u8>, int), DecodeError> {
    match spec_parse_i32(s, pos) {
        Ok((n, pos2)) => if n < 0 {
            Err(DecodeError::ConversionFailure)
        } else {
            spec_parse_bytes(s, pos2, n as nat)
        },
        Err(e) => Err(e),
    }
}

/// A widened string: a 4-byte signed count, then that many characters of 4
/// bytes each.
pub open spec fn spec_parse_str_wide(s: Seq<u8>, pos: int) -> Result<(Seq<u8>, int), DecodeError> {
    match spec_parse_i32(s, pos) {
        Ok((n, pos2)) => if n < 0 {
            Err(DecodeError::ConversionFailure)
        } else {
            spec_parse_wide_bytes(s, pos2, n as nat)
        },
        Err(e) => Err(e),
    }
}

/// A null-terminated widened string: the count includes a trailing
/// terminator character, which must decode to zero and is discarded.  A
/// zero count stands for the empty string with no terminator at all.
pub open spec fn spec_parse_str_wide_nul(s: Seq<u8>, pos: int) -> Result<
    (Seq<u8>, int),
    DecodeError,
> {
    match spec_parse_i32(s, pos) {
        Ok((n, pos2)) => if n < 0 {
            Err(DecodeError::ConversionFailure)
        } else if n == 0 {
            Ok((Seq::empty(), pos2))
        } else {
            match spec_parse_wide_bytes(s, pos2, (n - 1) as nat) {
                Ok((chars, pos3)) => match spec_parse_u32(s, pos3) {
                    Ok((term, pos4)) => if term == 0 {
                        Ok((chars, pos4))
                    } else {
                        Err(DecodeError::ConversionFailure)
                    },
                    Err(e) => Err(e),
                },
                Err(e) => Err(e),
            }
        },
        Err(e) => Err(e),
    }
}

impl PositionTracker {
    /// Reads `n` raw bytes.
    pub fn read_bytes(&mut self, n: usize) -> (res: Result<Vec<u8>, DecodeError>)
        requires
            old(self).wf(),
        ensures
            final(self).wf(),
            final(self).data() == old(self).data(),
            old(self).pos() <= final(self).pos(),
            match res {
                Ok(v) => spec_parse_bytes(old(self).data(), old(self).pos(), n as nat)
                    == Ok::<(Seq<u8>, int), DecodeError>((v@, final(self).pos())),
                Err(e) => spec_parse_bytes(old(self).data(), old(self).pos(), n as nat)
                    == Err::<(Seq<u8>, int), DecodeError>(e),
            },
    {
        let ghost s = old(self).data();
        let len = self.bytes.len();
        let p = self.current_position;
        if n <= len - p {
            let mut out: Vec<u8> = Vec::new();
            let mut i: usize = 0;
            while i < n
                invariant
                    s == self.data(),
                    self.wf(),
                    i <= n,
                    p + n <= len,
                    len == s.len(),
                    p == self.pos(),
                    out@ =~= s.subrange(p as int, p + i),
                decreases n - i,
            {
                out.push(self.bytes[p + i]);
                proof {
                    assert(out@ =~= s.subrange(p as int, p + i + 1));
                }
                i = i + 1;
            }
            self.current_position = p + n;
            Ok(out)
        } else {
            Err(DecodeError::IO)
        }
    }

    /// Reads `n` widened characters, keeping the low byte of each.
    pub fn read_wide_bytes(&mut self, n: usize) -> (res: Result<Vec<u8>, DecodeError>)
        requires
            old(self).wf(),
        ensures
            final(self).wf(),
            final(self).data() == old(self).data(),
            old(self).pos() <= final(self).pos(),
            match res {
                Ok(v) => spec_parse_wide_bytes(old(self).data(), old(self).pos(), n as nat)
                    == Ok::<(Seq<u8>, int), DecodeError>((v@, final(self).pos())),
                Err(e) => spec_parse_wide_bytes(old(self).data(), old(self).pos(), n as nat)
                    == Err::<(Seq<u8>, int), DecodeError>(e),
            },
    {
        let ghost s = old(self).data();
        let ghost p0 = old(self).pos();
        let mut out: Vec<u8> = Vec::new();
        let mut i: usize = 0;
        while i < n
            invariant
                s == old(self).data(),
                p0 == old(self).pos(),
                self.wf(),
                self.data() == s,
                i <= n,
                self.pos() == p0 + 4 * i,
                0 <= p0,
                p0 + 4 * i <= s.len(),
                out@ =~= Seq::new(i as nat, |j: int| s[p0 + 4 * j]),
            decreases n - i,
        {
            let b = match self.read_u8() {
                Ok(v) => v,
                Err(e) => {
                    return Err(DecodeError::IO);
                },
            };
            let mut k: usize = 0;
            while k < 3
                invariant
                    s == old(self).data(),
                    p0 == old(self).pos(),
                    self.wf(),
                    self.data() == s,
                    k <= 3,
                    i < n,
                    0 <= p0,
                    self.pos() == p0 + 4 * i + 1 + k,
                    p0 + 4 * i + 1 + k <= s.len(),
                decreases 3 - k,
            {
                match self.read_u8() {
                    Ok(_) => {
                    },
                    Err(e) => {
                        return Err(DecodeError::IO);
                    },
                }
                k = k + 1;
            }
            out.push(b);
            proof {
                assert(out@ =~= Seq::new((i + 1) as nat, |j: int| s[p0 + 4 * j]));
            }
            i = i + 1;
        }
        Ok(out)
    }

    /// Reads a plain (one byte per character) length-prefixed string.
    pub fn read_string(&mut self) -> (res: Result<Vec<u8>, DecodeError>)
        requires
            old(self).wf(),
        ensures
            final(self).wf(),
            final(self).data() == old(self).data(),
            old(self).pos() <= final(self).pos(),
            match res {
                Ok(v) => spec_parse_str_plain(old(self).data(), old(self).pos())
                    == Ok::<(Seq<u8>, int), DecodeError>((v@, final(self).pos())),
                Err(e) => spec_parse_str_plain(old(self).data(), old(self).pos())
                    == Err::<(Seq<u8>, int), DecodeError>(e),
            },
    {
        let n = match self.read_i32() {
            Ok(v) => v,
            Err(e) => return Err(e),
        };
        if n < 0 {
            return Err(DecodeError::ConversionFailure);
        }
        self.read_bytes(n as usize)
    }

    /// Reads a widened (4 bytes per character) length-prefixed string.
    pub fn read_wide_string(&mut self) -> (res: Result<Vec<u8>, DecodeError>)
        requires
            old(self).wf(),
        ensures
            final(self).wf(),
            final(self).data() == old(self).data(),
            old(self).pos() <= final(self).pos(),
            match res {
                Ok(v) => spec_parse_str_wide(old(self).data(), old(self).pos())
                    == Ok::<(Seq<u8>, int), DecodeError>((v@, final(self).pos())),
                Err(e) => spec_parse_str_wide(old(self).data(), old(self).pos())
                    == Err::<(Seq<u8>, int), DecodeError>(e),
            },
    {
        let n = match self.read_i32() {
            Ok(v) => v,
            Err(e) => return Err(e),
        };
        if n < 0 {
            return Err(DecodeError::ConversionFailure);
        }
        self.read_wide_bytes(n as usize)
    }

    /// Reads a null-terminated widened string, checking and dropping the
    /// terminator.
    pub fn read_wide_nul_string(&mut self) -> (res: Result<Vec<u8>, DecodeError>)
        requires
            old(self).wf(),
        ensures
            final(self).wf(),
            final(self).data() == old(self).data(),
            old(self).pos() <= final(self).pos(),
            match res {
                Ok(v) => spec_parse_str_wide_nul(old(self).data(), old(self).pos())
                    == Ok::<(Seq<u8>, int), DecodeError>((v@, final(self).pos())),
                Err(e) => spec_parse_str_wide_nul(old(self).data(), old(self).pos())
                    == Err::<(Seq<u8>, int), DecodeError>(e),
            },
    {
        let n = match self.read_i32() {
            Ok(v) => v,
            Err(e) => return Err(e),
        };
        if n < 0 {
            return Err(DecodeError::ConversionFailure);
        }
        if n == 0 {
            return Ok(Vec::new());
        }
        let chars = match self.read_wide_bytes((n - 1) as usize) {
            Ok(v) => v,
            Err(e) => return Err(e),
        };
        let term = match self.read_u32() {
            Ok(v) => v,
            Err(e) => return Err(e),
        };
        if term != 0 {
            return Err(DecodeError::ConversionFailure);
        }
        Ok(chars)
    }
}

} // verus!

verus! {

/// Sequence decoding: a negative count fails before any element is read;
/// a zero count yields the empty sequence without reading further bytes; a
/// count of `n` yields exactly `n` elements in stream order.
pub proof fn lemma_sequence_laws<C: Copy, T: Decode<C>>(s: Seq<u8>, pos: int, c: C)
    ensures
        match spec_parse_i32(s, pos) {
            Err(e) => spec_parse_sequence::<C, T>(s, pos, c) == Err::<
                (Seq<T::V>, int),
                DecodeError,
            >(e),
            Ok((count, pos2)) => (count < 0 ==> spec_parse_sequence::<C, T>(s, pos, c) == Err::<
                (Seq<T::V>, int),
                DecodeError,
            >(DecodeError::ConversionFailure)) && (count == 0 ==> spec_parse_sequence::<C, T>(
                s,
                pos,
                c,
            ) == Ok::<(Seq<T::V>, int), DecodeError>((Seq::empty(), pos2))) && (count > 0
                ==> match spec_parse_sequence::<C, T>(s, pos, c) {
                Ok((vs, p)) => vs.len() == count,
                Err(_) => true,
            }),
        },
{
    match spec_parse_i32(s, pos) {
        Err(_) => {},
        Ok((count, pos2)) => {
            if count >= 0 {
                lemma_parse_n_bounds::<C, T>(s, pos2, count as nat, c);
            }
        },
    }
}

/// Optional decoding: a zero presence word yields an absent value and
/// consumes exactly the four presence bytes; any non-zero presence word,
/// not just one, yields a present value parsed right after them.
pub proof fn lemma_optional_laws<C: Copy, T: Decode<C>>(s: Seq<u8>, pos: int, c: C)
    ensures
        0 <= pos && pos + 4 <= s.len() ==> (le_u32(s, pos) == 0 ==> spec_parse_optional::<C, T>(
            s,
            pos,
            c,
        ) == Ok::<(Option<T::V>, int), DecodeError>((None, pos + 4))),
        0 <= pos && pos + 4 <= s.len() ==> (le_u32(s, pos) != 0 ==> spec_parse_optional::<C, T>(
            s,
            pos,
            c,
        ) == (match T::spec_parse(s, pos + 4, c) {
            Ok((v, p)) => Ok::<(Option<T::V>, int), DecodeError>((Some(v), p)),
            Err(e) => Err::<(Option<T::V>, int), DecodeError>(e),
        })),
{
}

} // verus!
