//! Color values.  Both 3- and 4-channel colors appear on the wire either
//! as one byte per channel or, in a few records, as one 4-byte integer per
//! channel of which only the low byte is kept.

use vstd::prelude::*;

use crate::decode::{spec_parse_u8, Decode, DecodeError, NoCtx, PositionTracker};

verus! {

#[derive(Clone, Copy, Debug, Default, PartialEq, Eq, PartialOrd, Ord, Hash, Structural)]
pub struct Rgb {
    pub r: u8,
    pub g: u8,
    pub b: u8,
}

impl Rgb {
    pub fn new(r: u8, g: u8, b: u8) -> (res: Self)
        ensures
            res == (Rgb { r, g, b }),
    {
        Rgb { r, g, b }
    }
}

impl DeepView for Rgb {
    type V = Rgb;

    open spec fn deep_view(&self) -> Rgb {
        *self
    }
}

pub open spec fn spec_parse_rgb(s: Seq<u8>, pos: int) -> Result<(Rgb, int), DecodeError> {
    match spec_parse_u8(s, pos) {
        Err(e) => Err(e),
        Ok((r, pos)) => match spec_parse_u8(s, pos) {
            Err(e) => Err(e),
            Ok((g, pos)) => match spec_parse_u8(s, pos) {
                Err(e) => Err(e),
                Ok((b, pos)) => Ok((Rgb { r, g, b }, pos)),
            },
        },
    }
}

impl Decode<NoCtx> for Rgb {
    open spec fn spec_parse(s: Seq<u8>, pos: int, c: NoCtx) -> Result<(Rgb, int), DecodeError> {
        spec_parse_rgb(s, pos)
    }

    proof fn parse_bounds(s: Seq<u8>, pos: int, c: NoCtx) {
    }

    fn decode(r: &mut PositionTracker, c: NoCtx) -> (res: Result<Rgb, DecodeError>) {
        let ghost s = old(r).data();
        let ghost p0 = old(r).pos();
        let red = match r.read_u8() {
            Ok(v) => v,
            Err(e) => {
                proof {
                    assert(spec_parse_rgb(s, p0) == Err::<(Rgb, int), DecodeError>(e));
                    assert(<Rgb as Decode<NoCtx>>::spec_parse(s, p0, NoCtx) == spec_parse_rgb(s, p0));
                }
                return Err(e);
            },
        };
        let green = match r.read_u8() {
            Ok(v) => v,
            Err(e) => {
                proof {
                    assert(spec_parse_rgb(s, p0) == Err::<(Rgb, int), DecodeError>(e));
                    assert(<Rgb as Decode<NoCtx>>::spec_parse(s, p0, NoCtx) == spec_parse_rgb(s, p0));
                }
                return Err(e);
            },
        };
        let blue = match r.read_u8() {
            Ok(v) => v,
            Err(e) => {
                proof {
                    assert(spec_parse_rgb(s, p0) == Err::<(Rgb, int), DecodeError>(e));
                    assert(<Rgb as Decode<NoCtx>>::spec_parse(s, p0, NoCtx) == spec_parse_rgb(s, p0));
                }
                return Err(e);
            },
        };
        let out = Rgb { r: red, g: green, b: blue };
        proof {
            assert(spec_parse_rgb(s, p0) == Ok::<(Rgb, int), DecodeError>((out.deep_view(), r.pos())));
            assert(<Rgb as Decode<NoCtx>>::spec_parse(s, p0, NoCtx) == spec_parse_rgb(s, p0));
        }
        Ok(out)
    }
}

#[derive(Clone, Copy, Debug, Default, PartialEq, Eq, PartialOrd, Ord, Hash, Structural)]
pub struct Rgba {
    pub r: u8,
    pub g: u8,
    pub b: u8,
    pub a: u8,
}

impl Rgba {
    pub fn new(r: u8, g: u8, b: u8, a: u8) -> (res: Self)
        ensures
            res == (Rgba { r, g, b, a }),
    {
        Rgba { r, g, b, a }
    }

    /// Widens a 3-channel color with a zero alpha channel.
    pub fn from_rgb(c: Rgb) -> (res: Self)
        ensures
            res == spec_rgba_from_rgb(c),
    {
        Rgba { r: c.r, g: c.g, b: c.b, a: 0 }
    }
}

pub open spec fn spec_rgba_from_rgb(c: Rgb) -> Rgba {
    Rgba { r: c.r, g: c.g, b: c.b, a: 0 }
}

impl DeepView for Rgba {
    type V = Rgba;

    open spec fn deep_view(&self) -> Rgba {
        *self
    }
}

pub open spec fn spec_parse_rgba(s: Seq<u8>, pos: int) -> Result<(Rgba, int), DecodeError> {
    match spec_parse_u8(s, pos) {
        Err(e) => Err(e),
        Ok((r, pos)) => match spec_parse_u8(s, pos) {
            Err(e) => Err(e),
            Ok((g, pos)) => match spec_parse_u8(s, pos) {
                Err(e) => Err(e),
                Ok((b, pos)) => match spec_parse_u8(s, pos) {
                    Err(e) => Err(e),
                    Ok((a, pos)) => Ok((Rgba { r, g, b, a }, pos)),
                },
            },
        },
    }
}

impl Decode<NoCtx> for Rgba {
    open spec fn spec_parse(s: Seq<u8>, pos: int, c: NoCtx) -> Result<(Rgba, int), DecodeError> {
        spec_parse_rgba(s, pos)
    }

    proof fn parse_bounds(s: Seq<u8>, pos: int, c: NoCtx) {
    }

    fn decode(r: &mut PositionTracker, c: NoCtx) -> (res: Result<Rgba, DecodeError>) {
        let ghost s = old(r).data();
        let ghost p0 = old(r).pos();
        let red = match r.read_u8() {
            Ok(v) => v,
            Err(e) => {
                proof {
                    assert(spec_parse_rgba(s, p0) == Err::<(Rgba, int), DecodeError>(e));
                    assert(<Rgba as Decode<NoCtx>>::spec_parse(s, p0, NoCtx) == spec_parse_rgba(s, p0));
                }
                return Err(e);
            },
        };
        let green = match r.read_u8() {
            Ok(v) => v,
            Err(e) => {
                proof {
                    assert(spec_parse_rgba(s, p0) == Err::<(Rgba, int), DecodeError>(e));
                    assert(<Rgba as Decode<NoCtx>>::spec_parse(s, p0, NoCtx) == spec_parse_rgba(s, p0));
                }
                return Err(e);
            },
        };
        let blue = match r.read_u8() {
            Ok(v) => v,
            Err(e) => {
                proof {
                    assert(spec_parse_rgba(s, p0) == Err::<(Rgba, int), DecodeError>(e));
                    assert(<Rgba as Decode<NoCtx>>::spec_parse(s, p0, NoCtx) == spec_parse_rgba(s, p0));
                }
                return Err(e);
            },
        };
        let alpha = match r.read_u8() {
            Ok(v) => v,
            Err(e) => {
                proof {
                    assert(spec_parse_rgba(s, p0) == Err::<(Rgba, int), DecodeError>(e));
                    assert(<Rgba as Decode<NoCtx>>::spec_parse(s, p0, NoCtx) == spec_parse_rgba(s, p0));
                }
                return Err(e);
            },
        };
        let out = Rgba { r: red, g: green, b: blue, a: alpha };
        proof {
            assert(spec_parse_rgba(s, p0) == Ok::<(Rgba, int), DecodeError>((out.deep_view(), r.pos())));
            assert(<Rgba as Decode<NoCtx>>::spec_parse(s, p0, NoCtx) == spec_parse_rgba(s, p0));
        }
        Ok(out)
    }
}

/// A 4-channel color stored as four little-endian 4-byte integers; only
/// the low byte (the first byte) of each channel is meaningful.
pub open spec fn spec_parse_rgba_i32(s: Seq<u8>, pos: int) -> Result<(Rgba, int), DecodeError> {
    if 0 <= pos && pos + 16 <= s.len() {
        Ok((Rgba { r: s[pos], g: s[pos + 4], b: s[pos + 8], a: s[pos + 12] }, pos + 16))
    } else {
        Err(DecodeError::IO)
    }
}

impl Rgba {
    /// Reads a color stored as four 4-byte integers, one channel each.
    pub fn decode_i32(r: &mut PositionTracker) -> (res: Result<Rgba, DecodeError>)
        requires
            old(r).wf(),
        ensures
            final(r).wf(),
            final(r).data() == old(r).data(),
            old(r).pos() <= final(r).pos(),
            match res {
                Ok(v) => spec_parse_rgba_i32(old(r).data(), old(r).pos())
                    == Ok::<(Rgba, int), DecodeError>((v, final(r).pos())),
                Err(e) => spec_parse_rgba_i32(old(r).data(), old(r).pos())
                    == Err::<(Rgba, int), DecodeError>(e),
            },
    {
        let chans = match r.read_wide_bytes(4) {
            Ok(v) => v,
            Err(e) => return Err(e),
        };
        Ok(Rgba { r: chans[0], g: chans[1], b: chans[2], a: chans[3] })
    }
}

} // verus!

verus! {

/// A color in the 4-bytes-per-channel encoding, for counted runs of such
/// colors; its view is the plain color.
#[derive(Clone, Copy, Debug, PartialEq, Eq, Structural)]
pub struct I32Encoded(pub Rgba);

impl DeepView for I32Encoded {
    type V = Rgba;

    open spec fn deep_view(&self) -> Rgba {
        self.0
    }
}

impl Decode<NoCtx> for I32Encoded {
    open spec fn spec_parse(s: Seq<u8>, pos: int, c: NoCtx) -> Result<(Rgba, int), DecodeError> {
        spec_parse_rgba_i32(s, pos)
    }

    proof fn parse_bounds(s: Seq<u8>, pos: int, c: NoCtx) {
    }

    fn decode(r: &mut PositionTracker, c: NoCtx) -> (res: Result<I32Encoded, DecodeError>) {
        match Rgba::decode_i32(r) {
            Ok(v) => Ok(I32Encoded(v)),
            Err(e) => Err(e),
        }
    }
}

} // verus!
