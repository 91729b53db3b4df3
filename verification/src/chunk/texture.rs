//! The texture record: two null-terminated widened names, fixed integer
//! fields, a border color, then width x height pixels, every color stored
//! as four 4-byte integers.

use vstd::prelude::*;

use crate::color::{spec_parse_rgba_i32, I32Encoded, Rgba};
use crate::decode::{
    decode_vec_n, lemma_parse_n_bounds, spec_parse_i32, spec_parse_n, spec_parse_str_wide_nul,
    Decode, DecodeError, NoCtx, PositionTracker,
};

verus! {

#[derive(Clone, Debug, PartialEq, Eq)]
pub struct Texture {
    pub name: Vec<u8>,
    pub mask_name: Vec<u8>,
    pub width: i32,
    pub height: i32,
    pub filter: i32,
    pub address: i32,
    pub format: i32,
    pub border_color: Rgba,
    pub pixels: Vec<Rgba>,
}

pub struct TextureView {
    pub name: Seq<u8>,
    pub mask_name: Seq<u8>,
    pub width: i32,
    pub height: i32,
    pub filter: i32,
    pub address: i32,
    pub format: i32,
    pub border_color: Rgba,
    pub pixels: Seq<Rgba>,
}

impl DeepView for Texture {
    type V = TextureView;

    open spec fn deep_view(&self) -> TextureView {
        TextureView {
            name: self.name@,
            mask_name: self.mask_name@,
            width: self.width,
            height: self.height,
            filter: self.filter,
            address: self.address,
            format: self.format,
            border_color: self.border_color,
            pixels: self.pixels.deep_view(),
        }
    }
}

/// How many pixels a texture stores: the product of its signed dimensions
/// when positive, none otherwise.
pub open spec fn spec_texture_pixel_count(width: i32, height: i32) -> nat {
    if width * height > 0 {
        (width * height) as nat
    } else {
        0
    }
}

pub open spec fn spec_parse_texture(s: Seq<u8>, pos: int) -> Result<(TextureView, int), DecodeError> {
    match spec_parse_str_wide_nul(s, pos) {
        Err(e) => Err(e),
        Ok((name, pos)) => match spec_parse_str_wide_nul(s, pos) {
            Err(e) => Err(e),
            Ok((mask_name, pos)) => match spec_parse_i32(s, pos) {
                Err(e) => Err(e),
                Ok((width, pos)) => match spec_parse_i32(s, pos) {
                    Err(e) => Err(e),
                    Ok((height, pos)) => match spec_parse_i32(s, pos) {
                        Err(e) => Err(e),
                        Ok((filter, pos)) => match spec_parse_i32(s, pos) {
                            Err(e) => Err(e),
                            Ok((address, pos)) => match spec_parse_i32(s, pos) {
                                Err(e) => Err(e),
                                Ok((format, pos)) => match spec_parse_rgba_i32(s, pos) {
                                    Err(e) => Err(e),
                                    Ok((border_color, pos)) => match spec_parse_n::<
                                        NoCtx,
                                        I32Encoded,
                                    >(s, pos, spec_texture_pixel_count(width, height), NoCtx) {
                                        Err(e) => Err(e),
                                        Ok((pixels, pos)) => Ok(
                                            (
                                                TextureView {
                                                    name,
                                                    mask_name,
                                                    width,
                                                    height,
                                                    filter,
                                                    address,
                                                    format,
                                                    border_color,
                                                    pixels,
                                                },
                                                pos,
                                            ),
                                        ),
                                    },
                                },
                            },
                        },
                    },
                },
            },
        },
    }
}

impl Decode<NoCtx> for Texture {
    open spec fn spec_parse(s: Seq<u8>, pos: int, c: NoCtx) -> Result<
        (TextureView, int),
        DecodeError,
    > {
        spec_parse_texture(s, pos)
    }

    proof fn parse_bounds(s: Seq<u8>, pos: int, c: NoCtx) {
        match spec_parse_str_wide_nul(s, pos) {
            Err(_) => {},
            Ok((name, pos)) => {
                match spec_parse_str_wide_nul(s, pos) {
                    Err(_) => {},
                    Ok((mask_name, pos)) => {
                        match spec_parse_i32(s, pos) {
                            Err(_) => {},
                            Ok((width, pos)) => {
                                match spec_parse_i32(s, pos) {
                                    Err(_) => {},
                                    Ok((height, pos)) => {
                                        match spec_parse_i32(s, pos) {
                                            Err(_) => {},
                                            Ok((filter, pos)) => {
                                                match spec_parse_i32(s, pos) {
                                                    Err(_) => {},
                                                    Ok((address, pos)) => {
                                                        match spec_parse_i32(s, pos) {
                                                            Err(_) => {},
                                                            Ok((format, pos)) => {
                                                                match spec_parse_rgba_i32(s, pos) {
                                                                    Err(_) => {},
                                                                    Ok((border_color, pos)) => {
                                                                        lemma_parse_n_bounds::<
                                                                            NoCtx,
                                                                            I32Encoded,
                                                                        >(
                                                                            s,
                                                                            pos,
                                                                            spec_texture_pixel_count(
                                                                                width,
                                                                                height,
                                                                            ),
                                                                            NoCtx,
                                                                        );
                                                                    },
                                                                }
                                                            },
                                                        }
                                                    },
                                                }
                                            },
                                        }
                                    },
                                }
                            },
                        }
                    },
                }
            },
        }
    }

    fn decode(r: &mut PositionTracker, c: NoCtx) -> (res: Result<Texture, DecodeError>) {
        let ghost s = old(r).data();
        let ghost p0 = old(r).pos();
        let name = match r.read_wide_nul_string() {
            Ok(v) => v,
            Err(e) => {
                proof {
                    assert(spec_parse_texture(s, p0) == Err::<(TextureView, int), DecodeError>(e));
                }
                return Err(e);
            },
        };
        let mask_name = match r.read_wide_nul_string() {
            Ok(v) => v,
            Err(e) => {
                proof {
                    assert(spec_parse_texture(s, p0) == Err::<(TextureView, int), DecodeError>(e));
                }
                return Err(e);
            },
        };
        let width = match r.read_i32() {
            Ok(v) => v,
            Err(e) => {
                proof {
                    assert(spec_parse_texture(s, p0) == Err::<(TextureView, int), DecodeError>(e));
                }
                return Err(e);
            },
        };
        let height = match r.read_i32() {
            Ok(v) => v,
            Err(e) => {
                proof {
                    assert(spec_parse_texture(s, p0) == Err::<(TextureView, int), DecodeError>(e));
                }
                return Err(e);
            },
        };
        let filter = match r.read_i32() {
            Ok(v) => v,
            Err(e) => {
                proof {
                    assert(spec_parse_texture(s, p0) == Err::<(TextureView, int), DecodeError>(e));
                }
                return Err(e);
            },
        };
        let address = match r.read_i32() {
            Ok(v) => v,
            Err(e) => {
                proof {
                    assert(spec_parse_texture(s, p0) == Err::<(TextureView, int), DecodeError>(e));
                }
                return Err(e);
            },
        };
        let format = match r.read_i32() {
            Ok(v) => v,
            Err(e) => {
                proof {
                    assert(spec_parse_texture(s, p0) == Err::<(TextureView, int), DecodeError>(e));
                }
                return Err(e);
            },
        };
        let border_color = match Rgba::decode_i32(r) {
            Ok(v) => v,
            Err(e) => {
                proof {
                    assert(spec_parse_texture(s, p0) == Err::<(TextureView, int), DecodeError>(e));
                }
                return Err(e);
            },
        };
        proof {
            assert(-0x8000000000000000 <= (width as int) * (height as int)
                < 0x8000000000000000) by (nonlinear_arith)
                requires
                    -0x80000000 <= width as int <= 0x7FFFFFFF,
                    -0x80000000 <= height as int <= 0x7FFFFFFF,
            ;
        }
        let prod: i64 = (width as i64) * (height as i64);
        let n: u64 = if prod > 0 {
            prod as u64
        } else {
            0
        };
        let tmp = match decode_vec_n::<NoCtx, I32Encoded>(r, n, NoCtx) {
            Ok(v) => v,
            Err(e) => {
                proof {
                    assert(n as nat == spec_texture_pixel_count(width, height));
                    assert(spec_parse_texture(s, p0) == Err::<(TextureView, int), DecodeError>(e));
                }
                return Err(e);
            },
        };
        let mut pixels: Vec<Rgba> = Vec::new();
        let mut i: usize = 0;
        while i < tmp.len()
            invariant
                i <= tmp.len(),
                pixels@ =~= Seq::new(i as nat, |j: int| tmp@[j].0),
            decreases tmp.len() - i,
        {
            let v = tmp[i].0;
            pixels.push(v);
            proof {
                assert(pixels@ =~= Seq::new((i + 1) as nat, |j: int| tmp@[j].0));
            }
            i = i + 1;
        }
        proof {
            assert(pixels.deep_view() =~= tmp.deep_view());
            assert(n as nat == spec_texture_pixel_count(width, height));
        }
        let out = Texture {
            name,
            mask_name,
            width,
            height,
            filter,
            address,
            format,
            border_color,
            pixels,
        };
        proof {
            assert(spec_parse_texture(s, p0) == Ok::<(TextureView, int), DecodeError>(
                (out.deep_view(), r.pos()),
            ));
        }
        Ok(out)
    }
}

} // verus!
