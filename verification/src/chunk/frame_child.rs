//! The frame-child (level object) record.

use vstd::prelude::*;

use crate::decode::{Decode, DecodeError, NoCtx, PositionTracker, spec_parse_u32};

verus! {

#[derive(Clone, Copy, Debug, PartialEq, Eq, Structural)]
pub struct FrameChild {
    pub stream_depth: u32,
}

impl DeepView for FrameChild {
    type V = FrameChild;

    open spec fn deep_view(&self) -> FrameChild {
        *self
    }
}

pub open spec fn spec_parse_frame_child(s: Seq<u8>, pos: int) -> Result<(FrameChild, int), DecodeError> {
    match spec_parse_u32(s, pos) {
        Err(e) => Err(e),
        Ok((stream_depth, pos)) => {
            Ok((
                FrameChild {
                    stream_depth: stream_depth,
                },
                pos,
            ))
        },
    }
}

impl Decode<NoCtx> for FrameChild {
    open spec fn spec_parse(s: Seq<u8>, pos: int, c: NoCtx) -> Result<(FrameChild, int), DecodeError> {
        spec_parse_frame_child(s, pos)
    }

    proof fn parse_bounds(s: Seq<u8>, pos: int, c: NoCtx) {
    }

    fn decode(r: &mut PositionTracker, c: NoCtx) -> (res: Result<FrameChild, DecodeError>) {
        let ghost s = old(r).data();
        let ghost p0 = old(r).pos();
        let stream_depth = match r.read_u32() {
            Ok(v) => v,
            Err(e) => {
                proof {
                    assert(spec_parse_frame_child(s, p0) == Err::<(FrameChild, int), DecodeError>(e));
                    assert(<FrameChild as Decode<NoCtx>>::spec_parse(s, p0, NoCtx) == spec_parse_frame_child(s, p0));
                }
                return Err(e);
            },
        };
        let out = FrameChild {
            stream_depth,
        };
        proof {
            assert(spec_parse_frame_child(s, p0) == Ok::<(FrameChild, int), DecodeError>((out.deep_view(), r.pos())));
            assert(<FrameChild as Decode<NoCtx>>::spec_parse(s, p0, NoCtx) == spec_parse_frame_child(s, p0));
        }
        Ok(out)
    }
}

impl FrameChild {
    pub fn new(stream_depth: u32) -> (r: Self)
        ensures
            r == (FrameChild { stream_depth }),
    {
        FrameChild { stream_depth }
    }
}

} // verus!
