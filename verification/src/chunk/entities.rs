//! The entities pseudo-record: a bare count of entity records to follow.

use vstd::prelude::*;

use crate::decode::{Decode, DecodeError, NoCtx, PositionTracker, spec_parse_u32};

verus! {

/// The count-only entities pseudo-record.
#[derive(Clone, Copy, Debug, PartialEq, Eq, Structural)]
pub struct Entities {
    pub count: u32,
}

impl DeepView for Entities {
    type V = Entities;

    open spec fn deep_view(&self) -> Entities {
        *self
    }
}

pub open spec fn spec_parse_entities(s: Seq<u8>, pos: int) -> Result<(Entities, int), DecodeError> {
    match spec_parse_u32(s, pos) {
        Err(e) => Err(e),
        Ok((count, pos)) => {
            Ok((
                Entities {
                    count: count,
                },
                pos,
            ))
        },
    }
}

impl Decode<NoCtx> for Entities {
    open spec fn spec_parse(s: Seq<u8>, pos: int, c: NoCtx) -> Result<(Entities, int), DecodeError> {
        spec_parse_entities(s, pos)
    }

    proof fn parse_bounds(s: Seq<u8>, pos: int, c: NoCtx) {
    }

    fn decode(r: &mut PositionTracker, c: NoCtx) -> (res: Result<Entities, DecodeError>) {
        let ghost s = old(r).data();
        let ghost p0 = old(r).pos();
        let count = match r.read_u32() {
            Ok(v) => v,
            Err(e) => {
                proof {
                    assert(spec_parse_entities(s, p0) == Err::<(Entities, int), DecodeError>(e));
                    assert(<Entities as Decode<NoCtx>>::spec_parse(s, p0, NoCtx) == spec_parse_entities(s, p0));
                }
                return Err(e);
            },
        };
        let out = Entities {
            count,
        };
        proof {
            assert(spec_parse_entities(s, p0) == Ok::<(Entities, int), DecodeError>((out.deep_view(), r.pos())));
            assert(<Entities as Decode<NoCtx>>::spec_parse(s, p0, NoCtx) == spec_parse_entities(s, p0));
        }
        Ok(out)
    }
}

impl Entities {
    pub fn new(count: u32) -> (r: Self)
        ensures
            r == (Entities { count }),
    {
        Entities { count }
    }
}

} // verus!
