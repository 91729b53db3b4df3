//! The atomic-mesh record.

use vstd::prelude::*;

use crate::decode::{Decode, DecodeError, NoCtx, PositionTracker, spec_parse_bool, spec_parse_u32};

verus! {

#[derive(Clone, Copy, Debug, PartialEq, Eq, Structural)]
pub struct AtomicMesh {
    pub base_flags: u32,
    pub flags: u32,
    pub name_hash: u32,
    pub has_mesh: bool,
}

impl DeepView for AtomicMesh {
    type V = AtomicMesh;

    open spec fn deep_view(&self) -> AtomicMesh {
        *self
    }
}

pub open spec fn spec_parse_atomic_mesh(s: Seq<u8>, pos: int) -> Result<(AtomicMesh, int), DecodeError> {
    match spec_parse_u32(s, pos) {
        Err(e) => Err(e),
        Ok((base_flags, pos)) => {
            match spec_parse_u32(s, pos) {
                Err(e) => Err(e),
                Ok((flags, pos)) => {
                    match spec_parse_u32(s, pos) {
                        Err(e) => Err(e),
                        Ok((name_hash, pos)) => {
                            match spec_parse_bool(s, pos) {
                                Err(e) => Err(e),
                                Ok((has_mesh, pos)) => {
                                    Ok((
                                        AtomicMesh {
                                            base_flags: base_flags,
                                            flags: flags,
                                            name_hash: name_hash,
                                            has_mesh: has_mesh,
                                        },
                                        pos,
                                    ))
                                },
                            }
                        },
                    }
                },
            }
        },
    }
}

impl Decode<NoCtx> for AtomicMesh {
    open spec fn spec_parse(s: Seq<u8>, pos: int, c: NoCtx) -> Result<(AtomicMesh, int), DecodeError> {
        spec_parse_atomic_mesh(s, pos)
    }

    proof fn parse_bounds(s: Seq<u8>, pos: int, c: NoCtx) {
    }

    fn decode(r: &mut PositionTracker, c: NoCtx) -> (res: Result<AtomicMesh, DecodeError>) {
        let ghost s = old(r).data();
        let ghost p0 = old(r).pos();
        let base_flags = match r.read_u32() {
            Ok(v) => v,
            Err(e) => {
                proof {
                    assert(spec_parse_atomic_mesh(s, p0) == Err::<(AtomicMesh, int), DecodeError>(e));
                    assert(<AtomicMesh as Decode<NoCtx>>::spec_parse(s, p0, NoCtx) == spec_parse_atomic_mesh(s, p0));
                }
                return Err(e);
            },
        };
        let flags = match r.read_u32() {
            Ok(v) => v,
            Err(e) => {
                proof {
                    assert(spec_parse_atomic_mesh(s, p0) == Err::<(AtomicMesh, int), DecodeError>(e));
                    assert(<AtomicMesh as Decode<NoCtx>>::spec_parse(s, p0, NoCtx) == spec_parse_atomic_mesh(s, p0));
                }
                return Err(e);
            },
        };
        let name_hash = match r.read_u32() {
            Ok(v) => v,
            Err(e) => {
                proof {
                    assert(spec_parse_atomic_mesh(s, p0) == Err::<(AtomicMesh, int), DecodeError>(e));
                    assert(<AtomicMesh as Decode<NoCtx>>::spec_parse(s, p0, NoCtx) == spec_parse_atomic_mesh(s, p0));
                }
                return Err(e);
            },
        };
        let has_mesh = match r.read_bool() {
            Ok(v) => v,
            Err(e) => {
                proof {
                    assert(spec_parse_atomic_mesh(s, p0) == Err::<(AtomicMesh, int), DecodeError>(e));
                    assert(<AtomicMesh as Decode<NoCtx>>::spec_parse(s, p0, NoCtx) == spec_parse_atomic_mesh(s, p0));
                }
                return Err(e);
            },
        };
        let out = AtomicMesh {
            base_flags,
            flags,
            name_hash,
            has_mesh,
        };
        proof {
            assert(spec_parse_atomic_mesh(s, p0) == Ok::<(AtomicMesh, int), DecodeError>((out.deep_view(), r.pos())));
            assert(<AtomicMesh as Decode<NoCtx>>::spec_parse(s, p0, NoCtx) == spec_parse_atomic_mesh(s, p0));
        }
        Ok(out)
    }
}

} // verus!
