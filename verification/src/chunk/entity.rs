//! The entity record.

use vstd::prelude::*;

use crate::decode::{Decode, DecodeError, NoCtx, PositionTracker, spec_parse_i32, spec_parse_str_plain, spec_parse_u32};
use crate::algebra::{Matrix, spec_parse_matrix};

verus! {

#[derive(Clone, Debug, PartialEq, Eq)]
pub struct Entity {
    pub entity_type: u32,
    pub matrix: Matrix,
    pub action_points_count: i32,
    pub name: Vec<u8>,
}

pub struct EntityView {
    pub entity_type: u32,
    pub matrix: Matrix,
    pub action_points_count: i32,
    pub name: Seq<u8>,
}

impl DeepView for Entity {
    type V = EntityView;

    open spec fn deep_view(&self) -> EntityView {
        EntityView {
            entity_type: self.entity_type,
            matrix: self.matrix,
            action_points_count: self.action_points_count,
            name: self.name@,
        }
    }
}

pub open spec fn spec_parse_entity(s: Seq<u8>, pos: int) -> Result<(EntityView, int), DecodeError> {
    match spec_parse_u32(s, pos) {
        Err(e) => Err(e),
        Ok((entity_type, pos)) => {
            match spec_parse_matrix(s, pos) {
                Err(e) => Err(e),
                Ok((matrix, pos)) => {
                    match spec_parse_i32(s, pos) {
                        Err(e) => Err(e),
                        Ok((action_points_count, pos)) => {
                            match spec_parse_str_plain(s, pos) {
                                Err(e) => Err(e),
                                Ok((name, pos)) => {
                                    Ok((
                                        EntityView {
                                            entity_type: entity_type,
                                            matrix: matrix,
                                            action_points_count: action_points_count,
                                            name: name,
                                        },
                                        pos,
                                    ))
                                },
                            }
                        },
                    }
                },
            }
        },
    }
}

impl Decode<NoCtx> for Entity {
    open spec fn spec_parse(s: Seq<u8>, pos: int, c: NoCtx) -> Result<(EntityView, int), DecodeError> {
        spec_parse_entity(s, pos)
    }

    proof fn parse_bounds(s: Seq<u8>, pos: int, c: NoCtx) {
    }

    fn decode(r: &mut PositionTracker, c: NoCtx) -> (res: Result<Entity, DecodeError>) {
        let ghost s = old(r).data();
        let ghost p0 = old(r).pos();
        let entity_type = match r.read_u32() {
            Ok(v) => v,
            Err(e) => {
                proof {
                    assert(spec_parse_entity(s, p0) == Err::<(EntityView, int), DecodeError>(e));
                    assert(<Entity as Decode<NoCtx>>::spec_parse(s, p0, NoCtx) == spec_parse_entity(s, p0));
                }
                return Err(e);
            },
        };
        let matrix = match Matrix::decode(r, NoCtx) {
            Ok(v) => v,
            Err(e) => {
                proof {
                    assert(spec_parse_entity(s, p0) == Err::<(EntityView, int), DecodeError>(e));
                    assert(<Entity as Decode<NoCtx>>::spec_parse(s, p0, NoCtx) == spec_parse_entity(s, p0));
                }
                return Err(e);
            },
        };
        let action_points_count = match r.read_i32() {
            Ok(v) => v,
            Err(e) => {
                proof {
                    assert(spec_parse_entity(s, p0) == Err::<(EntityView, int), DecodeError>(e));
                    assert(<Entity as Decode<NoCtx>>::spec_parse(s, p0, NoCtx) == spec_parse_entity(s, p0));
                }
                return Err(e);
            },
        };
        let name = match r.read_string() {
            Ok(v) => v,
            Err(e) => {
                proof {
                    assert(spec_parse_entity(s, p0) == Err::<(EntityView, int), DecodeError>(e));
                    assert(<Entity as Decode<NoCtx>>::spec_parse(s, p0, NoCtx) == spec_parse_entity(s, p0));
                }
                return Err(e);
            },
        };
        let out = Entity {
            entity_type,
            matrix,
            action_points_count,
            name,
        };
        proof {
            assert(spec_parse_entity(s, p0) == Ok::<(EntityView, int), DecodeError>((out.deep_view(), r.pos())));
            assert(<Entity as Decode<NoCtx>>::spec_parse(s, p0, NoCtx) == spec_parse_entity(s, p0));
        }
        Ok(out)
    }
}

} // verus!
