//! The collision tree record.

use vstd::prelude::*;

use crate::decode::{Decode, DecodeError, NoCtx, PositionTracker, decode_vec_n, lemma_parse_n_bounds, spec_parse_n, spec_parse_u16, spec_parse_u32};
use crate::algebra::{QuantizedPlane, spec_parse_quantized_plane};

verus! {

/// A collision tree: three counts up front, then the three runs.
#[derive(Clone, Debug, PartialEq, Eq)]
pub struct Collision {
    pub faces: Vec<Leaf>,
    pub leaves: Vec<u32>,
    pub branches: Vec<Branch>,
}

pub struct CollisionView {
    pub faces: Seq<Leaf>,
    pub leaves: Seq<u32>,
    pub branches: Seq<Branch>,
}

impl DeepView for Collision {
    type V = CollisionView;

    open spec fn deep_view(&self) -> CollisionView {
        CollisionView {
            faces: self.faces.deep_view(),
            leaves: self.leaves.deep_view(),
            branches: self.branches.deep_view(),
        }
    }
}

pub open spec fn spec_parse_collision(s: Seq<u8>, pos: int) -> Result<(CollisionView, int), DecodeError> {
    match spec_parse_u32(s, pos) {
        Err(e) => Err(e),
        Ok((face_count, pos)) => {
            match spec_parse_u32(s, pos) {
                Err(e) => Err(e),
                Ok((leaf_count, pos)) => {
                    match spec_parse_u32(s, pos) {
                        Err(e) => Err(e),
                        Ok((branch_count, pos)) => {
                            match spec_parse_n::<NoCtx, Leaf>(s, pos, face_count as nat, NoCtx) {
                                Err(e) => Err(e),
                                Ok((faces, pos)) => {
                                    match spec_parse_n::<NoCtx, u32>(s, pos, leaf_count as nat, NoCtx) {
                                        Err(e) => Err(e),
                                        Ok((leaves, pos)) => {
                                            match spec_parse_n::<NoCtx, Branch>(s, pos, branch_count as nat, NoCtx) {
                                                Err(e) => Err(e),
                                                Ok((branches, pos)) => {
                                                    Ok((
                                                        CollisionView {
                                                            faces: faces,
                                                            leaves: leaves,
                                                            branches: branches,
                                                        },
                                                        pos,
                                                    ))
                                                },
                                            }
                                        },
                                    }
                                },
                            }
                        },
                    }
                },
            }
        },
    }
}

impl Decode<NoCtx> for Collision {
    open spec fn spec_parse(s: Seq<u8>, pos: int, c: NoCtx) -> Result<(CollisionView, int), DecodeError> {
        spec_parse_collision(s, pos)
    }

    proof fn parse_bounds(s: Seq<u8>, pos: int, c: NoCtx) {
            match spec_parse_u32(s, pos) {
                Err(_) => {},
                Ok((face_count, pos)) => {
                    match spec_parse_u32(s, pos) {
                        Err(_) => {},
                        Ok((leaf_count, pos)) => {
                            match spec_parse_u32(s, pos) {
                                Err(_) => {},
                                Ok((branch_count, pos)) => {
                                    lemma_parse_n_bounds::<NoCtx, Leaf>(s, pos, face_count as nat, NoCtx);
                                    match spec_parse_n::<NoCtx, Leaf>(s, pos, face_count as nat, NoCtx) {
                                        Err(_) => {},
                                        Ok((faces, pos)) => {
                                            lemma_parse_n_bounds::<NoCtx, u32>(s, pos, leaf_count as nat, NoCtx);
                                            match spec_parse_n::<NoCtx, u32>(s, pos, leaf_count as nat, NoCtx) {
                                                Err(_) => {},
                                                Ok((leaves, pos)) => {
                                                    lemma_parse_n_bounds::<NoCtx, Branch>(s, pos, branch_count as nat, NoCtx);
                                                    match spec_parse_n::<NoCtx, Branch>(s, pos, branch_count as nat, NoCtx) {
                                                        Err(_) => {},
                                                        Ok((branches, pos)) => {
                                                        },
                                                    }
                                                },
                                            }
                                        },
                                    }
                                },
                            }
                        },
                    }
                },
            }
    }

    fn decode(r: &mut PositionTracker, c: NoCtx) -> (res: Result<Collision, DecodeError>) {
        let ghost s = old(r).data();
        let ghost p0 = old(r).pos();
        let face_count = match r.read_u32() {
            Ok(v) => v,
            Err(e) => {
                proof {
                    assert(spec_parse_collision(s, p0) == Err::<(CollisionView, int), DecodeError>(e));
                    assert(<Collision as Decode<NoCtx>>::spec_parse(s, p0, NoCtx) == spec_parse_collision(s, p0));
                }
                return Err(e);
            },
        };
        let leaf_count = match r.read_u32() {
            Ok(v) => v,
            Err(e) => {
                proof {
                    assert(spec_parse_collision(s, p0) == Err::<(CollisionView, int), DecodeError>(e));
                    assert(<Collision as Decode<NoCtx>>::spec_parse(s, p0, NoCtx) == spec_parse_collision(s, p0));
                }
                return Err(e);
            },
        };
        let branch_count = match r.read_u32() {
            Ok(v) => v,
            Err(e) => {
                proof {
                    assert(spec_parse_collision(s, p0) == Err::<(CollisionView, int), DecodeError>(e));
                    assert(<Collision as Decode<NoCtx>>::spec_parse(s, p0, NoCtx) == spec_parse_collision(s, p0));
                }
                return Err(e);
            },
        };
        let faces = match decode_vec_n::<NoCtx, Leaf>(r, face_count as u64, NoCtx) {
            Ok(v) => v,
            Err(e) => {
                proof {
                    assert(spec_parse_collision(s, p0) == Err::<(CollisionView, int), DecodeError>(e));
                    assert(<Collision as Decode<NoCtx>>::spec_parse(s, p0, NoCtx) == spec_parse_collision(s, p0));
                }
                return Err(e);
            },
        };
        let leaves = match decode_vec_n::<NoCtx, u32>(r, leaf_count as u64, NoCtx) {
            Ok(v) => v,
            Err(e) => {
                proof {
                    assert(spec_parse_collision(s, p0) == Err::<(CollisionView, int), DecodeError>(e));
                    assert(<Collision as Decode<NoCtx>>::spec_parse(s, p0, NoCtx) == spec_parse_collision(s, p0));
                }
                return Err(e);
            },
        };
        let branches = match decode_vec_n::<NoCtx, Branch>(r, branch_count as u64, NoCtx) {
            Ok(v) => v,
            Err(e) => {
                proof {
                    assert(spec_parse_collision(s, p0) == Err::<(CollisionView, int), DecodeError>(e));
                    assert(<Collision as Decode<NoCtx>>::spec_parse(s, p0, NoCtx) == spec_parse_collision(s, p0));
                }
                return Err(e);
            },
        };
        let out = Collision {
            faces,
            leaves,
            branches,
        };
        proof {
            assert(spec_parse_collision(s, p0) == Ok::<(CollisionView, int), DecodeError>((out.deep_view(), r.pos())));
            assert(<Collision as Decode<NoCtx>>::spec_parse(s, p0, NoCtx) == spec_parse_collision(s, p0));
        }
        Ok(out)
    }
}

#[derive(Clone, Copy, Debug, PartialEq, Eq, Structural)]
pub struct Leaf {
    pub plane: QuantizedPlane,
    pub material_block_index: u16,
    pub face_index: u16,
}

impl DeepView for Leaf {
    type V = Leaf;

    open spec fn deep_view(&self) -> Leaf {
        *self
    }
}

pub open spec fn spec_parse_leaf(s: Seq<u8>, pos: int) -> Result<(Leaf, int), DecodeError> {
    match spec_parse_quantized_plane(s, pos) {
        Err(e) => Err(e),
        Ok((plane, pos)) => {
            match spec_parse_u16(s, pos) {
                Err(e) => Err(e),
                Ok((material_block_index, pos)) => {
                    match spec_parse_u16(s, pos) {
                        Err(e) => Err(e),
                        Ok((face_index, pos)) => {
                            Ok((
                                Leaf {
                                    plane: plane,
                                    material_block_index: material_block_index,
                                    face_index: face_index,
                                },
                                pos,
                            ))
                        },
                    }
                },
            }
        },
    }
}

impl Decode<NoCtx> for Leaf {
    open spec fn spec_parse(s: Seq<u8>, pos: int, c: NoCtx) -> Result<(Leaf, int), DecodeError> {
        spec_parse_leaf(s, pos)
    }

    proof fn parse_bounds(s: Seq<u8>, pos: int, c: NoCtx) {
    }

    fn decode(r: &mut PositionTracker, c: NoCtx) -> (res: Result<Leaf, DecodeError>) {
        let ghost s = old(r).data();
        let ghost p0 = old(r).pos();
        let plane = match QuantizedPlane::decode(r, NoCtx) {
            Ok(v) => v,
            Err(e) => {
                proof {
                    assert(spec_parse_leaf(s, p0) == Err::<(Leaf, int), DecodeError>(e));
                    assert(<Leaf as Decode<NoCtx>>::spec_parse(s, p0, NoCtx) == spec_parse_leaf(s, p0));
                }
                return Err(e);
            },
        };
        let material_block_index = match r.read_u16() {
            Ok(v) => v,
            Err(e) => {
                proof {
                    assert(spec_parse_leaf(s, p0) == Err::<(Leaf, int), DecodeError>(e));
                    assert(<Leaf as Decode<NoCtx>>::spec_parse(s, p0, NoCtx) == spec_parse_leaf(s, p0));
                }
                return Err(e);
            },
        };
        let face_index = match r.read_u16() {
            Ok(v) => v,
            Err(e) => {
                proof {
                    assert(spec_parse_leaf(s, p0) == Err::<(Leaf, int), DecodeError>(e));
                    assert(<Leaf as Decode<NoCtx>>::spec_parse(s, p0, NoCtx) == spec_parse_leaf(s, p0));
                }
                return Err(e);
            },
        };
        let out = Leaf {
            plane,
            material_block_index,
            face_index,
        };
        proof {
            assert(spec_parse_leaf(s, p0) == Ok::<(Leaf, int), DecodeError>((out.deep_view(), r.pos())));
            assert(<Leaf as Decode<NoCtx>>::spec_parse(s, p0, NoCtx) == spec_parse_leaf(s, p0));
        }
        Ok(out)
    }
}

#[derive(Clone, Copy, Debug, PartialEq, Eq, Structural)]
pub struct Branch {
    pub plane: QuantizedPlane,
    pub index: u32,
}

impl DeepView for Branch {
    type V = Branch;

    open spec fn deep_view(&self) -> Branch {
        *self
    }
}

pub open spec fn spec_parse_branch(s: Seq<u8>, pos: int) -> Result<(Branch, int), DecodeError> {
    match spec_parse_quantized_plane(s, pos) {
        Err(e) => Err(e),
        Ok((plane, pos)) => {
            match spec_parse_u32(s, pos) {
                Err(e) => Err(e),
                Ok((index, pos)) => {
                    Ok((
                        Branch {
                            plane: plane,
                            index: index,
                        },
                        pos,
                    ))
                },
            }
        },
    }
}

impl Decode<NoCtx> for Branch {
    open spec fn spec_parse(s: Seq<u8>, pos: int, c: NoCtx) -> Result<(Branch, int), DecodeError> {
        spec_parse_branch(s, pos)
    }

    proof fn parse_bounds(s: Seq<u8>, pos: int, c: NoCtx) {
    }

    fn decode(r: &mut PositionTracker, c: NoCtx) -> (res: Result<Branch, DecodeError>) {
        let ghost s = old(r).data();
        let ghost p0 = old(r).pos();
        let plane = match QuantizedPlane::decode(r, NoCtx) {
            Ok(v) => v,
            Err(e) => {
                proof {
                    assert(spec_parse_branch(s, p0) == Err::<(Branch, int), DecodeError>(e));
                    assert(<Branch as Decode<NoCtx>>::spec_parse(s, p0, NoCtx) == spec_parse_branch(s, p0));
                }
                return Err(e);
            },
        };
        let index = match r.read_u32() {
            Ok(v) => v,
            Err(e) => {
                proof {
                    assert(spec_parse_branch(s, p0) == Err::<(Branch, int), DecodeError>(e));
                    assert(<Branch as Decode<NoCtx>>::spec_parse(s, p0, NoCtx) == spec_parse_branch(s, p0));
                }
                return Err(e);
            },
        };
        let out = Branch {
            plane,
            index,
        };
        proof {
            assert(spec_parse_branch(s, p0) == Ok::<(Branch, int), DecodeError>((out.deep_view(), r.pos())));
            assert(<Branch as Decode<NoCtx>>::spec_parse(s, p0, NoCtx) == spec_parse_branch(s, p0));
        }
        Ok(out)
    }
}

} // verus!
