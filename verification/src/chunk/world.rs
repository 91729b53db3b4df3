//! The world record.

use vstd::prelude::*;

use crate::decode::{Decode, DecodeError, NoCtx, PositionTracker, spec_parse_bool, spec_parse_i32, spec_parse_sequence, spec_parse_u32};
use crate::color::{Rgb, Rgba, spec_parse_rgb, spec_rgba_from_rgb};
use crate::bounding_box::{BoundingBox, spec_parse_bounding_box};

verus! {

/// The singleton world record; its zone count is the cross-record state a later zone-set record depends on.
#[derive(Clone, Debug, PartialEq, Eq)]
pub struct World {
    pub flags: u32,
    pub ambient: Rgba,
    pub floors: Vec<Floor>,
    pub zone_count: i32,
    pub have_occlusion_bsp: bool,
    pub have_nulls: bool,
    pub have_waypoints: bool,
    pub have_mesh: bool,
}

pub struct WorldView {
    pub flags: u32,
    pub ambient: Rgba,
    pub floors: Seq<Floor>,
    pub zone_count: i32,
    pub have_occlusion_bsp: bool,
    pub have_nulls: bool,
    pub have_waypoints: bool,
    pub have_mesh: bool,
}

impl DeepView for World {
    type V = WorldView;

    open spec fn deep_view(&self) -> WorldView {
        WorldView {
            flags: self.flags,
            ambient: self.ambient,
            floors: self.floors.deep_view(),
            zone_count: self.zone_count,
            have_occlusion_bsp: self.have_occlusion_bsp,
            have_nulls: self.have_nulls,
            have_waypoints: self.have_waypoints,
            have_mesh: self.have_mesh,
        }
    }
}

pub open spec fn spec_parse_world(s: Seq<u8>, pos: int) -> Result<(WorldView, int), DecodeError> {
    match spec_parse_u32(s, pos) {
        Err(e) => Err(e),
        Ok((flags, pos)) => {
            match spec_parse_rgb(s, pos) {
                Err(e) => Err(e),
                Ok((ambient, pos)) => {
                    match spec_parse_sequence::<NoCtx, Floor>(s, pos, NoCtx) {
                        Err(e) => Err(e),
                        Ok((floors, pos)) => {
                            match spec_parse_i32(s, pos) {
                                Err(e) => Err(e),
                                Ok((zone_count, pos)) => {
                                    match spec_parse_bool(s, pos) {
                                        Err(e) => Err(e),
                                        Ok((have_occlusion_bsp, pos)) => {
                                            match spec_parse_bool(s, pos) {
                                                Err(e) => Err(e),
                                                Ok((have_nulls, pos)) => {
                                                    match spec_parse_bool(s, pos) {
                                                        Err(e) => Err(e),
                                                        Ok((have_waypoints, pos)) => {
                                                            match spec_parse_bool(s, pos) {
                                                                Err(e) => Err(e),
                                                                Ok((have_mesh, pos)) => {
                                                                    Ok((
                                                                        WorldView {
                                                                            flags: flags,
                                                                            ambient: spec_rgba_from_rgb(ambient),
                                                                            floors: floors,
                                                                            zone_count: zone_count,
                                                                            have_occlusion_bsp: have_occlusion_bsp,
                                                                            have_nulls: have_nulls,
                                                                            have_waypoints: have_waypoints,
                                                                            have_mesh: have_mesh,
                                                                        },
                                                                        pos,
                                                                    ))
                                                                },
                                                            }
                                                        },
                                                    }
                                                },
                                            }
                                        },
                                    }
                                },
                            }
                        },
                    }
                },
            }
        },
    }
}

impl Decode<NoCtx> for World {
    open spec fn spec_parse(s: Seq<u8>, pos: int, c: NoCtx) -> Result<(WorldView, int), DecodeError> {
        spec_parse_world(s, pos)
    }

    proof fn parse_bounds(s: Seq<u8>, pos: int, c: NoCtx) {
            match spec_parse_u32(s, pos) {
                Err(_) => {},
                Ok((flags, pos)) => {
                    match spec_parse_rgb(s, pos) {
                        Err(_) => {},
                        Ok((ambient, pos)) => {
                            <Vec<Floor> as Decode<NoCtx>>::parse_bounds(s, pos, NoCtx);
                            match spec_parse_sequence::<NoCtx, Floor>(s, pos, NoCtx) {
                                Err(_) => {},
                                Ok((floors, pos)) => {
                                },
                            }
                        },
                    }
                },
            }
    }

    fn decode(r: &mut PositionTracker, c: NoCtx) -> (res: Result<World, DecodeError>) {
        let ghost s = old(r).data();
        let ghost p0 = old(r).pos();
        let flags = match r.read_u32() {
            Ok(v) => v,
            Err(e) => {
                proof {
                    assert(spec_parse_world(s, p0) == Err::<(WorldView, int), DecodeError>(e));
                    assert(<World as Decode<NoCtx>>::spec_parse(s, p0, NoCtx) == spec_parse_world(s, p0));
                }
                return Err(e);
            },
        };
        let ambient = match Rgb::decode(r, NoCtx) {
            Ok(v) => v,
            Err(e) => {
                proof {
                    assert(spec_parse_world(s, p0) == Err::<(WorldView, int), DecodeError>(e));
                    assert(<World as Decode<NoCtx>>::spec_parse(s, p0, NoCtx) == spec_parse_world(s, p0));
                }
                return Err(e);
            },
        };
        let floors = match Vec::<Floor>::decode(r, NoCtx) {
            Ok(v) => v,
            Err(e) => {
                proof {
                    assert(spec_parse_world(s, p0) == Err::<(WorldView, int), DecodeError>(e));
                    assert(<World as Decode<NoCtx>>::spec_parse(s, p0, NoCtx) == spec_parse_world(s, p0));
                }
                return Err(e);
            },
        };
        let zone_count = match r.read_i32() {
            Ok(v) => v,
            Err(e) => {
                proof {
                    assert(spec_parse_world(s, p0) == Err::<(WorldView, int), DecodeError>(e));
                    assert(<World as Decode<NoCtx>>::spec_parse(s, p0, NoCtx) == spec_parse_world(s, p0));
                }
                return Err(e);
            },
        };
        let have_occlusion_bsp = match r.read_bool() {
            Ok(v) => v,
            Err(e) => {
                proof {
                    assert(spec_parse_world(s, p0) == Err::<(WorldView, int), DecodeError>(e));
                    assert(<World as Decode<NoCtx>>::spec_parse(s, p0, NoCtx) == spec_parse_world(s, p0));
                }
                return Err(e);
            },
        };
        let have_nulls = match r.read_bool() {
            Ok(v) => v,
            Err(e) => {
                proof {
                    assert(spec_parse_world(s, p0) == Err::<(WorldView, int), DecodeError>(e));
                    assert(<World as Decode<NoCtx>>::spec_parse(s, p0, NoCtx) == spec_parse_world(s, p0));
                }
                return Err(e);
            },
        };
        let have_waypoints = match r.read_bool() {
            Ok(v) => v,
            Err(e) => {
                proof {
                    assert(spec_parse_world(s, p0) == Err::<(WorldView, int), DecodeError>(e));
                    assert(<World as Decode<NoCtx>>::spec_parse(s, p0, NoCtx) == spec_parse_world(s, p0));
                }
                return Err(e);
            },
        };
        let have_mesh = match r.read_bool() {
            Ok(v) => v,
            Err(e) => {
                proof {
                    assert(spec_parse_world(s, p0) == Err::<(WorldView, int), DecodeError>(e));
                    assert(<World as Decode<NoCtx>>::spec_parse(s, p0, NoCtx) == spec_parse_world(s, p0));
                }
                return Err(e);
            },
        };
        let out = World {
            flags,
            ambient: Rgba::from_rgb(ambient),
            floors,
            zone_count,
            have_occlusion_bsp,
            have_nulls,
            have_waypoints,
            have_mesh,
        };
        proof {
            assert(spec_parse_world(s, p0) == Ok::<(WorldView, int), DecodeError>((out.deep_view(), r.pos())));
            assert(<World as Decode<NoCtx>>::spec_parse(s, p0, NoCtx) == spec_parse_world(s, p0));
        }
        Ok(out)
    }
}

#[derive(Clone, Copy, Debug, PartialEq, Eq, Structural)]
pub struct Floor {
    pub occlusion_bsp: u32,
    pub ghost_camera: BoundingBox,
}

impl DeepView for Floor {
    type V = Floor;

    open spec fn deep_view(&self) -> Floor {
        *self
    }
}

pub open spec fn spec_parse_floor(s: Seq<u8>, pos: int) -> Result<(Floor, int), DecodeError> {
    match spec_parse_u32(s, pos) {
        Err(e) => Err(e),
        Ok((occlusion_bsp, pos)) => {
            match spec_parse_bounding_box(s, pos) {
                Err(e) => Err(e),
                Ok((ghost_camera, pos)) => {
                    Ok((
                        Floor {
                            occlusion_bsp: occlusion_bsp,
                            ghost_camera: ghost_camera,
                        },
                        pos,
                    ))
                },
            }
        },
    }
}

impl Decode<NoCtx> for Floor {
    open spec fn spec_parse(s: Seq<u8>, pos: int, c: NoCtx) -> Result<(Floor, int), DecodeError> {
        spec_parse_floor(s, pos)
    }

    proof fn parse_bounds(s: Seq<u8>, pos: int, c: NoCtx) {
    }

    fn decode(r: &mut PositionTracker, c: NoCtx) -> (res: Result<Floor, DecodeError>) {
        let ghost s = old(r).data();
        let ghost p0 = old(r).pos();
        let occlusion_bsp = match r.read_u32() {
            Ok(v) => v,
            Err(e) => {
                proof {
                    assert(spec_parse_floor(s, p0) == Err::<(Floor, int), DecodeError>(e));
                    assert(<Floor as Decode<NoCtx>>::spec_parse(s, p0, NoCtx) == spec_parse_floor(s, p0));
                }
                return Err(e);
            },
        };
        let ghost_camera = match BoundingBox::decode(r, NoCtx) {
            Ok(v) => v,
            Err(e) => {
                proof {
                    assert(spec_parse_floor(s, p0) == Err::<(Floor, int), DecodeError>(e));
                    assert(<Floor as Decode<NoCtx>>::spec_parse(s, p0, NoCtx) == spec_parse_floor(s, p0));
                }
                return Err(e);
            },
        };
        let out = Floor {
            occlusion_bsp,
            ghost_camera,
        };
        proof {
            assert(spec_parse_floor(s, p0) == Ok::<(Floor, int), DecodeError>((out.deep_view(), r.pos())));
            assert(<Floor as Decode<NoCtx>>::spec_parse(s, p0, NoCtx) == spec_parse_floor(s, p0));
        }
        Ok(out)
    }
}

} // verus!

verus! {

/// Copies a run of floors element by element.
fn copy_floors(floors: &Vec<Floor>) -> (r: Vec<Floor>)
    ensures
        r@ == floors@,
{
    let mut out: Vec<Floor> = Vec::new();
    let mut i: usize = 0;
    while i < floors.len()
        invariant
            i <= floors.len(),
            out@ =~= floors@.take(i as int),
        decreases floors.len() - i,
    {
        out.push(floors[i]);
        proof {
            assert(out@ =~= floors@.take((i + 1) as int));
        }
        i = i + 1;
    }
    proof {
        assert(floors@.take(floors@.len() as int) =~= floors@);
    }
    out
}

impl World {
    /// An explicit structural copy.  The world record is the one piece of
    /// state carried across records, so the dispatch loop keeps its own
    /// copy of the most recent one.
    pub fn duplicate(&self) -> (r: World)
        ensures
            r.deep_view() == self.deep_view(),
    {
        World {
            flags: self.flags,
            ambient: self.ambient,
            floors: copy_floors(&self.floors),
            zone_count: self.zone_count,
            have_occlusion_bsp: self.have_occlusion_bsp,
            have_nulls: self.have_nulls,
            have_waypoints: self.have_waypoints,
            have_mesh: self.have_mesh,
        }
    }
}

} // verus!
