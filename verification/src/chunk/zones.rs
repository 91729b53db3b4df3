//! The zone-set record.  The record itself carries no count for its zone
//! list; the count comes from the most recently decoded world record, the
//! one piece of state threaded across records.

use vstd::prelude::*;

use crate::bounding_box::{spec_parse_bounding_box, BoundingBox};
use crate::decode::{
    decode_vec_n, lemma_parse_n_bounds, spec_parse_n, spec_parse_sequence, spec_parse_u32, Decode,
    DecodeError, NoCtx, PositionTracker,
};

verus! {

/// First format version whose zone records carry a zone-top field.
pub const ZONE_TOP_VERSION: i32 = 0x666 + 0x3C;

#[derive(Clone, Copy, Debug, PartialEq, Eq)]
pub struct Zone {
    pub bounding_box: BoundingBox,
    pub hash: u32,
    pub ngon_index: u32,
    pub spline_index: u32,
    pub clump_index: u32,
    pub floor_flags: u32,
    pub zone_top: Option<u32>,
}

impl DeepView for Zone {
    type V = Zone;

    open spec fn deep_view(&self) -> Zone {
        *self
    }
}

/// The decoding context is the format version from the record's header.
pub open spec fn spec_parse_zone(s: Seq<u8>, pos: int, version: i32) -> Result<
    (Zone, int),
    DecodeError,
> {
    match spec_parse_bounding_box(s, pos) {
        Err(e) => Err(e),
        Ok((bounding_box, pos)) => match spec_parse_u32(s, pos) {
            Err(e) => Err(e),
            Ok((hash, pos)) => match spec_parse_u32(s, pos) {
                Err(e) => Err(e),
                Ok((ngon_index, pos)) => match spec_parse_u32(s, pos) {
                    Err(e) => Err(e),
                    Ok((spline_index, pos)) => match spec_parse_u32(s, pos) {
                        Err(e) => Err(e),
                        Ok((clump_index, pos)) => match spec_parse_u32(s, pos) {
                            Err(e) => Err(e),
                            Ok((floor_flags, pos)) => if version >= ZONE_TOP_VERSION {
                                match spec_parse_u32(s, pos) {
                                    Err(e) => Err(e),
                                    Ok((zone_top, pos)) => Ok(
                                        (
                                            Zone {
                                                bounding_box,
                                                hash,
                                                ngon_index,
                                                spline_index,
                                                clump_index,
                                                floor_flags,
                                                zone_top: Some(zone_top),
                                            },
                                            pos,
                                        ),
                                    ),
                                }
                            } else {
                                Ok(
                                    (
                                        Zone {
                                            bounding_box,
                                            hash,
                                            ngon_index,
                                            spline_index,
                                            clump_index,
                                            floor_flags,
                                            zone_top: None,
                                        },
                                        pos,
                                    ),
                                )
                            },
                        },
                    },
                },
            },
        },
    }
}

impl Decode<i32> for Zone {
    open spec fn spec_parse(s: Seq<u8>, pos: int, c: i32) -> Result<(Zone, int), DecodeError> {
        spec_parse_zone(s, pos, c)
    }

    proof fn parse_bounds(s: Seq<u8>, pos: int, c: i32) {
    }

    fn decode(r: &mut PositionTracker, c: i32) -> (res: Result<Zone, DecodeError>) {
        let ghost s = old(r).data();
        let ghost p0 = old(r).pos();
        let bounding_box = match BoundingBox::decode(r, NoCtx) {
            Ok(v) => v,
            Err(e) => {
                proof {
                    assert(spec_parse_zone(s, p0, c) == Err::<(Zone, int), DecodeError>(e));
                }
                return Err(e);
            },
        };
        let hash = match r.read_u32() {
            Ok(v) => v,
            Err(e) => {
                proof {
                    assert(spec_parse_zone(s, p0, c) == Err::<(Zone, int), DecodeError>(e));
                }
                return Err(e);
            },
        };
        let ngon_index = match r.read_u32() {
            Ok(v) => v,
            Err(e) => {
                proof {
                    assert(spec_parse_zone(s, p0, c) == Err::<(Zone, int), DecodeError>(e));
                }
                return Err(e);
            },
        };
        let spline_index = match r.read_u32() {
            Ok(v) => v,
            Err(e) => {
                proof {
                    assert(spec_parse_zone(s, p0, c) == Err::<(Zone, int), DecodeError>(e));
                }
                return Err(e);
            },
        };
        let clump_index = match r.read_u32() {
            Ok(v) => v,
            Err(e) => {
                proof {
                    assert(spec_parse_zone(s, p0, c) == Err::<(Zone, int), DecodeError>(e));
                }
                return Err(e);
            },
        };
        let floor_flags = match r.read_u32() {
            Ok(v) => v,
            Err(e) => {
                proof {
                    assert(spec_parse_zone(s, p0, c) == Err::<(Zone, int), DecodeError>(e));
                }
                return Err(e);
            },
        };
        let zone_top = if c >= ZONE_TOP_VERSION {
            match r.read_u32() {
                Ok(v) => Some(v),
                Err(e) => {
                    proof {
                        assert(spec_parse_zone(s, p0, c) == Err::<(Zone, int), DecodeError>(e));
                    }
                    return Err(e);
                },
            }
        } else {
            None
        };
        let out = Zone {
            bounding_box,
            hash,
            ngon_index,
            spline_index,
            clump_index,
            floor_flags,
            zone_top,
        };
        proof {
            assert(spec_parse_zone(s, p0, c) == Ok::<(Zone, int), DecodeError>((out, r.pos())));
            assert(<Zone as Decode<i32>>::spec_parse(s, p0, c) == spec_parse_zone(s, p0, c));
        }
        Ok(out)
    }
}

#[derive(Clone, Debug, PartialEq, Eq)]
pub struct Zones {
    pub octant_connections: Vec<u32>,
    pub zones: Vec<Zone>,
}

pub struct ZonesView {
    pub octant_connections: Seq<u32>,
    pub zones: Seq<Zone>,
}

impl DeepView for Zones {
    type V = ZonesView;

    open spec fn deep_view(&self) -> ZonesView {
        ZonesView {
            octant_connections: self.octant_connections.deep_view(),
            zones: self.zones.deep_view(),
        }
    }
}

/// The number of zones actually read: a non-positive count from the world
/// record reads none.
pub open spec fn spec_zone_run_count(zone_count: i32) -> nat {
    if zone_count < 0 {
        0
    } else {
        zone_count as nat
    }
}

/// The context is the header's format version and the zone count taken
/// from the most recently decoded world record.
pub open spec fn spec_parse_zones(s: Seq<u8>, pos: int, version: i32, zone_count: i32) -> Result<
    (ZonesView, int),
    DecodeError,
> {
    match spec_parse_sequence::<NoCtx, u32>(s, pos, NoCtx) {
        Err(e) => Err(e),
        Ok((octant_connections, pos)) => match spec_parse_n::<i32, Zone>(
            s,
            pos,
            spec_zone_run_count(zone_count),
            version,
        ) {
            Err(e) => Err(e),
            Ok((zones, pos)) => Ok((ZonesView { octant_connections, zones }, pos)),
        },
    }
}

impl Zones {
    /// A successful parse ends inside the buffer without moving backwards.
    pub proof fn parse_bounds(s: Seq<u8>, pos: int, version: i32, zone_count: i32)
        ensures
            match spec_parse_zones(s, pos, version, zone_count) {
                Ok((v, p)) => 0 <= pos <= p <= s.len(),
                Err(_) => true,
            },
    {
        <Vec<u32> as Decode<NoCtx>>::parse_bounds(s, pos, NoCtx);
        match spec_parse_sequence::<NoCtx, u32>(s, pos, NoCtx) {
            Err(_) => {},
            Ok((octant_connections, pos2)) => {
                lemma_parse_n_bounds::<i32, Zone>(
                    s,
                    pos2,
                    spec_zone_run_count(zone_count),
                    version,
                );
            },
        }
    }

    pub fn decode(r: &mut PositionTracker, version: i32, zone_count: i32) -> (res: Result<
        Zones,
        DecodeError,
    >)
        requires
            old(r).wf(),
        ensures
            final(r).wf(),
            final(r).data() == old(r).data(),
            old(r).pos() <= final(r).pos(),
            match res {
                Ok(v) => spec_parse_zones(old(r).data(), old(r).pos(), version, zone_count)
                    == Ok::<(ZonesView, int), DecodeError>((v.deep_view(), final(r).pos())),
                Err(e) => spec_parse_zones(old(r).data(), old(r).pos(), version, zone_count)
                    == Err::<(ZonesView, int), DecodeError>(e),
            },
    {
        let ghost s = old(r).data();
        let ghost p0 = old(r).pos();
        let octant_connections = match Vec::<u32>::decode(r, NoCtx) {
            Ok(v) => v,
            Err(e) => {
                proof {
                    assert(spec_parse_zones(s, p0, version, zone_count) == Err::<
                        (ZonesView, int),
                        DecodeError,
                    >(e));
                }
                return Err(e);
            },
        };
        let n: u64 = if zone_count < 0 {
            0
        } else {
            zone_count as u64
        };
        let zones = match decode_vec_n::<i32, Zone>(r, n, version) {
            Ok(v) => v,
            Err(e) => {
                proof {
                    assert(spec_parse_zones(s, p0, version, zone_count) == Err::<
                        (ZonesView, int),
                        DecodeError,
                    >(e));
                }
                return Err(e);
            },
        };
        let out = Zones { octant_connections, zones };
        proof {
            assert(spec_parse_zones(s, p0, version, zone_count) == Ok::<
                (ZonesView, int),
                DecodeError,
            >((out.deep_view(), r.pos())));
        }
        Ok(out)
    }
}

} // verus!
