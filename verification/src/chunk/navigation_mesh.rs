//! The navigation-mesh record.  Waypoints are a counted run; the link list
//! is the one sentinel-terminated construct in the format: indices are read
//! until the all-ones sentinel appears, and the sentinel is consumed.

use vstd::prelude::*;

use crate::algebra::{spec_parse_vector3, Vector3};
use crate::decode::{
    decode_vec_n, lemma_parse_n_bounds, rem_bytes, spec_parse_i32, spec_parse_n, spec_parse_u32,
    Decode, DecodeError, NoCtx, PositionTracker,
};

verus! {

/// The waypoint index that ends a link list.
pub const LINK_SENTINEL: u32 = 0xFFFFFFFF;

#[derive(Clone, Copy, Debug, PartialEq, Eq, Structural)]
pub struct Waypoint {
    pub position: Vector3,
    pub flags: u32,
}

impl DeepView for Waypoint {
    type V = Waypoint;

    open spec fn deep_view(&self) -> Waypoint {
        *self
    }
}

pub open spec fn spec_parse_waypoint(s: Seq<u8>, pos: int) -> Result<(Waypoint, int), DecodeError> {
    match spec_parse_vector3(s, pos) {
        Err(e) => Err(e),
        Ok((position, pos)) => match spec_parse_u32(s, pos) {
            Err(e) => Err(e),
            Ok((flags, pos)) => Ok((Waypoint { position, flags }, pos)),
        },
    }
}

impl Decode<NoCtx> for Waypoint {
    open spec fn spec_parse(s: Seq<u8>, pos: int, c: NoCtx) -> Result<(Waypoint, int), DecodeError> {
        spec_parse_waypoint(s, pos)
    }

    proof fn parse_bounds(s: Seq<u8>, pos: int, c: NoCtx) {
    }

    fn decode(r: &mut PositionTracker, c: NoCtx) -> (res: Result<Waypoint, DecodeError>) {
        let ghost s = old(r).data();
        let ghost p0 = old(r).pos();
        let position = match Vector3::decode(r, NoCtx) {
            Ok(v) => v,
            Err(e) => {
                proof {
                    assert(spec_parse_waypoint(s, p0) == Err::<(Waypoint, int), DecodeError>(e));
                }
                return Err(e);
            },
        };
        let flags = match r.read_u32() {
            Ok(v) => v,
            Err(e) => {
                proof {
                    assert(spec_parse_waypoint(s, p0) == Err::<(Waypoint, int), DecodeError>(e));
                }
                return Err(e);
            },
        };
        let out = Waypoint { position, flags };
        proof {
            assert(spec_parse_waypoint(s, p0) == Ok::<(Waypoint, int), DecodeError>(
                (out, r.pos()),
            ));
            assert(<Waypoint as Decode<NoCtx>>::spec_parse(s, p0, NoCtx) == spec_parse_waypoint(
                s,
                p0,
            ));
        }
        Ok(out)
    }
}

#[derive(Clone, Copy, Debug, PartialEq, Eq, Structural)]
pub struct Link {
    pub waypoint_index: u32,
    pub flags: u32,
}

impl DeepView for Link {
    type V = Link;

    open spec fn deep_view(&self) -> Link {
        *self
    }
}

/// The sentinel-terminated link run: read an index; the sentinel ends the
/// run (and is consumed), any other index is followed by its flags word.
pub open spec fn spec_parse_links(s: Seq<u8>, pos: int) -> Result<(Seq<Link>, int), DecodeError>
    decreases rem_bytes(s, pos),
{
    match spec_parse_u32(s, pos) {
        Err(e) => Err(e),
        Ok((idx, pos2)) => if idx == LINK_SENTINEL {
            Ok((Seq::empty(), pos2))
        } else {
            match spec_parse_u32(s, pos2) {
                Err(e) => Err(e),
                Ok((flags, pos3)) => match spec_parse_links(s, pos3) {
                    Err(e) => Err(e),
                    Ok((rest, pos4)) => Ok(
                        (seq![Link { waypoint_index: idx, flags }] + rest, pos4),
                    ),
                },
            }
        },
    }
}

/// A successful link run ends inside the buffer.
pub proof fn lemma_parse_links_bounds(s: Seq<u8>, pos: int)
    ensures
        match spec_parse_links(s, pos) {
            Ok((links, p)) => 0 <= pos <= p <= s.len(),
            Err(_) => true,
        },
    decreases rem_bytes(s, pos),
{
    match spec_parse_u32(s, pos) {
        Err(_) => {},
        Ok((idx, pos2)) => {
            if idx != LINK_SENTINEL {
                match spec_parse_u32(s, pos2) {
                    Err(_) => {},
                    Ok((flags, pos3)) => {
                        lemma_parse_links_bounds(s, pos3);
                    },
                }
            }
        },
    }
}

/// A run that opens with the sentinel is empty and consumes exactly the
/// sentinel's four bytes.
pub proof fn lemma_links_sentinel(s: Seq<u8>, pos: int)
    requires
        spec_parse_u32(s, pos) == Ok::<(u32, int), DecodeError>((LINK_SENTINEL, pos + 4)),
    ensures
        spec_parse_links(s, pos) == Ok::<(Seq<Link>, int), DecodeError>((Seq::empty(), pos + 4)),
{
}

/// Reads links until the sentinel.
pub fn decode_links(r: &mut PositionTracker) -> (res: Result<Vec<Link>, DecodeError>)
    requires
        old(r).wf(),
    ensures
        final(r).wf(),
        final(r).data() == old(r).data(),
        old(r).pos() <= final(r).pos(),
        match res {
            Ok(v) => spec_parse_links(old(r).data(), old(r).pos()) == Ok::<
                (Seq<Link>, int),
                DecodeError,
            >((v.deep_view(), final(r).pos())),
            Err(e) => spec_parse_links(old(r).data(), old(r).pos()) == Err::<
                (Seq<Link>, int),
                DecodeError,
            >(e),
        },
{
    let ghost s = old(r).data();
    let ghost p0 = old(r).pos();
    let mut out: Vec<Link> = Vec::new();
    proof {
        assert(out.deep_view() =~= Seq::<Link>::empty());
    }
    loop
        invariant
            s == old(r).data(),
            p0 == old(r).pos(),
            r.wf(),
            r.data() == s,
            p0 <= r.pos(),
            forall|rest: Seq<Link>, p: int|
                spec_parse_links(s, r.pos()) == Ok::<(Seq<Link>, int), DecodeError>((rest, p))
                    ==> spec_parse_links(s, p0) == Ok::<(Seq<Link>, int), DecodeError>(
                    (out.deep_view() + rest, p),
                ),
            forall|e: DecodeError|
                spec_parse_links(s, r.pos()) == Err::<(Seq<Link>, int), DecodeError>(e)
                    ==> spec_parse_links(s, p0) == Err::<(Seq<Link>, int), DecodeError>(e),
        decreases rem_bytes(s, r.pos()),
    {
        let ghost ppre = r.pos();
        let idx = match r.read_u32() {
            Ok(v) => v,
            Err(e) => {
                proof {
                    assert(spec_parse_links(s, ppre) == Err::<(Seq<Link>, int), DecodeError>(e));
                }
                return Err(e);
            },
        };
        if idx == LINK_SENTINEL {
            proof {
                assert(spec_parse_links(s, ppre) == Ok::<(Seq<Link>, int), DecodeError>(
                    (Seq::empty(), r.pos()),
                ));
                assert(out.deep_view() + Seq::<Link>::empty() =~= out.deep_view());
            }
            return Ok(out);
        }
        let flags = match r.read_u32() {
            Ok(v) => v,
            Err(e) => {
                proof {
                    assert(spec_parse_links(s, ppre) == Err::<(Seq<Link>, int), DecodeError>(e));
                }
                return Err(e);
            },
        };
        let link = Link { waypoint_index: idx, flags };
        let ghost prev_out = out.deep_view();
        out.push(link);
        proof {
            assert(out.deep_view() =~= prev_out.push(link));
            assert forall|rest: Seq<Link>, p: int|
                spec_parse_links(s, r.pos()) == Ok::<(Seq<Link>, int), DecodeError>(
                    (rest, p),
                ) implies spec_parse_links(s, p0) == Ok::<(Seq<Link>, int), DecodeError>(
                (out.deep_view() + rest, p),
            ) by {
                assert(spec_parse_links(s, ppre) == Ok::<(Seq<Link>, int), DecodeError>(
                    (seq![link] + rest, p),
                ));
                assert(prev_out + (seq![link] + rest) =~= prev_out.push(link) + rest);
            }
        }
    }
}

#[derive(Clone, Debug, PartialEq, Eq)]
pub struct NavigationMesh {
    pub waypoints: Vec<Waypoint>,
    pub links: Vec<Link>,
}

pub struct NavigationMeshView {
    pub waypoints: Seq<Waypoint>,
    pub links: Seq<Link>,
}

impl DeepView for NavigationMesh {
    type V = NavigationMeshView;

    open spec fn deep_view(&self) -> NavigationMeshView {
        NavigationMeshView {
            waypoints: self.waypoints.deep_view(),
            links: self.links.deep_view(),
        }
    }
}

/// Two signed counts open the record; negative counts are rejected.  The
/// waypoints are a counted run, the links a sentinel-terminated run (the
/// link count is recorded on the wire but carries no information the run
/// itself does not).
pub open spec fn spec_parse_navigation_mesh(s: Seq<u8>, pos: int) -> Result<
    (NavigationMeshView, int),
    DecodeError,
> {
    match spec_parse_i32(s, pos) {
        Err(e) => Err(e),
        Ok((waypoint_count, pos)) => if waypoint_count < 0 {
            Err(DecodeError::ConversionFailure)
        } else {
            match spec_parse_i32(s, pos) {
                Err(e) => Err(e),
                Ok((link_count, pos)) => if link_count < 0 {
                    Err(DecodeError::ConversionFailure)
                } else {
                    match spec_parse_n::<NoCtx, Waypoint>(s, pos, waypoint_count as nat, NoCtx) {
                        Err(e) => Err(e),
                        Ok((waypoints, pos)) => match spec_parse_links(s, pos) {
                            Err(e) => Err(e),
                            Ok((links, pos)) => Ok(
                                (NavigationMeshView { waypoints, links }, pos),
                            ),
                        },
                    }
                },
            }
        },
    }
}

impl Decode<NoCtx> for NavigationMesh {
    open spec fn spec_parse(s: Seq<u8>, pos: int, c: NoCtx) -> Result<
        (NavigationMeshView, int),
        DecodeError,
    > {
        spec_parse_navigation_mesh(s, pos)
    }

    proof fn parse_bounds(s: Seq<u8>, pos: int, c: NoCtx) {
        match spec_parse_i32(s, pos) {
            Err(_) => {},
            Ok((waypoint_count, pos)) => {
                if waypoint_count >= 0 {
                    match spec_parse_i32(s, pos) {
                        Err(_) => {},
                        Ok((link_count, pos)) => {
                            if link_count >= 0 {
                                lemma_parse_n_bounds::<NoCtx, Waypoint>(
                                    s,
                                    pos,
                                    waypoint_count as nat,
                                    NoCtx,
                                );
                                match spec_parse_n::<NoCtx, Waypoint>(
                                    s,
                                    pos,
                                    waypoint_count as nat,
                                    NoCtx,
                                ) {
                                    Err(_) => {},
                                    Ok((waypoints, pos)) => {
                                        lemma_parse_links_bounds(s, pos);
                                    },
                                }
                            }
                        },
                    }
                }
            },
        }
    }

    fn decode(r: &mut PositionTracker, c: NoCtx) -> (res: Result<NavigationMesh, DecodeError>) {
        let ghost s = old(r).data();
        let ghost p0 = old(r).pos();
        let waypoint_count = match r.read_i32() {
            Ok(v) => v,
            Err(e) => {
                proof {
                    assert(spec_parse_navigation_mesh(s, p0) == Err::<
                        (NavigationMeshView, int),
                        DecodeError,
                    >(e));
                }
                return Err(e);
            },
        };
        if waypoint_count < 0 {
            proof {
                assert(spec_parse_navigation_mesh(s, p0) == Err::<
                    (NavigationMeshView, int),
                    DecodeError,
                >(DecodeError::ConversionFailure));
            }
            return Err(DecodeError::ConversionFailure);
        }
        let link_count = match r.read_i32() {
            Ok(v) => v,
            Err(e) => {
                proof {
                    assert(spec_parse_navigation_mesh(s, p0) == Err::<
                        (NavigationMeshView, int),
                        DecodeError,
                    >(e));
                }
                return Err(e);
            },
        };
        if link_count < 0 {
            proof {
                assert(spec_parse_navigation_mesh(s, p0) == Err::<
                    (NavigationMeshView, int),
                    DecodeError,
                >(DecodeError::ConversionFailure));
            }
            return Err(DecodeError::ConversionFailure);
        }
        let waypoints = match decode_vec_n::<NoCtx, Waypoint>(r, waypoint_count as u64, NoCtx) {
            Ok(v) => v,
            Err(e) => {
                proof {
                    assert(spec_parse_navigation_mesh(s, p0) == Err::<
                        (NavigationMeshView, int),
                        DecodeError,
                    >(e));
                }
                return Err(e);
            },
        };
        let links = match decode_links(r) {
            Ok(v) => v,
            Err(e) => {
                proof {
                    assert(spec_parse_navigation_mesh(s, p0) == Err::<
                        (NavigationMeshView, int),
                        DecodeError,
                    >(e));
                }
                return Err(e);
            },
        };
        let out = NavigationMesh { waypoints, links };
        proof {
            assert(spec_parse_navigation_mesh(s, p0) == Ok::<
                (NavigationMeshView, int),
                DecodeError,
            >((out.deep_view(), r.pos())));
        }
        Ok(out)
    }
}

} // verus!
