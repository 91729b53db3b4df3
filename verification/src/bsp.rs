//! The top-level document decoder: sniffs the gzip magic number, inflates
//! if needed, then walks header-framed records until the stream ends,
//! checking after every record that its payload consumed exactly the
//! declared number of bytes, and at the end that the number of material
//! records seen matches the declared material count.

use vstd::prelude::*;

use crate::chunk::world::WorldView;
use crate::chunk::{
    lemma_chunk_payload_bounds, lemma_payload_materials_nonneg, spec_parse_chunk_header,
    spec_parse_chunk_payload, Chunk, ChunkHeader, ChunkView,
};
use crate::decode::{rem_bytes, Decode, DecodeError, NoCtx, PositionTracker};

verus! {

/// First byte of the gzip magic number.
pub const GZIP_MAGIC_0: u8 = 0x1F;

/// Second byte of the gzip magic number.
pub const GZIP_MAGIC_1: u8 = 0x8B;

/// What inflating a gzip stream yields: a function of the bytes alone, or
/// nothing when the stream is not valid gzip.
pub uninterp spec fn gunzip_of(s: Seq<u8>) -> Option<Seq<u8>>;

/// Relies on flate2's GzDecoder: inflating a byte buffer depends on its
/// contents alone, and a corrupt or truncated stream reports an error.
#[verifier::external_body]
fn gunzip(bytes: &Vec<u8>) -> (res: Result<Vec<u8>, DecodeError>)
    ensures
        match res {
            Ok(out) => gunzip_of(bytes@) == Some(out@),
            Err(e) => gunzip_of(bytes@) == None::<Seq<u8>> && e == DecodeError::IO,
        },
{
    let mut out = Vec::new();
    let mut decoder = flate2::read::GzDecoder::new(bytes.as_slice());
    match std::io::Read::read_to_end(&mut decoder, &mut out) {
        Ok(_) => Ok(out),
        Err(_) => Err(DecodeError::IO),
    }
}

/// The record run of a raw stream, starting at `pos` with the given
/// cross-record world state.  An end-of-stream failure while reading a
/// header is normal termination; any other header failure, any payload
/// failure, and any record whose payload consumed a number of bytes other
/// than its declared size ends the document in an error.
pub open spec fn spec_parse_chunks(s: Seq<u8>, pos: int, world: Option<WorldView>) -> Result<
    Seq<ChunkView>,
    DecodeError,
>
    decreases rem_bytes(s, pos),
{
    match spec_parse_chunk_header(s, pos) {
        Err(e) => if e == DecodeError::IO {
            Ok(Seq::empty())
        } else {
            Err(e)
        },
        Ok((h, pos2)) => match spec_parse_chunk_payload(s, pos2, h, world) {
            Err(e) => Err(e),
            Ok((c, pos3)) => if pos3 - pos2 != h.size as int {
                Err(
                    DecodeError::ReadTooMuchData {
                        expected: h.size as usize,
                        actual: (pos3 - pos2) as usize,
                    },
                )
            } else {
                match spec_parse_chunks(
                    s,
                    pos3,
                    match c {
                        ChunkView::World(wv) => Some(wv),
                        _ => world,
                    },
                ) {
                    Err(e) => Err(e),
                    Ok(rest) => Ok(seq![c] + rest),
                }
            },
        },
    }
}

/// How many material records a record run holds.
pub open spec fn count_materials(chunks: Seq<ChunkView>) -> nat
    decreases chunks.len(),
{
    if chunks.len() == 0 {
        0
    } else {
        count_materials(chunks.drop_last()) + (if chunks.last() is MaterialObj {
            1nat
        } else {
            0nat
        })
    }
}

/// The material count declared by the most recent materials pseudo-record,
/// if any.
pub open spec fn declared_materials(chunks: Seq<ChunkView>) -> Option<int>
    decreases chunks.len(),
{
    if chunks.len() == 0 {
        None
    } else {
        match chunks.last() {
            ChunkView::Materials(n) => Some(n as int),
            _ => declared_materials(chunks.drop_last()),
        }
    }
}

/// The cross-check at end of document: when a material count was declared,
/// the number of material records seen must match it.
pub open spec fn spec_materials_check(chunks: Seq<ChunkView>) -> Option<DecodeError> {
    match declared_materials(chunks) {
        None => None,
        Some(n) => if n == count_materials(chunks) as int {
            None
        } else {
            Some(
                DecodeError::CountMismatch {
                    expected: n as usize,
                    actual: count_materials(chunks) as usize,
                },
            )
        },
    }
}

/// A whole raw (uncompressed) document.
pub open spec fn spec_parse_document(s: Seq<u8>) -> Result<BspView, DecodeError> {
    match spec_parse_chunks(s, 0, None) {
        Err(e) => Err(e),
        Ok(chunks) => match spec_materials_check(chunks) {
            Some(e) => Err(e),
            None => Ok(BspView { chunks }),
        },
    }
}

/// A stream opening with the two gzip magic bytes is treated as
/// compressed, whatever follows; any other stream is parsed as it is,
/// from its very first byte.
pub open spec fn spec_is_gzip(s: Seq<u8>) -> bool {
    s.len() >= 2 && s[0] == GZIP_MAGIC_0 && s[1] == GZIP_MAGIC_1
}

/// A whole input: sniff, inflate if compressed, then parse.
pub open spec fn spec_decode_bsp(s: Seq<u8>) -> Result<BspView, DecodeError> {
    if spec_is_gzip(s) {
        match gunzip_of(s) {
            Some(d) => spec_parse_document(d),
            None => Err(DecodeError::IO),
        }
    } else {
        spec_parse_document(s)
    }
}

/// The decoded document: every record of the stream, in order.
#[derive(Clone, Debug, PartialEq, Eq)]
pub struct Bsp {
    pub chunks: Vec<Chunk>,
}

pub struct BspView {
    pub chunks: Seq<ChunkView>,
}

impl DeepView for Bsp {
    type V = BspView;

    open spec fn deep_view(&self) -> BspView {
        BspView { chunks: self.chunks.deep_view() }
    }
}

impl Bsp {
    /// Decodes one full input buffer into a document, or the first error.
    #[verifier::rlimit(100)]
    #[verifier::spinoff_prover]
    pub fn decode(bytes: Vec<u8>) -> (res: Result<Bsp, DecodeError>)
        ensures
            match res {
                Ok(b) => spec_decode_bsp(bytes@) == Ok::<BspView, DecodeError>(b.deep_view()),
                Err(e) => spec_decode_bsp(bytes@) == Err::<BspView, DecodeError>(e),
            },
    {
        let ghost orig = bytes@;
        let is_gz = bytes.len() >= 2 && bytes[0] == GZIP_MAGIC_0 && bytes[1] == GZIP_MAGIC_1;
        let data = if is_gz {
            match gunzip(&bytes) {
                Ok(d) => d,
                Err(e) => {
                    proof {
                        assert(spec_decode_bsp(orig) == Err::<BspView, DecodeError>(e));
                    }
                    return Err(e);
                },
            }
        } else {
            bytes
        };
        let ghost d = data@;
        proof {
            assert(spec_decode_bsp(orig) == spec_parse_document(d));
        }
        let mut r = PositionTracker::new(data);
        let mut chunks: Vec<Chunk> = Vec::new();
        let mut latest_world: Option<Chunk> = None;
        let mut declared: Option<i32> = None;
        let mut materials_seen: usize = 0;
        proof {
            assert(chunks.deep_view() =~= Seq::<ChunkView>::empty());
        }
        loop
            invariant
                orig == bytes@,
                spec_decode_bsp(orig) == spec_parse_document(d),
                r.wf(),
                r.data() == d,
                latest_world matches Some(c) ==> c is World,
                forall|rest: Seq<ChunkView>|
                    spec_parse_chunks(d, r.pos(), spec_world_of(latest_world.deep_view())) == Ok::<
                        Seq<ChunkView>,
                        DecodeError,
                    >(rest) ==> spec_parse_chunks(d, 0, None::<WorldView>) == Ok::<
                        Seq<ChunkView>,
                        DecodeError,
                    >(chunks.deep_view() + rest),
                forall|e: DecodeError|
                    spec_parse_chunks(d, r.pos(), spec_world_of(latest_world.deep_view())) == Err::<
                        Seq<ChunkView>,
                        DecodeError,
                    >(e) ==> spec_parse_chunks(d, 0, None::<WorldView>) == Err::<
                        Seq<ChunkView>,
                        DecodeError,
                    >(e),
                count_materials(chunks.deep_view()) == materials_seen as nat,
                materials_seen <= chunks.len(),
                match declared {
                    Some(dc) => dc >= 0 && declared_materials(chunks.deep_view()) == Some(
                        dc as int,
                    ),
                    None => declared_materials(chunks.deep_view()) is None,
                },
            decreases rem_bytes(d, r.pos()),
        {
            let ghost ppre = r.pos();
            let ghost lw = spec_world_of(latest_world.deep_view());
            let header = match ChunkHeader::decode(&mut r, NoCtx) {
                Ok(h) => h,
                Err(e) => {
                    match e {
                        DecodeError::IO => {
                            proof {
                                assert(spec_parse_chunks(d, ppre, lw) == Ok::<
                                    Seq<ChunkView>,
                                    DecodeError,
                                >(Seq::empty()));
                                assert(chunks.deep_view() + Seq::<ChunkView>::empty()
                                    =~= chunks.deep_view());
                            }
                            proof {
                                assert(spec_parse_chunks(d, 0, None::<WorldView>) == Ok::<
                                    Seq<ChunkView>,
                                    DecodeError,
                                >(chunks.deep_view()));
                            }
                            match declared {
                                None => {
                                    let out = Bsp { chunks };
                                    proof {
                                        assert(spec_parse_document(d) == Ok::<
                                            BspView,
                                            DecodeError,
                                        >(out.deep_view()));
                                    }
                                    return Ok(out);
                                },
                                Some(dc) => {
                                    if dc as usize == materials_seen {
                                        let out = Bsp { chunks };
                                        proof {
                                            assert(spec_parse_document(d) == Ok::<
                                                BspView,
                                                DecodeError,
                                            >(out.deep_view()));
                                        }
                                        return Ok(out);
                                    } else {
                                        proof {
                                            assert(spec_parse_document(d) == Err::<
                                                BspView,
                                                DecodeError,
                                            >(
                                                DecodeError::CountMismatch {
                                                    expected: dc as usize,
                                                    actual: materials_seen,
                                                },
                                            ));
                                        }
                                        return Err(
                                            DecodeError::CountMismatch {
                                                expected: dc as usize,
                                                actual: materials_seen,
                                            },
                                        );
                                    }
                                },
                            }
                        },
                        _ => {
                            proof {
                                assert(spec_parse_chunks(d, ppre, lw) == Err::<
                                    Seq<ChunkView>,
                                    DecodeError,
                                >(e));
                                assert(spec_parse_chunks(d, 0, None::<WorldView>) == Err::<
                                    Seq<ChunkView>,
                                    DecodeError,
                                >(e));
                                assert(spec_parse_document(d) == Err::<BspView, DecodeError>(e));
                            }
                            return Err(e);
                        },
                    }
                },
            };
            let pos_before = r.position();
            let ghost p2 = r.pos();
            let expected_size = header.get_size();
            let world_ref: Option<&Chunk> = latest_world.as_ref();
            let world_arg: Option<&crate::chunk::world::World> = match world_ref {
                Some(c) => match c {
                    Chunk::World(w) => Some(w),
                    _ => None,
                },
                None => None,
            };
            proof {
                assert(world_arg.deep_view() == lw);
            }
            let chunk = match Chunk::decode(&mut r, &header, world_arg) {
                Ok(c) => c,
                Err(e) => {
                    proof {
                        assert(spec_parse_chunks(d, ppre, lw) == Err::<
                            Seq<ChunkView>,
                            DecodeError,
                        >(e));
                        assert(spec_parse_chunks(d, 0, None::<WorldView>) == Err::<
                            Seq<ChunkView>,
                            DecodeError,
                        >(e));
                        assert(spec_parse_document(d) == Err::<BspView, DecodeError>(e));
                    }
                    return Err(e);
                },
            };
            let ghost p3 = r.pos();
            let pos_after = r.position();
            let consumed = pos_after - pos_before;
            proof {
                assert(consumed as int == p3 - p2);
                assert(expected_size >= 0);
            }
            if consumed != expected_size as usize {
                proof {
                    assert(spec_parse_chunks(d, ppre, lw) == Err::<Seq<ChunkView>, DecodeError>(
                        DecodeError::ReadTooMuchData {
                            expected: expected_size as usize,
                            actual: consumed,
                        },
                    ));
                    assert(spec_parse_chunks(d, 0, None::<WorldView>) == Err::<
                        Seq<ChunkView>,
                        DecodeError,
                    >(
                        DecodeError::ReadTooMuchData {
                            expected: expected_size as usize,
                            actual: consumed,
                        },
                    ));
                }
                return Err(
                    DecodeError::ReadTooMuchData {
                        expected: expected_size as usize,
                        actual: consumed,
                    },
                );
            }
            let ghost cv = chunk.deep_view();
            let ghost old_chunks = chunks.deep_view();
            let is_world = match &chunk {
                Chunk::World(_) => true,
                _ => false,
            };
            let new_declared = match &chunk {
                Chunk::Materials(n) => Some(*n),
                _ => None,
            };
            let is_material = match &chunk {
                Chunk::MaterialObj(_) => true,
                _ => false,
            };
            if is_world {
                let w2 = match &chunk {
                    Chunk::World(w) => w.duplicate(),
                    _ => {
                        proof {
                            assert(false);
                        }
                        return Err(DecodeError::ConversionFailure);
                    },
                };
                latest_world = Some(Chunk::World(w2));
            }
            chunks.push(chunk);
            proof {
                assert(chunks.deep_view() =~= old_chunks.push(cv));
                assert(chunks.deep_view().drop_last() =~= old_chunks);
                lemma_chunk_payload_bounds(d, p2, header, lw);
                lemma_payload_materials_nonneg(d, p2, header, lw);
                assert(materials_seen <= old_chunks.len());
                assert(chunks.len() == old_chunks.len() + 1);
            }
            if is_material {
                materials_seen = materials_seen + 1;
            }
            match new_declared {
                Some(n) => {
                    declared = Some(n);
                },
                None => {},
            }
            proof {
                let lw2 = spec_world_of(latest_world.deep_view());
                assert(lw2 == (match cv {
                    ChunkView::World(wv) => Some(wv),
                    _ => lw,
                }));
                assert forall|rest: Seq<ChunkView>|
                    spec_parse_chunks(d, p3, lw2) == Ok::<Seq<ChunkView>, DecodeError>(
                        rest,
                    ) implies spec_parse_chunks(d, 0, None::<WorldView>) == Ok::<
                    Seq<ChunkView>,
                    DecodeError,
                >(chunks.deep_view() + rest) by {
                    assert(spec_parse_chunks(d, ppre, lw) == Ok::<Seq<ChunkView>, DecodeError>(
                        seq![cv] + rest,
                    ));
                    assert(old_chunks + (seq![cv] + rest) =~= chunks.deep_view() + rest);
                }
                assert forall|e: DecodeError|
                    spec_parse_chunks(d, p3, lw2) == Err::<Seq<ChunkView>, DecodeError>(
                        e,
                    ) implies spec_parse_chunks(d, 0, None::<WorldView>) == Err::<
                    Seq<ChunkView>,
                    DecodeError,
                >(e) by {
                    assert(spec_parse_chunks(d, ppre, lw) == Err::<Seq<ChunkView>, DecodeError>(e));
                }
            }
        }
    }
}

/// The world payload held by an optional record, if it is a world record.
pub open spec fn spec_world_of(c: Option<ChunkView>) -> Option<WorldView> {
    match c {
        Some(ChunkView::World(wv)) => Some(wv),
        _ => None,
    }
}

} // verus!

verus! {

/// Round-trip framing: when a record's header and payload both parse but
/// the payload consumed a number of bytes different from the declared
/// size, the record run is rejected with a size-mismatch error carrying
/// both counts; when it consumed exactly the declared size, the record is
/// accepted and the run continues right after it, with the world state
/// updated by a world record and kept otherwise.
pub proof fn lemma_chunk_framing(
    s: Seq<u8>,
    pos: int,
    world: Option<WorldView>,
    h: ChunkHeader,
    p2: int,
    c: ChunkView,
    p3: int,
)
    requires
        spec_parse_chunk_header(s, pos) == Ok::<(ChunkHeader, int), DecodeError>((h, p2)),
        spec_parse_chunk_payload(s, p2, h, world) == Ok::<(ChunkView, int), DecodeError>((c, p3)),
    ensures
        p3 - p2 != h.size as int ==> spec_parse_chunks(s, pos, world) == Err::<
            Seq<ChunkView>,
            DecodeError,
        >(
            DecodeError::ReadTooMuchData {
                expected: h.size as usize,
                actual: (p3 - p2) as usize,
            },
        ),
        p3 - p2 == h.size as int ==> spec_parse_chunks(s, pos, world) == (match spec_parse_chunks(
            s,
            p3,
            match c {
                ChunkView::World(wv) => Some(wv),
                _ => world,
            },
        ) {
            Err(e) => Err::<Seq<ChunkView>, DecodeError>(e),
            Ok(rest) => Ok::<Seq<ChunkView>, DecodeError>(seq![c] + rest),
        }),
{
}

/// Gzip sniffing: a stream opening with the two magic bytes is treated as
/// compressed whatever follows them; any other stream is parsed raw, with
/// the two inspected bytes still part of what is parsed.
pub proof fn lemma_gzip_sniffing(s: Seq<u8>)
    ensures
        spec_is_gzip(s) ==> spec_decode_bsp(s) == (match gunzip_of(s) {
            Some(d) => spec_parse_document(d),
            None => Err::<BspView, DecodeError>(DecodeError::IO),
        }),
        !spec_is_gzip(s) ==> spec_decode_bsp(s) == spec_parse_document(s),
{
}

/// Unknown tag: a header whose tag lies outside the known set fails the
/// record run at that header with a conversion failure; the record is not
/// skipped.
pub proof fn lemma_unknown_tag(
    s: Seq<u8>,
    pos: int,
    world: Option<WorldView>,
    tag: i32,
    p2: int,
)
    requires
        crate::decode::spec_parse_i32(s, pos) == Ok::<(i32, int), DecodeError>((tag, p2)),
        crate::chunk::spec_chunk_type_of(tag) is None,
    ensures
        spec_parse_chunk_header(s, pos) == Err::<(ChunkHeader, int), DecodeError>(
            DecodeError::ConversionFailure,
        ),
        spec_parse_chunks(s, pos, world) == Err::<Seq<ChunkView>, DecodeError>(
            DecodeError::ConversionFailure,
        ),
{
}

} // verus!
