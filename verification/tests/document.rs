//! Whole-document scenarios: framing, dispatch, the materials cross-check
//! and gzip sniffing.

use spooky_bsp::bsp::Bsp;
use spooky_bsp::chunk::animation_key::{AnimationKey, AnimationKeys};
use spooky_bsp::chunk::{Chunk, ChunkHeader, ChunkType};
use spooky_bsp::decode::{Decode, DecodeError, NoCtx, PositionTracker};
use std::io::Write;

fn w32(out: &mut Vec<u8>, x: u32) {
    out.extend_from_slice(&x.to_le_bytes());
}

fn wi32(out: &mut Vec<u8>, x: i32) {
    out.extend_from_slice(&x.to_le_bytes());
}

fn w16(out: &mut Vec<u8>, x: u16) {
    out.extend_from_slice(&x.to_le_bytes());
}

fn header(out: &mut Vec<u8>, tag: i32, size: i32, version: i32) {
    wi32(out, tag);
    wi32(out, size);
    wi32(out, version);
}

/// A minimal material payload: empty texture names, absent matrices.
fn material_obj_payload() -> Vec<u8> {
    let mut p = Vec::new();
    w32(&mut p, 0); // flags
    w32(&mut p, 0); // name_hash
    w32(&mut p, 0); // additive_lighting_model
    for _ in 0..8 {
        wi32(&mut p, 0); // color, specular (four i32 channels each)
    }
    w32(&mut p, 0); // power
    wi32(&mut p, 0); // shading_mode
    w32(&mut p, 0); // blend
    wi32(&mut p, 0); // blend_modes.source_mode
    wi32(&mut p, 0); // blend_modes.destination_mode
    w32(&mut p, 0); // alpha_test
    wi32(&mut p, 0); // alpha_test_mode.comparision_function
    w32(&mut p, 0); // alpha_test_mode.reference
    w32(&mut p, 0); // depth_buffer_write
    wi32(&mut p, 0); // depth_buffer_comparison_mode
    w32(&mut p, 0); // material_hash
    w32(&mut p, 0); // owner
    w32(&mut p, 0); // color_buffer_write
    for _ in 0..5 {
        w32(&mut p, 0); // texture slot uv_set
        wi32(&mut p, 0); // empty slot name
    }
    for _ in 0..5 {
        w32(&mut p, 0); // absent matrix
    }
    for _ in 0..5 {
        wi32(&mut p, 0); // generator
    }
    wi32(&mut p, 0); // envmap_type
    w32(&mut p, 0); // planar_sheer_envmap_distance
    p
}

#[test]
fn chunk_header_reads_tag_size_version() {
    let mut bytes = Vec::new();
    header(&mut bytes, 1012, 24, 7);
    let mut r = PositionTracker::new(bytes);
    let h = ChunkHeader::decode(&mut r, NoCtx).unwrap();
    assert_eq!(h.get_chunk_type(), ChunkType::World);
    assert_eq!(h.get_size(), 24);
    assert_eq!(h.get_version(), 7);
}

#[test]
fn chunk_header_unknown_tag_fails() {
    let mut bytes = Vec::new();
    header(&mut bytes, 999, 0, 0);
    let mut r = PositionTracker::new(bytes);
    assert_eq!(
        ChunkHeader::decode(&mut r, NoCtx),
        Err(DecodeError::ConversionFailure)
    );
}

#[test]
fn chunk_header_negative_size_fails() {
    let mut bytes = Vec::new();
    header(&mut bytes, 1012, -4, 0);
    let mut r = PositionTracker::new(bytes);
    assert_eq!(
        ChunkHeader::decode(&mut r, NoCtx),
        Err(DecodeError::ConversionFailure)
    );
}

#[test]
fn empty_stream_is_an_empty_document() {
    let doc = Bsp::decode(Vec::new()).unwrap();
    assert_eq!(doc.chunks.len(), 0);
}

#[test]
fn single_record_document() {
    let mut bytes = Vec::new();
    header(&mut bytes, 20000, 4, 0);
    w32(&mut bytes, 12);
    let doc = Bsp::decode(bytes).unwrap();
    assert_eq!(doc.chunks.len(), 1);
    match &doc.chunks[0] {
        Chunk::Entities(e) => assert_eq!(e.count, 12),
        _ => panic!("expected an entities record"),
    }
}

#[test]
fn size_mismatch_is_rejected_with_both_counts() {
    let mut bytes = Vec::new();
    header(&mut bytes, 20000, 8, 0);
    w32(&mut bytes, 12);
    w32(&mut bytes, 0);
    assert_eq!(
        Bsp::decode(bytes),
        Err(DecodeError::ReadTooMuchData { expected: 8, actual: 4 })
    );
}

#[test]
fn unknown_tag_fails_the_document() {
    let mut bytes = Vec::new();
    header(&mut bytes, 20000, 4, 0);
    w32(&mut bytes, 12);
    header(&mut bytes, 4242, 0, 0);
    assert_eq!(Bsp::decode(bytes), Err(DecodeError::ConversionFailure));
}

#[test]
fn end_of_stream_inside_a_header_ends_the_document() {
    let mut bytes = Vec::new();
    header(&mut bytes, 20000, 4, 0);
    w32(&mut bytes, 12);
    wi32(&mut bytes, 5);
    let doc = Bsp::decode(bytes).unwrap();
    assert_eq!(doc.chunks.len(), 1);
}

#[test]
fn zones_before_any_world_fails() {
    let mut bytes = Vec::new();
    header(&mut bytes, 1023, 4, 0);
    wi32(&mut bytes, 0);
    assert_eq!(Bsp::decode(bytes), Err(DecodeError::ConversionFailure));
}

#[test]
fn zones_take_their_count_from_the_preceding_world() {
    let mut bytes = Vec::new();
    header(&mut bytes, 1012, 31, 0);
    w32(&mut bytes, 0);
    bytes.extend_from_slice(&[1, 2, 3]);
    wi32(&mut bytes, 0); // no floors
    wi32(&mut bytes, 1); // one zone
    for _ in 0..4 {
        w32(&mut bytes, 0);
    }
    header(&mut bytes, 1023, 48, 0);
    wi32(&mut bytes, 0); // no octant connections
    for _ in 0..6 {
        w32(&mut bytes, 0); // zone bounding box
    }
    for v in [9u32, 0, 0, 0, 0] {
        w32(&mut bytes, v);
    }
    let doc = Bsp::decode(bytes).unwrap();
    assert_eq!(doc.chunks.len(), 2);
    match &doc.chunks[1] {
        Chunk::Zones(z) => {
            assert_eq!(z.zones.len(), 1);
            assert_eq!(z.zones[0].hash, 9);
        }
        _ => panic!("expected a zone-set record"),
    }
}

#[test]
fn materials_count_matching_the_records_passes() {
    let payload = material_obj_payload();
    let mut bytes = Vec::new();
    header(&mut bytes, 1010, 4, 0);
    wi32(&mut bytes, 1);
    header(&mut bytes, 5, payload.len() as i32, 0);
    bytes.extend_from_slice(&payload);
    let doc = Bsp::decode(bytes).unwrap();
    assert_eq!(doc.chunks.len(), 2);
    match &doc.chunks[1] {
        Chunk::MaterialObj(m) => assert_eq!(m.textures.len(), 5),
        _ => panic!("expected a material record"),
    }
}

#[test]
fn materials_count_mismatch_fails_at_end_of_document() {
    let payload = material_obj_payload();
    let mut bytes = Vec::new();
    header(&mut bytes, 1010, 4, 0);
    wi32(&mut bytes, 2);
    header(&mut bytes, 5, payload.len() as i32, 0);
    bytes.extend_from_slice(&payload);
    assert_eq!(
        Bsp::decode(bytes),
        Err(DecodeError::CountMismatch { expected: 2, actual: 1 })
    );
}

#[test]
fn negative_materials_count_fails() {
    let mut bytes = Vec::new();
    header(&mut bytes, 1010, 4, 0);
    wi32(&mut bytes, -3);
    assert_eq!(Bsp::decode(bytes), Err(DecodeError::ConversionFailure));
}

#[test]
fn animation_key_translate_payload() {
    let mut p = Vec::new();
    wi32(&mut p, 1); // key type: translate
    w32(&mut p, 0xAB); // target hash
    w32(&mut p, 0); // time step
    wi32(&mut p, 2); // key count
    w16(&mut p, 0); // material block index
    w32(&mut p, 0); // bounding box absent
    wi32(&mut p, 0); // linear interpolation
    w32(&mut p, 0); // no times
    for i in 0..6u32 {
        w32(&mut p, i); // two translation vectors
    }
    w32(&mut p, 0); // no compression info
    let mut r = PositionTracker::new(p);
    let k = AnimationKey::decode(&mut r, NoCtx).unwrap();
    assert_eq!(k.target_hash, 0xAB);
    match &k.keys {
        AnimationKeys::Translations(v) => assert_eq!(v.len(), 2),
        _ => panic!("expected translation keys"),
    }
}

#[test]
fn animation_key_unknown_type_fails() {
    let mut p = Vec::new();
    wi32(&mut p, 9); // unknown key type
    w32(&mut p, 0);
    w32(&mut p, 0);
    wi32(&mut p, 0);
    w16(&mut p, 0);
    w32(&mut p, 0);
    wi32(&mut p, 0);
    w32(&mut p, 0);
    let mut r = PositionTracker::new(p);
    assert_eq!(
        AnimationKey::decode(&mut r, NoCtx),
        Err(DecodeError::ConversionFailure)
    );
}

#[test]
fn raw_stream_first_bytes_are_still_parsed() {
    // A raw document whose first two bytes are not the gzip magic; the
    // peeked bytes belong to the first header and must not be lost.
    let mut bytes = Vec::new();
    header(&mut bytes, 20000, 4, 0);
    w32(&mut bytes, 3);
    assert_ne!(bytes[0], 0x1F);
    let doc = Bsp::decode(bytes).unwrap();
    assert_eq!(doc.chunks.len(), 1);
}

#[test]
fn gzip_magic_with_corrupt_tail_is_treated_as_compressed() {
    let bytes = vec![0x1F, 0x8B, 0x00, 0x01, 0x02];
    assert_eq!(Bsp::decode(bytes), Err(DecodeError::IO));
}

#[test]
fn gzip_round_trip_matches_raw_decoding() {
    let mut raw = Vec::new();
    header(&mut raw, 20000, 4, 0);
    w32(&mut raw, 7);
    let mut enc =
        flate2::write::GzEncoder::new(Vec::new(), flate2::Compression::default());
    enc.write_all(&raw).unwrap();
    let compressed = enc.finish().unwrap();
    assert_eq!(compressed[0], 0x1F);
    assert_eq!(compressed[1], 0x8B);
    let via_gzip = Bsp::decode(compressed).unwrap();
    let via_raw = Bsp::decode(raw).unwrap();
    assert_eq!(via_gzip, via_raw);
    assert_eq!(via_gzip.chunks.len(), 1);
}

#[test]
fn most_recent_materials_declaration_governs() {
    let payload = material_obj_payload();
    let mut bytes = Vec::new();
    header(&mut bytes, 1010, 4, 0);
    wi32(&mut bytes, 5);
    header(&mut bytes, 1010, 4, 0);
    wi32(&mut bytes, 1);
    header(&mut bytes, 5, payload.len() as i32, 0);
    bytes.extend_from_slice(&payload);
    let doc = Bsp::decode(bytes).unwrap();
    assert_eq!(doc.chunks.len(), 3);
}

#[test]
fn payload_reading_too_few_bytes_is_rejected() {
    // An entities payload of four bytes declared as twelve.
    let mut bytes = Vec::new();
    header(&mut bytes, 20000, 12, 0);
    w32(&mut bytes, 1);
    w32(&mut bytes, 0);
    w32(&mut bytes, 0);
    assert_eq!(
        Bsp::decode(bytes),
        Err(DecodeError::ReadTooMuchData { expected: 12, actual: 4 })
    );
}
