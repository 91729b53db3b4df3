//! Byte-level decoding: primitives, counted runs, optionals and the three
//! string encodings, on concrete byte sequences.

use spooky_bsp::decode::{Decode, DecodeError, NoCtx, PositionTracker};

fn w32(out: &mut Vec<u8>, x: u32) {
    out.extend_from_slice(&x.to_le_bytes());
}

fn wi32(out: &mut Vec<u8>, x: i32) {
    out.extend_from_slice(&x.to_le_bytes());
}

fn w16(out: &mut Vec<u8>, x: u16) {
    out.extend_from_slice(&x.to_le_bytes());
}

#[test]
fn primitives_little_endian() {
    let mut r = PositionTracker::new(vec![0x78, 0x56, 0x34, 0x12]);
    assert_eq!(r.read_u32(), Ok(0x12345678));
    assert_eq!(r.position(), 4);

    let mut r = PositionTracker::new(vec![0xCD, 0xAB]);
    assert_eq!(r.read_u16(), Ok(0xABCD));

    let mut r = PositionTracker::new(vec![0xFF, 0xFF, 0xFF, 0xFF]);
    assert_eq!(r.read_i32(), Ok(-1));

    let mut r = PositionTracker::new(vec![1, 2, 3, 4, 5, 6, 7, 8]);
    assert_eq!(r.read_u64(), Ok(0x0807060504030201));

    let mut r = PositionTracker::new(vec![0x2A]);
    assert_eq!(r.read_u8(), Ok(42));
}

#[test]
fn primitives_end_of_stream() {
    let mut r = PositionTracker::new(vec![1, 2, 3]);
    assert_eq!(r.read_u32(), Err(DecodeError::IO));
    let mut r = PositionTracker::new(vec![]);
    assert_eq!(r.read_u8(), Err(DecodeError::IO));
}

#[test]
fn bool_any_nonzero_is_true() {
    let mut r = PositionTracker::new(vec![0, 0, 0, 0, 2, 0, 0, 0, 1, 0, 0, 0]);
    assert_eq!(r.read_bool(), Ok(false));
    assert_eq!(r.read_bool(), Ok(true));
    assert_eq!(r.read_bool(), Ok(true));
}

#[test]
fn sequence_negative_count_fails_before_elements() {
    let mut bytes = Vec::new();
    wi32(&mut bytes, -1);
    w32(&mut bytes, 7);
    let mut r = PositionTracker::new(bytes);
    assert_eq!(
        Vec::<u32>::decode(&mut r, NoCtx),
        Err(DecodeError::ConversionFailure)
    );
}

#[test]
fn sequence_zero_count_reads_nothing_more() {
    let mut bytes = Vec::new();
    wi32(&mut bytes, 0);
    w32(&mut bytes, 0xDEAD);
    let mut r = PositionTracker::new(bytes);
    assert_eq!(Vec::<u32>::decode(&mut r, NoCtx), Ok(vec![]));
    assert_eq!(r.position(), 4);
}

#[test]
fn sequence_n_elements_in_stream_order() {
    let mut bytes = Vec::new();
    wi32(&mut bytes, 3);
    w32(&mut bytes, 10);
    w32(&mut bytes, 20);
    w32(&mut bytes, 30);
    let mut r = PositionTracker::new(bytes);
    assert_eq!(Vec::<u32>::decode(&mut r, NoCtx), Ok(vec![10, 20, 30]));
    assert_eq!(r.position(), 16);
}

#[test]
fn sequence_truncated_elements_fail() {
    let mut bytes = Vec::new();
    wi32(&mut bytes, 2);
    w32(&mut bytes, 10);
    let mut r = PositionTracker::new(bytes);
    assert_eq!(Vec::<u32>::decode(&mut r, NoCtx), Err(DecodeError::IO));
}

#[test]
fn optional_absent_consumes_presence_bytes_only() {
    let mut bytes = Vec::new();
    w32(&mut bytes, 0);
    w32(&mut bytes, 0x1234);
    let mut r = PositionTracker::new(bytes);
    assert_eq!(Option::<u32>::decode(&mut r, NoCtx), Ok(None));
    assert_eq!(r.position(), 4);
}

#[test]
fn optional_any_nonzero_presence_reads_value() {
    let mut bytes = Vec::new();
    w32(&mut bytes, 7);
    w32(&mut bytes, 0x1234);
    let mut r = PositionTracker::new(bytes);
    assert_eq!(Option::<u32>::decode(&mut r, NoCtx), Ok(Some(0x1234)));
    assert_eq!(r.position(), 8);
}

#[test]
fn plain_string_one_byte_per_character() {
    let mut bytes = Vec::new();
    wi32(&mut bytes, 3);
    bytes.extend_from_slice(b"abc");
    let mut r = PositionTracker::new(bytes);
    assert_eq!(r.read_string(), Ok(b"abc".to_vec()));
    assert_eq!(r.position(), 7);
}

#[test]
fn plain_string_negative_length_fails() {
    let mut bytes = Vec::new();
    wi32(&mut bytes, -5);
    let mut r = PositionTracker::new(bytes);
    assert_eq!(r.read_string(), Err(DecodeError::ConversionFailure));
}

#[test]
fn wide_string_low_byte_of_each_word() {
    let mut bytes = Vec::new();
    wi32(&mut bytes, 2);
    w32(&mut bytes, 'h' as u32);
    w32(&mut bytes, 'i' as u32);
    let mut r = PositionTracker::new(bytes);
    assert_eq!(r.read_wide_string(), Ok(b"hi".to_vec()));
    assert_eq!(r.position(), 12);
}

#[test]
fn wide_nul_string_drops_terminator() {
    let mut bytes = Vec::new();
    wi32(&mut bytes, 3);
    w32(&mut bytes, 'o' as u32);
    w32(&mut bytes, 'k' as u32);
    w32(&mut bytes, 0);
    let mut r = PositionTracker::new(bytes);
    assert_eq!(r.read_wide_nul_string(), Ok(b"ok".to_vec()));
    assert_eq!(r.position(), 16);
}

#[test]
fn wide_nul_string_zero_length_is_empty() {
    let mut bytes = Vec::new();
    wi32(&mut bytes, 0);
    w32(&mut bytes, 0x99);
    let mut r = PositionTracker::new(bytes);
    assert_eq!(r.read_wide_nul_string(), Ok(vec![]));
    assert_eq!(r.position(), 4);
}

#[test]
fn wide_nul_string_bad_terminator_fails() {
    let mut bytes = Vec::new();
    wi32(&mut bytes, 2);
    w32(&mut bytes, 'x' as u32);
    w32(&mut bytes, 1);
    let mut r = PositionTracker::new(bytes);
    assert_eq!(
        r.read_wide_nul_string(),
        Err(DecodeError::ConversionFailure)
    );
}

#[test]
fn counted_u16_runs() {
    let mut bytes = Vec::new();
    w16(&mut bytes, 5);
    w16(&mut bytes, 6);
    let mut r = PositionTracker::new(bytes);
    assert_eq!(r.read_u16(), Ok(5));
    assert_eq!(r.read_u16(), Ok(6));
    assert_eq!(r.read_u16(), Err(DecodeError::IO));
}
