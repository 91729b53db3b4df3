//! More record decoders on concrete bytes: trees, lists, light maps,
//! textures with pixels, shape and UV animation keys.

use spooky_bsp::algebra::FloatBits;
use spooky_bsp::chunk::animation_key::{
    AnimationKey, AnimationKeys, Interpolation, Shape, Uv, VisibilityState,
};
use spooky_bsp::chunk::clump::Clump;
use spooky_bsp::chunk::collision::Collision;
use spooky_bsp::chunk::frame::Frame;
use spooky_bsp::chunk::ngon_list::NGonList;
use spooky_bsp::chunk::spline::Spline;
use spooky_bsp::chunk::switchable_lights::{SwitchableLights, FLOAT_FOUR_BITS};
use spooky_bsp::chunk::texture::Texture;
use spooky_bsp::color::Rgba;
use spooky_bsp::decode::{Decode, DecodeError, NoCtx, PositionTracker};

fn w32(out: &mut Vec<u8>, x: u32) {
    out.extend_from_slice(&x.to_le_bytes());
}

fn wi32(out: &mut Vec<u8>, x: i32) {
    out.extend_from_slice(&x.to_le_bytes());
}

fn w16(out: &mut Vec<u8>, x: u16) {
    out.extend_from_slice(&x.to_le_bytes());
}

#[test]
fn collision_three_counted_runs() {
    let mut bytes = Vec::new();
    w32(&mut bytes, 1); // one face
    w32(&mut bytes, 2); // two leaves
    w32(&mut bytes, 0); // no branches
    bytes.extend_from_slice(&[1, 2, 3, 4]); // quantized plane normal and flags
    w32(&mut bytes, 0); // plane distance
    w16(&mut bytes, 5);
    w16(&mut bytes, 6);
    w32(&mut bytes, 7);
    w32(&mut bytes, 8);
    let mut r = PositionTracker::new(bytes);
    let c = Collision::decode(&mut r, NoCtx).unwrap();
    assert_eq!(c.faces.len(), 1);
    assert_eq!(c.faces[0].material_block_index, 5);
    assert_eq!(c.leaves, vec![7, 8]);
    assert_eq!(c.branches.len(), 0);
}

#[test]
fn ngon_list_negative_face_count_fails() {
    let mut bytes = Vec::new();
    w32(&mut bytes, 0);
    wi32(&mut bytes, -1);
    let mut r = PositionTracker::new(bytes);
    assert_eq!(
        NGonList::decode(&mut r, NoCtx),
        Err(DecodeError::ConversionFailure)
    );
}

#[test]
fn ngon_face_test_count_is_not_on_the_wire() {
    let mut bytes = Vec::new();
    w32(&mut bytes, 0); // no vertices
    wi32(&mut bytes, 1); // one face
    for _ in 0..4 {
        w32(&mut bytes, 0); // face plane
    }
    for v in [3u32, 4, 5] {
        w32(&mut bytes, v);
    }
    let mut r = PositionTracker::new(bytes);
    let l = NGonList::decode(&mut r, NoCtx).unwrap();
    assert_eq!(l.faces[0].vertex_index, 3);
    assert_eq!(l.faces[0].vertex_count, 4);
    assert_eq!(l.faces[0].flags, 5);
    assert_eq!(l.faces[0].test_count, 0);
}

#[test]
fn spline_count_precedes_flags_points_follow() {
    let mut bytes = Vec::new();
    w32(&mut bytes, 2); // point count
    w32(&mut bytes, 1); // closed
    w32(&mut bytes, 9); // kind
    for i in 0..6u32 {
        w32(&mut bytes, i);
    }
    let mut r = PositionTracker::new(bytes);
    let sp = Spline::decode(&mut r, NoCtx).unwrap();
    assert!(sp.closed);
    assert_eq!(sp.type_, 9);
    assert_eq!(sp.points.len(), 2);
    assert_eq!(sp.points[1].x, FloatBits { bits: 3 });
}

#[test]
fn switchable_lights_mode_zero_defaults_gamma() {
    let mut bytes = Vec::new();
    w32(&mut bytes, 0); // mode word
    wi32(&mut bytes, 0); // no light maps
    wi32(&mut bytes, 0); // no light data
    wi32(&mut bytes, 0); // no material blocks
    let mut r = PositionTracker::new(bytes);
    let sl = SwitchableLights::decode(&mut r, NoCtx).unwrap();
    assert_eq!(sl.gamma_ramp_power, FloatBits { bits: FLOAT_FOUR_BITS });
    assert_eq!(sl.layer_remap_table, None);
}

#[test]
fn switchable_lights_mode_three_reads_gamma_and_remap() {
    let mut bytes = Vec::new();
    w32(&mut bytes, 3);
    w32(&mut bytes, 0x3F800000); // gamma
    wi32(&mut bytes, 2); // remap table of two entries
    w32(&mut bytes, 8);
    w32(&mut bytes, 9);
    wi32(&mut bytes, 0);
    wi32(&mut bytes, 0);
    wi32(&mut bytes, 0);
    let mut r = PositionTracker::new(bytes);
    let sl = SwitchableLights::decode(&mut r, NoCtx).unwrap();
    assert_eq!(sl.gamma_ramp_power, FloatBits { bits: 0x3F800000 });
    assert_eq!(sl.layer_remap_table, Some(vec![8, 9]));
}

#[test]
fn switchable_lights_mode_above_three_fails() {
    let mut bytes = Vec::new();
    w32(&mut bytes, 4);
    let mut r = PositionTracker::new(bytes);
    assert_eq!(
        SwitchableLights::decode(&mut r, NoCtx),
        Err(DecodeError::ConversionFailure)
    );
}

#[test]
fn texture_reads_width_times_height_pixels() {
    let mut bytes = Vec::new();
    wi32(&mut bytes, 0); // empty name
    wi32(&mut bytes, 0); // empty mask name
    wi32(&mut bytes, 2); // width
    wi32(&mut bytes, 1); // height
    wi32(&mut bytes, 0); // filter
    wi32(&mut bytes, 0); // address
    wi32(&mut bytes, 0); // format
    for ch in [1i32, 2, 3, 4] {
        wi32(&mut bytes, ch); // border color
    }
    for px in 0..2i32 {
        for ch in 0..4i32 {
            wi32(&mut bytes, 10 * px + ch);
        }
    }
    let mut r = PositionTracker::new(bytes);
    let t = Texture::decode(&mut r, NoCtx).unwrap();
    assert_eq!(t.border_color, Rgba { r: 1, g: 2, b: 3, a: 4 });
    assert_eq!(t.pixels.len(), 2);
    assert_eq!(t.pixels[1], Rgba { r: 10, g: 11, b: 12, a: 13 });
}

#[test]
fn texture_non_positive_area_reads_no_pixels() {
    let mut bytes = Vec::new();
    wi32(&mut bytes, 0);
    wi32(&mut bytes, 0);
    wi32(&mut bytes, -4); // width
    wi32(&mut bytes, 3); // height
    wi32(&mut bytes, 0);
    wi32(&mut bytes, 0);
    wi32(&mut bytes, 0);
    for _ in 0..4 {
        wi32(&mut bytes, 0);
    }
    let mut r = PositionTracker::new(bytes);
    let t = Texture::decode(&mut r, NoCtx).unwrap();
    assert_eq!(t.pixels.len(), 0);
}

#[test]
fn shape_key_frame_holds_absolute_vectors() {
    let mut bytes = Vec::new();
    w32(&mut bytes, 1); // key-frame
    w16(&mut bytes, 1); // one animated vertex
    for i in 0..3u32 {
        w32(&mut bytes, i);
    }
    w16(&mut bytes, 0); // no normals
    let mut r = PositionTracker::new(bytes);
    match Shape::decode(&mut r, NoCtx).unwrap() {
        Shape::KeyFrame { animated_vertices, normals } => {
            assert_eq!(animated_vertices.elements.len(), 1);
            assert_eq!(normals.elements.len(), 0);
        }
        _ => panic!("expected a key-frame shape"),
    }
}

#[test]
fn shape_not_key_frame_holds_index_value_runs() {
    let mut bytes = Vec::new();
    w32(&mut bytes, 0); // not a key frame
    w16(&mut bytes, 2); // two vertex deltas
    w16(&mut bytes, 4);
    w16(&mut bytes, 5);
    w16(&mut bytes, 6);
    w16(&mut bytes, 7);
    w16(&mut bytes, 0); // no normal deltas
    let mut r = PositionTracker::new(bytes);
    match Shape::decode(&mut r, NoCtx).unwrap() {
        Shape::NotKeyFrame { animated_vertices, normals } => {
            assert_eq!(animated_vertices.indices, vec![4, 5]);
            assert_eq!(animated_vertices.elements, vec![6, 7]);
            assert_eq!(normals.indices.len(), 0);
        }
        _ => panic!("expected a non-key-frame shape"),
    }
}

#[test]
fn uv_keys_zip_component_runs_into_pairs() {
    let mut p = Vec::new();
    wi32(&mut p, 3); // key type: uv
    w32(&mut p, 0);
    w32(&mut p, 0);
    wi32(&mut p, 1); // one key, hence two groups
    w16(&mut p, 0);
    w32(&mut p, 0); // bounding box absent
    wi32(&mut p, 1); // cubic spline interpolation
    w32(&mut p, 0); // no times
    w16(&mut p, 2); // first group: two pairs
    w16(&mut p, 1);
    w16(&mut p, 2);
    w16(&mut p, 3);
    w16(&mut p, 4);
    w16(&mut p, 0); // second group: empty
    w32(&mut p, 0); // no compression info
    let mut r = PositionTracker::new(p);
    let k = AnimationKey::decode(&mut r, NoCtx).unwrap();
    assert_eq!(k.interpolation_type, Interpolation::CubicSpline);
    match &k.keys {
        AnimationKeys::Uvs(v) => {
            assert_eq!(v, &vec![Uv { u: 1, v: 3 }, Uv { u: 2, v: 4 }]);
        }
        _ => panic!("expected uv keys"),
    }
}

#[test]
fn interpolation_unknown_discriminant_fails() {
    let mut bytes = Vec::new();
    wi32(&mut bytes, 5);
    let mut r = PositionTracker::new(bytes);
    assert_eq!(
        Interpolation::decode(&mut r, NoCtx),
        Err(DecodeError::ConversionFailure)
    );
}

#[test]
fn visibility_state_is_zero_or_one() {
    let mut r = PositionTracker::new(vec![0, 1, 2]);
    assert_eq!(VisibilityState::decode(&mut r, NoCtx), Ok(VisibilityState::Off));
    assert_eq!(VisibilityState::decode(&mut r, NoCtx), Ok(VisibilityState::On));
    assert_eq!(
        VisibilityState::decode(&mut r, NoCtx),
        Err(DecodeError::ConversionFailure)
    );
}

#[test]
fn clump_bones_and_absent_mirror_data() {
    let mut bytes = Vec::new();
    w32(&mut bytes, 1); // base flags
    w32(&mut bytes, 2); // name hash
    bytes.extend_from_slice(&3u64.to_le_bytes()); // flags
    w32(&mut bytes, 4); // floor flags
    wi32(&mut bytes, 1); // one bone
    w32(&mut bytes, 99); // bone id
    for _ in 0..12 {
        w32(&mut bytes, 0); // inverted base pose rows
    }
    bytes.extend_from_slice(&0u64.to_le_bytes()); // inverted base pose flags
    w32(&mut bytes, 0); // no hierarchy
    w32(&mut bytes, 7); // default animation hash
    w32(&mut bytes, 0); // mirror data absent
    let mut r = PositionTracker::new(bytes);
    let c = Clump::decode(&mut r, NoCtx).unwrap();
    assert_eq!(c.bone_count.len(), 1);
    assert_eq!(c.bone_count[0].bone_id, 99);
    assert_eq!(c.mirror_data, None);
    assert_eq!(c.default_animation_hash, 7);
}

#[test]
fn frame_name_is_a_plain_string() {
    let mut bytes = Vec::new();
    for _ in 0..2 {
        for _ in 0..12 {
            w32(&mut bytes, 0);
        }
        bytes.extend_from_slice(&0u64.to_le_bytes());
    }
    wi32(&mut bytes, -1); // bone index
    w32(&mut bytes, 0); // flags
    w32(&mut bytes, 5); // id
    wi32(&mut bytes, 4);
    bytes.extend_from_slice(b"root");
    let mut r = PositionTracker::new(bytes);
    let f = Frame::decode(&mut r, NoCtx).unwrap();
    assert_eq!(f.bone_index, -1);
    assert_eq!(f.id, 5);
    assert_eq!(f.name, b"root".to_vec());
}
