//! Per-record decoders on concrete byte sequences: value types, version
//! gating, flag-driven layouts, conditional slots and the sentinel link
//! run.

use spooky_bsp::algebra::{FloatBits, Matrix, Vector4, FLOAT_ONE_BITS};
use spooky_bsp::chunk::light::{Light, LIGHT_SWITCH_LAYER_VERSION};
use spooky_bsp::chunk::material::MaterialTexture;
use spooky_bsp::chunk::model_part::{Vertex, HAS_INDICES, HAS_VERTEX};
use spooky_bsp::chunk::navigation_mesh::{decode_links, Link, NavigationMesh};
use spooky_bsp::chunk::occlusion::OcclusionBranch;
use spooky_bsp::chunk::sector_octree::SectorOctreeOctant;
use spooky_bsp::chunk::world::World;
use spooky_bsp::chunk::zones::{Zones, ZONE_TOP_VERSION};
use spooky_bsp::color::{Rgb, Rgba};
use spooky_bsp::decode::{Decode, DecodeError, NoCtx, PositionTracker};

fn w32(out: &mut Vec<u8>, x: u32) {
    out.extend_from_slice(&x.to_le_bytes());
}

fn wi32(out: &mut Vec<u8>, x: i32) {
    out.extend_from_slice(&x.to_le_bytes());
}

fn w16(out: &mut Vec<u8>, x: u16) {
    out.extend_from_slice(&x.to_le_bytes());
}

fn wf(out: &mut Vec<u8>, bits: u32) {
    out.extend_from_slice(&bits.to_le_bytes());
}

fn wstr0(out: &mut Vec<u8>) {
    wi32(out, 0);
}

#[test]
fn rgba_from_i32_channels_keeps_low_bytes() {
    let mut bytes = Vec::new();
    wi32(&mut bytes, 0x101);
    wi32(&mut bytes, 2);
    wi32(&mut bytes, 3);
    wi32(&mut bytes, 4);
    let mut r = PositionTracker::new(bytes);
    assert_eq!(
        Rgba::decode_i32(&mut r),
        Ok(Rgba { r: 1, g: 2, b: 3, a: 4 })
    );
    assert_eq!(r.position(), 16);
}

#[test]
fn rgb_widening_zeroes_alpha() {
    let mut r = PositionTracker::new(vec![9, 8, 7]);
    let c = Rgb::decode(&mut r, NoCtx).unwrap();
    assert_eq!(Rgba::from_rgb(c), Rgba { r: 9, g: 8, b: 7, a: 0 });
}

#[test]
fn matrix_rows_widened_position_gets_unit_w() {
    let mut bytes = Vec::new();
    for i in 0..12u32 {
        wf(&mut bytes, i);
    }
    bytes.extend_from_slice(&0xAABBCCDD11223344u64.to_le_bytes());
    let mut r = PositionTracker::new(bytes);
    let m = Matrix::decode(&mut r, NoCtx).unwrap();
    assert_eq!(
        m.right,
        Vector4 {
            x: FloatBits { bits: 0 },
            y: FloatBits { bits: 1 },
            z: FloatBits { bits: 2 },
            w: FloatBits { bits: 0 },
        }
    );
    assert_eq!(m.position.w, FloatBits { bits: FLOAT_ONE_BITS });
    assert_eq!(m.flags, 0xAABBCCDD11223344);
    assert_eq!(r.position(), 56);
}

fn light_payload() -> Vec<u8> {
    let mut bytes = Vec::new();
    w32(&mut bytes, 1);
    wi32(&mut bytes, 2);
    w32(&mut bytes, 3);
    wf(&mut bytes, 0x40000000);
    bytes.extend_from_slice(&[10, 20, 30, 40]);
    wf(&mut bytes, 0x3F000000);
    wf(&mut bytes, 0x3E800000);
    bytes
}

#[test]
fn light_old_version_leaves_switch_layer_absent() {
    let mut r = PositionTracker::new(light_payload());
    let l = Light::decode(&mut r, LIGHT_SWITCH_LAYER_VERSION - 1).unwrap();
    assert_eq!(l.light_switch_layer_index, None);
    assert_eq!(r.position(), 28);
}

#[test]
fn light_new_version_reads_switch_layer() {
    let mut bytes = light_payload();
    w32(&mut bytes, 77);
    let mut r = PositionTracker::new(bytes);
    let l = Light::decode(&mut r, LIGHT_SWITCH_LAYER_VERSION).unwrap();
    assert_eq!(l.light_switch_layer_index, Some(77));
    assert_eq!(r.position(), 32);
}

#[test]
fn sentinel_link_run_stops_at_and_consumes_sentinel() {
    let mut bytes = Vec::new();
    w32(&mut bytes, 5);
    w32(&mut bytes, 1);
    w32(&mut bytes, 7);
    w32(&mut bytes, 2);
    w32(&mut bytes, 0xFFFFFFFF);
    w32(&mut bytes, 0x5555);
    let mut r = PositionTracker::new(bytes);
    let links = decode_links(&mut r).unwrap();
    assert_eq!(
        links,
        vec![
            Link { waypoint_index: 5, flags: 1 },
            Link { waypoint_index: 7, flags: 2 },
        ]
    );
    assert_eq!(r.position(), 20);
}

#[test]
fn navigation_mesh_counts_then_sentinel_links() {
    let mut bytes = Vec::new();
    wi32(&mut bytes, 1);
    wi32(&mut bytes, 1);
    for _ in 0..3 {
        wf(&mut bytes, 0);
    }
    w32(&mut bytes, 9);
    w32(&mut bytes, 4);
    w32(&mut bytes, 6);
    w32(&mut bytes, 0xFFFFFFFF);
    let mut r = PositionTracker::new(bytes);
    let nm = NavigationMesh::decode(&mut r, NoCtx).unwrap();
    assert_eq!(nm.waypoints.len(), 1);
    assert_eq!(nm.waypoints[0].flags, 9);
    assert_eq!(nm.links, vec![Link { waypoint_index: 4, flags: 6 }]);
}

#[test]
fn navigation_mesh_negative_waypoint_count_fails() {
    let mut bytes = Vec::new();
    wi32(&mut bytes, -1);
    wi32(&mut bytes, 0);
    let mut r = PositionTracker::new(bytes);
    assert_eq!(
        NavigationMesh::decode(&mut r, NoCtx),
        Err(DecodeError::ConversionFailure)
    );
}

#[test]
fn vertex_layout_follows_flag_word() {
    let flags: u32 = HAS_VERTEX | HAS_INDICES | 2;
    let mut bytes = Vec::new();
    wf(&mut bytes, 100);
    wf(&mut bytes, 101);
    wf(&mut bytes, 102);
    w16(&mut bytes, 8);
    w16(&mut bytes, 9);
    for i in 0..4u32 {
        wf(&mut bytes, 200 + i);
    }
    let mut r = PositionTracker::new(bytes);
    let v = Vertex::decode(&mut r, flags).unwrap();
    assert!(v.vertex.is_some());
    assert_eq!(v.normal, None);
    assert_eq!(v.diffuse, None);
    assert_eq!(v.indices, Some((8, 9)));
    assert_eq!(v.uvs.len(), 2);
    assert_eq!(v.uvs[1], (FloatBits { bits: 202 }, FloatBits { bits: 203 }));
    assert_eq!(r.position(), 32);
}

#[test]
fn material_texture_empty_name_reads_no_trailing_fields() {
    let mut bytes = Vec::new();
    w32(&mut bytes, 3);
    wstr0(&mut bytes);
    let mut r = PositionTracker::new(bytes);
    let t = MaterialTexture::decode(&mut r, NoCtx).unwrap();
    assert_eq!(t.uv_set, 3);
    assert_eq!(t.name, Vec::<u8>::new());
    assert_eq!(t.format, None);
    assert_eq!(t.hash, None);
    assert_eq!(r.position(), 8);
}

#[test]
fn material_texture_named_slot_reads_all_fields() {
    let mut bytes = Vec::new();
    w32(&mut bytes, 0);
    wi32(&mut bytes, 2);
    w32(&mut bytes, 'a' as u32);
    w32(&mut bytes, 0);
    wi32(&mut bytes, 5);
    wi32(&mut bytes, 6);
    wi32(&mut bytes, 7);
    wstr0(&mut bytes);
    for ch in [1i32, 2, 3, 4] {
        wi32(&mut bytes, ch);
    }
    w32(&mut bytes, 0xFEED);
    let mut r = PositionTracker::new(bytes);
    let t = MaterialTexture::decode(&mut r, NoCtx).unwrap();
    assert_eq!(t.name, b"a".to_vec());
    assert_eq!(t.format, Some(5));
    assert_eq!(t.filter, Some(6));
    assert_eq!(t.address, Some(7));
    assert_eq!(t.mask_name, Some(vec![]));
    assert_eq!(t.border_color, Some(Rgba { r: 1, g: 2, b: 3, a: 4 }));
    assert_eq!(t.hash, Some(0xFEED));
}

#[test]
fn occlusion_branch_plane_bsp_omits_child_pointers() {
    let mut bytes = Vec::new();
    for i in 0..4u32 {
        wf(&mut bytes, i);
    }
    w32(&mut bytes, 11);
    w32(&mut bytes, 22);
    let mut r = PositionTracker::new(bytes);
    let b = OcclusionBranch::decode(&mut r, true).unwrap();
    assert_eq!(b.negative_leaf, 11);
    assert_eq!(b.negative, 0);
    assert_eq!(b.positive_leaf, 22);
    assert_eq!(b.positive, 0);
    assert_eq!(r.position(), 24);
}

#[test]
fn occlusion_branch_full_mode_reads_child_pointers() {
    let mut bytes = Vec::new();
    for i in 0..4u32 {
        wf(&mut bytes, i);
    }
    for v in [11u32, 12, 22, 23] {
        w32(&mut bytes, v);
    }
    let mut r = PositionTracker::new(bytes);
    let b = OcclusionBranch::decode(&mut r, false).unwrap();
    assert_eq!(b.negative, 12);
    assert_eq!(b.positive, 23);
    assert_eq!(r.position(), 32);
}

#[test]
fn sector_octree_octant_leaf_or_subtree() {
    let mut bytes = Vec::new();
    for _ in 0..6 {
        wf(&mut bytes, 0);
    }
    w32(&mut bytes, 5);
    w32(&mut bytes, 1);
    w32(&mut bytes, 42);
    let mut r = PositionTracker::new(bytes);
    match SectorOctreeOctant::decode(&mut r, NoCtx).unwrap() {
        SectorOctreeOctant::Leaf { flags, leaf_index, .. } => {
            assert_eq!(flags, 5);
            assert_eq!(leaf_index, 42);
        }
        _ => panic!("expected a leaf octant"),
    }
}

fn world_payload(zone_count: i32) -> Vec<u8> {
    let mut bytes = Vec::new();
    w32(&mut bytes, 1);
    bytes.extend_from_slice(&[10, 11, 12]);
    wi32(&mut bytes, 0);
    wi32(&mut bytes, zone_count);
    for _ in 0..4 {
        w32(&mut bytes, 0);
    }
    bytes
}

#[test]
fn world_widens_ambient_and_keeps_zone_count() {
    let mut r = PositionTracker::new(world_payload(3));
    let w = World::decode(&mut r, NoCtx).unwrap();
    assert_eq!(w.ambient, Rgba { r: 10, g: 11, b: 12, a: 0 });
    assert_eq!(w.zone_count, 3);
    assert_eq!(w.floors.len(), 0);
}

#[test]
fn zones_take_count_from_world() {
    let mut bytes = Vec::new();
    wi32(&mut bytes, 0);
    for z in 0..2u32 {
        for _ in 0..6 {
            wf(&mut bytes, 0);
        }
        w32(&mut bytes, 100 + z);
        for _ in 0..4 {
            w32(&mut bytes, 0);
        }
    }
    let mut r = PositionTracker::new(bytes);
    let zs = Zones::decode(&mut r, ZONE_TOP_VERSION - 1, 2).unwrap();
    assert_eq!(zs.zones.len(), 2);
    assert_eq!(zs.zones[0].hash, 100);
    assert_eq!(zs.zones[1].hash, 101);
    assert_eq!(zs.zones[0].zone_top, None);
}

#[test]
fn zone_top_present_from_threshold_version() {
    let mut bytes = Vec::new();
    wi32(&mut bytes, 0);
    for _ in 0..6 {
        wf(&mut bytes, 0);
    }
    for v in [1u32, 2, 3, 4, 5, 77] {
        w32(&mut bytes, v);
    }
    let mut r = PositionTracker::new(bytes);
    let zs = Zones::decode(&mut r, ZONE_TOP_VERSION, 1).unwrap();
    assert_eq!(zs.zones[0].zone_top, Some(77));
}
