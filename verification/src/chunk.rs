//! One module per record type of the format, plus the record tag set, the
//! 12-byte record header and the tag-driven dispatch.

pub mod animation_dictionary;
pub mod animation_key;
pub mod atomic_mesh;
pub mod camera_projection;
pub mod clips;
pub mod clump;
pub mod collision;
pub mod entities;
pub mod entity;
pub mod frame;
pub mod frame_child;
pub mod light;
pub mod material;
pub mod mesh;
pub mod model_part;
pub mod navigation_mesh;
pub mod ngon_list;
pub mod null_box;
pub mod nulls;
pub mod occlusion;
pub mod sector_octree;
pub mod spline;
pub mod switchable_lights;
pub mod texture;
pub mod world;
pub mod zones;

use vstd::prelude::*;

use crate::chunk::animation_dictionary::{spec_parse_animation_dictionary, AnimationDictionary, AnimationDictionaryView};
use crate::chunk::animation_key::{spec_parse_animation_key, AnimationKey, AnimationKeyView};
use crate::chunk::atomic_mesh::{spec_parse_atomic_mesh, AtomicMesh};
use crate::chunk::camera_projection::{spec_parse_camera_projection, CameraProjection};
use crate::chunk::clips::{spec_parse_clips, Clips, ClipsView};
use crate::chunk::clump::{spec_parse_clump, Clump, ClumpView};
use crate::chunk::collision::{spec_parse_collision, Collision, CollisionView};
use crate::chunk::entities::{spec_parse_entities, Entities};
use crate::chunk::entity::{spec_parse_entity, Entity, EntityView};
use crate::chunk::frame::{spec_parse_frame, Frame, FrameView};
use crate::chunk::frame_child::{spec_parse_frame_child, FrameChild};
use crate::chunk::light::{spec_parse_light, Light};
use crate::chunk::material::{spec_parse_material, Material, MaterialView};
use crate::chunk::mesh::{spec_parse_mesh, Mesh};
use crate::chunk::model_part::{spec_parse_model_part, ModelPart, ModelPartView};
use crate::chunk::navigation_mesh::{spec_parse_navigation_mesh, NavigationMesh, NavigationMeshView};
use crate::chunk::ngon_list::{spec_parse_ngon_list, NGonList, NGonListView};
use crate::chunk::null_box::{spec_parse_null_box, NullBox, NullBoxView};
use crate::chunk::nulls::{Null, NullView, Nulls};
use crate::chunk::occlusion::{spec_parse_occlusion, Occlusion, OcclusionView};
use crate::chunk::sector_octree::{spec_parse_sector_octree, SectorOctree, SectorOctreeView};
use crate::chunk::spline::{spec_parse_spline, Spline, SplineView};
use crate::chunk::switchable_lights::{spec_parse_switchable_lights, SwitchableLights, SwitchableLightsView};
use crate::chunk::texture::{Texture, TextureView};
use crate::chunk::world::{spec_parse_world, World, WorldView};
use crate::chunk::zones::{spec_parse_zones, Zones, ZonesView};
use crate::decode::{
    spec_parse_i32, spec_parse_sequence, Decode, DecodeError, NoCtx, PositionTracker,
};

verus! {

/// The closed set of record type tags.
#[derive(Clone, Copy, Debug, PartialEq, Eq, Structural)]
pub enum ChunkType {
    GLProject,
    MaterialObj,
    ModelGroup,
    BoneObj,
    SPMesh,
    Collision,
    AtomicMesh,
    SkinObj,
    GLCamera,
    LightObj,
    LevelObj,
    Materials,
    SectorOctree,
    World,
    AnimationKey,
    AnimLib,
    OcclusionMesh,
    Occlusion,
    WpPoints,
    NavigationMesh,
    Zones,
    Area,
    LinkEmm,
    Animation,
    SpLights,
    Entities,
    Entity,
    Textures,
}

impl DeepView for ChunkType {
    type V = ChunkType;

    open spec fn deep_view(&self) -> ChunkType {
        *self
    }
}

/// The record type a raw tag stands for; any tag outside the known set is
/// a decode error for the whole document.
pub open spec fn spec_chunk_type_of(v: i32) -> Option<ChunkType> {
    if v == 1 {
        Some(ChunkType::GLProject)
    } else if v == 5 {
        Some(ChunkType::MaterialObj)
    } else if v == 1000 {
        Some(ChunkType::ModelGroup)
    } else if v == 1001 {
        Some(ChunkType::BoneObj)
    } else if v == 1002 {
        Some(ChunkType::SPMesh)
    } else if v == 1003 {
        Some(ChunkType::Collision)
    } else if v == 1004 {
        Some(ChunkType::AtomicMesh)
    } else if v == 1005 {
        Some(ChunkType::SkinObj)
    } else if v == 1006 {
        Some(ChunkType::GLCamera)
    } else if v == 1007 {
        Some(ChunkType::LightObj)
    } else if v == 1009 {
        Some(ChunkType::LevelObj)
    } else if v == 1010 {
        Some(ChunkType::Materials)
    } else if v == 1011 {
        Some(ChunkType::SectorOctree)
    } else if v == 1012 {
        Some(ChunkType::World)
    } else if v == 1015 {
        Some(ChunkType::AnimationKey)
    } else if v == 1017 {
        Some(ChunkType::AnimLib)
    } else if v == 1018 {
        Some(ChunkType::OcclusionMesh)
    } else if v == 1019 {
        Some(ChunkType::Occlusion)
    } else if v == 1020 {
        Some(ChunkType::WpPoints)
    } else if v == 1021 {
        Some(ChunkType::NavigationMesh)
    } else if v == 1023 {
        Some(ChunkType::Zones)
    } else if v == 1024 {
        Some(ChunkType::Area)
    } else if v == 1026 {
        Some(ChunkType::LinkEmm)
    } else if v == 1027 {
        Some(ChunkType::Animation)
    } else if v == 1029 {
        Some(ChunkType::SpLights)
    } else if v == 20000 {
        Some(ChunkType::Entities)
    } else if v == 20001 {
        Some(ChunkType::Entity)
    } else if v == 20002 {
        Some(ChunkType::Textures)
    } else {
        None
    }
}

impl ChunkType {
    /// The record type a raw tag stands for, if any.
    pub fn from_i32(v: i32) -> (res: Option<ChunkType>)
        ensures
            res == spec_chunk_type_of(v),
    {
        if v == 1 {
            Some(ChunkType::GLProject)
        } else if v == 5 {
            Some(ChunkType::MaterialObj)
        } else if v == 1000 {
            Some(ChunkType::ModelGroup)
        } else if v == 1001 {
            Some(ChunkType::BoneObj)
        } else if v == 1002 {
            Some(ChunkType::SPMesh)
        } else if v == 1003 {
            Some(ChunkType::Collision)
        } else if v == 1004 {
            Some(ChunkType::AtomicMesh)
        } else if v == 1005 {
            Some(ChunkType::SkinObj)
        } else if v == 1006 {
            Some(ChunkType::GLCamera)
        } else if v == 1007 {
            Some(ChunkType::LightObj)
        } else if v == 1009 {
            Some(ChunkType::LevelObj)
        } else if v == 1010 {
            Some(ChunkType::Materials)
        } else if v == 1011 {
            Some(ChunkType::SectorOctree)
        } else if v == 1012 {
            Some(ChunkType::World)
        } else if v == 1015 {
            Some(ChunkType::AnimationKey)
        } else if v == 1017 {
            Some(ChunkType::AnimLib)
        } else if v == 1018 {
            Some(ChunkType::OcclusionMesh)
        } else if v == 1019 {
            Some(ChunkType::Occlusion)
        } else if v == 1020 {
            Some(ChunkType::WpPoints)
        } else if v == 1021 {
            Some(ChunkType::NavigationMesh)
        } else if v == 1023 {
            Some(ChunkType::Zones)
        } else if v == 1024 {
            Some(ChunkType::Area)
        } else if v == 1026 {
            Some(ChunkType::LinkEmm)
        } else if v == 1027 {
            Some(ChunkType::Animation)
        } else if v == 1029 {
            Some(ChunkType::SpLights)
        } else if v == 20000 {
            Some(ChunkType::Entities)
        } else if v == 20001 {
            Some(ChunkType::Entity)
        } else if v == 20002 {
            Some(ChunkType::Textures)
        } else {
            None
        }
    }
}

/// The 12-byte header that precedes every record payload.
#[derive(Clone, Copy, Debug, PartialEq, Eq, Structural)]
pub struct ChunkHeader {
    pub chunk_type: ChunkType,
    pub size: i32,
    pub version: i32,
}

impl ChunkHeader {
    pub fn get_chunk_type(&self) -> (t: ChunkType)
        ensures
            t == self.chunk_type,
    {
        self.chunk_type
    }

    pub fn get_size(&self) -> (sz: i32)
        ensures
            sz == self.size,
    {
        self.size
    }

    pub fn get_version(&self) -> (v: i32)
        ensures
            v == self.version,
    {
        self.version
    }
}

impl DeepView for ChunkHeader {
    type V = ChunkHeader;

    open spec fn deep_view(&self) -> ChunkHeader {
        *self
    }
}

/// A header: tag, declared payload size, format version.  An unknown tag
/// or a negative size is a conversion failure; a truncated header is an
/// end-of-stream failure.
pub open spec fn spec_parse_chunk_header(s: Seq<u8>, pos: int) -> Result<
    (ChunkHeader, int),
    DecodeError,
> {
    match spec_parse_i32(s, pos) {
        Err(e) => Err(e),
        Ok((tag, pos)) => match spec_chunk_type_of(tag) {
            None => Err(DecodeError::ConversionFailure),
            Some(chunk_type) => match spec_parse_i32(s, pos) {
                Err(e) => Err(e),
                Ok((size, pos)) => if size < 0 {
                    Err(DecodeError::ConversionFailure)
                } else {
                    match spec_parse_i32(s, pos) {
                        Err(e) => Err(e),
                        Ok((version, pos)) => Ok((ChunkHeader { chunk_type, size, version }, pos)),
                    }
                },
            },
        },
    }
}

impl Decode<NoCtx> for ChunkHeader {
    open spec fn spec_parse(s: Seq<u8>, pos: int, c: NoCtx) -> Result<
        (ChunkHeader, int),
        DecodeError,
    > {
        spec_parse_chunk_header(s, pos)
    }

    proof fn parse_bounds(s: Seq<u8>, pos: int, c: NoCtx) {
    }

    fn decode(r: &mut PositionTracker, c: NoCtx) -> (res: Result<ChunkHeader, DecodeError>) {
        let ghost s = old(r).data();
        let ghost p0 = old(r).pos();
        let tag = match r.read_i32() {
            Ok(v) => v,
            Err(e) => {
                proof {
                    assert(spec_parse_chunk_header(s, p0) == Err::<(ChunkHeader, int), DecodeError>(
                        e,
                    ));
                }
                return Err(e);
            },
        };
        let chunk_type = match ChunkType::from_i32(tag) {
            Some(v) => v,
            None => {
                proof {
                    assert(spec_parse_chunk_header(s, p0) == Err::<(ChunkHeader, int), DecodeError>(
                        DecodeError::ConversionFailure,
                    ));
                }
                return Err(DecodeError::ConversionFailure);
            },
        };
        let size = match r.read_i32() {
            Ok(v) => v,
            Err(e) => {
                proof {
                    assert(spec_parse_chunk_header(s, p0) == Err::<(ChunkHeader, int), DecodeError>(
                        e,
                    ));
                }
                return Err(e);
            },
        };
        if size < 0 {
            proof {
                assert(spec_parse_chunk_header(s, p0) == Err::<(ChunkHeader, int), DecodeError>(
                    DecodeError::ConversionFailure,
                ));
            }
            return Err(DecodeError::ConversionFailure);
        }
        let version = match r.read_i32() {
            Ok(v) => v,
            Err(e) => {
                proof {
                    assert(spec_parse_chunk_header(s, p0) == Err::<(ChunkHeader, int), DecodeError>(
                        e,
                    ));
                }
                return Err(e);
            },
        };
        let out = ChunkHeader { chunk_type, size, version };
        proof {
            assert(spec_parse_chunk_header(s, p0) == Ok::<(ChunkHeader, int), DecodeError>(
                (out, r.pos()),
            ));
            assert(<ChunkHeader as Decode<NoCtx>>::spec_parse(s, p0, NoCtx)
                == spec_parse_chunk_header(s, p0));
        }
        Ok(out)
    }
}

/// One decoded record, tagged by its record type.
#[derive(Clone, Debug, PartialEq, Eq)]
pub enum Chunk {
    GLProject(CameraProjection),
    MaterialObj(Material),
    ModelGroup(Mesh),
    BoneObj(Frame),
    SPMesh(ModelPart),
    Collision(Collision),
    AtomicMesh(AtomicMesh),
    SkinObj(Clump),
    GLCamera(CameraProjection),
    LightObj(Light),
    LevelObj(FrameChild),
    Materials(i32),
    SectorOctree(SectorOctree),
    World(World),
    AnimationKey(AnimationKey),
    AnimLib(AnimationDictionary),
    OcclusionMesh(NGonList),
    Occlusion(Occlusion),
    WpPoints(Nulls),
    NavigationMesh(NavigationMesh),
    Zones(Zones),
    Area(Spline),
    LinkEmm(NullBox),
    Animation(Clips),
    SpLights(SwitchableLights),
    Entities(Entities),
    Entity(Entity),
    Textures(Vec<Texture>),
}

pub enum ChunkView {
    GLProject(CameraProjection),
    MaterialObj(MaterialView),
    ModelGroup(Mesh),
    BoneObj(FrameView),
    SPMesh(ModelPartView),
    Collision(CollisionView),
    AtomicMesh(AtomicMesh),
    SkinObj(ClumpView),
    GLCamera(CameraProjection),
    LightObj(Light),
    LevelObj(FrameChild),
    Materials(i32),
    SectorOctree(SectorOctreeView),
    World(WorldView),
    AnimationKey(AnimationKeyView),
    AnimLib(AnimationDictionaryView),
    OcclusionMesh(NGonListView),
    Occlusion(OcclusionView),
    WpPoints(Seq<NullView>),
    NavigationMesh(NavigationMeshView),
    Zones(ZonesView),
    Area(SplineView),
    LinkEmm(NullBoxView),
    Animation(ClipsView),
    SpLights(SwitchableLightsView),
    Entities(Entities),
    Entity(EntityView),
    Textures(Seq<TextureView>),
}

impl DeepView for Chunk {
    type V = ChunkView;

    open spec fn deep_view(&self) -> ChunkView {
        match self {
            Chunk::GLProject(v) => ChunkView::GLProject(*v),
            Chunk::MaterialObj(v) => ChunkView::MaterialObj(v.deep_view()),
            Chunk::ModelGroup(v) => ChunkView::ModelGroup(*v),
            Chunk::BoneObj(v) => ChunkView::BoneObj(v.deep_view()),
            Chunk::SPMesh(v) => ChunkView::SPMesh(v.deep_view()),
            Chunk::Collision(v) => ChunkView::Collision(v.deep_view()),
            Chunk::AtomicMesh(v) => ChunkView::AtomicMesh(*v),
            Chunk::SkinObj(v) => ChunkView::SkinObj(v.deep_view()),
            Chunk::GLCamera(v) => ChunkView::GLCamera(*v),
            Chunk::LightObj(v) => ChunkView::LightObj(*v),
            Chunk::LevelObj(v) => ChunkView::LevelObj(*v),
            Chunk::Materials(v) => ChunkView::Materials(*v),
            Chunk::SectorOctree(v) => ChunkView::SectorOctree(v.deep_view()),
            Chunk::World(v) => ChunkView::World(v.deep_view()),
            Chunk::AnimationKey(v) => ChunkView::AnimationKey(v.deep_view()),
            Chunk::AnimLib(v) => ChunkView::AnimLib(v.deep_view()),
            Chunk::OcclusionMesh(v) => ChunkView::OcclusionMesh(v.deep_view()),
            Chunk::Occlusion(v) => ChunkView::Occlusion(v.deep_view()),
            Chunk::WpPoints(v) => ChunkView::WpPoints(v.deep_view()),
            Chunk::NavigationMesh(v) => ChunkView::NavigationMesh(v.deep_view()),
            Chunk::Zones(v) => ChunkView::Zones(v.deep_view()),
            Chunk::Area(v) => ChunkView::Area(v.deep_view()),
            Chunk::LinkEmm(v) => ChunkView::LinkEmm(v.deep_view()),
            Chunk::Animation(v) => ChunkView::Animation(v.deep_view()),
            Chunk::SpLights(v) => ChunkView::SpLights(v.deep_view()),
            Chunk::Entities(v) => ChunkView::Entities(*v),
            Chunk::Entity(v) => ChunkView::Entity(v.deep_view()),
            Chunk::Textures(v) => ChunkView::Textures(v.deep_view()),
        }
    }
}

/// The payload for a parsed header.  The materials pseudo-record is a bare
/// count (negative counts are rejected); the zone-set record demands that
/// a world record was seen before it.
#[verifier::opaque]
pub open spec fn spec_parse_chunk_payload(
    s: Seq<u8>,
    pos: int,
    h: ChunkHeader,
    world: Option<WorldView>,
) -> Result<(ChunkView, int), DecodeError> {
    match h.chunk_type {
        ChunkType::Textures => match spec_parse_sequence::<NoCtx, Texture>(s, pos, NoCtx) {
            Err(e) => Err(e),
            Ok((v, pos)) => Ok((ChunkView::Textures(v), pos)),
        },
        ChunkType::Materials => match spec_parse_i32(s, pos) {
            Err(e) => Err(e),
            Ok((count, pos)) => if count < 0 {
                Err(DecodeError::ConversionFailure)
            } else {
                Ok((ChunkView::Materials(count), pos))
            },
        },
        ChunkType::MaterialObj => match spec_parse_material(s, pos) {
            Err(e) => Err(e),
            Ok((v, pos)) => Ok((ChunkView::MaterialObj(v), pos)),
        },
        ChunkType::World => match spec_parse_world(s, pos) {
            Err(e) => Err(e),
            Ok((v, pos)) => Ok((ChunkView::World(v), pos)),
        },
        ChunkType::ModelGroup => match spec_parse_mesh(s, pos) {
            Err(e) => Err(e),
            Ok((v, pos)) => Ok((ChunkView::ModelGroup(v), pos)),
        },
        ChunkType::SPMesh => match spec_parse_model_part(s, pos) {
            Err(e) => Err(e),
            Ok((v, pos)) => Ok((ChunkView::SPMesh(v), pos)),
        },
        ChunkType::SectorOctree => match spec_parse_sector_octree(s, pos) {
            Err(e) => Err(e),
            Ok((v, pos)) => Ok((ChunkView::SectorOctree(v), pos)),
        },
        ChunkType::Occlusion => match spec_parse_occlusion(s, pos) {
            Err(e) => Err(e),
            Ok((v, pos)) => Ok((ChunkView::Occlusion(v), pos)),
        },
        ChunkType::LevelObj => match spec_parse_frame_child(s, pos) {
            Err(e) => Err(e),
            Ok((v, pos)) => Ok((ChunkView::LevelObj(v), pos)),
        },
        ChunkType::LinkEmm => match spec_parse_null_box(s, pos) {
            Err(e) => Err(e),
            Ok((v, pos)) => Ok((ChunkView::LinkEmm(v), pos)),
        },
        ChunkType::AtomicMesh => match spec_parse_atomic_mesh(s, pos) {
            Err(e) => Err(e),
            Ok((v, pos)) => Ok((ChunkView::AtomicMesh(v), pos)),
        },
        ChunkType::GLCamera => match spec_parse_camera_projection(s, pos) {
            Err(e) => Err(e),
            Ok((v, pos)) => Ok((ChunkView::GLCamera(v), pos)),
        },
        ChunkType::GLProject => match spec_parse_camera_projection(s, pos) {
            Err(e) => Err(e),
            Ok((v, pos)) => Ok((ChunkView::GLProject(v), pos)),
        },
        ChunkType::LightObj => match spec_parse_light(s, pos, h.version) {
            Err(e) => Err(e),
            Ok((v, pos)) => Ok((ChunkView::LightObj(v), pos)),
        },
        ChunkType::OcclusionMesh => match spec_parse_ngon_list(s, pos) {
            Err(e) => Err(e),
            Ok((v, pos)) => Ok((ChunkView::OcclusionMesh(v), pos)),
        },
        ChunkType::Area => match spec_parse_spline(s, pos) {
            Err(e) => Err(e),
            Ok((v, pos)) => Ok((ChunkView::Area(v), pos)),
        },
        ChunkType::BoneObj => match spec_parse_frame(s, pos) {
            Err(e) => Err(e),
            Ok((v, pos)) => Ok((ChunkView::BoneObj(v), pos)),
        },
        ChunkType::WpPoints => match spec_parse_sequence::<NoCtx, Null>(s, pos, NoCtx) {
            Err(e) => Err(e),
            Ok((v, pos)) => Ok((ChunkView::WpPoints(v), pos)),
        },
        ChunkType::Entities => match spec_parse_entities(s, pos) {
            Err(e) => Err(e),
            Ok((v, pos)) => Ok((ChunkView::Entities(v), pos)),
        },
        ChunkType::Entity => match spec_parse_entity(s, pos) {
            Err(e) => Err(e),
            Ok((v, pos)) => Ok((ChunkView::Entity(v), pos)),
        },
        ChunkType::SkinObj => match spec_parse_clump(s, pos) {
            Err(e) => Err(e),
            Ok((v, pos)) => Ok((ChunkView::SkinObj(v), pos)),
        },
        ChunkType::AnimLib => match spec_parse_animation_dictionary(s, pos) {
            Err(e) => Err(e),
            Ok((v, pos)) => Ok((ChunkView::AnimLib(v), pos)),
        },
        ChunkType::Animation => match spec_parse_clips(s, pos) {
            Err(e) => Err(e),
            Ok((v, pos)) => Ok((ChunkView::Animation(v), pos)),
        },
        ChunkType::AnimationKey => match spec_parse_animation_key(s, pos) {
            Err(e) => Err(e),
            Ok((v, pos)) => Ok((ChunkView::AnimationKey(v), pos)),
        },
        ChunkType::Zones => match world {
            None => Err(DecodeError::ConversionFailure),
            Some(w) => match spec_parse_zones(s, pos, h.version, w.zone_count) {
                Err(e) => Err(e),
                Ok((v, pos)) => Ok((ChunkView::Zones(v), pos)),
            },
        },
        ChunkType::SpLights => match spec_parse_switchable_lights(s, pos) {
            Err(e) => Err(e),
            Ok((v, pos)) => Ok((ChunkView::SpLights(v), pos)),
        },
        ChunkType::Collision => match spec_parse_collision(s, pos) {
            Err(e) => Err(e),
            Ok((v, pos)) => Ok((ChunkView::Collision(v), pos)),
        },
        ChunkType::NavigationMesh => match spec_parse_navigation_mesh(s, pos) {
            Err(e) => Err(e),
            Ok((v, pos)) => Ok((ChunkView::NavigationMesh(v), pos)),
        },
    }
}

/// The payload equation for one record tag.
proof fn lemma_payload_textures(s: Seq<u8>, pos: int, h: ChunkHeader, world: Option<WorldView>)
    requires
        h.chunk_type == ChunkType::Textures,
    ensures
        spec_parse_chunk_payload(s, pos, h, world) == (match spec_parse_sequence::<NoCtx, Texture>(s, pos, NoCtx) {
            Err(e) => Err::<(ChunkView, int), DecodeError>(e),
            Ok((v, p)) => Ok::<(ChunkView, int), DecodeError>((ChunkView::Textures(v), p)),
        }),
{
    reveal(spec_parse_chunk_payload);
}

/// The payload equation for the materials pseudo-record tag.
proof fn lemma_payload_materials(s: Seq<u8>, pos: int, h: ChunkHeader, world: Option<WorldView>)
    requires
        h.chunk_type == ChunkType::Materials,
    ensures
        spec_parse_chunk_payload(s, pos, h, world) == (match spec_parse_i32(s, pos) {
            Err(e) => Err::<(ChunkView, int), DecodeError>(e),
            Ok((count, p)) => if count < 0 {
                Err::<(ChunkView, int), DecodeError>(DecodeError::ConversionFailure)
            } else {
                Ok::<(ChunkView, int), DecodeError>((ChunkView::Materials(count), p))
            },
        }),
{
    reveal(spec_parse_chunk_payload);
}

/// The payload equation for one record tag.
proof fn lemma_payload_materialobj(s: Seq<u8>, pos: int, h: ChunkHeader, world: Option<WorldView>)
    requires
        h.chunk_type == ChunkType::MaterialObj,
    ensures
        spec_parse_chunk_payload(s, pos, h, world) == (match spec_parse_material(s, pos) {
            Err(e) => Err::<(ChunkView, int), DecodeError>(e),
            Ok((v, p)) => Ok::<(ChunkView, int), DecodeError>((ChunkView::MaterialObj(v), p)),
        }),
{
    reveal(spec_parse_chunk_payload);
}

/// The payload equation for one record tag.
proof fn lemma_payload_world(s: Seq<u8>, pos: int, h: ChunkHeader, world: Option<WorldView>)
    requires
        h.chunk_type == ChunkType::World,
    ensures
        spec_parse_chunk_payload(s, pos, h, world) == (match spec_parse_world(s, pos) {
            Err(e) => Err::<(ChunkView, int), DecodeError>(e),
            Ok((v, p)) => Ok::<(ChunkView, int), DecodeError>((ChunkView::World(v), p)),
        }),
{
    reveal(spec_parse_chunk_payload);
}

/// The payload equation for one record tag.
proof fn lemma_payload_modelgroup(s: Seq<u8>, pos: int, h: ChunkHeader, world: Option<WorldView>)
    requires
        h.chunk_type == ChunkType::ModelGroup,
    ensures
        spec_parse_chunk_payload(s, pos, h, world) == (match spec_parse_mesh(s, pos) {
            Err(e) => Err::<(ChunkView, int), DecodeError>(e),
            Ok((v, p)) => Ok::<(ChunkView, int), DecodeError>((ChunkView::ModelGroup(v), p)),
        }),
{
    reveal(spec_parse_chunk_payload);
}

/// The payload equation for one record tag.
proof fn lemma_payload_spmesh(s: Seq<u8>, pos: int, h: ChunkHeader, world: Option<WorldView>)
    requires
        h.chunk_type == ChunkType::SPMesh,
    ensures
        spec_parse_chunk_payload(s, pos, h, world) == (match spec_parse_model_part(s, pos) {
            Err(e) => Err::<(ChunkView, int), DecodeError>(e),
            Ok((v, p)) => Ok::<(ChunkView, int), DecodeError>((ChunkView::SPMesh(v), p)),
        }),
{
    reveal(spec_parse_chunk_payload);
}

/// The payload equation for one record tag.
proof fn lemma_payload_sectoroctree(s: Seq<u8>, pos: int, h: ChunkHeader, world: Option<WorldView>)
    requires
        h.chunk_type == ChunkType::SectorOctree,
    ensures
        spec_parse_chunk_payload(s, pos, h, world) == (match spec_parse_sector_octree(s, pos) {
            Err(e) => Err::<(ChunkView, int), DecodeError>(e),
            Ok((v, p)) => Ok::<(ChunkView, int), DecodeError>((ChunkView::SectorOctree(v), p)),
        }),
{
    reveal(spec_parse_chunk_payload);
}

/// The payload equation for one record tag.
proof fn lemma_payload_occlusion(s: Seq<u8>, pos: int, h: ChunkHeader, world: Option<WorldView>)
    requires
        h.chunk_type == ChunkType::Occlusion,
    ensures
        spec_parse_chunk_payload(s, pos, h, world) == (match spec_parse_occlusion(s, pos) {
            Err(e) => Err::<(ChunkView, int), DecodeError>(e),
            Ok((v, p)) => Ok::<(ChunkView, int), DecodeError>((ChunkView::Occlusion(v), p)),
        }),
{
    reveal(spec_parse_chunk_payload);
}

/// The payload equation for one record tag.
proof fn lemma_payload_levelobj(s: Seq<u8>, pos: int, h: ChunkHeader, world: Option<WorldView>)
    requires
        h.chunk_type == ChunkType::LevelObj,
    ensures
        spec_parse_chunk_payload(s, pos, h, world) == (match spec_parse_frame_child(s, pos) {
            Err(e) => Err::<(ChunkView, int), DecodeError>(e),
            Ok((v, p)) => Ok::<(ChunkView, int), DecodeError>((ChunkView::LevelObj(v), p)),
        }),
{
    reveal(spec_parse_chunk_payload);
}

/// The payload equation for one record tag.
proof fn lemma_payload_linkemm(s: Seq<u8>, pos: int, h: ChunkHeader, world: Option<WorldView>)
    requires
        h.chunk_type == ChunkType::LinkEmm,
    ensures
        spec_parse_chunk_payload(s, pos, h, world) == (match spec_parse_null_box(s, pos) {
            Err(e) => Err::<(ChunkView, int), DecodeError>(e),
            Ok((v, p)) => Ok::<(ChunkView, int), DecodeError>((ChunkView::LinkEmm(v), p)),
        }),
{
    reveal(spec_parse_chunk_payload);
}

/// The payload equation for one record tag.
proof fn lemma_payload_atomicmesh(s: Seq<u8>, pos: int, h: ChunkHeader, world: Option<WorldView>)
    requires
        h.chunk_type == ChunkType::AtomicMesh,
    ensures
        spec_parse_chunk_payload(s, pos, h, world) == (match spec_parse_atomic_mesh(s, pos) {
            Err(e) => Err::<(ChunkView, int), DecodeError>(e),
            Ok((v, p)) => Ok::<(ChunkView, int), DecodeError>((ChunkView::AtomicMesh(v), p)),
        }),
{
    reveal(spec_parse_chunk_payload);
}

/// The payload equation for one record tag.
proof fn lemma_payload_glcamera(s: Seq<u8>, pos: int, h: ChunkHeader, world: Option<WorldView>)
    requires
        h.chunk_type == ChunkType::GLCamera,
    ensures
        spec_parse_chunk_payload(s, pos, h, world) == (match spec_parse_camera_projection(s, pos) {
            Err(e) => Err::<(ChunkView, int), DecodeError>(e),
            Ok((v, p)) => Ok::<(ChunkView, int), DecodeError>((ChunkView::GLCamera(v), p)),
        }),
{
    reveal(spec_parse_chunk_payload);
}

/// The payload equation for one record tag.
proof fn lemma_payload_glproject(s: Seq<u8>, pos: int, h: ChunkHeader, world: Option<WorldView>)
    requires
        h.chunk_type == ChunkType::GLProject,
    ensures
        spec_parse_chunk_payload(s, pos, h, world) == (match spec_parse_camera_projection(s, pos) {
            Err(e) => Err::<(ChunkView, int), DecodeError>(e),
            Ok((v, p)) => Ok::<(ChunkView, int), DecodeError>((ChunkView::GLProject(v), p)),
        }),
{
    reveal(spec_parse_chunk_payload);
}

/// The payload equation for one record tag.
proof fn lemma_payload_lightobj(s: Seq<u8>, pos: int, h: ChunkHeader, world: Option<WorldView>)
    requires
        h.chunk_type == ChunkType::LightObj,
    ensures
        spec_parse_chunk_payload(s, pos, h, world) == (match spec_parse_light(s, pos, h.version) {
            Err(e) => Err::<(ChunkView, int), DecodeError>(e),
            Ok((v, p)) => Ok::<(ChunkView, int), DecodeError>((ChunkView::LightObj(v), p)),
        }),
{
    reveal(spec_parse_chunk_payload);
}

/// The payload equation for one record tag.
proof fn lemma_payload_occlusionmesh(s: Seq<u8>, pos: int, h: ChunkHeader, world: Option<WorldView>)
    requires
        h.chunk_type == ChunkType::OcclusionMesh,
    ensures
        spec_parse_chunk_payload(s, pos, h, world) == (match spec_parse_ngon_list(s, pos) {
            Err(e) => Err::<(ChunkView, int), DecodeError>(e),
            Ok((v, p)) => Ok::<(ChunkView, int), DecodeError>((ChunkView::OcclusionMesh(v), p)),
        }),
{
    reveal(spec_parse_chunk_payload);
}

/// The payload equation for one record tag.
proof fn lemma_payload_area(s: Seq<u8>, pos: int, h: ChunkHeader, world: Option<WorldView>)
    requires
        h.chunk_type == ChunkType::Area,
    ensures
        spec_parse_chunk_payload(s, pos, h, world) == (match spec_parse_spline(s, pos) {
            Err(e) => Err::<(ChunkView, int), DecodeError>(e),
            Ok((v, p)) => Ok::<(ChunkView, int), DecodeError>((ChunkView::Area(v), p)),
        }),
{
    reveal(spec_parse_chunk_payload);
}

/// The payload equation for one record tag.
proof fn lemma_payload_boneobj(s: Seq<u8>, pos: int, h: ChunkHeader, world: Option<WorldView>)
    requires
        h.chunk_type == ChunkType::BoneObj,
    ensures
        spec_parse_chunk_payload(s, pos, h, world) == (match spec_parse_frame(s, pos) {
            Err(e) => Err::<(ChunkView, int), DecodeError>(e),
            Ok((v, p)) => Ok::<(ChunkView, int), DecodeError>((ChunkView::BoneObj(v), p)),
        }),
{
    reveal(spec_parse_chunk_payload);
}

/// The payload equation for one record tag.
proof fn lemma_payload_wppoints(s: Seq<u8>, pos: int, h: ChunkHeader, world: Option<WorldView>)
    requires
        h.chunk_type == ChunkType::WpPoints,
    ensures
        spec_parse_chunk_payload(s, pos, h, world) == (match spec_parse_sequence::<NoCtx, Null>(s, pos, NoCtx) {
            Err(e) => Err::<(ChunkView, int), DecodeError>(e),
            Ok((v, p)) => Ok::<(ChunkView, int), DecodeError>((ChunkView::WpPoints(v), p)),
        }),
{
    reveal(spec_parse_chunk_payload);
}

/// The payload equation for one record tag.
proof fn lemma_payload_entities(s: Seq<u8>, pos: int, h: ChunkHeader, world: Option<WorldView>)
    requires
        h.chunk_type == ChunkType::Entities,
    ensures
        spec_parse_chunk_payload(s, pos, h, world) == (match spec_parse_entities(s, pos) {
            Err(e) => Err::<(ChunkView, int), DecodeError>(e),
            Ok((v, p)) => Ok::<(ChunkView, int), DecodeError>((ChunkView::Entities(v), p)),
        }),
{
    reveal(spec_parse_chunk_payload);
}

/// The payload equation for one record tag.
proof fn lemma_payload_entity(s: Seq<u8>, pos: int, h: ChunkHeader, world: Option<WorldView>)
    requires
        h.chunk_type == ChunkType::Entity,
    ensures
        spec_parse_chunk_payload(s, pos, h, world) == (match spec_parse_entity(s, pos) {
            Err(e) => Err::<(ChunkView, int), DecodeError>(e),
            Ok((v, p)) => Ok::<(ChunkView, int), DecodeError>((ChunkView::Entity(v), p)),
        }),
{
    reveal(spec_parse_chunk_payload);
}

/// The payload equation for one record tag.
proof fn lemma_payload_skinobj(s: Seq<u8>, pos: int, h: ChunkHeader, world: Option<WorldView>)
    requires
        h.chunk_type == ChunkType::SkinObj,
    ensures
        spec_parse_chunk_payload(s, pos, h, world) == (match spec_parse_clump(s, pos) {
            Err(e) => Err::<(ChunkView, int), DecodeError>(e),
            Ok((v, p)) => Ok::<(ChunkView, int), DecodeError>((ChunkView::SkinObj(v), p)),
        }),
{
    reveal(spec_parse_chunk_payload);
}

/// The payload equation for one record tag.
proof fn lemma_payload_animlib(s: Seq<u8>, pos: int, h: ChunkHeader, world: Option<WorldView>)
    requires
        h.chunk_type == ChunkType::AnimLib,
    ensures
        spec_parse_chunk_payload(s, pos, h, world) == (match spec_parse_animation_dictionary(s, pos) {
            Err(e) => Err::<(ChunkView, int), DecodeError>(e),
            Ok((v, p)) => Ok::<(ChunkView, int), DecodeError>((ChunkView::AnimLib(v), p)),
        }),
{
    reveal(spec_parse_chunk_payload);
}

/// The payload equation for one record tag.
proof fn lemma_payload_animation(s: Seq<u8>, pos: int, h: ChunkHeader, world: Option<WorldView>)
    requires
        h.chunk_type == ChunkType::Animation,
    ensures
        spec_parse_chunk_payload(s, pos, h, world) == (match spec_parse_clips(s, pos) {
            Err(e) => Err::<(ChunkView, int), DecodeError>(e),
            Ok((v, p)) => Ok::<(ChunkView, int), DecodeError>((ChunkView::Animation(v), p)),
        }),
{
    reveal(spec_parse_chunk_payload);
}

/// The payload equation for one record tag.
proof fn lemma_payload_animationkey(s: Seq<u8>, pos: int, h: ChunkHeader, world: Option<WorldView>)
    requires
        h.chunk_type == ChunkType::AnimationKey,
    ensures
        spec_parse_chunk_payload(s, pos, h, world) == (match spec_parse_animation_key(s, pos) {
            Err(e) => Err::<(ChunkView, int), DecodeError>(e),
            Ok((v, p)) => Ok::<(ChunkView, int), DecodeError>((ChunkView::AnimationKey(v), p)),
        }),
{
    reveal(spec_parse_chunk_payload);
}

/// The payload equation for the zone-set tag.
proof fn lemma_payload_zones(s: Seq<u8>, pos: int, h: ChunkHeader, world: Option<WorldView>)
    requires
        h.chunk_type == ChunkType::Zones,
    ensures
        spec_parse_chunk_payload(s, pos, h, world) == (match world {
            None => Err::<(ChunkView, int), DecodeError>(DecodeError::ConversionFailure),
            Some(w) => match spec_parse_zones(s, pos, h.version, w.zone_count) {
                Err(e) => Err::<(ChunkView, int), DecodeError>(e),
                Ok((v, p)) => Ok::<(ChunkView, int), DecodeError>((ChunkView::Zones(v), p)),
            },
        }),
{
    reveal(spec_parse_chunk_payload);
}

/// The payload equation for one record tag.
proof fn lemma_payload_splights(s: Seq<u8>, pos: int, h: ChunkHeader, world: Option<WorldView>)
    requires
        h.chunk_type == ChunkType::SpLights,
    ensures
        spec_parse_chunk_payload(s, pos, h, world) == (match spec_parse_switchable_lights(s, pos) {
            Err(e) => Err::<(ChunkView, int), DecodeError>(e),
            Ok((v, p)) => Ok::<(ChunkView, int), DecodeError>((ChunkView::SpLights(v), p)),
        }),
{
    reveal(spec_parse_chunk_payload);
}

/// The payload equation for one record tag.
proof fn lemma_payload_collision(s: Seq<u8>, pos: int, h: ChunkHeader, world: Option<WorldView>)
    requires
        h.chunk_type == ChunkType::Collision,
    ensures
        spec_parse_chunk_payload(s, pos, h, world) == (match spec_parse_collision(s, pos) {
            Err(e) => Err::<(ChunkView, int), DecodeError>(e),
            Ok((v, p)) => Ok::<(ChunkView, int), DecodeError>((ChunkView::Collision(v), p)),
        }),
{
    reveal(spec_parse_chunk_payload);
}

/// The payload equation for one record tag.
proof fn lemma_payload_navigationmesh(s: Seq<u8>, pos: int, h: ChunkHeader, world: Option<WorldView>)
    requires
        h.chunk_type == ChunkType::NavigationMesh,
    ensures
        spec_parse_chunk_payload(s, pos, h, world) == (match spec_parse_navigation_mesh(s, pos) {
            Err(e) => Err::<(ChunkView, int), DecodeError>(e),
            Ok((v, p)) => Ok::<(ChunkView, int), DecodeError>((ChunkView::NavigationMesh(v), p)),
        }),
{
    reveal(spec_parse_chunk_payload);
}

/// Whatever the tag, a payload that decodes to the materials
/// pseudo-record carries a non-negative count.
#[verifier::rlimit(100)]
#[verifier::spinoff_prover]
pub proof fn lemma_payload_materials_nonneg(
    s: Seq<u8>,
    pos: int,
    h: ChunkHeader,
    world: Option<WorldView>,
)
    ensures
        match spec_parse_chunk_payload(s, pos, h, world) {
            Ok((v, p)) => v matches ChunkView::Materials(n) ==> n >= 0,
            Err(_) => true,
        },
{
    reveal(spec_parse_chunk_payload);
}

/// A successful payload parse never moves backwards and stays in bounds
/// whenever it consumed anything.
#[verifier::rlimit(100)]
#[verifier::spinoff_prover]
pub proof fn lemma_chunk_payload_bounds(
    s: Seq<u8>,
    pos: int,
    h: ChunkHeader,
    world: Option<WorldView>,
)
    ensures
        match spec_parse_chunk_payload(s, pos, h, world) {
            Ok((v, p)) => pos <= p && (p > pos ==> 0 <= pos && p <= s.len()),
            Err(_) => true,
        },
{
    match h.chunk_type {
        ChunkType::Textures => {
            lemma_payload_textures(s, pos, h, world);
            <Vec<Texture> as Decode<NoCtx>>::parse_bounds(s, pos, NoCtx);
        },
        ChunkType::Materials => {
            lemma_payload_materials(s, pos, h, world);
            
        },
        ChunkType::MaterialObj => {
            lemma_payload_materialobj(s, pos, h, world);
            <Material as Decode<NoCtx>>::parse_bounds(s, pos, NoCtx);
        },
        ChunkType::World => {
            lemma_payload_world(s, pos, h, world);
            <World as Decode<NoCtx>>::parse_bounds(s, pos, NoCtx);
        },
        ChunkType::ModelGroup => {
            lemma_payload_modelgroup(s, pos, h, world);
            <Mesh as Decode<NoCtx>>::parse_bounds(s, pos, NoCtx);
        },
        ChunkType::SPMesh => {
            lemma_payload_spmesh(s, pos, h, world);
            <ModelPart as Decode<NoCtx>>::parse_bounds(s, pos, NoCtx);
        },
        ChunkType::SectorOctree => {
            lemma_payload_sectoroctree(s, pos, h, world);
            <SectorOctree as Decode<NoCtx>>::parse_bounds(s, pos, NoCtx);
        },
        ChunkType::Occlusion => {
            lemma_payload_occlusion(s, pos, h, world);
            <Occlusion as Decode<NoCtx>>::parse_bounds(s, pos, NoCtx);
        },
        ChunkType::LevelObj => {
            lemma_payload_levelobj(s, pos, h, world);
            <FrameChild as Decode<NoCtx>>::parse_bounds(s, pos, NoCtx);
        },
        ChunkType::LinkEmm => {
            lemma_payload_linkemm(s, pos, h, world);
            <NullBox as Decode<NoCtx>>::parse_bounds(s, pos, NoCtx);
        },
        ChunkType::AtomicMesh => {
            lemma_payload_atomicmesh(s, pos, h, world);
            <AtomicMesh as Decode<NoCtx>>::parse_bounds(s, pos, NoCtx);
        },
        ChunkType::GLCamera => {
            lemma_payload_glcamera(s, pos, h, world);
            <CameraProjection as Decode<NoCtx>>::parse_bounds(s, pos, NoCtx);
        },
        ChunkType::GLProject => {
            lemma_payload_glproject(s, pos, h, world);
            <CameraProjection as Decode<NoCtx>>::parse_bounds(s, pos, NoCtx);
        },
        ChunkType::LightObj => {
            lemma_payload_lightobj(s, pos, h, world);
            <Light as Decode<i32>>::parse_bounds(s, pos, h.version);
        },
        ChunkType::OcclusionMesh => {
            lemma_payload_occlusionmesh(s, pos, h, world);
            <NGonList as Decode<NoCtx>>::parse_bounds(s, pos, NoCtx);
        },
        ChunkType::Area => {
            lemma_payload_area(s, pos, h, world);
            <Spline as Decode<NoCtx>>::parse_bounds(s, pos, NoCtx);
        },
        ChunkType::BoneObj => {
            lemma_payload_boneobj(s, pos, h, world);
            <Frame as Decode<NoCtx>>::parse_bounds(s, pos, NoCtx);
        },
        ChunkType::WpPoints => {
            lemma_payload_wppoints(s, pos, h, world);
            <Vec<Null> as Decode<NoCtx>>::parse_bounds(s, pos, NoCtx);
        },
        ChunkType::Entities => {
            lemma_payload_entities(s, pos, h, world);
            <Entities as Decode<NoCtx>>::parse_bounds(s, pos, NoCtx);
        },
        ChunkType::Entity => {
            lemma_payload_entity(s, pos, h, world);
            <Entity as Decode<NoCtx>>::parse_bounds(s, pos, NoCtx);
        },
        ChunkType::SkinObj => {
            lemma_payload_skinobj(s, pos, h, world);
            <Clump as Decode<NoCtx>>::parse_bounds(s, pos, NoCtx);
        },
        ChunkType::AnimLib => {
            lemma_payload_animlib(s, pos, h, world);
            <AnimationDictionary as Decode<NoCtx>>::parse_bounds(s, pos, NoCtx);
        },
        ChunkType::Animation => {
            lemma_payload_animation(s, pos, h, world);
            <Clips as Decode<NoCtx>>::parse_bounds(s, pos, NoCtx);
        },
        ChunkType::AnimationKey => {
            lemma_payload_animationkey(s, pos, h, world);
            <AnimationKey as Decode<NoCtx>>::parse_bounds(s, pos, NoCtx);
        },
        ChunkType::Zones => {
            lemma_payload_zones(s, pos, h, world);
            match world {
                Some(w) => {
                    Zones::parse_bounds(s, pos, h.version, w.zone_count);
                },
                None => {},
            }
        },
        ChunkType::SpLights => {
            lemma_payload_splights(s, pos, h, world);
            <SwitchableLights as Decode<NoCtx>>::parse_bounds(s, pos, NoCtx);
        },
        ChunkType::Collision => {
            lemma_payload_collision(s, pos, h, world);
            <Collision as Decode<NoCtx>>::parse_bounds(s, pos, NoCtx);
        },
        ChunkType::NavigationMesh => {
            lemma_payload_navigationmesh(s, pos, h, world);
            <NavigationMesh as Decode<NoCtx>>::parse_bounds(s, pos, NoCtx);
        },
    }
}

#[verifier::rlimit(100)]
#[verifier::spinoff_prover]
fn decode_payload_textures(r: &mut PositionTracker, header: &ChunkHeader, world: Option<&World>) -> (res:
    Result<Chunk, DecodeError>)
    requires
        old(r).wf(),
        header.chunk_type == ChunkType::Textures,
    ensures
        final(r).wf(),
        final(r).data() == old(r).data(),
        old(r).pos() <= final(r).pos(),
        match res {
            Ok(v) => spec_parse_chunk_payload(
                old(r).data(),
                old(r).pos(),
                *header,
                world.deep_view(),
            ) == Ok::<(ChunkView, int), DecodeError>((v.deep_view(), final(r).pos())),
            Err(e) => spec_parse_chunk_payload(
                old(r).data(),
                old(r).pos(),
                *header,
                world.deep_view(),
            ) == Err::<(ChunkView, int), DecodeError>(e),
        },
{
    let ghost s = old(r).data();
    let ghost p0 = old(r).pos();
    let ghost w = world.deep_view();
    proof {
        lemma_payload_textures(s, p0, *header, w);
    }
    match Vec::<Texture>::decode(r, NoCtx) {
        Ok(v) => Ok(Chunk::Textures(v)),
        Err(e) => Err(e),
    }
}

#[verifier::rlimit(100)]
#[verifier::spinoff_prover]
fn decode_payload_materials(r: &mut PositionTracker, header: &ChunkHeader, world: Option<&World>) -> (res:
    Result<Chunk, DecodeError>)
    requires
        old(r).wf(),
        header.chunk_type == ChunkType::Materials,
    ensures
        final(r).wf(),
        final(r).data() == old(r).data(),
        old(r).pos() <= final(r).pos(),
        match res {
            Ok(v) => spec_parse_chunk_payload(
                old(r).data(),
                old(r).pos(),
                *header,
                world.deep_view(),
            ) == Ok::<(ChunkView, int), DecodeError>((v.deep_view(), final(r).pos())),
            Err(e) => spec_parse_chunk_payload(
                old(r).data(),
                old(r).pos(),
                *header,
                world.deep_view(),
            ) == Err::<(ChunkView, int), DecodeError>(e),
        },
{
    let ghost s = old(r).data();
    let ghost p0 = old(r).pos();
    let ghost w = world.deep_view();
    proof {
        lemma_payload_materials(s, p0, *header, w);
    }
    let count = match r.read_i32() {
        Ok(v) => v,
        Err(e) => return Err(e),
    };
    if count < 0 {
        return Err(DecodeError::ConversionFailure);
    }
    Ok(Chunk::Materials(count))
}

#[verifier::rlimit(100)]
#[verifier::spinoff_prover]
fn decode_payload_materialobj(r: &mut PositionTracker, header: &ChunkHeader, world: Option<&World>) -> (res:
    Result<Chunk, DecodeError>)
    requires
        old(r).wf(),
        header.chunk_type == ChunkType::MaterialObj,
    ensures
        final(r).wf(),
        final(r).data() == old(r).data(),
        old(r).pos() <= final(r).pos(),
        match res {
            Ok(v) => spec_parse_chunk_payload(
                old(r).data(),
                old(r).pos(),
                *header,
                world.deep_view(),
            ) == Ok::<(ChunkView, int), DecodeError>((v.deep_view(), final(r).pos())),
            Err(e) => spec_parse_chunk_payload(
                old(r).data(),
                old(r).pos(),
                *header,
                world.deep_view(),
            ) == Err::<(ChunkView, int), DecodeError>(e),
        },
{
    let ghost s = old(r).data();
    let ghost p0 = old(r).pos();
    let ghost w = world.deep_view();
    proof {
        lemma_payload_materialobj(s, p0, *header, w);
    }
    match Material::decode(r, NoCtx) {
        Ok(v) => Ok(Chunk::MaterialObj(v)),
        Err(e) => Err(e),
    }
}

#[verifier::rlimit(100)]
#[verifier::spinoff_prover]
fn decode_payload_world(r: &mut PositionTracker, header: &ChunkHeader, world: Option<&World>) -> (res:
    Result<Chunk, DecodeError>)
    requires
        old(r).wf(),
        header.chunk_type == ChunkType::World,
    ensures
        final(r).wf(),
        final(r).data() == old(r).data(),
        old(r).pos() <= final(r).pos(),
        match res {
            Ok(v) => spec_parse_chunk_payload(
                old(r).data(),
                old(r).pos(),
                *header,
                world.deep_view(),
            ) == Ok::<(ChunkView, int), DecodeError>((v.deep_view(), final(r).pos())),
            Err(e) => spec_parse_chunk_payload(
                old(r).data(),
                old(r).pos(),
                *header,
                world.deep_view(),
            ) == Err::<(ChunkView, int), DecodeError>(e),
        },
{
    let ghost s = old(r).data();
    let ghost p0 = old(r).pos();
    let ghost w = world.deep_view();
    proof {
        lemma_payload_world(s, p0, *header, w);
    }
    match World::decode(r, NoCtx) {
        Ok(v) => Ok(Chunk::World(v)),
        Err(e) => Err(e),
    }
}

#[verifier::rlimit(100)]
#[verifier::spinoff_prover]
fn decode_payload_modelgroup(r: &mut PositionTracker, header: &ChunkHeader, world: Option<&World>) -> (res:
    Result<Chunk, DecodeError>)
    requires
        old(r).wf(),
        header.chunk_type == ChunkType::ModelGroup,
    ensures
        final(r).wf(),
        final(r).data() == old(r).data(),
        old(r).pos() <= final(r).pos(),
        match res {
            Ok(v) => spec_parse_chunk_payload(
                old(r).data(),
                old(r).pos(),
                *header,
                world.deep_view(),
            ) == Ok::<(ChunkView, int), DecodeError>((v.deep_view(), final(r).pos())),
            Err(e) => spec_parse_chunk_payload(
                old(r).data(),
                old(r).pos(),
                *header,
                world.deep_view(),
            ) == Err::<(ChunkView, int), DecodeError>(e),
        },
{
    let ghost s = old(r).data();
    let ghost p0 = old(r).pos();
    let ghost w = world.deep_view();
    proof {
        lemma_payload_modelgroup(s, p0, *header, w);
    }
    match Mesh::decode(r, NoCtx) {
        Ok(v) => Ok(Chunk::ModelGroup(v)),
        Err(e) => Err(e),
    }
}

#[verifier::rlimit(100)]
#[verifier::spinoff_prover]
fn decode_payload_spmesh(r: &mut PositionTracker, header: &ChunkHeader, world: Option<&World>) -> (res:
    Result<Chunk, DecodeError>)
    requires
        old(r).wf(),
        header.chunk_type == ChunkType::SPMesh,
    ensures
        final(r).wf(),
        final(r).data() == old(r).data(),
        old(r).pos() <= final(r).pos(),
        match res {
            Ok(v) => spec_parse_chunk_payload(
                old(r).data(),
                old(r).pos(),
                *header,
                world.deep_view(),
            ) == Ok::<(ChunkView, int), DecodeError>((v.deep_view(), final(r).pos())),
            Err(e) => spec_parse_chunk_payload(
                old(r).data(),
                old(r).pos(),
                *header,
                world.deep_view(),
            ) == Err::<(ChunkView, int), DecodeError>(e),
        },
{
    let ghost s = old(r).data();
    let ghost p0 = old(r).pos();
    let ghost w = world.deep_view();
    proof {
        lemma_payload_spmesh(s, p0, *header, w);
    }
    match ModelPart::decode(r, NoCtx) {
        Ok(v) => Ok(Chunk::SPMesh(v)),
        Err(e) => Err(e),
    }
}

#[verifier::rlimit(100)]
#[verifier::spinoff_prover]
fn decode_payload_sectoroctree(r: &mut PositionTracker, header: &ChunkHeader, world: Option<&World>) -> (res:
    Result<Chunk, DecodeError>)
    requires
        old(r).wf(),
        header.chunk_type == ChunkType::SectorOctree,
    ensures
        final(r).wf(),
        final(r).data() == old(r).data(),
        old(r).pos() <= final(r).pos(),
        match res {
            Ok(v) => spec_parse_chunk_payload(
                old(r).data(),
                old(r).pos(),
                *header,
                world.deep_view(),
            ) == Ok::<(ChunkView, int), DecodeError>((v.deep_view(), final(r).pos())),
            Err(e) => spec_parse_chunk_payload(
                old(r).data(),
                old(r).pos(),
                *header,
                world.deep_view(),
            ) == Err::<(ChunkView, int), DecodeError>(e),
        },
{
    let ghost s = old(r).data();
    let ghost p0 = old(r).pos();
    let ghost w = world.deep_view();
    proof {
        lemma_payload_sectoroctree(s, p0, *header, w);
    }
    match SectorOctree::decode(r, NoCtx) {
        Ok(v) => Ok(Chunk::SectorOctree(v)),
        Err(e) => Err(e),
    }
}

#[verifier::rlimit(100)]
#[verifier::spinoff_prover]
fn decode_payload_occlusion(r: &mut PositionTracker, header: &ChunkHeader, world: Option<&World>) -> (res:
    Result<Chunk, DecodeError>)
    requires
        old(r).wf(),
        header.chunk_type == ChunkType::Occlusion,
    ensures
        final(r).wf(),
        final(r).data() == old(r).data(),
        old(r).pos() <= final(r).pos(),
        match res {
            Ok(v) => spec_parse_chunk_payload(
                old(r).data(),
                old(r).pos(),
                *header,
                world.deep_view(),
            ) == Ok::<(ChunkView, int), DecodeError>((v.deep_view(), final(r).pos())),
            Err(e) => spec_parse_chunk_payload(
                old(r).data(),
                old(r).pos(),
                *header,
                world.deep_view(),
            ) == Err::<(ChunkView, int), DecodeError>(e),
        },
{
    let ghost s = old(r).data();
    let ghost p0 = old(r).pos();
    let ghost w = world.deep_view();
    proof {
        lemma_payload_occlusion(s, p0, *header, w);
    }
    match Occlusion::decode(r, NoCtx) {
        Ok(v) => Ok(Chunk::Occlusion(v)),
        Err(e) => Err(e),
    }
}

#[verifier::rlimit(100)]
#[verifier::spinoff_prover]
fn decode_payload_levelobj(r: &mut PositionTracker, header: &ChunkHeader, world: Option<&World>) -> (res:
    Result<Chunk, DecodeError>)
    requires
        old(r).wf(),
        header.chunk_type == ChunkType::LevelObj,
    ensures
        final(r).wf(),
        final(r).data() == old(r).data(),
        old(r).pos() <= final(r).pos(),
        match res {
            Ok(v) => spec_parse_chunk_payload(
                old(r).data(),
                old(r).pos(),
                *header,
                world.deep_view(),
            ) == Ok::<(ChunkView, int), DecodeError>((v.deep_view(), final(r).pos())),
            Err(e) => spec_parse_chunk_payload(
                old(r).data(),
                old(r).pos(),
                *header,
                world.deep_view(),
            ) == Err::<(ChunkView, int), DecodeError>(e),
        },
{
    let ghost s = old(r).data();
    let ghost p0 = old(r).pos();
    let ghost w = world.deep_view();
    proof {
        lemma_payload_levelobj(s, p0, *header, w);
    }
    match FrameChild::decode(r, NoCtx) {
        Ok(v) => Ok(Chunk::LevelObj(v)),
        Err(e) => Err(e),
    }
}

#[verifier::rlimit(100)]
#[verifier::spinoff_prover]
fn decode_payload_linkemm(r: &mut PositionTracker, header: &ChunkHeader, world: Option<&World>) -> (res:
    Result<Chunk, DecodeError>)
    requires
        old(r).wf(),
        header.chunk_type == ChunkType::LinkEmm,
    ensures
        final(r).wf(),
        final(r).data() == old(r).data(),
        old(r).pos() <= final(r).pos(),
        match res {
            Ok(v) => spec_parse_chunk_payload(
                old(r).data(),
                old(r).pos(),
                *header,
                world.deep_view(),
            ) == Ok::<(ChunkView, int), DecodeError>((v.deep_view(), final(r).pos())),
            Err(e) => spec_parse_chunk_payload(
                old(r).data(),
                old(r).pos(),
                *header,
                world.deep_view(),
            ) == Err::<(ChunkView, int), DecodeError>(e),
        },
{
    let ghost s = old(r).data();
    let ghost p0 = old(r).pos();
    let ghost w = world.deep_view();
    proof {
        lemma_payload_linkemm(s, p0, *header, w);
    }
    match NullBox::decode(r, NoCtx) {
        Ok(v) => Ok(Chunk::LinkEmm(v)),
        Err(e) => Err(e),
    }
}

#[verifier::rlimit(100)]
#[verifier::spinoff_prover]
fn decode_payload_atomicmesh(r: &mut PositionTracker, header: &ChunkHeader, world: Option<&World>) -> (res:
    Result<Chunk, DecodeError>)
    requires
        old(r).wf(),
        header.chunk_type == ChunkType::AtomicMesh,
    ensures
        final(r).wf(),
        final(r).data() == old(r).data(),
        old(r).pos() <= final(r).pos(),
        match res {
            Ok(v) => spec_parse_chunk_payload(
                old(r).data(),
                old(r).pos(),
                *header,
                world.deep_view(),
            ) == Ok::<(ChunkView, int), DecodeError>((v.deep_view(), final(r).pos())),
            Err(e) => spec_parse_chunk_payload(
                old(r).data(),
                old(r).pos(),
                *header,
                world.deep_view(),
            ) == Err::<(ChunkView, int), DecodeError>(e),
        },
{
    let ghost s = old(r).data();
    let ghost p0 = old(r).pos();
    let ghost w = world.deep_view();
    proof {
        lemma_payload_atomicmesh(s, p0, *header, w);
    }
    match AtomicMesh::decode(r, NoCtx) {
        Ok(v) => Ok(Chunk::AtomicMesh(v)),
        Err(e) => Err(e),
    }
}

#[verifier::rlimit(100)]
#[verifier::spinoff_prover]
fn decode_payload_glcamera(r: &mut PositionTracker, header: &ChunkHeader, world: Option<&World>) -> (res:
    Result<Chunk, DecodeError>)
    requires
        old(r).wf(),
        header.chunk_type == ChunkType::GLCamera,
    ensures
        final(r).wf(),
        final(r).data() == old(r).data(),
        old(r).pos() <= final(r).pos(),
        match res {
            Ok(v) => spec_parse_chunk_payload(
                old(r).data(),
                old(r).pos(),
                *header,
                world.deep_view(),
            ) == Ok::<(ChunkView, int), DecodeError>((v.deep_view(), final(r).pos())),
            Err(e) => spec_parse_chunk_payload(
                old(r).data(),
                old(r).pos(),
                *header,
                world.deep_view(),
            ) == Err::<(ChunkView, int), DecodeError>(e),
        },
{
    let ghost s = old(r).data();
    let ghost p0 = old(r).pos();
    let ghost w = world.deep_view();
    proof {
        lemma_payload_glcamera(s, p0, *header, w);
    }
    match CameraProjection::decode(r, NoCtx) {
        Ok(v) => Ok(Chunk::GLCamera(v)),
        Err(e) => Err(e),
    }
}

#[verifier::rlimit(100)]
#[verifier::spinoff_prover]
fn decode_payload_glproject(r: &mut PositionTracker, header: &ChunkHeader, world: Option<&World>) -> (res:
    Result<Chunk, DecodeError>)
    requires
        old(r).wf(),
        header.chunk_type == ChunkType::GLProject,
    ensures
        final(r).wf(),
        final(r).data() == old(r).data(),
        old(r).pos() <= final(r).pos(),
        match res {
            Ok(v) => spec_parse_chunk_payload(
                old(r).data(),
                old(r).pos(),
                *header,
                world.deep_view(),
            ) == Ok::<(ChunkView, int), DecodeError>((v.deep_view(), final(r).pos())),
            Err(e) => spec_parse_chunk_payload(
                old(r).data(),
                old(r).pos(),
                *header,
                world.deep_view(),
            ) == Err::<(ChunkView, int), DecodeError>(e),
        },
{
    let ghost s = old(r).data();
    let ghost p0 = old(r).pos();
    let ghost w = world.deep_view();
    proof {
        lemma_payload_glproject(s, p0, *header, w);
    }
    match CameraProjection::decode(r, NoCtx) {
        Ok(v) => Ok(Chunk::GLProject(v)),
        Err(e) => Err(e),
    }
}

#[verifier::rlimit(100)]
#[verifier::spinoff_prover]
fn decode_payload_lightobj(r: &mut PositionTracker, header: &ChunkHeader, world: Option<&World>) -> (res:
    Result<Chunk, DecodeError>)
    requires
        old(r).wf(),
        header.chunk_type == ChunkType::LightObj,
    ensures
        final(r).wf(),
        final(r).data() == old(r).data(),
        old(r).pos() <= final(r).pos(),
        match res {
            Ok(v) => spec_parse_chunk_payload(
                old(r).data(),
                old(r).pos(),
                *header,
                world.deep_view(),
            ) == Ok::<(ChunkView, int), DecodeError>((v.deep_view(), final(r).pos())),
            Err(e) => spec_parse_chunk_payload(
                old(r).data(),
                old(r).pos(),
                *header,
                world.deep_view(),
            ) == Err::<(ChunkView, int), DecodeError>(e),
        },
{
    let ghost s = old(r).data();
    let ghost p0 = old(r).pos();
    let ghost w = world.deep_view();
    proof {
        lemma_payload_lightobj(s, p0, *header, w);
    }
    match Light::decode(r, header.get_version()) {
        Ok(v) => Ok(Chunk::LightObj(v)),
        Err(e) => Err(e),
    }
}

#[verifier::rlimit(100)]
#[verifier::spinoff_prover]
fn decode_payload_occlusionmesh(r: &mut PositionTracker, header: &ChunkHeader, world: Option<&World>) -> (res:
    Result<Chunk, DecodeError>)
    requires
        old(r).wf(),
        header.chunk_type == ChunkType::OcclusionMesh,
    ensures
        final(r).wf(),
        final(r).data() == old(r).data(),
        old(r).pos() <= final(r).pos(),
        match res {
            Ok(v) => spec_parse_chunk_payload(
                old(r).data(),
                old(r).pos(),
                *header,
                world.deep_view(),
            ) == Ok::<(ChunkView, int), DecodeError>((v.deep_view(), final(r).pos())),
            Err(e) => spec_parse_chunk_payload(
                old(r).data(),
                old(r).pos(),
                *header,
                world.deep_view(),
            ) == Err::<(ChunkView, int), DecodeError>(e),
        },
{
    let ghost s = old(r).data();
    let ghost p0 = old(r).pos();
    let ghost w = world.deep_view();
    proof {
        lemma_payload_occlusionmesh(s, p0, *header, w);
    }
    match NGonList::decode(r, NoCtx) {
        Ok(v) => Ok(Chunk::OcclusionMesh(v)),
        Err(e) => Err(e),
    }
}

#[verifier::rlimit(100)]
#[verifier::spinoff_prover]
fn decode_payload_area(r: &mut PositionTracker, header: &ChunkHeader, world: Option<&World>) -> (res:
    Result<Chunk, DecodeError>)
    requires
        old(r).wf(),
        header.chunk_type == ChunkType::Area,
    ensures
        final(r).wf(),
        final(r).data() == old(r).data(),
        old(r).pos() <= final(r).pos(),
        match res {
            Ok(v) => spec_parse_chunk_payload(
                old(r).data(),
                old(r).pos(),
                *header,
                world.deep_view(),
            ) == Ok::<(ChunkView, int), DecodeError>((v.deep_view(), final(r).pos())),
            Err(e) => spec_parse_chunk_payload(
                old(r).data(),
                old(r).pos(),
                *header,
                world.deep_view(),
            ) == Err::<(ChunkView, int), DecodeError>(e),
        },
{
    let ghost s = old(r).data();
    let ghost p0 = old(r).pos();
    let ghost w = world.deep_view();
    proof {
        lemma_payload_area(s, p0, *header, w);
    }
    match Spline::decode(r, NoCtx) {
        Ok(v) => Ok(Chunk::Area(v)),
        Err(e) => Err(e),
    }
}

#[verifier::rlimit(100)]
#[verifier::spinoff_prover]
fn decode_payload_boneobj(r: &mut PositionTracker, header: &ChunkHeader, world: Option<&World>) -> (res:
    Result<Chunk, DecodeError>)
    requires
        old(r).wf(),
        header.chunk_type == ChunkType::BoneObj,
    ensures
        final(r).wf(),
        final(r).data() == old(r).data(),
        old(r).pos() <= final(r).pos(),
        match res {
            Ok(v) => spec_parse_chunk_payload(
                old(r).data(),
                old(r).pos(),
                *header,
                world.deep_view(),
            ) == Ok::<(ChunkView, int), DecodeError>((v.deep_view(), final(r).pos())),
            Err(e) => spec_parse_chunk_payload(
                old(r).data(),
                old(r).pos(),
                *header,
                world.deep_view(),
            ) == Err::<(ChunkView, int), DecodeError>(e),
        },
{
    let ghost s = old(r).data();
    let ghost p0 = old(r).pos();
    let ghost w = world.deep_view();
    proof {
        lemma_payload_boneobj(s, p0, *header, w);
    }
    match Frame::decode(r, NoCtx) {
        Ok(v) => Ok(Chunk::BoneObj(v)),
        Err(e) => Err(e),
    }
}

#[verifier::rlimit(100)]
#[verifier::spinoff_prover]
fn decode_payload_wppoints(r: &mut PositionTracker, header: &ChunkHeader, world: Option<&World>) -> (res:
    Result<Chunk, DecodeError>)
    requires
        old(r).wf(),
        header.chunk_type == ChunkType::WpPoints,
    ensures
        final(r).wf(),
        final(r).data() == old(r).data(),
        old(r).pos() <= final(r).pos(),
        match res {
            Ok(v) => spec_parse_chunk_payload(
                old(r).data(),
                old(r).pos(),
                *header,
                world.deep_view(),
            ) == Ok::<(ChunkView, int), DecodeError>((v.deep_view(), final(r).pos())),
            Err(e) => spec_parse_chunk_payload(
                old(r).data(),
                old(r).pos(),
                *header,
                world.deep_view(),
            ) == Err::<(ChunkView, int), DecodeError>(e),
        },
{
    let ghost s = old(r).data();
    let ghost p0 = old(r).pos();
    let ghost w = world.deep_view();
    proof {
        lemma_payload_wppoints(s, p0, *header, w);
    }
    match Vec::<Null>::decode(r, NoCtx) {
        Ok(v) => Ok(Chunk::WpPoints(v)),
        Err(e) => Err(e),
    }
}

#[verifier::rlimit(100)]
#[verifier::spinoff_prover]
fn decode_payload_entities(r: &mut PositionTracker, header: &ChunkHeader, world: Option<&World>) -> (res:
    Result<Chunk, DecodeError>)
    requires
        old(r).wf(),
        header.chunk_type == ChunkType::Entities,
    ensures
        final(r).wf(),
        final(r).data() == old(r).data(),
        old(r).pos() <= final(r).pos(),
        match res {
            Ok(v) => spec_parse_chunk_payload(
                old(r).data(),
                old(r).pos(),
                *header,
                world.deep_view(),
            ) == Ok::<(ChunkView, int), DecodeError>((v.deep_view(), final(r).pos())),
            Err(e) => spec_parse_chunk_payload(
                old(r).data(),
                old(r).pos(),
                *header,
                world.deep_view(),
            ) == Err::<(ChunkView, int), DecodeError>(e),
        },
{
    let ghost s = old(r).data();
    let ghost p0 = old(r).pos();
    let ghost w = world.deep_view();
    proof {
        lemma_payload_entities(s, p0, *header, w);
    }
    match Entities::decode(r, NoCtx) {
        Ok(v) => Ok(Chunk::Entities(v)),
        Err(e) => Err(e),
    }
}

#[verifier::rlimit(100)]
#[verifier::spinoff_prover]
fn decode_payload_entity(r: &mut PositionTracker, header: &ChunkHeader, world: Option<&World>) -> (res:
    Result<Chunk, DecodeError>)
    requires
        old(r).wf(),
        header.chunk_type == ChunkType::Entity,
    ensures
        final(r).wf(),
        final(r).data() == old(r).data(),
        old(r).pos() <= final(r).pos(),
        match res {
            Ok(v) => spec_parse_chunk_payload(
                old(r).data(),
                old(r).pos(),
                *header,
                world.deep_view(),
            ) == Ok::<(ChunkView, int), DecodeError>((v.deep_view(), final(r).pos())),
            Err(e) => spec_parse_chunk_payload(
                old(r).data(),
                old(r).pos(),
                *header,
                world.deep_view(),
            ) == Err::<(ChunkView, int), DecodeError>(e),
        },
{
    let ghost s = old(r).data();
    let ghost p0 = old(r).pos();
    let ghost w = world.deep_view();
    proof {
        lemma_payload_entity(s, p0, *header, w);
    }
    match Entity::decode(r, NoCtx) {
        Ok(v) => Ok(Chunk::Entity(v)),
        Err(e) => Err(e),
    }
}

#[verifier::rlimit(100)]
#[verifier::spinoff_prover]
fn decode_payload_skinobj(r: &mut PositionTracker, header: &ChunkHeader, world: Option<&World>) -> (res:
    Result<Chunk, DecodeError>)
    requires
        old(r).wf(),
        header.chunk_type == ChunkType::SkinObj,
    ensures
        final(r).wf(),
        final(r).data() == old(r).data(),
        old(r).pos() <= final(r).pos(),
        match res {
            Ok(v) => spec_parse_chunk_payload(
                old(r).data(),
                old(r).pos(),
                *header,
                world.deep_view(),
            ) == Ok::<(ChunkView, int), DecodeError>((v.deep_view(), final(r).pos())),
            Err(e) => spec_parse_chunk_payload(
                old(r).data(),
                old(r).pos(),
                *header,
                world.deep_view(),
            ) == Err::<(ChunkView, int), DecodeError>(e),
        },
{
    let ghost s = old(r).data();
    let ghost p0 = old(r).pos();
    let ghost w = world.deep_view();
    proof {
        lemma_payload_skinobj(s, p0, *header, w);
    }
    match Clump::decode(r, NoCtx) {
        Ok(v) => Ok(Chunk::SkinObj(v)),
        Err(e) => Err(e),
    }
}

#[verifier::rlimit(100)]
#[verifier::spinoff_prover]
fn decode_payload_animlib(r: &mut PositionTracker, header: &ChunkHeader, world: Option<&World>) -> (res:
    Result<Chunk, DecodeError>)
    requires
        old(r).wf(),
        header.chunk_type == ChunkType::AnimLib,
    ensures
        final(r).wf(),
        final(r).data() == old(r).data(),
        old(r).pos() <= final(r).pos(),
        match res {
            Ok(v) => spec_parse_chunk_payload(
                old(r).data(),
                old(r).pos(),
                *header,
                world.deep_view(),
            ) == Ok::<(ChunkView, int), DecodeError>((v.deep_view(), final(r).pos())),
            Err(e) => spec_parse_chunk_payload(
                old(r).data(),
                old(r).pos(),
                *header,
                world.deep_view(),
            ) == Err::<(ChunkView, int), DecodeError>(e),
        },
{
    let ghost s = old(r).data();
    let ghost p0 = old(r).pos();
    let ghost w = world.deep_view();
    proof {
        lemma_payload_animlib(s, p0, *header, w);
    }
    match AnimationDictionary::decode(r, NoCtx) {
        Ok(v) => Ok(Chunk::AnimLib(v)),
        Err(e) => Err(e),
    }
}

#[verifier::rlimit(100)]
#[verifier::spinoff_prover]
fn decode_payload_animation(r: &mut PositionTracker, header: &ChunkHeader, world: Option<&World>) -> (res:
    Result<Chunk, DecodeError>)
    requires
        old(r).wf(),
        header.chunk_type == ChunkType::Animation,
    ensures
        final(r).wf(),
        final(r).data() == old(r).data(),
        old(r).pos() <= final(r).pos(),
        match res {
            Ok(v) => spec_parse_chunk_payload(
                old(r).data(),
                old(r).pos(),
                *header,
                world.deep_view(),
            ) == Ok::<(ChunkView, int), DecodeError>((v.deep_view(), final(r).pos())),
            Err(e) => spec_parse_chunk_payload(
                old(r).data(),
                old(r).pos(),
                *header,
                world.deep_view(),
            ) == Err::<(ChunkView, int), DecodeError>(e),
        },
{
    let ghost s = old(r).data();
    let ghost p0 = old(r).pos();
    let ghost w = world.deep_view();
    proof {
        lemma_payload_animation(s, p0, *header, w);
    }
    match Clips::decode(r, NoCtx) {
        Ok(v) => Ok(Chunk::Animation(v)),
        Err(e) => Err(e),
    }
}

#[verifier::rlimit(100)]
#[verifier::spinoff_prover]
fn decode_payload_animationkey(r: &mut PositionTracker, header: &ChunkHeader, world: Option<&World>) -> (res:
    Result<Chunk, DecodeError>)
    requires
        old(r).wf(),
        header.chunk_type == ChunkType::AnimationKey,
    ensures
        final(r).wf(),
        final(r).data() == old(r).data(),
        old(r).pos() <= final(r).pos(),
        match res {
            Ok(v) => spec_parse_chunk_payload(
                old(r).data(),
                old(r).pos(),
                *header,
                world.deep_view(),
            ) == Ok::<(ChunkView, int), DecodeError>((v.deep_view(), final(r).pos())),
            Err(e) => spec_parse_chunk_payload(
                old(r).data(),
                old(r).pos(),
                *header,
                world.deep_view(),
            ) == Err::<(ChunkView, int), DecodeError>(e),
        },
{
    let ghost s = old(r).data();
    let ghost p0 = old(r).pos();
    let ghost w = world.deep_view();
    proof {
        lemma_payload_animationkey(s, p0, *header, w);
    }
    match AnimationKey::decode(r, NoCtx) {
        Ok(v) => Ok(Chunk::AnimationKey(v)),
        Err(e) => Err(e),
    }
}

#[verifier::rlimit(100)]
#[verifier::spinoff_prover]
fn decode_payload_zones(r: &mut PositionTracker, header: &ChunkHeader, world: Option<&World>) -> (res:
    Result<Chunk, DecodeError>)
    requires
        old(r).wf(),
        header.chunk_type == ChunkType::Zones,
    ensures
        final(r).wf(),
        final(r).data() == old(r).data(),
        old(r).pos() <= final(r).pos(),
        match res {
            Ok(v) => spec_parse_chunk_payload(
                old(r).data(),
                old(r).pos(),
                *header,
                world.deep_view(),
            ) == Ok::<(ChunkView, int), DecodeError>((v.deep_view(), final(r).pos())),
            Err(e) => spec_parse_chunk_payload(
                old(r).data(),
                old(r).pos(),
                *header,
                world.deep_view(),
            ) == Err::<(ChunkView, int), DecodeError>(e),
        },
{
    let ghost s = old(r).data();
    let ghost p0 = old(r).pos();
    let ghost w = world.deep_view();
    proof {
        lemma_payload_zones(s, p0, *header, w);
    }
    match world {
        None => Err(DecodeError::ConversionFailure),
        Some(wr) => match Zones::decode(r, header.get_version(), wr.zone_count) {
            Ok(v) => Ok(Chunk::Zones(v)),
            Err(e) => Err(e),
        },
    }
}

#[verifier::rlimit(100)]
#[verifier::spinoff_prover]
fn decode_payload_splights(r: &mut PositionTracker, header: &ChunkHeader, world: Option<&World>) -> (res:
    Result<Chunk, DecodeError>)
    requires
        old(r).wf(),
        header.chunk_type == ChunkType::SpLights,
    ensures
        final(r).wf(),
        final(r).data() == old(r).data(),
        old(r).pos() <= final(r).pos(),
        match res {
            Ok(v) => spec_parse_chunk_payload(
                old(r).data(),
                old(r).pos(),
                *header,
                world.deep_view(),
            ) == Ok::<(ChunkView, int), DecodeError>((v.deep_view(), final(r).pos())),
            Err(e) => spec_parse_chunk_payload(
                old(r).data(),
                old(r).pos(),
                *header,
                world.deep_view(),
            ) == Err::<(ChunkView, int), DecodeError>(e),
        },
{
    let ghost s = old(r).data();
    let ghost p0 = old(r).pos();
    let ghost w = world.deep_view();
    proof {
        lemma_payload_splights(s, p0, *header, w);
    }
    match SwitchableLights::decode(r, NoCtx) {
        Ok(v) => Ok(Chunk::SpLights(v)),
        Err(e) => Err(e),
    }
}

#[verifier::rlimit(100)]
#[verifier::spinoff_prover]
fn decode_payload_collision(r: &mut PositionTracker, header: &ChunkHeader, world: Option<&World>) -> (res:
    Result<Chunk, DecodeError>)
    requires
        old(r).wf(),
        header.chunk_type == ChunkType::Collision,
    ensures
        final(r).wf(),
        final(r).data() == old(r).data(),
        old(r).pos() <= final(r).pos(),
        match res {
            Ok(v) => spec_parse_chunk_payload(
                old(r).data(),
                old(r).pos(),
                *header,
                world.deep_view(),
            ) == Ok::<(ChunkView, int), DecodeError>((v.deep_view(), final(r).pos())),
            Err(e) => spec_parse_chunk_payload(
                old(r).data(),
                old(r).pos(),
                *header,
                world.deep_view(),
            ) == Err::<(ChunkView, int), DecodeError>(e),
        },
{
    let ghost s = old(r).data();
    let ghost p0 = old(r).pos();
    let ghost w = world.deep_view();
    proof {
        lemma_payload_collision(s, p0, *header, w);
    }
    match Collision::decode(r, NoCtx) {
        Ok(v) => Ok(Chunk::Collision(v)),
        Err(e) => Err(e),
    }
}

#[verifier::rlimit(100)]
#[verifier::spinoff_prover]
fn decode_payload_navigationmesh(r: &mut PositionTracker, header: &ChunkHeader, world: Option<&World>) -> (res:
    Result<Chunk, DecodeError>)
    requires
        old(r).wf(),
        header.chunk_type == ChunkType::NavigationMesh,
    ensures
        final(r).wf(),
        final(r).data() == old(r).data(),
        old(r).pos() <= final(r).pos(),
        match res {
            Ok(v) => spec_parse_chunk_payload(
                old(r).data(),
                old(r).pos(),
                *header,
                world.deep_view(),
            ) == Ok::<(ChunkView, int), DecodeError>((v.deep_view(), final(r).pos())),
            Err(e) => spec_parse_chunk_payload(
                old(r).data(),
                old(r).pos(),
                *header,
                world.deep_view(),
            ) == Err::<(ChunkView, int), DecodeError>(e),
        },
{
    let ghost s = old(r).data();
    let ghost p0 = old(r).pos();
    let ghost w = world.deep_view();
    proof {
        lemma_payload_navigationmesh(s, p0, *header, w);
    }
    match NavigationMesh::decode(r, NoCtx) {
        Ok(v) => Ok(Chunk::NavigationMesh(v)),
        Err(e) => Err(e),
    }
}

impl Chunk {
    /// Decodes the payload belonging to an already-decoded header,
    /// dispatching on its tag.  `world` is the most recently decoded world
    /// record, needed only by the zone-set payload.
    #[verifier::rlimit(100)]
    #[verifier::spinoff_prover]
    pub fn decode(r: &mut PositionTracker, header: &ChunkHeader, world: Option<&World>) -> (res:
        Result<Chunk, DecodeError>)
        requires
            old(r).wf(),
        ensures
            final(r).wf(),
            final(r).data() == old(r).data(),
            old(r).pos() <= final(r).pos(),
            match res {
                Ok(v) => spec_parse_chunk_payload(
                    old(r).data(),
                    old(r).pos(),
                    *header,
                    world.deep_view(),
                ) == Ok::<(ChunkView, int), DecodeError>((v.deep_view(), final(r).pos())),
                Err(e) => spec_parse_chunk_payload(
                    old(r).data(),
                    old(r).pos(),
                    *header,
                    world.deep_view(),
                ) == Err::<(ChunkView, int), DecodeError>(e),
            },
    {
        match header.get_chunk_type() {
            ChunkType::Textures => decode_payload_textures(r, header, world),
            ChunkType::Materials => decode_payload_materials(r, header, world),
            ChunkType::MaterialObj => decode_payload_materialobj(r, header, world),
            ChunkType::World => decode_payload_world(r, header, world),
            ChunkType::ModelGroup => decode_payload_modelgroup(r, header, world),
            ChunkType::SPMesh => decode_payload_spmesh(r, header, world),
            ChunkType::SectorOctree => decode_payload_sectoroctree(r, header, world),
            ChunkType::Occlusion => decode_payload_occlusion(r, header, world),
            ChunkType::LevelObj => decode_payload_levelobj(r, header, world),
            ChunkType::LinkEmm => decode_payload_linkemm(r, header, world),
            ChunkType::AtomicMesh => decode_payload_atomicmesh(r, header, world),
            ChunkType::GLCamera => decode_payload_glcamera(r, header, world),
            ChunkType::GLProject => decode_payload_glproject(r, header, world),
            ChunkType::LightObj => decode_payload_lightobj(r, header, world),
            ChunkType::OcclusionMesh => decode_payload_occlusionmesh(r, header, world),
            ChunkType::Area => decode_payload_area(r, header, world),
            ChunkType::BoneObj => decode_payload_boneobj(r, header, world),
            ChunkType::WpPoints => decode_payload_wppoints(r, header, world),
            ChunkType::Entities => decode_payload_entities(r, header, world),
            ChunkType::Entity => decode_payload_entity(r, header, world),
            ChunkType::SkinObj => decode_payload_skinobj(r, header, world),
            ChunkType::AnimLib => decode_payload_animlib(r, header, world),
            ChunkType::Animation => decode_payload_animation(r, header, world),
            ChunkType::AnimationKey => decode_payload_animationkey(r, header, world),
            ChunkType::Zones => decode_payload_zones(r, header, world),
            ChunkType::SpLights => decode_payload_splights(r, header, world),
            ChunkType::Collision => decode_payload_collision(r, header, world),
            ChunkType::NavigationMesh => decode_payload_navigationmesh(r, header, world),
        }
    }
}

} // verus!
