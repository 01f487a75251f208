//! The scene: subject registry, pipeline cache, lighting and camera
//! uniform state, and per-frame draw assembly.
//!
//! The scene owns one GPU-resident [`Subject`] per inserted node, keyed by
//! the node's id in an insertion-ordered registry whose order is the draw
//! order.  Compiled render pipelines are cached by shader identity (shader
//! pair, uniform layout, has-diffuse-texture flag) so that materials of the
//! same kind share one pipeline.  Lighting state lives in fixed-capacity
//! uniform buffers of sixteen records per light kind, packed in 16-byte
//! aligned vectors of single-precision bit patterns.
//!
//! The fixed binding-slot contract, held by every pipeline build and every
//! draw: slot 0 camera, slot 1 transform, slot 2 material uniform data
//! (when the material has any), slot 3 normal matrix, slot 4 ambient
//! light, slot 5 dynamic lights, slot 6 diffuse texture (only when the
//! material declares one).

use vstd::prelude::*;

use crate::geometry::{vertex_buffer_words, Geometry};
use crate::kv::{
    kv_contains, kv_distinct_keys, kv_get, kv_index_of, kv_insert, kv_keys, kv_remove,
    lemma_kv_index_of, lemma_kv_index_of_absent, lemma_kv_index_of_found, lemma_kv_insert,
    lemma_kv_remove,
};
use crate::lighting::{AmbientLight, DirectionalLight, PointLight, SpotLight};
use crate::loader::{GeometryLoader, MaterialLoader, TextureLoader};
use crate::material::{LayoutKind, Material, ShaderSource, ShaderSourceView};
use crate::mathops::{
    mat4_from_quat, mat4_from_quat_spec, mat4_from_translation, mat4_from_translation_spec,
    mat4_mul, mat4_mul_spec,
};
use crate::object3d::Object3D;
use crate::renderer::{GpuBuffer, GpuTexture, Renderer};
use crate::resource::{Id, Resource, TextureId};
use crate::texture::Texture;
use crate::units::{Quat, Vec3, Vec4, F32_ONE_BITS, F32_ZERO_BITS};

verus! {

/// One GPU-resident render record, derived from one scene node.
#[derive(Debug)]
pub struct Subject {
    pub diffuse_texture_id: Option<TextureId>,
    pub material_data: Option<GpuBuffer>,
    pub transform: GpuBuffer,
    pub normal: GpuBuffer,
    pub vertices: GpuBuffer,
    pub vertex_count: usize,
    pub indices: GpuBuffer,
    pub index_count: usize,
    pub pipeline: Option<u64>,
}

/// The dynamic-light uniform buffers and their shared bind group.
#[derive(Debug)]
pub struct LightsBinding {
    pub directional_lights: GpuBuffer,
    pub point_lights: GpuBuffer,
    pub spot_lights: GpuBuffer,
    pub directional_light_count: GpuBuffer,
    pub point_light_count: GpuBuffer,
    pub spot_light_count: GpuBuffer,
    pub bind_group: u64,
}

/// The identity under which compiled pipelines are cached: the shader
/// pair, the uniform layout, and whether the pipeline binds a diffuse
/// texture slot.  Two materials differing only in their ids share a
/// pipeline; two differing only in the has-texture flag must not, because
/// the optional slot changes the pipeline layout.
#[derive(Debug)]
pub struct PipelineKey {
    pub vertex_shader: ShaderSource,
    pub fragment_shader: ShaderSource,
    pub layout: LayoutKind,
    pub has_texture: bool,
}

/// The mathematical value of a [`PipelineKey`].
pub struct PipelineKeyView {
    pub vertex_shader: ShaderSourceView,
    pub fragment_shader: ShaderSourceView,
    pub layout: LayoutKind,
    pub has_texture: bool,
}

impl View for PipelineKey {
    type V = PipelineKeyView;

    open spec fn view(&self) -> PipelineKeyView {
        PipelineKeyView {
            vertex_shader: self.vertex_shader@,
            fragment_shader: self.fragment_shader@,
            layout: self.layout,
            has_texture: self.has_texture,
        }
    }
}

impl PipelineKey {
    /// Equality of cache identity, usable from executable code.
    pub fn matches(&self, other: &PipelineKey) -> (r: bool)
        ensures
            r == (self@ == other@),
    {
        let r = self.vertex_shader.matches(&other.vertex_shader)
            && self.fragment_shader.matches(&other.fragment_shader)
            && self.layout == other.layout && self.has_texture == other.has_texture;
        proof {
            if r {
                assert(self@ =~= other@);
            }
        }
        r
    }
}

/// The cache identity of a material.
pub open spec fn material_pipeline_key(m: Material) -> PipelineKeyView {
    PipelineKeyView {
        vertex_shader: m.vertex_shader@,
        fragment_shader: m.fragment_shader@,
        layout: m.fragment_data_layout,
        has_texture: m.diffuse_map_texture_id is Some,
    }
}

/// The pipeline cache as a sequence of key values and pipeline handles.
pub open spec fn cache_view(c: Seq<(PipelineKey, u64)>) -> Seq<(PipelineKeyView, u64)> {
    c.map_values(|p: (PipelineKey, u64)| (p.0@, p.1))
}

/// One indexed draw, with the buffers bound at each slot of the fixed
/// binding contract: 0 camera, 1 transform, 2 material data, 3 normal
/// matrix, 4 ambient light, 5 dynamic lights, 6 diffuse texture.
#[derive(Debug, PartialEq, Eq, Structural, Clone, Copy)]
pub struct DrawCall {
    pub pipeline: u64,
    pub camera: u64,
    pub transform: u64,
    pub material_data: Option<u64>,
    pub normal: u64,
    pub ambient: u64,
    pub lights: u64,
    pub diffuse_texture: Option<u64>,
    pub vertex_buffer: u64,
    pub index_buffer: u64,
    pub index_count: usize,
}

/// One frame's assembled render pass: the color attachment cleared to the
/// background color, the depth attachment cleared to the far plane, and
/// one indexed draw per drawable subject, in registry order.
#[derive(Debug)]
pub struct Frame {
    pub clear_color: Vec4,
    /// The depth texture bound as the depth attachment.
    pub depth_texture: u64,
    /// The clear value of the depth attachment: 1.0, the far plane.
    pub depth_clear: u32,
    pub draws: Vec<DrawCall>,
}

/// A sequence of `n` zero words.
pub open spec fn zero_seq(n: nat) -> Seq<u32> {
    Seq::new(n, |i: int| 0u32)
}

/// A vector of `n` zero words.
fn zero_words(n: usize) -> (r: Vec<u32>)
    ensures
        r@ == zero_seq(n as nat),
{
    let mut r: Vec<u32> = Vec::new();
    let mut i: usize = 0;
    while i < n
        invariant
            i <= n,
            r@.len() == i,
            forall|j: int| 0 <= j < i ==> r@[j] == 0u32,
        decreases n - i,
    {
        r.push(0);
        i += 1;
    }
    proof {
        assert(r@ =~= zero_seq(n as nat));
    }
    r
}

/// The packed GPU record of a point light: position padded with 0, color
/// padded with 1, each a 16-byte vector.
pub open spec fn point_light_record(l: PointLight) -> Seq<u32> {
    seq![
        l.position.x,
        l.position.y,
        l.position.z,
        F32_ZERO_BITS,
        l.color.x,
        l.color.y,
        l.color.z,
        F32_ONE_BITS,
    ]
}

/// The packed GPU record of a directional light: color padded with 1,
/// direction padded with 1.
pub open spec fn directional_light_record(l: DirectionalLight) -> Seq<u32> {
    seq![
        l.color.x,
        l.color.y,
        l.color.z,
        F32_ONE_BITS,
        l.direction.x,
        l.direction.y,
        l.direction.z,
        F32_ONE_BITS,
    ]
}

/// The packed GPU record of a spot light: position padded with 0, color
/// padded with 1, direction padded with 1, then the cutoff angle padded to
/// a full 16-byte vector.
pub open spec fn spot_light_record(l: SpotLight) -> Seq<u32> {
    seq![
        l.position.x,
        l.position.y,
        l.position.z,
        F32_ZERO_BITS,
        l.color.x,
        l.color.y,
        l.color.z,
        F32_ONE_BITS,
        l.direction.x,
        l.direction.y,
        l.direction.z,
        F32_ONE_BITS,
        l.cutoff_angle,
        F32_ZERO_BITS,
        F32_ZERO_BITS,
        F32_ZERO_BITS,
    ]
}

/// The whole point-light array buffer: sixteen records of eight words; the
/// first `min(|ls|, 16)` hold the lights' records, the rest stay zero.
pub open spec fn packed_point_lights(ls: Seq<PointLight>) -> Seq<u32> {
    Seq::new(128, |w: int| if w / 8 < ls.len() { point_light_record(ls[w / 8])[w % 8] } else { 0u32 })
}

/// The whole directional-light array buffer.
pub open spec fn packed_directional_lights(ls: Seq<DirectionalLight>) -> Seq<u32> {
    Seq::new(
        128,
        |w: int| if w / 8 < ls.len() { directional_light_record(ls[w / 8])[w % 8] } else { 0u32 },
    )
}

/// The whole spot-light array buffer: sixteen records of sixteen words.
pub open spec fn packed_spot_lights(ls: Seq<SpotLight>) -> Seq<u32> {
    Seq::new(256, |w: int| if w / 16 < ls.len() { spot_light_record(ls[w / 16])[w % 16] } else { 0u32 })
}

/// The contents of a count buffer: the count padded to 16 bytes.
pub open spec fn count_words(n: nat) -> Seq<u32> {
    seq![(if n < 16 { n } else { 16 }) as u32, 0u32, 0u32, 0u32]
}

/// `s` with the `r.len()` words starting at `at` replaced by `r`.
pub open spec fn splice(s: Seq<u32>, at: int, r: Seq<u32>) -> Seq<u32> {
    Seq::new(s.len(), |w: int| if at <= w < at + r.len() { r[w - at] } else { s[w] })
}

/// The transform uniform of a node: translation times rotation.  The scale
/// is deliberately not folded in.
pub open spec fn transform_matrix_words(pos: Vec3, rot: Quat) -> Seq<u32> {
    mat4_mul_spec(mat4_from_translation_spec(pos.words()), mat4_from_quat_spec(rot.words()))
}

/// The normal-matrix uniform of a node: the rotation alone.
pub open spec fn normal_matrix_words(rot: Quat) -> Seq<u32> {
    mat4_from_quat_spec(rot.words())
}

/// The geometry a node resolves to, if any.
pub open spec fn resolve_geometry(loader: GeometryLoader, gid: Option<Id>) -> Option<Geometry> {
    match gid {
        Some(id) => kv_get(loader.entries@, id),
        None => None,
    }
}

/// The material a node resolves to, if any.
pub open spec fn resolve_material(loader: MaterialLoader, mid: Option<Id>) -> Option<Material> {
    match mid {
        Some(id) => kv_get(loader.entries@, id),
        None => None,
    }
}

/// The texture a material's diffuse map resolves to, if any.
pub open spec fn resolve_texture(loader: TextureLoader, m: Option<Material>) -> Option<Texture> {
    match m {
        Some(m) => match m.diffuse_map_texture_id {
            Some(tid) => kv_get(loader.entries@, tid),
            None => None,
        },
        None => None,
    }
}

/// Vertex-buffer words of a resolved geometry; a missing geometry yields
/// an empty buffer.
pub open spec fn geometry_vertex_words(g: Option<Geometry>) -> Seq<u32> {
    match g {
        Some(g) => vertex_buffer_words(g.vertices@),
        None => Seq::empty(),
    }
}

/// Index-buffer words of a resolved geometry.
pub open spec fn geometry_index_words(g: Option<Geometry>) -> Seq<u32> {
    match g {
        Some(g) => g.indices@,
        None => Seq::empty(),
    }
}

pub open spec fn geometry_vertex_count(g: Option<Geometry>) -> nat {
    match g {
        Some(g) => g.vertices@.len(),
        None => 0,
    }
}

pub open spec fn geometry_index_count(g: Option<Geometry>) -> nat {
    match g {
        Some(g) => g.indices@.len(),
        None => 0,
    }
}

/// The scene.
#[derive(Debug)]
pub struct Scene {
    pub color: Vec4,
    pub id: Id,
    pub subjects: Vec<(Id, Subject)>,
    pub ambient_light: GpuBuffer,
    pub lights: LightsBinding,
    pub material_pipelines: Vec<(PipelineKey, u64)>,
    pub material_layouts: Vec<(Id, LayoutKind)>,
    pub texture_map_views: Vec<(TextureId, GpuTexture)>,
    pub texture_sampler: u64,
    pub camera: GpuBuffer,
    pub depth: GpuTexture,
}

impl Scene {
    /// Registry and cache keys are distinct and every fixed-size uniform
    /// buffer has its layout's exact length.
    pub open spec fn wf(self) -> bool {
        &&& kv_distinct_keys(self.subjects@)
        &&& kv_distinct_keys(cache_view(self.material_pipelines@))
        &&& (forall|a: int, b: int|
            0 <= a < b < cache_view(self.material_pipelines@).len() ==> (#[trigger] cache_view(
                self.material_pipelines@,
            )[a].1) != (#[trigger] cache_view(self.material_pipelines@)[b].1))
        &&& kv_distinct_keys(self.material_layouts@)
        &&& kv_distinct_keys(self.texture_map_views@)
        &&& self.ambient_light.words@.len() == 4
        &&& self.camera.words@.len() == 20
        &&& self.lights.directional_lights.words@.len() == 128
        &&& self.lights.point_lights.words@.len() == 128
        &&& self.lights.spot_lights.words@.len() == 256
        &&& self.lights.directional_light_count.words@.len() == 4
        &&& self.lights.point_light_count.words@.len() == 4
        &&& self.lights.spot_light_count.words@.len() == 4
    }

    /// Every cached pipeline handle was allocated from the device counter,
    /// so it lies strictly below it.  The scene builder establishes this
    /// (the cache starts empty) and every operation preserves it; the
    /// cache-extending operations ask for it, and it is what makes two
    /// compiles under different cache identities yield distinct pipeline
    /// objects.
    pub open spec fn pipelines_bounded(self, next: u64) -> bool {
        forall|j: int|
            0 <= j < cache_view(self.material_pipelines@).len() ==> (#[trigger] cache_view(
                self.material_pipelines@,
            )[j].1) < next
    }

}

/// Everything of two scenes but the background color is the same value.
pub open spec fn scene_unchanged_except_color(a: Scene, b: Scene) -> bool {
    &&& b.id == a.id
    &&& b.subjects == a.subjects
    &&& b.ambient_light == a.ambient_light
    &&& b.lights == a.lights
    &&& b.material_pipelines == a.material_pipelines
    &&& b.material_layouts == a.material_layouts
    &&& b.texture_map_views == a.texture_map_views
    &&& b.texture_sampler == a.texture_sampler
    &&& b.camera == a.camera
    &&& b.depth == a.depth
}

/// Everything of two scenes but the lighting state is the same value.
pub open spec fn scene_unchanged_except_lights(a: Scene, b: Scene) -> bool {
    &&& b.color == a.color
    &&& b.id == a.id
    &&& b.subjects == a.subjects
    &&& b.ambient_light == a.ambient_light
    &&& b.material_pipelines == a.material_pipelines
    &&& b.material_layouts == a.material_layouts
    &&& b.texture_map_views == a.texture_map_views
    &&& b.texture_sampler == a.texture_sampler
    &&& b.camera == a.camera
    &&& b.depth == a.depth
}

/// Everything of two scenes but the ambient-light buffer is the same
/// value.
pub open spec fn scene_unchanged_except_ambient(a: Scene, b: Scene) -> bool {
    &&& b.color == a.color
    &&& b.id == a.id
    &&& b.subjects == a.subjects
    &&& b.lights == a.lights
    &&& b.material_pipelines == a.material_pipelines
    &&& b.material_layouts == a.material_layouts
    &&& b.texture_map_views == a.texture_map_views
    &&& b.texture_sampler == a.texture_sampler
    &&& b.camera == a.camera
    &&& b.depth == a.depth
}

/// Everything of two scenes but the camera buffer is the same value.
pub open spec fn scene_unchanged_except_camera(a: Scene, b: Scene) -> bool {
    &&& b.color == a.color
    &&& b.id == a.id
    &&& b.subjects == a.subjects
    &&& b.ambient_light == a.ambient_light
    &&& b.lights == a.lights
    &&& b.material_pipelines == a.material_pipelines
    &&& b.material_layouts == a.material_layouts
    &&& b.texture_map_views == a.texture_map_views
    &&& b.texture_sampler == a.texture_sampler
    &&& b.depth == a.depth
}

/// Everything of two scenes but the subject registry is the same value.
pub open spec fn scene_unchanged_except_subjects(a: Scene, b: Scene) -> bool {
    &&& b.color == a.color
    &&& b.id == a.id
    &&& b.ambient_light == a.ambient_light
    &&& b.lights == a.lights
    &&& b.material_pipelines == a.material_pipelines
    &&& b.material_layouts == a.material_layouts
    &&& b.texture_map_views == a.texture_map_views
    &&& b.texture_sampler == a.texture_sampler
    &&& b.camera == a.camera
    &&& b.depth == a.depth
}

/// The lights binding with every field but the point-light pair the same
/// value.
pub open spec fn lights_unchanged_except_point(a: LightsBinding, b: LightsBinding) -> bool {
    &&& b.directional_lights == a.directional_lights
    &&& b.spot_lights == a.spot_lights
    &&& b.directional_light_count == a.directional_light_count
    &&& b.spot_light_count == a.spot_light_count
    &&& b.bind_group == a.bind_group
}

/// The lights binding with every field but the directional-light pair the
/// same value.
pub open spec fn lights_unchanged_except_directional(a: LightsBinding, b: LightsBinding) -> bool {
    &&& b.point_lights == a.point_lights
    &&& b.spot_lights == a.spot_lights
    &&& b.point_light_count == a.point_light_count
    &&& b.spot_light_count == a.spot_light_count
    &&& b.bind_group == a.bind_group
}

/// The lights binding with every field but the spot-light pair the same
/// value.
pub open spec fn lights_unchanged_except_spot(a: LightsBinding, b: LightsBinding) -> bool {
    &&& b.directional_lights == a.directional_lights
    &&& b.point_lights == a.point_lights
    &&& b.directional_light_count == a.directional_light_count
    &&& b.point_light_count == a.point_light_count
    &&& b.bind_group == a.bind_group
}

/// Builder for [`Scene`]; [`Scene::builder`] fills every GPU-resident
/// field, only the background color is the caller's choice.
#[derive(Debug, Default)]
pub struct SceneBuilder {
    pub color: Option<Vec4>,
    pub camera: Option<GpuBuffer>,
    pub ambient_light: Option<GpuBuffer>,
    pub lights: Option<LightsBinding>,
    pub depth: Option<GpuTexture>,
    pub texture_sampler: Option<u64>,
}

impl SceneBuilder {
    /// Every GPU-resident field is present with its layout's exact length.
    pub open spec fn wf(self) -> bool {
        &&& self.camera matches Some(c) && c.words@.len() == 20
        &&& self.ambient_light matches Some(a) && a.words@.len() == 4
        &&& self.lights matches Some(l) && {
            &&& l.directional_lights.words@.len() == 128
            &&& l.point_lights.words@.len() == 128
            &&& l.spot_lights.words@.len() == 256
            &&& l.directional_light_count.words@.len() == 4
            &&& l.point_light_count.words@.len() == 4
            &&& l.spot_light_count.words@.len() == 4
        }
        &&& self.depth is Some
        &&& self.texture_sampler is Some
    }

    pub fn color(self, color: Vec4) -> (r: Self)
        ensures
            r == (SceneBuilder { color: Some(color), ..self }),
    {
        SceneBuilder { color: Some(color), ..self }
    }

    /// The camera uniform: a zeroed view-projection matrix and camera
    /// position, 20 words.
    fn init_camera(self, renderer: &mut Renderer) -> (r: Self)
        requires
            old(renderer).can_allocate(1),
        ensures
            r == (SceneBuilder { camera: r.camera, ..self }),
            r.camera matches Some(b) && b.handle == old(renderer).next_handle && b.words@
                == zero_seq(20),
            final(renderer).next_handle == old(renderer).next_handle + 1,
            final(renderer).backend == old(renderer).backend,
            final(renderer).canvas == old(renderer).canvas,
            final(renderer).surface_capabilities == old(renderer).surface_capabilities,
            final(renderer).supported_format == old(renderer).supported_format,
            final(renderer).surface_config == old(renderer).surface_config,
    {
        let camera = renderer.create_buffer(zero_words(20));
        SceneBuilder { camera: Some(camera), ..self }
    }

    /// The depth attachment, sized to the canvas.
    fn init_depth(self, renderer: &mut Renderer) -> (r: Self)
        requires
            old(renderer).can_allocate(1),
        ensures
            r == (SceneBuilder { depth: r.depth, ..self }),
            r.depth matches Some(t) && t.handle == old(renderer).next_handle && t.width == old(
                renderer,
            ).canvas.width && t.height == old(renderer).canvas.height && t.bytes@ == Seq::<
                u8,
            >::empty(),
            final(renderer).next_handle == old(renderer).next_handle + 1,
            final(renderer).backend == old(renderer).backend,
            final(renderer).canvas == old(renderer).canvas,
            final(renderer).surface_capabilities == old(renderer).surface_capabilities,
            final(renderer).supported_format == old(renderer).supported_format,
            final(renderer).surface_config == old(renderer).surface_config,
    {
        let width = renderer.canvas().width;
        let height = renderer.canvas().height;
        let depth = renderer.create_texture(width, height, Vec::new());
        SceneBuilder { depth: Some(depth), ..self }
    }

    /// The ambient-light uniform: opaque black, 4 words.
    fn init_ambient_light(self, renderer: &mut Renderer) -> (r: Self)
        requires
            old(renderer).can_allocate(1),
        ensures
            r == (SceneBuilder { ambient_light: r.ambient_light, ..self }),
            r.ambient_light matches Some(b) && b.handle == old(renderer).next_handle && b.words@
                == seq![0u32, 0u32, 0u32, F32_ONE_BITS],
            final(renderer).next_handle == old(renderer).next_handle + 1,
            final(renderer).backend == old(renderer).backend,
            final(renderer).canvas == old(renderer).canvas,
            final(renderer).surface_capabilities == old(renderer).surface_capabilities,
            final(renderer).supported_format == old(renderer).supported_format,
            final(renderer).surface_config == old(renderer).surface_config,
    {
        let words = vec![0u32, 0u32, 0u32, F32_ONE_BITS];
        let ambient = renderer.create_buffer(words);
        SceneBuilder { ambient_light: Some(ambient), ..self }
    }

    /// The dynamic-light uniforms: three zeroed fixed-capacity arrays,
    /// three zeroed count buffers, and their shared bind group.
    fn init_dynamic_lights(self, renderer: &mut Renderer) -> (r: Self)
        requires
            old(renderer).can_allocate(7),
        ensures
            r == (SceneBuilder { lights: r.lights, ..self }),
            r.lights matches Some(l) && {
                let h = old(renderer).next_handle;
                &&& l.directional_lights.handle == h
                &&& l.directional_lights.words@ == zero_seq(128)
                &&& l.point_lights.handle == h + 1
                &&& l.point_lights.words@ == zero_seq(128)
                &&& l.spot_lights.handle == h + 2
                &&& l.spot_lights.words@ == zero_seq(256)
                &&& l.directional_light_count.handle == h + 3
                &&& l.directional_light_count.words@ == zero_seq(4)
                &&& l.point_light_count.handle == h + 4
                &&& l.point_light_count.words@ == zero_seq(4)
                &&& l.spot_light_count.handle == h + 5
                &&& l.spot_light_count.words@ == zero_seq(4)
                &&& l.bind_group == h + 6
            },
            final(renderer).next_handle == old(renderer).next_handle + 7,
            final(renderer).backend == old(renderer).backend,
            final(renderer).canvas == old(renderer).canvas,
            final(renderer).surface_capabilities == old(renderer).surface_capabilities,
            final(renderer).supported_format == old(renderer).supported_format,
            final(renderer).surface_config == old(renderer).surface_config,
    {
        let directional_lights = renderer.create_buffer(zero_words(128));
        let point_lights = renderer.create_buffer(zero_words(128));
        let spot_lights = renderer.create_buffer(zero_words(256));
        let directional_light_count = renderer.create_buffer(zero_words(4));
        let point_light_count = renderer.create_buffer(zero_words(4));
        let spot_light_count = renderer.create_buffer(zero_words(4));
        let bind_group = renderer.allocate_handle();
        SceneBuilder {
            lights: Some(
                LightsBinding {
                    directional_lights,
                    point_lights,
                    spot_lights,
                    directional_light_count,
                    point_light_count,
                    spot_light_count,
                    bind_group,
                },
            ),
            ..self
        }
    }

    /// The shared texture sampler.
    fn init_textures(self, renderer: &mut Renderer) -> (r: Self)
        requires
            old(renderer).can_allocate(1),
        ensures
            r == (SceneBuilder { texture_sampler: r.texture_sampler, ..self }),
            r.texture_sampler == Some(old(renderer).next_handle),
            final(renderer).next_handle == old(renderer).next_handle + 1,
            final(renderer).backend == old(renderer).backend,
            final(renderer).canvas == old(renderer).canvas,
            final(renderer).surface_capabilities == old(renderer).surface_capabilities,
            final(renderer).supported_format == old(renderer).supported_format,
            final(renderer).surface_config == old(renderer).surface_config,
    {
        let sampler = renderer.allocate_handle();
        SceneBuilder { texture_sampler: Some(sampler), ..self }
    }

    /// Assemble the scene.  The registry and every cache start empty; the
    /// background color defaults to opaque black.
    pub fn build(self) -> (r: Scene)
        requires
            self.wf(),
        ensures
            r.wf(),
            r.id.0 != 0,
            r.color == (match self.color {
                Some(c) => c,
                None => Vec4::opaque_black_spec(),
            }),
            Some(r.camera) == self.camera,
            Some(r.ambient_light) == self.ambient_light,
            Some(r.lights) == self.lights,
            Some(r.depth) == self.depth,
            Some(r.texture_sampler) == self.texture_sampler,
            r.subjects@ == Seq::<(Id, Subject)>::empty(),
            r.material_pipelines@ == Seq::<(PipelineKey, u64)>::empty(),
            r.material_layouts@ == Seq::<(Id, LayoutKind)>::empty(),
            r.texture_map_views@ == Seq::<(TextureId, GpuTexture)>::empty(),
    {
        let r = Scene {
            color: match self.color {
                Some(c) => c,
                None => Vec4::opaque_black(),
            },
            id: Id::new(),
            subjects: Vec::new(),
            ambient_light: self.ambient_light.unwrap(),
            lights: self.lights.unwrap(),
            material_pipelines: Vec::new(),
            material_layouts: Vec::new(),
            texture_map_views: Vec::new(),
            texture_sampler: self.texture_sampler.unwrap(),
            camera: self.camera.unwrap(),
            depth: self.depth.unwrap(),
        };
        proof {
            assert(cache_view(r.material_pipelines@) =~= Seq::<(PipelineKeyView, u64)>::empty());
        }
        r
    }
}

impl Scene {
    /// Start a scene build against a renderer, allocating the camera,
    /// depth, ambient-light, dynamic-light and sampler resources, in that
    /// order.
    pub fn builder(renderer: &mut Renderer) -> (r: SceneBuilder)
        requires
            old(renderer).can_allocate(11),
        ensures
            r.wf(),
            r.color is None,
            ({
                let h = old(renderer).next_handle;
                &&& r.camera matches Some(b) && b.handle == h && b.words@ == zero_seq(20)
                &&& r.depth matches Some(t) && t.handle == h + 1 && t.width == old(
                    renderer,
                ).canvas.width && t.height == old(renderer).canvas.height
                &&& r.ambient_light matches Some(b) && b.handle == h + 2 && b.words@ == seq![
                    0u32,
                    0u32,
                    0u32,
                    F32_ONE_BITS,
                ]
                &&& r.lights matches Some(l) && {
                    &&& l.directional_lights.handle == h + 3
                    &&& l.directional_lights.words@ == zero_seq(128)
                    &&& l.point_lights.handle == h + 4
                    &&& l.point_lights.words@ == zero_seq(128)
                    &&& l.spot_lights.handle == h + 5
                    &&& l.spot_lights.words@ == zero_seq(256)
                    &&& l.directional_light_count.handle == h + 6
                    &&& l.directional_light_count.words@ == zero_seq(4)
                    &&& l.point_light_count.handle == h + 7
                    &&& l.point_light_count.words@ == zero_seq(4)
                    &&& l.spot_light_count.handle == h + 8
                    &&& l.spot_light_count.words@ == zero_seq(4)
                    &&& l.bind_group == h + 9
                }
                &&& r.texture_sampler == Some((h + 10) as u64)
            }),
            final(renderer).next_handle == old(renderer).next_handle + 11,
            final(renderer).backend == old(renderer).backend,
            final(renderer).canvas == old(renderer).canvas,
            final(renderer).surface_capabilities == old(renderer).surface_capabilities,
            final(renderer).supported_format == old(renderer).supported_format,
            final(renderer).surface_config == old(renderer).surface_config,
    {
        SceneBuilder {
            color: None,
            camera: None,
            ambient_light: None,
            lights: None,
            depth: None,
            texture_sampler: None,
        }.init_camera(renderer).init_depth(renderer).init_ambient_light(renderer)
            .init_dynamic_lights(renderer)
            .init_textures(renderer)
    }

    /// How many subjects the registry holds.
    pub fn subject_count(&self) -> (r: usize)
        ensures
            r == self.subjects@.len(),
    {
        self.subjects.len()
    }

    /// Set the background color.
    pub fn set_color(&mut self, color: Vec4)
        ensures
            final(self).color == color,
            scene_unchanged_except_color(*old(self), *final(self)),
            old(self).wf() ==> final(self).wf(),
    {
        self.color = color;
    }

    pub fn color(&self) -> (r: &Vec4)
        ensures
            *r == self.color,
    {
        &self.color
    }

    pub fn id(&self) -> (r: &Id)
        ensures
            *r == self.id,
    {
        &self.id
    }

    /// Whether the registry holds a subject for this node.
    pub fn has_subject<O: Resource + Object3D>(&self, object: &O) -> (r: bool)
        ensures
            r == kv_contains(self.subjects@, object.spec_id()),
    {
        let id = object.id();
        let ghost s0 = self.subjects@;
        let n = self.subjects.len();
        let mut i: usize = 0;
        while i < n
            invariant
                self.subjects@ == s0,
                id == object.spec_id(),
                n == s0.len(),
                i <= n,
                forall|j: int| 0 <= j < i ==> s0[j].0 != id,
            decreases n - i,
        {
            if self.subjects[i].0 == id {
                proof {
                    lemma_kv_index_of_found(s0, id, i as int);
                }
                return true;
            }
            i += 1;
        }
        proof {
            lemma_kv_index_of_absent(s0, id);
        }
        false
    }

    /// Remove a node's subject, preserving the relative order of the
    /// remaining subjects.  An absent id is a no-op.
    pub fn remove<O: Resource>(&mut self, object: &O)
        requires
            old(self).wf(),
        ensures
            final(self).wf(),
            final(self).subjects@ == kv_remove(old(self).subjects@, object.spec_id()),
            scene_unchanged_except_subjects(*old(self), *final(self)),
    {
        let id = object.id();
        let ghost s0 = self.subjects@;
        let n = self.subjects.len();
        let mut i: usize = 0;
        while i < n
            invariant
                *self == *old(self),
                self.subjects@ == s0,
                s0 == old(self).subjects@,
                old(self).wf(),
                id == object.spec_id(),
                n == s0.len(),
                i <= n,
                forall|j: int| 0 <= j < i ==> s0[j].0 != id,
            decreases n - i,
        {
            if self.subjects[i].0 == id {
                proof {
                    lemma_kv_index_of_found(s0, id, i as int);
                    lemma_kv_remove(s0, id);
                }
                self.subjects.remove(i);
                return ;
            }
            i += 1;
        }
        proof {
            lemma_kv_index_of_absent(s0, id);
        }
    }

    /// Rewrite the whole point-light array (the first sixteen lights; a
    /// longer list is truncated, a shorter one padded with zeroed records)
    /// and its count buffer, in place.
    pub fn bind_point_lights(&mut self, renderer: &Renderer, point_lights: &[PointLight])
        requires
            old(self).wf(),
        ensures
            final(self).wf(),
            final(self).lights.point_lights.handle == old(self).lights.point_lights.handle,
            final(self).lights.point_lights.words@ == packed_point_lights(point_lights@),
            final(self).lights.point_light_count.handle == old(
                self,
            ).lights.point_light_count.handle,
            final(self).lights.point_light_count.words@ == count_words(point_lights@.len()),
            lights_unchanged_except_point(old(self).lights, final(self).lights),
            scene_unchanged_except_lights(*old(self), *final(self)),
    {
        self.lights.point_lights.words = pack_point_lights(point_lights);
        let count: u32 = if point_lights.len() < 16 {
            point_lights.len() as u32
        } else {
            16
        };
        let words = vec![count, 0u32, 0u32, 0u32];
        proof {
            assert(words@ =~= count_words(point_lights@.len()));
        }
        self.lights.point_light_count.words = words;
    }

    /// Rewrite the whole directional-light array and its count buffer, in
    /// place.
    pub fn bind_directional_lights(
        &mut self,
        renderer: &Renderer,
        directional_lights: &[DirectionalLight],
    )
        requires
            old(self).wf(),
        ensures
            final(self).wf(),
            final(self).lights.directional_lights.handle == old(
                self,
            ).lights.directional_lights.handle,
            final(self).lights.directional_lights.words@ == packed_directional_lights(
                directional_lights@,
            ),
            final(self).lights.directional_light_count.handle == old(
                self,
            ).lights.directional_light_count.handle,
            final(self).lights.directional_light_count.words@ == count_words(
                directional_lights@.len(),
            ),
            lights_unchanged_except_directional(old(self).lights, final(self).lights),
            scene_unchanged_except_lights(*old(self), *final(self)),
    {
        self.lights.directional_lights.words = pack_directional_lights(directional_lights);
        let count: u32 = if directional_lights.len() < 16 {
            directional_lights.len() as u32
        } else {
            16
        };
        let words = vec![count, 0u32, 0u32, 0u32];
        proof {
            assert(words@ =~= count_words(directional_lights@.len()));
        }
        self.lights.directional_light_count.words = words;
    }

    /// Rewrite the whole spot-light array and its count buffer, in place.
    pub fn bind_spot_lights(&mut self, renderer: &Renderer, spot_lights: &[SpotLight])
        requires
            old(self).wf(),
        ensures
            final(self).wf(),
            final(self).lights.spot_lights.handle == old(self).lights.spot_lights.handle,
            final(self).lights.spot_lights.words@ == packed_spot_lights(spot_lights@),
            final(self).lights.spot_light_count.handle == old(self).lights.spot_light_count.handle,
            final(self).lights.spot_light_count.words@ == count_words(spot_lights@.len()),
            lights_unchanged_except_spot(old(self).lights, final(self).lights),
            scene_unchanged_except_lights(*old(self), *final(self)),
    {
        self.lights.spot_lights.words = pack_spot_lights(spot_lights);
        let count: u32 = if spot_lights.len() < 16 {
            spot_lights.len() as u32
        } else {
            16
        };
        let words = vec![count, 0u32, 0u32, 0u32];
        proof {
            assert(words@ =~= count_words(spot_lights@.len()));
        }
        self.lights.spot_light_count.words = words;
    }

    /// Patch the point-light record at `index`, in place, leaving the rest
    /// of the array and the count untouched.
    pub fn update_point_light(&mut self, renderer: &Renderer, index: usize, point_light: &PointLight)
        requires
            old(self).wf(),
            index < 16,
        ensures
            final(self).wf(),
            final(self).lights.point_lights.handle == old(self).lights.point_lights.handle,
            final(self).lights.point_lights.words@ == splice(
                old(self).lights.point_lights.words@,
                8 * index,
                point_light_record(*point_light),
            ),
            final(self).lights.point_light_count == old(self).lights.point_light_count,
            lights_unchanged_except_point(old(self).lights, final(self).lights),
            scene_unchanged_except_lights(*old(self), *final(self)),
    {
        let base = 8 * index;
        self.lights.point_lights.words.set(base, point_light.position.x);
        self.lights.point_lights.words.set(base + 1, point_light.position.y);
        self.lights.point_lights.words.set(base + 2, point_light.position.z);
        self.lights.point_lights.words.set(base + 3, F32_ZERO_BITS);
        self.lights.point_lights.words.set(base + 4, point_light.color.x);
        self.lights.point_lights.words.set(base + 5, point_light.color.y);
        self.lights.point_lights.words.set(base + 6, point_light.color.z);
        self.lights.point_lights.words.set(base + 7, F32_ONE_BITS);
        proof {
            assert(self.lights.point_lights.words@ =~= splice(
                old(self).lights.point_lights.words@,
                8 * index,
                point_light_record(*point_light),
            ));
        }
    }

    /// Patch the directional-light record at `index`, in place.
    pub fn update_directional_light(
        &mut self,
        renderer: &Renderer,
        index: usize,
        directional_light: &DirectionalLight,
    )
        requires
            old(self).wf(),
            index < 16,
        ensures
            final(self).wf(),
            final(self).lights.directional_lights.handle == old(
                self,
            ).lights.directional_lights.handle,
            final(self).lights.directional_lights.words@ == splice(
                old(self).lights.directional_lights.words@,
                8 * index,
                directional_light_record(*directional_light),
            ),
            final(self).lights.directional_light_count == old(self).lights.directional_light_count,
            lights_unchanged_except_directional(old(self).lights, final(self).lights),
            scene_unchanged_except_lights(*old(self), *final(self)),
    {
        let base = 8 * index;
        self.lights.directional_lights.words.set(base, directional_light.color.x);
        self.lights.directional_lights.words.set(base + 1, directional_light.color.y);
        self.lights.directional_lights.words.set(base + 2, directional_light.color.z);
        self.lights.directional_lights.words.set(base + 3, F32_ONE_BITS);
        self.lights.directional_lights.words.set(base + 4, directional_light.direction.x);
        self.lights.directional_lights.words.set(base + 5, directional_light.direction.y);
        self.lights.directional_lights.words.set(base + 6, directional_light.direction.z);
        self.lights.directional_lights.words.set(base + 7, F32_ONE_BITS);
        proof {
            assert(self.lights.directional_lights.words@ =~= splice(
                old(self).lights.directional_lights.words@,
                8 * index,
                directional_light_record(*directional_light),
            ));
        }
    }

    /// Patch the spot-light record at `index`, in place.
    pub fn update_spot_light(&mut self, renderer: &Renderer, index: usize, spot_light: &SpotLight)
        requires
            old(self).wf(),
            index < 16,
        ensures
            final(self).wf(),
            final(self).lights.spot_lights.handle == old(self).lights.spot_lights.handle,
            final(self).lights.spot_lights.words@ == splice(
                old(self).lights.spot_lights.words@,
                16 * index,
                spot_light_record(*spot_light),
            ),
            final(self).lights.spot_light_count == old(self).lights.spot_light_count,
            lights_unchanged_except_spot(old(self).lights, final(self).lights),
            scene_unchanged_except_lights(*old(self), *final(self)),
    {
        let base = 16 * index;
        self.lights.spot_lights.words.set(base, spot_light.position.x);
        self.lights.spot_lights.words.set(base + 1, spot_light.position.y);
        self.lights.spot_lights.words.set(base + 2, spot_light.position.z);
        self.lights.spot_lights.words.set(base + 3, F32_ZERO_BITS);
        self.lights.spot_lights.words.set(base + 4, spot_light.color.x);
        self.lights.spot_lights.words.set(base + 5, spot_light.color.y);
        self.lights.spot_lights.words.set(base + 6, spot_light.color.z);
        self.lights.spot_lights.words.set(base + 7, F32_ONE_BITS);
        self.lights.spot_lights.words.set(base + 8, spot_light.direction.x);
        self.lights.spot_lights.words.set(base + 9, spot_light.direction.y);
        self.lights.spot_lights.words.set(base + 10, spot_light.direction.z);
        self.lights.spot_lights.words.set(base + 11, F32_ONE_BITS);
        self.lights.spot_lights.words.set(base + 12, spot_light.cutoff_angle);
        self.lights.spot_lights.words.set(base + 13, F32_ZERO_BITS);
        self.lights.spot_lights.words.set(base + 14, F32_ZERO_BITS);
        self.lights.spot_lights.words.set(base + 15, F32_ZERO_BITS);
        proof {
            assert(self.lights.spot_lights.words@ =~= splice(
                old(self).lights.spot_lights.words@,
                16 * index,
                spot_light_record(*spot_light),
            ));
        }
    }

    /// Rewrite the ambient-light uniform, in place: the color padded with
    /// 1.
    pub fn update_ambient_light(&mut self, renderer: &Renderer, ambient_light: &AmbientLight)
        requires
            old(self).wf(),
        ensures
            final(self).wf(),
            final(self).ambient_light.handle == old(self).ambient_light.handle,
            final(self).ambient_light.words@ == seq![
                ambient_light.color.x,
                ambient_light.color.y,
                ambient_light.color.z,
                F32_ONE_BITS,
            ],
            scene_unchanged_except_ambient(*old(self), *final(self)),
    {
        let words = vec![
            ambient_light.color.x,
            ambient_light.color.y,
            ambient_light.color.z,
            F32_ONE_BITS,
        ];
        self.ambient_light.words = words;
    }
}

/// Pack a point-light list into the fixed sixteen-record array.
fn pack_point_lights(lights: &[PointLight]) -> (r: Vec<u32>)
    ensures
        r@ == packed_point_lights(lights@),
{
    let mut r: Vec<u32> = Vec::new();
    let mut i: usize = 0;
    while i < 16
        invariant
            i <= 16,
            r@.len() == 8 * i,
            forall|w: int|
                0 <= w < 8 * i ==> r@[w] == packed_point_lights(lights@)[w],
        decreases 16 - i,
    {
        if i < lights.len() {
            let l = &lights[i];
            r.push(l.position.x);
            r.push(l.position.y);
            r.push(l.position.z);
            r.push(F32_ZERO_BITS);
            r.push(l.color.x);
            r.push(l.color.y);
            r.push(l.color.z);
            r.push(F32_ONE_BITS);
        } else {
            r.push(0);
            r.push(0);
            r.push(0);
            r.push(0);
            r.push(0);
            r.push(0);
            r.push(0);
            r.push(0);
        }
        proof {
            assert forall|w: int| 8 * (i as int) <= w < 8 * (i as int) + 8 implies r@[w]
                == packed_point_lights(lights@)[w] by {
                assert(w / 8 == i as int);
            }
        }
        i += 1;
    }
    proof {
        assert(r@ =~= packed_point_lights(lights@));
    }
    r
}

/// Pack a directional-light list into the fixed sixteen-record array.
fn pack_directional_lights(lights: &[DirectionalLight]) -> (r: Vec<u32>)
    ensures
        r@ == packed_directional_lights(lights@),
{
    let mut r: Vec<u32> = Vec::new();
    let mut i: usize = 0;
    while i < 16
        invariant
            i <= 16,
            r@.len() == 8 * i,
            forall|w: int|
                0 <= w < 8 * i ==> r@[w] == packed_directional_lights(lights@)[w],
        decreases 16 - i,
    {
        if i < lights.len() {
            let l = &lights[i];
            r.push(l.color.x);
            r.push(l.color.y);
            r.push(l.color.z);
            r.push(F32_ONE_BITS);
            r.push(l.direction.x);
            r.push(l.direction.y);
            r.push(l.direction.z);
            r.push(F32_ONE_BITS);
        } else {
            r.push(0);
            r.push(0);
            r.push(0);
            r.push(0);
            r.push(0);
            r.push(0);
            r.push(0);
            r.push(0);
        }
        proof {
            assert forall|w: int| 8 * (i as int) <= w < 8 * (i as int) + 8 implies r@[w]
                == packed_directional_lights(lights@)[w] by {
                assert(w / 8 == i as int);
            }
        }
        i += 1;
    }
    proof {
        assert(r@ =~= packed_directional_lights(lights@));
    }
    r
}

/// Pack a spot-light list into the fixed sixteen-record array.
fn pack_spot_lights(lights: &[SpotLight]) -> (r: Vec<u32>)
    ensures
        r@ == packed_spot_lights(lights@),
{
    let mut r: Vec<u32> = Vec::new();
    let mut i: usize = 0;
    while i < 16
        invariant
            i <= 16,
            r@.len() == 16 * i,
            forall|w: int|
                0 <= w < 16 * i ==> r@[w] == packed_spot_lights(lights@)[w],
        decreases 16 - i,
    {
        if i < lights.len() {
            let l = &lights[i];
            r.push(l.position.x);
            r.push(l.position.y);
            r.push(l.position.z);
            r.push(F32_ZERO_BITS);
            r.push(l.color.x);
            r.push(l.color.y);
            r.push(l.color.z);
            r.push(F32_ONE_BITS);
            r.push(l.direction.x);
            r.push(l.direction.y);
            r.push(l.direction.z);
            r.push(F32_ONE_BITS);
            r.push(l.cutoff_angle);
            r.push(F32_ZERO_BITS);
            r.push(F32_ZERO_BITS);
            r.push(F32_ZERO_BITS);
        } else {
            let mut k: usize = 0;
            while k < 16
                invariant
                    k <= 16,
                    r@.len() == 16 * i + k,
                    i < 16,
                    lights@.len() <= i,
                    forall|w: int|
                        0 <= w < 16 * i ==> r@[w] == packed_spot_lights(lights@)[w],
                    forall|w: int| 16 * i <= w < r@.len() ==> r@[w] == 0u32,
                decreases 16 - k,
            {
                r.push(0);
                k += 1;
            }
        }
        proof {
            assert forall|w: int| 16 * (i as int) <= w < 16 * (i as int) + 16 implies r@[w]
                == packed_spot_lights(lights@)[w] by {
                assert(w / 16 == i as int);
            }
        }
        i += 1;
    }
    proof {
        assert(r@ =~= packed_spot_lights(lights@));
    }
    r
}


impl Scene {
    /// Rebuild the camera uniform buffer and its binding from scratch: the
    /// view-projection matrix, then the camera world position padded to a
    /// full 16-byte vector.
    pub fn set_camera_matrix(&mut self, renderer: &mut Renderer, matrix: &[u32; 16], pos: Vec3)
        requires
            old(self).wf(),
            old(renderer).can_allocate(1),
        ensures
            final(self).wf(),
            final(self).camera.handle == old(renderer).next_handle,
            final(self).camera.words@ == matrix@ + pos.words() + seq![0u32],
            scene_unchanged_except_camera(*old(self), *final(self)),
            final(renderer).next_handle == old(renderer).next_handle + 1,
            final(renderer).backend == old(renderer).backend,
            final(renderer).canvas == old(renderer).canvas,
            final(renderer).surface_capabilities == old(renderer).surface_capabilities,
            final(renderer).supported_format == old(renderer).supported_format,
            final(renderer).surface_config == old(renderer).surface_config,
    {
        let mut words = array16_to_vec(matrix);
        words.push(pos.x);
        words.push(pos.y);
        words.push(pos.z);
        words.push(0);
        proof {
            assert(words@ =~= matrix@ + pos.words() + seq![0u32]);
        }
        self.camera = renderer.create_buffer(words);
    }

    /// Write a new view-projection matrix into the first sixteen words of
    /// the already-allocated camera buffer; the position words and the
    /// buffer identity stay untouched.
    pub fn update_camera_matrix(&mut self, renderer: &Renderer, matrix: &[u32; 16])
        requires
            old(self).wf(),
        ensures
            final(self).wf(),
            final(self).camera.handle == old(self).camera.handle,
            final(self).camera.words@ == matrix@ + old(self).camera.words@.subrange(16, 20),
            scene_unchanged_except_camera(*old(self), *final(self)),
    {
        let mut i: usize = 0;
        while i < 16
            invariant
                i <= 16,
                old(self).wf(),
                scene_unchanged_except_camera(*old(self), *self),
                self.camera.handle == old(self).camera.handle,
                self.camera.words@.len() == 20,
                forall|j: int| 0 <= j < i ==> self.camera.words@[j] == matrix@[j],
                forall|j: int| i <= j < 20 ==> self.camera.words@[j] == old(self).camera.words@[j],
            decreases 16 - i,
        {
            self.camera.words.set(i, matrix[i]);
            i += 1;
        }
        proof {
            assert(self.camera.words@ =~= matrix@ + old(self).camera.words@.subrange(16, 20));
        }
    }
}

/// Copy a word vector.
fn copy_words(v: &Vec<u32>) -> (r: Vec<u32>)
    ensures
        r@ == v@,
{
    let r = v.clone();
    proof {
        assert(r@ =~= v@);
    }
    r
}

/// Copy a byte vector.
fn copy_bytes(v: &Vec<u8>) -> (r: Vec<u8>)
    ensures
        r@ == v@,
{
    let r = v.clone();
    proof {
        assert(r@ =~= v@);
    }
    r
}

/// The sixteen words of a matrix as a vector.
fn array16_to_vec(a: &[u32; 16]) -> (r: Vec<u32>)
    ensures
        r@ == a@,
{
    let mut r: Vec<u32> = Vec::new();
    let mut i: usize = 0;
    while i < 16
        invariant
            i <= 16,
            r@.len() == i,
            forall|j: int| 0 <= j < i ==> r@[j] == a@[j],
        decreases 16 - i,
    {
        r.push(a[i]);
        i += 1;
    }
    proof {
        assert(r@ =~= a@);
    }
    r
}

/// Pack a vertex list into its vertex-buffer words: eight words per
/// vertex, byte-identical attribute layout (position, normal, texture
/// coordinates).
fn pack_vertices(vs: &Vec<crate::geometry::Vertex>) -> (r: Vec<u32>)
    ensures
        r@ == vertex_buffer_words(vs@),
{
    let n = vs.len();
    let mut r: Vec<u32> = Vec::new();
    let mut i: usize = 0;
    while i < n
        invariant
            i <= n,
            n == vs@.len(),
            r@.len() == 8 * i,
            forall|w: int| 0 <= w < 8 * i ==> r@[w] == vertex_buffer_words(vs@)[w],
        decreases n - i,
    {
        let v = &vs[i];
        r.push(v.position.x);
        r.push(v.position.y);
        r.push(v.position.z);
        r.push(v.normal.x);
        r.push(v.normal.y);
        r.push(v.normal.z);
        r.push(v.tex_coords.x);
        r.push(v.tex_coords.y);
        proof {
            assert forall|w: int| 8 * (i as int) <= w < 8 * (i as int) + 8 implies r@[w]
                == vertex_buffer_words(vs@)[w] by {
                assert(w / 8 == i as int);
                assert(vertex_buffer_words(vs@)[w] == vs@[i as int].words()[w % 8]);
            }
        }
        i += 1;
    }
    proof {
        assert(r@ =~= vertex_buffer_words(vs@));
    }
    r
}

/// The transform uniform words of a node, computed by the trusted matrix
/// arithmetic: translation times rotation.
pub(crate) fn build_transform_words(pos: Vec3, rot: Quat) -> (r: Vec<u32>)
    ensures
        r@ == transform_matrix_words(pos, rot),
{
    let t = mat4_from_translation(pos);
    let q = mat4_from_quat(rot);
    let m = mat4_mul(&t, &q);
    array16_to_vec(&m)
}

/// The normal-matrix uniform words of a node: the rotation alone.
pub(crate) fn build_normal_words(rot: Quat) -> (r: Vec<u32>)
    ensures
        r@ == normal_matrix_words(rot),
{
    let q = mat4_from_quat(rot);
    array16_to_vec(&q)
}

/// Ordered-map insertion into the texture binding cache.
fn texture_views_insert(v: &mut Vec<(TextureId, GpuTexture)>, tid: TextureId, tex: GpuTexture)
    requires
        kv_distinct_keys(old(v)@),
    ensures
        final(v)@ == kv_insert(old(v)@, tid, tex),
        kv_distinct_keys(final(v)@),
{
    let ghost s0 = v@;
    let n = v.len();
    let mut i: usize = 0;
    while i < n
        invariant
            v@ == s0,
            s0 == old(v)@,
            kv_distinct_keys(s0),
            n == s0.len(),
            i <= n,
            forall|j: int| 0 <= j < i ==> s0[j].0 != tid,
        decreases n - i,
    {
        if v[i].0 == tid {
            proof {
                lemma_kv_index_of_found(s0, tid, i as int);
            }
            v.set(i, (tid, tex));
            return ;
        }
        i += 1;
    }
    proof {
        lemma_kv_index_of_absent(s0, tid);
    }
    v.push((tid, tex));
}

/// Insert-if-absent into the per-material bind-group-layout cache.
fn layouts_insert(v: &mut Vec<(Id, LayoutKind)>, id: Id, layout: LayoutKind)
    requires
        kv_distinct_keys(old(v)@),
    ensures
        final(v)@ == (if kv_contains(old(v)@, id) {
            old(v)@
        } else {
            kv_insert(old(v)@, id, layout)
        }),
        kv_distinct_keys(final(v)@),
{
    let ghost s0 = v@;
    let n = v.len();
    let mut i: usize = 0;
    while i < n
        invariant
            v@ == s0,
            s0 == old(v)@,
            kv_distinct_keys(s0),
            n == s0.len(),
            i <= n,
            forall|j: int| 0 <= j < i ==> s0[j].0 != id,
        decreases n - i,
    {
        if v[i].0 == id {
            proof {
                lemma_kv_index_of_found(s0, id, i as int);
            }
            return ;
        }
        i += 1;
    }
    proof {
        lemma_kv_index_of_absent(s0, id);
    }
    v.push((id, layout));
}

/// Look a pipeline up by cache identity.
fn cache_lookup(cache: &Vec<(PipelineKey, u64)>, key: &PipelineKey) -> (r: Option<u64>)
    ensures
        match r {
            Some(h) => kv_get(cache_view(cache@), key@) == Some(h),
            None => kv_get(cache_view(cache@), key@) is None,
        },
{
    let ghost s0 = cache_view(cache@);
    let n = cache.len();
    let mut i: usize = 0;
    while i < n
        invariant
            s0 == cache_view(cache@),
            n == cache@.len(),
            n == s0.len(),
            i <= n,
            forall|j: int| 0 <= j < i ==> s0[j].0 != key@,
        decreases n - i,
    {
        let hit = cache[i].0.matches(key);
        proof {
            assert(s0[i as int] == (cache@[i as int].0@, cache@[i as int].1));
        }
        if hit {
            proof {
                lemma_kv_index_of_found(s0, key@, i as int);
            }
            return Some(cache[i].1);
        }
        i += 1;
    }
    proof {
        lemma_kv_index_of_absent(s0, key@);
    }
    None
}

/// Ordered-map insertion into the subject registry.
fn subjects_insert(v: &mut Vec<(Id, Subject)>, id: Id, s: Subject)
    requires
        kv_distinct_keys(old(v)@),
    ensures
        final(v)@ == kv_insert(old(v)@, id, s),
        kv_distinct_keys(final(v)@),
{
    let ghost s0 = v@;
    let n = v.len();
    let mut i: usize = 0;
    while i < n
        invariant
            v@ == s0,
            s0 == old(v)@,
            kv_distinct_keys(s0),
            n == s0.len(),
            i <= n,
            forall|j: int| 0 <= j < i ==> s0[j].0 != id,
        decreases n - i,
    {
        if v[i].0 == id {
            proof {
                lemma_kv_index_of_found(s0, id, i as int);
            }
            v.set(i, (id, s));
            return ;
        }
        i += 1;
    }
    proof {
        lemma_kv_index_of_absent(s0, id);
    }
    v.push((id, s));
}

/// Everything the registry, the caches and the device counter must show
/// after a node is inserted: the subject's buffers and their exact fresh
/// handles, the registry order, the texture binding cache, the layout
/// cache, the pipeline cache, and the untouched rest of the scene.  `g`,
/// `m` and `t` are what the node's references resolved to.
pub open spec fn insert_post(
    s0: Scene,
    s1: Scene,
    r0: Renderer,
    r1: Renderer,
    g: Option<Geometry>,
    m: Option<Material>,
    t: Option<Texture>,
    oid: Id,
    pos: Vec3,
    rot: Quat,
) -> bool {
    let h = r0.next_handle as int;
    let tex_created = m matches Some(mv) && mv.diffuse_map_texture_id is Some && t is Some
        && !kv_contains(s0.texture_map_views@, mv.diffuse_map_texture_id.unwrap());
    let h_frag = h + 4 + if tex_created {
        1int
    } else {
        0int
    };
    let h_pipe = h_frag + 1;
    &&& (kv_get(s1.subjects@, oid) matches Some(sub) && {
        &&& sub.vertices.handle == h
        &&& sub.vertices.words@ == geometry_vertex_words(g)
        &&& sub.vertex_count == geometry_vertex_count(g)
        &&& sub.indices.handle == h + 1
        &&& sub.indices.words@ == geometry_index_words(g)
        &&& sub.index_count == geometry_index_count(g)
        &&& sub.transform.handle == h + 2
        &&& sub.transform.words@ == transform_matrix_words(pos, rot)
        &&& sub.normal.handle == h + 3
        &&& sub.normal.words@ == normal_matrix_words(rot)
        &&& sub.diffuse_texture_id == (match m {
            Some(mv) => mv.diffuse_map_texture_id,
            None => None,
        })
        &&& (match m {
            None => sub.material_data is None && sub.pipeline is None,
            Some(mv) => {
                &&& sub.material_data matches Some(b) && b.handle == h_frag && b.words@
                    == mv.fragment_data@
                &&& (match kv_get(cache_view(s0.material_pipelines@), material_pipeline_key(mv)) {
                    Some(p) => {
                        &&& sub.pipeline == Some(p)
                        &&& cache_view(s1.material_pipelines@) == cache_view(
                            s0.material_pipelines@,
                        )
                        &&& r1.next_handle == h_pipe
                    },
                    None => {
                        &&& sub.pipeline == Some(h_pipe as u64)
                        &&& cache_view(s1.material_pipelines@) == kv_insert(
                            cache_view(s0.material_pipelines@),
                            material_pipeline_key(mv),
                            h_pipe as u64,
                        )
                        &&& r1.next_handle == h_pipe + 1
                    },
                })
            },
        })
    })
    &&& kv_keys(s1.subjects@) == (if kv_contains(s0.subjects@, oid) {
        kv_keys(s0.subjects@)
    } else {
        kv_keys(s0.subjects@).push(oid)
    })
    &&& (forall|k: Id| k != oid ==> kv_get(s1.subjects@, k) == kv_get(s0.subjects@, k))
    &&& (if tex_created {
        let tid = m.unwrap().diffuse_map_texture_id.unwrap();
        &&& (kv_get(s1.texture_map_views@, tid) matches Some(gt) && gt.handle == h + 4
            && gt.width == t.unwrap().dimensions.0 && gt.height == t.unwrap().dimensions.1
            && gt.bytes@ == t.unwrap().content@)
        &&& (forall|k: TextureId|
            k != tid ==> kv_get(s1.texture_map_views@, k) == kv_get(s0.texture_map_views@, k))
        &&& kv_keys(s1.texture_map_views@) == (if kv_contains(s0.texture_map_views@, tid) {
            kv_keys(s0.texture_map_views@)
        } else {
            kv_keys(s0.texture_map_views@).push(tid)
        })
    } else {
        s1.texture_map_views == s0.texture_map_views
    })
    &&& (match m {
        Some(mv) => s1.material_layouts@ == (if kv_contains(s0.material_layouts@, mv.id) {
            s0.material_layouts@
        } else {
            kv_insert(s0.material_layouts@, mv.id, mv.fragment_data_layout)
        }),
        None => s1.material_layouts == s0.material_layouts,
    })
    &&& (m is None ==> cache_view(s1.material_pipelines@) == cache_view(s0.material_pipelines@)
        && r1.next_handle == h + 4)
    &&& s1.pipelines_bounded(r1.next_handle)
    &&& s1.color == s0.color
    &&& s1.id == s0.id
    &&& s1.ambient_light == s0.ambient_light
    &&& s1.lights == s0.lights
    &&& s1.camera == s0.camera
    &&& s1.depth == s0.depth
    &&& s1.texture_sampler == s0.texture_sampler
    &&& r1.backend == r0.backend
    &&& r1.canvas == r0.canvas
    &&& r1.surface_capabilities == r0.surface_capabilities
    &&& r1.supported_format == r0.supported_format
    &&& r1.surface_config == r0.surface_config
}

impl Scene {
    /// Insert a node: resolve its geometry and material through the
    /// loaders (a missing geometry yields empty buffers, a missing
    /// material leaves the subject pipeline-less but registered), build
    /// its GPU-resident record, and register it under the node's id —
    /// first insertion defines the draw position, re-insertion replaces in
    /// place without reordering.
    pub fn insert<O: Resource + Object3D>(
        &mut self,
        renderer: &mut Renderer,
        geometry_loader: &GeometryLoader,
        material_loader: &MaterialLoader,
        texture_loader: &TextureLoader,
        object: &O,
    )
        requires
            old(self).wf(),
            old(self).pipelines_bounded(old(renderer).next_handle),
            old(renderer).can_allocate(7),
        ensures
            final(self).wf(),
            insert_post(
                *old(self),
                *final(self),
                *old(renderer),
                *final(renderer),
                resolve_geometry(*geometry_loader, object.spec_geometry_id()),
                resolve_material(*material_loader, object.spec_material_id()),
                resolve_texture(
                    *texture_loader,
                    resolve_material(*material_loader, object.spec_material_id()),
                ),
                object.spec_id(),
                object.spec_pos(),
                object.spec_rot(),
            ),
    {
        let ghost g_spec = resolve_geometry(*geometry_loader, object.spec_geometry_id());
        let ghost m_spec = resolve_material(*material_loader, object.spec_material_id());
        let ghost t_spec = resolve_texture(*texture_loader, m_spec);

        let geometry: Option<&Geometry> = match object.geometry_id() {
            Some(id) => geometry_loader.get_from_id(id),
            None => None,
        };
        let material: Option<&Material> = match object.material_id() {
            Some(id) => material_loader.get_from_id(id),
            None => None,
        };
        proof {
            match geometry {
                Some(gr) => assert(g_spec == Some(*gr)),
                None => assert(g_spec is None),
            }
            match material {
                Some(mr) => assert(m_spec == Some(*mr)),
                None => assert(m_spec is None),
            }
        }

        let (vertex_words, vertex_count): (Vec<u32>, usize) = match geometry {
            Some(gr) => (pack_vertices(gr.vertices()), gr.vertices().len()),
            None => (Vec::new(), 0),
        };
        let (index_words, index_count): (Vec<u32>, usize) = match geometry {
            Some(gr) => (copy_words(gr.indices()), gr.indices().len()),
            None => (Vec::new(), 0),
        };
        let vertices = renderer.create_buffer(vertex_words);
        let indices = renderer.create_buffer(index_words);
        let transform = renderer.create_buffer(build_transform_words(*object.pos(), *object.rot()));
        let normal = renderer.create_buffer(build_normal_words(*object.rot()));

        let diffuse_texture_id: Option<TextureId> = match material {
            Some(mr) => *mr.diffuse_map_texture_id(),
            None => None,
        };
        if let Some(tid) = diffuse_texture_id {
            if let Some(texture) = texture_loader.get_from_id(tid) {
                proof {
                    assert(t_spec == Some(*texture));
                }
                if texture_binding(&self.texture_map_views, tid).is_none() {
                    let (width, height) = texture.dimensions();
                    let bytes = copy_bytes(texture.content());
                    let gpu_texture = renderer.create_texture(width, height, bytes);
                    proof {
                        lemma_kv_insert(self.texture_map_views@, tid, gpu_texture);
                    }
                    texture_views_insert(&mut self.texture_map_views, tid, gpu_texture);
                }
            }
        }

        let (material_data, pipeline): (Option<GpuBuffer>, Option<u64>) = match material {
            Some(mr) => {
                layouts_insert(&mut self.material_layouts, *mr.id(), mr.fragment_data_layout);
                let fragment_data = renderer.create_buffer(copy_words(&mr.fragment_data));
                let key = PipelineKey {
                    vertex_shader: mr.vertex_shader.duplicate(),
                    fragment_shader: mr.fragment_shader.duplicate(),
                    layout: mr.fragment_data_layout,
                    has_texture: mr.diffuse_map_texture_id().is_some(),
                };
                proof {
                    assert(key@ =~= material_pipeline_key(*mr));
                }
                let p: u64 = match cache_lookup(&self.material_pipelines, &key) {
                    Some(p) => p,
                    None => {
                        let ghost c0 = cache_view(self.material_pipelines@);
                        let p = renderer.allocate_handle();
                        self.material_pipelines.push((key, p));
                        proof {
                            assert(cache_view(self.material_pipelines@) =~= c0.push(
                                (material_pipeline_key(*mr), p),
                            ));
                            lemma_kv_index_of(c0, material_pipeline_key(*mr));
                            lemma_kv_insert(c0, material_pipeline_key(*mr), p);
                            assert forall|a: int, b: int|
                                0 <= a < b < cache_view(self.material_pipelines@).len() implies
                                cache_view(self.material_pipelines@)[a].0 != cache_view(
                                self.material_pipelines@,
                            )[b].0 by {
                                if b < c0.len() {
                                } else {
                                    assert(cache_view(self.material_pipelines@)[a].0 == c0[a].0);
                                }
                            }
                            assert forall|a: int, b: int|
                                0 <= a < b < cache_view(self.material_pipelines@).len() implies
                                cache_view(self.material_pipelines@)[a].1 != cache_view(
                                self.material_pipelines@,
                            )[b].1 by {
                                if b < c0.len() {
                                } else {
                                    assert(cache_view(self.material_pipelines@)[a].1 == c0[a].1);
                                    assert(c0[a].1 < p);
                                }
                            }
                        }
                        p
                    },
                };
                (Some(fragment_data), Some(p))
            },
            None => (None, None),
        };

        let subject = Subject {
            diffuse_texture_id,
            material_data,
            transform,
            normal,
            vertices,
            vertex_count,
            indices,
            index_count,
            pipeline,
        };
        proof {
            lemma_kv_insert(self.subjects@, object.spec_id(), subject);
        }
        let id = object.id();
        subjects_insert(&mut self.subjects, id, subject);
    }
}



/// Index of a node's subject in the registry, if it has one.
fn find_subject_index(v: &Vec<(Id, Subject)>, id: Id) -> (r: Option<usize>)
    ensures
        match r {
            Some(i) => i < v@.len() && v@[i as int].0 == id && kv_index_of(v@, id) == i,
            None => kv_index_of(v@, id) == -1,
        },
{
    let ghost s0 = v@;
    let n = v.len();
    let mut i: usize = 0;
    while i < n
        invariant
            v@ == s0,
            n == s0.len(),
            i <= n,
            forall|j: int| 0 <= j < i ==> s0[j].0 != id,
        decreases n - i,
    {
        if v[i].0 == id {
            proof {
                lemma_kv_index_of_found(s0, id, i as int);
            }
            return Some(i);
        }
        i += 1;
    }
    proof {
        lemma_kv_index_of_absent(s0, id);
    }
    None
}

/// A placeholder subject used to swap a live subject out of the registry
/// while it is edited in place.
fn blank_subject() -> Subject {
    Subject {
        diffuse_texture_id: None,
        material_data: None,
        transform: GpuBuffer { handle: 0, words: Vec::new() },
        normal: GpuBuffer { handle: 0, words: Vec::new() },
        vertices: GpuBuffer { handle: 0, words: Vec::new() },
        vertex_count: 0,
        indices: GpuBuffer { handle: 0, words: Vec::new() },
        index_count: 0,
        pipeline: None,
    }
}

/// The contents of `v` with `data` written at offset 0: words past
/// `data.len()` keep their value.
fn splice_words(v: &Vec<u32>, data: &[u32]) -> (r: Vec<u32>)
    requires
        data@.len() <= v@.len(),
    ensures
        r@ == splice(v@, 0, data@),
{
    let n = data.len();
    let m = v.len();
    let mut r: Vec<u32> = Vec::new();
    let mut k: usize = 0;
    while k < n
        invariant
            k <= n,
            n == data@.len(),
            n <= m,
            m == v@.len(),
            r@.len() == k,
            forall|j: int| 0 <= j < k ==> r@[j] == data@[j],
        decreases n - k,
    {
        r.push(data[k]);
        k += 1;
    }
    while k < m
        invariant
            n <= k <= m,
            n == data@.len(),
            m == v@.len(),
            r@.len() == k,
            forall|j: int| 0 <= j < n ==> r@[j] == data@[j],
            forall|j: int| n <= j < k ==> r@[j] == v@[j],
        decreases m - k,
    {
        r.push(v[k]);
        k += 1;
    }
    proof {
        assert(r@ =~= splice(v@, 0, data@));
    }
    r
}

/// What the registry and the device counter must show after a node's
/// geometry is swapped in place: fresh vertex and index buffers under the
/// subject, everything else about the subject and the registry untouched —
/// in particular its position in draw order.
pub open spec fn update_geometry_post(
    s0: Scene,
    s1: Scene,
    r0: Renderer,
    r1: Renderer,
    g: Geometry,
    oid: Id,
) -> bool {
    let h = r0.next_handle as int;
    &&& (if kv_contains(s0.subjects@, oid) {
        &&& (kv_get(s1.subjects@, oid) matches Some(sub) && {
            let old_sub = kv_get(s0.subjects@, oid).unwrap();
            &&& sub.vertices.handle == h
            &&& sub.vertices.words@ == vertex_buffer_words(g.vertices@)
            &&& sub.vertex_count == g.vertices@.len()
            &&& sub.indices.handle == h + 1
            &&& sub.indices.words@ == g.indices@
            &&& sub.index_count == g.indices@.len()
            &&& sub.transform == old_sub.transform
            &&& sub.normal == old_sub.normal
            &&& sub.material_data == old_sub.material_data
            &&& sub.diffuse_texture_id == old_sub.diffuse_texture_id
            &&& sub.pipeline == old_sub.pipeline
        })
        &&& (forall|k: Id| k != oid ==> kv_get(s1.subjects@, k) == kv_get(s0.subjects@, k))
        &&& kv_keys(s1.subjects@) == kv_keys(s0.subjects@)
    } else {
        s1.subjects == s0.subjects
    })
    &&& scene_unchanged_except_subjects(s0, s1)
    &&& s1.color == s0.color
    &&& r1.next_handle == h + 2
    &&& r1.backend == r0.backend
    &&& r1.canvas == r0.canvas
    &&& r1.surface_capabilities == r0.surface_capabilities
    &&& r1.supported_format == r0.supported_format
    &&& r1.surface_config == r0.surface_config
}

/// What the registry, the caches and the device counter must show after a
/// node's material is swapped in place: a fresh uniform buffer, the
/// resolved texture binding, a cached-or-compiled pipeline — and the
/// subject's geometry buffers, and its position in draw order, untouched.
pub open spec fn update_material_post(
    s0: Scene,
    s1: Scene,
    r0: Renderer,
    r1: Renderer,
    m: Material,
    t: Option<Texture>,
    oid: Id,
) -> bool {
    let h = r0.next_handle as int;
    let tex_created = m.diffuse_map_texture_id is Some && t is Some && !kv_contains(
        s0.texture_map_views@,
        m.diffuse_map_texture_id.unwrap(),
    );
    let h_frag = h + if tex_created {
        1int
    } else {
        0int
    };
    let h_pipe = h_frag + 1;
    &&& (kv_get(s1.subjects@, oid) matches Some(sub) && {
        let old_sub = kv_get(s0.subjects@, oid).unwrap();
        &&& sub.material_data matches Some(b) && b.handle == h_frag && b.words@
            == m.fragment_data@
        &&& sub.diffuse_texture_id == m.diffuse_map_texture_id
        &&& sub.transform == old_sub.transform
        &&& sub.normal == old_sub.normal
        &&& sub.vertices == old_sub.vertices
        &&& sub.vertex_count == old_sub.vertex_count
        &&& sub.indices == old_sub.indices
        &&& sub.index_count == old_sub.index_count
        &&& (match kv_get(cache_view(s0.material_pipelines@), material_pipeline_key(m)) {
            Some(p) => {
                &&& sub.pipeline == Some(p)
                &&& cache_view(s1.material_pipelines@) == cache_view(s0.material_pipelines@)
                &&& r1.next_handle == h_pipe
            },
            None => {
                &&& sub.pipeline == Some(h_pipe as u64)
                &&& cache_view(s1.material_pipelines@) == kv_insert(
                    cache_view(s0.material_pipelines@),
                    material_pipeline_key(m),
                    h_pipe as u64,
                )
                &&& r1.next_handle == h_pipe + 1
            },
        })
    })
    &&& (forall|k: Id| k != oid ==> kv_get(s1.subjects@, k) == kv_get(s0.subjects@, k))
    &&& kv_keys(s1.subjects@) == kv_keys(s0.subjects@)
    &&& (if tex_created {
        let tid = m.diffuse_map_texture_id.unwrap();
        &&& (kv_get(s1.texture_map_views@, tid) matches Some(gt) && gt.handle == h && gt.width
            == t.unwrap().dimensions.0 && gt.height == t.unwrap().dimensions.1 && gt.bytes@
            == t.unwrap().content@)
        &&& (forall|k: TextureId|
            k != tid ==> kv_get(s1.texture_map_views@, k) == kv_get(s0.texture_map_views@, k))
        &&& kv_keys(s1.texture_map_views@) == (if kv_contains(s0.texture_map_views@, tid) {
            kv_keys(s0.texture_map_views@)
        } else {
            kv_keys(s0.texture_map_views@).push(tid)
        })
    } else {
        s1.texture_map_views == s0.texture_map_views
    })
    &&& s1.material_layouts@ == (if kv_contains(s0.material_layouts@, m.id) {
        s0.material_layouts@
    } else {
        kv_insert(s0.material_layouts@, m.id, m.fragment_data_layout)
    })
    &&& s1.pipelines_bounded(r1.next_handle)
    &&& s1.color == s0.color
    &&& s1.id == s0.id
    &&& s1.ambient_light == s0.ambient_light
    &&& s1.lights == s0.lights
    &&& s1.camera == s0.camera
    &&& s1.depth == s0.depth
    &&& s1.texture_sampler == s0.texture_sampler
    &&& r1.backend == r0.backend
    &&& r1.canvas == r0.canvas
    &&& r1.surface_capabilities == r0.surface_capabilities
    &&& r1.supported_format == r0.supported_format
    &&& r1.surface_config == r0.surface_config
}

impl Scene {
    /// Re-resolve a geometry id and swap fresh vertex/index buffers into
    /// the node's existing subject in place, preserving draw order and all
    /// other bindings.  A miss in the loader leaves scene and device
    /// untouched.  The node's logical geometry id advances either way.
    pub fn update_geometry<O: Resource + Object3D>(
        &mut self,
        renderer: &mut Renderer,
        resource: &mut O,
        loader: &GeometryLoader,
        geometry_id: Id,
    )
        requires
            old(self).wf(),
            old(renderer).can_allocate(2),
        ensures
            final(self).wf(),
            final(resource).spec_geometry_id() == Some(geometry_id),
            final(resource).spec_material_id() == old(resource).spec_material_id(),
            final(resource).spec_id() == old(resource).spec_id(),
            final(resource).spec_pos() == old(resource).spec_pos(),
            final(resource).spec_rot() == old(resource).spec_rot(),
            final(resource).spec_scale() == old(resource).spec_scale(),
            match kv_get(loader.entries@, geometry_id) {
                None => *final(self) == *old(self) && *final(renderer) == *old(renderer),
                Some(g) => update_geometry_post(
                    *old(self),
                    *final(self),
                    *old(renderer),
                    *final(renderer),
                    g,
                    old(resource).spec_id(),
                ),
            },
    {
        let geometry = match loader.get_from_id(geometry_id) {
            Some(g) => g,
            None => {
                resource.set_geometry_id(geometry_id);
                return ;
            },
        };
        let vertices = renderer.create_buffer(pack_vertices(geometry.vertices()));
        let vertex_count = geometry.vertices().len();
        let indices = renderer.create_buffer(copy_words(geometry.indices()));
        let index_count = geometry.indices().len();

        let id = resource.id();
        let ghost s0 = self.subjects@;
        let i = match find_subject_index(&self.subjects, id) {
            Some(i) => i,
            None => {
                resource.set_geometry_id(geometry_id);
                return ;
            },
        };
        let mut entry = (id, blank_subject());
        self.subjects.set_and_swap(i, &mut entry);
        entry.1.vertices = vertices;
        entry.1.vertex_count = vertex_count;
        entry.1.indices = indices;
        entry.1.index_count = index_count;
        proof {
            lemma_kv_insert(s0, id, entry.1);
        }
        self.subjects.set_and_swap(i, &mut entry);
        proof {
            assert(self.subjects@ =~= kv_insert(s0, id, self.subjects@[i as int].1));
        }
        resource.set_geometry_id(geometry_id);
    }

    /// Re-resolve a material id and swap its uniform buffer, texture
    /// binding (created once per texture id) and pipeline into the node's
    /// existing subject in place,
    /// preserving draw order and the geometry buffers.  A miss — of the
    /// material or of the subject — leaves scene and device untouched.
    /// The node's logical material id advances either way.
    pub fn update_material<O: Resource + Object3D>(
        &mut self,
        renderer: &mut Renderer,
        resource: &mut O,
        texture_loader: &TextureLoader,
        material_loader: &MaterialLoader,
        material_id: Id,
    )
        requires
            old(self).wf(),
            old(self).pipelines_bounded(old(renderer).next_handle),
            old(renderer).can_allocate(3),
        ensures
            final(self).wf(),
            final(resource).spec_material_id() == Some(material_id),
            final(resource).spec_geometry_id() == old(resource).spec_geometry_id(),
            final(resource).spec_id() == old(resource).spec_id(),
            final(resource).spec_pos() == old(resource).spec_pos(),
            final(resource).spec_rot() == old(resource).spec_rot(),
            final(resource).spec_scale() == old(resource).spec_scale(),
            match kv_get(material_loader.entries@, material_id) {
                None => *final(self) == *old(self) && *final(renderer) == *old(renderer),
                Some(m) => {
                    if kv_contains(old(self).subjects@, old(resource).spec_id()) {
                        update_material_post(
                            *old(self),
                            *final(self),
                            *old(renderer),
                            *final(renderer),
                            m,
                            resolve_texture(*texture_loader, Some(m)),
                            old(resource).spec_id(),
                        )
                    } else {
                        *final(self) == *old(self) && *final(renderer) == *old(renderer)
                    }
                },
            },
    {
        let material = match material_loader.get_from_id(material_id) {
            Some(m) => m,
            None => {
                resource.set_material_id(material_id);
                return ;
            },
        };

        let id = resource.id();
        let ghost s0 = self.subjects@;
        let i = match find_subject_index(&self.subjects, id) {
            Some(i) => i,
            None => {
                resource.set_material_id(material_id);
                return ;
            },
        };

        let diffuse_texture_id: Option<TextureId> = *material.diffuse_map_texture_id();
        if let Some(tid) = diffuse_texture_id {
            if let Some(texture) = texture_loader.get_from_id(tid) {
                if texture_binding(&self.texture_map_views, tid).is_none() {
                    let (width, height) = texture.dimensions();
                    let bytes = copy_bytes(texture.content());
                    let gpu_texture = renderer.create_texture(width, height, bytes);
                    proof {
                        lemma_kv_insert(self.texture_map_views@, tid, gpu_texture);
                    }
                    texture_views_insert(&mut self.texture_map_views, tid, gpu_texture);
                }
            }
        }

        layouts_insert(&mut self.material_layouts, *material.id(), material.fragment_data_layout);
        let fragment_data = renderer.create_buffer(copy_words(&material.fragment_data));
        let key = PipelineKey {
            vertex_shader: material.vertex_shader.duplicate(),
            fragment_shader: material.fragment_shader.duplicate(),
            layout: material.fragment_data_layout,
            has_texture: material.diffuse_map_texture_id().is_some(),
        };
        proof {
            assert(key@ =~= material_pipeline_key(*material));
        }
        let pipeline: u64 = match cache_lookup(&self.material_pipelines, &key) {
            Some(p) => p,
            None => {
                let ghost c0 = cache_view(self.material_pipelines@);
                let p = renderer.allocate_handle();
                self.material_pipelines.push((key, p));
                proof {
                    assert(cache_view(self.material_pipelines@) =~= c0.push(
                        (material_pipeline_key(*material), p),
                    ));
                    lemma_kv_index_of(c0, material_pipeline_key(*material));
                    lemma_kv_insert(c0, material_pipeline_key(*material), p);
                    assert forall|a: int, b: int|
                        0 <= a < b < cache_view(self.material_pipelines@).len() implies cache_view(
                        self.material_pipelines@,
                    )[a].0 != cache_view(self.material_pipelines@)[b].0 by {
                        if b < c0.len() {
                        } else {
                            assert(cache_view(self.material_pipelines@)[a].0 == c0[a].0);
                        }
                    }
                    assert forall|a: int, b: int|
                        0 <= a < b < cache_view(self.material_pipelines@).len() implies cache_view(
                        self.material_pipelines@,
                    )[a].1 != cache_view(self.material_pipelines@)[b].1 by {
                        if b < c0.len() {
                        } else {
                            assert(cache_view(self.material_pipelines@)[a].1 == c0[a].1);
                            assert(c0[a].1 < p);
                        }
                    }
                }
                p
            },
        };

        let mut entry = (id, blank_subject());
        self.subjects.set_and_swap(i, &mut entry);
        entry.1.pipeline = Some(pipeline);
        entry.1.diffuse_texture_id = diffuse_texture_id;
        entry.1.material_data = Some(fragment_data);
        proof {
            lemma_kv_insert(s0, id, entry.1);
        }
        self.subjects.set_and_swap(i, &mut entry);
        proof {
            assert(self.subjects@ =~= kv_insert(s0, id, self.subjects@[i as int].1));
        }
        resource.set_material_id(material_id);
    }

    /// Write new packed uniform data into a subject's already-allocated
    /// material buffer, in place.  A node without a subject, or a subject
    /// without material data, is a no-op.
    pub fn update_material_data<O: Resource + Object3D>(
        &mut self,
        renderer: &Renderer,
        resource: &O,
        data: &[u32],
    )
        requires
            old(self).wf(),
            ({
                let oid = resource.spec_id();
                (kv_get(old(self).subjects@, oid) matches Some(old_sub)
                    && old_sub.material_data is Some) ==> data@.len() <= kv_get(
                    old(self).subjects@,
                    oid,
                ).unwrap().material_data.unwrap().words@.len()
            }),
        ensures
            final(self).wf(),
            ({
                let oid = resource.spec_id();
                if kv_get(old(self).subjects@, oid) matches Some(old_sub)
                    && old_sub.material_data is Some {
                    &&& (kv_get(final(self).subjects@, oid) matches Some(sub) && {
                        let old_sub = kv_get(old(self).subjects@, oid).unwrap();
                        &&& sub.material_data matches Some(b) && b.handle
                            == old_sub.material_data.unwrap().handle && b.words@ == splice(
                            old_sub.material_data.unwrap().words@,
                            0,
                            data@,
                        )
                        &&& sub.diffuse_texture_id == old_sub.diffuse_texture_id
                        &&& sub.transform == old_sub.transform
                        &&& sub.normal == old_sub.normal
                        &&& sub.vertices == old_sub.vertices
                        &&& sub.vertex_count == old_sub.vertex_count
                        &&& sub.indices == old_sub.indices
                        &&& sub.index_count == old_sub.index_count
                        &&& sub.pipeline == old_sub.pipeline
                    })
                    &&& (forall|k: Id|
                        k != oid ==> kv_get(final(self).subjects@, k) == kv_get(
                            old(self).subjects@,
                            k,
                        ))
                    &&& kv_keys(final(self).subjects@) == kv_keys(old(self).subjects@)
                    &&& scene_unchanged_except_subjects(*old(self), *final(self))
                    &&& final(self).color == old(self).color
                } else {
                    *final(self) == *old(self)
                }
            }),
    {
        let id = resource.id();
        let ghost s0 = self.subjects@;
        let i = match find_subject_index(&self.subjects, id) {
            Some(i) => i,
            None => {
                return ;
            },
        };
        let spliced = match &self.subjects[i].1.material_data {
            Some(buffer) => splice_words(&buffer.words, data),
            None => {
                return ;
            },
        };
        let mut entry = (id, blank_subject());
        self.subjects.set_and_swap(i, &mut entry);
        match &mut entry.1.material_data {
            Some(buffer) => {
                buffer.words = spliced;
            },
            None => {},
        }
        proof {
            lemma_kv_insert(s0, id, entry.1);
        }
        self.subjects.set_and_swap(i, &mut entry);
        proof {
            assert(self.subjects@ =~= kv_insert(s0, id, self.subjects@[i as int].1));
        }
    }

    /// Detach a node's material: its subject keeps its place and its
    /// geometry buffers but loses its uniform data and pipeline, so the
    /// renderer skips it at draw time.
    pub fn remove_material<O: Resource + Object3D>(&mut self, resource: &O)
        requires
            old(self).wf(),
        ensures
            final(self).wf(),
            ({
                let oid = resource.spec_id();
                if kv_contains(old(self).subjects@, oid) {
                    &&& (kv_get(final(self).subjects@, oid) matches Some(sub) && {
                        let old_sub = kv_get(old(self).subjects@, oid).unwrap();
                        &&& sub.material_data is None
                        &&& sub.pipeline is None
                        &&& sub.diffuse_texture_id == old_sub.diffuse_texture_id
                        &&& sub.transform == old_sub.transform
                        &&& sub.normal == old_sub.normal
                        &&& sub.vertices == old_sub.vertices
                        &&& sub.vertex_count == old_sub.vertex_count
                        &&& sub.indices == old_sub.indices
                        &&& sub.index_count == old_sub.index_count
                    })
                    &&& (forall|k: Id|
                        k != oid ==> kv_get(final(self).subjects@, k) == kv_get(
                            old(self).subjects@,
                            k,
                        ))
                    &&& kv_keys(final(self).subjects@) == kv_keys(old(self).subjects@)
                    &&& scene_unchanged_except_subjects(*old(self), *final(self))
                    &&& final(self).color == old(self).color
                } else {
                    *final(self) == *old(self)
                }
            }),
    {
        let id = resource.id();
        let ghost s0 = self.subjects@;
        let i = match find_subject_index(&self.subjects, id) {
            Some(i) => i,
            None => {
                return ;
            },
        };
        let mut entry = (id, blank_subject());
        self.subjects.set_and_swap(i, &mut entry);
        entry.1.material_data = None;
        entry.1.pipeline = None;
        proof {
            lemma_kv_insert(s0, id, entry.1);
        }
        self.subjects.set_and_swap(i, &mut entry);
        proof {
            assert(self.subjects@ =~= kv_insert(s0, id, self.subjects@[i as int].1));
        }
    }
}

/// The texture binding a subject's diffuse map resolves to at draw time.
fn texture_binding(v: &Vec<(TextureId, GpuTexture)>, tid: TextureId) -> (r: Option<u64>)
    ensures
        r == (match kv_get(v@, tid) {
            Some(t) => Some(t.handle),
            None => None::<u64>,
        }),
{
    let ghost s0 = v@;
    let n = v.len();
    let mut i: usize = 0;
    while i < n
        invariant
            v@ == s0,
            n == s0.len(),
            i <= n,
            forall|j: int| 0 <= j < i ==> s0[j].0 != tid,
        decreases n - i,
    {
        if v[i].0 == tid {
            proof {
                lemma_kv_index_of_found(s0, tid, i as int);
            }
            return Some(v[i].1.handle);
        }
        i += 1;
    }
    proof {
        lemma_kv_index_of_absent(s0, tid);
    }
    None
}

/// The draw call of one drawable subject, with every slot of the fixed
/// binding contract.
pub open spec fn draw_of(s: Scene, sub: Subject) -> DrawCall {
    DrawCall {
        pipeline: sub.pipeline.unwrap(),
        camera: s.camera.handle,
        transform: sub.transform.handle,
        material_data: match sub.material_data {
            Some(b) => Some(b.handle),
            None => None,
        },
        normal: sub.normal.handle,
        ambient: s.ambient_light.handle,
        lights: s.lights.bind_group,
        diffuse_texture: match sub.diffuse_texture_id {
            Some(tid) => match kv_get(s.texture_map_views@, tid) {
                Some(t) => Some(t.handle),
                None => None,
            },
            None => None,
        },
        vertex_buffer: sub.vertices.handle,
        index_buffer: sub.indices.handle,
        index_count: sub.index_count,
    }
}

/// Whether a subject is drawable: it has a compiled pipeline.
pub open spec fn drawable(p: (Id, Subject)) -> bool {
    p.1.pipeline is Some
}

/// The draw calls of the first `k` registry entries, in registry order,
/// drawable subjects only.
pub open spec fn frame_draws_prefix(s: Scene, k: int) -> Seq<DrawCall> {
    s.subjects@.take(k).filter(|p: (Id, Subject)| drawable(p)).map_values(
        |p: (Id, Subject)| draw_of(s, p.1),
    )
}

/// The draw calls of one frame: one per drawable subject, in registry
/// order.
pub open spec fn frame_draws(s: Scene) -> Seq<DrawCall> {
    frame_draws_prefix(s, s.subjects@.len() as int)
}

impl Scene {
    /// Assemble one frame: when the surface has a presentable texture, a
    /// render pass clearing to the background color and one indexed draw
    /// per drawable subject, in registry order, each with the fixed
    /// binding-slot layout; when the surface is unavailable, nothing — the
    /// frame is skipped silently.
    pub fn render(&self, surface_available: bool) -> (r: Option<Frame>)
        ensures
            match r {
                Some(f) => {
                    &&& surface_available
                    &&& f.clear_color == self.color
                    &&& f.depth_texture == self.depth.handle
                    &&& f.depth_clear == F32_ONE_BITS
                    &&& f.draws@ == frame_draws(*self)
                },
                None => !surface_available,
            },
    {
        if !surface_available {
            return None;
        }
        let mut draws: Vec<DrawCall> = Vec::new();
        let n = self.subjects.len();
        let mut i: usize = 0;
        while i < n
            invariant
                i <= n,
                n == self.subjects@.len(),
                draws@ == frame_draws_prefix(*self, i as int),
            decreases n - i,
        {
            let ghost prefix = self.subjects@.take(i as int);
            let ghost here = self.subjects@[i as int];
            proof {
                reveal(Seq::filter);
                assert(self.subjects@.take(i as int + 1).drop_last() =~= prefix);
                assert(self.subjects@.take(i as int + 1).last() == here);
            }
            let sub = &self.subjects[i].1;
            match sub.pipeline {
                Some(pipeline) => {
                    let material_data: Option<u64> = match &sub.material_data {
                        Some(b) => Some(b.handle),
                        None => None,
                    };
                    let diffuse_texture: Option<u64> = match sub.diffuse_texture_id {
                        Some(tid) => texture_binding(&self.texture_map_views, tid),
                        None => None,
                    };
                    let call = DrawCall {
                        pipeline,
                        camera: self.camera.handle,
                        transform: sub.transform.handle,
                        material_data,
                        normal: sub.normal.handle,
                        ambient: self.ambient_light.handle,
                        lights: self.lights.bind_group,
                        diffuse_texture,
                        vertex_buffer: sub.vertices.handle,
                        index_buffer: sub.indices.handle,
                        index_count: sub.index_count,
                    };
                    proof {
                        assert(call == draw_of(*self, here.1));
                    }
                    draws.push(call);
                    proof {
                        assert(self.subjects@.take(i as int + 1).filter(
                            |p: (Id, Subject)| drawable(p),
                        ) =~= prefix.filter(|p: (Id, Subject)| drawable(p)).push(here));
                        assert(draws@ =~= frame_draws_prefix(*self, i as int + 1));
                    }
                },
                None => {
                    proof {
                        assert(self.subjects@.take(i as int + 1).filter(
                            |p: (Id, Subject)| drawable(p),
                        ) =~= prefix.filter(|p: (Id, Subject)| drawable(p)));
                        assert(draws@ =~= frame_draws_prefix(*self, i as int + 1));
                    }
                },
            }
            i += 1;
        }
        proof {
            assert(self.subjects@.take(n as int) =~= self.subjects@);
        }
        Some(
            Frame {
                clear_color: self.color,
                depth_texture: self.depth.handle,
                depth_clear: F32_ONE_BITS,
                draws,
            },
        )
    }
}



/// The handle of the buffer backing a node's transform binding, if the
/// node has a subject.
pub open spec fn transform_handle_of(s: Scene, oid: Id) -> Option<u64> {
    match kv_get(s.subjects@, oid) {
        Some(sub) => Some(sub.transform.handle),
        None => None,
    }
}

/// The handle of the buffer backing a node's normal-matrix binding, if
/// the node has a subject.
pub open spec fn normal_handle_of(s: Scene, oid: Id) -> Option<u64> {
    match kv_get(s.subjects@, oid) {
        Some(sub) => Some(sub.normal.handle),
        None => None,
    }
}

/// What the registry must show after a node's transform state changes:
/// new words written into the node's already-allocated transform and
/// normal-matrix buffers — the buffers themselves, everything else about
/// the subject, and the whole rest of the scene stay untouched.  A node
/// without a subject leaves the scene exactly as it was.
pub open spec fn transform_update_post(
    s0: Scene,
    s1: Scene,
    oid: Id,
    transform_words: Seq<u32>,
    normal_words: Seq<u32>,
) -> bool {
    if kv_contains(s0.subjects@, oid) {
        &&& (kv_get(s1.subjects@, oid) matches Some(sub) && {
            let old_sub = kv_get(s0.subjects@, oid).unwrap();
            &&& sub.transform.handle == old_sub.transform.handle
            &&& sub.transform.words@ == transform_words
            &&& sub.normal.handle == old_sub.normal.handle
            &&& sub.normal.words@ == normal_words
            &&& sub.material_data == old_sub.material_data
            &&& sub.diffuse_texture_id == old_sub.diffuse_texture_id
            &&& sub.vertices == old_sub.vertices
            &&& sub.vertex_count == old_sub.vertex_count
            &&& sub.indices == old_sub.indices
            &&& sub.index_count == old_sub.index_count
            &&& sub.pipeline == old_sub.pipeline
        })
        &&& (forall|k: Id| k != oid ==> kv_get(s1.subjects@, k) == kv_get(s0.subjects@, k))
        &&& kv_keys(s1.subjects@) == kv_keys(s0.subjects@)
        &&& scene_unchanged_except_subjects(s0, s1)
        &&& s1.color == s0.color
    } else {
        s1 == s0
    }
}

impl Scene {
    /// Write new transform and normal-matrix words into a node's
    /// already-allocated buffers, in place — the buffer identities are
    /// stable for the subject's whole lifetime.  A node without a subject
    /// is a no-op.
    pub(crate) fn write_transform(
        &mut self,
        oid: Id,
        transform_words: Vec<u32>,
        normal_words: Vec<u32>,
    )
        requires
            old(self).wf(),
        ensures
            final(self).wf(),
            transform_update_post(*old(self), *final(self), oid, transform_words@, normal_words@),
    {
        let ghost s0 = self.subjects@;
        let i = match find_subject_index(&self.subjects, oid) {
            Some(i) => i,
            None => {
                return ;
            },
        };
        let mut entry = (oid, blank_subject());
        self.subjects.set_and_swap(i, &mut entry);
        entry.1.transform.words = transform_words;
        entry.1.normal.words = normal_words;
        proof {
            lemma_kv_insert(s0, oid, entry.1);
        }
        self.subjects.set_and_swap(i, &mut entry);
        proof {
            assert(self.subjects@ =~= kv_insert(s0, oid, self.subjects@[i as int].1));
        }
    }
}



impl Scene {
    /// Rebuild the camera uniform from a camera node: its view-projection
    /// matrix, then its world position padded to a full 16-byte vector.
    pub fn set_camera<C: crate::camera::Camera>(
        &mut self,
        renderer: &mut Renderer,
        camera: &C,
    )
        requires
            old(self).wf(),
            old(renderer).can_allocate(1),
        ensures
            final(self).wf(),
            final(self).camera.handle == old(renderer).next_handle,
            final(self).camera.words@.len() == 20,
            final(self).camera.words@.subrange(16, 19) == camera.spec_pos().words(),
            final(self).camera.words@[19] == 0u32,
            scene_unchanged_except_camera(*old(self), *final(self)),
            final(renderer).next_handle == old(renderer).next_handle + 1,
            final(renderer).backend == old(renderer).backend,
            final(renderer).canvas == old(renderer).canvas,
            final(renderer).surface_capabilities == old(renderer).surface_capabilities,
            final(renderer).supported_format == old(renderer).supported_format,
            final(renderer).surface_config == old(renderer).surface_config,
    {
        let matrix = camera.to_matrix();
        let pos = *camera.pos();
        self.set_camera_matrix(renderer, &matrix, pos);
        proof {
            assert(self.camera.words@.subrange(16, 19) =~= pos.words());
        }
    }

    /// Write a camera node's view-projection matrix into the
    /// already-allocated camera buffer, in place; the position words are
    /// left as they were and nothing is reallocated.
    pub fn update_camera<C: crate::camera::Camera>(&mut self, renderer: &Renderer, camera: &C)
        requires
            old(self).wf(),
        ensures
            final(self).wf(),
            final(self).camera.handle == old(self).camera.handle,
            final(self).camera.words@.len() == 20,
            final(self).camera.words@.subrange(16, 20) == old(self).camera.words@.subrange(16, 20),
            scene_unchanged_except_camera(*old(self), *final(self)),
    {
        let matrix = camera.to_matrix();
        self.update_camera_matrix(renderer, &matrix);
        proof {
            assert(self.camera.words@.subrange(16, 20) =~= old(self).camera.words@.subrange(
                16,
                20,
            ));
        }
    }
}


} // verus!
