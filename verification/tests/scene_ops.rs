use sand_castle_core::geometry::{Geometry, Vertex};
use sand_castle_core::loader::{GeometryLoader, MaterialLoader, TextureLoader};
use sand_castle_core::material::{BasicMaterial, PhongMaterial, ToMaterial};
use sand_castle_core::object3d::{Mesh, Object3D, SceneTransform, Transform};
use sand_castle_core::renderer::{
    Backend, Canvas, Renderer, RendererBuildError, SurfaceCapabilities, SurfaceFormat,
    SurfaceHandshake,
};
use sand_castle_core::resource::Resource;
use sand_castle_core::scene::Scene;
use sand_castle_core::units::{Quat, Vec2, Vec3, Vec4};

fn handshake() -> SurfaceHandshake {
    SurfaceHandshake {
        surface_created: true,
        adapter_found: true,
        device_granted: true,
        capabilities: SurfaceCapabilities {
            formats: vec![
                SurfaceFormat { code: 7, srgb: false },
                SurfaceFormat { code: 8, srgb: true },
            ],
            present_modes: vec![0],
            alpha_modes: vec![0],
        },
    }
}

fn renderer() -> Renderer {
    Renderer::builder()
        .backend(Backend::WebGPU)
        .canvas(Canvas { width: 640, height: 480 })
        .build(handshake())
        .expect("build must succeed")
}

fn vertex(x: f32, y: f32, z: f32) -> Vertex {
    Vertex::new(
        Vec3::new(x.to_bits(), y.to_bits(), z.to_bits()),
        Vec3::new(0, 0, 1.0f32.to_bits()),
        Vec2::new(0, 0),
    )
}

fn triangle() -> Geometry {
    Geometry::new(
        vec![vertex(0.0, 0.0, 0.0), vertex(1.0, 0.0, 0.0), vertex(0.0, 1.0, 0.0)],
        vec![0, 1, 2],
    )
}

#[test]
fn renderer_build_prefers_srgb_format_and_configures_surface() {
    let renderer = renderer();
    let format = renderer.supported_format().as_ref().expect("a format is reported");
    assert!(format.srgb);
    assert_eq!(format.code, 8);
    let config = renderer.surface_config().as_ref().expect("nonzero canvas configures");
    assert_eq!((config.width, config.height), (640, 480));
}

#[test]
fn renderer_build_error_order() {
    let no_canvas = Renderer::builder().build(handshake());
    assert!(matches!(no_canvas, Err(RendererBuildError::Incomplete(_))));

    let mut hs = handshake();
    hs.surface_created = false;
    let no_surface = Renderer::builder().canvas(Canvas { width: 1, height: 1 }).build(hs);
    assert!(matches!(no_surface, Err(RendererBuildError::CreateSurfaceError)));

    let mut hs = handshake();
    hs.adapter_found = false;
    let no_adapter = Renderer::builder().canvas(Canvas { width: 1, height: 1 }).build(hs);
    assert!(matches!(no_adapter, Err(RendererBuildError::NoAdapter)));

    let mut hs = handshake();
    hs.device_granted = false;
    let no_device = Renderer::builder().canvas(Canvas { width: 1, height: 1 }).build(hs);
    assert!(matches!(no_device, Err(RendererBuildError::RequestDeviceError)));
}

#[test]
fn resize_ignores_zero_sized_surfaces() {
    let mut renderer = renderer();
    let before = *renderer.surface_config();
    renderer.resize(0, 100);
    assert_eq!(*renderer.surface_config(), before);
    renderer.resize(100, 0);
    assert_eq!(*renderer.surface_config(), before);
    renderer.resize(800, 600);
    let config = renderer.surface_config().as_ref().expect("configured");
    assert_eq!((config.width, config.height), (800, 600));
}

#[test]
fn insert_with_missing_geometry_yields_empty_buffers() {
    let mut renderer = renderer();
    let mut scene = Scene::builder(&mut renderer).build();
    let geometries = GeometryLoader::new();
    let materials = MaterialLoader::new();
    let textures = TextureLoader::new();
    let mesh = Mesh::builder().build();

    scene.insert(&mut renderer, &geometries, &materials, &textures, &mesh);

    assert_eq!(scene.subject_count(), 1);
    assert!(scene.has_subject(&mesh));
    let subject = &scene.subjects[0].1;
    assert_eq!(subject.vertex_count, 0);
    assert_eq!(subject.index_count, 0);
    assert!(subject.vertices.words.is_empty());
    assert!(subject.indices.words.is_empty());
    assert!(subject.pipeline.is_none());
    assert!(subject.material_data.is_none());
}

#[test]
fn insert_packs_vertex_and_transform_buffers_byte_identically() {
    let mut renderer = renderer();
    let mut scene = Scene::builder(&mut renderer).build();
    let mut geometries = GeometryLoader::new();
    let materials = MaterialLoader::new();
    let textures = TextureLoader::new();

    let geometry = triangle();
    let geometry_id = *geometry.id();
    geometries.insert(geometry);

    let position = Vec3::new(1.0f32.to_bits(), 2.0f32.to_bits(), 3.0f32.to_bits());
    let rotation = Quat::new(
        0.5f32.to_bits(),
        0.5f32.to_bits(),
        0.5f32.to_bits(),
        0.5f32.to_bits(),
    );
    let mesh = Mesh::builder()
        .geometry_id(geometry_id)
        .position(position)
        .rotation(rotation)
        .build();

    scene.insert(&mut renderer, &geometries, &materials, &textures, &mesh);

    let subject = &scene.subjects[0].1;
    assert_eq!(subject.vertex_count, 3);
    assert_eq!(subject.index_count, 3);
    assert_eq!(subject.indices.words, vec![0, 1, 2]);
    // Eight packed words per vertex: position, normal, texture coordinates.
    assert_eq!(subject.vertices.words.len(), 24);
    assert_eq!(subject.vertices.words[8], 1.0f32.to_bits());
    assert_eq!(subject.vertices.words[5], 1.0f32.to_bits());

    // The transform buffer holds translation * rotation, the normal buffer
    // the rotation alone, exactly as glam computes them.
    let gpos = glam::Vec3::new(1.0, 2.0, 3.0);
    let grot = glam::Quat::from_xyzw(0.5, 0.5, 0.5, 0.5);
    let expected_transform: Vec<u32> = (glam::Mat4::from_translation(gpos)
        * glam::Mat4::from_quat(grot))
        .to_cols_array()
        .iter()
        .map(|f| f.to_bits())
        .collect();
    let expected_normal: Vec<u32> = glam::Mat4::from_quat(grot)
        .to_cols_array()
        .iter()
        .map(|f| f.to_bits())
        .collect();
    assert_eq!(subject.transform.words, expected_transform);
    assert_eq!(subject.normal.words, expected_normal);
}

#[test]
fn update_geometry_is_idempotent_and_keeps_draw_order() {
    let mut renderer = renderer();
    let mut scene = Scene::builder(&mut renderer).build();
    let mut geometries = GeometryLoader::new();
    let materials = MaterialLoader::new();
    let textures = TextureLoader::new();

    let first = triangle();
    let first_id = *first.id();
    geometries.insert(first);

    let mut mesh_a = Mesh::builder().geometry_id(first_id).build();
    let mesh_b = Mesh::builder().build();
    scene.insert(&mut renderer, &geometries, &materials, &textures, &mesh_a);
    scene.insert(&mut renderer, &geometries, &materials, &textures, &mesh_b);

    let second = Geometry::new(
        vec![vertex(0.0, 0.0, 0.0), vertex(2.0, 0.0, 0.0), vertex(0.0, 2.0, 0.0)],
        vec![2, 1, 0],
    );
    let second_id = *second.id();
    geometries.insert(second);

    scene.update_geometry(&mut renderer, &mut mesh_a, &geometries, second_id);
    let words_once = scene.subjects[0].1.vertices.words.clone();
    let indices_once = scene.subjects[0].1.indices.words.clone();

    scene.update_geometry(&mut renderer, &mut mesh_a, &geometries, second_id);
    assert_eq!(scene.subjects[0].1.vertices.words, words_once);
    assert_eq!(scene.subjects[0].1.indices.words, indices_once);
    assert_eq!(scene.subjects[0].0, mesh_a.id());
    assert_eq!(scene.subjects[1].0, mesh_b.id());
    assert_eq!(mesh_a.geometry_id(), Some(second_id));
}

#[test]
fn update_geometry_miss_advances_id_but_not_buffers() {
    let mut renderer = renderer();
    let mut scene = Scene::builder(&mut renderer).build();
    let mut geometries = GeometryLoader::new();
    let materials = MaterialLoader::new();
    let textures = TextureLoader::new();

    let geometry = triangle();
    let geometry_id = *geometry.id();
    geometries.insert(geometry);
    let mut mesh = Mesh::builder().geometry_id(geometry_id).build();
    scene.insert(&mut renderer, &geometries, &materials, &textures, &mesh);
    let before = scene.subjects[0].1.vertices.words.clone();

    let missing = sand_castle_core::resource::Id(999);
    scene.update_geometry(&mut renderer, &mut mesh, &geometries, missing);
    assert_eq!(scene.subjects[0].1.vertices.words, before);
    assert_eq!(mesh.geometry_id(), Some(missing));
}

#[test]
fn removal_preserves_relative_order_of_rest() {
    let mut renderer = renderer();
    let mut scene = Scene::builder(&mut renderer).build();
    let geometries = GeometryLoader::new();
    let materials = MaterialLoader::new();
    let textures = TextureLoader::new();

    let meshes: Vec<Mesh> = (0..5).map(|_| Mesh::builder().build()).collect();
    for mesh in &meshes {
        scene.insert(&mut renderer, &geometries, &materials, &textures, mesh);
    }
    scene.remove(&meshes[1]);
    scene.remove(&meshes[3]);

    assert_eq!(scene.subject_count(), 3);
    assert_eq!(scene.subjects[0].0, meshes[0].id());
    assert_eq!(scene.subjects[1].0, meshes[2].id());
    assert_eq!(scene.subjects[2].0, meshes[4].id());
    assert!(!scene.has_subject(&meshes[1]));
}

#[test]
fn transform_updates_keep_buffer_identity() {
    let mut renderer = renderer();
    let mut scene = Scene::builder(&mut renderer).build();
    let mut geometries = GeometryLoader::new();
    let materials = MaterialLoader::new();
    let textures = TextureLoader::new();
    let geometry = triangle();
    let geometry_id = *geometry.id();
    geometries.insert(geometry);
    let mut mesh = Mesh::builder().geometry_id(geometry_id).build();
    scene.insert(&mut renderer, &geometries, &materials, &textures, &mesh);

    let transform_handle = scene.subjects[0].1.transform.handle;
    let normal_handle = scene.subjects[0].1.normal.handle;

    for step in 1..6u32 {
        let p = step as f32;
        mesh.update_pos(&mut scene, Vec3::new(p.to_bits(), 0, 0));
        mesh.update_rot(
            &mut scene,
            Quat::new(0, 0, 0, 1.0f32.to_bits()),
        );
    }

    assert_eq!(scene.subjects[0].1.transform.handle, transform_handle);
    assert_eq!(scene.subjects[0].1.normal.handle, normal_handle);

    // And the contents track the latest position, as glam computes it.
    let expected: Vec<u32> = (glam::Mat4::from_translation(glam::Vec3::new(5.0, 0.0, 0.0))
        * glam::Mat4::from_quat(glam::Quat::IDENTITY))
        .to_cols_array()
        .iter()
        .map(|f| f.to_bits())
        .collect();
    assert_eq!(scene.subjects[0].1.transform.words, expected);
    assert_eq!(*mesh.pos(), Vec3::new(5.0f32.to_bits(), 0, 0));
}

#[test]
fn pipeline_cache_shares_by_shader_identity_not_material_id() {
    let mut renderer = renderer();
    let mut scene = Scene::builder(&mut renderer).build();
    let geometries = GeometryLoader::new();
    let mut materials = MaterialLoader::new();
    let textures = TextureLoader::new();

    let white = Vec4::new(0, 0, 0, 1.0f32.to_bits());
    let first = BasicMaterial::with_color(white).to_material();
    let second = BasicMaterial::with_color(white).to_material();
    assert_ne!(first.id, second.id);
    let first_id = first.id;
    let second_id = second.id;
    materials.insert(first);
    materials.insert(second);

    let mesh_a = Mesh::builder().material_id(first_id).build();
    let mesh_b = Mesh::builder().material_id(second_id).build();
    scene.insert(&mut renderer, &geometries, &materials, &textures, &mesh_a);
    scene.insert(&mut renderer, &geometries, &materials, &textures, &mesh_b);

    let pipeline_a = scene.subjects[0].1.pipeline.expect("compiled");
    let pipeline_b = scene.subjects[1].1.pipeline.expect("compiled");
    assert_eq!(pipeline_a, pipeline_b);

    // A phong material has different shaders: a distinct pipeline.
    let phong = PhongMaterial::with_color(white).to_material();
    let phong_id = phong.id;
    materials.insert(phong);
    let mesh_c = Mesh::builder().material_id(phong_id).build();
    scene.insert(&mut renderer, &geometries, &materials, &textures, &mesh_c);
    let pipeline_c = scene.subjects[2].1.pipeline.expect("compiled");
    assert_ne!(pipeline_a, pipeline_c);

    // Differing only in the has-diffuse-texture flag: also distinct.
    let mut textured = BasicMaterial::with_color(white);
    textured.diffuse_map_texture_id = Some(sand_castle_core::resource::TextureId(77));
    let textured = textured.to_material();
    let textured_id = textured.id;
    materials.insert(textured);
    let mesh_d = Mesh::builder().material_id(textured_id).build();
    scene.insert(&mut renderer, &geometries, &materials, &textures, &mesh_d);
    let pipeline_d = scene.subjects[3].1.pipeline.expect("compiled");
    assert_ne!(pipeline_a, pipeline_d);
}

#[test]
fn update_and_remove_material_mutate_subject_in_place() {
    let mut renderer = renderer();
    let mut scene = Scene::builder(&mut renderer).build();
    let geometries = GeometryLoader::new();
    let mut materials = MaterialLoader::new();
    let textures = TextureLoader::new();

    let mut mesh = Mesh::builder().build();
    scene.insert(&mut renderer, &geometries, &materials, &textures, &mesh);
    assert!(scene.subjects[0].1.pipeline.is_none());

    let red = Vec4::new(1.0f32.to_bits(), 0, 0, 1.0f32.to_bits());
    let material = BasicMaterial::with_color(red).to_material();
    let material_id = material.id;
    materials.insert(material);

    let vertices_before = scene.subjects[0].1.vertices.handle;
    scene.update_material(&mut renderer, &mut mesh, &textures, &materials, material_id);
    assert!(scene.subjects[0].1.pipeline.is_some());
    assert_eq!(mesh.material_id(), Some(material_id));
    assert_eq!(scene.subjects[0].1.vertices.handle, vertices_before);
    let data = scene.subjects[0].1.material_data.as_ref().unwrap();
    assert_eq!(data.words, vec![1.0f32.to_bits(), 0, 0, 1.0f32.to_bits()]);

    // In-place uniform data write keeps the buffer object.
    let data_handle = data.handle;
    scene.update_material_data(&renderer, &mesh, &[7, 8, 9, 10]);
    let data = scene.subjects[0].1.material_data.as_ref().unwrap();
    assert_eq!(data.handle, data_handle);
    assert_eq!(data.words, vec![7, 8, 9, 10]);

    // A short write patches the front of the buffer; the words past the
    // written length keep their value.
    scene.update_material_data(&renderer, &mesh, &[42, 43]);
    let data = scene.subjects[0].1.material_data.as_ref().unwrap();
    assert_eq!(data.handle, data_handle);
    assert_eq!(data.words, vec![42, 43, 9, 10]);

    // A zero-length write leaves the contents whole.
    scene.update_material_data(&renderer, &mesh, &[]);
    let data = scene.subjects[0].1.material_data.as_ref().unwrap();
    assert_eq!(data.words, vec![42, 43, 9, 10]);

    scene.remove_material(&mesh);
    assert!(scene.subjects[0].1.pipeline.is_none());
    assert!(scene.subjects[0].1.material_data.is_none());
}
