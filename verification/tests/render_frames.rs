use sand_castle_core::cuboid::Cuboid;
use sand_castle_core::geometry::{Geometry, ToGeometry};
use sand_castle_core::loader::{GeometryLoader, MaterialLoader, TextureLoader};
use sand_castle_core::material::{BasicMaterial, ToMaterial};
use sand_castle_core::object3d::Mesh;
use sand_castle_core::renderer::{
    Canvas, Renderer, SurfaceCapabilities, SurfaceFormat, SurfaceHandshake,
};
use sand_castle_core::resource::{Resource, TextureId};
use sand_castle_core::scene::Scene;
use sand_castle_core::texture::Texture;
use sand_castle_core::units::{Vec3, Vec4};

fn renderer() -> Renderer {
    Renderer::builder()
        .canvas(Canvas { width: 320, height: 240 })
        .build(SurfaceHandshake {
            surface_created: true,
            adapter_found: true,
            device_granted: true,
            capabilities: SurfaceCapabilities {
                formats: vec![SurfaceFormat { code: 3, srgb: true }],
                present_modes: vec![0],
                alpha_modes: vec![0],
            },
        })
        .unwrap()
}

#[test]
fn cuboid_tessellates_eight_vertices_and_thirty_six_indices() {
    let geometry = Cuboid::builder().build().to_geometry();
    assert_eq!(geometry.vertices().len(), 8);
    assert_eq!(geometry.indices().len(), 36);
    assert_eq!(geometry.indices()[0..6], [0, 1, 2, 0, 2, 3]);

    // Vertex normals match the averaged face normals glam computes.
    let corners = [
        glam::Vec3::new(-1.0, -1.0, 1.0),
        glam::Vec3::new(1.0, -1.0, 1.0),
        glam::Vec3::new(1.0, 1.0, 1.0),
        glam::Vec3::new(-1.0, 1.0, 1.0),
        glam::Vec3::new(-1.0, -1.0, -1.0),
        glam::Vec3::new(1.0, -1.0, -1.0),
        glam::Vec3::new(1.0, 1.0, -1.0),
        glam::Vec3::new(-1.0, 1.0, -1.0),
    ];
    let indices = &geometry.indices();
    let mut expected = [glam::Vec3::ZERO; 8];
    for face in indices.chunks(3) {
        let (i0, i1, i2) = (face[0] as usize, face[1] as usize, face[2] as usize);
        let normal = (corners[i1] - corners[i0])
            .cross(corners[i2] - corners[i0])
            .normalize();
        expected[i0] += normal;
        expected[i1] += normal;
        expected[i2] += normal;
    }
    for normal in &mut expected {
        if normal.length() > 0.0 {
            *normal = normal.normalize();
        }
    }
    for (vertex, want) in geometry.vertices().iter().zip(expected.iter()) {
        assert_eq!(vertex.normal.x, want.x.to_bits());
        assert_eq!(vertex.normal.y, want.y.to_bits());
        assert_eq!(vertex.normal.z, want.z.to_bits());
        assert_eq!(vertex.position.x & 0x7FFF_FFFF, 1.0f32.to_bits());
    }
}

#[test]
fn unit_cuboid_renders_one_untextured_indexed_draw() {
    let mut renderer = renderer();
    let mut scene = Scene::builder(&mut renderer).build();
    let mut geometries = GeometryLoader::new();
    let mut materials = MaterialLoader::new();
    let textures = TextureLoader::new();

    let geometry = Cuboid::builder().build().to_geometry();
    let geometry_id = *geometry.id();
    geometries.insert(geometry);

    let material = BasicMaterial::with_color(Vec4::new(0, 0, 0, 1.0f32.to_bits()))
        .to_material();
    let material_id = material.id;
    materials.insert(material);

    let mesh = Mesh::builder()
        .geometry_id(geometry_id)
        .material_id(material_id)
        .position(Vec3::new(0, 0, 0))
        .build();
    scene.insert(&mut renderer, &geometries, &materials, &textures, &mesh);

    let frame = scene.render(true).expect("surface available");
    assert_eq!(frame.draws.len(), 1);
    let draw = &frame.draws[0];
    assert_eq!(draw.index_count, 36);
    assert!(draw.diffuse_texture.is_none());
    assert!(draw.material_data.is_some());
    // The fixed binding slots reference the scene's own objects.
    assert_eq!(draw.camera, scene.camera.handle);
    assert_eq!(draw.ambient, scene.ambient_light.handle);
    assert_eq!(draw.lights, scene.lights.bind_group);
    assert_eq!(draw.transform, scene.subjects[0].1.transform.handle);
    assert_eq!(draw.vertex_buffer, scene.subjects[0].1.vertices.handle);
    assert_eq!(draw.index_buffer, scene.subjects[0].1.indices.handle);
    assert_eq!(frame.clear_color, *scene.color());
    assert_eq!(frame.depth_texture, scene.depth.handle);
    assert_eq!(frame.depth_clear, 1.0f32.to_bits());
}

#[test]
fn render_skips_unavailable_surface_and_pipelineless_subjects() {
    let mut renderer = renderer();
    let mut scene = Scene::builder(&mut renderer).build();
    let geometries = GeometryLoader::new();
    let materials = MaterialLoader::new();
    let textures = TextureLoader::new();

    assert!(scene.render(false).is_none());

    // A subject without a material is registered but not drawn.
    let mesh = Mesh::builder().build();
    scene.insert(&mut renderer, &geometries, &materials, &textures, &mesh);
    let frame = scene.render(true).unwrap();
    assert_eq!(scene.subject_count(), 1);
    assert_eq!(frame.draws.len(), 0);
}

#[test]
fn textured_material_binds_the_cached_texture_view() {
    let mut renderer = renderer();
    let mut scene = Scene::builder(&mut renderer).build();
    let mut geometries = GeometryLoader::new();
    let mut materials = MaterialLoader::new();
    let mut textures = TextureLoader::new();

    let texture = Texture {
        id: TextureId::new(),
        dimensions: (2, 2),
        content: vec![9; 16],
    };
    let texture_id = texture.id;
    textures.insert(texture);

    let geometry = Cuboid::builder().build().to_geometry();
    let geometry_id = *geometry.id();
    geometries.insert(geometry);

    let mut description = BasicMaterial::with_color(Vec4::new(0, 0, 0, 0));
    description.diffuse_map_texture_id = Some(texture_id);
    let material = description.to_material();
    let material_id = material.id;
    materials.insert(material);

    let mesh = Mesh::builder()
        .geometry_id(geometry_id)
        .material_id(material_id)
        .build();
    scene.insert(&mut renderer, &geometries, &materials, &textures, &mesh);

    // The upload is cached by texture id with the raw RGBA bytes.
    assert_eq!(scene.texture_map_views.len(), 1);
    assert_eq!(scene.texture_map_views[0].0, texture_id);
    assert_eq!(scene.texture_map_views[0].1.width, 2);
    assert_eq!(scene.texture_map_views[0].1.bytes, vec![9; 16]);

    let frame = scene.render(true).unwrap();
    assert_eq!(frame.draws.len(), 1);
    assert_eq!(
        frame.draws[0].diffuse_texture,
        Some(scene.texture_map_views[0].1.handle)
    );
}

#[test]
fn set_color_changes_the_clear_color() {
    let mut renderer = renderer();
    let mut scene = Scene::builder(&mut renderer).build();
    assert_eq!(*scene.color(), Vec4::new(0, 0, 0, 1.0f32.to_bits()));
    let teal = Vec4::new(0, 0.5f32.to_bits(), 0.5f32.to_bits(), 1.0f32.to_bits());
    scene.set_color(teal);
    let frame = scene.render(true).unwrap();
    assert_eq!(frame.clear_color, teal);
}

#[test]
fn geometry_ids_survive_through_mesh_nodes() {
    let geometry = Geometry::new(vec![], vec![]);
    let mesh = Mesh::builder().geometry_id(*geometry.id()).build();
    assert_ne!(mesh.id().0, 0);
    assert_eq!(mesh.geometry_id, Some(*geometry.id()));
}

#[test]
fn texture_binding_is_created_once_and_reused() {
    let mut renderer = renderer();
    let mut scene = Scene::builder(&mut renderer).build();
    let geometries = GeometryLoader::new();
    let mut materials = MaterialLoader::new();
    let mut textures = TextureLoader::new();

    let texture = Texture {
        id: TextureId::new(),
        dimensions: (1, 1),
        content: vec![1, 2, 3, 4],
    };
    let texture_id = texture.id;
    textures.insert(texture);

    let mut description = BasicMaterial::with_color(Vec4::new(0, 0, 0, 0));
    description.diffuse_map_texture_id = Some(texture_id);
    let material = description.to_material();
    let material_id = material.id;
    materials.insert(material);

    let mesh_a = Mesh::builder().material_id(material_id).build();
    let mesh_b = Mesh::builder().material_id(material_id).build();
    scene.insert(&mut renderer, &geometries, &materials, &textures, &mesh_a);
    let binding_handle = scene.texture_map_views[0].1.handle;
    scene.insert(&mut renderer, &geometries, &materials, &textures, &mesh_b);

    assert_eq!(scene.texture_map_views.len(), 1);
    assert_eq!(scene.texture_map_views[0].1.handle, binding_handle);
    // Both subjects share the one compiled pipeline as well.
    assert_eq!(scene.subjects[0].1.pipeline, scene.subjects[1].1.pipeline);
}

#[test]
fn reinsertion_replaces_in_place_without_reordering() {
    let mut renderer = renderer();
    let mut scene = Scene::builder(&mut renderer).build();
    let mut geometries = GeometryLoader::new();
    let materials = MaterialLoader::new();
    let textures = TextureLoader::new();

    let mut mesh_a = Mesh::builder().build();
    let mesh_b = Mesh::builder().build();
    scene.insert(&mut renderer, &geometries, &materials, &textures, &mesh_a);
    scene.insert(&mut renderer, &geometries, &materials, &textures, &mesh_b);

    let geometry = Cuboid::builder().build().to_geometry();
    let geometry_id = *geometry.id();
    geometries.insert(geometry);
    mesh_a.geometry_id = Some(geometry_id);
    scene.insert(&mut renderer, &geometries, &materials, &textures, &mesh_a);

    assert_eq!(scene.subject_count(), 2);
    assert_eq!(scene.subjects[0].0, mesh_a.id());
    assert_eq!(scene.subjects[1].0, mesh_b.id());
    assert_eq!(scene.subjects[0].1.index_count, 36);
}
