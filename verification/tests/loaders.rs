use sand_castle_core::geometry::{Geometry, Vertex};
use sand_castle_core::loader::assemble_vertices;
use sand_castle_core::loader::{GeometryLoader, MaterialLoader, TextureLoader};
use sand_castle_core::material::{BasicMaterial, LayoutKind, ToMaterial};
use sand_castle_core::resource::{Id, TextureId};
use sand_castle_core::texture::Texture;
use sand_castle_core::units::{Vec2, Vec3, Vec4};

fn vertex(x: f32, y: f32, z: f32) -> Vertex {
    Vertex::new(
        Vec3::new(x.to_bits(), y.to_bits(), z.to_bits()),
        Vec3::new(0, 0, 0),
        Vec2::new(0, 0),
    )
}

#[test]
fn geometry_round_trip_returns_inserted_value() {
    let mut loader = GeometryLoader::new();
    let geometry = Geometry::new(
        vec![vertex(0.0, 0.0, 0.0), vertex(1.0, 0.0, 0.0), vertex(0.0, 1.0, 0.0)],
        vec![0, 1, 2],
    );
    let id = *geometry.id();
    let vertices = geometry.vertices().clone();
    let indices = geometry.indices().clone();
    loader.insert(geometry);

    let got = loader.get_from_id(id).expect("inserted geometry must resolve");
    assert_eq!(*got.id(), id);
    assert_eq!(*got.vertices(), vertices);
    assert_eq!(*got.indices(), indices);
}

#[test]
fn absent_id_resolves_to_none() {
    let loader = GeometryLoader::new();
    assert!(loader.get_from_id(Id(42)).is_none());

    let materials = MaterialLoader::new();
    assert!(materials.get_from_id(Id(42)).is_none());

    let textures = TextureLoader::new();
    assert!(textures.get_from_id(TextureId(42)).is_none());
}

#[test]
fn reinsertion_overwrites_in_place_without_reordering() {
    let mut loader = GeometryLoader::new();
    let first = Geometry::new(vec![vertex(0.0, 0.0, 0.0)], vec![]);
    let second = Geometry::new(vec![vertex(1.0, 1.0, 1.0)], vec![]);
    let first_id = *first.id();
    let second_id = *second.id();
    loader.insert(first);
    loader.insert(second);

    let replacement = Geometry {
        id: first_id,
        vertices: vec![vertex(5.0, 5.0, 5.0)],
        indices: vec![],
    };
    loader.insert(replacement);

    assert_eq!(loader.entries.len(), 2);
    assert_eq!(loader.entries[0].0, first_id);
    assert_eq!(loader.entries[1].0, second_id);
    let got = loader.get_from_id(first_id).unwrap();
    assert_eq!(got.vertices[0].position.x, 5.0f32.to_bits());
}

#[test]
fn fresh_ids_are_nonzero_and_distinct() {
    let a = Id::new();
    let b = Id::new();
    assert_ne!(a.0, 0);
    assert_ne!(b.0, 0);
    assert_ne!(a, b);
    let t = TextureId::new();
    assert_ne!(t.0, 0);
}

#[test]
fn basic_material_resolves_with_packed_color() {
    let color = Vec4::new(
        0.25f32.to_bits(),
        0.5f32.to_bits(),
        0.75f32.to_bits(),
        1.0f32.to_bits(),
    );
    let material = BasicMaterial::with_color(color).to_material();
    assert_ne!(material.id().0, 0);
    assert_eq!(
        material.fragment_data,
        vec![
            0.25f32.to_bits(),
            0.5f32.to_bits(),
            0.75f32.to_bits(),
            1.0f32.to_bits()
        ]
    );
    assert_eq!(material.fragment_data_layout, LayoutKind::SingleUniform);
    assert!(material.diffuse_map_texture_id.is_none());
}

#[test]
fn texture_loader_round_trip() {
    let mut loader = TextureLoader::new();
    let texture = Texture {
        id: TextureId::new(),
        dimensions: (2, 1),
        content: vec![1, 2, 3, 4, 5, 6, 7, 8],
    };
    let id = texture.id;
    loader.insert(texture);
    let got = loader.get_from_id(id).unwrap();
    assert_eq!(got.dimensions(), (2, 1));
    assert_eq!(*got.content(), vec![1, 2, 3, 4, 5, 6, 7, 8]);
}

#[test]
fn imported_attribute_streams_zip_with_zero_fill() {
    let positions = vec![
        Vec3::new(1, 2, 3),
        Vec3::new(4, 5, 6),
        Vec3::new(7, 8, 9),
    ];
    let normals = vec![Vec3::new(10, 11, 12)];
    let tex_coords = vec![Vec2::new(20, 21), Vec2::new(22, 23)];

    let vertices = assemble_vertices(&positions, &normals, &tex_coords);
    assert_eq!(vertices.len(), 3);
    assert_eq!(vertices[0].position, Vec3::new(1, 2, 3));
    assert_eq!(vertices[0].normal, Vec3::new(10, 11, 12));
    assert_eq!(vertices[0].tex_coords, Vec2::new(20, 21));
    assert_eq!(vertices[1].normal, Vec3::new(0, 0, 0));
    assert_eq!(vertices[1].tex_coords, Vec2::new(22, 23));
    assert_eq!(vertices[2].tex_coords, Vec2::new(0, 0));
}
