//! Cuboid tessellation.
//!
//! The tessellation emits the eight corners of the canonical two-unit cube
//! with twelve triangles (two per face) and computed vertex normals.  The
//! dimension and segment fields are recorded on the description but do not
//! yet change the emitted shape.

use vstd::prelude::*;

use crate::geometry::{
    normals_spec, vec3_of_words, words_of, Geometry, ToGeometry, Vertex,
};
use crate::resource::Id;
use crate::units::{Vec2, Vec3, F32_NEG_ONE_BITS, F32_ONE_BITS};

verus! {

/// The eight corner positions: front face first, then the back face.
pub open spec fn cuboid_positions() -> Seq<Vec3> {
    seq![
        Vec3 { x: F32_NEG_ONE_BITS, y: F32_NEG_ONE_BITS, z: F32_ONE_BITS },
        Vec3 { x: F32_ONE_BITS, y: F32_NEG_ONE_BITS, z: F32_ONE_BITS },
        Vec3 { x: F32_ONE_BITS, y: F32_ONE_BITS, z: F32_ONE_BITS },
        Vec3 { x: F32_NEG_ONE_BITS, y: F32_ONE_BITS, z: F32_ONE_BITS },
        Vec3 { x: F32_NEG_ONE_BITS, y: F32_NEG_ONE_BITS, z: F32_NEG_ONE_BITS },
        Vec3 { x: F32_ONE_BITS, y: F32_NEG_ONE_BITS, z: F32_NEG_ONE_BITS },
        Vec3 { x: F32_ONE_BITS, y: F32_ONE_BITS, z: F32_NEG_ONE_BITS },
        Vec3 { x: F32_NEG_ONE_BITS, y: F32_ONE_BITS, z: F32_NEG_ONE_BITS },
    ]
}

/// The thirty-six indices: front, back, left, right, top and bottom
/// faces, two counter-clockwise triangles each.
pub open spec fn cuboid_indices() -> Seq<u32> {
    seq![
        0u32, 1u32, 2u32, 0u32, 2u32, 3u32, 4u32, 6u32, 5u32, 4u32, 7u32, 6u32, 4u32, 5u32, 1u32,
        4u32, 1u32, 0u32, 3u32, 2u32, 6u32, 3u32, 6u32, 7u32, 1u32, 5u32, 6u32, 1u32, 6u32, 2u32,
        4u32, 0u32, 3u32, 4u32, 3u32, 7u32,
    ]
}

/// A cuboid description.  Dimensions and segment counts carry
/// single-precision bit patterns and counts; all default to one.
#[derive(Debug, PartialEq, Eq, Structural, Clone, Copy)]
pub struct Cuboid {
    pub width: u32,
    pub height: u32,
    pub depth: u32,
    pub width_segments: u32,
    pub height_segments: u32,
    pub depth_segments: u32,
}

/// Builder for [`Cuboid`]; every field has a default.
#[derive(Debug, Clone, Copy, Default)]
pub struct CuboidBuilder {
    pub width: Option<u32>,
    pub height: Option<u32>,
    pub depth: Option<u32>,
    pub width_segments: Option<u32>,
    pub height_segments: Option<u32>,
    pub depth_segments: Option<u32>,
}

impl CuboidBuilder {
    pub fn width(self, width: u32) -> (r: Self)
        ensures
            r == (CuboidBuilder { width: Some(width), ..self }),
    {
        CuboidBuilder { width: Some(width), ..self }
    }

    pub fn height(self, height: u32) -> (r: Self)
        ensures
            r == (CuboidBuilder { height: Some(height), ..self }),
    {
        CuboidBuilder { height: Some(height), ..self }
    }

    pub fn depth(self, depth: u32) -> (r: Self)
        ensures
            r == (CuboidBuilder { depth: Some(depth), ..self }),
    {
        CuboidBuilder { depth: Some(depth), ..self }
    }

    pub fn width_segments(self, width_segments: u32) -> (r: Self)
        ensures
            r == (CuboidBuilder { width_segments: Some(width_segments), ..self }),
    {
        CuboidBuilder { width_segments: Some(width_segments), ..self }
    }

    pub fn height_segments(self, height_segments: u32) -> (r: Self)
        ensures
            r == (CuboidBuilder { height_segments: Some(height_segments), ..self }),
    {
        CuboidBuilder { height_segments: Some(height_segments), ..self }
    }

    pub fn depth_segments(self, depth_segments: u32) -> (r: Self)
        ensures
            r == (CuboidBuilder { depth_segments: Some(depth_segments), ..self }),
    {
        CuboidBuilder { depth_segments: Some(depth_segments), ..self }
    }

    pub fn build(self) -> (r: Cuboid)
        ensures
            r.width == (match self.width {
                Some(w) => w,
                None => F32_ONE_BITS,
            }),
            r.height == (match self.height {
                Some(h) => h,
                None => F32_ONE_BITS,
            }),
            r.depth == (match self.depth {
                Some(d) => d,
                None => F32_ONE_BITS,
            }),
            r.width_segments == (match self.width_segments {
                Some(s) => s,
                None => 1u32,
            }),
            r.height_segments == (match self.height_segments {
                Some(s) => s,
                None => 1u32,
            }),
            r.depth_segments == (match self.depth_segments {
                Some(s) => s,
                None => 1u32,
            }),
    {
        Cuboid {
            width: match self.width {
                Some(w) => w,
                None => F32_ONE_BITS,
            },
            height: match self.height {
                Some(h) => h,
                None => F32_ONE_BITS,
            },
            depth: match self.depth {
                Some(d) => d,
                None => F32_ONE_BITS,
            },
            width_segments: match self.width_segments {
                Some(s) => s,
                None => 1,
            },
            height_segments: match self.height_segments {
                Some(s) => s,
                None => 1,
            },
            depth_segments: match self.depth_segments {
                Some(s) => s,
                None => 1,
            },
        }
    }
}

impl Cuboid {
    pub fn builder() -> (r: CuboidBuilder)
        ensures
            r == (CuboidBuilder {
                width: None::<u32>,
                height: None::<u32>,
                depth: None::<u32>,
                width_segments: None::<u32>,
                height_segments: None::<u32>,
                depth_segments: None::<u32>,
            }),
    {
        CuboidBuilder {
            width: None,
            height: None,
            depth: None,
            width_segments: None,
            height_segments: None,
            depth_segments: None,
        }
    }
}

impl ToGeometry for Cuboid {
    open spec fn spec_vertices(&self) -> Seq<Vertex> {
        Seq::new(
            8,
            |i: int|
                Vertex {
                    position: cuboid_positions()[i],
                    normal: vec3_of_words(normals_spec(cuboid_positions(), cuboid_indices())[i]),
                    tex_coords: Vec2::zero_spec(),
                },
        )
    }

    open spec fn spec_indices(&self) -> Seq<u32> {
        cuboid_indices()
    }

    fn to_geometry(&self) -> (r: Geometry) {
        let positions: Vec<Vec3> = vec![
            Vec3 { x: F32_NEG_ONE_BITS, y: F32_NEG_ONE_BITS, z: F32_ONE_BITS },
            Vec3 { x: F32_ONE_BITS, y: F32_NEG_ONE_BITS, z: F32_ONE_BITS },
            Vec3 { x: F32_ONE_BITS, y: F32_ONE_BITS, z: F32_ONE_BITS },
            Vec3 { x: F32_NEG_ONE_BITS, y: F32_ONE_BITS, z: F32_ONE_BITS },
            Vec3 { x: F32_NEG_ONE_BITS, y: F32_NEG_ONE_BITS, z: F32_NEG_ONE_BITS },
            Vec3 { x: F32_ONE_BITS, y: F32_NEG_ONE_BITS, z: F32_NEG_ONE_BITS },
            Vec3 { x: F32_ONE_BITS, y: F32_ONE_BITS, z: F32_NEG_ONE_BITS },
            Vec3 { x: F32_NEG_ONE_BITS, y: F32_ONE_BITS, z: F32_NEG_ONE_BITS },
        ];
        let indices: Vec<u32> = vec![
            0u32, 1u32, 2u32, 0u32, 2u32, 3u32, 4u32, 6u32, 5u32, 4u32, 7u32, 6u32, 4u32, 5u32,
            1u32, 4u32, 1u32, 0u32, 3u32, 2u32, 6u32, 3u32, 6u32, 7u32, 1u32, 5u32, 6u32, 1u32,
            6u32, 2u32, 4u32, 0u32, 3u32, 4u32, 3u32, 7u32,
        ];
        proof {
            assert(positions@ =~= cuboid_positions());
            assert(indices@ =~= cuboid_indices());
            assert(indices@.len() % 3 == 0);
            assert forall|i: int| 0 <= i < indices@.len() implies indices@[i]
                < positions@.len() by {
                assert(cuboid_indices()[i] < 8);
            }
        }
        let normals = Geometry::calculate_normals(positions.as_slice(), indices.as_slice());
        let mut vertices: Vec<Vertex> = Vec::new();
        let mut i: usize = 0;
        while i < 8
            invariant
                i <= 8,
                vertices@.len() == i,
                positions@ == cuboid_positions(),
                indices@ == cuboid_indices(),
                normals@.len() == 8,
                words_of(normals@) == normals_spec(cuboid_positions(), cuboid_indices()),
                forall|j: int| 0 <= j < i ==> vertices@[j] == self.spec_vertices()[j],
            decreases 8 - i,
        {
            let vertex = Vertex {
                position: positions[i],
                normal: normals[i],
                tex_coords: Vec2::zero(),
            };
            proof {
                assert(words_of(normals@)[i as int] == normals@[i as int].words());
                assert(vertex.normal == vec3_of_words(
                    normals_spec(cuboid_positions(), cuboid_indices())[i as int],
                ));
                assert(vertex == self.spec_vertices()[i as int]);
            }
            vertices.push(vertex);
            i += 1;
        }
        proof {
            assert(vertices@ =~= self.spec_vertices());
        }
        Geometry { id: Id::new(), vertices, indices }
    }
}

} // verus!
