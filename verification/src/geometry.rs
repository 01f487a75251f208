//! CPU-side geometry descriptors.
//!
//! A geometry is an immutable list of vertices and a triangle-list index
//! buffer.  The GPU consumes vertices as eight packed 32-bit words each:
//! position, normal and texture coordinates in that order.

use vstd::prelude::*;

use crate::mathops::{
    vec3_add, vec3_add_spec, vec3_cross, vec3_cross_spec, vec3_length_positive,
    vec3_length_positive_spec, vec3_normalize, vec3_normalize_spec, vec3_sub, vec3_sub_spec,
};
use crate::resource::Id;
use crate::units::{Vec2, Vec3};

verus! {

/// One vertex: position, normal and texture coordinates, all as
/// single-precision bit patterns.
#[derive(Debug, PartialEq, Eq, Structural, Clone, Copy)]
pub struct Vertex {
    pub position: Vec3,
    pub normal: Vec3,
    pub tex_coords: Vec2,
}

impl Vertex {
    /// The eight words of this vertex in GPU buffer order.
    pub open spec fn words(self) -> Seq<u32> {
        self.position.words() + self.normal.words() + self.tex_coords.words()
    }

    pub fn new(position: Vec3, normal: Vec3, tex_coords: Vec2) -> (r: Vertex)
        ensures
            r == (Vertex { position, normal, tex_coords }),
    {
        Vertex { position, normal, tex_coords }
    }
}

/// The packed vertex-buffer contents of a vertex list: eight words per
/// vertex, in list order.
pub open spec fn vertex_buffer_words(vs: Seq<Vertex>) -> Seq<u32> {
    Seq::new(vs.len() * 8, |w: int| vs[w / 8].words()[w % 8])
}

/// An immutable geometry resource: a fresh id, vertices, and a triangle-list
/// index buffer (indices are consumed in groups of three).
#[derive(Debug, Clone)]
pub struct Geometry {
    pub id: Id,
    pub vertices: Vec<Vertex>,
    pub indices: Vec<u32>,
}

impl Geometry {
    /// Indices come in whole triangles and stay within the vertex list.
    pub open spec fn well_formed(self) -> bool {
        &&& self.indices@.len() % 3 == 0
        &&& forall|i: int|
            0 <= i < self.indices@.len() ==> self.indices@[i] < self.vertices@.len()
    }

    /// Build a geometry with a freshly generated id.
    pub fn new(vertices: Vec<Vertex>, indices: Vec<u32>) -> (r: Geometry)
        ensures
            r.vertices == vertices,
            r.indices == indices,
            r.id.0 != 0,
    {
        Geometry { id: Id::new(), vertices, indices }
    }

    pub fn id(&self) -> (r: &Id)
        ensures
            *r == self.id,
    {
        &self.id
    }

    pub fn vertices(&self) -> (r: &Vec<Vertex>)
        ensures
            *r == self.vertices,
    {
        &self.vertices
    }

    pub fn indices(&self) -> (r: &Vec<u32>)
        ensures
            *r == self.indices,
    {
        &self.indices
    }
}

/// A shape that can tessellate itself into a [`Geometry`].
pub trait ToGeometry {
    /// The vertices the tessellation produces.
    spec fn spec_vertices(&self) -> Seq<Vertex>;

    /// The indices the tessellation produces.
    spec fn spec_indices(&self) -> Seq<u32>;

    /// Tessellate into a geometry with a freshly generated id.
    fn to_geometry(&self) -> (r: Geometry)
        ensures
            r.vertices@ == self.spec_vertices(),
            r.indices@ == self.spec_indices(),
            r.id.0 != 0,
    ;
}


/// The word sequences of a vector list.
pub open spec fn words_of(ns: Seq<Vec3>) -> Seq<Seq<u32>> {
    ns.map_values(|v: Vec3| v.words())
}

/// The vector a three-word sequence denotes.
pub open spec fn vec3_of_words(s: Seq<u32>) -> Vec3 {
    Vec3 { x: s[0], y: s[1], z: s[2] }
}

/// The normalized face normal of triangle `f`: the cross product of its
/// two edge vectors out of the first corner.
pub open spec fn face_normal(vertices: Seq<Vec3>, indices: Seq<u32>, f: int) -> Seq<u32> {
    let v0 = vertices[indices[3 * f] as int].words();
    let v1 = vertices[indices[3 * f + 1] as int].words();
    let v2 = vertices[indices[3 * f + 2] as int].words();
    vec3_normalize_spec(vec3_cross_spec(vec3_sub_spec(v1, v0), vec3_sub_spec(v2, v0)))
}

/// Add triangle `f`'s face normal onto each of its three corners, in
/// corner order.
pub open spec fn add_face_normal(
    ns: Seq<Seq<u32>>,
    vertices: Seq<Vec3>,
    indices: Seq<u32>,
    f: int,
) -> Seq<Seq<u32>> {
    let n = face_normal(vertices, indices, f);
    let i0 = indices[3 * f] as int;
    let i1 = indices[3 * f + 1] as int;
    let i2 = indices[3 * f + 2] as int;
    let a = ns.update(i0, vec3_add_spec(ns[i0], n));
    let b = a.update(i1, vec3_add_spec(a[i1], n));
    b.update(i2, vec3_add_spec(b[i2], n))
}

/// The per-vertex normal accumulation after the first `f` triangles.
pub open spec fn accumulated_normals(vertices: Seq<Vec3>, indices: Seq<u32>, f: int) -> Seq<
    Seq<u32>,
>
    decreases f,
{
    if f <= 0 {
        Seq::new(vertices.len(), |i: int| Vec3::zero_spec().words())
    } else {
        add_face_normal(accumulated_normals(vertices, indices, f - 1), vertices, indices, f - 1)
    }
}

/// The vertex normals of a triangle list: per-face normals accumulated
/// over every face sharing a vertex, then renormalized — except that an
/// accumulated normal without positive length is left as it is.
pub open spec fn normals_spec(vertices: Seq<Vec3>, indices: Seq<u32>) -> Seq<Seq<u32>> {
    accumulated_normals(vertices, indices, (indices.len() / 3) as int).map_values(
        |w: Seq<u32>| if vec3_length_positive_spec(w) {
            vec3_normalize_spec(w)
        } else {
            w
        },
    )
}

impl Geometry {
    /// Compute vertex normals by averaging per-face cross-product normals
    /// across all faces sharing a vertex, then renormalizing (normals of
    /// zero accumulated length are kept as they are).
    pub fn calculate_normals(vertices: &[Vec3], indices: &[u32]) -> (r: Vec<Vec3>)
        requires
            indices@.len() % 3 == 0,
            forall|i: int| 0 <= i < indices@.len() ==> indices@[i] < vertices@.len(),
        ensures
            r@.len() == vertices@.len(),
            words_of(r@) == normals_spec(vertices@, indices@),
    {
        let nv = vertices.len();
        let mut normals: Vec<Vec3> = Vec::new();
        let mut i: usize = 0;
        while i < nv
            invariant
                i <= nv,
                normals@.len() == i,
                forall|j: int| 0 <= j < i ==> normals@[j] == Vec3::zero_spec(),
            decreases nv - i,
        {
            normals.push(Vec3::zero());
            i += 1;
        }
        proof {
            assert(words_of(normals@) =~= accumulated_normals(vertices@, indices@, 0));
        }
        let nf = indices.len() / 3;
        let mut f: usize = 0;
        while f < nf
            invariant
                f <= nf,
                nf == indices@.len() / 3,
                3 * nf == indices@.len(),
                indices@.len() <= usize::MAX,
                forall|j: int| 0 <= j < indices@.len() ==> indices@[j] < vertices@.len(),
                normals@.len() == vertices@.len(),
                words_of(normals@) == accumulated_normals(vertices@, indices@, f as int),
            decreases nf - f,
        {
            proof {
                assert(3 * (f as int) + 2 < indices@.len());
            }
            let i0 = indices[3 * f] as usize;
            let i1 = indices[3 * f + 1] as usize;
            let i2 = indices[3 * f + 2] as usize;
            let v0 = vertices[i0];
            let v1 = vertices[i1];
            let v2 = vertices[i2];
            let face = vec3_normalize(vec3_cross(vec3_sub(v1, v0), vec3_sub(v2, v0)));
            proof {
                assert(face.words() == face_normal(vertices@, indices@, f as int));
            }
            let ghost ns0 = words_of(normals@);
            let a0 = vec3_add(normals[i0], face);
            normals.set(i0, a0);
            proof {
                assert(words_of(normals@) =~= ns0.update(
                    i0 as int,
                    vec3_add_spec(ns0[i0 as int], face.words()),
                ));
            }
            let ghost ns1 = words_of(normals@);
            let a1 = vec3_add(normals[i1], face);
            normals.set(i1, a1);
            proof {
                assert(words_of(normals@) =~= ns1.update(
                    i1 as int,
                    vec3_add_spec(ns1[i1 as int], face.words()),
                ));
            }
            let ghost ns2 = words_of(normals@);
            let a2 = vec3_add(normals[i2], face);
            normals.set(i2, a2);
            proof {
                assert(words_of(normals@) =~= ns2.update(
                    i2 as int,
                    vec3_add_spec(ns2[i2 as int], face.words()),
                ));
                assert(words_of(normals@) == add_face_normal(ns0, vertices@, indices@, f as int));
                assert(words_of(normals@) == accumulated_normals(
                    vertices@,
                    indices@,
                    f as int + 1,
                ));
            }
            f += 1;
        }
        let ghost acc = words_of(normals@);
        proof {
            assert(acc == accumulated_normals(vertices@, indices@, (indices@.len() / 3) as int));
        }
        let n = normals.len();
        let mut i: usize = 0;
        while i < n
            invariant
                i <= n,
                n == normals@.len(),
                acc.len() == n,
                forall|j: int| i <= j < n ==> words_of(normals@)[j] == acc[j],
                forall|j: int|
                    0 <= j < i ==> words_of(normals@)[j] == (if vec3_length_positive_spec(
                        acc[j],
                    ) {
                        vec3_normalize_spec(acc[j])
                    } else {
                        acc[j]
                    }),
            decreases n - i,
        {
            proof {
                assert(normals@[i as int].words() == words_of(normals@)[i as int]);
                assert(normals@[i as int].words() == acc[i as int]);
            }
            if vec3_length_positive(normals[i]) {
                let renormalized = vec3_normalize(normals[i]);
                let ghost before = normals@;
                normals.set(i, renormalized);
                proof {
                    assert forall|j: int| 0 <= j < n && j != i as int implies words_of(
                        normals@,
                    )[j] == words_of(before)[j] by {
                        assert(normals@[j] == before[j]);
                    }
                    assert(words_of(normals@)[i as int] == vec3_normalize_spec(acc[i as int]));
                    assert forall|j: int| 0 <= j < i as int + 1 implies words_of(normals@)[j]
                        == (if vec3_length_positive_spec(acc[j]) {
                        vec3_normalize_spec(acc[j])
                    } else {
                        acc[j]
                    }) by {
                        if j != i as int {
                            assert(words_of(before)[j] == (if vec3_length_positive_spec(acc[j]) {
                                vec3_normalize_spec(acc[j])
                            } else {
                                acc[j]
                            }));
                        }
                    }
                }
            } else {
                proof {
                    assert(words_of(normals@)[i as int] == acc[i as int]);
                    assert forall|j: int| 0 <= j < i as int + 1 implies words_of(normals@)[j]
                        == (if vec3_length_positive_spec(acc[j]) {
                        vec3_normalize_spec(acc[j])
                    } else {
                        acc[j]
                    }) by {}
                }
            }
            i += 1;
        }
        proof {
            assert(words_of(normals@) =~= normals_spec(vertices@, indices@));
        }
        normals
    }
}


} // verus!
