//! Content-addressed resource loaders.
//!
//! Each loader is an insertion-ordered store from a resource's own id to
//! the resource.  Insertion under an existing id overwrites in place
//! without reordering; lookup of an absent id is a normal outcome, not an
//! error.  There is no eviction and no reference counting.

use vstd::prelude::*;

use crate::geometry::{Geometry, Vertex};
use crate::kv::{
    kv_distinct_keys, kv_get, kv_insert, lemma_kv_index_of_absent, lemma_kv_index_of_found,
};
use crate::material::Material;
use crate::resource::{Id, TextureId};
use crate::texture::Texture;
use crate::units::{Quat, Vec2, Vec3};

verus! {

/// The content-addressed store of geometry resources.
#[derive(Default)]
pub struct GeometryLoader {
    pub entries: Vec<(Id, Geometry)>,
}

impl GeometryLoader {
    /// Keys are pairwise distinct; every constructor establishes this and
    /// every method preserves it.
    pub open spec fn wf(self) -> bool {
        kv_distinct_keys(self.entries@)
    }

    pub fn new() -> (r: GeometryLoader)
        ensures
            r.wf(),
            r.entries@ == Seq::<(Id, Geometry)>::empty(),
    {
        GeometryLoader { entries: Vec::new() }
    }

    /// Store a geometry under its own id, overwriting in place if the id is
    /// already present.
    pub fn insert(&mut self, geometry: Geometry)
        requires
            old(self).wf(),
        ensures
            final(self).wf(),
            final(self).entries@ == kv_insert(old(self).entries@, geometry.id, geometry),
    {
        let ghost s0 = self.entries@;
        let id = geometry.id;
        let n = self.entries.len();
        let mut i: usize = 0;
        while i < n
            invariant
                self.entries@ == s0,
                s0 == old(self).entries@,
                kv_distinct_keys(s0),
                id == geometry.id,
                n == s0.len(),
                i <= n,
                forall|j: int| 0 <= j < i ==> s0[j].0 != id,
            decreases n - i,
        {
            if self.entries[i].0 == id {
                proof {
                    lemma_kv_index_of_found(s0, id, i as int);
                }
                self.entries.set(i, (id, geometry));
                return ;
            }
            i += 1;
        }
        proof {
            lemma_kv_index_of_absent(s0, id);
        }
        self.entries.push((id, geometry));
    }

    /// Resolve an id; absence is a normal outcome.
    pub fn get_from_id(&self, id: Id) -> (r: Option<&Geometry>)
        ensures
            match r {
                Some(g) => kv_get(self.entries@, id) == Some(*g),
                None => kv_get(self.entries@, id) is None,
            },
    {
        let ghost s0 = self.entries@;
        let n = self.entries.len();
        let mut i: usize = 0;
        while i < n
            invariant
                self.entries@ == s0,
                n == s0.len(),
                i <= n,
                forall|j: int| 0 <= j < i ==> s0[j].0 != id,
            decreases n - i,
        {
            if self.entries[i].0 == id {
                proof {
                    lemma_kv_index_of_found(s0, id, i as int);
                }
                return Some(&self.entries[i].1);
            }
            i += 1;
        }
        proof {
            lemma_kv_index_of_absent(s0, id);
        }
        None
    }
}

/// The content-addressed store of material resources.
#[derive(Default)]
pub struct MaterialLoader {
    pub entries: Vec<(Id, Material)>,
}

impl MaterialLoader {
    /// Keys are pairwise distinct.
    pub open spec fn wf(self) -> bool {
        kv_distinct_keys(self.entries@)
    }

    pub fn new() -> (r: MaterialLoader)
        ensures
            r.wf(),
            r.entries@ == Seq::<(Id, Material)>::empty(),
    {
        MaterialLoader { entries: Vec::new() }
    }

    /// Store a material under its own id, overwriting in place if the id is
    /// already present.
    pub fn insert(&mut self, material: Material)
        requires
            old(self).wf(),
        ensures
            final(self).wf(),
            final(self).entries@ == kv_insert(old(self).entries@, material.id, material),
    {
        let ghost s0 = self.entries@;
        let id = material.id;
        let n = self.entries.len();
        let mut i: usize = 0;
        while i < n
            invariant
                self.entries@ == s0,
                s0 == old(self).entries@,
                kv_distinct_keys(s0),
                id == material.id,
                n == s0.len(),
                i <= n,
                forall|j: int| 0 <= j < i ==> s0[j].0 != id,
            decreases n - i,
        {
            if self.entries[i].0 == id {
                proof {
                    lemma_kv_index_of_found(s0, id, i as int);
                }
                self.entries.set(i, (id, material));
                return ;
            }
            i += 1;
        }
        proof {
            lemma_kv_index_of_absent(s0, id);
        }
        self.entries.push((id, material));
    }

    /// Resolve an id; absence is a normal outcome.
    pub fn get_from_id(&self, id: Id) -> (r: Option<&Material>)
        ensures
            match r {
                Some(m) => kv_get(self.entries@, id) == Some(*m),
                None => kv_get(self.entries@, id) is None,
            },
    {
        let ghost s0 = self.entries@;
        let n = self.entries.len();
        let mut i: usize = 0;
        while i < n
            invariant
                self.entries@ == s0,
                n == s0.len(),
                i <= n,
                forall|j: int| 0 <= j < i ==> s0[j].0 != id,
            decreases n - i,
        {
            if self.entries[i].0 == id {
                proof {
                    lemma_kv_index_of_found(s0, id, i as int);
                }
                return Some(&self.entries[i].1);
            }
            i += 1;
        }
        proof {
            lemma_kv_index_of_absent(s0, id);
        }
        None
    }
}

/// The content-addressed store of texture resources.
#[derive(Default)]
pub struct TextureLoader {
    pub entries: Vec<(TextureId, Texture)>,
}

impl TextureLoader {
    /// Keys are pairwise distinct.
    pub open spec fn wf(self) -> bool {
        kv_distinct_keys(self.entries@)
    }

    pub fn new() -> (r: TextureLoader)
        ensures
            r.wf(),
            r.entries@ == Seq::<(TextureId, Texture)>::empty(),
    {
        TextureLoader { entries: Vec::new() }
    }

    /// Store a texture under its own id, overwriting in place if the id is
    /// already present.
    pub fn insert(&mut self, texture: Texture)
        requires
            old(self).wf(),
        ensures
            final(self).wf(),
            final(self).entries@ == kv_insert(old(self).entries@, texture.id, texture),
    {
        let ghost s0 = self.entries@;
        let id = texture.id;
        let n = self.entries.len();
        let mut i: usize = 0;
        while i < n
            invariant
                self.entries@ == s0,
                s0 == old(self).entries@,
                kv_distinct_keys(s0),
                id == texture.id,
                n == s0.len(),
                i <= n,
                forall|j: int| 0 <= j < i ==> s0[j].0 != id,
            decreases n - i,
        {
            if self.entries[i].0 == id {
                proof {
                    lemma_kv_index_of_found(s0, id, i as int);
                }
                self.entries.set(i, (id, texture));
                return ;
            }
            i += 1;
        }
        proof {
            lemma_kv_index_of_absent(s0, id);
        }
        self.entries.push((id, texture));
    }

    /// Resolve an id; absence is a normal outcome.
    pub fn get_from_id(&self, id: TextureId) -> (r: Option<&Texture>)
        ensures
            match r {
                Some(t) => kv_get(self.entries@, id) == Some(*t),
                None => kv_get(self.entries@, id) is None,
            },
    {
        let ghost s0 = self.entries@;
        let n = self.entries.len();
        let mut i: usize = 0;
        while i < n
            invariant
                self.entries@ == s0,
                n == s0.len(),
                i <= n,
                forall|j: int| 0 <= j < i ==> s0[j].0 != id,
            decreases n - i,
        {
            if self.entries[i].0 == id {
                proof {
                    lemma_kv_index_of_found(s0, id, i as int);
                }
                return Some(&self.entries[i].1);
            }
            i += 1;
        }
        proof {
            lemma_kv_index_of_absent(s0, id);
        }
        None
    }
}


/// The decomposed transform of an imported scene node: translation,
/// rotation and per-axis scale.
#[derive(Debug, PartialEq, Eq, Structural, Clone, Copy)]
pub struct LoadedTransform {
    pub translation: Vec3,
    pub rotation: Quat,
    pub scale: Vec3,
}

/// The vertex an import assembles at position `i`: attributes beyond the
/// end of their stream are zero-filled.
pub open spec fn assembled_vertex(
    positions: Seq<Vec3>,
    normals: Seq<Vec3>,
    tex_coords: Seq<Vec2>,
    i: int,
) -> Vertex {
    Vertex {
        position: if i < positions.len() {
            positions[i]
        } else {
            Vec3::zero_spec()
        },
        normal: if i < normals.len() {
            normals[i]
        } else {
            Vec3::zero_spec()
        },
        tex_coords: if i < tex_coords.len() {
            tex_coords[i]
        } else {
            Vec2::zero_spec()
        },
    }
}

/// How many vertices an import assembles: as many as the longest stream.
pub open spec fn assembled_len(
    positions: Seq<Vec3>,
    normals: Seq<Vec3>,
    tex_coords: Seq<Vec2>,
) -> nat {
    let pn = if positions.len() >= normals.len() {
        positions.len()
    } else {
        normals.len()
    };
    if pn >= tex_coords.len() {
        pn
    } else {
        tex_coords.len()
    }
}

/// Zip imported per-primitive attribute streams into a vertex list: one
/// vertex per index of the longest stream, with attributes missing from a
/// shorter stream zero-filled.
pub fn assemble_vertices(
    positions: &Vec<Vec3>,
    normals: &Vec<Vec3>,
    tex_coords: &Vec<Vec2>,
) -> (r: Vec<Vertex>)
    ensures
        r@.len() == assembled_len(positions@, normals@, tex_coords@),
        forall|i: int|
            0 <= i < r@.len() ==> r@[i] == assembled_vertex(
                positions@,
                normals@,
                tex_coords@,
                i,
            ),
{
    let mut n = positions.len();
    if normals.len() > n {
        n = normals.len();
    }
    if tex_coords.len() > n {
        n = tex_coords.len();
    }
    let mut r: Vec<Vertex> = Vec::new();
    let mut i: usize = 0;
    while i < n
        invariant
            i <= n,
            n == assembled_len(positions@, normals@, tex_coords@),
            r@.len() == i,
            forall|j: int|
                0 <= j < i ==> r@[j] == assembled_vertex(positions@, normals@, tex_coords@, j),
        decreases n - i,
    {
        let position = if i < positions.len() {
            positions[i]
        } else {
            Vec3::zero()
        };
        let normal = if i < normals.len() {
            normals[i]
        } else {
            Vec3::zero()
        };
        let tex = if i < tex_coords.len() {
            tex_coords[i]
        } else {
            Vec2::zero()
        };
        r.push(Vertex { position, normal, tex_coords: tex });
        i += 1;
    }
    r
}


} // verus!
