//! Logical, GPU-agnostic scene-graph nodes.
//!
//! A node holds an id, optional geometry and material references (by id,
//! never by owning pointer), and a transform.  The host mutates nodes; the
//! scene consumes them and owns the derived GPU state.

use vstd::prelude::*;

use crate::resource::{Id, Resource};
use crate::scene::{normal_matrix_words, transform_matrix_words, transform_update_post, Scene};
use crate::units::{Quat, Scale, Vec3};

verus! {

/// A node that pushes its transform mutations straight into its subject's
/// already-allocated GPU buffers: the host-visible field changes, and the
/// affected matrices are rewritten in place — the buffers backing the
/// bindings are never reallocated.
pub trait SceneTransform: Transform + Resource {
    fn update_pos(&mut self, scene: &mut Scene, pos: Vec3)
        requires
            old(scene).wf(),
        ensures
            final(scene).wf(),
            final(self).spec_pos() == pos,
            final(self).spec_rot() == old(self).spec_rot(),
            final(self).spec_scale() == old(self).spec_scale(),
            final(self).spec_id() == old(self).spec_id(),
            transform_update_post(
                *old(scene),
                *final(scene),
                old(self).spec_id(),
                transform_matrix_words(pos, old(self).spec_rot()),
                normal_matrix_words(old(self).spec_rot()),
            ),
    ;

    fn update_rot(&mut self, scene: &mut Scene, rot: Quat)
        requires
            old(scene).wf(),
        ensures
            final(scene).wf(),
            final(self).spec_rot() == rot,
            final(self).spec_pos() == old(self).spec_pos(),
            final(self).spec_scale() == old(self).spec_scale(),
            final(self).spec_id() == old(self).spec_id(),
            transform_update_post(
                *old(scene),
                *final(scene),
                old(self).spec_id(),
                transform_matrix_words(old(self).spec_pos(), rot),
                normal_matrix_words(rot),
            ),
    ;

    /// The scale is recorded on the node but deliberately not folded into
    /// the transform matrix: the matrices are rewritten from position and
    /// rotation alone.
    fn update_scale(&mut self, scene: &mut Scene, scale: Scale)
        requires
            old(scene).wf(),
        ensures
            final(scene).wf(),
            final(self).spec_scale() == scale,
            final(self).spec_pos() == old(self).spec_pos(),
            final(self).spec_rot() == old(self).spec_rot(),
            final(self).spec_id() == old(self).spec_id(),
            transform_update_post(
                *old(scene),
                *final(scene),
                old(self).spec_id(),
                transform_matrix_words(old(self).spec_pos(), old(self).spec_rot()),
                normal_matrix_words(old(self).spec_rot()),
            ),
    ;
}

/// Spatial state of a node: position, rotation and scale.
pub trait Transform {
    spec fn spec_pos(&self) -> Vec3;

    spec fn spec_rot(&self) -> Quat;

    spec fn spec_scale(&self) -> Scale;

    fn pos(&self) -> (r: &Vec3)
        ensures
            *r == self.spec_pos(),
    ;

    fn rot(&self) -> (r: &Quat)
        ensures
            *r == self.spec_rot(),
    ;

    fn scale(&self) -> (r: &Scale)
        ensures
            *r == self.spec_scale(),
    ;

    fn set_pos(&mut self, pos: Vec3)
        ensures
            final(self).spec_pos() == pos,
            final(self).spec_rot() == old(self).spec_rot(),
            final(self).spec_scale() == old(self).spec_scale(),
    ;

    fn set_rot(&mut self, rot: Quat)
        ensures
            final(self).spec_rot() == rot,
            final(self).spec_pos() == old(self).spec_pos(),
            final(self).spec_scale() == old(self).spec_scale(),
    ;

    fn set_scale(&mut self, scale: Scale)
        ensures
            final(self).spec_scale() == scale,
            final(self).spec_pos() == old(self).spec_pos(),
            final(self).spec_rot() == old(self).spec_rot(),
    ;
}

/// A renderable node: an identified transform plus optional geometry and
/// material references.  Mutating a reference never changes the node's
/// own identity.
pub trait Object3D: Transform + Resource {
    spec fn spec_geometry_id(&self) -> Option<Id>;

    spec fn spec_material_id(&self) -> Option<Id>;

    fn geometry_id(&self) -> (r: Option<Id>)
        ensures
            r == self.spec_geometry_id(),
    ;

    fn material_id(&self) -> (r: Option<Id>)
        ensures
            r == self.spec_material_id(),
    ;

    fn set_geometry_id(&mut self, geometry_id: Id)
        ensures
            final(self).spec_geometry_id() == Some(geometry_id),
            final(self).spec_material_id() == old(self).spec_material_id(),
            final(self).spec_id() == old(self).spec_id(),
            final(self).spec_pos() == old(self).spec_pos(),
            final(self).spec_rot() == old(self).spec_rot(),
            final(self).spec_scale() == old(self).spec_scale(),
    ;

    fn set_material_id(&mut self, material_id: Id)
        ensures
            final(self).spec_material_id() == Some(material_id),
            final(self).spec_geometry_id() == old(self).spec_geometry_id(),
            final(self).spec_id() == old(self).spec_id(),
            final(self).spec_pos() == old(self).spec_pos(),
            final(self).spec_rot() == old(self).spec_rot(),
            final(self).spec_scale() == old(self).spec_scale(),
    ;
}

/// An ordinary mesh node.
#[derive(Debug, Clone, Copy)]
pub struct Mesh {
    pub id: Id,
    pub geometry_id: Option<Id>,
    pub material_id: Option<Id>,
    pub scale: Scale,
    pub position: Vec3,
    pub rotation: Quat,
}

/// Builder for [`Mesh`]; every field has a default, the id is generated at
/// build time.
#[derive(Debug, Clone, Copy, Default)]
pub struct MeshBuilder {
    pub geometry_id: Option<Id>,
    pub material_id: Option<Id>,
    pub scale: Option<Scale>,
    pub position: Option<Vec3>,
    pub rotation: Option<Quat>,
}

impl MeshBuilder {
    pub fn geometry_id(self, geometry_id: Id) -> (r: Self)
        ensures
            r == (MeshBuilder { geometry_id: Some(geometry_id), ..self }),
    {
        MeshBuilder { geometry_id: Some(geometry_id), ..self }
    }

    pub fn material_id(self, material_id: Id) -> (r: Self)
        ensures
            r == (MeshBuilder { material_id: Some(material_id), ..self }),
    {
        MeshBuilder { material_id: Some(material_id), ..self }
    }

    pub fn scale(self, scale: Scale) -> (r: Self)
        ensures
            r == (MeshBuilder { scale: Some(scale), ..self }),
    {
        MeshBuilder { scale: Some(scale), ..self }
    }

    pub fn position(self, position: Vec3) -> (r: Self)
        ensures
            r == (MeshBuilder { position: Some(position), ..self }),
    {
        MeshBuilder { position: Some(position), ..self }
    }

    pub fn rotation(self, rotation: Quat) -> (r: Self)
        ensures
            r == (MeshBuilder { rotation: Some(rotation), ..self }),
    {
        MeshBuilder { rotation: Some(rotation), ..self }
    }

    /// Defaults: unit scale, the origin, the identity rotation.
    pub fn build(self) -> (r: Mesh)
        ensures
            r.id.0 != 0,
            r.geometry_id == self.geometry_id,
            r.material_id == self.material_id,
            r.scale == (match self.scale {
                Some(s) => s,
                None => Scale::unit_spec(),
            }),
            r.position == (match self.position {
                Some(p) => p,
                None => Vec3::zero_spec(),
            }),
            r.rotation == (match self.rotation {
                Some(q) => q,
                None => Quat::identity_spec(),
            }),
    {
        Mesh {
            id: Id::new(),
            geometry_id: self.geometry_id,
            material_id: self.material_id,
            scale: match self.scale {
                Some(s) => s,
                None => Scale { width: crate::units::F32_ONE_BITS, height: crate::units::F32_ONE_BITS, depth: crate::units::F32_ONE_BITS },
            },
            position: match self.position {
                Some(p) => p,
                None => Vec3::zero(),
            },
            rotation: match self.rotation {
                Some(q) => q,
                None => Quat::identity(),
            },
        }
    }
}

impl Mesh {
    pub fn builder() -> (r: MeshBuilder)
        ensures
            r == (MeshBuilder {
                geometry_id: None::<Id>,
                material_id: None::<Id>,
                scale: None::<Scale>,
                position: None::<Vec3>,
                rotation: None::<Quat>,
            }),
    {
        MeshBuilder {
            geometry_id: None,
            material_id: None,
            scale: None,
            position: None,
            rotation: None,
        }
    }
}

impl Resource for Mesh {
    open spec fn spec_id(&self) -> Id {
        self.id
    }

    fn id(&self) -> (r: Id) {
        self.id
    }
}

impl Transform for Mesh {
    open spec fn spec_pos(&self) -> Vec3 {
        self.position
    }

    open spec fn spec_rot(&self) -> Quat {
        self.rotation
    }

    open spec fn spec_scale(&self) -> Scale {
        self.scale
    }

    fn pos(&self) -> (r: &Vec3) {
        &self.position
    }

    fn rot(&self) -> (r: &Quat) {
        &self.rotation
    }

    fn scale(&self) -> (r: &Scale) {
        &self.scale
    }

    fn set_pos(&mut self, pos: Vec3) {
        self.position = pos;
    }

    fn set_rot(&mut self, rot: Quat) {
        self.rotation = rot;
    }

    fn set_scale(&mut self, scale: Scale) {
        self.scale = scale;
    }
}

impl Object3D for Mesh {
    open spec fn spec_geometry_id(&self) -> Option<Id> {
        self.geometry_id
    }

    open spec fn spec_material_id(&self) -> Option<Id> {
        self.material_id
    }

    fn geometry_id(&self) -> (r: Option<Id>) {
        self.geometry_id
    }

    fn material_id(&self) -> (r: Option<Id>) {
        self.material_id
    }

    fn set_geometry_id(&mut self, geometry_id: Id) {
        self.geometry_id = Some(geometry_id);
    }

    fn set_material_id(&mut self, material_id: Id) {
        self.material_id = Some(material_id);
    }
}


impl SceneTransform for Mesh {
    fn update_pos(&mut self, scene: &mut Scene, pos: Vec3) {
        self.position = pos;
        let transform_words = crate::scene::build_transform_words(pos, self.rotation);
        let normal_words = crate::scene::build_normal_words(self.rotation);
        scene.write_transform(self.id, transform_words, normal_words);
    }

    fn update_rot(&mut self, scene: &mut Scene, rot: Quat) {
        self.rotation = rot;
        let transform_words = crate::scene::build_transform_words(self.position, rot);
        let normal_words = crate::scene::build_normal_words(rot);
        scene.write_transform(self.id, transform_words, normal_words);
    }

    fn update_scale(&mut self, scene: &mut Scene, scale: Scale) {
        self.scale = scale;
        let transform_words = crate::scene::build_transform_words(self.position, self.rotation);
        let normal_words = crate::scene::build_normal_words(self.rotation);
        scene.write_transform(self.id, transform_words, normal_words);
    }
}


} // verus!
