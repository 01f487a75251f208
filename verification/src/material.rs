//! Materials: shader identity plus packed uniform data.
//!
//! A material resolves to a shader source pair, a uniform bind-group layout
//! kind, and the packed contents of its uniform buffer (carried as 32-bit
//! words).  The built-in kinds (basic, phong, physically based) share fixed
//! shader pairs; a custom material carries its own shader text.  The scene's
//! pipeline cache is keyed by shader pair, layout and the
//! has-diffuse-texture flag, so materials of the same kind and texturing
//! share one compiled pipeline even when their ids differ.

use vstd::prelude::*;

use crate::resource::{Id, TextureId};
use crate::units::{Vec4, F32_ONE_BITS, F32_ZERO_BITS};

verus! {

/// Identity of one shader module.  The built-in variants stand for the
/// engine's bundled shader sources; a custom shader carries its text.
#[derive(Debug, Clone)]
pub enum ShaderSource {
    BasicVertex,
    BasicFragment,
    BasicTexturedFragment,
    PhongVertex,
    PhongFragment,
    PhongTexturedFragment,
    PbrVertex,
    PbrFragment,
    PbrTexturedFragment,
    Custom(Vec<u8>),
}

/// The mathematical value of a [`ShaderSource`]: the same variants with the
/// custom shader text as a sequence.
pub enum ShaderSourceView {
    BasicVertex,
    BasicFragment,
    BasicTexturedFragment,
    PhongVertex,
    PhongFragment,
    PhongTexturedFragment,
    PbrVertex,
    PbrFragment,
    PbrTexturedFragment,
    Custom(Seq<u8>),
}

impl View for ShaderSource {
    type V = ShaderSourceView;

    open spec fn view(&self) -> ShaderSourceView {
        match self {
            ShaderSource::BasicVertex => ShaderSourceView::BasicVertex,
            ShaderSource::BasicFragment => ShaderSourceView::BasicFragment,
            ShaderSource::BasicTexturedFragment => ShaderSourceView::BasicTexturedFragment,
            ShaderSource::PhongVertex => ShaderSourceView::PhongVertex,
            ShaderSource::PhongFragment => ShaderSourceView::PhongFragment,
            ShaderSource::PhongTexturedFragment => ShaderSourceView::PhongTexturedFragment,
            ShaderSource::PbrVertex => ShaderSourceView::PbrVertex,
            ShaderSource::PbrFragment => ShaderSourceView::PbrFragment,
            ShaderSource::PbrTexturedFragment => ShaderSourceView::PbrTexturedFragment,
            ShaderSource::Custom(text) => ShaderSourceView::Custom(text@),
        }
    }
}

impl ShaderSource {
    /// Equality of shader identity, usable from executable code.
    pub fn matches(&self, other: &ShaderSource) -> (r: bool)
        ensures
            r == (self@ == other@),
    {
        match (self, other) {
            (ShaderSource::BasicVertex, ShaderSource::BasicVertex) => true,
            (ShaderSource::BasicFragment, ShaderSource::BasicFragment) => true,
            (ShaderSource::BasicTexturedFragment, ShaderSource::BasicTexturedFragment) => true,
            (ShaderSource::PhongVertex, ShaderSource::PhongVertex) => true,
            (ShaderSource::PhongFragment, ShaderSource::PhongFragment) => true,
            (ShaderSource::PhongTexturedFragment, ShaderSource::PhongTexturedFragment) => true,
            (ShaderSource::PbrVertex, ShaderSource::PbrVertex) => true,
            (ShaderSource::PbrFragment, ShaderSource::PbrFragment) => true,
            (ShaderSource::PbrTexturedFragment, ShaderSource::PbrTexturedFragment) => true,
            (ShaderSource::Custom(a), ShaderSource::Custom(b)) => bytes_equal(a, b),
            _ => false,
        }
    }
}

impl ShaderSource {
    /// A copy with the same shader identity.
    pub fn duplicate(&self) -> (r: ShaderSource)
        ensures
            r@ == self@,
    {
        match self {
            ShaderSource::BasicVertex => ShaderSource::BasicVertex,
            ShaderSource::BasicFragment => ShaderSource::BasicFragment,
            ShaderSource::BasicTexturedFragment => ShaderSource::BasicTexturedFragment,
            ShaderSource::PhongVertex => ShaderSource::PhongVertex,
            ShaderSource::PhongFragment => ShaderSource::PhongFragment,
            ShaderSource::PhongTexturedFragment => ShaderSource::PhongTexturedFragment,
            ShaderSource::PbrVertex => ShaderSource::PbrVertex,
            ShaderSource::PbrFragment => ShaderSource::PbrFragment,
            ShaderSource::PbrTexturedFragment => ShaderSource::PbrTexturedFragment,
            ShaderSource::Custom(text) => {
                let c = text.clone();
                proof {
                    assert(c@ =~= text@);
                }
                ShaderSource::Custom(c)
            },
        }
    }
}

/// Byte-wise equality of two byte vectors.
fn bytes_equal(a: &Vec<u8>, b: &Vec<u8>) -> (r: bool)
    ensures
        r == (a@ == b@),
{
    if a.len() != b.len() {
        return false;
    }
    let mut i: usize = 0;
    while i < a.len()
        invariant
            i <= a.len(),
            a.len() == b.len(),
            forall|j: int| 0 <= j < i ==> a@[j] == b@[j],
        decreases a.len() - i,
    {
        if a[i] != b[i] {
            return false;
        }
        i += 1;
    }
    proof {
        assert(a@ =~= b@);
    }
    true
}

/// The bind-group layout of a material's uniform slot: one uniform buffer
/// binding, or no bindings at all (custom shader materials bind no uniform
/// data).
#[derive(Debug, PartialEq, Eq, Structural, Clone, Copy)]
pub enum LayoutKind {
    SingleUniform,
    Empty,
}

/// A resolved material resource.
#[derive(Debug, Clone)]
pub struct Material {
    pub id: Id,
    pub diffuse_map_texture_id: Option<TextureId>,
    pub normal_map_texture_id: Option<TextureId>,
    pub vertex_shader: ShaderSource,
    pub fragment_shader: ShaderSource,
    /// Packed uniform data, four bytes per word.
    pub fragment_data: Vec<u32>,
    pub fragment_data_layout: LayoutKind,
}

impl Material {
    pub fn id(&self) -> (r: &Id)
        ensures
            *r == self.id,
    {
        &self.id
    }

    pub fn diffuse_map_texture_id(&self) -> (r: &Option<TextureId>)
        ensures
            *r == self.diffuse_map_texture_id,
    {
        &self.diffuse_map_texture_id
    }

    pub fn normal_map_texture_id(&self) -> (r: &Option<TextureId>)
        ensures
            *r == self.normal_map_texture_id,
    {
        &self.normal_map_texture_id
    }
}

/// A material description that can resolve itself into a [`Material`].
/// The spec functions give each field of the resolved material; only the id
/// is generated at resolution time.
pub trait ToMaterial {
    spec fn spec_diffuse_map_texture_id(&self) -> Option<TextureId>;

    spec fn spec_normal_map_texture_id(&self) -> Option<TextureId>;

    spec fn spec_vertex_shader(&self) -> ShaderSourceView;

    spec fn spec_fragment_shader(&self) -> ShaderSourceView;

    spec fn spec_fragment_data(&self) -> Seq<u32>;

    spec fn spec_fragment_data_layout(&self) -> LayoutKind;

    /// Resolve into a material with a freshly generated id.
    fn to_material(&self) -> (r: Material)
        ensures
            r.id.0 != 0,
            r.diffuse_map_texture_id == self.spec_diffuse_map_texture_id(),
            r.normal_map_texture_id == self.spec_normal_map_texture_id(),
            r.vertex_shader@ == self.spec_vertex_shader(),
            r.fragment_shader@ == self.spec_fragment_shader(),
            r.fragment_data@ == self.spec_fragment_data(),
            r.fragment_data_layout == self.spec_fragment_data_layout(),
    ;
}

/// An unlit single-color material.
#[derive(Debug, Clone, Copy)]
pub struct BasicMaterial {
    pub diffuse_map_texture_id: Option<TextureId>,
    pub normal_map_texture_id: Option<TextureId>,
    pub color: Vec4,
}

/// Builder for [`BasicMaterial`]; every field has a default.
#[derive(Debug, Clone, Copy, Default)]
pub struct BasicMaterialBuilder {
    pub diffuse_map_texture_id: Option<TextureId>,
    pub normal_map_texture_id: Option<TextureId>,
    pub color: Option<Vec4>,
}

impl BasicMaterialBuilder {
    pub fn diffuse_map_texture_id(self, id: TextureId) -> (r: Self)
        ensures
            r == (BasicMaterialBuilder { diffuse_map_texture_id: Some(id), ..self }),
    {
        BasicMaterialBuilder { diffuse_map_texture_id: Some(id), ..self }
    }

    pub fn normal_map_texture_id(self, id: TextureId) -> (r: Self)
        ensures
            r == (BasicMaterialBuilder { normal_map_texture_id: Some(id), ..self }),
    {
        BasicMaterialBuilder { normal_map_texture_id: Some(id), ..self }
    }

    pub fn color(self, color: Vec4) -> (r: Self)
        ensures
            r == (BasicMaterialBuilder { color: Some(color), ..self }),
    {
        BasicMaterialBuilder { color: Some(color), ..self }
    }

    pub fn build(self) -> (r: BasicMaterial)
        ensures
            r.diffuse_map_texture_id == self.diffuse_map_texture_id,
            r.normal_map_texture_id == self.normal_map_texture_id,
            r.color == (match self.color {
                Some(c) => c,
                None => Vec4::zero_spec(),
            }),
    {
        BasicMaterial {
            diffuse_map_texture_id: self.diffuse_map_texture_id,
            normal_map_texture_id: self.normal_map_texture_id,
            color: match self.color {
                Some(c) => c,
                None => Vec4::zero(),
            },
        }
    }
}

impl BasicMaterial {
    pub fn builder() -> (r: BasicMaterialBuilder)
        ensures
            r == (BasicMaterialBuilder {
                diffuse_map_texture_id: None::<TextureId>,
                normal_map_texture_id: None::<TextureId>,
                color: None::<Vec4>,
            }),
    {
        BasicMaterialBuilder {
            diffuse_map_texture_id: None,
            normal_map_texture_id: None,
            color: None,
        }
    }

    /// An untextured basic material of the given color.
    pub fn with_color(color: Vec4) -> (r: BasicMaterial)
        ensures
            r == (BasicMaterial {
                diffuse_map_texture_id: None::<TextureId>,
                normal_map_texture_id: None::<TextureId>,
                color,
            }),
    {
        BasicMaterial { diffuse_map_texture_id: None, normal_map_texture_id: None, color }
    }
}

impl ToMaterial for BasicMaterial {
    open spec fn spec_diffuse_map_texture_id(&self) -> Option<TextureId> {
        self.diffuse_map_texture_id
    }

    open spec fn spec_normal_map_texture_id(&self) -> Option<TextureId> {
        self.normal_map_texture_id
    }

    open spec fn spec_vertex_shader(&self) -> ShaderSourceView {
        ShaderSourceView::BasicVertex
    }

    open spec fn spec_fragment_shader(&self) -> ShaderSourceView {
        if self.diffuse_map_texture_id is Some {
            ShaderSourceView::BasicTexturedFragment
        } else {
            ShaderSourceView::BasicFragment
        }
    }

    open spec fn spec_fragment_data(&self) -> Seq<u32> {
        self.color.words()
    }

    open spec fn spec_fragment_data_layout(&self) -> LayoutKind {
        LayoutKind::SingleUniform
    }

    fn to_material(&self) -> (r: Material) {
        let fragment_shader = if self.diffuse_map_texture_id.is_some() {
            ShaderSource::BasicTexturedFragment
        } else {
            ShaderSource::BasicFragment
        };
        let r = Material {
            id: Id::new(),
            diffuse_map_texture_id: self.diffuse_map_texture_id,
            normal_map_texture_id: self.normal_map_texture_id,
            vertex_shader: ShaderSource::BasicVertex,
            fragment_shader,
            fragment_data: vec![self.color.x, self.color.y, self.color.z, self.color.w],
            fragment_data_layout: LayoutKind::SingleUniform,
        };
        proof {
            assert(r.fragment_data@ =~= self.color.words());
        }
        r
    }
}

/// A lit material with ambient, diffuse and specular shading.
#[derive(Debug, Clone, Copy)]
pub struct PhongMaterial {
    pub diffuse_map_texture_id: Option<TextureId>,
    pub normal_map_texture_id: Option<TextureId>,
    pub color: Vec4,
}

/// Builder for [`PhongMaterial`]; every field has a default.
#[derive(Debug, Clone, Copy, Default)]
pub struct PhongMaterialBuilder {
    pub diffuse_map_texture_id: Option<TextureId>,
    pub normal_map_texture_id: Option<TextureId>,
    pub color: Option<Vec4>,
}

impl PhongMaterialBuilder {
    pub fn diffuse_map_texture_id(self, id: TextureId) -> (r: Self)
        ensures
            r == (PhongMaterialBuilder { diffuse_map_texture_id: Some(id), ..self }),
    {
        PhongMaterialBuilder { diffuse_map_texture_id: Some(id), ..self }
    }

    pub fn normal_map_texture_id(self, id: TextureId) -> (r: Self)
        ensures
            r == (PhongMaterialBuilder { normal_map_texture_id: Some(id), ..self }),
    {
        PhongMaterialBuilder { normal_map_texture_id: Some(id), ..self }
    }

    pub fn color(self, color: Vec4) -> (r: Self)
        ensures
            r == (PhongMaterialBuilder { color: Some(color), ..self }),
    {
        PhongMaterialBuilder { color: Some(color), ..self }
    }

    pub fn build(self) -> (r: PhongMaterial)
        ensures
            r.diffuse_map_texture_id == self.diffuse_map_texture_id,
            r.normal_map_texture_id == self.normal_map_texture_id,
            r.color == (match self.color {
                Some(c) => c,
                None => Vec4::zero_spec(),
            }),
    {
        PhongMaterial {
            diffuse_map_texture_id: self.diffuse_map_texture_id,
            normal_map_texture_id: self.normal_map_texture_id,
            color: match self.color {
                Some(c) => c,
                None => Vec4::zero(),
            },
        }
    }
}

impl PhongMaterial {
    pub fn builder() -> (r: PhongMaterialBuilder)
        ensures
            r == (PhongMaterialBuilder {
                diffuse_map_texture_id: None::<TextureId>,
                normal_map_texture_id: None::<TextureId>,
                color: None::<Vec4>,
            }),
    {
        PhongMaterialBuilder {
            diffuse_map_texture_id: None,
            normal_map_texture_id: None,
            color: None,
        }
    }

    /// An untextured phong material of the given color.
    pub fn with_color(color: Vec4) -> (r: PhongMaterial)
        ensures
            r == (PhongMaterial {
                diffuse_map_texture_id: None::<TextureId>,
                normal_map_texture_id: None::<TextureId>,
                color,
            }),
    {
        PhongMaterial { diffuse_map_texture_id: None, normal_map_texture_id: None, color }
    }
}

impl ToMaterial for PhongMaterial {
    open spec fn spec_diffuse_map_texture_id(&self) -> Option<TextureId> {
        self.diffuse_map_texture_id
    }

    open spec fn spec_normal_map_texture_id(&self) -> Option<TextureId> {
        self.normal_map_texture_id
    }

    open spec fn spec_vertex_shader(&self) -> ShaderSourceView {
        ShaderSourceView::PhongVertex
    }

    open spec fn spec_fragment_shader(&self) -> ShaderSourceView {
        if self.diffuse_map_texture_id is Some {
            ShaderSourceView::PhongTexturedFragment
        } else {
            ShaderSourceView::PhongFragment
        }
    }

    open spec fn spec_fragment_data(&self) -> Seq<u32> {
        self.color.words()
    }

    open spec fn spec_fragment_data_layout(&self) -> LayoutKind {
        LayoutKind::SingleUniform
    }

    fn to_material(&self) -> (r: Material) {
        let fragment_shader = if self.diffuse_map_texture_id.is_some() {
            ShaderSource::PhongTexturedFragment
        } else {
            ShaderSource::PhongFragment
        };
        let r = Material {
            id: Id::new(),
            diffuse_map_texture_id: self.diffuse_map_texture_id,
            normal_map_texture_id: self.normal_map_texture_id,
            vertex_shader: ShaderSource::PhongVertex,
            fragment_shader,
            fragment_data: vec![self.color.x, self.color.y, self.color.z, self.color.w],
            fragment_data_layout: LayoutKind::SingleUniform,
        };
        proof {
            assert(r.fragment_data@ =~= self.color.words());
        }
        r
    }
}

/// A physically based material: color plus roughness and metalness factors
/// (single-precision bit patterns).
#[derive(Debug, Clone, Copy)]
pub struct PbrMaterial {
    pub diffuse_map_texture_id: Option<TextureId>,
    pub normal_map_texture_id: Option<TextureId>,
    pub color: Vec4,
    pub metalness: u32,
    pub roughness: u32,
}

/// Builder for [`PbrMaterial`]; every field has a default.
#[derive(Debug, Clone, Copy, Default)]
pub struct PbrMaterialBuilder {
    pub diffuse_map_texture_id: Option<TextureId>,
    pub normal_map_texture_id: Option<TextureId>,
    pub color: Option<Vec4>,
    pub metalness: Option<u32>,
    pub roughness: Option<u32>,
}

impl PbrMaterialBuilder {
    pub fn diffuse_map_texture_id(self, id: TextureId) -> (r: Self)
        ensures
            r == (PbrMaterialBuilder { diffuse_map_texture_id: Some(id), ..self }),
    {
        PbrMaterialBuilder { diffuse_map_texture_id: Some(id), ..self }
    }

    pub fn normal_map_texture_id(self, id: TextureId) -> (r: Self)
        ensures
            r == (PbrMaterialBuilder { normal_map_texture_id: Some(id), ..self }),
    {
        PbrMaterialBuilder { normal_map_texture_id: Some(id), ..self }
    }

    pub fn color(self, color: Vec4) -> (r: Self)
        ensures
            r == (PbrMaterialBuilder { color: Some(color), ..self }),
    {
        PbrMaterialBuilder { color: Some(color), ..self }
    }

    pub fn metalness(self, metalness: u32) -> (r: Self)
        ensures
            r == (PbrMaterialBuilder { metalness: Some(metalness), ..self }),
    {
        PbrMaterialBuilder { metalness: Some(metalness), ..self }
    }

    pub fn roughness(self, roughness: u32) -> (r: Self)
        ensures
            r == (PbrMaterialBuilder { roughness: Some(roughness), ..self }),
    {
        PbrMaterialBuilder { roughness: Some(roughness), ..self }
    }

    /// Defaults: opaque white color, zero metalness, full roughness.
    pub fn build(self) -> (r: PbrMaterial)
        ensures
            r.diffuse_map_texture_id == self.diffuse_map_texture_id,
            r.normal_map_texture_id == self.normal_map_texture_id,
            r.color == (match self.color {
                Some(c) => c,
                None => Vec4::opaque_white_spec(),
            }),
            r.metalness == (match self.metalness {
                Some(m) => m,
                None => F32_ZERO_BITS,
            }),
            r.roughness == (match self.roughness {
                Some(m) => m,
                None => F32_ONE_BITS,
            }),
    {
        PbrMaterial {
            diffuse_map_texture_id: self.diffuse_map_texture_id,
            normal_map_texture_id: self.normal_map_texture_id,
            color: match self.color {
                Some(c) => c,
                None => Vec4::opaque_white(),
            },
            metalness: match self.metalness {
                Some(m) => m,
                None => F32_ZERO_BITS,
            },
            roughness: match self.roughness {
                Some(m) => m,
                None => F32_ONE_BITS,
            },
        }
    }
}

impl PbrMaterial {
    pub fn builder() -> (r: PbrMaterialBuilder)
        ensures
            r == (PbrMaterialBuilder {
                diffuse_map_texture_id: None::<TextureId>,
                normal_map_texture_id: None::<TextureId>,
                color: None::<Vec4>,
                metalness: None::<u32>,
                roughness: None::<u32>,
            }),
    {
        PbrMaterialBuilder {
            diffuse_map_texture_id: None,
            normal_map_texture_id: None,
            color: None,
            metalness: None,
            roughness: None,
        }
    }
}

impl ToMaterial for PbrMaterial {
    open spec fn spec_diffuse_map_texture_id(&self) -> Option<TextureId> {
        self.diffuse_map_texture_id
    }

    open spec fn spec_normal_map_texture_id(&self) -> Option<TextureId> {
        self.normal_map_texture_id
    }

    open spec fn spec_vertex_shader(&self) -> ShaderSourceView {
        ShaderSourceView::PbrVertex
    }

    open spec fn spec_fragment_shader(&self) -> ShaderSourceView {
        if self.diffuse_map_texture_id is Some {
            ShaderSourceView::PbrTexturedFragment
        } else {
            ShaderSourceView::PbrFragment
        }
    }

    /// Color, then roughness and metalness padded out to a full 16-byte
    /// vector.
    open spec fn spec_fragment_data(&self) -> Seq<u32> {
        self.color.words() + seq![self.roughness, self.metalness, F32_ZERO_BITS, F32_ZERO_BITS]
    }

    open spec fn spec_fragment_data_layout(&self) -> LayoutKind {
        LayoutKind::SingleUniform
    }

    fn to_material(&self) -> (r: Material) {
        let fragment_shader = if self.diffuse_map_texture_id.is_some() {
            ShaderSource::PbrTexturedFragment
        } else {
            ShaderSource::PbrFragment
        };
        let r = Material {
            id: Id::new(),
            diffuse_map_texture_id: self.diffuse_map_texture_id,
            normal_map_texture_id: self.normal_map_texture_id,
            vertex_shader: ShaderSource::PbrVertex,
            fragment_shader,
            fragment_data: vec![
                self.color.x,
                self.color.y,
                self.color.z,
                self.color.w,
                self.roughness,
                self.metalness,
                F32_ZERO_BITS,
                F32_ZERO_BITS,
            ],
            fragment_data_layout: LayoutKind::SingleUniform,
        };
        proof {
            assert(r.fragment_data@ =~= self.spec_fragment_data());
        }
        r
    }
}

/// A material with custom shader text; it resolves with no texture
/// references and no uniform data.
#[derive(Debug, Clone)]
pub struct ShaderMaterial {
    pub diffuse_map_texture_id: Option<TextureId>,
    pub normal_map_texture_id: Option<TextureId>,
    pub vertex_shader: Vec<u8>,
    pub fragment_shader: Vec<u8>,
}

/// Builder for [`ShaderMaterial`]; the two shader sources are required.
#[derive(Debug, Clone, Default)]
pub struct ShaderMaterialBuilder {
    pub diffuse_map_texture_id: Option<TextureId>,
    pub normal_map_texture_id: Option<TextureId>,
    pub vertex_shader: Option<Vec<u8>>,
    pub fragment_shader: Option<Vec<u8>>,
}

impl ShaderMaterialBuilder {
    pub fn diffuse_map_texture_id(self, id: TextureId) -> (r: Self)
        ensures
            r == (ShaderMaterialBuilder { diffuse_map_texture_id: Some(id), ..self }),
    {
        ShaderMaterialBuilder { diffuse_map_texture_id: Some(id), ..self }
    }

    pub fn normal_map_texture_id(self, id: TextureId) -> (r: Self)
        ensures
            r == (ShaderMaterialBuilder { normal_map_texture_id: Some(id), ..self }),
    {
        ShaderMaterialBuilder { normal_map_texture_id: Some(id), ..self }
    }

    pub fn vertex_shader(self, source: Vec<u8>) -> (r: Self)
        ensures
            r == (ShaderMaterialBuilder { vertex_shader: Some(source), ..self }),
    {
        ShaderMaterialBuilder { vertex_shader: Some(source), ..self }
    }

    pub fn fragment_shader(self, source: Vec<u8>) -> (r: Self)
        ensures
            r == (ShaderMaterialBuilder { fragment_shader: Some(source), ..self }),
    {
        ShaderMaterialBuilder { fragment_shader: Some(source), ..self }
    }

    /// Both shader sources must have been set.
    pub fn build(self) -> (r: ShaderMaterial)
        requires
            self.vertex_shader is Some,
            self.fragment_shader is Some,
        ensures
            r.diffuse_map_texture_id == self.diffuse_map_texture_id,
            r.normal_map_texture_id == self.normal_map_texture_id,
            Some(r.vertex_shader) == self.vertex_shader,
            Some(r.fragment_shader) == self.fragment_shader,
    {
        ShaderMaterial {
            diffuse_map_texture_id: self.diffuse_map_texture_id,
            normal_map_texture_id: self.normal_map_texture_id,
            vertex_shader: self.vertex_shader.unwrap(),
            fragment_shader: self.fragment_shader.unwrap(),
        }
    }
}

impl ShaderMaterial {
    pub fn builder() -> (r: ShaderMaterialBuilder)
        ensures
            r == (ShaderMaterialBuilder {
                diffuse_map_texture_id: None::<TextureId>,
                normal_map_texture_id: None::<TextureId>,
                vertex_shader: None::<Vec<u8>>,
                fragment_shader: None::<Vec<u8>>,
            }),
    {
        ShaderMaterialBuilder {
            diffuse_map_texture_id: None,
            normal_map_texture_id: None,
            vertex_shader: None,
            fragment_shader: None,
        }
    }
}

impl ToMaterial for ShaderMaterial {
    /// A custom material resolves with no texture references, whatever
    /// texture ids the description carries.
    open spec fn spec_diffuse_map_texture_id(&self) -> Option<TextureId> {
        None
    }

    open spec fn spec_normal_map_texture_id(&self) -> Option<TextureId> {
        None
    }

    open spec fn spec_vertex_shader(&self) -> ShaderSourceView {
        ShaderSourceView::Custom(self.vertex_shader@)
    }

    open spec fn spec_fragment_shader(&self) -> ShaderSourceView {
        ShaderSourceView::Custom(self.fragment_shader@)
    }

    open spec fn spec_fragment_data(&self) -> Seq<u32> {
        Seq::empty()
    }

    open spec fn spec_fragment_data_layout(&self) -> LayoutKind {
        LayoutKind::Empty
    }

    fn to_material(&self) -> (r: Material) {
        let vertex_text = self.vertex_shader.clone();
        let fragment_text = self.fragment_shader.clone();
        proof {
            assert(vertex_text@ =~= self.vertex_shader@);
            assert(fragment_text@ =~= self.fragment_shader@);
        }
        let r = Material {
            id: Id::new(),
            diffuse_map_texture_id: None,
            normal_map_texture_id: None,
            vertex_shader: ShaderSource::Custom(vertex_text),
            fragment_shader: ShaderSource::Custom(fragment_text),
            fragment_data: Vec::new(),
            fragment_data_layout: LayoutKind::Empty,
        };
        proof {
            assert(r.fragment_data@ =~= Seq::<u32>::empty());
        }
        r
    }
}

} // verus!
