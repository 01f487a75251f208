//! Cameras: perspective and orthographic.
//!
//! A camera is a scene node whose view-projection matrix feeds the camera
//! uniform at binding slot 0.  The projection mathematics involve
//! trigonometry, whose rounding the platform's math library chooses, so
//! the matrix words themselves carry no promise; what the scene does with
//! them — the camera buffer layout and its in-place updates — is specified
//! exactly in the scene module.

use vstd::prelude::*;

use crate::mathops::{
    mat4_look_to_rh, mat4_mul, mat4_orthographic_lh, mat4_perspective_rh, mul_bits, sin_cos,
    vec3_normalize,
};
use crate::object3d::Transform;
use crate::resource::{Id, Resource};
use crate::units::{
    Quat, Scale, Vec2, Vec3, F32_HALF_BITS, F32_ONE_BITS, F32_SEVENTY_BITS, F32_TENTH_BITS,
    F32_THOUSAND_BITS, F32_ZERO_BITS,
};

verus! {

/// A node that yields a view-projection matrix.
pub trait Camera: Transform {
    /// The 16 column-major words of the view-projection matrix.
    fn to_matrix(&self) -> [u32; 16];
}

/// The fixed matrix mapping OpenGL clip space onto WebGPU clip space.
pub open spec fn opengl_to_wgpu_words() -> Seq<u32> {
    seq![
        F32_ONE_BITS,
        F32_ZERO_BITS,
        F32_ZERO_BITS,
        F32_ZERO_BITS,
        F32_ZERO_BITS,
        F32_ONE_BITS,
        F32_ZERO_BITS,
        F32_ZERO_BITS,
        F32_ZERO_BITS,
        F32_ZERO_BITS,
        F32_HALF_BITS,
        F32_HALF_BITS,
        F32_ZERO_BITS,
        F32_ZERO_BITS,
        F32_ZERO_BITS,
        F32_ONE_BITS,
    ]
}

/// The clip-space correction matrix as an array.
fn opengl_to_wgpu_matrix() -> (r: [u32; 16])
    ensures
        r@ == opengl_to_wgpu_words(),
{
    let r = [
        F32_ONE_BITS,
        F32_ZERO_BITS,
        F32_ZERO_BITS,
        F32_ZERO_BITS,
        F32_ZERO_BITS,
        F32_ONE_BITS,
        F32_ZERO_BITS,
        F32_ZERO_BITS,
        F32_ZERO_BITS,
        F32_ZERO_BITS,
        F32_HALF_BITS,
        F32_HALF_BITS,
        F32_ZERO_BITS,
        F32_ZERO_BITS,
        F32_ZERO_BITS,
        F32_ONE_BITS,
    ];
    proof {
        assert(r@ =~= opengl_to_wgpu_words());
    }
    r
}

/// The view direction of a yaw/pitch pair: the normalized vector
/// `(cos(pitch)·cos(yaw), sin(pitch), cos(pitch)·sin(yaw))`.
fn view_direction(yaw: u32, pitch: u32) -> Vec3 {
    let (sin_pitch, cos_pitch) = sin_cos(pitch);
    let (sin_yaw, cos_yaw) = sin_cos(yaw);
    vec3_normalize(
        Vec3 {
            x: mul_bits(cos_pitch, cos_yaw),
            y: sin_pitch,
            z: mul_bits(cos_pitch, sin_yaw),
        },
    )
}

/// The near and far planes of a camera's view volume.
#[derive(Debug, PartialEq, Eq, Structural, Clone, Copy)]
pub struct ViewFrustum {
    pub far: u32,
    pub near: u32,
}

impl ViewFrustum {
    /// Far plane at 1000, near plane at 0.1.
    pub open spec fn default_spec() -> ViewFrustum {
        ViewFrustum { far: F32_THOUSAND_BITS, near: F32_TENTH_BITS }
    }
}

impl Default for ViewFrustum {
    fn default() -> (r: ViewFrustum)
        ensures
            r == ViewFrustum::default_spec(),
    {
        ViewFrustum { far: F32_THOUSAND_BITS, near: F32_TENTH_BITS }
    }
}

/// Builder for [`ViewFrustum`]; both planes have defaults.
#[derive(Debug, Clone, Copy, Default)]
pub struct ViewFrustumBuilder {
    pub far: Option<u32>,
    pub near: Option<u32>,
}

impl ViewFrustumBuilder {
    pub fn far(self, far: u32) -> (r: Self)
        ensures
            r == (ViewFrustumBuilder { far: Some(far), ..self }),
    {
        ViewFrustumBuilder { far: Some(far), ..self }
    }

    pub fn near(self, near: u32) -> (r: Self)
        ensures
            r == (ViewFrustumBuilder { near: Some(near), ..self }),
    {
        ViewFrustumBuilder { near: Some(near), ..self }
    }

    pub fn build(self) -> (r: ViewFrustum)
        ensures
            r.far == (match self.far {
                Some(f) => f,
                None => F32_THOUSAND_BITS,
            }),
            r.near == (match self.near {
                Some(n) => n,
                None => F32_TENTH_BITS,
            }),
    {
        ViewFrustum {
            far: match self.far {
                Some(f) => f,
                None => F32_THOUSAND_BITS,
            },
            near: match self.near {
                Some(n) => n,
                None => F32_TENTH_BITS,
            },
        }
    }
}

/// A perspective camera, aimed by yaw and pitch.
#[derive(Debug, Clone, Copy)]
pub struct PerspectiveCamera {
    pub id: Id,
    pub yaw: u32,
    pub pitch: u32,
    /// Vertical field of view, as a single-precision bit pattern.
    pub fov: u32,
    pub aspect_ratio: u32,
    pub view_frustum: ViewFrustum,
    pub position: Vec3,
    pub rotation: Quat,
    pub scale: Scale,
}

/// Builder for [`PerspectiveCamera`]; yaw, pitch, aspect ratio, position,
/// rotation and scale are required, the field of view defaults to 70 and
/// the frustum to its defaults.
#[derive(Debug, Clone, Copy, Default)]
pub struct PerspectiveCameraBuilder {
    pub yaw: Option<u32>,
    pub pitch: Option<u32>,
    pub fov: Option<u32>,
    pub aspect_ratio: Option<u32>,
    pub view_frustum: Option<ViewFrustum>,
    pub position: Option<Vec3>,
    pub rotation: Option<Quat>,
    pub scale: Option<Scale>,
}

impl PerspectiveCameraBuilder {
    pub fn yaw(self, yaw: u32) -> (r: Self)
        ensures
            r == (PerspectiveCameraBuilder { yaw: Some(yaw), ..self }),
    {
        PerspectiveCameraBuilder { yaw: Some(yaw), ..self }
    }

    pub fn pitch(self, pitch: u32) -> (r: Self)
        ensures
            r == (PerspectiveCameraBuilder { pitch: Some(pitch), ..self }),
    {
        PerspectiveCameraBuilder { pitch: Some(pitch), ..self }
    }

    pub fn fov(self, fov: u32) -> (r: Self)
        ensures
            r == (PerspectiveCameraBuilder { fov: Some(fov), ..self }),
    {
        PerspectiveCameraBuilder { fov: Some(fov), ..self }
    }

    pub fn aspect_ratio(self, aspect_ratio: u32) -> (r: Self)
        ensures
            r == (PerspectiveCameraBuilder { aspect_ratio: Some(aspect_ratio), ..self }),
    {
        PerspectiveCameraBuilder { aspect_ratio: Some(aspect_ratio), ..self }
    }

    pub fn view_frustum(self, view_frustum: ViewFrustum) -> (r: Self)
        ensures
            r == (PerspectiveCameraBuilder { view_frustum: Some(view_frustum), ..self }),
    {
        PerspectiveCameraBuilder { view_frustum: Some(view_frustum), ..self }
    }

    pub fn position(self, position: Vec3) -> (r: Self)
        ensures
            r == (PerspectiveCameraBuilder { position: Some(position), ..self }),
    {
        PerspectiveCameraBuilder { position: Some(position), ..self }
    }

    pub fn rotation(self, rotation: Quat) -> (r: Self)
        ensures
            r == (PerspectiveCameraBuilder { rotation: Some(rotation), ..self }),
    {
        PerspectiveCameraBuilder { rotation: Some(rotation), ..self }
    }

    pub fn scale(self, scale: Scale) -> (r: Self)
        ensures
            r == (PerspectiveCameraBuilder { scale: Some(scale), ..self }),
    {
        PerspectiveCameraBuilder { scale: Some(scale), ..self }
    }

    /// Every field without a default must have been set.
    pub fn build(self) -> (r: PerspectiveCamera)
        requires
            self.yaw is Some,
            self.pitch is Some,
            self.aspect_ratio is Some,
            self.position is Some,
            self.rotation is Some,
            self.scale is Some,
        ensures
            r.id.0 != 0,
            Some(r.yaw) == self.yaw,
            Some(r.pitch) == self.pitch,
            r.fov == (match self.fov {
                Some(f) => f,
                None => F32_SEVENTY_BITS,
            }),
            Some(r.aspect_ratio) == self.aspect_ratio,
            r.view_frustum == (match self.view_frustum {
                Some(v) => v,
                None => ViewFrustum::default_spec(),
            }),
            Some(r.position) == self.position,
            Some(r.rotation) == self.rotation,
            Some(r.scale) == self.scale,
    {
        PerspectiveCamera {
            id: Id::new(),
            yaw: self.yaw.unwrap(),
            pitch: self.pitch.unwrap(),
            fov: match self.fov {
                Some(f) => f,
                None => F32_SEVENTY_BITS,
            },
            aspect_ratio: self.aspect_ratio.unwrap(),
            view_frustum: match self.view_frustum {
                Some(v) => v,
                None => ViewFrustum { far: F32_THOUSAND_BITS, near: F32_TENTH_BITS },
            },
            position: self.position.unwrap(),
            rotation: self.rotation.unwrap(),
            scale: self.scale.unwrap(),
        }
    }
}

impl PerspectiveCamera {
    pub fn builder() -> (r: PerspectiveCameraBuilder)
        ensures
            r == (PerspectiveCameraBuilder {
                yaw: None::<u32>,
                pitch: None::<u32>,
                fov: None::<u32>,
                aspect_ratio: None::<u32>,
                view_frustum: None::<ViewFrustum>,
                position: None::<Vec3>,
                rotation: None::<Quat>,
                scale: None::<Scale>,
            }),
    {
        PerspectiveCameraBuilder {
            yaw: None,
            pitch: None,
            fov: None,
            aspect_ratio: None,
            view_frustum: None,
            position: None,
            rotation: None,
            scale: None,
        }
    }

    pub fn set_fov(&mut self, fov: u32)
        ensures
            *final(self) == (PerspectiveCamera { fov, ..*old(self) }),
    {
        self.fov = fov;
    }

    pub fn set_yaw(&mut self, yaw: u32)
        ensures
            *final(self) == (PerspectiveCamera { yaw, ..*old(self) }),
    {
        self.yaw = yaw;
    }

    pub fn set_pitch(&mut self, pitch: u32)
        ensures
            *final(self) == (PerspectiveCamera { pitch, ..*old(self) }),
    {
        self.pitch = pitch;
    }
}

impl Resource for PerspectiveCamera {
    open spec fn spec_id(&self) -> Id {
        self.id
    }

    fn id(&self) -> (r: Id) {
        self.id
    }
}

impl Transform for PerspectiveCamera {
    open spec fn spec_pos(&self) -> Vec3 {
        self.position
    }

    open spec fn spec_rot(&self) -> Quat {
        self.rotation
    }

    open spec fn spec_scale(&self) -> Scale {
        self.scale
    }

    fn pos(&self) -> (r: &Vec3) {
        &self.position
    }

    fn rot(&self) -> (r: &Quat) {
        &self.rotation
    }

    fn scale(&self) -> (r: &Scale) {
        &self.scale
    }

    fn set_pos(&mut self, pos: Vec3) {
        self.position = pos;
    }

    fn set_rot(&mut self, rot: Quat) {
        self.rotation = rot;
    }

    fn set_scale(&mut self, scale: Scale) {
        self.scale = scale;
    }
}

impl Camera for PerspectiveCamera {
    /// Clip-space correction times perspective projection times the
    /// look-to view of the yaw/pitch direction.
    fn to_matrix(&self) -> [u32; 16] {
        let direction = view_direction(self.yaw, self.pitch);
        let projection = mat4_perspective_rh(
            self.fov,
            self.aspect_ratio,
            self.view_frustum.near,
            self.view_frustum.far,
        );
        let view = mat4_look_to_rh(
            self.position,
            direction,
            Vec3 { x: F32_ZERO_BITS, y: F32_ONE_BITS, z: F32_ZERO_BITS },
        );
        let correction = opengl_to_wgpu_matrix();
        mat4_mul(&mat4_mul(&correction, &projection), &view)
    }
}

/// An orthographic camera over a screen-sized view volume.
#[derive(Debug, Clone, Copy)]
pub struct OrthographicCamera {
    pub yaw: u32,
    pub pitch: u32,
    pub screen_size: Vec2,
    pub view_frustum: ViewFrustum,
    pub position: Vec3,
    pub rotation: Quat,
    pub scale: Scale,
}

/// Builder for [`OrthographicCamera`]; yaw, pitch, screen size, position,
/// rotation and scale are required, the frustum has its defaults.
#[derive(Debug, Clone, Copy, Default)]
pub struct OrthographicCameraBuilder {
    pub yaw: Option<u32>,
    pub pitch: Option<u32>,
    pub screen_size: Option<Vec2>,
    pub view_frustum: Option<ViewFrustum>,
    pub position: Option<Vec3>,
    pub rotation: Option<Quat>,
    pub scale: Option<Scale>,
}

impl OrthographicCameraBuilder {
    pub fn yaw(self, yaw: u32) -> (r: Self)
        ensures
            r == (OrthographicCameraBuilder { yaw: Some(yaw), ..self }),
    {
        OrthographicCameraBuilder { yaw: Some(yaw), ..self }
    }

    pub fn pitch(self, pitch: u32) -> (r: Self)
        ensures
            r == (OrthographicCameraBuilder { pitch: Some(pitch), ..self }),
    {
        OrthographicCameraBuilder { pitch: Some(pitch), ..self }
    }

    pub fn screen_size(self, screen_size: Vec2) -> (r: Self)
        ensures
            r == (OrthographicCameraBuilder { screen_size: Some(screen_size), ..self }),
    {
        OrthographicCameraBuilder { screen_size: Some(screen_size), ..self }
    }

    pub fn view_frustum(self, view_frustum: ViewFrustum) -> (r: Self)
        ensures
            r == (OrthographicCameraBuilder { view_frustum: Some(view_frustum), ..self }),
    {
        OrthographicCameraBuilder { view_frustum: Some(view_frustum), ..self }
    }

    pub fn position(self, position: Vec3) -> (r: Self)
        ensures
            r == (OrthographicCameraBuilder { position: Some(position), ..self }),
    {
        OrthographicCameraBuilder { position: Some(position), ..self }
    }

    pub fn rotation(self, rotation: Quat) -> (r: Self)
        ensures
            r == (OrthographicCameraBuilder { rotation: Some(rotation), ..self }),
    {
        OrthographicCameraBuilder { rotation: Some(rotation), ..self }
    }

    pub fn scale(self, scale: Scale) -> (r: Self)
        ensures
            r == (OrthographicCameraBuilder { scale: Some(scale), ..self }),
    {
        OrthographicCameraBuilder { scale: Some(scale), ..self }
    }

    /// Every field without a default must have been set.
    pub fn build(self) -> (r: OrthographicCamera)
        requires
            self.yaw is Some,
            self.pitch is Some,
            self.screen_size is Some,
            self.position is Some,
            self.rotation is Some,
            self.scale is Some,
        ensures
            Some(r.yaw) == self.yaw,
            Some(r.pitch) == self.pitch,
            Some(r.screen_size) == self.screen_size,
            r.view_frustum == (match self.view_frustum {
                Some(v) => v,
                None => ViewFrustum::default_spec(),
            }),
            Some(r.position) == self.position,
            Some(r.rotation) == self.rotation,
            Some(r.scale) == self.scale,
    {
        OrthographicCamera {
            yaw: self.yaw.unwrap(),
            pitch: self.pitch.unwrap(),
            screen_size: self.screen_size.unwrap(),
            view_frustum: match self.view_frustum {
                Some(v) => v,
                None => ViewFrustum { far: F32_THOUSAND_BITS, near: F32_TENTH_BITS },
            },
            position: self.position.unwrap(),
            rotation: self.rotation.unwrap(),
            scale: self.scale.unwrap(),
        }
    }
}

impl OrthographicCamera {
    pub fn builder() -> (r: OrthographicCameraBuilder)
        ensures
            r == (OrthographicCameraBuilder {
                yaw: None::<u32>,
                pitch: None::<u32>,
                screen_size: None::<Vec2>,
                view_frustum: None::<ViewFrustum>,
                position: None::<Vec3>,
                rotation: None::<Quat>,
                scale: None::<Scale>,
            }),
    {
        OrthographicCameraBuilder {
            yaw: None,
            pitch: None,
            screen_size: None,
            view_frustum: None,
            position: None,
            rotation: None,
            scale: None,
        }
    }
}

impl Transform for OrthographicCamera {
    open spec fn spec_pos(&self) -> Vec3 {
        self.position
    }

    open spec fn spec_rot(&self) -> Quat {
        self.rotation
    }

    open spec fn spec_scale(&self) -> Scale {
        self.scale
    }

    fn pos(&self) -> (r: &Vec3) {
        &self.position
    }

    fn rot(&self) -> (r: &Quat) {
        &self.rotation
    }

    fn scale(&self) -> (r: &Scale) {
        &self.scale
    }

    fn set_pos(&mut self, pos: Vec3) {
        self.position = pos;
    }

    fn set_rot(&mut self, rot: Quat) {
        self.rotation = rot;
    }

    fn set_scale(&mut self, scale: Scale) {
        self.scale = scale;
    }
}

impl Camera for OrthographicCamera {
    /// Clip-space correction times orthographic projection over the screen
    /// rectangle times the look-to view of the yaw/pitch direction.
    fn to_matrix(&self) -> [u32; 16] {
        let direction = view_direction(self.yaw, self.pitch);
        let projection = mat4_orthographic_lh(
            F32_ZERO_BITS,
            self.screen_size.x,
            self.screen_size.y,
            F32_ZERO_BITS,
            self.view_frustum.near,
            self.view_frustum.far,
        );
        let view = mat4_look_to_rh(
            self.position,
            direction,
            Vec3 { x: F32_ZERO_BITS, y: F32_ONE_BITS, z: F32_ZERO_BITS },
        );
        let correction = opengl_to_wgpu_matrix();
        mat4_mul(&mat4_mul(&correction, &projection), &view)
    }
}

} // verus!
