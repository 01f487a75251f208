use sand_castle_core::camera::{
    Camera, OrthographicCamera, PerspectiveCamera, ViewFrustum, ViewFrustumBuilder,
};
use sand_castle_core::mesh_basic::{MeshBasic, MeshBasicBuilderError};
use sand_castle_core::texture::{LoadTextureError, Texture};
use sand_castle_core::units::{Quat, Scale, Vec2, Vec3};

fn v3(x: f32, y: f32, z: f32) -> Vec3 {
    Vec3::new(x.to_bits(), y.to_bits(), z.to_bits())
}

fn opengl_to_wgpu() -> glam::Mat4 {
    glam::Mat4::from_cols(
        glam::Vec4::new(1.0, 0.0, 0.0, 0.0),
        glam::Vec4::new(0.0, 1.0, 0.0, 0.0),
        glam::Vec4::new(0.0, 0.0, 0.5, 0.5),
        glam::Vec4::new(0.0, 0.0, 0.0, 1.0),
    )
}

#[test]
fn view_frustum_defaults() {
    let frustum = ViewFrustum::default();
    assert_eq!(frustum.far, 1000.0f32.to_bits());
    assert_eq!(frustum.near, 0.1f32.to_bits());
    let custom = ViewFrustumBuilder::default().near(0.5f32.to_bits()).build();
    assert_eq!(custom.near, 0.5f32.to_bits());
    assert_eq!(custom.far, 1000.0f32.to_bits());
}

#[test]
fn perspective_matrix_matches_reference_computation() {
    let yaw = 0.3f32;
    let pitch = -0.2f32;
    let camera = PerspectiveCamera::builder()
        .yaw(yaw.to_bits())
        .pitch(pitch.to_bits())
        .aspect_ratio((4.0f32 / 3.0).to_bits())
        .position(v3(1.0, 2.0, 3.0))
        .rotation(Quat::identity())
        .scale(Scale::default())
        .build();
    assert_eq!(camera.fov, 70.0f32.to_bits());

    let (sin_pitch, cos_pitch) = pitch.sin_cos();
    let (sin_yaw, cos_yaw) = yaw.sin_cos();
    let expected = opengl_to_wgpu()
        * glam::Mat4::perspective_rh(70.0, 4.0 / 3.0, 0.1, 1000.0)
        * glam::Mat4::look_to_rh(
            glam::Vec3::new(1.0, 2.0, 3.0),
            glam::Vec3::new(cos_pitch * cos_yaw, sin_pitch, cos_pitch * sin_yaw).normalize(),
            glam::Vec3::Y,
        );
    let expected_bits: Vec<u32> = expected.to_cols_array().iter().map(|f| f.to_bits()).collect();
    assert_eq!(camera.to_matrix().to_vec(), expected_bits);
}

#[test]
fn orthographic_matrix_matches_reference_computation() {
    let camera = OrthographicCamera::builder()
        .yaw(0.0f32.to_bits())
        .pitch(0.0f32.to_bits())
        .screen_size(Vec2::new(800.0f32.to_bits(), 600.0f32.to_bits()))
        .position(v3(0.0, 0.0, 0.0))
        .rotation(Quat::identity())
        .scale(Scale::default())
        .build();

    let (sin_pitch, cos_pitch) = 0.0f32.sin_cos();
    let (sin_yaw, cos_yaw) = 0.0f32.sin_cos();
    let expected = opengl_to_wgpu()
        * glam::Mat4::orthographic_lh(0.0, 800.0, 600.0, 0.0, 0.1, 1000.0)
        * glam::Mat4::look_to_rh(
            glam::Vec3::ZERO,
            glam::Vec3::new(cos_pitch * cos_yaw, sin_pitch, cos_pitch * sin_yaw).normalize(),
            glam::Vec3::Y,
        );
    let expected_bits: Vec<u32> = expected.to_cols_array().iter().map(|f| f.to_bits()).collect();
    assert_eq!(camera.to_matrix().to_vec(), expected_bits);
}

#[test]
fn perspective_setters_update_fields() {
    let mut camera = PerspectiveCamera::builder()
        .yaw(0)
        .pitch(0)
        .aspect_ratio(1.0f32.to_bits())
        .position(v3(0.0, 0.0, 0.0))
        .rotation(Quat::identity())
        .scale(Scale::default())
        .build();
    camera.set_fov(1.2f32.to_bits());
    camera.set_yaw(0.5f32.to_bits());
    camera.set_pitch(0.25f32.to_bits());
    assert_eq!(camera.fov, 1.2f32.to_bits());
    assert_eq!(camera.yaw, 0.5f32.to_bits());
    assert_eq!(camera.pitch, 0.25f32.to_bits());
}

#[test]
fn texture_from_bytes_decodes_png_rgba8() {
    // Encode a 2x2 RGBA image with the image crate, then decode it back
    // through the loader path.
    let pixels: Vec<u8> = vec![
        255, 0, 0, 255, 0, 255, 0, 255, 0, 0, 255, 255, 255, 255, 255, 128,
    ];
    let image = image::RgbaImage::from_raw(2, 2, pixels.clone()).unwrap();
    let mut encoded: Vec<u8> = Vec::new();
    image
        .write_to(
            &mut std::io::Cursor::new(&mut encoded),
            image::ImageFormat::Png,
        )
        .unwrap();

    let texture = Texture::from_bytes(&encoded, "image/png").expect("png decodes");
    assert_eq!(texture.dimensions(), (2, 2));
    assert_eq!(*texture.content(), pixels);
    assert_ne!(texture.id().0, 0);
}

#[test]
fn texture_from_bytes_rejects_unknown_mime_type() {
    let err = Texture::from_bytes(&[1, 2, 3], "text/plain").unwrap_err();
    assert!(matches!(err, LoadTextureError::InvalidMimeType));
}

#[test]
fn texture_from_bytes_rejects_undecodable_bytes() {
    let err = Texture::from_bytes(&[1, 2, 3], "image/png").unwrap_err();
    assert!(matches!(err, LoadTextureError::Image(_)));
}

#[test]
fn mesh_basic_builder_requires_both_fields() {
    let err = MeshBasic::builder().build().unwrap_err();
    assert_eq!(err, MeshBasicBuilderError::MissingColor);

    let err = MeshBasic::builder().color(0xFF00FF00).build().unwrap_err();
    assert_eq!(err, MeshBasicBuilderError::MissingWireframe);

    let mesh_basic = MeshBasic::builder()
        .color(0xFF00FF00)
        .wireframe(false)
        .build()
        .unwrap();
    assert_eq!(mesh_basic.color, 0xFF00FF00);
    assert!(!mesh_basic.wireframe);
}

#[test]
fn camera_trait_object_is_usable_generically() {
    fn matrix_of<C: Camera>(camera: &C) -> [u32; 16] {
        camera.to_matrix()
    }
    let camera = PerspectiveCamera::builder()
        .yaw(0)
        .pitch(0)
        .aspect_ratio(1.0f32.to_bits())
        .position(v3(0.0, 0.0, 0.0))
        .rotation(Quat::identity())
        .scale(Scale::default())
        .build();
    let m1 = matrix_of(&camera);
    let m2 = camera.to_matrix();
    assert_eq!(m1, m2);
}
