use sand_castle_core::camera::{Camera, PerspectiveCamera};
use sand_castle_core::lighting::{
    AmbientLight, DirectionalLight, PointLight, SpotLight,
};
use sand_castle_core::renderer::{
    Backend, Canvas, Renderer, SurfaceCapabilities, SurfaceFormat, SurfaceHandshake,
};
use sand_castle_core::scene::Scene;
use sand_castle_core::units::{Quat, Scale, Vec3};

fn renderer() -> Renderer {
    Renderer::builder()
        .backend(Backend::WebGL)
        .canvas(Canvas { width: 100, height: 100 })
        .build(SurfaceHandshake {
            surface_created: true,
            adapter_found: true,
            device_granted: true,
            capabilities: SurfaceCapabilities {
                formats: vec![SurfaceFormat { code: 1, srgb: true }],
                present_modes: vec![0],
                alpha_modes: vec![0],
            },
        })
        .unwrap()
}

fn v3(x: f32, y: f32, z: f32) -> Vec3 {
    Vec3::new(x.to_bits(), y.to_bits(), z.to_bits())
}

fn point_light(x: f32) -> PointLight {
    PointLight::builder()
        .position(v3(x, 2.0, 3.0))
        .color(v3(0.5, 0.25, 0.125))
        .build()
}

#[test]
fn bind_point_lights_packs_records_and_count() {
    let mut renderer = renderer();
    let mut scene = Scene::builder(&mut renderer).build();

    let lights = vec![point_light(1.0), point_light(4.0)];
    let buffer_handle = scene.lights.point_lights.handle;
    scene.bind_point_lights(&renderer, &lights);

    assert_eq!(scene.lights.point_lights.handle, buffer_handle);
    let words = &scene.lights.point_lights.words;
    assert_eq!(words.len(), 128);
    // Record 0: position padded with 0.0, color padded with 1.0.
    assert_eq!(
        &words[0..8],
        &[
            1.0f32.to_bits(),
            2.0f32.to_bits(),
            3.0f32.to_bits(),
            0.0f32.to_bits(),
            0.5f32.to_bits(),
            0.25f32.to_bits(),
            0.125f32.to_bits(),
            1.0f32.to_bits(),
        ]
    );
    assert_eq!(words[8], 4.0f32.to_bits());
    // Unused records stay zeroed.
    assert!(words[16..].iter().all(|w| *w == 0));
    assert_eq!(scene.lights.point_light_count.words, vec![2, 0, 0, 0]);
}

#[test]
fn bind_point_lights_truncates_to_sixteen() {
    let mut renderer = renderer();
    let mut scene = Scene::builder(&mut renderer).build();

    let lights: Vec<PointLight> = (0..20).map(|i| point_light(i as f32)).collect();
    scene.bind_point_lights(&renderer, &lights);

    assert_eq!(scene.lights.point_light_count.words[0], 16);
    // Exactly the first sixteen are retained.
    assert_eq!(scene.lights.point_lights.words[15 * 8], 15.0f32.to_bits());
    assert_eq!(scene.lights.point_lights.words.len(), 128);
}

#[test]
fn update_point_light_patches_one_record_only() {
    let mut renderer = renderer();
    let mut scene = Scene::builder(&mut renderer).build();
    let lights = vec![point_light(1.0), point_light(4.0), point_light(9.0)];
    scene.bind_point_lights(&renderer, &lights);
    let count_before = scene.lights.point_light_count.words.clone();

    let replacement = point_light(8.0);
    scene.update_point_light(&renderer, 1, &replacement);

    // Patched record matches what binding the updated list would give.
    let mut rebound = lights.clone();
    rebound[1] = replacement;
    let mut other = Scene::builder(&mut renderer).build();
    other.bind_point_lights(&renderer, &rebound);
    assert_eq!(scene.lights.point_lights.words, other.lights.point_lights.words);
    // The count buffer is untouched.
    assert_eq!(scene.lights.point_light_count.words, count_before);
}

#[test]
fn directional_and_spot_lights_pack_their_layouts() {
    let mut renderer = renderer();
    let mut scene = Scene::builder(&mut renderer).build();

    let directional = DirectionalLight::builder()
        .color(v3(0.1, 0.2, 0.3))
        .direction(v3(0.0, -1.0, 0.0))
        .build();
    scene.bind_directional_lights(&renderer, &[directional]);
    let words = &scene.lights.directional_lights.words;
    assert_eq!(
        &words[0..8],
        &[
            0.1f32.to_bits(),
            0.2f32.to_bits(),
            0.3f32.to_bits(),
            1.0f32.to_bits(),
            0.0f32.to_bits(),
            (-1.0f32).to_bits(),
            0.0f32.to_bits(),
            1.0f32.to_bits(),
        ]
    );
    assert_eq!(scene.lights.directional_light_count.words, vec![1, 0, 0, 0]);

    let spot = SpotLight::builder()
        .position(v3(1.0, 2.0, 3.0))
        .color(v3(0.5, 0.5, 0.5))
        .direction(v3(0.0, 0.0, -1.0))
        .cutoff_angle(0.7f32.to_bits())
        .build();
    scene.bind_spot_lights(&renderer, &[spot]);
    let words = &scene.lights.spot_lights.words;
    assert_eq!(words.len(), 256);
    assert_eq!(words[3], 0.0f32.to_bits());
    assert_eq!(words[7], 1.0f32.to_bits());
    assert_eq!(words[11], 1.0f32.to_bits());
    assert_eq!(words[12], 0.7f32.to_bits());
    assert_eq!(words[13], 0);
    assert_eq!(scene.lights.spot_light_count.words, vec![1, 0, 0, 0]);

    // Patching one spot record agrees with rebinding.
    let patched = SpotLight::builder().position(v3(9.0, 9.0, 9.0)).build();
    scene.update_spot_light(&renderer, 0, &patched);
    let mut other = Scene::builder(&mut renderer).build();
    other.bind_spot_lights(&renderer, &[patched]);
    assert_eq!(scene.lights.spot_lights.words, other.lights.spot_lights.words);

    let patched_directional = DirectionalLight::builder().direction(v3(1.0, 0.0, 0.0)).build();
    scene.update_directional_light(&renderer, 0, &patched_directional);
    let mut other = Scene::builder(&mut renderer).build();
    other.bind_directional_lights(&renderer, &[patched_directional]);
    assert_eq!(
        scene.lights.directional_lights.words,
        other.lights.directional_lights.words
    );
}

#[test]
fn ambient_light_update_writes_color_padded_with_one() {
    let mut renderer = renderer();
    let mut scene = Scene::builder(&mut renderer).build();
    // The initial ambient buffer is opaque black.
    assert_eq!(
        scene.ambient_light.words,
        vec![0, 0, 0, 1.0f32.to_bits()]
    );
    let handle = scene.ambient_light.handle;
    let ambient = AmbientLight::builder().color(v3(0.2, 0.4, 0.6)).build();
    scene.update_ambient_light(&renderer, &ambient);
    assert_eq!(scene.ambient_light.handle, handle);
    assert_eq!(
        scene.ambient_light.words,
        vec![
            0.2f32.to_bits(),
            0.4f32.to_bits(),
            0.6f32.to_bits(),
            1.0f32.to_bits()
        ]
    );
}

#[test]
fn camera_buffer_layout_and_in_place_update() {
    let mut renderer = renderer();
    let mut scene = Scene::builder(&mut renderer).build();
    // Initially 20 zeroed words.
    assert_eq!(scene.camera.words, vec![0u32; 20]);

    let matrix: [u32; 16] = core::array::from_fn(|i| (i as u32) + 100);
    let pos = v3(7.0, 8.0, 9.0);
    scene.set_camera_matrix(&mut renderer, &matrix, pos);
    let rebuilt_handle = scene.camera.handle;
    assert_eq!(&scene.camera.words[0..16], &matrix);
    assert_eq!(scene.camera.words[16], 7.0f32.to_bits());
    assert_eq!(scene.camera.words[19], 0);

    // The in-place update touches only the matrix words.
    let matrix2: [u32; 16] = core::array::from_fn(|i| (i as u32) + 500);
    scene.update_camera_matrix(&renderer, &matrix2);
    assert_eq!(scene.camera.handle, rebuilt_handle);
    assert_eq!(&scene.camera.words[0..16], &matrix2);
    assert_eq!(scene.camera.words[16], 7.0f32.to_bits());
}

#[test]
fn set_camera_packs_matrix_position_and_padding() {
    let mut renderer = renderer();
    let mut scene = Scene::builder(&mut renderer).build();
    let camera = PerspectiveCamera::builder()
        .yaw(0.1f32.to_bits())
        .pitch(0.2f32.to_bits())
        .aspect_ratio(1.5f32.to_bits())
        .position(v3(3.0, 4.0, 5.0))
        .rotation(Quat::identity())
        .scale(Scale::default())
        .build();

    scene.set_camera(&mut renderer, &camera);
    assert_eq!(scene.camera.words.len(), 20);
    assert_eq!(&scene.camera.words[0..16], &camera.to_matrix());
    assert_eq!(scene.camera.words[16], 3.0f32.to_bits());
    assert_eq!(scene.camera.words[17], 4.0f32.to_bits());
    assert_eq!(scene.camera.words[18], 5.0f32.to_bits());
    assert_eq!(scene.camera.words[19], 0);

    // The in-place update rewrites the matrix words, keeps the buffer and
    // the position words.
    let handle = scene.camera.handle;
    let mut moved = camera;
    moved.set_yaw(0.9f32.to_bits());
    scene.update_camera(&renderer, &moved);
    assert_eq!(scene.camera.handle, handle);
    assert_eq!(&scene.camera.words[0..16], &moved.to_matrix());
    assert_eq!(scene.camera.words[16], 3.0f32.to_bits());
}
