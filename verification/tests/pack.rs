use raytracing::camera::{Camera, CameraUniform};
use raytracing::layout::{
    CAMERA_DOWN_SKY_OFFSET, CAMERA_FORWARD_OFFSET, CAMERA_MAX_DISTANCE_OFFSET,
    CAMERA_MIN_DISTANCE_OFFSET, CAMERA_POSITION_OFFSET, CAMERA_RIGHT_OFFSET, CAMERA_UNIFORM_SIZE,
    CAMERA_UP_OFFSET, CAMERA_UP_SKY_OFFSET, ROW_SIZE, SCENE_HEADER_SIZE, SPHERE_COLOR_OFFSET,
    SPHERE_POSITION_OFFSET, SPHERE_RADIUS_OFFSET, SPHERE_STRIDE, WORD_SIZE,
};
use raytracing::pack::{scene_len_for, PackError};
use raytracing::scalar::Scalar;
use raytracing::scene::{SceneStorage, Sphere};
use raytracing::vector::Vec3;

fn scalar(x: f32) -> Scalar {
    Scalar::from_bits(x.to_bits())
}

fn vec3(x: f32, y: f32, z: f32) -> Vec3 {
    Vec3::new(scalar(x), scalar(y), scalar(z))
}

fn floats(values: &[f32]) -> Vec<u8> {
    values.iter().flat_map(|x| x.to_le_bytes()).collect()
}

fn float_at(bytes: &[u8], at: usize) -> f32 {
    f32::from_le_bytes([bytes[at], bytes[at + 1], bytes[at + 2], bytes[at + 3]])
}

fn sample_uniform() -> CameraUniform {
    CameraUniform {
        position: vec3(1.0, 2.0, 3.0),
        forward: vec3(4.0, 5.0, 6.0),
        right: vec3(7.0, 8.0, 9.0),
        up: vec3(10.0, 11.0, 12.0),
        up_sky_color: vec3(13.0, 14.0, 15.0),
        down_sky_color: vec3(16.0, 17.0, 18.0),
        min_distance: scalar(19.0),
        max_distance: scalar(20.0),
    }
}

fn sphere(tag: f32) -> Sphere {
    Sphere {
        position: vec3(tag + 0.1, tag + 0.2, tag + 0.3),
        radius: scalar(tag + 0.4),
        color: vec3(tag + 0.5, tag + 0.6, tag + 0.7),
    }
}

fn scene_of(count: usize) -> SceneStorage {
    let mut scene = SceneStorage::new();
    for i in 0..count {
        scene.push(sphere(i as f32));
    }
    scene
}

#[test]
fn layout_constants() {
    assert_eq!(WORD_SIZE, 4);
    assert_eq!(ROW_SIZE, 16);
    assert_eq!(CAMERA_UNIFORM_SIZE, 112);
    assert_eq!(
        [
            CAMERA_POSITION_OFFSET,
            CAMERA_FORWARD_OFFSET,
            CAMERA_RIGHT_OFFSET,
            CAMERA_UP_OFFSET,
            CAMERA_UP_SKY_OFFSET,
            CAMERA_DOWN_SKY_OFFSET,
            CAMERA_MIN_DISTANCE_OFFSET,
            CAMERA_MAX_DISTANCE_OFFSET,
        ],
        [0, 16, 32, 48, 64, 80, 92, 96]
    );
    assert_eq!(SCENE_HEADER_SIZE, 16);
    assert_eq!(SPHERE_STRIDE, 32);
    assert_eq!([SPHERE_POSITION_OFFSET, SPHERE_RADIUS_OFFSET, SPHERE_COLOR_OFFSET], [0, 12, 16]);
}

#[test]
fn camera_block_is_seven_rows() {
    let bytes = sample_uniform().pack();
    let expected = floats(&[
        1.0, 2.0, 3.0, 0.0, 4.0, 5.0, 6.0, 0.0, 7.0, 8.0, 9.0, 0.0, 10.0, 11.0, 12.0, 0.0, 13.0,
        14.0, 15.0, 0.0, 16.0, 17.0, 18.0, 19.0, 20.0, 0.0, 0.0, 0.0,
    ]);
    assert_eq!(bytes.len(), 112);
    assert_eq!(bytes, expected);
}

#[test]
fn camera_block_has_the_declared_size_for_every_camera() {
    let patterns = [0u32, 1, 0x3f80_0000, 0x7fc0_0000, 0x8000_0000, 0xdead_beef, 0xffff_ffff];
    for a in patterns {
        for b in patterns {
            let v = Vec3::from_bits(a, b, a ^ b);
            let uniform = CameraUniform {
                position: v,
                forward: v,
                right: v,
                up: v,
                up_sky_color: v,
                down_sky_color: v,
                min_distance: Scalar::from_bits(b),
                max_distance: Scalar::from_bits(a),
            };
            let bytes = uniform.pack();
            assert_eq!(bytes.len(), CAMERA_UNIFORM_SIZE);
            assert_eq!(CameraUniform::unpack(&bytes), Some(uniform));
        }
    }
}

#[test]
fn camera_block_fields_lie_at_their_offsets() {
    let bytes = sample_uniform().pack();
    assert_eq!(float_at(&bytes, CAMERA_POSITION_OFFSET), 1.0);
    assert_eq!(float_at(&bytes, CAMERA_POSITION_OFFSET + 8), 3.0);
    assert_eq!(float_at(&bytes, CAMERA_FORWARD_OFFSET), 4.0);
    assert_eq!(float_at(&bytes, CAMERA_RIGHT_OFFSET + 4), 8.0);
    assert_eq!(float_at(&bytes, CAMERA_UP_OFFSET), 10.0);
    assert_eq!(float_at(&bytes, CAMERA_UP_SKY_OFFSET), 13.0);
    assert_eq!(float_at(&bytes, CAMERA_DOWN_SKY_OFFSET + 8), 18.0);
    assert_eq!(float_at(&bytes, CAMERA_MIN_DISTANCE_OFFSET), 19.0);
    assert_eq!(float_at(&bytes, CAMERA_MAX_DISTANCE_OFFSET), 20.0);
    for gap in [12, 28, 44, 60, 76] {
        assert_eq!(&bytes[gap..gap + 4], &[0, 0, 0, 0]);
    }
    assert_eq!(&bytes[100..112], &[0u8; 12]);
}

#[test]
fn words_are_written_lowest_byte_first() {
    let mut uniform = sample_uniform();
    uniform.position = Vec3::from_bits(0x0403_0201, 0x0807_0605, 0xfffe_fdfc);
    let bytes = uniform.pack();
    assert_eq!(&bytes[0..12], &[1, 2, 3, 4, 5, 6, 7, 8, 0xfc, 0xfd, 0xfe, 0xff]);
}

#[test]
fn camera_block_of_the_default_camera_reads_back() {
    let camera = Camera::default();
    let uniform =
        CameraUniform::new(&camera, vec3(0.0, 0.0, 1.0), vec3(1.0, 0.0, 0.0), vec3(0.0, 1.0, 0.0));
    let bytes = uniform.pack();
    let back = CameraUniform::unpack(&bytes).unwrap();
    assert_eq!(back.position, camera.position());
    assert_eq!(back.up_sky_color, camera.up_sky_color());
    assert_eq!(back.down_sky_color, camera.down_sky_color());
    assert_eq!(back.min_distance, camera.min_distance());
    assert_eq!(back.max_distance, camera.max_distance());
    assert_eq!(back, uniform);
}

#[test]
fn camera_block_of_another_length_is_not_read() {
    let bytes = sample_uniform().pack();
    assert_eq!(CameraUniform::unpack(&bytes[..111]), None);
    assert_eq!(CameraUniform::unpack(&[]), None);
    let mut longer = bytes.clone();
    longer.push(0);
    assert_eq!(CameraUniform::unpack(&longer), None);
}

#[test]
fn sphere_buffer_of_one_default_sphere() {
    let bytes = SceneStorage::initial().pack().unwrap();
    let mut expected = vec![1u8, 0, 0, 0];
    expected.extend([0u8; 12]);
    expected.extend(floats(&[0.0, 0.0, 0.0, 1.0, 1.0, 1.0, 1.0, 0.0]));
    assert_eq!(bytes.len(), 48);
    assert_eq!(bytes, expected);
}

#[test]
fn sphere_buffer_length_is_header_plus_records() {
    for count in [0usize, 1, 2, 3, 7, 100] {
        let scene = scene_of(count);
        let bytes = scene.pack().unwrap();
        assert_eq!(bytes.len(), 16 + count * 32);
        assert_eq!(scene.packed_len(), Ok(16 + count * 32));
        assert_eq!(scene_len_for(count), Ok(16 + count * 32));
        let declared = u32::from_le_bytes([bytes[0], bytes[1], bytes[2], bytes[3]]);
        assert_eq!(declared as usize, count);
        assert_eq!(&bytes[4..16], &[0u8; 12]);
    }
}

#[test]
fn empty_scene_is_a_header_alone() {
    let bytes = SceneStorage::new().pack().unwrap();
    assert_eq!(bytes, vec![0u8; 16]);
}

#[test]
fn sphere_records_lie_one_stride_apart() {
    let scene = scene_of(3);
    let bytes = scene.pack().unwrap();
    for k in 0..3 {
        let at = SCENE_HEADER_SIZE + k * SPHERE_STRIDE;
        let tag = k as f32;
        assert_eq!(float_at(&bytes, at + SPHERE_POSITION_OFFSET), tag + 0.1);
        assert_eq!(float_at(&bytes, at + SPHERE_POSITION_OFFSET + 4), tag + 0.2);
        assert_eq!(float_at(&bytes, at + SPHERE_POSITION_OFFSET + 8), tag + 0.3);
        assert_eq!(float_at(&bytes, at + SPHERE_RADIUS_OFFSET), tag + 0.4);
        assert_eq!(float_at(&bytes, at + SPHERE_COLOR_OFFSET), tag + 0.5);
        assert_eq!(float_at(&bytes, at + SPHERE_COLOR_OFFSET + 4), tag + 0.6);
        assert_eq!(float_at(&bytes, at + SPHERE_COLOR_OFFSET + 8), tag + 0.7);
        assert_eq!(&bytes[at + 28..at + 32], &[0, 0, 0, 0]);
    }
}

#[test]
fn sphere_buffer_reads_back() {
    for count in [0usize, 1, 2, 5] {
        let scene = scene_of(count);
        let bytes = scene.pack().unwrap();
        assert_eq!(SceneStorage::unpack(&bytes), Some(scene));
    }
}

#[test]
fn sphere_buffer_with_a_wrong_frame_is_not_read() {
    let bytes = scene_of(2).pack().unwrap();
    assert_eq!(SceneStorage::unpack(&bytes[..15]), None);
    assert_eq!(SceneStorage::unpack(&bytes[..79]), None);
    assert_eq!(SceneStorage::unpack(&bytes[..48]), None);
    let mut longer = bytes.clone();
    longer.extend([0u8; 32]);
    assert_eq!(SceneStorage::unpack(&longer), None);
    let mut recounted = bytes.clone();
    recounted[0] = 3;
    assert_eq!(SceneStorage::unpack(&recounted), None);
    recounted[0] = 2;
    recounted[3] = 1;
    assert_eq!(SceneStorage::unpack(&recounted), None);
    assert_eq!(SceneStorage::unpack(&[]), None);
}

#[test]
fn gaps_are_not_read() {
    let scene = scene_of(2);
    let mut bytes = scene.pack().unwrap();
    for at in [4usize, 15, 44, 47, 76, 79] {
        bytes[at] = 0xaa;
    }
    assert_eq!(SceneStorage::unpack(&bytes), Some(scene));
}

#[test]
fn a_scene_that_no_buffer_declares_is_refused() {
    assert_eq!(scene_len_for(usize::MAX), Err(PackError::TooManySpheres));
    assert_eq!(scene_len_for(usize::MAX / 32), Err(PackError::TooManySpheres));
    let most = if usize::BITS > 32 { u32::MAX as usize } else { (usize::MAX - 16) / 32 };
    assert_eq!(scene_len_for(most), Ok(16 + most * 32));
    assert_eq!(scene_len_for(most + 1), Err(PackError::TooManySpheres));
}
