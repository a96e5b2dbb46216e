use graphics::compute::create_test_data;
use graphics::layout::{
    camera_uniform_bytes, lighting_bytes, point_light_bytes, CAMERA_SIZE, INSTANCE_SIZE,
    LIGHTING_SIZE_FIXED, MAT4_SIZE, POINT_LIGHT_SIZE, VERTEX_SIZE,
};
use lin_alg2::f32::{Mat4, Vec3};

#[test]
fn sizes() {
    assert_eq!(CAMERA_SIZE, 80);
    assert_eq!(LIGHTING_SIZE_FIXED, 32);
    assert_eq!(POINT_LIGHT_SIZE, 64);
    assert_eq!(VERTEX_SIZE, 56);
    assert_eq!(INSTANCE_SIZE, 116);
}

#[test]
fn camera_buffer_layout() {
    let mut data = [0f32; 16];
    for (i, v) in data.iter_mut().enumerate() {
        *v = i as f32 * 1.5 - 3.0;
    }
    let mat = Mat4::new(data);
    let pos = Vec3::new(1.25, -2.5, 7.0);
    let bytes = camera_uniform_bytes(&mat.to_bytes(), &pos.to_bytes_uniform());
    assert_eq!(bytes.len(), 80);
    for i in 0..16 {
        let b = [bytes[4 * i], bytes[4 * i + 1], bytes[4 * i + 2], bytes[4 * i + 3]];
        assert_eq!(f32::from_ne_bytes(b), data[i]);
    }
    let read = |k: usize| {
        f32::from_ne_bytes([
            bytes[MAT4_SIZE + 4 * k],
            bytes[MAT4_SIZE + 4 * k + 1],
            bytes[MAT4_SIZE + 4 * k + 2],
            bytes[MAT4_SIZE + 4 * k + 3],
        ])
    };
    assert_eq!((read(0), read(1), read(2)), (1.25, -2.5, 7.0));
    assert_eq!(&bytes[76..80], &[0, 0, 0, 0]);
}

#[test]
fn point_light_layout() {
    let r = point_light_bytes(&[1; 16], &[2; 16], &[3; 16], &[4; 4], &[5; 4]);
    assert_eq!(&r[0..16], &[1; 16]);
    assert_eq!(&r[16..32], &[2; 16]);
    assert_eq!(&r[32..48], &[3; 16]);
    assert_eq!(&r[48..52], &[4; 4]);
    assert_eq!(&r[52..56], &[5; 4]);
    assert_eq!(&r[56..64], &[0; 8]);
}

#[test]
fn lighting_layout_without_lights() {
    let r = lighting_bytes(&[7; 16], &[8; 4], &Vec::new());
    assert_eq!(r.len(), 32);
    assert_eq!(&r[0..16], &[7; 16]);
    assert_eq!(&r[16..20], &[8; 4]);
    assert_eq!(&r[20..24], &[0, 0, 0, 0]);
    assert_eq!(&r[24..32], &[0; 8]);
}

#[test]
fn lighting_layout_with_lights() {
    let lights: Vec<[u8; 64]> = (0..258u32).map(|i| [(i % 251) as u8; 64]).collect();
    let r = lighting_bytes(&[7; 16], &[8; 4], &lights);
    assert_eq!(r.len(), 32 + 64 * 258);
    // 258 = 0x0102, little-endian.
    assert_eq!(&r[20..24], &[2, 1, 0, 0]);
    assert_eq!(&r[32..96], &[0; 64]);
    assert_eq!(&r[32 + 64 * 257..], &[6; 64]);
}

#[test]
fn compute_data_slots() {
    let values: Vec<(f32, f32)> = vec![(1., 1.), (-2., 2.), (0., 1.)];
    let encoded: Vec<[u8; 8]> = values
        .iter()
        .map(|(re, im)| {
            let mut b = [0u8; 8];
            b[0..4].copy_from_slice(&re.to_ne_bytes());
            b[4..8].copy_from_slice(&im.to_ne_bytes());
            b
        })
        .collect();
    let mut buf = vec![0xAAu8; 30];
    create_test_data(&mut buf, &encoded);
    for (j, (re, im)) in values.iter().enumerate() {
        let r = f32::from_ne_bytes([buf[8 * j], buf[8 * j + 1], buf[8 * j + 2], buf[8 * j + 3]]);
        let i = f32::from_ne_bytes([buf[8 * j + 4], buf[8 * j + 5], buf[8 * j + 6], buf[8 * j + 7]]);
        assert_eq!((r, i), (*re, *im));
    }
    assert_eq!(&buf[24..30], &[0xAA; 6]);
}
