use sp_wasm::layout::{GlmMat4x3, GlmVec3, Transform, MAT4X3_SIZE, TRANSFORM_SIZE, VEC3_SIZE};

fn v(x: f32, y: f32, z: f32) -> GlmVec3 {
    GlmVec3 { x: x.to_bits(), y: y.to_bits(), z: z.to_bits() }
}

fn sample() -> Transform {
    Transform {
        offset: GlmMat4x3 {
            c0: v(1.0, 2.0, 3.0),
            c1: v(4.0, 5.0, 6.0),
            c2: v(7.0, 8.0, 9.0),
            c3: v(10.0, 11.0, 12.0),
        },
        scale: v(-1.5, 0.25, 100.0),
    }
}

#[test]
fn sizes_add_up() {
    assert_eq!(VEC3_SIZE, 12);
    assert_eq!(MAT4X3_SIZE, 48);
    assert_eq!(TRANSFORM_SIZE, 60);
    assert_eq!(TRANSFORM_SIZE, VEC3_SIZE + MAT4X3_SIZE);
    assert_eq!(sample().to_bytes().len(), TRANSFORM_SIZE);
    assert_eq!(v(1.0, 2.0, 3.0).to_bytes().len(), VEC3_SIZE);
}

#[test]
fn vec3_bytes_are_little_endian_lanes() {
    let bytes = v(1.0, 2.0, -0.0).to_bytes();
    assert_eq!(
        bytes,
        vec![0x00, 0x00, 0x80, 0x3f, 0x00, 0x00, 0x00, 0x40, 0x00, 0x00, 0x00, 0x80]
    );
}

#[test]
fn transform_bytes_are_matrix_then_scale() {
    let t = sample();
    let bytes = t.to_bytes();
    let mut expected: Vec<u8> = Vec::new();
    for f in [1.0f32, 2.0, 3.0, 4.0, 5.0, 6.0, 7.0, 8.0, 9.0, 10.0, 11.0, 12.0, -1.5, 0.25, 100.0] {
        expected.extend_from_slice(&f.to_le_bytes());
    }
    assert_eq!(bytes, expected);
}

#[test]
fn transform_round_trips_through_bytes_at_an_offset() {
    let t = sample();
    let mut buf = vec![0xaau8; 7];
    t.write_bytes(&mut buf);
    buf.push(0x55);
    assert_eq!(buf.len(), 7 + 60 + 1);
    assert_eq!(Transform::read_from(&buf, 7), t);
    assert_eq!(GlmMat4x3::read_from(&buf, 7), t.offset);
    assert_eq!(GlmVec3::read_from(&buf, 7 + 48), t.scale);
}
