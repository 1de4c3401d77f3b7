use sp_wasm::layout::{GlmMat4x3, GlmVec3, Transform};
use sp_wasm::primitives::{
    transform_from_pos, transform_get_position, transform_identity, transform_set_position,
    ONE_BITS, ZERO_BITS,
};

fn v(x: f32, y: f32, z: f32) -> GlmVec3 {
    GlmVec3 { x: x.to_bits(), y: y.to_bits(), z: z.to_bits() }
}

#[test]
fn lane_constants_are_float_bits() {
    assert_eq!(ONE_BITS, 1.0f32.to_bits());
    assert_eq!(ZERO_BITS, 0.0f32.to_bits());
}

#[test]
fn identity_has_unit_axes_and_scale() {
    let t = transform_identity();
    assert_eq!(
        t,
        Transform {
            offset: GlmMat4x3 {
                c0: v(1.0, 0.0, 0.0),
                c1: v(0.0, 1.0, 0.0),
                c2: v(0.0, 0.0, 1.0),
                c3: v(0.0, 0.0, 0.0),
            },
            scale: v(1.0, 1.0, 1.0),
        }
    );
}

#[test]
fn identity_twice_is_byte_identical() {
    let a = transform_identity();
    let b = transform_identity();
    assert_eq!(a.to_bytes(), b.to_bytes());
}

#[test]
fn from_pos_then_get_position_round_trips() {
    for p in [v(1.0, 2.0, 3.0), v(-0.0, f32::MAX, f32::MIN_POSITIVE), v(f32::NAN, 0.5, -7.25)] {
        let t = transform_from_pos(&p);
        assert_eq!(transform_get_position(&t), p);
        assert_eq!(t.offset.c0, v(1.0, 0.0, 0.0));
        assert_eq!(t.scale, v(1.0, 1.0, 1.0));
    }
}

#[test]
fn set_position_keeps_the_other_lanes() {
    let mut t = transform_from_pos(&v(1.0, 2.0, 3.0));
    t.scale = v(2.0, 2.0, 2.0);
    let moved = transform_set_position(&t, &v(9.0, 8.0, 7.0));
    assert_eq!(transform_get_position(&moved), v(9.0, 8.0, 7.0));
    assert_eq!(moved.scale, t.scale);
    assert_eq!(moved.offset.c0, t.offset.c0);
    assert_eq!(moved.offset.c2, t.offset.c2);
    assert_eq!(transform_set_position(&t, &transform_get_position(&t)), t);
}
