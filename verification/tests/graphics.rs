use slint_surface_core::graphics::{Color, F32Bits};

#[test]
fn graphics_color_encoding_round_trips() {
    for encoded in [0u32, 0xffff_ffff, 0x8012_3456, 0x00ab_cdef, 0x0102_0304] {
        assert_eq!(Color::from_argb_encoded(encoded).as_argb_encoded(), encoded);
    }
    let c = Color::from_rgb_u8(1, 2, 3);
    assert_eq!(c.alpha, 255);
    assert_eq!(c.as_argb_encoded(), 0xff01_0203);
    assert_eq!(Color::from_argb_encoded(c.as_argb_encoded()), c);
    assert_eq!(Color::default().as_argb_encoded(), 0);
}

#[test]
fn graphics_float_bits_compare_like_f32() {
    let values = [0.0f32, -0.0, 1.0, -1.0, f32::NAN, f32::INFINITY, f32::NEG_INFINITY, 1e-40, 24.0];
    for a in values {
        for b in values {
            assert_eq!(
                F32Bits(a.to_bits()).float_equals(F32Bits(b.to_bits())),
                a == b,
                "{a} == {b}"
            );
        }
        assert_eq!(F32Bits(a.to_bits()).is_nan(), a.is_nan());
    }
    assert_eq!(F32Bits::nan().0, f32::NAN.to_bits());
}
