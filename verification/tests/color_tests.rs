use xege::Color;
use xege::IntoARGB;

#[test]
fn argb_roundtrip_examples() {
    let cases: [(u8, u8, u8, u8); 6] = [
        (0, 0, 0, 0),
        (255, 255, 255, 255),
        (1, 2, 3, 4),
        (0x12, 0x34, 0x56, 0x78),
        (255, 0, 0, 128),
        (7, 200, 13, 255),
    ];
    for (r, g, b, a) in cases {
        let c = Color::rgba(r, g, b, a);
        let packed = c.into_argb();
        let back = Color::from_argb(packed);
        assert_eq!(back.red, r);
        assert_eq!(back.green, g);
        assert_eq!(back.blue, b);
        assert_eq!(back.alpha, a);
    }
}

#[test]
fn argb_packing_exact_value() {
    let c = Color::rgba(0x34, 0x56, 0x78, 0x12);
    assert_eq!(c.into_argb(), 0x12345678);
    let d = Color::from_argb(0xAABBCCDD);
    assert_eq!(d.alpha, 0xAA);
    assert_eq!(d.red, 0xBB);
    assert_eq!(d.green, 0xCC);
    assert_eq!(d.blue, 0xDD);
}

#[test]
fn rgb_is_opaque() {
    let c = Color::rgb(10, 20, 30);
    assert_eq!(c.alpha, 255);
    assert_eq!(c.into_argb(), 0xFF0A141E);
}

#[test]
fn gray_has_equal_channels() {
    let c = Color::gray(77);
    assert_eq!(c.red, 77);
    assert_eq!(c.green, 77);
    assert_eq!(c.blue, 77);
    assert_eq!(c.alpha, 255);
}

#[test]
fn new_equals_rgba() {
    assert_eq!(Color::new(1, 2, 3, 4), Color::rgba(1, 2, 3, 4));
}

#[test]
fn full_u32_repack() {
    for argb in [0u32, 0xFFFFFFFF, 0x80000001, 0x12345678] {
        let c = Color::from_argb(argb);
        assert_eq!(c.into_argb(), argb);
    }
}
