use icarus::color::Color;

#[test]
fn new_keeps_channels() {
    let c = Color::new(1, 2, 3, 4);
    assert_eq!((c.r, c.g, c.b, c.a), (1, 2, 3, 4));
}

#[test]
fn from_hex_reads_argb() {
    let c = Color::from_hex(0x80ff4020);
    assert_eq!(c, Color::new(0xff, 0x40, 0x20, 0x80));
    assert_eq!(Color::from_hex_linear(0x80ff4020), c);
    assert_eq!(Color::from_hex(0), Color::new(0, 0, 0, 0));
    assert_eq!(Color::from_hex(0xffffffff), Color::new(255, 255, 255, 255));
}

#[test]
fn as_u32_packs_argb() {
    assert_eq!(Color::new(0xff, 0x40, 0x20, 0x80).as_u32(), 0x80ff4020);
    assert_eq!(Color::new(0, 0, 0, 255).as_u32(), 0xff000000);
}

#[test]
fn hex_roundtrip() {
    for x in [0u32, 1, 0x12345678, 0xdeadbeef, 0xffffffff] {
        assert_eq!(Color::from_hex(x).as_u32(), x);
    }
    let c = Color::new(9, 8, 7, 6);
    assert_eq!(Color::from_hex(c.as_u32()), c);
}

#[test]
fn invert_complements_rgb_keeps_alpha() {
    let c = Color::new(0, 100, 255, 7);
    assert_eq!(c.invert(), Color::new(255, 155, 0, 7));
    assert_eq!(c.invert().invert(), c);
}
