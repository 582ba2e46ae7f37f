use omarchy_theme::Rgba;

#[test]
fn parse_hex_forms() {
    assert_eq!(
        Rgba::parse("#1e1e2e"),
        Some(Rgba {
            r: 30,
            g: 30,
            b: 46,
            a: 255
        })
    );
    assert_eq!(Rgba::parse("#fff"), Some(Rgba::white()));
    assert_eq!(
        Rgba::parse("#ff880080"),
        Some(Rgba {
            r: 255,
            g: 136,
            b: 0,
            a: 128
        })
    );
    assert_eq!(
        Rgba::parse("#FFC94D"),
        Some(Rgba {
            r: 255,
            g: 201,
            b: 77,
            a: 255
        })
    );
    assert_eq!(Rgba::parse("not a color"), None);
    assert_eq!(Rgba::parse("#12345"), None);
}

#[test]
fn parse_rgb_function() {
    assert_eq!(
        Rgba::parse("rgb(30, 30, 46)"),
        Some(Rgba {
            r: 30,
            g: 30,
            b: 46,
            a: 255
        })
    );
    assert_eq!(
        Rgba::parse("rgba(0, 0, 0, 0.5)"),
        Some(Rgba {
            r: 0,
            g: 0,
            b: 0,
            a: 128
        })
    );
}

#[test]
fn u32_roundtrip() {
    let c = Rgba {
        r: 0x89,
        g: 0xb4,
        b: 0xfa,
        a: 0x80,
    };
    assert_eq!(Rgba::from_u32(c.to_u32()), c);
}

#[test]
fn luminance_boundary() {
    assert!(!Rgba::parse("#80807e").unwrap().is_light_by_omarchy()); // 128+128+126 = 382
    assert!(Rgba::parse("#80807f").unwrap().is_light_by_omarchy()); // 383 > 382
}

#[test]
fn mix_at_a_quarter_rounds_half_up() {
    // mix #1e1e2e with #000000 at 25%: 30*0.75=22.5 -> 23, 46*0.75=34.5 -> 35
    let bg = Rgba::parse("#1e1e2e").unwrap();
    let dark = bg.mix_fraction(Rgba::black(), 1, 4);
    assert_eq!(dark.to_hex(), "#171723");
    assert_eq!(dark.a, 255);
}

#[test]
fn mix_ends_and_self() {
    let a = Rgba { r: 10, g: 200, b: 33, a: 255 };
    let b = Rgba { r: 250, g: 0, b: 99, a: 0 };
    assert_eq!(a.mix_fraction(b, 0, 5), a);
    assert_eq!(a.mix_fraction(b, 5, 5), b);
    assert_eq!(a.mix_fraction(a, 2, 5), a);
    // 20% toward white: 243*0.8 + 255*0.2 + 0.5 = 245.9 -> 245
    let red = Rgba::parse("#f38ba8").unwrap();
    assert_eq!(red.mix_fraction(Rgba::white(), 1, 5).to_hex(), "#f5a2b9");
}

#[test]
fn u32_packing_layout() {
    let c = Rgba { r: 0x12, g: 0x34, b: 0x56, a: 0x78 };
    assert_eq!(c.to_u32(), 0x12345678);
    assert_eq!(Rgba::from_u32(0xdeadbeef), Rgba { r: 0xde, g: 0xad, b: 0xbe, a: 0xef });
    assert_eq!(Rgba::from_u32(0xdeadbeef).to_u32(), 0xdeadbeef);
}

#[test]
fn hex_text_roundtrips() {
    let c = Rgba { r: 0x0a, g: 0xff, b: 0x80, a: 0x07 };
    assert_eq!(c.to_hex(), "#0aff80");
    assert_eq!(c.to_hex8(), "#0aff8007");
    assert_eq!(Rgba::parse(&c.to_hex8()), Some(c));
    assert_eq!(Rgba::parse(&c.to_hex()), Some(Rgba { a: 255, ..c }));
}

#[test]
fn parse_trims_and_short_forms() {
    assert_eq!(Rgba::parse("  #abc \n"), Some(Rgba { r: 0xaa, g: 0xbb, b: 0xcc, a: 255 }));
    assert_eq!(Rgba::parse("#ggg"), None);
    assert_eq!(Rgba::parse("#"), None);
    assert_eq!(Rgba::parse(""), None);
}

#[test]
fn parse_rgb_edges() {
    // channels clamp at 255 and truncate fractions
    assert_eq!(Rgba::parse("rgb(300, 12.9, 0)"), Some(Rgba { r: 255, g: 12, b: 0, a: 255 }));
    // spaces as separators
    assert_eq!(Rgba::parse("rgba(1 2 3 1)"), Some(Rgba { r: 1, g: 2, b: 3, a: 255 }));
    // missing closing parenthesis or too few channels
    assert_eq!(Rgba::parse("rgb(1, 2, 3"), None);
    assert_eq!(Rgba::parse("rgb(1, 2)"), None);
    assert_eq!(Rgba::parse("rgb(1, x, 3)"), None);
    // exponents and signs are numbers too
    assert_eq!(Rgba::parse("rgb(1e2, +5, 0.5e1)"), Some(Rgba { r: 100, g: 5, b: 5, a: 255 }));
    assert_eq!(Rgba::parse("rgba(0, 0, 0, 0.25)"), Some(Rgba { r: 0, g: 0, b: 0, a: 64 }));
}

#[test]
fn luminance_sum() {
    let c = Rgba { r: 100, g: 100, b: 100, a: 0 };
    assert_eq!(c.omarchy_luminance(), 300);
    assert!(!c.is_light_by_omarchy());
    assert_eq!(Rgba::white().omarchy_luminance(), 765);
}

#[test]
fn named_colors() {
    assert_eq!(Rgba::black(), Rgba { r: 0, g: 0, b: 0, a: 255 });
    assert_eq!(Rgba::white(), Rgba { r: 255, g: 255, b: 255, a: 255 });
    assert_eq!(Rgba::transparent(), Rgba { r: 0, g: 0, b: 0, a: 0 });
    assert_eq!(Rgba::default(), Rgba::transparent());
}
