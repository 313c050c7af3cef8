use bevy_color::ColorToPacked;
use quill_ui::color::{hex_color, Rgba8};

#[test]
fn hex_six_digits() {
    assert_eq!(hex_color("#f0fdf4"), Some(Rgba8 { r: 0xf0, g: 0xfd, b: 0xf4, a: 255 }));
    assert_eq!(hex_color("102030"), Some(Rgba8 { r: 0x10, g: 0x20, b: 0x30, a: 255 }));
}

#[test]
fn hex_short_forms_double_each_digit() {
    assert_eq!(hex_color("#f00"), Some(Rgba8 { r: 0xff, g: 0x00, b: 0x00, a: 255 }));
    assert_eq!(hex_color("#abc"), Some(Rgba8 { r: 0xaa, g: 0xbb, b: 0xcc, a: 255 }));
    assert_eq!(hex_color("#abcd"), Some(Rgba8 { r: 0xaa, g: 0xbb, b: 0xcc, a: 0xdd }));
}

#[test]
fn hex_eight_digits_carry_alpha() {
    assert_eq!(hex_color("#11223344"), Some(Rgba8 { r: 0x11, g: 0x22, b: 0x33, a: 0x44 }));
}

#[test]
fn hex_upper_and_lower_case() {
    assert_eq!(hex_color("#A1B2C3"), hex_color("#a1b2c3"));
    assert_eq!(hex_color("#A1B2C3"), Some(Rgba8 { r: 0xa1, g: 0xb2, b: 0xc3, a: 255 }));
}

#[test]
fn hex_rejects_bad_lengths_and_digits() {
    assert_eq!(hex_color(""), None);
    assert_eq!(hex_color("#"), None);
    assert_eq!(hex_color("#12345"), None);
    assert_eq!(hex_color("#1234567"), None);
    assert_eq!(hex_color("#123456789"), None);
    assert_eq!(hex_color("#zzz"), None);
    assert_eq!(hex_color("##1122"), None);
}

#[test]
fn hex_matches_the_engine_color_parser() {
    let cases = [
        "#f0fdf4", "#dcfce7", "#052e16", "#fafafa", "#0a0a0a", "#eef2ff", "#1e1b4b", "#f00",
        "#abc", "#abcd", "#11223344", "102030", "abc", "AABBCC", "#zzz", "#12345", "", "#",
        "#1234567",
    ];
    for s in cases {
        let ours = hex_color(s);
        let theirs = bevy_color::Srgba::hex(s).ok().map(|c| {
            let [r, g, b, a] = c.to_u8_array();
            Rgba8 { r, g, b, a }
        });
        assert_eq!(ours, theirs, "hex parse disagrees on {:?}", s);
    }
}
