use quill_ui::color::Rgba8;
use quill_ui::ui::{QuillUiPlugin, QuillUiTheme, ThemeMode};

#[test]
fn default_theme_is_dark_with_green_primary_and_zinc_gray() {
    let t = QuillUiTheme::default();
    assert_eq!(t.mode, ThemeMode::DARK);
    assert_eq!(t.colors.primary, t.colors.green);
    assert_eq!(t.colors.gray, t.colors.zinc);
    assert_eq!(t.colors.white, Rgba8 { r: 255, g: 255, b: 255, a: 255 });
    assert_eq!(t.colors.black, Rgba8 { r: 0, g: 0, b: 0, a: 255 });
}

#[test]
fn default_theme_scale_values() {
    let t = QuillUiTheme::default();
    assert_eq!(t.colors.green[0], Rgba8 { r: 0xf0, g: 0xfd, b: 0xf4, a: 255 });
    assert_eq!(t.colors.green[5], Rgba8 { r: 0x22, g: 0xc5, b: 0x5e, a: 255 });
    assert_eq!(t.colors.green[10], Rgba8 { r: 0x05, g: 0x2e, b: 0x16, a: 255 });
    assert_eq!(t.colors.zinc[0], Rgba8 { r: 0xfa, g: 0xfa, b: 0xfa, a: 255 });
    assert_eq!(t.colors.zinc[9], Rgba8 { r: 0x17, g: 0x17, b: 0x17, a: 255 });
    assert_eq!(t.colors.indigo[5], Rgba8 { r: 0x63, g: 0x66, b: 0xf1, a: 255 });
    assert_eq!(t.colors.blue[5], Rgba8 { r: 0x3b, g: 0x82, b: 0xf6, a: 255 });
    assert_eq!(t.colors.slate[10], Rgba8 { r: 0x02, g: 0x06, b: 0x17, a: 255 });
    assert_eq!(t.colors.stone[0], Rgba8 { r: 0xfa, g: 0xfa, b: 0xf9, a: 255 });
    assert_eq!(t.colors.cool[5], Rgba8 { r: 0x6b, g: 0x72, b: 0x80, a: 255 });
    assert_eq!(t.colors.neutral, t.colors.zinc);
}

#[test]
fn every_scale_has_eleven_shades() {
    let t = QuillUiTheme::default();
    assert_eq!(t.colors.primary.len(), 11);
    assert_eq!(t.colors.gray.len(), 11);
    assert_eq!(t.colors.green.len(), 11);
    assert_eq!(t.colors.indigo.len(), 11);
    assert_eq!(t.colors.blue.len(), 11);
    assert_eq!(t.colors.slate.len(), 11);
    assert_eq!(t.colors.cool.len(), 11);
    assert_eq!(t.colors.zinc.len(), 11);
    assert_eq!(t.colors.neutral.len(), 11);
    assert_eq!(t.colors.stone.len(), 11);
}

#[test]
fn plugin_installs_the_default_theme() {
    let t = QuillUiPlugin.build();
    assert_eq!(t, QuillUiTheme::default());
}

#[test]
fn set_mode_switches_and_returns_the_clear_color() {
    let mut t = QuillUiTheme::default();
    let clear = t.set_mode(ThemeMode::LIGHT);
    assert_eq!(t.mode, ThemeMode::LIGHT);
    assert_eq!(clear, t.colors.gray[2]);
    let clear = t.set_mode(ThemeMode::DARK);
    assert_eq!(t.mode, ThemeMode::DARK);
    assert_eq!(clear, t.colors.gray[9]);
}

#[test]
fn set_mode_keeps_the_scales() {
    let mut t = QuillUiTheme::default();
    let before = t.colors;
    t.set_mode(ThemeMode::LIGHT);
    assert_eq!(t.colors, before);
}

#[test]
fn set_primary_swaps_only_the_primary_scale() {
    let mut t = QuillUiTheme::default();
    let indigo = t.colors.indigo;
    t.set_primary(indigo);
    assert_eq!(t.colors.primary, indigo);
    assert_eq!(t.colors.gray, QuillUiTheme::default().colors.gray);
    assert_eq!(t.colors.green, QuillUiTheme::default().colors.green);
}

#[test]
fn set_gray_swaps_the_gray_scale_and_returns_the_clear_color() {
    let mut t = QuillUiTheme::default();
    let slate = t.colors.slate;
    let clear = t.set_gray(slate);
    assert_eq!(t.colors.gray, slate);
    // Dark mode: the clear color is the darkest-but-one shade.
    assert_eq!(clear, slate[9]);

    t.set_mode(ThemeMode::LIGHT);
    let cool = t.colors.cool;
    let clear = t.set_gray(cool);
    assert_eq!(t.colors.gray, cool);
    assert_eq!(clear, cool[2]);
}
