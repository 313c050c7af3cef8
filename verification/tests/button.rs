use quill_ui::color::Rgba8;
use quill_ui::style::{AlignKind, CursorKind, DisplayKind, Length, StyleEffect};
use quill_ui::ui::{
    button_base_effects, button_bg_color, button_color, button_dynamic_effects,
    button_size_effects, Button, ButtonColor, ButtonSize, ButtonVariant, QuillUiTheme, ThemeMode,
};

#[test]
fn builder_starts_from_the_defaults() {
    let b = Button::new();
    assert_eq!(b.children, "");
    assert_eq!(b.color, ButtonColor::Primary);
    assert_eq!(b.variant, ButtonVariant::Solid);
    assert_eq!(b.size, ButtonSize::SM);
    assert_eq!(b.style, vec![]);
    assert!(!b.block);
    assert_eq!(b.on_click, None);
}

#[test]
fn builder_sets_each_field() {
    let b = Button::new()
        .children("Indigo".to_string())
        .color(ButtonColor::Indigo)
        .size(ButtonSize::LG)
        .on_click(7)
        .style(vec![StyleEffect::Width(Length::Px(32000))]);
    assert_eq!(b.children, "Indigo");
    assert_eq!(b.color, ButtonColor::Indigo);
    assert_eq!(b.size, ButtonSize::LG);
    assert_eq!(b.on_click, Some(7));
    assert_eq!(b.style, vec![StyleEffect::Width(Length::Px(32000))]);
}

#[test]
fn background_uses_the_hover_shade_while_hovered() {
    let t = QuillUiTheme::default();
    assert_eq!(button_bg_color(ButtonColor::Primary, t, true), t.colors.primary[5]);
    assert_eq!(button_bg_color(ButtonColor::Indigo, t, true), t.colors.indigo[5]);
    assert_eq!(button_bg_color(ButtonColor::Blue, t, true), t.colors.blue[5]);
    assert_eq!(button_bg_color(ButtonColor::Green, t, true), t.colors.green[5]);
}

#[test]
fn background_shade_depends_on_the_mode() {
    let mut t = QuillUiTheme::default();
    // Dark mode, not hovered: shade 4.
    assert_eq!(button_bg_color(ButtonColor::Primary, t, false), t.colors.primary[4]);
    t.set_mode(ThemeMode::LIGHT);
    // Light mode, not hovered: shade 6.
    assert_eq!(button_bg_color(ButtonColor::Primary, t, false), t.colors.primary[6]);
}

#[test]
fn white_button_background() {
    let mut t = QuillUiTheme::default();
    assert_eq!(button_bg_color(ButtonColor::White, t, false), t.colors.gray[9]);
    assert_eq!(button_bg_color(ButtonColor::White, t, true), t.colors.gray[8]);
    t.set_mode(ThemeMode::LIGHT);
    assert_eq!(button_bg_color(ButtonColor::White, t, false), t.colors.white);
    assert_eq!(button_bg_color(ButtonColor::White, t, true), t.colors.gray[1]);
}

#[test]
fn black_button_background() {
    let mut t = QuillUiTheme::default();
    assert_eq!(button_bg_color(ButtonColor::Black, t, false), t.colors.white);
    assert_eq!(button_bg_color(ButtonColor::Black, t, true), t.colors.gray[1]);
    t.set_mode(ThemeMode::LIGHT);
    assert_eq!(button_bg_color(ButtonColor::Black, t, false), t.colors.gray[9]);
    assert_eq!(button_bg_color(ButtonColor::Black, t, true), t.colors.gray[8]);
}

#[test]
fn gray_button_background_ignores_hover() {
    let mut t = QuillUiTheme::default();
    assert_eq!(button_bg_color(ButtonColor::Gray, t, false), t.colors.gray[8]);
    assert_eq!(button_bg_color(ButtonColor::Gray, t, true), t.colors.gray[8]);
    t.set_mode(ThemeMode::LIGHT);
    assert_eq!(button_bg_color(ButtonColor::Gray, t, false), t.colors.gray[0]);
}

#[test]
fn label_color_by_mode_and_color() {
    let mut t = QuillUiTheme::default();
    assert_eq!(button_color(ButtonColor::Primary, t, false), t.colors.gray[9]);
    assert_eq!(button_color(ButtonColor::White, t, false), t.colors.white);
    assert_eq!(button_color(ButtonColor::Gray, t, false), t.colors.white);
    t.set_mode(ThemeMode::LIGHT);
    assert_eq!(button_color(ButtonColor::Primary, t, false), t.colors.white);
    assert_eq!(button_color(ButtonColor::White, t, false), t.colors.gray[9]);
    assert_eq!(button_color(ButtonColor::Gray, t, false), t.colors.gray[7]);
}

#[test]
fn base_effects_shape_the_button() {
    let v = button_base_effects();
    assert_eq!(
        v,
        vec![
            StyleEffect::Cursor(CursorKind::Pointer),
            StyleEffect::Display(DisplayKind::Flex),
            StyleEffect::FlexShrink(0),
            StyleEffect::JustifyItems(AlignKind::Center),
            StyleEffect::AlignItems(AlignKind::Center),
            StyleEffect::BorderRadius(Length::Px(6000)),
            StyleEffect::Border(1),
            StyleEffect::BorderColor(Rgba8 { r: 0, g: 0, b: 0, a: 255 }),
        ]
    );
}

#[test]
fn dynamic_effects_give_white_and_gray_buttons_a_border() {
    let t = QuillUiTheme::default();
    let v = button_dynamic_effects(ButtonColor::White, &t, false);
    assert_eq!(
        v,
        vec![
            StyleEffect::BackgroundColor(t.colors.gray[9]),
            StyleEffect::TextColor(t.colors.white),
            StyleEffect::Border(1),
            // Dark mode: the border gray is shade 7.
            StyleEffect::BorderColor(t.colors.gray[7]),
        ]
    );

    let mut light = QuillUiTheme::default();
    light.set_mode(ThemeMode::LIGHT);
    let v = button_dynamic_effects(ButtonColor::Gray, &light, false);
    assert_eq!(v[2], StyleEffect::Border(1));
    // Light mode: the border gray is shade 3.
    assert_eq!(v[3], StyleEffect::BorderColor(light.colors.gray[3]));
}

#[test]
fn dynamic_effects_drop_the_border_for_scale_colors() {
    let t = QuillUiTheme::default();
    let v = button_dynamic_effects(ButtonColor::Indigo, &t, true);
    assert_eq!(
        v,
        vec![
            StyleEffect::BackgroundColor(t.colors.indigo[5]),
            StyleEffect::TextColor(t.colors.gray[9]),
            StyleEffect::Border(0),
        ]
    );
}

#[test]
fn size_effects_table() {
    let xs = button_size_effects(ButtonSize::XS);
    assert_eq!(
        xs,
        vec![
            StyleEffect::ColumnGap(Length::Px(6000)),
            StyleEffect::FontSize(12000),
            StyleEffect::PaddingLeft(Length::Px(10000)),
            StyleEffect::PaddingRight(Length::Px(10000)),
            StyleEffect::PaddingTop(Length::Px(6000)),
            StyleEffect::PaddingBottom(Length::Px(6000)),
        ]
    );
    let md = button_size_effects(ButtonSize::MD);
    assert_eq!(md[0], StyleEffect::ColumnGap(Length::Px(8000)));
    assert_eq!(md[1], StyleEffect::FontSize(16000));
    assert_eq!(md[2], StyleEffect::PaddingLeft(Length::Px(12000)));
    assert_eq!(md[4], StyleEffect::PaddingTop(Length::Px(8000)));
    // The two largest sizes share one look.
    assert_eq!(button_size_effects(ButtonSize::LG), button_size_effects(ButtonSize::XL));
    // SM differs from XS only in font size.
    let sm = button_size_effects(ButtonSize::SM);
    assert_eq!(sm[1], StyleEffect::FontSize(16000));
    assert_eq!(sm[0], xs[0]);
    assert_eq!(sm[2..], xs[2..]);
}

#[test]
fn create_concatenates_the_style_pipeline() {
    let t = QuillUiTheme::default();
    let b = Button::new()
        .color(ButtonColor::Blue)
        .size(ButtonSize::LG)
        .style(vec![StyleEffect::Width(Length::Px(32000))]);
    let v = b.create(&t, false);
    let mut expected = button_base_effects();
    expected.push(StyleEffect::Width(Length::Px(32000)));
    expected.extend(button_dynamic_effects(ButtonColor::Blue, &t, false));
    // The extra styles come once more after the dynamic styles, so that
    // they override the computed colors.
    expected.push(StyleEffect::Width(Length::Px(32000)));
    expected.extend(button_size_effects(ButtonSize::LG));
    assert_eq!(v, expected);
}

#[test]
fn create_lets_the_extra_style_override_the_computed_background() {
    // The showcase's swatch buttons rely on their own background coming
    // after the computed one.
    let t = QuillUiTheme::default();
    let swatch = StyleEffect::BackgroundColor(t.colors.indigo[5]);
    let b = Button::new().style(vec![swatch]);
    let v = b.create(&t, false);
    let computed = StyleEffect::BackgroundColor(button_bg_color(ButtonColor::Primary, t, false));
    let last_background = v
        .iter()
        .rev()
        .find(|e| matches!(e, StyleEffect::BackgroundColor(_)))
        .unwrap();
    assert_eq!(*last_background, swatch);
    assert!(v.contains(&computed));
}

#[test]
fn click_runs_the_callback_only_when_enabled() {
    let b = Button::new().on_click(42);
    let r = b.on_pointer_click(false);
    assert!(r.take_focus);
    assert!(r.stop_propagation);
    assert_eq!(r.run_callback, Some(42));

    let r = b.on_pointer_click(true);
    assert!(r.take_focus);
    assert!(!r.stop_propagation);
    assert_eq!(r.run_callback, None);
}

#[test]
fn click_without_a_callback_still_takes_focus() {
    let b = Button::new();
    let r = b.on_pointer_click(false);
    assert!(r.take_focus);
    assert!(r.stop_propagation);
    assert_eq!(r.run_callback, None);
}
