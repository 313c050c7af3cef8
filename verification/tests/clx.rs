use quill_ui::clx;
use quill_ui::clx_checked;
use quill_ui::color::Rgba8;
use quill_ui::style::{AlignKind, DisplayKind, FlexDir, Length, StyleEffect, WrapKind};

#[test]
fn clx_showcase_row() {
    let effects = clx("flex justify-center text-[18px] items-center gap-[3px]");
    assert_eq!(
        effects,
        vec![
            StyleEffect::Display(DisplayKind::Flex),
            StyleEffect::JustifyContent(AlignKind::Center),
            StyleEffect::FontSize(18000),
            StyleEffect::AlignItems(AlignKind::Center),
            StyleEffect::Gap(Length::Px(3000)),
        ]
    );
}

#[test]
fn clx_background_and_padding() {
    let effects = clx("bg-[#f0f0f0] px-[32px] py-[8px]");
    assert_eq!(
        effects,
        vec![
            StyleEffect::BackgroundColor(Rgba8 { r: 0xf0, g: 0xf0, b: 0xf0, a: 255 }),
            StyleEffect::PaddingLeft(Length::Px(32000)),
            StyleEffect::PaddingRight(Length::Px(32000)),
            StyleEffect::PaddingTop(Length::Px(8000)),
            StyleEffect::PaddingBottom(Length::Px(8000)),
        ]
    );
}

#[test]
fn clx_named_text_color() {
    let effects = clx("text-black");
    assert_eq!(
        effects,
        vec![StyleEffect::TextColor(Rgba8 { r: 0, g: 0, b: 0, a: 255 })]
    );
    let effects = clx("text-white");
    assert_eq!(
        effects,
        vec![StyleEffect::TextColor(Rgba8 { r: 255, g: 255, b: 255, a: 255 })]
    );
}

#[test]
fn clx_rounded_width_height() {
    let effects = clx("rounded-[16px] w-[100px] h-[40px]");
    assert_eq!(
        effects,
        vec![
            StyleEffect::BorderRadius(Length::Px(16000)),
            StyleEffect::Width(Length::Px(100000)),
            // `h-` currently drives the width property as well.
            StyleEffect::Width(Length::Px(40000)),
        ]
    );
}

#[test]
fn clx_display_keywords() {
    assert_eq!(clx("flex"), vec![StyleEffect::Display(DisplayKind::Flex)]);
    assert_eq!(clx("hidden"), vec![StyleEffect::Display(DisplayKind::Hidden)]);
    assert_eq!(clx("block"), vec![StyleEffect::Display(DisplayKind::Block)]);
    assert_eq!(clx("grid"), vec![StyleEffect::Display(DisplayKind::Grid)]);
}

#[test]
fn clx_flex_keywords() {
    assert_eq!(
        clx("flex-row flex-col flex-wrap flex-nowrap content-center"),
        vec![
            StyleEffect::FlexDirection(FlexDir::Row),
            StyleEffect::FlexDirection(FlexDir::Column),
            StyleEffect::FlexWrap(WrapKind::Wrap),
            StyleEffect::FlexWrap(WrapKind::NoWrap),
            StyleEffect::AlignContent(AlignKind::Center),
        ]
    );
}

#[test]
fn clx_margins() {
    assert_eq!(
        clx("m-[4px] mx-[2px] my-[1px]"),
        vec![
            StyleEffect::Margin(Length::Px(4000)),
            StyleEffect::MarginLeft(Length::Px(2000)),
            StyleEffect::MarginRight(Length::Px(2000)),
            StyleEffect::MarginTop(Length::Px(1000)),
            StyleEffect::MarginBottom(Length::Px(1000)),
        ]
    );
}

#[test]
fn clx_padding_shorthand_and_border() {
    assert_eq!(
        clx("p-[3px] border-0"),
        vec![StyleEffect::Padding(Length::Px(3000)), StyleEffect::Border(0)]
    );
}

#[test]
fn clx_percent_and_auto() {
    assert_eq!(clx("w-[50%]"), vec![StyleEffect::Width(Length::Percent(50000))]);
    assert_eq!(clx("m-[auto]"), vec![StyleEffect::Margin(Length::Auto)]);
}

#[test]
fn clx_decimal_and_signed_sizes() {
    assert_eq!(clx("gap-[2.5px]"), vec![StyleEffect::Gap(Length::Px(2500))]);
    assert_eq!(clx("gap-[1.2345px]"), vec![StyleEffect::Gap(Length::Px(1234))]);
    assert_eq!(clx("gap-[-5px]"), vec![StyleEffect::Gap(Length::Px(-5000))]);
    assert_eq!(clx("gap-[+5px]"), vec![StyleEffect::Gap(Length::Px(5000))]);
}

#[test]
fn clx_exponent_sizes() {
    assert_eq!(clx("gap-[1e3px]"), vec![StyleEffect::Gap(Length::Px(1000000))]);
    assert_eq!(clx("gap-[2.5e2px]"), vec![StyleEffect::Gap(Length::Px(250000))]);
    assert_eq!(clx("gap-[1E2px]"), vec![StyleEffect::Gap(Length::Px(100000))]);
    assert_eq!(clx("gap-[4e-1px]"), vec![StyleEffect::Gap(Length::Px(400))]);
    assert_eq!(clx("gap-[1e-3px]"), vec![StyleEffect::Gap(Length::Px(1))]);
    // Truncated to three decimal places.
    assert_eq!(clx("gap-[1e-4px]"), vec![StyleEffect::Gap(Length::Px(0))]);
}

#[test]
fn clx_malformed_number_falls_back_to_zero() {
    assert_eq!(clx("gap-[xpx]"), vec![StyleEffect::Gap(Length::Px(0))]);
    assert_eq!(clx("gap-[1epx]"), vec![StyleEffect::Gap(Length::Px(0))]);
    assert_eq!(clx("gap-[1e2.5px]"), vec![StyleEffect::Gap(Length::Px(0))]);
    // Sizes of a billion units and beyond are outside the grammar.
    assert_eq!(clx("gap-[1000000000px]"), vec![StyleEffect::Gap(Length::Px(0))]);
    assert_eq!(clx("gap-[1e38px]"), vec![StyleEffect::Gap(Length::Px(0))]);
    assert_eq!(clx("gap-[999999999px]"), vec![StyleEffect::Gap(Length::Px(999999999000))]);
}

#[test]
fn clx_malformed_hex_falls_back_to_white() {
    assert_eq!(
        clx("bg-[#zzz]"),
        vec![StyleEffect::BackgroundColor(Rgba8 { r: 255, g: 255, b: 255, a: 255 })]
    );
    assert_eq!(
        clx("bg-[#12345]"),
        vec![StyleEffect::BackgroundColor(Rgba8 { r: 255, g: 255, b: 255, a: 255 })]
    );
}

#[test]
fn clx_unknown_token() {
    assert_eq!(clx("shadow-lg"), vec![StyleEffect::Unknown]);
    assert_eq!(
        clx("flex shadow-lg"),
        vec![StyleEffect::Display(DisplayKind::Flex), StyleEffect::Unknown]
    );
}

#[test]
fn clx_empty_and_whitespace() {
    assert_eq!(clx(""), vec![]);
    assert_eq!(
        clx("  flex\n\tgrid  "),
        vec![StyleEffect::Display(DisplayKind::Flex), StyleEffect::Display(DisplayKind::Grid)]
    );
}

#[test]
fn clx_checked_rejects_unimplemented_paths() {
    // A fraction inside a size, and a color token naming no known color,
    // are outside the implemented language.
    assert_eq!(clx_checked("p-[3/4]"), None);
    assert_eq!(clx_checked("bg-[salmon]"), None);
    assert_eq!(clx_checked("w-[3vh]"), None);
    // A percentage where a color is expected names no known color either.
    assert_eq!(clx_checked("text-[50%]"), None);
}

#[test]
fn clx_checked_accepts_the_implemented_language() {
    let effects = clx_checked("flex bg-[#102030] w-[10px]").unwrap();
    assert_eq!(
        effects,
        vec![
            StyleEffect::Display(DisplayKind::Flex),
            StyleEffect::BackgroundColor(Rgba8 { r: 0x10, g: 0x20, b: 0x30, a: 255 }),
            StyleEffect::Width(Length::Px(10000)),
        ]
    );
}

#[test]
fn clx_removes_every_occurrence_of_the_unit() {
    // Pattern removal scans the whole token, as `str::replace` does: both
    // `px` runs vanish and the digits join.
    assert_eq!(
        clx("px-[1px2px]"),
        vec![
            StyleEffect::PaddingLeft(Length::Px(12000)),
            StyleEffect::PaddingRight(Length::Px(12000)),
        ]
    );
}

#[test]
fn clx_text_pixel_size_wins_over_color() {
    // A `text-` token that mentions `px` is a font size, not a color.
    assert_eq!(clx("text-[18px]"), vec![StyleEffect::FontSize(18000)]);
}

#[test]
fn clx_auto_suffix() {
    // `auto` is detected as a suffix of the stripped token.
    assert_eq!(clx("w-[myauto]"), vec![StyleEffect::Width(Length::Auto)]);
}
