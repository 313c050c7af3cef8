//! The button widget: builder-style configuration, and the rules that pick
//! its colors from the theme by button color, theme mode and hover state.

use vstd::prelude::*;
use crate::color::{spec_black, Rgba8};
use crate::style::{AlignKind, CursorKind, DisplayKind, Length, StyleEffect};
use crate::ui::{QuillUiTheme, ThemeMode};

verus! {

/// The rendering variant of a button.
#[derive(Clone, Copy, Debug, PartialEq, Eq, Structural)]
pub enum ButtonVariant {
    Link,
    Solid,
    Outline,
    Soft,
    Phantom,
}

impl Default for ButtonVariant {
    fn default() -> (v: Self)
        ensures
            v == ButtonVariant::Solid,
    {
        ButtonVariant::Solid
    }
}

/// The color a button is drawn with, named after the theme scales.
#[derive(Clone, Copy, Debug, PartialEq, Eq, Structural)]
pub enum ButtonColor {
    Primary,
    Indigo,
    Blue,
    Green,
    White,
    Black,
    Gray,
}

impl Default for ButtonColor {
    fn default() -> (c: Self)
        ensures
            c == ButtonColor::Primary,
    {
        ButtonColor::Primary
    }
}

/// The size of a button.
#[derive(Clone, Copy, Debug, PartialEq, Eq, Structural)]
pub enum ButtonSize {
    XS,
    SM,
    MD,
    LG,
    XL,
}

impl Default for ButtonSize {
    fn default() -> (s: Self)
        ensures
            s == ButtonSize::SM,
    {
        ButtonSize::SM
    }
}

/// A button: a label, a color, a variant, a size, extra styles, and an
/// optional click callback, named by the handle a host gave out for it.
#[derive(Clone, Debug, PartialEq)]
pub struct Button {
    pub children: String,
    pub color: ButtonColor,
    pub variant: ButtonVariant,
    pub size: ButtonSize,
    pub style: Vec<StyleEffect>,
    pub block: bool,
    pub on_click: Option<u64>,
}

impl Default for Button {
    fn default() -> (b: Self)
        ensures
            b.children@ == Seq::<char>::empty(),
            b.color == ButtonColor::Primary,
            b.variant == ButtonVariant::Solid,
            b.size == ButtonSize::SM,
            b.style@ == Seq::<StyleEffect>::empty(),
            !b.block,
            b.on_click is None,
    {
        Button {
            children: String::new(),
            color: ButtonColor::Primary,
            variant: ButtonVariant::Solid,
            size: ButtonSize::SM,
            style: Vec::new(),
            block: false,
            on_click: None,
        }
    }
}

impl Button {
    /// A fresh button with the default look and no callback.
    pub fn new() -> (b: Button)
        ensures
            b.children@ == Seq::<char>::empty(),
            b.color == ButtonColor::Primary,
            b.variant == ButtonVariant::Solid,
            b.size == ButtonSize::SM,
            b.style@ == Seq::<StyleEffect>::empty(),
            !b.block,
            b.on_click is None,
    {
        Button::default()
    }

    /// The same button with its label replaced.
    pub fn children(self, children: String) -> (b: Self)
        ensures
            b == (Button { children, ..self }),
    {
        Button { children, ..self }
    }

    /// The same button with its color replaced.
    pub fn color(self, color: ButtonColor) -> (b: Self)
        ensures
            b == (Button { color, ..self }),
    {
        Button { color, ..self }
    }

    /// The same button with its size replaced.
    pub fn size(self, size: ButtonSize) -> (b: Self)
        ensures
            b == (Button { size, ..self }),
    {
        Button { size, ..self }
    }

    /// The same button with a click callback attached.
    pub fn on_click(self, callback: u64) -> (b: Self)
        ensures
            b == (Button { on_click: Some(callback), ..self }),
    {
        Button { on_click: Some(callback), ..self }
    }

    /// The same button with its extra styles replaced.
    pub fn style(self, style: Vec<StyleEffect>) -> (b: Self)
        ensures
            b == (Button { style, ..self }),
    {
        Button { style, ..self }
    }
}

/// The background color of a button. Scale-colored buttons use the hover
/// shade of their scale while hovered and otherwise a mode-dependent shade;
/// white and black buttons swap between white and the darkest grays by
/// mode, and gray buttons use a fixed gray per mode.
pub open spec fn spec_button_bg_color(
    color: ButtonColor,
    theme: QuillUiTheme,
    is_hovering: bool,
) -> Rgba8 {
    let mode = theme.mode;
    let index: int = if is_hovering {
        5
    } else if mode == ThemeMode::DARK {
        4
    } else {
        6
    };
    match color {
        ButtonColor::Primary => theme.colors.primary@[index],
        ButtonColor::Indigo => theme.colors.indigo@[index],
        ButtonColor::Blue => theme.colors.blue@[index],
        ButtonColor::Green => theme.colors.green@[index],
        ButtonColor::White => if mode == ThemeMode::DARK {
            if is_hovering {
                theme.colors.gray@[8]
            } else {
                theme.colors.gray@[9]
            }
        } else {
            if is_hovering {
                theme.colors.gray@[1]
            } else {
                theme.colors.white
            }
        },
        ButtonColor::Black => if mode == ThemeMode::DARK {
            if is_hovering {
                theme.colors.gray@[1]
            } else {
                theme.colors.white
            }
        } else {
            if is_hovering {
                theme.colors.gray@[8]
            } else {
                theme.colors.gray@[9]
            }
        },
        ButtonColor::Gray => if mode == ThemeMode::DARK {
            theme.colors.gray@[8]
        } else {
            theme.colors.gray@[0]
        },
    }
}

/// Picks the background color of a button.
pub fn button_bg_color(color: ButtonColor, theme: QuillUiTheme, is_hovering: bool) -> (c: Rgba8)
    ensures
        c == spec_button_bg_color(color, theme, is_hovering),
{
    let index: usize = if is_hovering {
        5
    } else if theme.mode == ThemeMode::DARK {
        4
    } else {
        6
    };
    match color {
        ButtonColor::Primary => theme.colors.primary[index],
        ButtonColor::Indigo => theme.colors.indigo[index],
        ButtonColor::Blue => theme.colors.blue[index],
        ButtonColor::Green => theme.colors.green[index],
        ButtonColor::White => if theme.mode == ThemeMode::DARK {
            if is_hovering {
                theme.colors.gray[8]
            } else {
                theme.colors.gray[9]
            }
        } else {
            if is_hovering {
                theme.colors.gray[1]
            } else {
                theme.colors.white
            }
        },
        ButtonColor::Black => if theme.mode == ThemeMode::DARK {
            if is_hovering {
                theme.colors.gray[1]
            } else {
                theme.colors.white
            }
        } else {
            if is_hovering {
                theme.colors.gray[8]
            } else {
                theme.colors.gray[9]
            }
        },
        ButtonColor::Gray => if theme.mode == ThemeMode::DARK {
            theme.colors.gray[8]
        } else {
            theme.colors.gray[0]
        },
    }
}

/// The label color of a button: white and gray buttons keep their label
/// readable against their own background, every other button uses white on
/// a light theme and a near-white gray on a dark theme.
pub open spec fn spec_button_color(
    color: ButtonColor,
    theme: QuillUiTheme,
    is_hovering: bool,
) -> Rgba8 {
    let mode = theme.mode;
    match color {
        ButtonColor::White => if mode == ThemeMode::DARK {
            theme.colors.white
        } else {
            theme.colors.gray@[9]
        },
        ButtonColor::Gray => if mode == ThemeMode::DARK {
            theme.colors.white
        } else {
            theme.colors.gray@[7]
        },
        _ => if mode == ThemeMode::LIGHT {
            theme.colors.white
        } else {
            theme.colors.gray@[9]
        },
    }
}

/// Picks the label color of a button.
pub fn button_color(color: ButtonColor, theme: QuillUiTheme, is_hovering: bool) -> (c: Rgba8)
    ensures
        c == spec_button_color(color, theme, is_hovering),
{
    match color {
        ButtonColor::White => if theme.mode == ThemeMode::DARK {
            theme.colors.white
        } else {
            theme.colors.gray[9]
        },
        ButtonColor::Gray => if theme.mode == ThemeMode::DARK {
            theme.colors.white
        } else {
            theme.colors.gray[7]
        },
        _ => if theme.mode == ThemeMode::LIGHT {
            theme.colors.white
        } else {
            theme.colors.gray[9]
        },
    }
}

/// The styles every button starts from: a pointer cursor, a centered flex
/// row that does not shrink, rounded corners, and a thin black border.
pub open spec fn spec_button_base_effects() -> Seq<StyleEffect> {
    seq![
        StyleEffect::Cursor(CursorKind::Pointer),
        StyleEffect::Display(DisplayKind::Flex),
        StyleEffect::FlexShrink(0),
        StyleEffect::JustifyItems(AlignKind::Center),
        StyleEffect::AlignItems(AlignKind::Center),
        StyleEffect::BorderRadius(Length::Px(6000)),
        StyleEffect::Border(1),
        StyleEffect::BorderColor(spec_black()),
    ]
}

/// The styles every button starts from.
pub fn button_base_effects() -> (v: Vec<StyleEffect>)
    ensures
        v@ == spec_button_base_effects(),
{
    let mut v: Vec<StyleEffect> = Vec::new();
    v.push(StyleEffect::Cursor(CursorKind::Pointer));
    v.push(StyleEffect::Display(DisplayKind::Flex));
    v.push(StyleEffect::FlexShrink(0));
    v.push(StyleEffect::JustifyItems(AlignKind::Center));
    v.push(StyleEffect::AlignItems(AlignKind::Center));
    v.push(StyleEffect::BorderRadius(Length::Px(6000)));
    v.push(StyleEffect::Border(1));
    v.push(StyleEffect::BorderColor(Rgba8 { r: 0, g: 0, b: 0, a: 255 }));
    proof {
        assert(v@ =~= spec_button_base_effects());
    }
    v
}

/// The theme- and hover-dependent styles of a button: its background and
/// label colors, and, for white and gray buttons only, a one-pixel border
/// in a mode-dependent gray.
pub open spec fn spec_button_dynamic_effects(
    color: ButtonColor,
    theme: QuillUiTheme,
    is_hovering: bool,
) -> Seq<StyleEffect> {
    let base = seq![
        StyleEffect::BackgroundColor(spec_button_bg_color(color, theme, is_hovering)),
        StyleEffect::TextColor(spec_button_color(color, theme, is_hovering)),
    ];
    if color == ButtonColor::White || color == ButtonColor::Gray {
        base + seq![
            StyleEffect::Border(1),
            StyleEffect::BorderColor(
                theme.colors.gray@[if theme.mode == ThemeMode::DARK {
                    7int
                } else {
                    3int
                }],
            ),
        ]
    } else {
        base + seq![StyleEffect::Border(0)]
    }
}

/// Computes the theme- and hover-dependent styles of a button.
pub fn button_dynamic_effects(color: ButtonColor, theme: &QuillUiTheme, is_hovering: bool) -> (v:
    Vec<StyleEffect>)
    ensures
        v@ == spec_button_dynamic_effects(color, *theme, is_hovering),
{
    let mut v: Vec<StyleEffect> = Vec::new();
    v.push(StyleEffect::BackgroundColor(button_bg_color(color, *theme, is_hovering)));
    v.push(StyleEffect::TextColor(button_color(color, *theme, is_hovering)));
    if color == ButtonColor::White || color == ButtonColor::Gray {
        v.push(StyleEffect::Border(1));
        let idx: usize = if theme.mode == ThemeMode::DARK {
            7
        } else {
            3
        };
        v.push(StyleEffect::BorderColor(theme.colors.gray[idx]));
    } else {
        v.push(StyleEffect::Border(0));
    }
    proof {
        assert(v@ =~= spec_button_dynamic_effects(color, *theme, is_hovering));
    }
    v
}

/// The size-dependent styles of a button: the gap between its children,
/// its font size, and its horizontal and vertical padding.
pub open spec fn spec_button_size_effects(size: ButtonSize) -> Seq<StyleEffect> {
    let (gap, font, px, py): (int, int, int, int) = match size {
        ButtonSize::XS => (6000, 12000, 10000, 6000),
        ButtonSize::SM => (6000, 16000, 10000, 6000),
        ButtonSize::MD => (8000, 16000, 12000, 8000),
        ButtonSize::LG => (10000, 16000, 14000, 10000),
        ButtonSize::XL => (10000, 16000, 14000, 10000),
    };
    seq![
        StyleEffect::ColumnGap(Length::Px(gap as i64)),
        StyleEffect::FontSize(font as i64),
        StyleEffect::PaddingLeft(Length::Px(px as i64)),
        StyleEffect::PaddingRight(Length::Px(px as i64)),
        StyleEffect::PaddingTop(Length::Px(py as i64)),
        StyleEffect::PaddingBottom(Length::Px(py as i64)),
    ]
}

/// Computes the size-dependent styles of a button.
pub fn button_size_effects(size: ButtonSize) -> (v: Vec<StyleEffect>)
    ensures
        v@ == spec_button_size_effects(size),
{
    let (gap, font, px, py): (i64, i64, i64, i64) = match size {
        ButtonSize::XS => (6000, 12000, 10000, 6000),
        ButtonSize::SM => (6000, 16000, 10000, 6000),
        ButtonSize::MD => (8000, 16000, 12000, 8000),
        ButtonSize::LG => (10000, 16000, 14000, 10000),
        ButtonSize::XL => (10000, 16000, 14000, 10000),
    };
    let mut v: Vec<StyleEffect> = Vec::new();
    v.push(StyleEffect::ColumnGap(Length::Px(gap)));
    v.push(StyleEffect::FontSize(font));
    v.push(StyleEffect::PaddingLeft(Length::Px(px)));
    v.push(StyleEffect::PaddingRight(Length::Px(px)));
    v.push(StyleEffect::PaddingTop(Length::Px(py)));
    v.push(StyleEffect::PaddingBottom(Length::Px(py)));
    proof {
        assert(v@ =~= spec_button_size_effects(size));
    }
    v
}

/// What a pointer click on a button does in the host.
#[derive(Clone, Copy, Debug, PartialEq, Eq, Structural)]
pub struct ClickResponse {
    /// The button takes keyboard focus.
    pub take_focus: bool,
    /// The click stops propagating to nodes behind the button.
    pub stop_propagation: bool,
    /// The callback the host should run, if any.
    pub run_callback: Option<u64>,
}

impl Button {
    /// Decides what a pointer click does: the button always takes focus;
    /// unless the widget is disabled, the click stops propagating and the
    /// configured callback runs.
    pub fn on_pointer_click(&self, disabled: bool) -> (r: ClickResponse)
        ensures
            r.take_focus,
            r.stop_propagation == !disabled,
            r.run_callback == (if !disabled {
                self.on_click
            } else {
                None::<u64>
            }),
    {
        if disabled {
            ClickResponse { take_focus: true, stop_propagation: false, run_callback: None }
        } else {
            ClickResponse { take_focus: true, stop_propagation: true, run_callback: self.on_click }
        }
    }

    /// Lays out the full style pipeline of the button as a host applies
    /// it: the base styles, then the button's extra styles, then the
    /// theme- and hover-dependent styles, then the extra styles once more
    /// — so that a user-supplied background or border overrides the
    /// computed one — then the size styles.
    pub fn create(&self, theme: &QuillUiTheme, is_hovering: bool) -> (v: Vec<StyleEffect>)
        ensures
            v@ == spec_button_base_effects() + self.style@ + spec_button_dynamic_effects(
                self.color,
                *theme,
                is_hovering,
            ) + self.style@ + spec_button_size_effects(self.size),
    {
        let mut v = button_base_effects();
        let mut extra = vstd::slice::slice_to_vec(self.style.as_slice());
        v.append(&mut extra);
        let mut dyn_effects = button_dynamic_effects(self.color, theme, is_hovering);
        v.append(&mut dyn_effects);
        let mut extra_again = vstd::slice::slice_to_vec(self.style.as_slice());
        v.append(&mut extra_again);
        let mut size_effects = button_size_effects(self.size);
        v.append(&mut size_effects);
        v
    }
}

} // verus!
