//! The theme resource: named color scales, a light/dark mode, and the
//! switches the demo screens flip at runtime. Each scale runs from its
//! lightest shade at index 0 to its darkest at index 10.

use vstd::prelude::*;
use crate::color::{hex_color, spec_hex_color, spec_black, spec_white, Rgba8};

mod button;

pub use button::{
    button_base_effects, button_bg_color, button_color, button_dynamic_effects,
    button_size_effects, spec_button_base_effects, spec_button_bg_color, spec_button_color,
    spec_button_dynamic_effects, spec_button_size_effects, Button, ButtonColor, ButtonSize,
    ButtonVariant, ClickResponse,
};

verus! {

/// Whether widgets render against a dark or a light background.
#[allow(non_camel_case_types)]
#[derive(Clone, Copy, Debug, PartialEq, Eq, Structural)]
pub enum ThemeMode {
    DARK,
    LIGHT,
}

impl Default for ThemeMode {
    fn default() -> (m: Self)
        ensures
            m == ThemeMode::DARK,
    {
        ThemeMode::DARK
    }
}

/// The color scales a theme carries. `primary` and `gray` are the scales
/// widgets actually read; the named scales are the choices they can be
/// switched to.
#[derive(Clone, Copy, Debug, PartialEq)]
pub struct ColorScales {
    pub primary: [Rgba8; 11],
    pub gray: [Rgba8; 11],
    pub green: [Rgba8; 11],
    pub indigo: [Rgba8; 11],
    pub blue: [Rgba8; 11],
    pub slate: [Rgba8; 11],
    pub cool: [Rgba8; 11],
    pub zinc: [Rgba8; 11],
    pub neutral: [Rgba8; 11],
    pub stone: [Rgba8; 11],
    pub white: Rgba8,
    pub black: Rgba8,
}

/// The colors a list of hex strings denotes.
pub open spec fn scale_colors(strs: Seq<Seq<char>>) -> Seq<Rgba8> {
    strs.map_values(|s: Seq<char>| spec_hex_color(s)->0)
}

pub open spec fn green_hex() -> Seq<Seq<char>> {
    seq!["#f0fdf4"@, "#dcfce7"@, "#bbf7d0"@, "#86efac"@, "#4ade80"@, "#22c55e"@, "#16a34a"@, "#15803d"@, "#166534"@, "#14532d"@, "#052e16"@]
}

pub open spec fn spec_green_scale() -> Seq<Rgba8> {
    scale_colors(green_hex())
}

pub open spec fn zinc_hex() -> Seq<Seq<char>> {
    seq!["#fafafa"@, "#f5f5f5"@, "#e5e5e5"@, "#d4d4d4"@, "#a3a3a3"@, "#737373"@, "#525252"@, "#404040"@, "#262626"@, "#171717"@, "#0a0a0a"@]
}

pub open spec fn spec_zinc_scale() -> Seq<Rgba8> {
    scale_colors(zinc_hex())
}

pub open spec fn indigo_hex() -> Seq<Seq<char>> {
    seq!["#eef2ff"@, "#e0e7ff"@, "#c7d2fe"@, "#a5b4fc"@, "#818cf8"@, "#6366f1"@, "#4f46e5"@, "#4338ca"@, "#3730a3"@, "#312e81"@, "#1e1b4b"@]
}

pub open spec fn spec_indigo_scale() -> Seq<Rgba8> {
    scale_colors(indigo_hex())
}

pub open spec fn blue_hex() -> Seq<Seq<char>> {
    seq!["#eff6ff"@, "#dbeafe"@, "#bfdbfe"@, "#93c5fd"@, "#60a5fa"@, "#3b82f6"@, "#2563eb"@, "#1d4ed8"@, "#1e40af"@, "#1e3a8a"@, "#172554"@]
}

pub open spec fn spec_blue_scale() -> Seq<Rgba8> {
    scale_colors(blue_hex())
}

pub open spec fn slate_hex() -> Seq<Seq<char>> {
    seq!["#f8fafc"@, "#f1f5f9"@, "#e2e8f0"@, "#cbd5e1"@, "#94a3b8"@, "#64748b"@, "#475569"@, "#334155"@, "#1e293b"@, "#0f172a"@, "#020617"@]
}

pub open spec fn spec_slate_scale() -> Seq<Rgba8> {
    scale_colors(slate_hex())
}

pub open spec fn neutral_hex() -> Seq<Seq<char>> {
    seq!["#fafafa"@, "#f5f5f5"@, "#e5e5e5"@, "#d4d4d4"@, "#a3a3a3"@, "#737373"@, "#525252"@, "#404040"@, "#262626"@, "#171717"@, "#0a0a0a"@]
}

pub open spec fn spec_neutral_scale() -> Seq<Rgba8> {
    scale_colors(neutral_hex())
}

pub open spec fn stone_hex() -> Seq<Seq<char>> {
    seq!["#fafaf9"@, "#f5f5f4"@, "#e7e5e4"@, "#d6d3d1"@, "#a8a29e"@, "#78716c"@, "#57534e"@, "#44403c"@, "#292524"@, "#1c1917"@, "#0c0a09"@]
}

pub open spec fn spec_stone_scale() -> Seq<Rgba8> {
    scale_colors(stone_hex())
}

pub open spec fn cool_hex() -> Seq<Seq<char>> {
    seq!["#f9fafb"@, "#f3f4f6"@, "#e5e7eb"@, "#d1d5db"@, "#9ca3af"@, "#6b7280"@, "#4b5563"@, "#374151"@, "#1f2937"@, "#111827"@, "#030712"@]
}

pub open spec fn spec_cool_scale() -> Seq<Rgba8> {
    scale_colors(cool_hex())
}

fn into_colors(colors: [&str; 11]) -> (out: [Rgba8; 11])
    requires
        spec_hex_color(colors@[0]@) is Some,
        spec_hex_color(colors@[1]@) is Some,
        spec_hex_color(colors@[2]@) is Some,
        spec_hex_color(colors@[3]@) is Some,
        spec_hex_color(colors@[4]@) is Some,
        spec_hex_color(colors@[5]@) is Some,
        spec_hex_color(colors@[6]@) is Some,
        spec_hex_color(colors@[7]@) is Some,
        spec_hex_color(colors@[8]@) is Some,
        spec_hex_color(colors@[9]@) is Some,
        spec_hex_color(colors@[10]@) is Some,
    ensures
        out@.len() == 11,
        out@[0] == spec_hex_color(colors@[0]@)->0,
        out@[1] == spec_hex_color(colors@[1]@)->0,
        out@[2] == spec_hex_color(colors@[2]@)->0,
        out@[3] == spec_hex_color(colors@[3]@)->0,
        out@[4] == spec_hex_color(colors@[4]@)->0,
        out@[5] == spec_hex_color(colors@[5]@)->0,
        out@[6] == spec_hex_color(colors@[6]@)->0,
        out@[7] == spec_hex_color(colors@[7]@)->0,
        out@[8] == spec_hex_color(colors@[8]@)->0,
        out@[9] == spec_hex_color(colors@[9]@)->0,
        out@[10] == spec_hex_color(colors@[10]@)->0,
{
    [
        hex_color(colors[0]).unwrap(),
        hex_color(colors[1]).unwrap(),
        hex_color(colors[2]).unwrap(),
        hex_color(colors[3]).unwrap(),
        hex_color(colors[4]).unwrap(),
        hex_color(colors[5]).unwrap(),
        hex_color(colors[6]).unwrap(),
        hex_color(colors[7]).unwrap(),
        hex_color(colors[8]).unwrap(),
        hex_color(colors[9]).unwrap(),
        hex_color(colors[10]).unwrap(),
    ]
}

/// The theme resource: the mode and the scales in force.
#[derive(Clone, Copy, Debug, PartialEq)]
pub struct QuillUiTheme {
    pub mode: ThemeMode,
    pub colors: ColorScales,
}

/// The theme a fresh application starts with: dark mode, green as the
/// primary scale and zinc as the gray scale.
pub open spec fn is_default_theme(t: QuillUiTheme) -> bool {
    &&& t.mode == ThemeMode::DARK
    &&& t.colors.primary@ == spec_green_scale()
    &&& t.colors.gray@ == spec_zinc_scale()
    &&& t.colors.green@ == spec_green_scale()
    &&& t.colors.indigo@ == spec_indigo_scale()
    &&& t.colors.blue@ == spec_blue_scale()
    &&& t.colors.slate@ == spec_slate_scale()
    &&& t.colors.cool@ == spec_cool_scale()
    &&& t.colors.zinc@ == spec_zinc_scale()
    &&& t.colors.neutral@ == spec_neutral_scale()
    &&& t.colors.stone@ == spec_stone_scale()
    &&& t.colors.white == spec_white()
    &&& t.colors.black == spec_black()
}

fn green_colors() -> (out: [Rgba8; 11])
    ensures
        out@ == spec_green_scale(),
{
    proof {
        reveal_strlit("#f0fdf4");
        reveal_strlit("#dcfce7");
        reveal_strlit("#bbf7d0");
        reveal_strlit("#86efac");
        reveal_strlit("#4ade80");
        reveal_strlit("#22c55e");
        reveal_strlit("#16a34a");
        reveal_strlit("#15803d");
        reveal_strlit("#166534");
        reveal_strlit("#14532d");
        reveal_strlit("#052e16");
    }
    let out = into_colors(["#f0fdf4", "#dcfce7", "#bbf7d0", "#86efac", "#4ade80", "#22c55e", "#16a34a", "#15803d", "#166534", "#14532d", "#052e16"]);
    proof {
        assert(out@ =~= spec_green_scale());
    }
    out
}

fn zinc_colors() -> (out: [Rgba8; 11])
    ensures
        out@ == spec_zinc_scale(),
{
    proof {
        reveal_strlit("#fafafa");
        reveal_strlit("#f5f5f5");
        reveal_strlit("#e5e5e5");
        reveal_strlit("#d4d4d4");
        reveal_strlit("#a3a3a3");
        reveal_strlit("#737373");
        reveal_strlit("#525252");
        reveal_strlit("#404040");
        reveal_strlit("#262626");
        reveal_strlit("#171717");
        reveal_strlit("#0a0a0a");
    }
    let out = into_colors(["#fafafa", "#f5f5f5", "#e5e5e5", "#d4d4d4", "#a3a3a3", "#737373", "#525252", "#404040", "#262626", "#171717", "#0a0a0a"]);
    proof {
        assert(out@ =~= spec_zinc_scale());
    }
    out
}

fn indigo_colors() -> (out: [Rgba8; 11])
    ensures
        out@ == spec_indigo_scale(),
{
    proof {
        reveal_strlit("#eef2ff");
        reveal_strlit("#e0e7ff");
        reveal_strlit("#c7d2fe");
        reveal_strlit("#a5b4fc");
        reveal_strlit("#818cf8");
        reveal_strlit("#6366f1");
        reveal_strlit("#4f46e5");
        reveal_strlit("#4338ca");
        reveal_strlit("#3730a3");
        reveal_strlit("#312e81");
        reveal_strlit("#1e1b4b");
    }
    let out = into_colors(["#eef2ff", "#e0e7ff", "#c7d2fe", "#a5b4fc", "#818cf8", "#6366f1", "#4f46e5", "#4338ca", "#3730a3", "#312e81", "#1e1b4b"]);
    proof {
        assert(out@ =~= spec_indigo_scale());
    }
    out
}

fn blue_colors() -> (out: [Rgba8; 11])
    ensures
        out@ == spec_blue_scale(),
{
    proof {
        reveal_strlit("#eff6ff");
        reveal_strlit("#dbeafe");
        reveal_strlit("#bfdbfe");
        reveal_strlit("#93c5fd");
        reveal_strlit("#60a5fa");
        reveal_strlit("#3b82f6");
        reveal_strlit("#2563eb");
        reveal_strlit("#1d4ed8");
        reveal_strlit("#1e40af");
        reveal_strlit("#1e3a8a");
        reveal_strlit("#172554");
    }
    let out = into_colors(["#eff6ff", "#dbeafe", "#bfdbfe", "#93c5fd", "#60a5fa", "#3b82f6", "#2563eb", "#1d4ed8", "#1e40af", "#1e3a8a", "#172554"]);
    proof {
        assert(out@ =~= spec_blue_scale());
    }
    out
}

fn slate_colors() -> (out: [Rgba8; 11])
    ensures
        out@ == spec_slate_scale(),
{
    proof {
        reveal_strlit("#f8fafc");
        reveal_strlit("#f1f5f9");
        reveal_strlit("#e2e8f0");
        reveal_strlit("#cbd5e1");
        reveal_strlit("#94a3b8");
        reveal_strlit("#64748b");
        reveal_strlit("#475569");
        reveal_strlit("#334155");
        reveal_strlit("#1e293b");
        reveal_strlit("#0f172a");
        reveal_strlit("#020617");
    }
    let out = into_colors(["#f8fafc", "#f1f5f9", "#e2e8f0", "#cbd5e1", "#94a3b8", "#64748b", "#475569", "#334155", "#1e293b", "#0f172a", "#020617"]);
    proof {
        assert(out@ =~= spec_slate_scale());
    }
    out
}

fn neutral_colors() -> (out: [Rgba8; 11])
    ensures
        out@ == spec_neutral_scale(),
{
    proof {
        reveal_strlit("#fafafa");
        reveal_strlit("#f5f5f5");
        reveal_strlit("#e5e5e5");
        reveal_strlit("#d4d4d4");
        reveal_strlit("#a3a3a3");
        reveal_strlit("#737373");
        reveal_strlit("#525252");
        reveal_strlit("#404040");
        reveal_strlit("#262626");
        reveal_strlit("#171717");
        reveal_strlit("#0a0a0a");
    }
    let out = into_colors(["#fafafa", "#f5f5f5", "#e5e5e5", "#d4d4d4", "#a3a3a3", "#737373", "#525252", "#404040", "#262626", "#171717", "#0a0a0a"]);
    proof {
        assert(out@ =~= spec_neutral_scale());
    }
    out
}

fn stone_colors() -> (out: [Rgba8; 11])
    ensures
        out@ == spec_stone_scale(),
{
    proof {
        reveal_strlit("#fafaf9");
        reveal_strlit("#f5f5f4");
        reveal_strlit("#e7e5e4");
        reveal_strlit("#d6d3d1");
        reveal_strlit("#a8a29e");
        reveal_strlit("#78716c");
        reveal_strlit("#57534e");
        reveal_strlit("#44403c");
        reveal_strlit("#292524");
        reveal_strlit("#1c1917");
        reveal_strlit("#0c0a09");
    }
    let out = into_colors(["#fafaf9", "#f5f5f4", "#e7e5e4", "#d6d3d1", "#a8a29e", "#78716c", "#57534e", "#44403c", "#292524", "#1c1917", "#0c0a09"]);
    proof {
        assert(out@ =~= spec_stone_scale());
    }
    out
}

fn cool_colors() -> (out: [Rgba8; 11])
    ensures
        out@ == spec_cool_scale(),
{
    proof {
        reveal_strlit("#f9fafb");
        reveal_strlit("#f3f4f6");
        reveal_strlit("#e5e7eb");
        reveal_strlit("#d1d5db");
        reveal_strlit("#9ca3af");
        reveal_strlit("#6b7280");
        reveal_strlit("#4b5563");
        reveal_strlit("#374151");
        reveal_strlit("#1f2937");
        reveal_strlit("#111827");
        reveal_strlit("#030712");
    }
    let out = into_colors(["#f9fafb", "#f3f4f6", "#e5e7eb", "#d1d5db", "#9ca3af", "#6b7280", "#4b5563", "#374151", "#1f2937", "#111827", "#030712"]);
    proof {
        assert(out@ =~= spec_cool_scale());
    }
    out
}

impl Default for QuillUiTheme {
    fn default() -> (t: Self)
        ensures
            is_default_theme(t),
    {
        let green = green_colors();
        let zinc = zinc_colors();
        QuillUiTheme {
            mode: ThemeMode::DARK,
            colors: ColorScales {
                primary: green,
                gray: zinc,
                green,
                indigo: indigo_colors(),
                blue: blue_colors(),
                slate: slate_colors(),
                cool: cool_colors(),
                zinc,
                neutral: neutral_colors(),
                stone: stone_colors(),
                white: Rgba8::white(),
                black: Rgba8::black(),
            },
        }
    }
}

impl QuillUiTheme {
    /// Switches the light/dark mode, leaving the scales alone, and returns
    /// the window clear color that goes with the new mode: a light gray in
    /// light mode, a near-black gray in dark mode.
    pub fn set_mode(&mut self, mode: ThemeMode) -> (clear: Rgba8)
        ensures
            final(self).mode == mode,
            final(self).colors == old(self).colors,
            clear == (if mode == ThemeMode::LIGHT {
                old(self).colors.gray@[2]
            } else {
                old(self).colors.gray@[9]
            }),
    {
        self.mode = mode;
        if mode == ThemeMode::LIGHT {
            self.colors.gray[2]
        } else {
            self.colors.gray[9]
        }
    }

    /// Makes `scale` the primary scale, leaving everything else alone.
    pub fn set_primary(&mut self, scale: [Rgba8; 11])
        ensures
            final(self).mode == old(self).mode,
            final(self).colors == (ColorScales { primary: scale, ..old(self).colors }),
    {
        self.colors.primary = scale;
    }

    /// Makes `scale` the gray scale, leaving everything else alone, and
    /// returns the window clear color that goes with it: its darkest-but-one
    /// shade in dark mode, a light shade in light mode.
    pub fn set_gray(&mut self, scale: [Rgba8; 11]) -> (clear: Rgba8)
        ensures
            final(self).mode == old(self).mode,
            final(self).colors == (ColorScales { gray: scale, ..old(self).colors }),
            clear == (if old(self).mode == ThemeMode::DARK {
                scale@[9]
            } else {
                scale@[2]
            }),
    {
        self.colors.gray = scale;
        if self.mode == ThemeMode::DARK {
            self.colors.gray[9]
        } else {
            self.colors.gray[2]
        }
    }
}

/// The plugin that installs the theme into a host application.
pub struct QuillUiPlugin;

impl QuillUiPlugin {
    /// The resource the plugin registers: the default theme.
    pub fn build(&self) -> (t: QuillUiTheme)
        ensures
            is_default_theme(t),
    {
        QuillUiTheme::default()
    }
}

} // verus!
