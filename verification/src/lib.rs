//! A themeable UI widget kit: a color-scale theme resource, a button widget
//! with color/size styling rules, and a compact utility-class style language
//! (`clx`) that parses space-separated tokens such as `flex`, `px-[32px]` or
//! `bg-[#f0f0f0]` into structured style mutations.

use vstd::prelude::*;

pub mod color;
pub mod counter;
pub mod style;
pub mod text;
pub mod ui;

use crate::color::{spec_hex_color, spec_black, spec_white, hex_color_chars, Rgba8};
use crate::style::{AlignKind, DisplayKind, FlexDir, Length, StyleEffect, WrapKind};
use crate::text::{
    contains_char, contains_seq, ends_with, millis_or_default, parse_millis_or_default, remove_all,
    slice_contains_char, slice_contains_seq, slice_ends_with, slice_eq, slice_starts_with,
    spec_remove_all, spec_tokens, starts_with, str_chars, tokenize, views_of,
};

verus! {

/// A utility-class token with its wrapping brackets and its directive prefix
/// taken out: every occurrence of the prefix and of `[` and `]` is removed.
pub open spec fn stripped(prefix: Seq<char>, tok: Seq<char>) -> Seq<char> {
    spec_remove_all(spec_remove_all(spec_remove_all(tok, prefix), "["@), "]"@)
}

/// The size a spacing token denotes: `auto`, a percentage, or pixels, each
/// in thousandths. Numbers are fixed-point decimals with an optional
/// exponent (`32`, `2.5`, `1e3`); digits past the third decimal place are
/// dropped, and a number outside that grammar — or of a billion units or
/// more — falls back to zero. A token with `/` or without a recognized
/// unit is outside the language (`None`).
pub open spec fn spec_parse_val(prefix: Seq<char>, tok: Seq<char>) -> Option<Length> {
    let t = stripped(prefix, tok);
    if ends_with(t, "auto"@) {
        Some(Length::Auto)
    } else if contains_char(t, '/') {
        None
    } else if contains_char(t, '%') {
        Some(Length::Percent(millis_or_default(spec_remove_all(t, "%"@)) as i64))
    } else if contains_seq(t, "px"@) {
        Some(Length::Px(millis_or_default(spec_remove_all(t, "px"@)) as i64))
    } else {
        None
    }
}

/// The color a color token denotes: the names `black` and `white`, or hex
/// notation, falling back to white when the hex digits are malformed. A
/// token with none of these is outside the language (`None`).
pub open spec fn spec_parse_color(prefix: Seq<char>, tok: Seq<char>) -> Option<Rgba8> {
    let t = stripped(prefix, tok);
    if t == "black"@ {
        Some(spec_black())
    } else if t == "white"@ {
        Some(spec_white())
    } else if contains_char(t, '#') {
        match spec_hex_color(t) {
            Some(c) => Some(c),
            None => Some(spec_white()),
        }
    } else {
        None
    }
}

/// The style mutations one token stands for, `None` when the token reaches
/// an unimplemented corner of the language. A token outside the vocabulary
/// altogether maps to a single `Unknown` effect.
pub open spec fn spec_token_effects(t: Seq<char>) -> Option<Seq<StyleEffect>> {
    if t == "flex"@ {
        Some(seq![StyleEffect::Display(DisplayKind::Flex)])
    } else if t == "hidden"@ {
        Some(seq![StyleEffect::Display(DisplayKind::Hidden)])
    } else if t == "block"@ {
        Some(seq![StyleEffect::Display(DisplayKind::Block)])
    } else if t == "grid"@ {
        Some(seq![StyleEffect::Display(DisplayKind::Grid)])
    } else if t == "flex-row"@ {
        Some(seq![StyleEffect::FlexDirection(FlexDir::Row)])
    } else if t == "flex-col"@ {
        Some(seq![StyleEffect::FlexDirection(FlexDir::Column)])
    } else if t == "flex-wrap"@ {
        Some(seq![StyleEffect::FlexWrap(WrapKind::Wrap)])
    } else if t == "flex-nowrap"@ {
        Some(seq![StyleEffect::FlexWrap(WrapKind::NoWrap)])
    } else if t == "justify-center"@ {
        Some(seq![StyleEffect::JustifyContent(AlignKind::Center)])
    } else if t == "items-center"@ {
        Some(seq![StyleEffect::AlignItems(AlignKind::Center)])
    } else if t == "content-center"@ {
        Some(seq![StyleEffect::AlignContent(AlignKind::Center)])
    } else if starts_with(t, "px-"@) {
        match spec_parse_val("px-"@, t) {
            Some(v) => Some(seq![StyleEffect::PaddingLeft(v), StyleEffect::PaddingRight(v)]),
            None => None,
        }
    } else if starts_with(t, "py-"@) {
        match spec_parse_val("py-"@, t) {
            Some(v) => Some(seq![StyleEffect::PaddingTop(v), StyleEffect::PaddingBottom(v)]),
            None => None,
        }
    } else if starts_with(t, "p-"@) {
        match spec_parse_val("p-"@, t) {
            Some(v) => Some(seq![StyleEffect::Padding(v)]),
            None => None,
        }
    } else if starts_with(t, "mx-"@) {
        match spec_parse_val("mx-"@, t) {
            Some(v) => Some(seq![StyleEffect::MarginLeft(v), StyleEffect::MarginRight(v)]),
            None => None,
        }
    } else if starts_with(t, "my-"@) {
        match spec_parse_val("my-"@, t) {
            Some(v) => Some(seq![StyleEffect::MarginTop(v), StyleEffect::MarginBottom(v)]),
            None => None,
        }
    } else if starts_with(t, "m-"@) {
        match spec_parse_val("m-"@, t) {
            Some(v) => Some(seq![StyleEffect::Margin(v)]),
            None => None,
        }
    } else if starts_with(t, "bg-"@) {
        match spec_parse_color("bg-"@, t) {
            Some(c) => Some(seq![StyleEffect::BackgroundColor(c)]),
            None => None,
        }
    } else if starts_with(t, "text-"@) {
        if contains_seq(t, "px"@) {
            match spec_parse_val("text-"@, t) {
                Some(v) => match v {
                    Length::Px(m) => Some(seq![StyleEffect::FontSize(m)]),
                    _ => Some(Seq::empty()),
                },
                None => None,
            }
        } else {
            match spec_parse_color("text-"@, t) {
                Some(c) => Some(seq![StyleEffect::TextColor(c)]),
                None => None,
            }
        }
    } else if starts_with(t, "gap-"@) {
        match spec_parse_val("gap-"@, t) {
            Some(v) => Some(seq![StyleEffect::Gap(v)]),
            None => None,
        }
    } else if starts_with(t, "rounded-"@) {
        match spec_parse_val("rounded-"@, t) {
            Some(v) => Some(seq![StyleEffect::BorderRadius(v)]),
            None => None,
        }
    } else if starts_with(t, "w-"@) {
        match spec_parse_val("w-"@, t) {
            Some(v) => Some(seq![StyleEffect::Width(v)]),
            None => None,
        }
    } else if starts_with(t, "h-"@) {
        // `h-[..]` is accepted and currently drives the width property.
        match spec_parse_val("h-"@, t) {
            Some(v) => Some(seq![StyleEffect::Width(v)]),
            None => None,
        }
    } else if t == "border-0"@ {
        Some(seq![StyleEffect::Border(0)])
    } else {
        Some(seq![StyleEffect::Unknown])
    }
}

/// The concatenated effects of a token list, `None` as soon as one token
/// is outside the language.
pub open spec fn spec_effects_of_tokens(ts: Seq<Seq<char>>) -> Option<Seq<StyleEffect>>
    decreases ts.len(),
{
    if ts.len() == 0 {
        Some(Seq::empty())
    } else {
        match spec_token_effects(ts[0]) {
            Some(es) => match spec_effects_of_tokens(ts.skip(1)) {
                Some(rest) => Some(es + rest),
                None => None,
            },
            None => None,
        }
    }
}

/// What a whole utility-class string means: the effects of its
/// whitespace-separated tokens, in order.
pub open spec fn spec_clx(s: Seq<char>) -> Option<Seq<StyleEffect>> {
    spec_effects_of_tokens(spec_tokens(s))
}

fn effects0() -> (v: Vec<StyleEffect>)
    ensures
        v@ == Seq::<StyleEffect>::empty(),
{
    let v: Vec<StyleEffect> = Vec::new();
    proof {
        assert(v@ =~= Seq::<StyleEffect>::empty());
    }
    v
}

fn effects1(e: StyleEffect) -> (v: Vec<StyleEffect>)
    ensures
        v@ == seq![e],
{
    let mut v: Vec<StyleEffect> = Vec::new();
    v.push(e);
    proof {
        assert(v@ =~= seq![e]);
    }
    v
}

fn effects2(e0: StyleEffect, e1: StyleEffect) -> (v: Vec<StyleEffect>)
    ensures
        v@ == seq![e0, e1],
{
    let mut v: Vec<StyleEffect> = Vec::new();
    v.push(e0);
    v.push(e1);
    proof {
        assert(v@ =~= seq![e0, e1]);
    }
    v
}

/// Parses the size a spacing token denotes.
pub fn parse_val(prefix: &[char], tok: &[char]) -> (r: Option<Length>)
    requires
        prefix@.len() > 0,
    ensures
        r == spec_parse_val(prefix@, tok@),
{
    proof {
        reveal_strlit("[");
        reveal_strlit("]");
        reveal_strlit("%");
        reveal_strlit("px");
    }
    let t0 = remove_all(tok, prefix);
    let lb = str_chars("[");
    let t1 = remove_all(t0.as_slice(), lb.as_slice());
    let rb = str_chars("]");
    let t = remove_all(t1.as_slice(), rb.as_slice());
    let auto_pat = str_chars("auto");
    if slice_ends_with(t.as_slice(), auto_pat.as_slice()) {
        Some(Length::Auto)
    } else if slice_contains_char(t.as_slice(), '/') {
        None
    } else if slice_contains_char(t.as_slice(), '%') {
        let pct = str_chars("%");
        let digits = remove_all(t.as_slice(), pct.as_slice());
        Some(Length::Percent(parse_millis_or_default(digits.as_slice())))
    } else {
        let px = str_chars("px");
        if slice_contains_seq(t.as_slice(), px.as_slice()) {
            let digits = remove_all(t.as_slice(), px.as_slice());
            Some(Length::Px(parse_millis_or_default(digits.as_slice())))
        } else {
            None
        }
    }
}

/// Parses the color a color token denotes.
pub fn parse_color(prefix: &[char], tok: &[char]) -> (r: Option<Rgba8>)
    requires
        prefix@.len() > 0,
    ensures
        r == spec_parse_color(prefix@, tok@),
{
    proof {
        reveal_strlit("[");
        reveal_strlit("]");
    }
    let t0 = remove_all(tok, prefix);
    let lb = str_chars("[");
    let t1 = remove_all(t0.as_slice(), lb.as_slice());
    let rb = str_chars("]");
    let t = remove_all(t1.as_slice(), rb.as_slice());
    let black_pat = str_chars("black");
    let white_pat = str_chars("white");
    if slice_eq(t.as_slice(), black_pat.as_slice()) {
        Some(Rgba8::black())
    } else if slice_eq(t.as_slice(), white_pat.as_slice()) {
        Some(Rgba8::white())
    } else if slice_contains_char(t.as_slice(), '#') {
        match hex_color_chars(t.as_slice()) {
            Some(c) => Some(c),
            None => Some(Rgba8::white()),
        }
    } else {
        None
    }
}

/// The style mutations one token stands for.
pub fn token_effects(t: &[char]) -> (r: Option<Vec<StyleEffect>>)
    ensures
        r is Some <==> spec_token_effects(t@) is Some,
        r is Some ==> r->0@ == spec_token_effects(t@)->0,
{
    proof {
        reveal_strlit("px-");
        reveal_strlit("py-");
        reveal_strlit("p-");
        reveal_strlit("mx-");
        reveal_strlit("my-");
        reveal_strlit("m-");
        reveal_strlit("bg-");
        reveal_strlit("text-");
        reveal_strlit("px");
        reveal_strlit("gap-");
        reveal_strlit("rounded-");
        reveal_strlit("w-");
        reveal_strlit("h-");
    }
    if slice_eq(t, str_chars("flex").as_slice()) {
        Some(effects1(StyleEffect::Display(DisplayKind::Flex)))
    } else if slice_eq(t, str_chars("hidden").as_slice()) {
        Some(effects1(StyleEffect::Display(DisplayKind::Hidden)))
    } else if slice_eq(t, str_chars("block").as_slice()) {
        Some(effects1(StyleEffect::Display(DisplayKind::Block)))
    } else if slice_eq(t, str_chars("grid").as_slice()) {
        Some(effects1(StyleEffect::Display(DisplayKind::Grid)))
    } else if slice_eq(t, str_chars("flex-row").as_slice()) {
        Some(effects1(StyleEffect::FlexDirection(FlexDir::Row)))
    } else if slice_eq(t, str_chars("flex-col").as_slice()) {
        Some(effects1(StyleEffect::FlexDirection(FlexDir::Column)))
    } else if slice_eq(t, str_chars("flex-wrap").as_slice()) {
        Some(effects1(StyleEffect::FlexWrap(WrapKind::Wrap)))
    } else if slice_eq(t, str_chars("flex-nowrap").as_slice()) {
        Some(effects1(StyleEffect::FlexWrap(WrapKind::NoWrap)))
    } else if slice_eq(t, str_chars("justify-center").as_slice()) {
        Some(effects1(StyleEffect::JustifyContent(AlignKind::Center)))
    } else if slice_eq(t, str_chars("items-center").as_slice()) {
        Some(effects1(StyleEffect::AlignItems(AlignKind::Center)))
    } else if slice_eq(t, str_chars("content-center").as_slice()) {
        Some(effects1(StyleEffect::AlignContent(AlignKind::Center)))
    } else if slice_starts_with(t, str_chars("px-").as_slice()) {
        match parse_val(str_chars("px-").as_slice(), t) {
            Some(v) => Some(effects2(StyleEffect::PaddingLeft(v), StyleEffect::PaddingRight(v))),
            None => None,
        }
    } else if slice_starts_with(t, str_chars("py-").as_slice()) {
        match parse_val(str_chars("py-").as_slice(), t) {
            Some(v) => Some(effects2(StyleEffect::PaddingTop(v), StyleEffect::PaddingBottom(v))),
            None => None,
        }
    } else if slice_starts_with(t, str_chars("p-").as_slice()) {
        match parse_val(str_chars("p-").as_slice(), t) {
            Some(v) => Some(effects1(StyleEffect::Padding(v))),
            None => None,
        }
    } else if slice_starts_with(t, str_chars("mx-").as_slice()) {
        match parse_val(str_chars("mx-").as_slice(), t) {
            Some(v) => Some(effects2(StyleEffect::MarginLeft(v), StyleEffect::MarginRight(v))),
            None => None,
        }
    } else if slice_starts_with(t, str_chars("my-").as_slice()) {
        match parse_val(str_chars("my-").as_slice(), t) {
            Some(v) => Some(effects2(StyleEffect::MarginTop(v), StyleEffect::MarginBottom(v))),
            None => None,
        }
    } else if slice_starts_with(t, str_chars("m-").as_slice()) {
        match parse_val(str_chars("m-").as_slice(), t) {
            Some(v) => Some(effects1(StyleEffect::Margin(v))),
            None => None,
        }
    } else if slice_starts_with(t, str_chars("bg-").as_slice()) {
        match parse_color(str_chars("bg-").as_slice(), t) {
            Some(c) => Some(effects1(StyleEffect::BackgroundColor(c))),
            None => None,
        }
    } else if slice_starts_with(t, str_chars("text-").as_slice()) {
        if slice_contains_seq(t, str_chars("px").as_slice()) {
            match parse_val(str_chars("text-").as_slice(), t) {
                Some(v) => match v {
                    Length::Px(m) => Some(effects1(StyleEffect::FontSize(m))),
                    _ => Some(effects0()),
                },
                None => None,
            }
        } else {
            match parse_color(str_chars("text-").as_slice(), t) {
                Some(c) => Some(effects1(StyleEffect::TextColor(c))),
                None => None,
            }
        }
    } else if slice_starts_with(t, str_chars("gap-").as_slice()) {
        match parse_val(str_chars("gap-").as_slice(), t) {
            Some(v) => Some(effects1(StyleEffect::Gap(v))),
            None => None,
        }
    } else if slice_starts_with(t, str_chars("rounded-").as_slice()) {
        match parse_val(str_chars("rounded-").as_slice(), t) {
            Some(v) => Some(effects1(StyleEffect::BorderRadius(v))),
            None => None,
        }
    } else if slice_starts_with(t, str_chars("w-").as_slice()) {
        match parse_val(str_chars("w-").as_slice(), t) {
            Some(v) => Some(effects1(StyleEffect::Width(v))),
            None => None,
        }
    } else if slice_starts_with(t, str_chars("h-").as_slice()) {
        match parse_val(str_chars("h-").as_slice(), t) {
            Some(v) => Some(effects1(StyleEffect::Width(v))),
            None => None,
        }
    } else if slice_eq(t, str_chars("border-0").as_slice()) {
        Some(effects1(StyleEffect::Border(0)))
    } else {
        Some(effects1(StyleEffect::Unknown))
    }
}

/// Parses a whole utility-class string, `None` when some token reaches an
/// unimplemented corner of the language. Sizes are read as fixed-point
/// decimals with an optional exponent, kept to three decimal places and
/// capped below a billion units (see [`spec_parse_val`]); what falls
/// outside that grammar becomes zero, as any malformed number does.
#[verifier::loop_isolation(false)]
pub fn clx_checked(styles: &str) -> (r: Option<Vec<StyleEffect>>)
    ensures
        r is Some <==> spec_clx(styles@) is Some,
        r is Some ==> r->0@ == spec_clx(styles@)->0,
{
    let chars = str_chars(styles);
    let toks = tokenize(chars.as_slice());
    let ghost vs = views_of(toks@);
    let mut out: Vec<StyleEffect> = Vec::new();
    let mut k: usize = 0;
    proof {
        assert(vs.skip(0) =~= vs);
        if spec_effects_of_tokens(vs) is Some {
            assert(out@ + spec_effects_of_tokens(vs)->0 =~= spec_effects_of_tokens(vs)->0);
        }
    }
    while k < toks.len()
        invariant
            k <= toks@.len(),
            vs == views_of(toks@),
            vs == spec_tokens(styles@),
            (match spec_effects_of_tokens(vs.skip(k as int)) {
                Some(rest) => spec_effects_of_tokens(vs) == Some(out@ + rest),
                None => spec_effects_of_tokens(vs) is None,
            }),
        decreases toks@.len() - k,
    {
        proof {
            assert(vs.skip(k as int)[0] == vs[k as int]);
            assert(vs[k as int] == toks@[k as int]@);
            assert(vs.skip(k as int).skip(1) =~= vs.skip(k + 1));
        }
        match token_effects(toks[k].as_slice()) {
            None => {
                return None;
            },
            Some(es) => {
                let ghost old_out = out@;
                let ghost es_view = es@;
                let mut es = es;
                out.append(&mut es);
                proof {
                    if spec_effects_of_tokens(vs.skip(k + 1)) is Some {
                        let rest = spec_effects_of_tokens(vs.skip(k + 1))->0;
                        assert(old_out + (es_view + rest) =~= out@ + rest);
                    }
                }
                k = k + 1;
            },
        }
    }
    proof {
        assert(vs.skip(toks@.len() as int) =~= Seq::<Seq<char>>::empty());
        assert(out@ + Seq::<StyleEffect>::empty() =~= out@);
    }
    Some(out)
}

/// Parses a utility-class string that stays inside the implemented
/// language, as the style sheets shipped with the kit do.
pub fn clx(styles: &str) -> (effects: Vec<StyleEffect>)
    requires
        spec_clx(styles@) is Some,
    ensures
        effects@ == spec_clx(styles@)->0,
{
    clx_checked(styles).unwrap()
}

} // verus!
