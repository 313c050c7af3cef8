//! The structured style mutations that the utility-class language and the
//! button styling rules produce. A host renderer applies each effect, in
//! order, to the node being styled.

use vstd::prelude::*;
use crate::color::Rgba8;

verus! {

/// A size value. `Px` and `Percent` carry thousandths of a pixel or of a
/// percent, so `Px(32000)` is 32 pixels.
#[derive(Clone, Copy, Debug, PartialEq, Eq, Structural)]
pub enum Length {
    Auto,
    Px(i64),
    Percent(i64),
}

/// How a node lays out its children.
#[derive(Clone, Copy, Debug, PartialEq, Eq, Structural)]
pub enum DisplayKind {
    Flex,
    Hidden,
    Block,
    Grid,
}

/// The main axis of a flex container.
#[derive(Clone, Copy, Debug, PartialEq, Eq, Structural)]
pub enum FlexDir {
    Row,
    Column,
}

/// Whether flex items wrap onto further lines.
#[derive(Clone, Copy, Debug, PartialEq, Eq, Structural)]
pub enum WrapKind {
    Wrap,
    NoWrap,
}

/// An alignment along an axis.
#[derive(Clone, Copy, Debug, PartialEq, Eq, Structural)]
pub enum AlignKind {
    Start,
    Center,
}

/// A mouse cursor shape.
#[derive(Clone, Copy, Debug, PartialEq, Eq, Structural)]
pub enum CursorKind {
    Pointer,
}

/// One style mutation. Lengths are in thousandths (see [`Length`]);
/// `FontSize` and `FlexShrink` carry thousandths as well; `Border` is a
/// uniform border width in whole pixels.
#[derive(Clone, Copy, Debug, PartialEq, Eq, Structural)]
pub enum StyleEffect {
    Display(DisplayKind),
    FlexDirection(FlexDir),
    FlexWrap(WrapKind),
    FlexShrink(i64),
    JustifyContent(AlignKind),
    JustifyItems(AlignKind),
    AlignItems(AlignKind),
    AlignContent(AlignKind),
    PaddingLeft(Length),
    PaddingRight(Length),
    PaddingTop(Length),
    PaddingBottom(Length),
    Padding(Length),
    MarginLeft(Length),
    MarginRight(Length),
    MarginTop(Length),
    MarginBottom(Length),
    Margin(Length),
    BackgroundColor(Rgba8),
    TextColor(Rgba8),
    BorderColor(Rgba8),
    FontSize(i64),
    Gap(Length),
    ColumnGap(Length),
    BorderRadius(Length),
    Width(Length),
    Border(i64),
    Cursor(CursorKind),
    /// A token outside the vocabulary: it changes nothing, and a host may
    /// log it.
    Unknown,
}

} // verus!
