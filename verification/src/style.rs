//! The style model for cells and runs: colors, style modifiers, and the
//! composite style used by the drawing layer.
//!
//! Colors are either a small set of named colors, a 24-bit true-color
//! triple, or an index into the active 16-entry palette. Modifiers are a
//! bit set; one bit doubles as the "in need of hydration" marker that makes
//! the compressor defer a run for late binding of interaction data.

use vstd::prelude::*;

use crate::palette::{Base16Accent, Base16Color, Base16Shade, Shade};

verus! {

/// A cell color: named, true-color, or an index into the palette.
#[derive(Debug, Clone, Copy, PartialEq, Eq, Structural)]
pub enum Color {
    Reset,
    Black,
    Red,
    Green,
    Yellow,
    Blue,
    Magenta,
    Cyan,
    Gray,
    DarkGray,
    LightRed,
    LightGreen,
    LightYellow,
    LightBlue,
    LightMagenta,
    LightCyan,
    White,
    Rgb(u8, u8, u8),
    Indexed(u8),
}

/// An indexed color must name one of the 16 palette entries; any other
/// index can only arise from a corrupted color table.
pub open spec fn color_ok(c: Color) -> bool {
    match c {
        Color::Indexed(i) => i < 16,
        _ => true,
    }
}

pub const BOLD_BITS: u16 = 0x0001;

pub const ITALIC_BITS: u16 = 0x0004;

pub const UNDERLINED_BITS: u16 = 0x0008;

/// The bit that marks a styled element as "in need of hydration": runs
/// carrying it are handed back to the application before being rendered.
pub const HYDRATION_BITS: u16 = 0x0010;

/// A set of style modifiers, as a bit set.
#[derive(Debug, Clone, Copy, PartialEq, Eq, Structural)]
pub struct Modifier {
    pub bits: u16,
}

impl Modifier {
    /// Whether every modifier of `other` is also set in `self`.
    pub open spec fn spec_contains(self, other: Modifier) -> bool {
        self.bits & other.bits == other.bits
    }

    pub open spec fn spec_has(self, bits: u16) -> bool {
        self.bits & bits == bits
    }

    /// Whether the hydration marker is set.
    pub open spec fn spec_hydrates(self) -> bool {
        self.spec_has(HYDRATION_BITS)
    }

    pub fn empty() -> (r: Self)
        ensures
            r.bits == 0,
    {
        Self { bits: 0 }
    }

    pub fn bold() -> (r: Self)
        ensures
            r.bits == BOLD_BITS,
    {
        Self { bits: BOLD_BITS }
    }

    pub fn italic() -> (r: Self)
        ensures
            r.bits == ITALIC_BITS,
    {
        Self { bits: ITALIC_BITS }
    }

    pub fn underlined() -> (r: Self)
        ensures
            r.bits == UNDERLINED_BITS,
    {
        Self { bits: UNDERLINED_BITS }
    }

    /// The hydration marker.
    pub fn hydration() -> (r: Self)
        ensures
            r.bits == HYDRATION_BITS,
    {
        Self { bits: HYDRATION_BITS }
    }

    pub fn contains(self, other: Modifier) -> (r: bool)
        ensures
            r == self.spec_contains(other),
    {
        self.bits & other.bits == other.bits
    }

    /// The union of two modifier sets.
    pub fn union(self, other: Modifier) -> (r: Self)
        ensures
            r.bits == self.bits | other.bits,
    {
        Self { bits: self.bits | other.bits }
    }
}

/// A composite style: optional foreground and background colors plus a set
/// of modifiers to add.
#[derive(Debug, Clone, Copy, PartialEq, Eq, Structural)]
pub struct Style {
    pub fg: Option<Color>,
    pub bg: Option<Color>,
    pub add_modifier: Modifier,
}

impl Style {
    pub fn new() -> (r: Self)
        ensures
            r == (Style { fg: None, bg: None, add_modifier: Modifier { bits: 0 } }),
    {
        Self { fg: None, bg: None, add_modifier: Modifier { bits: 0 } }
    }

    /// Replaces the foreground color.
    pub fn fg(self, color: Color) -> (r: Self)
        ensures
            r == (Style { fg: Some(color), ..self }),
    {
        Style { fg: Some(color), ..self }
    }

    /// Replaces the background color.
    pub fn bg(self, color: Color) -> (r: Self)
        ensures
            r == (Style { bg: Some(color), ..self }),
    {
        Style { bg: Some(color), ..self }
    }

    /// Adds the given modifiers to the style.
    pub fn add_modifier(self, m: Modifier) -> (r: Self)
        ensures
            r.fg == self.fg,
            r.bg == self.bg,
            r.add_modifier.bits == self.add_modifier.bits | m.bits,
    {
        Style { add_modifier: self.add_modifier.union(m), ..self }
    }
}

/// Marks a styled item as "in need of hydration": the backend will hand
/// every run generated from it back to the application for interaction
/// data before rendering. A styled item that spans multiple rows yields
/// one such run per row, each resolved independently.
pub trait NeedsHydration: Sized {
    /// The item with the hydration marker added to its style.
    spec fn spec_to_hydrate(self) -> Self;

    fn to_hydrate(self) -> (r: Self)
        ensures
            r == self.spec_to_hydrate(),
    ;
}

impl NeedsHydration for Style {
    open spec fn spec_to_hydrate(self) -> Self {
        Style { add_modifier: Modifier { bits: self.add_modifier.bits | HYDRATION_BITS }, ..self }
    }

    fn to_hydrate(self) -> (r: Self) {
        self.add_modifier(Modifier::hydration())
    }
}

/// Conversion from Base16 palette colors to indexed cell colors.
pub trait ToIndexedColor: Copy {
    /// The integer a Base16 palette assigns to this color.
    spec fn spec_color_index(self) -> u8;

    fn color_index(self) -> (r: u8)
        ensures
            r == self.spec_color_index(),
    ;

    /// The indexed cell color for this palette color.
    fn to_color(self) -> (r: Color)
        ensures
            r == Color::Indexed(self.spec_color_index()),
    ;
}

impl ToIndexedColor for Base16Color {
    open spec fn spec_color_index(self) -> u8 {
        self.spec_index()
    }

    fn color_index(self) -> (r: u8) {
        self.index()
    }

    fn to_color(self) -> (r: Color) {
        Color::Indexed(self.index())
    }
}

impl ToIndexedColor for Base16Shade {
    open spec fn spec_color_index(self) -> u8 {
        Base16Color::Shade(self).spec_index()
    }

    fn color_index(self) -> (r: u8) {
        Base16Color::Shade(self).index()
    }

    fn to_color(self) -> (r: Color) {
        Color::Indexed(self.color_index())
    }
}

impl ToIndexedColor for Base16Accent {
    open spec fn spec_color_index(self) -> u8 {
        Base16Color::Accent(self).spec_index()
    }

    fn color_index(self) -> (r: u8) {
        Base16Color::Accent(self).index()
    }

    fn to_color(self) -> (r: Color) {
        Color::Indexed(self.color_index())
    }
}

/// A style selecting `a` as foreground and `b` as background, by palette
/// index, with no modifiers.
pub open spec fn spec_full_style(a: Base16Color, b: Base16Color) -> Style {
    Style {
        fg: Some(Color::Indexed(a.spec_index())),
        bg: Some(Color::Indexed(b.spec_index())),
        add_modifier: Modifier { bits: 0 },
    }
}

impl Base16Color {
    /// A style with this color as the foreground and `other` as the
    /// background.
    pub fn full_style(self, other: Self) -> (r: Style)
        ensures
            r == spec_full_style(self, other),
    {
        Style::new().fg(self.to_color()).bg(other.to_color())
    }

    /// A style using the default foreground and background colors.
    pub fn default_style() -> (r: Style)
        ensures
            r == spec_full_style(
                Base16Color::Shade(Base16Shade::Light(Shade::Lighter)),
                Base16Color::Shade(Base16Shade::Dark(Shade::Darker)),
            ),
    {
        Self::default_fg().full_style(Self::default_bg())
    }

    /// A style with this color as the foreground and the default
    /// background.
    pub fn fg_style(self) -> (r: Style)
        ensures
            r == spec_full_style(self, Base16Color::Shade(Base16Shade::Dark(Shade::Darker))),
    {
        self.full_style(Self::default_bg())
    }

    /// A style with this color as the background and the default
    /// foreground.
    pub fn bg_style(self) -> (r: Style)
        ensures
            r == spec_full_style(Base16Color::Shade(Base16Shade::Light(Shade::Lighter)), self),
    {
        Self::default_fg().full_style(self)
    }

    /// The indexed cell color of this palette color.
    pub fn to_color(self) -> (r: Color)
        ensures
            r == Color::Indexed(self.spec_index()),
    {
        Color::Indexed(self.index())
    }
}

/// Selection of a palette's default style.
pub trait Base16Style {
    /// The style this type treats as its default.
    spec fn spec_default_style() -> Style;

    /// A style selecting the default foreground and background colors.
    fn default_style() -> (r: Style)
        ensures
            r == Self::spec_default_style(),
    ;
}

impl Base16Style for Base16Color {
    open spec fn spec_default_style() -> Style {
        spec_full_style(
            Base16Color::Shade(Base16Shade::Light(Shade::Lighter)),
            Base16Color::Shade(Base16Shade::Dark(Shade::Darker)),
        )
    }

    fn default_style() -> (r: Style) {
        Style::new().fg(Base16Color::default_fg().to_color()).bg(
            Base16Color::default_bg().to_color(),
        )
    }
}

} // verus!
