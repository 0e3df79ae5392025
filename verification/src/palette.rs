//! Base16 color palettes: a fixed 16-entry color table, split between 8
//! "shades" (4 dark, 4 light) and 8 "accents", each entry resolvable to an
//! RGB triple and a hex string.
//!
//! The 16 palette entries are in bijection with the indices 0 through 15;
//! indices outside that range do not name a color.

use vstd::prelude::*;

verus! {

/// Base16 shades are split into two 4-value gradients.
#[derive(Debug, Clone, Copy, PartialEq, Eq, Structural)]
pub enum Shade {
    Darkest,
    Darker,
    Lighter,
    Lightest,
}

/// Every Base16 color palette contains 8 "shades". These are split between
/// 4 "dark" and 4 "light" shades.
#[derive(Debug, Clone, Copy, PartialEq, Eq, Structural)]
pub enum Base16Shade {
    Dark(Shade),
    Light(Shade),
}

/// Every Base16 color palette contains 8 "accents".
#[derive(Debug, Clone, Copy, PartialEq, Eq, Structural)]
pub enum Base16Accent {
    Accent00,
    Accent01,
    Accent02,
    Accent03,
    Accent04,
    Accent05,
    Accent06,
    Accent07,
}

/// The universal representation of a Base16 color.
#[derive(Debug, Clone, Copy, PartialEq, Eq, Structural)]
pub enum Base16Color {
    Shade(Base16Shade),
    Accent(Base16Accent),
}

impl Base16Color {
    /// The index of this color in the 16-entry table.
    pub open spec fn spec_index(self) -> u8 {
        match self {
            Base16Color::Shade(Base16Shade::Dark(Shade::Darkest)) => 0,
            Base16Color::Shade(Base16Shade::Dark(Shade::Darker)) => 1,
            Base16Color::Shade(Base16Shade::Dark(Shade::Lighter)) => 2,
            Base16Color::Shade(Base16Shade::Dark(Shade::Lightest)) => 3,
            Base16Color::Shade(Base16Shade::Light(Shade::Darkest)) => 4,
            Base16Color::Shade(Base16Shade::Light(Shade::Darker)) => 5,
            Base16Color::Shade(Base16Shade::Light(Shade::Lighter)) => 6,
            Base16Color::Shade(Base16Shade::Light(Shade::Lightest)) => 7,
            Base16Color::Accent(Base16Accent::Accent00) => 8,
            Base16Color::Accent(Base16Accent::Accent01) => 9,
            Base16Color::Accent(Base16Accent::Accent02) => 10,
            Base16Color::Accent(Base16Accent::Accent03) => 11,
            Base16Color::Accent(Base16Accent::Accent04) => 12,
            Base16Color::Accent(Base16Accent::Accent05) => 13,
            Base16Color::Accent(Base16Accent::Accent06) => 14,
            Base16Color::Accent(Base16Accent::Accent07) => 15,
        }
    }

    /// The color at index `i` of the 16-entry table. Only indices below 16
    /// name a color; the value at any other index is never relied upon.
    pub open spec fn spec_from_index(i: u8) -> Base16Color {
        if i == 0 {
            Base16Color::Shade(Base16Shade::Dark(Shade::Darkest))
        } else if i == 1 {
            Base16Color::Shade(Base16Shade::Dark(Shade::Darker))
        } else if i == 2 {
            Base16Color::Shade(Base16Shade::Dark(Shade::Lighter))
        } else if i == 3 {
            Base16Color::Shade(Base16Shade::Dark(Shade::Lightest))
        } else if i == 4 {
            Base16Color::Shade(Base16Shade::Light(Shade::Darkest))
        } else if i == 5 {
            Base16Color::Shade(Base16Shade::Light(Shade::Darker))
        } else if i == 6 {
            Base16Color::Shade(Base16Shade::Light(Shade::Lighter))
        } else if i == 7 {
            Base16Color::Shade(Base16Shade::Light(Shade::Lightest))
        } else if i == 8 {
            Base16Color::Accent(Base16Accent::Accent00)
        } else if i == 9 {
            Base16Color::Accent(Base16Accent::Accent01)
        } else if i == 10 {
            Base16Color::Accent(Base16Accent::Accent02)
        } else if i == 11 {
            Base16Color::Accent(Base16Accent::Accent03)
        } else if i == 12 {
            Base16Color::Accent(Base16Accent::Accent04)
        } else if i == 13 {
            Base16Color::Accent(Base16Accent::Accent05)
        } else if i == 14 {
            Base16Color::Accent(Base16Accent::Accent06)
        } else {
            Base16Color::Accent(Base16Accent::Accent07)
        }
    }

    /// Maps this color to its integer index in the table.
    pub fn index(self) -> (r: u8)
        ensures
            r == self.spec_index(),
            r < 16,
    {
        match self {
            Base16Color::Shade(Base16Shade::Dark(Shade::Darkest)) => 0,
            Base16Color::Shade(Base16Shade::Dark(Shade::Darker)) => 1,
            Base16Color::Shade(Base16Shade::Dark(Shade::Lighter)) => 2,
            Base16Color::Shade(Base16Shade::Dark(Shade::Lightest)) => 3,
            Base16Color::Shade(Base16Shade::Light(Shade::Darkest)) => 4,
            Base16Color::Shade(Base16Shade::Light(Shade::Darker)) => 5,
            Base16Color::Shade(Base16Shade::Light(Shade::Lighter)) => 6,
            Base16Color::Shade(Base16Shade::Light(Shade::Lightest)) => 7,
            Base16Color::Accent(Base16Accent::Accent00) => 8,
            Base16Color::Accent(Base16Accent::Accent01) => 9,
            Base16Color::Accent(Base16Accent::Accent02) => 10,
            Base16Color::Accent(Base16Accent::Accent03) => 11,
            Base16Color::Accent(Base16Accent::Accent04) => 12,
            Base16Color::Accent(Base16Accent::Accent05) => 13,
            Base16Color::Accent(Base16Accent::Accent06) => 14,
            Base16Color::Accent(Base16Accent::Accent07) => 15,
        }
    }

    /// Recovers a color from its index. Only indices below 16 are valid: a
    /// larger index can only arise from a corrupted color table, so callers
    /// must rule it out.
    pub fn from_index(i: u8) -> (r: Self)
        requires
            i < 16,
        ensures
            r == Self::spec_from_index(i),
    {
        match i {
            0 => Base16Color::Shade(Base16Shade::Dark(Shade::Darkest)),
            1 => Base16Color::Shade(Base16Shade::Dark(Shade::Darker)),
            2 => Base16Color::Shade(Base16Shade::Dark(Shade::Lighter)),
            3 => Base16Color::Shade(Base16Shade::Dark(Shade::Lightest)),
            4 => Base16Color::Shade(Base16Shade::Light(Shade::Darkest)),
            5 => Base16Color::Shade(Base16Shade::Light(Shade::Darker)),
            6 => Base16Color::Shade(Base16Shade::Light(Shade::Lighter)),
            7 => Base16Color::Shade(Base16Shade::Light(Shade::Lightest)),
            8 => Base16Color::Accent(Base16Accent::Accent00),
            9 => Base16Color::Accent(Base16Accent::Accent01),
            10 => Base16Color::Accent(Base16Accent::Accent02),
            11 => Base16Color::Accent(Base16Accent::Accent03),
            12 => Base16Color::Accent(Base16Accent::Accent04),
            13 => Base16Color::Accent(Base16Accent::Accent05),
            14 => Base16Color::Accent(Base16Accent::Accent06),
            15 => Base16Color::Accent(Base16Accent::Accent07),
            _ => vstd::pervasive::unreached(),
        }
    }

    /// Recovers a color from its index, rejecting indices outside 0..=15.
    pub fn try_from_index(i: u8) -> (r: Option<Self>)
        ensures
            i < 16 ==> r == Some(Self::spec_from_index(i)),
            i >= 16 ==> r is None,
    {
        if i < 16 {
            Some(Self::from_index(i))
        } else {
            None
        }
    }

    /// The default foreground color: the lighter of the light shades.
    pub open spec fn spec_default_fg() -> Base16Color {
        Base16Color::Shade(Base16Shade::Light(Shade::Lighter))
    }

    /// The default background color: the darker of the dark shades.
    pub open spec fn spec_default_bg() -> Base16Color {
        Base16Color::Shade(Base16Shade::Dark(Shade::Darker))
    }

    /// The default foreground color: the lighter of the light shades.
    pub fn default_fg() -> (r: Self)
        ensures
            r == Base16Color::spec_default_fg(),
    {
        Self::light_3()
    }

    /// The default background color: the darker of the dark shades.
    pub fn default_bg() -> (r: Self)
        ensures
            r == Base16Color::spec_default_bg(),
    {
        Self::dark_2()
    }

    pub fn dark_1() -> (r: Self)
        ensures
            r == Base16Color::Shade(Base16Shade::Dark(Shade::Darkest)),
    {
        Self::Shade(Base16Shade::Dark(Shade::Darkest))
    }

    pub fn dark_2() -> (r: Self)
        ensures
            r == Base16Color::Shade(Base16Shade::Dark(Shade::Darker)),
    {
        Self::Shade(Base16Shade::Dark(Shade::Darker))
    }

    pub fn dark_3() -> (r: Self)
        ensures
            r == Base16Color::Shade(Base16Shade::Dark(Shade::Lighter)),
    {
        Self::Shade(Base16Shade::Dark(Shade::Lighter))
    }

    pub fn dark_4() -> (r: Self)
        ensures
            r == Base16Color::Shade(Base16Shade::Dark(Shade::Lightest)),
    {
        Self::Shade(Base16Shade::Dark(Shade::Lightest))
    }

    pub fn light_1() -> (r: Self)
        ensures
            r == Base16Color::Shade(Base16Shade::Light(Shade::Darkest)),
    {
        Self::Shade(Base16Shade::Light(Shade::Darkest))
    }

    pub fn light_2() -> (r: Self)
        ensures
            r == Base16Color::Shade(Base16Shade::Light(Shade::Darker)),
    {
        Self::Shade(Base16Shade::Light(Shade::Darker))
    }

    pub fn light_3() -> (r: Self)
        ensures
            r == Base16Color::Shade(Base16Shade::Light(Shade::Lighter)),
    {
        Self::Shade(Base16Shade::Light(Shade::Lighter))
    }

    pub fn light_4() -> (r: Self)
        ensures
            r == Base16Color::Shade(Base16Shade::Light(Shade::Lightest)),
    {
        Self::Shade(Base16Shade::Light(Shade::Lightest))
    }
}

/// Converting a color to its index and back yields the color, and
/// converting a valid index to its color and back yields the index.
pub proof fn lemma_index_bijective()
    ensures
        forall|c: Base16Color| Base16Color::spec_from_index(#[trigger] c.spec_index()) == c,
        forall|i: u8| i < 16 ==> #[trigger] Base16Color::spec_from_index(i).spec_index() == i,
{
}

/// A Base16 color palette: resolves each of the 16 colors to an RGB triple
/// and to a hex color string.
pub trait Base16Palette {
    /// The RGB triple of `color` in this palette.
    spec fn spec_rgb(&self, color: Base16Color) -> (u8, u8, u8);

    /// The `#`-prefixed hex string of `color` in this palette.
    spec fn spec_hex(&self, color: Base16Color) -> Seq<char>;

    fn to_rgb(&self, color: Base16Color) -> (r: (u8, u8, u8))
        ensures
            r == self.spec_rgb(color),
    ;

    fn to_hex_str(&self, color: Base16Color) -> (r: &'static str)
        ensures
            r@ == self.spec_hex(color),
    ;
}

/// The Apprentice palette.
#[derive(Debug, Clone, Copy, PartialEq, Eq, Structural)]
pub struct Apprentice;

impl Base16Palette for Apprentice {
    open spec fn spec_rgb(&self, color: Base16Color) -> (u8, u8, u8) {
        match color {
            Base16Color::Shade(Base16Shade::Dark(Shade::Darkest)) => (0x26, 0x26, 0x26),
            Base16Color::Shade(Base16Shade::Dark(Shade::Darker)) => (0xAF, 0x5F, 0x5F),
            Base16Color::Shade(Base16Shade::Dark(Shade::Lighter)) => (0x5F, 0x87, 0x5F),
            Base16Color::Shade(Base16Shade::Dark(Shade::Lightest)) => (0x87, 0x87, 0x5F),
            Base16Color::Shade(Base16Shade::Light(Shade::Darkest)) => (0x5F, 0x87, 0xAF),
            Base16Color::Shade(Base16Shade::Light(Shade::Darker)) => (0x5F, 0x5F, 0x87),
            Base16Color::Shade(Base16Shade::Light(Shade::Lighter)) => (0x5F, 0x87, 0x87),
            Base16Color::Shade(Base16Shade::Light(Shade::Lightest)) => (0x6C, 0x6C, 0x6C),
            Base16Color::Accent(Base16Accent::Accent00) => (0x44, 0x44, 0x44),
            Base16Color::Accent(Base16Accent::Accent01) => (0xFF, 0x87, 0x00),
            Base16Color::Accent(Base16Accent::Accent02) => (0x87, 0xAF, 0x87),
            Base16Color::Accent(Base16Accent::Accent03) => (0xFF, 0xFF, 0xAF),
            Base16Color::Accent(Base16Accent::Accent04) => (0x87, 0xAF, 0xD7),
            Base16Color::Accent(Base16Accent::Accent05) => (0x87, 0x87, 0xAF),
            Base16Color::Accent(Base16Accent::Accent06) => (0x5F, 0xAF, 0xAF),
            Base16Color::Accent(Base16Accent::Accent07) => (0xBC, 0xBC, 0xBC),
        }
    }

    open spec fn spec_hex(&self, color: Base16Color) -> Seq<char> {
        match color {
            Base16Color::Shade(Base16Shade::Dark(Shade::Darkest)) => "#262626"@,
            Base16Color::Shade(Base16Shade::Dark(Shade::Darker)) => "#AF5F5F"@,
            Base16Color::Shade(Base16Shade::Dark(Shade::Lighter)) => "#5F875F"@,
            Base16Color::Shade(Base16Shade::Dark(Shade::Lightest)) => "#87875F"@,
            Base16Color::Shade(Base16Shade::Light(Shade::Darkest)) => "#5F87AF"@,
            Base16Color::Shade(Base16Shade::Light(Shade::Darker)) => "#5F5F87"@,
            Base16Color::Shade(Base16Shade::Light(Shade::Lighter)) => "#5F8787"@,
            Base16Color::Shade(Base16Shade::Light(Shade::Lightest)) => "#6C6C6C"@,
            Base16Color::Accent(Base16Accent::Accent00) => "#444444"@,
            Base16Color::Accent(Base16Accent::Accent01) => "#FF8700"@,
            Base16Color::Accent(Base16Accent::Accent02) => "#87AF87"@,
            Base16Color::Accent(Base16Accent::Accent03) => "#FFFFAF"@,
            Base16Color::Accent(Base16Accent::Accent04) => "#87AFD7"@,
            Base16Color::Accent(Base16Accent::Accent05) => "#8787AF"@,
            Base16Color::Accent(Base16Accent::Accent06) => "#5FAFAF"@,
            Base16Color::Accent(Base16Accent::Accent07) => "#BCBCBC"@,
        }
    }

    fn to_rgb(&self, color: Base16Color) -> (r: (u8, u8, u8)) {
        match color {
            Base16Color::Shade(Base16Shade::Dark(Shade::Darkest)) => (0x26, 0x26, 0x26),
            Base16Color::Shade(Base16Shade::Dark(Shade::Darker)) => (0xAF, 0x5F, 0x5F),
            Base16Color::Shade(Base16Shade::Dark(Shade::Lighter)) => (0x5F, 0x87, 0x5F),
            Base16Color::Shade(Base16Shade::Dark(Shade::Lightest)) => (0x87, 0x87, 0x5F),
            Base16Color::Shade(Base16Shade::Light(Shade::Darkest)) => (0x5F, 0x87, 0xAF),
            Base16Color::Shade(Base16Shade::Light(Shade::Darker)) => (0x5F, 0x5F, 0x87),
            Base16Color::Shade(Base16Shade::Light(Shade::Lighter)) => (0x5F, 0x87, 0x87),
            Base16Color::Shade(Base16Shade::Light(Shade::Lightest)) => (0x6C, 0x6C, 0x6C),
            Base16Color::Accent(Base16Accent::Accent00) => (0x44, 0x44, 0x44),
            Base16Color::Accent(Base16Accent::Accent01) => (0xFF, 0x87, 0x00),
            Base16Color::Accent(Base16Accent::Accent02) => (0x87, 0xAF, 0x87),
            Base16Color::Accent(Base16Accent::Accent03) => (0xFF, 0xFF, 0xAF),
            Base16Color::Accent(Base16Accent::Accent04) => (0x87, 0xAF, 0xD7),
            Base16Color::Accent(Base16Accent::Accent05) => (0x87, 0x87, 0xAF),
            Base16Color::Accent(Base16Accent::Accent06) => (0x5F, 0xAF, 0xAF),
            Base16Color::Accent(Base16Accent::Accent07) => (0xBC, 0xBC, 0xBC),
        }
    }

    fn to_hex_str(&self, color: Base16Color) -> (r: &'static str) {
        match color {
            Base16Color::Shade(Base16Shade::Dark(Shade::Darkest)) => "#262626",
            Base16Color::Shade(Base16Shade::Dark(Shade::Darker)) => "#AF5F5F",
            Base16Color::Shade(Base16Shade::Dark(Shade::Lighter)) => "#5F875F",
            Base16Color::Shade(Base16Shade::Dark(Shade::Lightest)) => "#87875F",
            Base16Color::Shade(Base16Shade::Light(Shade::Darkest)) => "#5F87AF",
            Base16Color::Shade(Base16Shade::Light(Shade::Darker)) => "#5F5F87",
            Base16Color::Shade(Base16Shade::Light(Shade::Lighter)) => "#5F8787",
            Base16Color::Shade(Base16Shade::Light(Shade::Lightest)) => "#6C6C6C",
            Base16Color::Accent(Base16Accent::Accent00) => "#444444",
            Base16Color::Accent(Base16Accent::Accent01) => "#FF8700",
            Base16Color::Accent(Base16Accent::Accent02) => "#87AF87",
            Base16Color::Accent(Base16Accent::Accent03) => "#FFFFAF",
            Base16Color::Accent(Base16Accent::Accent04) => "#87AFD7",
            Base16Color::Accent(Base16Accent::Accent05) => "#8787AF",
            Base16Color::Accent(Base16Accent::Accent06) => "#5FAFAF",
            Base16Color::Accent(Base16Accent::Accent07) => "#BCBCBC",
        }
    }
}

/// The Atlas palette.
#[derive(Debug, Clone, Copy, PartialEq, Eq, Structural)]
pub struct Atlas;

impl Base16Palette for Atlas {
    open spec fn spec_rgb(&self, color: Base16Color) -> (u8, u8, u8) {
        match color {
            Base16Color::Shade(Base16Shade::Dark(Shade::Darkest)) => (0x00, 0x26, 0x35),
            Base16Color::Shade(Base16Shade::Dark(Shade::Darker)) => (0x00, 0x38, 0x4d),
            Base16Color::Shade(Base16Shade::Dark(Shade::Lighter)) => (0x51, 0x7F, 0x8D),
            Base16Color::Shade(Base16Shade::Dark(Shade::Lightest)) => (0x6C, 0x8B, 0x91),
            Base16Color::Shade(Base16Shade::Light(Shade::Darkest)) => (0x86, 0x96, 0x96),
            Base16Color::Shade(Base16Shade::Light(Shade::Darker)) => (0xa1, 0xa1, 0x9a),
            Base16Color::Shade(Base16Shade::Light(Shade::Lighter)) => (0xe6, 0xe6, 0xdc),
            Base16Color::Shade(Base16Shade::Light(Shade::Lightest)) => (0xfa, 0xfa, 0xf8),
            Base16Color::Accent(Base16Accent::Accent00) => (0xff, 0x5a, 0x67),
            Base16Color::Accent(Base16Accent::Accent01) => (0xf0, 0x8e, 0x48),
            Base16Color::Accent(Base16Accent::Accent02) => (0xff, 0xcc, 0x1b),
            Base16Color::Accent(Base16Accent::Accent03) => (0x7f, 0xc0, 0x6e),
            Base16Color::Accent(Base16Accent::Accent04) => (0x5d, 0xd7, 0xb9),
            Base16Color::Accent(Base16Accent::Accent05) => (0x14, 0x74, 0x7e),
            Base16Color::Accent(Base16Accent::Accent06) => (0x9a, 0x70, 0xa4),
            Base16Color::Accent(Base16Accent::Accent07) => (0xc4, 0x30, 0x60),
        }
    }

    open spec fn spec_hex(&self, color: Base16Color) -> Seq<char> {
        match color {
            Base16Color::Shade(Base16Shade::Dark(Shade::Darkest)) => "#002635"@,
            Base16Color::Shade(Base16Shade::Dark(Shade::Darker)) => "#00384d"@,
            Base16Color::Shade(Base16Shade::Dark(Shade::Lighter)) => "#517F8D"@,
            Base16Color::Shade(Base16Shade::Dark(Shade::Lightest)) => "#6C8B91"@,
            Base16Color::Shade(Base16Shade::Light(Shade::Darkest)) => "#869696"@,
            Base16Color::Shade(Base16Shade::Light(Shade::Darker)) => "#a1a19a"@,
            Base16Color::Shade(Base16Shade::Light(Shade::Lighter)) => "#e6e6dc"@,
            Base16Color::Shade(Base16Shade::Light(Shade::Lightest)) => "#fafaf8"@,
            Base16Color::Accent(Base16Accent::Accent00) => "#ff5a67"@,
            Base16Color::Accent(Base16Accent::Accent01) => "#f08e48"@,
            Base16Color::Accent(Base16Accent::Accent02) => "#ffcc1b"@,
            Base16Color::Accent(Base16Accent::Accent03) => "#7fc06e"@,
            Base16Color::Accent(Base16Accent::Accent04) => "#5dd7b9"@,
            Base16Color::Accent(Base16Accent::Accent05) => "#14747e"@,
            Base16Color::Accent(Base16Accent::Accent06) => "#9a70a4"@,
            Base16Color::Accent(Base16Accent::Accent07) => "#c43060"@,
        }
    }

    fn to_rgb(&self, color: Base16Color) -> (r: (u8, u8, u8)) {
        match color {
            Base16Color::Shade(Base16Shade::Dark(Shade::Darkest)) => (0x00, 0x26, 0x35),
            Base16Color::Shade(Base16Shade::Dark(Shade::Darker)) => (0x00, 0x38, 0x4d),
            Base16Color::Shade(Base16Shade::Dark(Shade::Lighter)) => (0x51, 0x7F, 0x8D),
            Base16Color::Shade(Base16Shade::Dark(Shade::Lightest)) => (0x6C, 0x8B, 0x91),
            Base16Color::Shade(Base16Shade::Light(Shade::Darkest)) => (0x86, 0x96, 0x96),
            Base16Color::Shade(Base16Shade::Light(Shade::Darker)) => (0xa1, 0xa1, 0x9a),
            Base16Color::Shade(Base16Shade::Light(Shade::Lighter)) => (0xe6, 0xe6, 0xdc),
            Base16Color::Shade(Base16Shade::Light(Shade::Lightest)) => (0xfa, 0xfa, 0xf8),
            Base16Color::Accent(Base16Accent::Accent00) => (0xff, 0x5a, 0x67),
            Base16Color::Accent(Base16Accent::Accent01) => (0xf0, 0x8e, 0x48),
            Base16Color::Accent(Base16Accent::Accent02) => (0xff, 0xcc, 0x1b),
            Base16Color::Accent(Base16Accent::Accent03) => (0x7f, 0xc0, 0x6e),
            Base16Color::Accent(Base16Accent::Accent04) => (0x5d, 0xd7, 0xb9),
            Base16Color::Accent(Base16Accent::Accent05) => (0x14, 0x74, 0x7e),
            Base16Color::Accent(Base16Accent::Accent06) => (0x9a, 0x70, 0xa4),
            Base16Color::Accent(Base16Accent::Accent07) => (0xc4, 0x30, 0x60),
        }
    }

    fn to_hex_str(&self, color: Base16Color) -> (r: &'static str) {
        match color {
            Base16Color::Shade(Base16Shade::Dark(Shade::Darkest)) => "#002635",
            Base16Color::Shade(Base16Shade::Dark(Shade::Darker)) => "#00384d",
            Base16Color::Shade(Base16Shade::Dark(Shade::Lighter)) => "#517F8D",
            Base16Color::Shade(Base16Shade::Dark(Shade::Lightest)) => "#6C8B91",
            Base16Color::Shade(Base16Shade::Light(Shade::Darkest)) => "#869696",
            Base16Color::Shade(Base16Shade::Light(Shade::Darker)) => "#a1a19a",
            Base16Color::Shade(Base16Shade::Light(Shade::Lighter)) => "#e6e6dc",
            Base16Color::Shade(Base16Shade::Light(Shade::Lightest)) => "#fafaf8",
            Base16Color::Accent(Base16Accent::Accent00) => "#ff5a67",
            Base16Color::Accent(Base16Accent::Accent01) => "#f08e48",
            Base16Color::Accent(Base16Accent::Accent02) => "#ffcc1b",
            Base16Color::Accent(Base16Accent::Accent03) => "#7fc06e",
            Base16Color::Accent(Base16Accent::Accent04) => "#5dd7b9",
            Base16Color::Accent(Base16Accent::Accent05) => "#14747e",
            Base16Color::Accent(Base16Accent::Accent06) => "#9a70a4",
            Base16Color::Accent(Base16Accent::Accent07) => "#c43060",
        }
    }
}

/// The Apprentice palette family.
#[derive(Debug, Clone, Copy, PartialEq, Eq, Structural)]
pub enum ApprenticePalette {
    Apprentice(Apprentice),
}

impl Base16Palette for ApprenticePalette {
    open spec fn spec_rgb(&self, color: Base16Color) -> (u8, u8, u8) {
        match self {
            ApprenticePalette::Apprentice(p) => p.spec_rgb(color),
        }
    }

    open spec fn spec_hex(&self, color: Base16Color) -> Seq<char> {
        match self {
            ApprenticePalette::Apprentice(p) => p.spec_hex(color),
        }
    }

    fn to_rgb(&self, color: Base16Color) -> (r: (u8, u8, u8)) {
        match self {
            ApprenticePalette::Apprentice(p) => p.to_rgb(color),
        }
    }

    fn to_hex_str(&self, color: Base16Color) -> (r: &'static str) {
        match self {
            ApprenticePalette::Apprentice(p) => p.to_hex_str(color),
        }
    }
}

/// The Atlas palette family.
#[derive(Debug, Clone, Copy, PartialEq, Eq, Structural)]
pub enum AtlasPalette {
    Atlas(Atlas),
}

impl Base16Palette for AtlasPalette {
    open spec fn spec_rgb(&self, color: Base16Color) -> (u8, u8, u8) {
        match self {
            AtlasPalette::Atlas(p) => p.spec_rgb(color),
        }
    }

    open spec fn spec_hex(&self, color: Base16Color) -> Seq<char> {
        match self {
            AtlasPalette::Atlas(p) => p.spec_hex(color),
        }
    }

    fn to_rgb(&self, color: Base16Color) -> (r: (u8, u8, u8)) {
        match self {
            AtlasPalette::Atlas(p) => p.to_rgb(color),
        }
    }

    fn to_hex_str(&self, color: Base16Color) -> (r: &'static str) {
        match self {
            AtlasPalette::Atlas(p) => p.to_hex_str(color),
        }
    }
}

/// The closed set of supported palettes.
#[derive(Debug, Clone, Copy, PartialEq, Eq, Structural)]
pub enum Palette {
    ApprenticePalette(ApprenticePalette),
    AtlasPalette(AtlasPalette),
}

impl Base16Palette for Palette {
    open spec fn spec_rgb(&self, color: Base16Color) -> (u8, u8, u8) {
        match self {
            Palette::ApprenticePalette(p) => p.spec_rgb(color),
            Palette::AtlasPalette(p) => p.spec_rgb(color),
        }
    }

    open spec fn spec_hex(&self, color: Base16Color) -> Seq<char> {
        match self {
            Palette::ApprenticePalette(p) => p.spec_hex(color),
            Palette::AtlasPalette(p) => p.spec_hex(color),
        }
    }

    fn to_rgb(&self, color: Base16Color) -> (r: (u8, u8, u8)) {
        match self {
            Palette::ApprenticePalette(p) => p.to_rgb(color),
            Palette::AtlasPalette(p) => p.to_rgb(color),
        }
    }

    fn to_hex_str(&self, color: Base16Color) -> (r: &'static str) {
        match self {
            Palette::ApprenticePalette(p) => p.to_hex_str(color),
            Palette::AtlasPalette(p) => p.to_hex_str(color),
        }
    }
}

impl Default for Palette {
    fn default() -> (r: Self)
        ensures
            r == Palette::ApprenticePalette(ApprenticePalette::Apprentice(Apprentice)),
    {
        Palette::ApprenticePalette(ApprenticePalette::Apprentice(Apprentice))
    }
}

} // verus!
