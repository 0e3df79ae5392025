//! Maps cell colors and modifier sets to CSS text.
//!
//! A named color maps to a fixed literal; a true-color triple formats
//! directly as an uppercase hex triple, two digits per component; an
//! indexed color resolves through the active palette. A
//! "reset" color has no mapping of its own: where one is required, the
//! caller substitutes the palette's default foreground or background.

use vstd::prelude::*;

use crate::palette::{Base16Color, Base16Palette, Palette};
use crate::style::{color_ok, Color, Modifier, BOLD_BITS, ITALIC_BITS, UNDERLINED_BITS};
use vstd::string::{StrSliceExecFns, StringExecFns};

verus! {

/// The uppercase hex digit of `n`, for `n < 16`.
pub open spec fn spec_hex_digit(n: u8) -> Seq<char> {
    if n == 0 {
        "0"@
    } else if n == 1 {
        "1"@
    } else if n == 2 {
        "2"@
    } else if n == 3 {
        "3"@
    } else if n == 4 {
        "4"@
    } else if n == 5 {
        "5"@
    } else if n == 6 {
        "6"@
    } else if n == 7 {
        "7"@
    } else if n == 8 {
        "8"@
    } else if n == 9 {
        "9"@
    } else if n == 10 {
        "A"@
    } else if n == 11 {
        "B"@
    } else if n == 12 {
        "C"@
    } else if n == 13 {
        "D"@
    } else if n == 14 {
        "E"@
    } else {
        "F"@
    }
}

/// The uppercase hex form of a byte: always two digits, zero-padded.
pub open spec fn spec_hex_byte(n: u8) -> Seq<char> {
    spec_hex_digit(n / 16) + spec_hex_digit(n % 16)
}

fn hex_digit_str(n: u8) -> (r: &'static str)
    requires
        n < 16,
    ensures
        r@ == spec_hex_digit(n),
{
    match n {
        0 => "0",
        1 => "1",
        2 => "2",
        3 => "3",
        4 => "4",
        5 => "5",
        6 => "6",
        7 => "7",
        8 => "8",
        9 => "9",
        10 => "A",
        11 => "B",
        12 => "C",
        13 => "D",
        14 => "E",
        15 => "F",
        _ => vstd::pervasive::unreached(),
    }
}

/// Appends the two-digit uppercase hex form of `n` to `s`.
fn push_hex_byte(s: &mut String, n: u8)
    ensures
        final(s)@ == old(s)@ + spec_hex_byte(n),
{
    s.append(hex_digit_str(n / 16));
    s.append(hex_digit_str(n % 16));
    proof {
        assert(s@ =~= old(s)@ + spec_hex_byte(n));
    }
}

/// The CSS color text of `c` under palette `p`, if it has one. A reset
/// color has none: the caller must substitute a palette default.
pub open spec fn spec_css_color(p: Palette, c: Color) -> Option<Seq<char>> {
    match c {
        Color::Reset => None,
        Color::Black => Some("black"@),
        Color::Red => Some("red"@),
        Color::Green => Some("green"@),
        Color::Yellow => Some("yellow"@),
        Color::Blue => Some("blue"@),
        Color::Magenta => Some("magenta"@),
        Color::Cyan => Some("cyan"@),
        Color::Gray => Some("gray"@),
        Color::DarkGray => Some("darkgray"@),
        Color::LightRed => Some("#de2b56"@),
        Color::LightGreen => Some("lightgreen"@),
        Color::LightYellow => Some("LightGoldenRodYellow"@),
        Color::LightBlue => Some("LightSkyBlue"@),
        Color::LightMagenta => Some("#ff00ff"@),
        Color::LightCyan => Some("lightcyan"@),
        Color::White => Some("white"@),
        Color::Rgb(r, g, b) => Some(
            "#"@ + spec_hex_byte(r) + spec_hex_byte(g) + spec_hex_byte(b),
        ),
        Color::Indexed(i) => Some(p.spec_hex(Base16Color::spec_from_index(i))),
    }
}

/// Maps a color to its CSS text under palette `p`; `None` exactly for the
/// reset color.
pub fn to_css_color(p: &Palette, c: Color) -> (r: Option<String>)
    requires
        color_ok(c),
    ensures
        r is Some <==> spec_css_color(*p, c) is Some,
        r matches Some(s) ==> s@ == spec_css_color(*p, c).unwrap(),
{
    match c {
        Color::Reset => None,
        Color::Black => Some(String::from_str("black")),
        Color::Red => Some(String::from_str("red")),
        Color::Green => Some(String::from_str("green")),
        Color::Yellow => Some(String::from_str("yellow")),
        Color::Blue => Some(String::from_str("blue")),
        Color::Magenta => Some(String::from_str("magenta")),
        Color::Cyan => Some(String::from_str("cyan")),
        Color::Gray => Some(String::from_str("gray")),
        Color::DarkGray => Some(String::from_str("darkgray")),
        Color::LightRed => Some(String::from_str("#de2b56")),
        Color::LightGreen => Some(String::from_str("lightgreen")),
        Color::LightYellow => Some(String::from_str("LightGoldenRodYellow")),
        Color::LightBlue => Some(String::from_str("LightSkyBlue")),
        Color::LightMagenta => Some(String::from_str("#ff00ff")),
        Color::LightCyan => Some(String::from_str("lightcyan")),
        Color::White => Some(String::from_str("white")),
        Color::Rgb(r, g, b) => {
            let mut s = String::from_str("#");
            push_hex_byte(&mut s, r);
            push_hex_byte(&mut s, g);
            push_hex_byte(&mut s, b);
            proof {
                assert(s@ =~= "#"@ + spec_hex_byte(r) + spec_hex_byte(g) + spec_hex_byte(b));
            }
            Some(s)
        },
        Color::Indexed(i) => Some(String::from_str(p.to_hex_str(Base16Color::from_index(i)))),
    }
}

/// The CSS color text of `c`, falling back to the palette entry `default`
/// where `c` is the reset color.
pub open spec fn spec_resolve_css(p: Palette, c: Color, default: Base16Color) -> Seq<char> {
    match spec_css_color(p, c) {
        Some(s) => s,
        None => p.spec_hex(default),
    }
}

/// The CSS segments contributed by a modifier set, each with a single
/// leading space.
pub open spec fn spec_mod_css(m: Modifier) -> Seq<char> {
    (if m.spec_has(BOLD_BITS) {
        " font-weight: bolder;"@
    } else {
        Seq::<char>::empty()
    }) + (if m.spec_has(ITALIC_BITS) {
        " font-style: oblique;"@
    } else {
        Seq::<char>::empty()
    }) + (if m.spec_has(UNDERLINED_BITS) {
        " text-decoration: underline;"@
    } else {
        Seq::<char>::empty()
    })
}

/// Extends a CSS style string with the segments for the given modifiers.
pub fn extend_css(mods: Modifier, css: &mut String)
    ensures
        final(css)@ == old(css)@ + spec_mod_css(mods),
{
    if mods.contains(Modifier::bold()) {
        css.append(" font-weight: bolder;");
    }
    if mods.contains(Modifier::italic()) {
        css.append(" font-style: oblique;");
    }
    if mods.contains(Modifier::underlined()) {
        css.append(" text-decoration: underline;");
    }
    proof {
        assert(css@ =~= old(css)@ + spec_mod_css(mods));
    }
}

/// The full inline style text of a span: foreground, background, then one
/// segment per modifier.
pub open spec fn spec_span_style(p: Palette, fg: Color, bg: Color, m: Modifier) -> Seq<char> {
    "color: "@ + spec_resolve_css(p, fg, Base16Color::spec_default_fg()) + "; background-color: "@
        + spec_resolve_css(p, bg, Base16Color::spec_default_bg()) + ";"@ + spec_mod_css(m)
}

/// Composes the inline CSS style of a span from its colors and modifiers,
/// substituting the palette defaults for reset colors.
pub fn span_style(p: &Palette, fg: Color, bg: Color, mods: Modifier) -> (r: String)
    requires
        color_ok(fg),
        color_ok(bg),
    ensures
        r@ == spec_span_style(*p, fg, bg, mods),
{
    let mut s = String::from_str("color: ");
    let fg_css = match to_css_color(p, fg) {
        Some(x) => x,
        None => String::from_str(p.to_hex_str(Base16Color::default_fg())),
    };
    s.append(fg_css.as_str());
    s.append("; background-color: ");
    let bg_css = match to_css_color(p, bg) {
        Some(x) => x,
        None => String::from_str(p.to_hex_str(Base16Color::default_bg())),
    };
    s.append(bg_css.as_str());
    s.append(";");
    extend_css(mods, &mut s);
    proof {
        assert(s@ =~= spec_span_style(*p, fg, bg, mods));
    }
    s
}

/// The page-level style rule that keys the document background off the
/// palette's default background color.
pub open spec fn spec_body_bg_rule(p: Palette) -> Seq<char> {
    "body { background-color: "@ + p.spec_hex(Base16Color::spec_default_bg()) + "; }"@
}

/// Builds the page-level background rule for the given palette.
pub fn body_background_rule(p: &Palette) -> (r: String)
    ensures
        r@ == spec_body_bg_rule(*p),
{
    let mut s = String::from_str("body { background-color: ");
    s.append(p.to_hex_str(Base16Color::default_bg()));
    s.append("; }");
    proof {
        assert(s@ =~= spec_body_bg_rule(*p));
    }
    s
}

/// Whether a style rule's text is a body-background rule: it starts with
/// the same prefix that [`body_background_rule`] emits, so replacing it on
/// a palette change finds exactly the rule written before.
pub open spec fn spec_is_body_bg_rule(s: Seq<char>) -> bool {
    &&& s.len() >= "body { background-color: "@.len()
    &&& s.subrange(0, "body { background-color: "@.len() as int) == "body { background-color: "@
}

/// Tests whether a style rule's text begins with the body-background
/// prefix.
pub fn is_body_bg_rule(s: &str) -> (r: bool)
    ensures
        r == spec_is_body_bg_rule(s@),
{
    let pre = "body { background-color: ";
    let plen = pre.unicode_len();
    if s.unicode_len() < plen {
        false
    } else {
        let head = s.substring_char(0, plen);
        proof {
            assert(head@ == s@.subrange(0, pre@.len() as int));
        }
        head.to_owned() == pre.to_owned()
    }
}

} // verus!
