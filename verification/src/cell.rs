//! A single cell of the character grid: one grapheme together with its
//! foreground color, background color, and style modifiers.

use vstd::prelude::*;

use crate::style::{color_ok, Color, Modifier};
use vstd::string::StringExecFns;

verus! {

/// One grid cell. Written by the drawing engine, read by the compressor;
/// overwritten in place by subsequent draws.
#[derive(Debug, Clone)]
pub struct Cell {
    /// The displayed grapheme: a single character or cluster, never empty.
    pub symbol: String,
    pub fg: Color,
    pub bg: Color,
    pub modifier: Modifier,
}

impl Cell {
    /// A well-formed cell displays at least one character and names only
    /// valid palette indices.
    pub open spec fn wf(self) -> bool {
        &&& self.symbol@.len() > 0
        &&& color_ok(self.fg)
        &&& color_ok(self.bg)
    }

    /// Whether this cell shares its full style (foreground, background,
    /// modifier set) with `other`.
    pub open spec fn same_style(self, other: Cell) -> bool {
        &&& self.fg == other.fg
        &&& self.bg == other.bg
        &&& self.modifier == other.modifier
    }

    pub fn new(symbol: String, fg: Color, bg: Color, modifier: Modifier) -> (r: Self)
        ensures
            r == (Cell { symbol, fg, bg, modifier }),
    {
        Cell { symbol, fg, bg, modifier }
    }
}

impl Default for Cell {
    /// A blank cell: a single space with reset colors and no modifiers.
    fn default() -> (r: Self)
        ensures
            r.symbol@ == " "@,
            r.fg == Color::Reset,
            r.bg == Color::Reset,
            r.modifier.bits == 0,
            r.wf(),
    {
        proof {
            reveal_strlit(" ");
        }
        Cell {
            symbol: String::from_str(" "),
            fg: Color::Reset,
            bg: Color::Reset,
            modifier: Modifier { bits: 0 },
        }
    }
}

} // verus!
