//! Interprets raw touch-position samples as discrete vertical scroll ticks.
//!
//! Touch events arrive as isolated position samples rather than as a
//! continuous stream, so scrolling is emulated: an accumulator tracks the
//! unconsumed vertical displacement of the current gesture and emits one
//! tick for every full threshold of accumulated movement, carrying the
//! remainder over to the next sample.

use vstd::prelude::*;

verus! {

/// One discrete unit of vertical scroll.
#[derive(Debug, Clone, Copy, PartialEq, Eq, Structural)]
pub enum ScrollMotion {
    Up,
    Down,
}

/// The position at which a touch event occurred, in page coordinates.
#[derive(Debug, Clone, Copy, PartialEq, Eq, Structural)]
pub struct Position {
    pub x: i32,
    pub y: i32,
}

/// Two samples whose squared distance stays at or under this bound belong
/// to the same gesture. The bound is `200 * 200`: a Euclidean distance of
/// at most 200 display units.
pub const CONNECT_DIST_SQ: i128 = 40000;

/// The accumulated vertical displacement needed to emit a single tick.
pub const SCROLL_THRES: i32 = 20;

impl Position {
    pub fn new(x: i32, y: i32) -> (r: Self)
        ensures
            r == (Position { x, y }),
    {
        Self { x, y }
    }

    /// The squared Euclidean distance to `other`.
    pub open spec fn spec_dist_sq(self, other: Position) -> int {
        (self.x - other.x) * (self.x - other.x) + (self.y - other.y) * (self.y - other.y)
    }

    /// Whether `other` is close enough to be part of the same gesture:
    /// within a Euclidean distance of 200 display units.
    pub open spec fn spec_connected(self, other: Position) -> bool {
        self.spec_dist_sq(other) <= CONNECT_DIST_SQ
    }

    /// Returns whether the given position is feasibly part of the same
    /// touch gesture as this one.
    pub fn is_connected(&self, pos: Position) -> (r: bool)
        ensures
            r == self.spec_connected(pos),
    {
        let dx: i128 = self.x as i128 - pos.x as i128;
        let dy: i128 = self.y as i128 - pos.y as i128;
        proof {
            assert(dx * dx + dy * dy <= 0x2_0000_0000_0000_0000) by (nonlinear_arith)
                requires
                    -0x1_0000_0000 < dx < 0x1_0000_0000,
                    -0x1_0000_0000 < dy < 0x1_0000_0000,
            ;
            assert(dx * dx >= 0 && dy * dy >= 0) by (nonlinear_arith);
        }
        let d2: i128 = dx * dx + dy * dy;
        d2 <= CONNECT_DIST_SQ
    }
}

/// The state of the gesture recognizer: the last observed position and the
/// signed running total of unconsumed vertical displacement.
#[derive(Debug, Clone, Copy, PartialEq, Eq, Structural)]
pub struct TouchScroll {
    pub last: Position,
    pub acc: i32,
}

/// The accumulator never retains a full threshold of displacement: every
/// call consumes whole ticks and keeps only the remainder.
pub open spec fn touch_wf(s: TouchScroll) -> bool {
    -SCROLL_THRES < s.acc < SCROLL_THRES
}

/// What one sample does to the recognizer: the next state and the emitted
/// ticks.
///
/// A sample disconnected from the gesture (further than the connection
/// threshold) is ignored outright: no ticks, and the state is left exactly
/// as it was, so a later sample near the old position resumes accumulation.
pub open spec fn scroll_step(s: TouchScroll, pos: Position) -> (TouchScroll, Seq<ScrollMotion>) {
    if s.last.spec_connected(pos) {
        let sum = s.acc + s.last.y - pos.y;
        let ticks = vstd::math::abs(sum) / (SCROLL_THRES as nat);
        let rem = vstd::math::abs(sum) % (SCROLL_THRES as nat);
        if sum > 0 {
            (
                TouchScroll { last: pos, acc: rem as i32 },
                Seq::new(ticks, |i: int| ScrollMotion::Up),
            )
        } else {
            (
                TouchScroll { last: pos, acc: (-(rem as int)) as i32 },
                Seq::new(ticks, |i: int| ScrollMotion::Down),
            )
        }
    } else {
        (s, Seq::empty())
    }
}

impl TouchScroll {
    /// Constructs a new accumulator, at the origin with nothing accumulated.
    pub fn new() -> (r: Self)
        ensures
            r == (TouchScroll { last: Position { x: 0, y: 0 }, acc: 0 }),
            touch_wf(r),
    {
        Self { last: Position { x: 0, y: 0 }, acc: 0 }
    }

    /// Starts a new touch series at `pos`, discarding any accumulated
    /// displacement.
    pub fn init_touch(&mut self, pos: Position)
        ensures
            *final(self) == (TouchScroll { last: pos, acc: 0 }),
            touch_wf(*final(self)),
    {
        self.last = pos;
        self.acc = 0;
    }

    /// Adds a new sample to the series and returns the scroll ticks it
    /// completes, as [`scroll_step`] describes.
    pub fn add_touch(&mut self, pos: Position) -> (r: Vec<ScrollMotion>)
        requires
            touch_wf(*old(self)),
        ensures
            *final(self) == scroll_step(*old(self), pos).0,
            r@ == scroll_step(*old(self), pos).1,
            touch_wf(*final(self)),
    {
        if self.last.is_connected(pos) {
            let sum: i64 = self.acc as i64 + self.last.y as i64 - pos.y as i64;
            let m: i64 = if sum < 0 {
                -sum
            } else {
                sum
            };
            let ticks: i64 = m / (SCROLL_THRES as i64);
            let rem: i64 = m % (SCROLL_THRES as i64);
            let val: ScrollMotion = if sum > 0 {
                self.acc = rem as i32;
                ScrollMotion::Up
            } else {
                self.acc = -(rem as i32);
                ScrollMotion::Down
            };
            self.last = pos;
            let mut out: Vec<ScrollMotion> = Vec::new();
            let mut i: i64 = 0;
            while i < ticks
                invariant
                    0 <= i <= ticks,
                    out@ =~= Seq::new(i as nat, |j: int| val),
                decreases ticks - i,
            {
                out.push(val);
                i = i + 1;
            }
            proof {
                assert(out@ =~= scroll_step(*old(self), pos).1);
            }
            out
        } else {
            Vec::new()
        }
    }
}

/// A sample that repeats the last observed position completes no tick and
/// leaves the recognizer exactly as it was.
pub proof fn lemma_repeat_position_is_noop(s: TouchScroll, pos: Position)
    requires
        touch_wf(s),
        pos == s.last,
    ensures
        scroll_step(s, pos).0 == s,
        scroll_step(s, pos).1.len() == 0,
{
    assert(s.last.spec_dist_sq(pos) == 0);
}

} // verus!
