use vstd::prelude::*;
use bracket_lib::prelude::RandomNumberGenerator;
use crate::config::{Config, CONFIG_MAX};
use crate::dragon::Dragon;
use crate::random::random_in_range;

verus! {

/// Half the height of the gap at the given score:
/// `max(gap_min, gap_base - score) / 2`.
pub open spec fn half_size_at(c: Config, score: int) -> int {
    if c.gap_base - score > c.gap_min {
        (c.gap_base - score) / 2
    } else {
        c.gap_min / 2
    }
}

/// An obstacle: a world column and a gap of rows
/// `[gap_y - half_size, gap_y + half_size]` that the dragon may pass through.
#[derive(Clone, Copy, Debug, PartialEq, Eq)]
pub struct Wall {
    pub x: i32,
    pub gap_y: i32,
    pub half_size: i32,
}

/// Half the height of the gap at the given score, as [`half_size_at`] states.
pub fn gap_half_size(c: &Config, score: i32) -> (h: i32)
    requires
        c.wf(),
        score >= 0,
    ensures
        h == half_size_at(*c, score as int),
{
    let span: i32 = c.gap_base - score;
    if span > c.gap_min {
        span / 2
    } else {
        c.gap_min / 2
    }
}

/// The gap never shrinks as the score grows, and never closes: its half
/// height stays at least one row.
pub proof fn lemma_half_size_non_increasing(c: Config, s1: int, s2: int)
    requires
        c.wf(),
        0 <= s1 <= s2,
    ensures
        half_size_at(c, s2) <= half_size_at(c, s1),
        half_size_at(c, s2) >= 1,
{
}

impl Wall {
    /// The gap's bounds fit comfortably in an `i32`.
    pub open spec fn inv(&self) -> bool {
        &&& -CONFIG_MAX <= self.gap_y <= CONFIG_MAX
        &&& 0 <= self.half_size <= CONFIG_MAX
    }

    /// First row of the gap.
    pub open spec fn top(&self) -> int {
        self.gap_y - self.half_size
    }

    /// Last row of the gap.
    pub open spec fn bottom(&self) -> int {
        self.gap_y + self.half_size
    }

    /// The dragon hits this wall: it stands in the wall's column, outside the gap.
    pub open spec fn hits(&self, d: Dragon) -> bool {
        self.x == d.x && (d.y < self.top() || d.y > self.bottom())
    }

    /// The wall at column `x` for the given score, with its gap around `gap_y`.
    pub open spec fn placed(x: i32, score: int, gap_y: i32, c: Config) -> Wall {
        Wall { x, gap_y, half_size: half_size_at(c, score) as i32 }
    }

    /// A row on which the wall is drawn: every row but those strictly inside
    /// the gap's bounds.
    pub open spec fn drawn_at(&self, y: int) -> bool {
        !(self.top() < y < self.bottom())
    }

    /// The wall at column `x` for the given score, its gap around `gap_y`.
    pub fn with_gap(x: i32, score: i32, gap_y: i32, c: &Config) -> (w: Wall)
        requires
            c.wf(),
            score >= 0,
            c.gap_low <= gap_y < c.gap_high,
        ensures
            w == Wall::placed(x, score as int, gap_y, *c),
            w.half_size == half_size_at(*c, score as int),
            w.inv(),
    {
        Wall { x, gap_y, half_size: gap_half_size(c, score) }
    }

    /// The wall at column `x` for the given score, its gap center drawn from
    /// the configured band.
    pub fn new(x: i32, score: i32, c: &Config, rng: &mut RandomNumberGenerator) -> (w: Wall)
        requires
            c.wf(),
            score >= 0,
        ensures
            c.gap_low <= w.gap_y < c.gap_high,
            w == Wall::placed(x, score as int, w.gap_y, *c),
            w.inv(),
    {
        let gap_y = random_in_range(rng, c.gap_low, c.gap_high);
        Wall::with_gap(x, score, gap_y, c)
    }

    /// Whether the dragon hits this wall: exactly when it stands in the wall's
    /// column and its row lies outside the gap.
    pub fn collision_detected(&self, dragon: &Dragon) -> (r: bool)
        requires
            self.inv(),
        ensures
            r == self.hits(*dragon),
            r ==> dragon.x == self.x,
    {
        let gap_top = self.gap_y - self.half_size;
        let gap_bottom = self.gap_y + self.half_size;
        self.x == dragon.x && (dragon.y < gap_top || dragon.y > gap_bottom)
    }

    /// The rows in `[0, height)` on which the wall is drawn, in increasing order.
    pub fn drawn_rows(&self, height: i32) -> (rows: Vec<i32>)
        requires
            self.inv(),
        ensures
            forall|i: int| 0 <= i < rows.len() ==> 0 <= #[trigger] rows[i] < height,
            forall|i: int| 0 <= i < rows.len() ==> self.drawn_at(#[trigger] rows[i] as int),
            forall|i: int, j: int| 0 <= i < j < rows.len() ==> rows[i] < rows[j],
            forall|y: int| 0 <= y < height && self.drawn_at(y) ==> rows@.contains(y as i32),
    {
        let gap_top = self.gap_y - self.half_size;
        let gap_bottom = self.gap_y + self.half_size;
        let mut rows: Vec<i32> = Vec::new();
        let mut y: i32 = 0;
        while y < height
            invariant
                0 <= y,
                y <= height || (y == 0 && rows.len() == 0),
                gap_top == self.top(),
                gap_bottom == self.bottom(),
                forall|i: int| 0 <= i < rows.len() ==> 0 <= #[trigger] rows[i] < y,
                forall|i: int| 0 <= i < rows.len() ==> self.drawn_at(#[trigger] rows[i] as int),
                forall|i: int, j: int| 0 <= i < j < rows.len() ==> rows[i] < rows[j],
                forall|z: int| 0 <= z < y && self.drawn_at(z) ==> rows@.contains(z as i32),
            decreases height - y,
        {
            let ghost before = rows@;
            if !(y > gap_top && y < gap_bottom) {
                rows.push(y);
                assert(rows[rows.len() - 1] == y);
            }
            proof {
                assert forall|z: int| 0 <= z < y + 1 && self.drawn_at(z) implies rows@.contains(z as i32) by {
                    if z == y {
                        assert(rows[rows.len() - 1] == y);
                    } else {
                        let i = choose|i: int| 0 <= i < before.len() && before[i] == z as i32;
                        assert(rows@[i] == before[i]);
                    }
                }
            }
            y = y + 1;
        }
        rows
    }
}

} // verus!
