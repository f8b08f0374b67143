//! A character-cell swimmer for a terminal front end: an icon that wanders
//! a `width` by `height` grid one cell at a time, bouncing off the edges,
//! throttled by a per-entity speed counter. Drawing it is the front end's
//! business; this module owns the movement rule.

use crate::rng::{rand_index, rand_range_i64, rand_ratio};
use vstd::prelude::*;

verus! {

/// How many icons there are to choose from.
pub const ICON_COUNT: usize = 15;

/// The `i`-th icon, as a character sequence.
pub open spec fn spec_icon(i: int) -> Seq<char> {
    if i == 0 {
        "🦀"@
    } else if i == 1 {
        "🐟"@
    } else if i == 2 {
        "🐠"@
    } else if i == 3 {
        "🐡"@
    } else if i == 4 {
        "🐙"@
    } else if i == 5 {
        "🐬"@
    } else if i == 6 {
        "🦑"@
    } else if i == 7 {
        "🪼"@
    } else if i == 8 {
        "🦈"@
    } else if i == 9 {
        "🦞"@
    } else if i == 10 {
        "🦐"@
    } else if i == 11 {
        "🐌"@
    } else if i == 12 {
        "🐳"@
    } else if i == 13 {
        "🐋"@
    } else {
        "🦈"@
    }
}

/// Whether a string is one a mobile may carry: one of the icons, or the
/// plain-terminal fallback.
pub open spec fn is_mobile_icon(s: Seq<char>) -> bool {
    (exists|i: int| 0 <= i < ICON_COUNT && s == spec_icon(i)) || s == "."@
}

/// The `i`-th icon.
fn icon_str(i: usize) -> (r: &'static str)
    requires
        i < ICON_COUNT,
    ensures
        r@ == spec_icon(i as int),
{
    if i == 0 {
        "🦀"
    } else if i == 1 {
        "🐟"
    } else if i == 2 {
        "🐠"
    } else if i == 3 {
        "🐡"
    } else if i == 4 {
        "🐙"
    } else if i == 5 {
        "🐬"
    } else if i == 6 {
        "🦑"
    } else if i == 7 {
        "🪼"
    } else if i == 8 {
        "🦈"
    } else if i == 9 {
        "🦞"
    } else if i == 10 {
        "🦐"
    } else if i == 11 {
        "🐌"
    } else if i == 12 {
        "🐳"
    } else if i == 13 {
        "🐋"
    } else {
        "🦈"
    }
}

/// Relies on console::Emoji's Display impl: it prints the first string
/// when the terminal wants emoji and the second otherwise, so the result
/// is always one of the two.
#[verifier::external_body]
fn emoji_or_fallback(emoji: &str, fallback: &str) -> (r: String)
    ensures
        r@ == emoji@ || r@ == fallback@,
{
    console::Emoji(emoji, fallback).to_string()
}

/// A grid coordinate adjusted for the walls before a move: turned around
/// at zero and at the last cell inside `upper`, kept otherwise.
pub open spec fn adjusted_delta(coord: int, upper: int, delta: int) -> int {
    if coord == 0 {
        1
    } else if coord > upper - 1 {
        -1
    } else {
        delta
    }
}

/// One wrapping step of a grid coordinate by a delta of one.
pub open spec fn wrap_move(coord: int, delta: int) -> int {
    if delta == 1 {
        if coord == u16::MAX {
            0
        } else {
            coord + 1
        }
    } else {
        if coord == 0 {
            u16::MAX as int
        } else {
            coord - 1
        }
    }
}

/// One wrapping step of a grid coordinate.
fn wrap_move_exec(coord: u16, delta: i16) -> (r: u16)
    requires
        delta == 1 || delta == -1,
    ensures
        r == wrap_move(coord as int, delta as int),
{
    if delta == 1 {
        if coord == u16::MAX {
            0
        } else {
            coord + 1
        }
    } else {
        if coord == 0 {
            u16::MAX
        } else {
            coord - 1
        }
    }
}

/// One swimmer on the terminal grid.
pub struct Mobile {
    pub x: u16,
    pub y: u16,
    pub delta_x: i16,
    pub delta_y: i16,
    pub icon: String,
    pub speed: u8,
    pub last_wait: u8,
}

impl Mobile {
    /// Well-formedness: the per-axis direction is always a single step,
    /// and the icon is one of the recognized ones.
    pub open spec fn wf(self) -> bool {
        &&& self.delta_x == 1 || self.delta_x == -1
        &&& self.delta_y == 1 || self.delta_y == -1
        &&& is_mobile_icon(self.icon@)
    }

    /// A fresh swimmer: random icon, a uniformly random cell of the grid,
    /// random directions, and a random speed throttle.
    pub fn new(height: u16, width: u16) -> (m: Mobile)
        requires
            width >= 1,
            height >= 1,
        ensures
            m.wf(),
            m.x < width,
            m.y < height,
            1 <= m.speed < 20,
            m.last_wait == 0,
    {
        let idx = rand_index(ICON_COUNT);
        let icon = emoji_or_fallback(icon_str(idx), ".");
        let x = rand_range_i64(0, width as i64);
        let y = rand_range_i64(0, height as i64);
        let speed = rand_range_i64(1, 20);
        Mobile {
            icon,
            x: x as u16,
            y: y as u16,
            delta_x: if rand_ratio(1, 2) {
                1
            } else {
                -1
            },
            delta_y: if rand_ratio(1, 2) {
                1
            } else {
                -1
            },
            speed: speed as u8,
            last_wait: 0,
        }
    }

    /// One movement tick on a `width` by `height` grid. Until the throttle
    /// counter reaches the swimmer's speed the tick only counts up.
    /// Otherwise the counter resets, each direction turns around at its
    /// walls, and each axis then takes one wrapping step or stays, at
    /// random (the horizontal axis moves often, the vertical one rarely).
    pub fn update(&mut self, height: u16, width: u16)
        requires
            old(self).wf(),
            width >= 1,
            height >= 1,
        ensures
            final(self).wf(),
            final(self).icon == old(self).icon,
            final(self).speed == old(self).speed,
            old(self).last_wait < old(self).speed ==> {
                &&& final(self).last_wait == old(self).last_wait + 1
                &&& final(self).x == old(self).x
                &&& final(self).y == old(self).y
                &&& final(self).delta_x == old(self).delta_x
                &&& final(self).delta_y == old(self).delta_y
            },
            old(self).last_wait >= old(self).speed ==> {
                &&& final(self).last_wait == 0
                &&& final(self).delta_x == adjusted_delta(
                    old(self).x as int,
                    width as int,
                    old(self).delta_x as int,
                )
                &&& final(self).delta_y == adjusted_delta(
                    old(self).y as int,
                    height as int,
                    old(self).delta_y as int,
                )
                &&& (final(self).x == wrap_move(old(self).x as int, final(self).delta_x as int)
                    || final(self).x == old(self).x)
                &&& (final(self).y == wrap_move(old(self).y as int, final(self).delta_y as int)
                    || final(self).y == old(self).y)
            },
    {
        if self.last_wait < self.speed {
            self.last_wait = self.last_wait + 1;
            return ;
        } else {
            self.last_wait = 0;
        }
        if self.x > width - 1 {
            self.delta_x = -1;
        }
        if self.y > height - 1 {
            self.delta_y = -1;
        }
        if self.x == 0 {
            self.delta_x = 1;
        }
        if self.y == 0 {
            self.delta_y = 1;
        }
        if rand_ratio(4, 5) {
            self.x = wrap_move_exec(self.x, self.delta_x);
        }
        if rand_ratio(1, 5) {
            self.y = wrap_move_exec(self.y, self.delta_y);
        }
    }
}

} // verus!
