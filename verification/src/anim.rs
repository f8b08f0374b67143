//! Per-entity animation clock: a countdown timer that, on expiry, advances
//! a cyclic sprite-frame index between two endpoint frames.

use vstd::prelude::*;

verus! {

/// What one expiry of the clock does to the frame index: wrap from `last`
/// back to `first`, otherwise step one frame toward `last` (up when
/// `first < last`, down when `first > last`).
pub open spec fn advance_index(first: int, last: int, cur: int) -> int {
    if cur == last {
        first
    } else if first < last {
        cur + 1
    } else if first > last {
        cur - 1
    } else {
        cur
    }
}

/// The frame index after `n` expiries starting from `cur`.
pub open spec fn advance_n(first: int, last: int, cur: int, n: nat) -> int
    decreases n,
{
    if n == 0 {
        cur
    } else {
        advance_n(first, last, advance_index(first, last, cur), (n - 1) as nat)
    }
}

/// While the index walks up from `cur` and stays at most `last`, each
/// expiry adds exactly one.
proof fn lemma_advance_from(first: int, last: int, cur: int, k: nat)
    requires
        first < last,
        first <= cur <= last,
        k <= last - cur,
    ensures
        advance_n(first, last, cur, k) == cur + k,
    decreases k,
{
    if k > 0 {
        lemma_advance_from(first, last, cur + 1, (k - 1) as nat);
    }
}

/// Peeling one expiry off the back of a run of `k + 1`.
proof fn lemma_advance_snoc(first: int, last: int, cur: int, k: nat)
    ensures
        advance_n(first, last, cur, k + 1) == advance_index(
            first,
            last,
            advance_n(first, last, cur, k),
        ),
    decreases k,
{
    let next = advance_index(first, last, cur);
    assert(advance_n(first, last, cur, k + 1) == advance_n(first, last, next, k));
    if k == 0 {
        assert(advance_n(first, last, next, 0) == next);
        assert(advance_n(first, last, cur, 0) == cur);
    } else {
        lemma_advance_snoc(first, last, next, (k - 1) as nat);
        assert(advance_n(first, last, cur, k) == advance_n(first, last, next, (k - 1) as nat));
    }
}

/// Law: starting at `first` with `first < last`, after exactly
/// `last - first + 1` expiries the frame index returns to `first`.
pub proof fn lemma_anim_cycle(first: int, last: int)
    requires
        first < last,
    ensures
        advance_n(first, last, first, (last - first + 1) as nat) == first,
{
    lemma_advance_from(first, last, first, (last - first) as nat);
    lemma_advance_snoc(first, last, first, (last - first) as nat);
}

/// Animation state of one entity: endpoint frames (either order), the
/// current frame, and an independent countdown with its configured period,
/// in milliseconds. The clock repeats.
#[derive(Clone, Copy, Debug, PartialEq, Eq, Structural)]
pub struct AnimState {
    pub first: u32,
    pub last: u32,
    pub current: u32,
    pub countdown_ms: u64,
    pub period_ms: u64,
}

impl AnimState {
    /// Well-formedness: the current frame lies in the inclusive range
    /// bounded by `first` and `last` (whichever order), and the countdown
    /// never exceeds its period.
    pub open spec fn wf(self) -> bool {
        &&& if self.first <= self.last {
            self.first <= self.current <= self.last
        } else {
            self.last <= self.current <= self.first
        }
        &&& self.countdown_ms <= self.period_ms
    }

    /// A fresh clock: the index starts at `first`, the countdown full.
    pub fn new(first: u32, last: u32, period_ms: u64) -> (a: AnimState)
        ensures
            a.wf(),
            a.first == first,
            a.last == last,
            a.current == first,
            a.period_ms == period_ms,
            a.countdown_ms == period_ms,
    {
        AnimState { first, last, current: first, countdown_ms: period_ms, period_ms }
    }

    /// What one tick does: on expiry of the countdown it resets to the
    /// configured period and the frame index advances one step of its
    /// cycle; otherwise only the countdown shrinks by the elapsed time.
    pub open spec fn spec_tick(a: AnimState, elapsed_ms: u64) -> AnimState {
        if elapsed_ms >= a.countdown_ms {
            AnimState {
                current: advance_index(a.first as int, a.last as int, a.current as int) as u32,
                countdown_ms: a.period_ms,
                ..a
            }
        } else {
            AnimState { countdown_ms: (a.countdown_ms - elapsed_ms) as u64, ..a }
        }
    }

    /// Accumulates `elapsed_ms` of wall-clock time against the countdown.
    /// On expiry the countdown resets to its configured period and the
    /// frame index advances one step of its cycle; otherwise only the
    /// countdown shrinks.
    pub fn tick(&mut self, elapsed_ms: u64)
        requires
            old(self).wf(),
        ensures
            final(self).wf(),
            *final(self) == AnimState::spec_tick(*old(self), elapsed_ms),
    {
        if elapsed_ms >= self.countdown_ms {
            self.countdown_ms = self.period_ms;
            self.current = if self.current == self.last {
                self.first
            } else if self.first < self.last {
                self.current + 1
            } else if self.first > self.last {
                self.current - 1
            } else {
                self.current
            };
        } else {
            self.countdown_ms = self.countdown_ms - elapsed_ms;
        }
    }
}

} // verus!
