//! The wind: a drift shared by every flake, nudged now and then by a small
//! random amount, never blowing upward.

use vstd::prelude::*;
use crate::particle::MAX_COORD;
use crate::random::{chance, draw_below};

verus! {

/// Largest magnitude of a random nudge, in position units per tick (0.1 cells).
pub const GUST: i64 = 1000;

/// Largest magnitude of the starting horizontal drift, in position units per tick.
pub const START_DRIFT_X: i64 = 2500;

/// Bound (exclusive) of the starting vertical drift, in position units per tick.
pub const START_DRIFT_Y: i64 = 500;

/// A nudge comes on one tick in this many.
pub const GUST_ODDS: u32 = 5;

/// The drift of every flake, in position units per tick.
#[derive(Debug, Clone, Copy, PartialEq, Eq, Structural)]
pub struct Wind {
    pub drift_x: i64,
    pub drift_y: i64,
}

/// `v` held within `lo..=hi`.
pub open spec fn clamped(v: int, lo: int, hi: int) -> int {
    if v < lo {
        lo
    } else if v > hi {
        hi
    } else {
        v
    }
}

/// The wind after a nudge by `(dx, dy)`: the vertical drift never goes below
/// zero, and neither drift leaves the range that the arithmetic admits.
pub open spec fn nudged(w: Wind, dx: int, dy: int) -> Wind {
    Wind {
        drift_x: clamped(w.drift_x + dx, -MAX_COORD, MAX_COORD as int) as i64,
        drift_y: clamped(w.drift_y + dy, 0, MAX_COORD as int) as i64,
    }
}

/// Whether `d` is a nudge that the wind process may draw.
pub open spec fn is_gust(d: int) -> bool {
    -GUST <= d <= GUST
}

impl Wind {
    /// The wind does not blow upward and stays within the admitted range.
    pub open spec fn wf(&self) -> bool {
        &&& 0 <= self.drift_y <= MAX_COORD
        &&& -MAX_COORD <= self.drift_x <= MAX_COORD
    }

    /// A starting wind: horizontal drift in `-START_DRIFT_X..START_DRIFT_X`,
    /// vertical drift in `0..START_DRIFT_Y`.
    pub(crate) fn random(rng: &mut rand::rngs::StdRng) -> (r: Wind)
        ensures
            r.wf(),
            -START_DRIFT_X <= r.drift_x < START_DRIFT_X,
            0 <= r.drift_y < START_DRIFT_Y,
    {
        let x = draw_below(rng, (2 * START_DRIFT_X) as u64);
        let y = draw_below(rng, START_DRIFT_Y as u64);
        Wind { drift_x: x as i64 - START_DRIFT_X, drift_y: y as i64 }
    }

    /// Adds `(dx, dy)` to the drift, then clamps it (see `nudged`).
    pub fn nudge(&mut self, dx: i64, dy: i64)
        requires
            old(self).wf(),
            -MAX_COORD <= dx <= MAX_COORD,
            -MAX_COORD <= dy <= MAX_COORD,
        ensures
            *final(self) == nudged(*old(self), dx as int, dy as int),
            final(self).wf(),
            final(self).drift_y >= 0,
    {
        let x = self.drift_x + dx;
        let y = self.drift_y + dy;
        self.drift_x = if x < -MAX_COORD {
            -MAX_COORD
        } else if x > MAX_COORD {
            MAX_COORD
        } else {
            x
        };
        self.drift_y = if y < 0 {
            0
        } else if y > MAX_COORD {
            MAX_COORD
        } else {
            y
        };
    }

    /// With a one-in-`GUST_ODDS` chance, nudges the drift on each axis by an
    /// independent amount in `-GUST..=GUST`; otherwise leaves it.
    pub(crate) fn maybe_update(&mut self, rng: &mut rand::rngs::StdRng)
        requires
            old(self).wf(),
        ensures
            final(self).wf(),
            final(self).drift_y >= 0,
            *final(self) == *old(self) || exists|dx: int, dy: int|
                is_gust(dx) && is_gust(dy) && *final(self) == #[trigger] nudged(*old(self), dx, dy),
    {
        if chance(rng, 1, GUST_ODDS) {
            let dx = draw_below(rng, (2 * GUST + 1) as u64) as i64 - GUST;
            let dy = draw_below(rng, (2 * GUST + 1) as u64) as i64 - GUST;
            self.nudge(dx, dy);
        }
    }
}

/// Whatever nudge is drawn, the vertical drift is never negative afterwards.
pub proof fn lemma_never_upward(w: Wind, dx: int, dy: int)
    requires
        w.wf(),
    ensures
        nudged(w, dx, dy).drift_y >= 0,
{
}

} // verus!
