//! A single snowflake: fixed-point position and mass, per-tick integration
//! and the liveness test against the grid.

use vstd::prelude::*;

verus! {

/// Fixed-point units in one grid cell.
pub const SCALE: i64 = 10000;

/// Vertical fall per tick for each hundredth of a gram, in position units
/// (0.98 cells per tick per gram).
pub const GRAVITY: i64 = 98;

/// Lightest mass a new flake gets, in hundredths of a gram.
pub const MIN_MASS: i64 = 60;

/// Heaviest mass a new flake gets, in hundredths of a gram.
pub const MAX_MASS: i64 = 140;

/// Heaviest mass drawn with the light glyph, in hundredths of a gram.
pub const LIGHT_MASS: i64 = 90;

/// Largest magnitude of a position or a drift that the arithmetic admits.
pub const MAX_COORD: i64 = 1_000_000_000_000_000;

/// One falling snow unit. `x` and `y` are in `SCALE`-th of a cell, `m` in
/// hundredths of a gram.
#[derive(Debug, Clone, Copy, PartialEq, Eq, Structural)]
pub struct Snowflake {
    pub x: i64,
    pub y: i64,
    pub m: i64,
}

/// The vertical fall of one tick, wind excluded.
pub open spec fn fall_of(m: int) -> int {
    GRAVITY * m
}

/// The flake after one tick under drift `(dx, dy)`.
pub open spec fn stepped(f: Snowflake, dx: int, dy: int) -> (int, int) {
    (f.x + dx, f.y + dy + fall_of(f.m as int))
}

/// The flake after `n` ticks under the constant drift `(dx, dy)`.
pub open spec fn stepped_n(x: int, y: int, m: int, dx: int, dy: int, n: nat) -> (int, int)
    decreases n,
{
    if n == 0 {
        (x, y)
    } else {
        let (px, py) = stepped_n(x, y, m, dx, dy, (n - 1) as nat);
        (px + dx, py + dy + fall_of(m))
    }
}

/// Whether a flake at `(x, y)` lies within a grid whose extent is `(x_max, y_max)`.
pub open spec fn live_at(x: int, y: int, x_max: int, y_max: int) -> bool {
    0 <= x <= x_max && y <= y_max
}

/// Magnitudes under which one more tick cannot overflow.
pub open spec fn in_range(v: int) -> bool {
    -MAX_COORD <= v <= MAX_COORD
}

impl Snowflake {
    /// A flake at `(x0, y0)` with mass `m`.
    pub fn new(x0: i64, y0: i64, m: i64) -> (r: Snowflake)
        ensures
            r == (Snowflake { x: x0, y: y0, m }),
    {
        Snowflake { x: x0, y: y0, m }
    }

    /// Moves the flake by the drift `(dx, dy)`, and down by its own fall.
    pub fn update(&mut self, dx: i64, dy: i64)
        requires
            in_range(old(self).x as int),
            in_range(old(self).y as int),
            in_range(dx as int),
            in_range(dy as int),
            MIN_MASS <= old(self).m <= MAX_MASS,
        ensures
            (final(self).x as int, final(self).y as int) == stepped(*old(self), dx as int, dy as int),
            final(self).m == old(self).m,
    {
        self.x = self.x + dx;
        self.y = self.y + dy + GRAVITY * self.m;
    }

    /// Whether the flake lies within `0 <= x <= x_max` and `y <= y_max`.
    pub fn is_alive(&self, x_max: i64, y_max: i64) -> (r: bool)
        ensures
            r == live_at(self.x as int, self.y as int, x_max as int, y_max as int),
    {
        self.y <= y_max && self.x <= x_max && self.x >= 0
    }

    /// Whether the flake is drawn with the heavy glyph.
    pub fn is_heavy(&self) -> (r: bool)
        ensures
            r == (self.m > LIGHT_MASS),
    {
        self.m > LIGHT_MASS
    }

    /// The grid cell that holds the flake: its coordinates in whole cells,
    /// rounded toward zero and held within `0..=u16::MAX`.
    pub fn cell(&self) -> (r: (u16, u16))
        ensures
            r.0 as int == clamp_cell(self.x as int / SCALE as int),
            r.1 as int == clamp_cell(self.y as int / SCALE as int),
    {
        (to_cell(self.x), to_cell(self.y))
    }
}

/// `v` held within `0..=u16::MAX`.
pub open spec fn clamp_cell(v: int) -> int {
    if v < 0 {
        0
    } else if v > u16::MAX as int {
        u16::MAX as int
    } else {
        v
    }
}

fn to_cell(v: i64) -> (r: u16)
    ensures
        r as int == clamp_cell(v as int / SCALE as int),
{
    if v < 0 {
        0
    } else {
        let c = v / SCALE;
        if c > u16::MAX as i64 {
            u16::MAX
        } else {
            c as u16
        }
    }
}

/// After `n` ticks under the constant drift `(dx, dy)`, a flake has moved
/// by `n * dx` across and by `n * (dy + GRAVITY * m)` down: gravity acts on
/// the vertical axis alone.
pub proof fn lemma_constant_drift(x: int, y: int, m: int, dx: int, dy: int, n: nat)
    ensures
        stepped_n(x, y, m, dx, dy, n) == (x + n * dx, y + n * (dy + fall_of(m))),
    decreases n,
{
    let k = dy + fall_of(m);
    if n > 0 {
        lemma_constant_drift(x, y, m, dx, dy, (n - 1) as nat);
        assert((n - 1) * dx + dx == n * dx) by (nonlinear_arith);
        assert((n - 1) * k + k == n * k) by (nonlinear_arith);
    } else {
        assert(n * dx == 0 && n * k == 0) by (nonlinear_arith)
            requires
                n == 0,
        ;
    }
}

} // verus!
