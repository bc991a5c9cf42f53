//! The scene: grid size, figures, wind and flakes, and the per-tick update
//! that re-plans on a resize, or else moves, culls and spawns flakes.

use vstd::prelude::*;
use crate::layout::{layout_ok, plan_layout, Layout};
use crate::particle::{live_at, stepped, Snowflake, MAX_MASS, MIN_MASS, SCALE};
use crate::random::{draw_below, seeded_rng};
use crate::wind::{is_gust, nudged, Wind};

verus! {

/// How densely the snow falls.
#[derive(Debug, Clone, Copy, PartialEq, Eq, Structural)]
pub enum SnowfallIntensity {
    Low,
    Medium,
    High,
}

/// The population target is the grid's area divided by this.
pub open spec fn area_per_flake(i: SnowfallIntensity) -> int {
    match i {
        SnowfallIntensity::Low => 20,
        SnowfallIntensity::Medium => 10,
        SnowfallIntensity::High => 5,
    }
}

/// The population target: 5%, 10% or 20% of the grid's cells, rounded down.
pub open spec fn max_population(i: SnowfallIntensity, cols: int, rows: int) -> int {
    (cols * rows) / area_per_flake(i)
}

/// The first population of a scene is drawn below this bound.
pub open spec fn initial_bound(max: int) -> int {
    max / 16
}

/// The most flakes one tick may add to a population of `len`.
pub open spec fn spawn_allowance(max: int, len: int) -> int {
    if len < max {
        (max - len) / 10
    } else {
        0
    }
}

/// Whether `f` is a new flake on a grid `cols` wide: on the top row, at the
/// left edge of a cell, with a mass in `MIN_MASS..=MAX_MASS`.
pub open spec fn fresh(f: Snowflake, cols: int) -> bool {
    &&& f.y == 0
    &&& 0 <= f.x < cols * SCALE
    &&& f.x % SCALE == 0
    &&& MIN_MASS <= f.m <= MAX_MASS
}

/// Whether `f` may be alive on a `cols` x `rows` grid.
pub open spec fn flake_ok(f: Snowflake, cols: int, rows: int) -> bool {
    &&& live_at(f.x as int, f.y as int, cols * SCALE, rows * SCALE)
    &&& 0 <= f.y
    &&& MIN_MASS <= f.m <= MAX_MASS
}

/// `f` after one tick under wind `w`.
pub open spec fn moved(f: Snowflake, w: Wind) -> Snowflake {
    let (x, y) = stepped(f, w.drift_x as int, w.drift_y as int);
    Snowflake { x: x as i64, y: y as i64, m: f.m }
}

/// The flakes of `s` moved by one tick under `w`, those that left the grid
/// of extent `(x_max, y_max)` removed, in their order.
pub open spec fn survivors(s: Seq<Snowflake>, w: Wind, x_max: int, y_max: int) -> Seq<Snowflake>
    decreases s.len(),
{
    if s.len() == 0 {
        Seq::empty()
    } else {
        let rest = survivors(s.drop_last(), w, x_max, y_max);
        let f = moved(s.last(), w);
        if live_at(f.x as int, f.y as int, x_max, y_max) {
            rest.push(f)
        } else {
            rest
        }
    }
}

/// What a scene holds, as a mathematical value.
pub ghost struct SceneView {
    pub cols: int,
    pub rows: int,
    pub layout: Layout,
    pub flakes: Seq<Snowflake>,
    pub max: int,
    pub intensity: SnowfallIntensity,
    pub wind: Wind,
}

impl SceneView {
    /// The scene's invariant: a valid wind and layout, a population at most
    /// the target that the intensity sets, and only flakes within the grid.
    pub open spec fn wf(self) -> bool {
        &&& 0 <= self.cols <= u16::MAX
        &&& 0 <= self.rows <= u16::MAX
        &&& self.wind.wf()
        &&& layout_ok(self.layout, self.cols)
        &&& self.max == max_population(self.intensity, self.cols, self.rows)
        &&& self.flakes.len() <= self.max
        &&& forall|i: int| 0 <= i < self.flakes.len() ==> flake_ok(#[trigger] self.flakes[i], self.cols, self.rows)
    }

    /// The scene after one tick's physics under the wind `w`: `w` becomes
    /// the wind, and the flakes move and are culled.
    pub open spec fn advanced(self, w: Wind) -> SceneView {
        SceneView {
            wind: w,
            flakes: survivors(self.flakes, w, self.cols * SCALE, self.rows * SCALE),
            ..self
        }
    }
}

/// The animated scene.
pub struct Scene {
    cols: u16,
    rows: u16,
    layout: Layout,
    rng: rand::rngs::StdRng,
    snowflakes: Vec<Snowflake>,
    max_snowflakes: usize,
    intensity: SnowfallIntensity,
    wind: Wind,
}

impl View for Scene {
    type V = SceneView;

    closed spec fn view(&self) -> SceneView {
        SceneView {
            cols: self.cols as int,
            rows: self.rows as int,
            layout: self.layout,
            flakes: self.snowflakes@,
            max: self.max_snowflakes as int,
            intensity: self.intensity,
            wind: self.wind,
        }
    }
}

/// The population target for `intensity` on a `cols` x `rows` grid.
pub fn max_population_for(intensity: SnowfallIntensity, cols: u16, rows: u16) -> (r: usize)
    ensures
        r as int == max_population(intensity, cols as int, rows as int),
{
    assert(cols as int * rows as int <= 65535 * 65535) by (nonlinear_arith)
        requires
            cols <= 65535,
            rows <= 65535,
    ;
    let area = cols as u64 * rows as u64;
    let per: u64 = match intensity {
        SnowfallIntensity::Low => 20,
        SnowfallIntensity::Medium => 10,
        SnowfallIntensity::High => 5,
    };
    (area / per) as usize
}

/// `count` new flakes on a grid `cols` wide, each in a uniform column with
/// a uniform mass in `MIN_MASS..=MAX_MASS`.
fn spawn_batch(rng: &mut rand::rngs::StdRng, cols: u16, count: usize) -> (r: Vec<Snowflake>)
    requires
        count == 0 || cols > 0,
    ensures
        r@.len() == count,
        forall|i: int| 0 <= i < r@.len() ==> fresh(#[trigger] r@[i], cols as int),
{
    let mut out: Vec<Snowflake> = Vec::new();
    let mut i: usize = 0;
    while i < count
        invariant
            count == 0 || cols > 0,
            i <= count,
            out@.len() == i,
            forall|j: int| 0 <= j < out@.len() ==> fresh(#[trigger] out@[j], cols as int),
        decreases count - i,
    {
        let col = draw_below(rng, cols as u64);
        let m = draw_below(rng, (MAX_MASS - MIN_MASS + 1) as u64);
        let f = Snowflake::new(col as i64 * SCALE, 0, MIN_MASS + m as i64);
        assert((col as i64 * SCALE) as int % SCALE as int == 0);
        assert(col as int * SCALE < cols as int * SCALE) by (nonlinear_arith)
            requires
                col < cols,
        ;
        out.push(f);
        i = i + 1;
    }
    out
}

/// Whether `v` holds a first population: every flake new, and fewer of
/// them than `initial_bound` (none where that bound is zero).
pub open spec fn initial_population(v: SceneView) -> bool {
    &&& (v.flakes.len() == 0 || v.flakes.len() < initial_bound(v.max))
    &&& forall|i: int| 0 <= i < v.flakes.len() ==> fresh(#[trigger] v.flakes[i], v.cols)
}

/// Whether `new` is what one tick without a resize may make of `old`: the
/// wind kept or nudged once, the flakes moved and culled under the new
/// wind, then at most `spawn_allowance` new flakes added at the end.
pub open spec fn ticked(old: SceneView, new: SceneView) -> bool {
    let mid = old.advanced(new.wind);
    let n = mid.flakes.len() as int;
    &&& new.wind == old.wind || exists|dx: int, dy: int|
        is_gust(dx) && is_gust(dy) && new.wind == #[trigger] nudged(old.wind, dx, dy)
    &&& n <= new.flakes.len()
    &&& new.flakes.take(n) == mid.flakes
    &&& new.flakes.len() - n <= spawn_allowance(old.max, n)
    &&& forall|i: int| n <= i < new.flakes.len() ==> fresh(#[trigger] new.flakes[i], old.cols)
    &&& new == SceneView { flakes: new.flakes, ..mid }
}

/// Whether `new` is what a resize to `cols` x `rows` makes of `old`: the
/// new size, a new layout for it, the wind and intensity kept, and a first
/// population drawn afresh.
pub open spec fn replanned(old: SceneView, new: SceneView, cols: int, rows: int) -> bool {
    &&& new.cols == cols
    &&& new.rows == rows
    &&& new.wind == old.wind
    &&& new.intensity == old.intensity
    &&& initial_population(new)
}

/// Moves every flake of `flakes` one tick under `wind` and keeps, in order,
/// those still within the `cols` x `rows` grid.
fn survivors_of(flakes: &Vec<Snowflake>, wind: Wind, cols: u16, rows: u16) -> (r: Vec<Snowflake>)
    requires
        wind.wf(),
        forall|i: int| 0 <= i < flakes@.len() ==> flake_ok(#[trigger] flakes@[i], cols as int, rows as int),
    ensures
        r@ == survivors(flakes@, wind, cols as int * SCALE, rows as int * SCALE),
        r@.len() <= flakes@.len(),
        forall|i: int| 0 <= i < r@.len() ==> flake_ok(#[trigger] r@[i], cols as int, rows as int),
{
    let x_max = cols as i64 * SCALE;
    let y_max = rows as i64 * SCALE;
    let mut kept: Vec<Snowflake> = Vec::new();
    let mut i: usize = 0;
    while i < flakes.len()
        invariant
            wind.wf(),
            x_max == cols as int * SCALE,
            y_max == rows as int * SCALE,
            forall|j: int| 0 <= j < flakes@.len() ==> flake_ok(#[trigger] flakes@[j], cols as int, rows as int),
            i <= flakes@.len(),
            kept@ == survivors(flakes@.take(i as int), wind, x_max as int, y_max as int),
            kept@.len() <= i,
            forall|j: int| 0 <= j < kept@.len() ==> flake_ok(#[trigger] kept@[j], cols as int, rows as int),
        decreases flakes@.len() - i,
    {
        let mut f = flakes[i];
        assert(flake_ok(flakes@[i as int], cols as int, rows as int));
        f.update(wind.drift_x, wind.drift_y);
        assert(f == moved(flakes@[i as int], wind));
        assert(flakes@.take(i + 1).drop_last() == flakes@.take(i as int));
        assert(flakes@.take(i + 1).last() == flakes@[i as int]);
        if f.is_alive(x_max, y_max) {
            kept.push(f);
        }
        i = i + 1;
    }
    assert(flakes@.take(flakes@.len() as int) == flakes@);
    kept
}

impl Scene {
    /// Draws a first population: `max_population` set for the current size,
    /// and a count of new flakes uniform below `initial_bound` of it.
    fn init_snowflakes(&mut self)
        ensures
            final(self)@ == (SceneView { flakes: final(self)@.flakes, max: final(self)@.max, ..old(self)@ }),
            final(self)@.max == max_population(old(self)@.intensity, old(self)@.cols, old(self)@.rows),
            initial_population(final(self)@),
    {
        self.max_snowflakes = max_population_for(self.intensity, self.cols, self.rows);
        let bound = self.max_snowflakes / 16;
        let count: usize = if bound == 0 {
            0
        } else {
            draw_below(&mut self.rng, bound as u64) as usize
        };
        if self.cols == 0 {
            assert(self.max_snowflakes == 0);
        }
        self.snowflakes = spawn_batch(&mut self.rng, self.cols, count);
    }

    /// A scene on a `cols` x `rows` grid whose random draws come from a
    /// generator seeded with `seed`: a starting wind, a layout for the width
    /// and a first population.
    pub fn new(intensity: SnowfallIntensity, cols: u16, rows: u16, seed: u64) -> (r: Scene)
        ensures
            r@.wf(),
            r@.cols == cols,
            r@.rows == rows,
            r@.intensity == intensity,
            -crate::wind::START_DRIFT_X <= r@.wind.drift_x < crate::wind::START_DRIFT_X,
            0 <= r@.wind.drift_y < crate::wind::START_DRIFT_Y,
            initial_population(r@),
    {
        let mut rng = seeded_rng(seed);
        let wind = Wind::random(&mut rng);
        let layout = plan_layout(&mut rng, cols);
        let mut s = Scene {
            cols,
            rows,
            layout,
            rng,
            snowflakes: Vec::new(),
            max_snowflakes: 0,
            intensity,
            wind,
        };
        s.init_snowflakes();
        proof {
            lemma_initial_population_ok(s@);
        }
        s
    }

    /// One tick's physics under the given wind: `wind` becomes the scene's
    /// wind, every flake moves under it, and those that left the grid are
    /// removed.
    pub fn advance(&mut self, wind: Wind)
        requires
            old(self)@.wf(),
            wind.wf(),
        ensures
            final(self)@ == old(self)@.advanced(wind),
            final(self)@.wf(),
    {
        self.wind = wind;
        self.snowflakes = survivors_of(&self.snowflakes, wind, self.cols, self.rows);
    }

    /// Adds `newcomers`, new flakes for this width, after the others; they
    /// may number at most `spawn_allowance` of the current population.
    pub fn add_flakes(&mut self, newcomers: Vec<Snowflake>)
        requires
            old(self)@.wf(),
            newcomers@.len() <= spawn_allowance(old(self)@.max, old(self)@.flakes.len() as int),
            forall|i: int| 0 <= i < newcomers@.len() ==> fresh(#[trigger] newcomers@[i], old(self)@.cols),
        ensures
            final(self)@ == (SceneView { flakes: old(self)@.flakes + newcomers@, ..old(self)@ }),
            final(self)@.wf(),
    {
        let mut batch = newcomers;
        self.snowflakes.append(&mut batch);
        proof {
            let v = self@;
            assert forall|i: int| 0 <= i < v.flakes.len() implies flake_ok(#[trigger] v.flakes[i], v.cols, v.rows) by {
                if i >= old(self)@.flakes.len() {
                    assert(fresh(newcomers@[i - old(self)@.flakes.len()], v.cols));
                } else {
                    assert(flake_ok(old(self)@.flakes[i], v.cols, v.rows));
                }
            }
        }
    }

    /// One tick on a grid that is now `cols` x `rows`. Where the size
    /// changed, the scene takes it, re-plans its layout and draws a first
    /// population afresh, and does nothing more this tick. Otherwise the
    /// wind may be nudged, the flakes move and are culled, and while the
    /// population is under its target a count of new flakes uniform in
    /// `0..=spawn_allowance` is added.
    pub fn update(&mut self, cols: u16, rows: u16)
        requires
            old(self)@.wf(),
        ensures
            final(self)@.wf(),
            final(self)@.cols == cols,
            final(self)@.rows == rows,
            final(self)@.intensity == old(self)@.intensity,
            (cols != old(self)@.cols || rows != old(self)@.rows) ==> replanned(old(self)@, final(self)@, cols as int, rows as int),
            (cols == old(self)@.cols && rows == old(self)@.rows) ==> ticked(old(self)@, final(self)@),
    {
        if cols != self.cols || rows != self.rows {
            self.cols = cols;
            self.rows = rows;
            self.layout = plan_layout(&mut self.rng, cols);
            self.init_snowflakes();
            proof {
                lemma_initial_population_ok(self@);
            }
            return;
        }
        let ghost before = self@;
        let mut wind = self.wind;
        wind.maybe_update(&mut self.rng);
        self.advance(wind);
        let ghost mid = self@;
        let len = self.snowflakes.len();
        let count: usize = if len < self.max_snowflakes {
            let rem = self.max_snowflakes - len;
            draw_below(&mut self.rng, (rem / 10 + 1) as u64) as usize
        } else {
            0
        };
        if self.cols == 0 {
            assert(mid.cols == 0);
            assert(mid.cols * mid.rows == 0) by (nonlinear_arith)
                requires
                    mid.cols == 0,
            ;
            assert(mid.max == 0);
        }
        let batch = spawn_batch(&mut self.rng, self.cols, count);
        self.add_flakes(batch);
        proof {
            assert(self@.flakes.take(mid.flakes.len() as int) == mid.flakes);
        }
    }
}

/// A first population on a scene that is otherwise valid keeps the
/// scene's invariant.
proof fn lemma_initial_population_ok(v: SceneView)
    requires
        0 <= v.cols <= u16::MAX,
        0 <= v.rows <= u16::MAX,
        v.wind.wf(),
        layout_ok(v.layout, v.cols),
        v.max == max_population(v.intensity, v.cols, v.rows),
        initial_population(v),
    ensures
        v.wf(),
{
    assert forall|i: int| 0 <= i < v.flakes.len() implies flake_ok(#[trigger] v.flakes[i], v.cols, v.rows) by {
        assert(fresh(v.flakes[i], v.cols));
        assert(0 <= v.rows * SCALE) by (nonlinear_arith)
            requires
                0 <= v.rows,
        ;
    }
}

/// Moving and culling never adds flakes.
pub proof fn lemma_survivors_len(s: Seq<Snowflake>, w: Wind, x_max: int, y_max: int)
    ensures
        survivors(s, w, x_max, y_max).len() <= s.len(),
    decreases s.len(),
{
    if s.len() > 0 {
        lemma_survivors_len(s.drop_last(), w, x_max, y_max);
    }
}

/// Every flake that survives a tick lies within the grid: one that moved
/// to `x < 0`, `x > x_max` or `y > y_max` is gone.
pub proof fn lemma_survivors_live(s: Seq<Snowflake>, w: Wind, x_max: int, y_max: int)
    ensures
        forall|i: int| 0 <= i < survivors(s, w, x_max, y_max).len() ==> {
            let f = #[trigger] survivors(s, w, x_max, y_max)[i];
            live_at(f.x as int, f.y as int, x_max, y_max)
        },
    decreases s.len(),
{
    if s.len() > 0 {
        let rest = survivors(s.drop_last(), w, x_max, y_max);
        lemma_survivors_live(s.drop_last(), w, x_max, y_max);
        let r = survivors(s, w, x_max, y_max);
        assert forall|i: int| 0 <= i < r.len() implies {
            let f = #[trigger] r[i];
            live_at(f.x as int, f.y as int, x_max, y_max)
        } by {
            if i < rest.len() {
                assert(r[i] == rest[i]);
            }
        }
    }
}

/// After a tick without a resize, every flake of the scene lies within the
/// grid, whether it moved there or was just spawned.
pub proof fn lemma_tick_culls(old: SceneView, new: SceneView)
    requires
        old.wf(),
        ticked(old, new),
    ensures
        forall|i: int| 0 <= i < new.flakes.len() ==> {
            let f = #[trigger] new.flakes[i];
            live_at(f.x as int, f.y as int, new.cols * SCALE, new.rows * SCALE)
        },
{
    let mid = old.advanced(new.wind);
    let n = mid.flakes.len() as int;
    lemma_survivors_live(old.flakes, new.wind, old.cols * SCALE, old.rows * SCALE);
    assert(0 <= new.rows * SCALE) by (nonlinear_arith)
        requires
            0 <= new.rows,
    ;
    assert forall|i: int| 0 <= i < new.flakes.len() implies {
        let f = #[trigger] new.flakes[i];
        live_at(f.x as int, f.y as int, new.cols * SCALE, new.rows * SCALE)
    } by {
        if i < n {
            assert(new.flakes[i] == new.flakes.take(n)[i]);
            assert(new.flakes[i] == mid.flakes[i]);
        } else {
            assert(fresh(new.flakes[i], old.cols));
        }
    }
}

/// A tick without a resize never takes the population above its target:
/// spawning adds at most a tenth of what is missing.
pub proof fn lemma_tick_population(old: SceneView, new: SceneView)
    requires
        old.wf(),
        ticked(old, new),
    ensures
        new.flakes.len() <= new.max,
        new.max == old.max,
{
    lemma_survivors_len(old.flakes, new.wind, old.cols * SCALE, old.rows * SCALE);
}

/// The outcome of a tick is fixed by the scene and the draws: two ticks of
/// one scene that drew the same wind and the same new flakes agree.
pub proof fn lemma_tick_reproducible(old: SceneView, a: SceneView, b: SceneView)
    requires
        ticked(old, a),
        ticked(old, b),
        a.wind == b.wind,
        a.flakes.skip(old.advanced(a.wind).flakes.len() as int) == b.flakes.skip(
            old.advanced(b.wind).flakes.len() as int,
        ),
    ensures
        a == b,
{
    let n = old.advanced(a.wind).flakes.len() as int;
    assert(a.flakes =~= a.flakes.take(n) + a.flakes.skip(n));
    assert(b.flakes =~= b.flakes.take(n) + b.flakes.skip(n));
}

impl Scene {
    /// Grid width in cells.
    pub fn cols(&self) -> (r: u16)
        ensures
            r == self@.cols,
    {
        self.cols
    }

    /// Grid height in cells.
    pub fn rows(&self) -> (r: u16)
        ensures
            r == self@.rows,
    {
        self.rows
    }

    /// The snowfall intensity.
    pub fn intensity(&self) -> (r: SnowfallIntensity)
        ensures
            r == self@.intensity,
    {
        self.intensity
    }

    /// The columns of the figures.
    pub fn layout(&self) -> (r: Layout)
        ensures
            r == self@.layout,
    {
        self.layout
    }

    /// The snowman's column, if it is placed.
    pub fn snowman_col(&self) -> (r: Option<u16>)
        ensures
            r == self@.layout.snowman,
    {
        self.layout.snowman
    }

    /// The tree's column, if it is placed.
    pub fn tree_col(&self) -> (r: Option<u16>)
        ensures
            r == self@.layout.tree,
    {
        self.layout.tree
    }

    /// Santa's column, if it is placed.
    pub fn santa_col(&self) -> (r: Option<u16>)
        ensures
            r == self@.layout.santa,
    {
        self.layout.santa
    }

    /// The current wind.
    pub fn wind(&self) -> (r: Wind)
        ensures
            r == self@.wind,
    {
        self.wind
    }

    /// The live flakes.
    pub fn snowflakes(&self) -> (r: &Vec<Snowflake>)
        ensures
            r@ == self@.flakes,
    {
        &self.snowflakes
    }

    /// The number of live flakes.
    pub fn population(&self) -> (r: usize)
        ensures
            r == self@.flakes.len(),
    {
        self.snowflakes.len()
    }

    /// The population target.
    pub fn max_population(&self) -> (r: usize)
        ensures
            r == self@.max,
    {
        self.max_snowflakes
    }
}

} // verus!
