//! Placement of the decorative figures: a column for the snowman, the tree
//! and Santa, each drawn at random until it keeps its distance from the
//! figures placed before it.

use vstd::prelude::*;
use crate::random::draw_below;

verus! {

/// Narrowest grid that has room for the snowman.
pub const SNOWMAN_MIN_COLS: u16 = 6;

/// Narrowest grid that has room for the tree.
pub const TREE_MIN_COLS: u16 = 12;

/// Narrowest grid that has room for Santa.
pub const SANTA_MIN_COLS: u16 = 17;

/// Least column distance between the snowman and the tree.
pub const SNOWMAN_TREE_GAP: u16 = 6;

/// Least column distance between the snowman and Santa.
pub const SNOWMAN_SANTA_GAP: u16 = 5;

/// Least column distance between the tree and Santa.
pub const TREE_SANTA_GAP: u16 = 6;

/// Draws made for one figure before it is left out.
pub const PLACEMENT_TRIES: u32 = 1000;

/// The columns of the figures; a figure that is `None` is not drawn.
#[derive(Debug, Clone, Copy, PartialEq, Eq, Structural)]
pub struct Layout {
    pub snowman: Option<u16>,
    pub tree: Option<u16>,
    pub santa: Option<u16>,
}

/// Whether columns `a` and `b` lie at least `gap` apart.
pub open spec fn apart(a: int, b: int, gap: int) -> bool {
    a - b >= gap || b - a >= gap
}

/// What a layout for a grid `cols` wide holds: the snowman exactly when the
/// grid is at least `SNOWMAN_MIN_COLS` wide; the tree only beside the
/// snowman on a grid at least `TREE_MIN_COLS` wide; Santa only beside both
/// on a grid at least `SANTA_MIN_COLS` wide; each within its range of
/// columns and at its distances from the others.
pub open spec fn layout_ok(l: Layout, cols: int) -> bool {
    &&& (cols < SNOWMAN_MIN_COLS <==> l.snowman is None)
    &&& (l.snowman matches Some(s) ==> 1 <= s < cols - 1)
    &&& (l.tree matches Some(t) ==> {
        &&& cols >= TREE_MIN_COLS
        &&& 2 <= t < cols - 2
        &&& l.snowman matches Some(s) && apart(t as int, s as int, SNOWMAN_TREE_GAP as int)
    })
    &&& (l.santa matches Some(a) ==> {
        &&& cols >= SANTA_MIN_COLS
        &&& 1 <= a < cols - 1
        &&& l.snowman matches Some(s) && apart(a as int, s as int, SNOWMAN_SANTA_GAP as int)
        &&& l.tree matches Some(t) && apart(a as int, t as int, TREE_SANTA_GAP as int)
    })
}

/// Whether columns `a` and `b` lie at least `gap` apart.
pub fn is_apart(a: u16, b: u16, gap: u16) -> (r: bool)
    ensures
        r == apart(a as int, b as int, gap as int),
{
    if a >= b {
        a - b >= gap
    } else {
        b - a >= gap
    }
}

/// A uniform column in `lo..hi`.
fn draw_column(rng: &mut rand::rngs::StdRng, lo: u16, hi: u16) -> (r: u16)
    requires
        lo < hi,
    ensures
        lo <= r < hi,
{
    lo + draw_below(rng, (hi - lo) as u64) as u16
}

/// Draws tree columns in `2..cols-2` until one lies far enough from the
/// snowman, for at most `PLACEMENT_TRIES` draws.
fn place_tree(rng: &mut rand::rngs::StdRng, cols: u16, snowman: u16) -> (r: Option<u16>)
    requires
        cols >= TREE_MIN_COLS,
    ensures
        r matches Some(t) ==> 2 <= t < cols - 2 && apart(t as int, snowman as int, SNOWMAN_TREE_GAP as int),
{
    let mut tries: u32 = 0;
    while tries < PLACEMENT_TRIES
        invariant
            cols >= TREE_MIN_COLS,
        decreases PLACEMENT_TRIES - tries,
    {
        let t = draw_column(rng, 2, cols - 2);
        if is_apart(t, snowman, SNOWMAN_TREE_GAP) {
            return Some(t);
        }
        tries = tries + 1;
    }
    None
}

/// Draws Santa columns in `1..cols-1` until one lies far enough from both
/// the snowman and the tree, for at most `PLACEMENT_TRIES` draws.
fn place_santa(rng: &mut rand::rngs::StdRng, cols: u16, snowman: u16, tree: u16) -> (r: Option<u16>)
    requires
        cols >= SANTA_MIN_COLS,
    ensures
        r matches Some(a) ==> {
            &&& 1 <= a < cols - 1
            &&& apart(a as int, snowman as int, SNOWMAN_SANTA_GAP as int)
            &&& apart(a as int, tree as int, TREE_SANTA_GAP as int)
        },
{
    let mut tries: u32 = 0;
    while tries < PLACEMENT_TRIES
        invariant
            cols >= SANTA_MIN_COLS,
        decreases PLACEMENT_TRIES - tries,
    {
        let a = draw_column(rng, 1, cols - 1);
        if is_apart(a, snowman, SNOWMAN_SANTA_GAP) && is_apart(a, tree, TREE_SANTA_GAP) {
            return Some(a);
        }
        tries = tries + 1;
    }
    None
}

/// Places the figures on a grid `cols` wide: the snowman uniformly in
/// `1..cols-1`, then the tree, then Santa, each conditioned on the ones
/// before it. A figure whose draws all fail is left out, and so is every
/// figure after it.
pub fn plan_layout(rng: &mut rand::rngs::StdRng, cols: u16) -> (r: Layout)
    ensures
        layout_ok(r, cols as int),
{
    if cols < SNOWMAN_MIN_COLS {
        return Layout { snowman: None, tree: None, santa: None };
    }
    let snowman = draw_column(rng, 1, cols - 1);
    if cols < TREE_MIN_COLS {
        return Layout { snowman: Some(snowman), tree: None, santa: None };
    }
    let tree = place_tree(rng, cols, snowman);
    match tree {
        None => Layout { snowman: Some(snowman), tree: None, santa: None },
        Some(t) => {
            let santa = if cols >= SANTA_MIN_COLS {
                place_santa(rng, cols, snowman, t)
            } else {
                None
            };
            Layout { snowman: Some(snowman), tree: Some(t), santa }
        },
    }
}

/// Where all three figures are placed, every pair keeps its distance.
pub proof fn lemma_layout_spacing(l: Layout, cols: int, s: u16, t: u16, a: u16)
    requires
        layout_ok(l, cols),
        l.snowman == Some(s),
        l.tree == Some(t),
        l.santa == Some(a),
    ensures
        cols >= SANTA_MIN_COLS,
        apart(s as int, t as int, SNOWMAN_TREE_GAP as int),
        apart(s as int, a as int, SNOWMAN_SANTA_GAP as int),
        apart(t as int, a as int, TREE_SANTA_GAP as int),
{
}

/// A grid narrower than `SNOWMAN_MIN_COLS` holds no figure, one narrower
/// than `TREE_MIN_COLS` the snowman alone, and one narrower than
/// `SANTA_MIN_COLS` no Santa.
pub proof fn lemma_layout_by_width(l: Layout, cols: int)
    requires
        layout_ok(l, cols),
    ensures
        cols < SNOWMAN_MIN_COLS ==> l.snowman is None && l.tree is None && l.santa is None,
        SNOWMAN_MIN_COLS <= cols < TREE_MIN_COLS ==> l.snowman is Some && l.tree is None
            && l.santa is None,
        TREE_MIN_COLS <= cols < SANTA_MIN_COLS ==> l.snowman is Some && l.santa is None,
{
}

} // verus!
