//! Properties of the engine that hold for every input.
use vstd::prelude::*;

use crate::universe::{
    after, alive_at, all_dead, before, decimal, digit_char, live_count, neighbor_count,
    next_generation, stats_text, toggled, Cell, Universe,
};

verus! {

/// The next generation depends on the dimensions and the current cells alone:
/// two universes that agree on them agree on what `tick` makes of them.
pub proof fn lemma_tick_deterministic(a: Universe, b: Universe)
    requires
        a.wf(),
        b.wf(),
        a.spec_width() == b.spec_width(),
        a.spec_height() == b.spec_height(),
        a@ == b@,
    ensures
        next_generation(a@, a.spec_width(), a.spec_height()) == next_generation(
            b@,
            b.spec_width(),
            b.spec_height(),
        ),
{
}

/// Neighbours wrap round the torus: the row above row 0 is row `h - 1`, the row
/// below row `h - 1` is row 0, and likewise for columns, so the neighbour count
/// is taken over the positions `((r + dr) mod h, (c + dc) mod w)`.
pub proof fn lemma_toroidal_neighbors(cells: Seq<Cell>, w: int, h: int, r: int, c: int)
    requires
        0 <= r < h,
        0 <= c < w,
    ensures
        before(r, h) == (r - 1) % h,
        after(r, h) == (r + 1) % h,
        before(c, w) == (c - 1) % w,
        after(c, w) == (c + 1) % w,
        neighbor_count(cells, w, h, r, c) == alive_at(cells, w, (r - 1) % h, (c - 1) % w)
            + alive_at(cells, w, (r - 1) % h, c) + alive_at(cells, w, (r - 1) % h, (c + 1) % w)
            + alive_at(cells, w, r, (c - 1) % w) + alive_at(cells, w, r, (c + 1) % w)
            + alive_at(cells, w, (r + 1) % h, (c - 1) % w) + alive_at(cells, w, (r + 1) % h, c)
            + alive_at(cells, w, (r + 1) % h, (c + 1) % w),
{
    lemma_ring_steps(r, h);
    lemma_ring_steps(c, w);
}

proof fn lemma_ring_steps(x: int, n: int)
    requires
        0 <= x < n,
    ensures
        before(x, n) == (x - 1) % n,
        after(x, n) == (x + 1) % n,
{
    if x == 0 {
        vstd::arithmetic::div_mod::lemma_fundamental_div_mod_converse(x - 1, n, -1, n - 1);
    } else {
        vstd::arithmetic::div_mod::lemma_fundamental_div_mod_converse(x - 1, n, 0, x - 1);
    }
    if x == n - 1 {
        vstd::arithmetic::div_mod::lemma_fundamental_div_mod_converse(x + 1, n, 1, 0);
    } else {
        vstd::arithmetic::div_mod::lemma_fundamental_div_mod_converse(x + 1, n, 0, x + 1);
    }
}

/// A cleared grid has no live cells, so `get_stats` reports `Live cells: 0`.
pub proof fn lemma_cleared_has_no_live_cells(n: nat)
    ensures
        live_count(all_dead(n)) == 0,
        stats_text(all_dead(n)) == "Live cells: "@ + seq!['0'] + ", Total cells: "@ + decimal(n),
    decreases n,
{
    if n > 0 {
        assert(all_dead(n).drop_last() =~= all_dead((n - 1) as nat));
        lemma_cleared_has_no_live_cells((n - 1) as nat);
    }
    assert(decimal(0) == seq![digit_char(0)]);
}

/// Toggling the same cell twice gives back the grid it started from.
pub proof fn lemma_toggle_twice(cells: Seq<Cell>, i: int)
    requires
        0 <= i < cells.len(),
    ensures
        toggled(toggled(cells, i), i) == cells,
{
    assert(toggled(toggled(cells, i), i) =~= cells);
}

} // verus!
