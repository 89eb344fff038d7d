//! The tick executor: computes the next generation of a grid by evaluating
//! the rule at every cell, working through contiguous chunks of the index
//! space.
//!
//! The chunk partition mirrors how the grid is split over a worker pool: the
//! chunk ranges are pairwise disjoint and cover every cell exactly once, so
//! workers could write their chunks concurrently without synchronization.
//! Here the chunks are filled one after the other; the result is the same
//! because each cell's value depends only on the previous generation.

use vstd::prelude::*;
use vstd::arithmetic::div_mod::{
    lemma_fundamental_div_mod,
    lemma_fundamental_div_mod_converse,
    lemma_mod_bound,
};
use crate::pixel::{CellCondition, Pixel, spec_black, spec_white, spec_classify, black, white,
    classify};
use crate::grid::Grid;
use crate::rule::{CellResult, spec_evaluate, evaluate};

verus! {

/// The pixel the next generation holds at flat index `i`: the rule's result
/// at that cell, with `Active` stored as the white sentinel, `Empty` as the
/// black sentinel, and `Untouched` keeping the old pixel.
pub open spec fn spec_next_pixel(g: Grid, team_color: Pixel, i: int) -> Pixel
    recommends
        g.wf(),
        0 <= i < g.cells@.len(),
{
    let x = i % (g.width as int);
    let y = i / (g.width as int);
    match spec_evaluate(
        g.spec_cond_at(x, y, team_color),
        g.spec_neighborhood(x, y, team_color),
    ) {
        CellResult::Empty => spec_black(),
        CellResult::Active => spec_white(),
        CellResult::Untouched => g.cells@[i],
    }
}

/// The whole next generation, cell by cell.
pub open spec fn spec_next_cells(g: Grid, team_color: Pixel) -> Seq<Pixel> {
    Seq::new(g.cells@.len(), |i: int| spec_next_pixel(g, team_color, i))
}

/// Evaluates the rule at flat index `i` of the current buffer.
fn next_cell(current: &Grid, i: usize, team_color: Pixel) -> (p: Pixel)
    requires
        current.wf(),
        i < current.cells@.len(),
    ensures
        p == spec_next_pixel(*current, team_color, i as int),
{
    let (x, y) = current.coords_of(i);
    proof {
        lemma_fundamental_div_mod_converse(
            i as int,
            current.width as int,
            y as int,
            x as int,
        );
    }
    let cur = classify(current.at(x, y), team_color);
    let neighborhood: [CellCondition; 8] = [
        current.neighbor_cond(x, y, -1, -1, team_color),
        current.neighbor_cond(x, y, 0, -1, team_color),
        current.neighbor_cond(x, y, 1, -1, team_color),
        current.neighbor_cond(x, y, -1, 0, team_color),
        current.neighbor_cond(x, y, 1, 0, team_color),
        current.neighbor_cond(x, y, -1, 1, team_color),
        current.neighbor_cond(x, y, 0, 1, team_color),
        current.neighbor_cond(x, y, 1, 1, team_color),
    ];
    proof {
        assert(neighborhood@ =~= current.spec_neighborhood(x as int, y as int, team_color));
    }
    match evaluate(cur, &neighborhood) {
        CellResult::Empty => black(),
        CellResult::Active => white(),
        CellResult::Untouched => current.at(x, y),
    }
}

/// Flat index where chunk `c` out of `n` begins when `area` cells are split
/// into `n` contiguous chunks: every chunk gets `area / n` cells and the
/// first `area % n` chunks one extra.
pub open spec fn spec_chunk_start(area: int, n: int, c: int) -> int
    recommends
        1 <= n,
        0 <= c <= n,
{
    let q = area / n;
    let r = area % n;
    c * q + (if c <= r {
        c
    } else {
        r
    })
}

/// Basic bounds of a chunk boundary: it never precedes the previous boundary
/// and never passes the end of the buffer.
pub proof fn lemma_chunk_start_bounds(area: int, n: int, c: int)
    requires
        1 <= n,
        0 <= area,
        0 <= c <= n,
    ensures
        0 <= spec_chunk_start(area, n, c) <= area,
        c < n ==> spec_chunk_start(area, n, c) <= spec_chunk_start(area, n, c + 1),
        spec_chunk_start(area, n, 0) == 0,
        spec_chunk_start(area, n, n) == area,
{
    let q = area / n;
    let r = area % n;
    lemma_fundamental_div_mod(area, n);
    lemma_mod_bound(area, n);
    assert(q >= 0) by (nonlinear_arith)
        requires
            area >= 0,
            n >= 1,
            area == n * q + r,
            0 <= r < n,
    ;
    assert(c * q >= 0) by (nonlinear_arith)
        requires
            c >= 0,
            q >= 0,
    ;
    assert(c * q + (if c <= r {
        c
    } else {
        r
    }) <= area) by (nonlinear_arith)
        requires
            0 <= c <= n,
            0 <= r < n,
            q >= 0,
            area == n * q + r,
    ;
    if c < n {
        assert((c + 1) * q == c * q + q) by (nonlinear_arith);
    }
    assert(n * q + (if n <= r {
        n
    } else {
        r
    }) == area);
}

/// Conservation of the chunk partition: the chunk boundaries start at zero,
/// end at the buffer size, and consecutive boundaries are ordered, so the
/// chunk ranges are contiguous and cover the whole buffer.
pub proof fn lemma_chunks_partition(area: int, n: int)
    requires
        1 <= n,
        0 <= area,
    ensures
        spec_chunk_start(area, n, 0) == 0,
        spec_chunk_start(area, n, n) == area,
        forall|c: int|
            0 <= c < n ==> #[trigger] spec_chunk_start(area, n, c) <= spec_chunk_start(
                area,
                n,
                c + 1,
            ),
{
    lemma_chunk_start_bounds(area, n, 0);
    assert forall|c: int| 0 <= c < n implies #[trigger] spec_chunk_start(area, n, c)
        <= spec_chunk_start(area, n, c + 1) by {
        lemma_chunk_start_bounds(area, n, c);
    }
}

/// Every cell index lies in exactly one chunk: this returns the one chunk
/// whose range holds `i`, and states that no other chunk's range does — the
/// executor writes each cell once, with no gaps and no duplicates.
pub proof fn lemma_cell_in_one_chunk(area: int, n: int, i: int) -> (c: int)
    requires
        1 <= n,
        0 <= i < area,
    ensures
        0 <= c < n,
        spec_chunk_start(area, n, c) <= i < spec_chunk_start(area, n, c + 1),
        forall|c2: int|
            0 <= c2 < n && c2 != c ==> !(#[trigger] spec_chunk_start(area, n, c2) <= i
                < spec_chunk_start(area, n, c2 + 1)),
{
    lemma_chunk_start_bounds(area, n, 0);
    let c = find_chunk(area, n, i, 0);
    assert forall|c2: int|
        0 <= c2 < n && c2 != c implies !(#[trigger] spec_chunk_start(area, n, c2) <= i
        < spec_chunk_start(area, n, c2 + 1)) by {
        if c < c2 {
            lemma_chunk_boundaries_ordered(area, n, c + 1, c2);
        } else {
            lemma_chunk_boundaries_ordered(area, n, c2 + 1, c);
        }
    }
    c
}

/// Chunk boundaries are monotone in the chunk number.
proof fn lemma_chunk_boundaries_ordered(area: int, n: int, a: int, b: int)
    requires
        1 <= n,
        0 <= area,
        0 <= a <= b <= n,
    ensures
        spec_chunk_start(area, n, a) <= spec_chunk_start(area, n, b),
    decreases b - a,
{
    if a < b {
        lemma_chunk_start_bounds(area, n, b - 1);
        lemma_chunk_boundaries_ordered(area, n, a, b - 1);
    }
}

/// Picks the chunk that contains cell index `i`, scanning from chunk `c`.
proof fn find_chunk(area: int, n: int, i: int, c: int) -> (res: int)
    requires
        1 <= n,
        0 <= area,
        0 <= c < n,
        spec_chunk_start(area, n, c) <= i < area,
    ensures
        c <= res < n,
        spec_chunk_start(area, n, res) <= i < spec_chunk_start(area, n, res + 1),
    decreases n - c,
{
    lemma_chunk_start_bounds(area, n, c);
    if i < spec_chunk_start(area, n, c + 1) {
        c
    } else {
        lemma_chunk_start_bounds(area, n, c + 1);
        find_chunk(area, n, i, c + 1)
    }
}

/// The bounds of chunk `c` of `num_chunks` over a buffer of `area` cells.
pub fn chunk_bounds(area: usize, num_chunks: usize, c: usize) -> (b: (usize, usize))
    requires
        1 <= num_chunks,
        c < num_chunks,
    ensures
        b.0 == spec_chunk_start(area as int, num_chunks as int, c as int),
        b.1 == spec_chunk_start(area as int, num_chunks as int, c as int + 1),
        b.0 <= b.1 <= area,
{
    proof {
        lemma_chunk_start_bounds(area as int, num_chunks as int, c as int);
        lemma_chunk_start_bounds(area as int, num_chunks as int, c as int + 1);
    }
    let q = area / num_chunks;
    let r = area % num_chunks;
    let start = if c <= r {
        c * q + c
    } else {
        c * q + r
    };
    let end = if c + 1 <= r {
        (c + 1) * q + (c + 1)
    } else {
        (c + 1) * q + r
    };
    (start, end)
}

/// Writes the next-generation pixels for flat indices `start..end` into
/// `out`, leaving every other index untouched.
fn fill_chunk(current: &Grid, out: &mut Vec<Pixel>, start: usize, end: usize, team_color: Pixel)
    requires
        current.wf(),
        old(out)@.len() == current.cells@.len(),
        start <= end,
        end <= current.cells@.len(),
    ensures
        final(out)@.len() == old(out)@.len(),
        forall|j: int|
            start <= j < end ==> final(out)@[j] == spec_next_pixel(*current, team_color, j),
        forall|j: int|
            0 <= j < old(out)@.len() && !(start <= j < end) ==> final(out)@[j] == old(out)@[j],
{
    let mut i = start;
    while i < end
        invariant
            current.wf(),
            out@.len() == old(out)@.len(),
            old(out)@.len() == current.cells@.len(),
            start <= i <= end,
            end <= current.cells@.len(),
            forall|j: int|
                start <= j < i ==> out@[j] == spec_next_pixel(*current, team_color, j),
            forall|j: int|
                0 <= j < old(out)@.len() && !(start <= j < i) ==> out@[j] == old(out)@[j],
        decreases end - i,
    {
        let p = next_cell(current, i, team_color);
        out.set(i, p);
        i += 1;
    }
}

/// Computes the next generation of `current` into a fresh buffer of the same
/// dimensions, splitting the work into `num_chunks` contiguous chunks. The
/// result does not depend on the chunk count: every cell is pinned to
/// `spec_next_cells` of the current buffer.
pub fn next_generation(current: &Grid, team_color: Pixel, num_chunks: usize) -> (next: Grid)
    requires
        current.wf(),
        1 <= num_chunks,
    ensures
        next.wf(),
        next.width == current.width,
        next.height == current.height,
        next.cells@ == spec_next_cells(*current, team_color),
{
    let area = current.cells.len();
    let mut cells: Vec<Pixel> = Vec::new();
    let mut i: usize = 0;
    while i < area
        invariant
            i <= area,
            cells@.len() == i,
        decreases area - i,
    {
        cells.push(black());
        i += 1;
    }
    let mut c: usize = 0;
    while c < num_chunks
        invariant
            current.wf(),
            area == current.cells@.len(),
            cells@.len() == area,
            c <= num_chunks,
            1 <= num_chunks,
            forall|j: int|
                0 <= j < spec_chunk_start(area as int, num_chunks as int, c as int) ==> cells@[j]
                    == spec_next_pixel(*current, team_color, j),
        decreases num_chunks - c,
    {
        let (start, end) = chunk_bounds(area, num_chunks, c);
        fill_chunk(current, &mut cells, start, end, team_color);
        c += 1;
    }
    proof {
        lemma_chunk_start_bounds(area as int, num_chunks as int, num_chunks as int);
        assert(cells@ =~= spec_next_cells(*current, team_color));
    }
    Grid { width: current.width, height: current.height, cells }
}

/// Determinism of the tick: the next generation is a function of the current
/// buffer and the team color alone. Two executor runs over the same buffer —
/// with any chunk counts — yield equal buffers, because each result is
/// pinned to `spec_next_cells`, which does not mention chunks.
pub proof fn lemma_tick_deterministic(a: Seq<Pixel>, b: Seq<Pixel>, g: Grid, team_color: Pixel)
    requires
        a == spec_next_cells(g, team_color),
        b == spec_next_cells(g, team_color),
    ensures
        a == b,
{
}

/// Untouched preservation at the buffer level: a cell that reads `Owned` or
/// `Enemy` for the evaluating team, with a neighborhood holding neither two
/// nor three active cells, keeps its pixel byte-for-byte across a tick.
pub proof fn lemma_untouched_cell_preserved(g: Grid, team_color: Pixel, i: int)
    requires
        g.wf(),
        0 <= i < g.cells@.len(),
        ({
            let c = g.spec_cond_at(i % (g.width as int), i / (g.width as int), team_color);
            c == CellCondition::Owned || c == CellCondition::Enemy
        }),
        crate::rule::count_active(
            g.spec_neighborhood(i % (g.width as int), i / (g.width as int), team_color),
        ) != 2,
        crate::rule::count_active(
            g.spec_neighborhood(i % (g.width as int), i / (g.width as int), team_color),
        ) != 3,
    ensures
        spec_next_pixel(g, team_color, i) == g.cells@[i],
{
    let x = i % (g.width as int);
    let y = i / (g.width as int);
    crate::rule::lemma_untouched_preservation(
        g.spec_cond_at(x, y, team_color),
        g.spec_neighborhood(x, y, team_color),
    );
}

/// Edge sentinel: at the corner `(0, 0)` the five neighbor slots that lie
/// off the grid read as the black sentinel — `Empty` for any team color
/// other than black — instead of wrapping around to the far edge. The three
/// real neighbors read the stored pixels at `(1, 0)`, `(0, 1)` and `(1, 1)`.
pub proof fn lemma_edge_sentinel(g: Grid, team_color: Pixel)
    requires
        g.wf(),
        g.width >= 2,
        g.height >= 2,
        team_color != spec_black(),
    ensures
        g.spec_neighborhood(0, 0, team_color)[0] == CellCondition::Empty,
        g.spec_neighborhood(0, 0, team_color)[1] == CellCondition::Empty,
        g.spec_neighborhood(0, 0, team_color)[2] == CellCondition::Empty,
        g.spec_neighborhood(0, 0, team_color)[3] == CellCondition::Empty,
        g.spec_neighborhood(0, 0, team_color)[5] == CellCondition::Empty,
        g.spec_neighborhood(0, 0, team_color)[4] == spec_classify(g.spec_at(1, 0), team_color),
        g.spec_neighborhood(0, 0, team_color)[6] == spec_classify(g.spec_at(0, 1), team_color),
        g.spec_neighborhood(0, 0, team_color)[7] == spec_classify(g.spec_at(1, 1), team_color),
{
}

} // verus!
