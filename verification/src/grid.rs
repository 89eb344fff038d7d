//! A fixed-size 2D buffer of RGBA pixels in row-major order, and the stamp
//! patterns that players paint onto it.

use vstd::prelude::*;
use vstd::arithmetic::div_mod::{
    lemma_fundamental_div_mod,
    lemma_mod_bound,
    lemma_multiply_divide_lt,
};
use vstd::arithmetic::mul::{lemma_mul_inequality, lemma_mul_is_commutative};
use crate::pixel::{CellCondition, Pixel, spec_black, spec_classify, classify, black};

verus! {

/// One generation buffer: `width * height` pixels, row-major (the pixel at
/// `(x, y)` sits at index `y * width + x`).
pub struct Grid {
    pub width: usize,
    pub height: usize,
    pub cells: Vec<Pixel>,
}

/// The pixel at `(x, y)` lies inside the cell vector.
pub proof fn lemma_row_major_index(width: int, height: int, x: int, y: int)
    requires
        0 <= x < width,
        0 <= y < height,
    ensures
        0 <= y * width + x < width * height,
{
    lemma_mul_inequality(y + 1, height, width);
    assert((y + 1) * width == y * width + width) by (nonlinear_arith);
    lemma_mul_is_commutative(height, width);
}

impl Grid {
    /// The cell vector holds exactly one pixel per coordinate.
    pub open spec fn wf(self) -> bool {
        self.cells@.len() == self.width * self.height && self.width * self.height <= usize::MAX
    }

    pub open spec fn in_bounds(self, x: int, y: int) -> bool {
        0 <= x < self.width && 0 <= y < self.height
    }

    /// The stored pixel at `(x, y)`.
    pub open spec fn spec_at(self, x: int, y: int) -> Pixel
        recommends
            self.wf(),
            self.in_bounds(x, y),
    {
        self.cells@[y * self.width + x]
    }

    /// The cell condition at `(x, y)` from one team's point of view. A
    /// coordinate outside the grid reads as the black sentinel: the grid
    /// does not wrap.
    pub open spec fn spec_cond_at(self, x: int, y: int, team_color: Pixel) -> CellCondition {
        if self.in_bounds(x, y) {
            spec_classify(self.spec_at(x, y), team_color)
        } else {
            spec_classify(spec_black(), team_color)
        }
    }

    /// The eight neighbor conditions of `(x, y)`, in reading order
    /// (the row above, the two side neighbors, the row below).
    pub open spec fn spec_neighborhood(self, x: int, y: int, team_color: Pixel) -> Seq<
        CellCondition,
    > {
        seq![
            self.spec_cond_at(x - 1, y - 1, team_color),
            self.spec_cond_at(x, y - 1, team_color),
            self.spec_cond_at(x + 1, y - 1, team_color),
            self.spec_cond_at(x - 1, y, team_color),
            self.spec_cond_at(x + 1, y, team_color),
            self.spec_cond_at(x - 1, y + 1, team_color),
            self.spec_cond_at(x, y + 1, team_color),
            self.spec_cond_at(x + 1, y + 1, team_color),
        ]
    }

    /// Allocates a grid with every cell set to `fill`.
    pub fn new_filled(width: usize, height: usize, fill: Pixel) -> (g: Grid)
        requires
            width * height <= usize::MAX,
        ensures
            g.wf(),
            g.width == width,
            g.height == height,
            forall|i: int| 0 <= i < g.cells@.len() ==> g.cells@[i] == fill,
    {
        let area = width * height;
        let mut cells: Vec<Pixel> = Vec::new();
        let mut i: usize = 0;
        while i < area
            invariant
                i <= area,
                cells@.len() == i,
                forall|j: int| 0 <= j < i ==> cells@[j] == fill,
            decreases area - i,
        {
            cells.push(fill);
            i += 1;
        }
        Grid { width, height, cells }
    }

    /// Reads the pixel at `(x, y)`.
    pub fn at(&self, x: usize, y: usize) -> (p: Pixel)
        requires
            self.wf(),
            self.in_bounds(x as int, y as int),
        ensures
            p == self.spec_at(x as int, y as int),
    {
        proof {
            lemma_row_major_index(self.width as int, self.height as int, x as int, y as int);
        }
        self.cells[y * self.width + x]
    }

    /// Overwrites the pixel at `(x, y)`.
    pub fn put(&mut self, x: usize, y: usize, p: Pixel)
        requires
            old(self).wf(),
            old(self).in_bounds(x as int, y as int),
        ensures
            final(self).wf(),
            final(self).width == old(self).width,
            final(self).height == old(self).height,
            final(self).cells@ == old(self).cells@.update(y * old(self).width + x, p),
    {
        proof {
            lemma_row_major_index(self.width as int, self.height as int, x as int, y as int);
        }
        let i = y * self.width + x;
        self.cells.set(i, p);
    }

    /// Copies the grid cell by cell.
    pub fn duplicate(&self) -> (g: Grid)
        ensures
            g.width == self.width,
            g.height == self.height,
            g.cells@ == self.cells@,
    {
        let mut cells: Vec<Pixel> = Vec::new();
        let mut i: usize = 0;
        let n = self.cells.len();
        while i < n
            invariant
                i <= n,
                n == self.cells@.len(),
                cells@.len() == i,
                forall|j: int| 0 <= j < i ==> cells@[j] == self.cells@[j],
            decreases n - i,
        {
            cells.push(self.cells[i]);
            i += 1;
        }
        proof {
            assert(cells@ =~= self.cells@);
        }
        Grid { width: self.width, height: self.height, cells }
    }

    /// The neighbor condition one step of `(dx, dy)` away from `(x, y)`,
    /// substituting the black sentinel for coordinates off the grid.
    pub fn neighbor_cond(&self, x: usize, y: usize, dx: i8, dy: i8, team_color: Pixel) -> (c:
        CellCondition)
        requires
            self.wf(),
            self.in_bounds(x as int, y as int),
            -1 <= dx <= 1,
            -1 <= dy <= 1,
        ensures
            c == self.spec_cond_at(x + dx, y + dy, team_color),
    {
        let out_x = (dx < 0 && x == 0) || (dx > 0 && x + 1 == self.width);
        let out_y = (dy < 0 && y == 0) || (dy > 0 && y + 1 == self.height);
        if out_x || out_y {
            classify(black(), team_color)
        } else {
            let nx = if dx < 0 {
                x - 1
            } else if dx > 0 {
                x + 1
            } else {
                x
            };
            let ny = if dy < 0 {
                y - 1
            } else if dy > 0 {
                y + 1
            } else {
                y
            };
            classify(self.at(nx, ny), team_color)
        }
    }
}

/// A stamp pattern: a small pixel rectangle a player can paint onto a grid.
/// Pixels with a zero alpha byte are transparent and paint nothing.
pub struct StampData {
    pub width: usize,
    pub height: usize,
    pub pixels: Vec<Pixel>,
}

impl StampData {
    pub open spec fn wf(self) -> bool {
        self.pixels@.len() == self.width * self.height && self.width * self.height <= usize::MAX
    }

    /// The stamp pixel at `(sx, sy)`, row-major like a grid.
    pub open spec fn spec_at(self, sx: int, sy: int) -> Pixel
        recommends
            self.wf(),
            0 <= sx < self.width,
            0 <= sy < self.height,
    {
        self.pixels@[sy * self.width + sx]
    }

    /// Reads the stamp pixel at `(sx, sy)`.
    pub fn at(&self, sx: usize, sy: usize) -> (p: Pixel)
        requires
            self.wf(),
            sx < self.width,
            sy < self.height,
        ensures
            p == self.spec_at(sx as int, sy as int),
    {
        proof {
            lemma_row_major_index(self.width as int, self.height as int, sx as int, sy as int);
        }
        self.pixels[sy * self.width + sx]
    }
}

/// What the grid cell at `(x, y)` holds after stamping `stamp` with its
/// top-left corner at `(x0, y0)`: the stamp's pixel, made fully opaque, where
/// the stamp covers the cell with a non-transparent pixel; the old cell
/// everywhere else. Parts of the stamp that fall off the grid are cropped.
pub open spec fn spec_stamped_at(
    g: Grid,
    stamp: StampData,
    x0: int,
    y0: int,
    x: int,
    y: int,
) -> Pixel
    recommends
        g.wf(),
        stamp.wf(),
        g.in_bounds(x, y),
{
    if x0 <= x < x0 + stamp.width && y0 <= y < y0 + stamp.height && stamp.spec_at(
        x - x0,
        y - y0,
    ).a != 0 {
        let p = stamp.spec_at(x - x0, y - y0);
        Pixel { r: p.r, g: p.g, b: p.b, a: 255 }
    } else {
        g.spec_at(x, y)
    }
}


impl Grid {
    /// Splits a flat cell index into its `(x, y)` coordinates.
    pub fn coords_of(&self, i: usize) -> (xy: (usize, usize))
        requires
            self.wf(),
            i < self.cells@.len(),
        ensures
            self.in_bounds(xy.0 as int, xy.1 as int),
            i == xy.1 * self.width + xy.0,
    {
        proof {
            assert(self.width > 0) by (nonlinear_arith)
                requires
                    (i as int) < self.width * self.height,
                    i >= 0,
            ;
            lemma_fundamental_div_mod(i as int, self.width as int);
            lemma_mod_bound(i as int, self.width as int);
            lemma_multiply_divide_lt(i as int, self.width as int, self.height as int);
            lemma_mul_is_commutative(self.width as int, self.height as int);
            lemma_mul_is_commutative(self.width as int, (i as int) / (self.width as int));
        }
        (i % self.width, i / self.width)
    }

    /// Paints `stamp` onto the grid with its top-left corner at `(x0, y0)`.
    /// Transparent stamp pixels leave the cell alone; stamp cells that fall
    /// off the grid are dropped.
    pub fn apply_stamp(&mut self, stamp: &StampData, x0: usize, y0: usize)
        requires
            old(self).wf(),
            stamp.wf(),
        ensures
            final(self).wf(),
            final(self).width == old(self).width,
            final(self).height == old(self).height,
            forall|x: int, y: int|
                old(self).in_bounds(x, y) ==> final(self).spec_at(x, y) == spec_stamped_at(
                    *old(self),
                    *stamp,
                    x0 as int,
                    y0 as int,
                    x,
                    y,
                ),
    {
        let ghost g0 = *self;
        let area = self.cells.len();
        let mut cells: Vec<Pixel> = Vec::new();
        let mut i: usize = 0;
        while i < area
            invariant
                g0.wf(),
                stamp.wf(),
                *self == g0,
                area == g0.cells@.len(),
                i <= area,
                cells@.len() == i,
                forall|j: int|
                    0 <= j < i ==> cells@[j] == spec_stamped_at(
                        g0,
                        *stamp,
                        x0 as int,
                        y0 as int,
                        (j % (g0.width as int)),
                        (j / (g0.width as int)),
                    ),
            decreases area - i,
        {
            let (x, y) = self.coords_of(i);
            let covered = x >= x0 && y >= y0 && x - x0 < stamp.width && y - y0 < stamp.height;
            let value = if covered {
                let p = stamp.at(x - x0, y - y0);
                if p.a != 0 {
                    Pixel { r: p.r, g: p.g, b: p.b, a: 255 }
                } else {
                    self.at(x, y)
                }
            } else {
                self.at(x, y)
            };
            proof {
                lemma_fundamental_div_mod(i as int, g0.width as int);
                lemma_mod_bound(i as int, g0.width as int);
                vstd::arithmetic::div_mod::lemma_fundamental_div_mod_converse(
                    i as int,
                    g0.width as int,
                    y as int,
                    x as int,
                );
                assert(value == spec_stamped_at(
                    g0,
                    *stamp,
                    x0 as int,
                    y0 as int,
                    x as int,
                    y as int,
                ));
            }
            cells.push(value);
            i += 1;
        }
        self.cells = cells;
        proof {
            assert forall|x: int, y: int| g0.in_bounds(x, y) implies self.spec_at(x, y)
                == spec_stamped_at(g0, *stamp, x0 as int, y0 as int, x, y) by {
                lemma_row_major_index(g0.width as int, g0.height as int, x, y);
                let j = y * g0.width + x;
                vstd::arithmetic::div_mod::lemma_fundamental_div_mod_converse(
                    j,
                    g0.width as int,
                    y,
                    x,
                );
            }
        }
    }
}

} // verus!
