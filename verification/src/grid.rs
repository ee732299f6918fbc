//! The square pixel grid of raw iteration counts.
//!
//! Counts live in a flat row-major vector: pixel `(x, y)` of a grid of side
//! `size` sits at index `size * x + y`. The mapping from coordinates to the
//! backing index is a bijection on `[0, size) x [0, size)`, so each pixel
//! owns exactly one cell.

use vstd::prelude::*;
use crate::error::FractalError;
use crate::normalize::{all_saturated, is_max_escaped, lemma_intensity_in_range, normalized_value};

verus! {

/// The backing index of pixel `(x, y)` in a row-major grid of side `size`.
pub open spec fn grid_index(size: u32, x: u32, y: u32) -> int {
    size as int * x as int + y as int
}

/// The row-major index of an in-bounds pixel stays inside the grid.
pub proof fn lemma_grid_index_in_range(size: u32, x: u32, y: u32)
    requires
        x < size,
        y < size,
    ensures
        0 <= grid_index(size, x, y) < size as int * size as int,
{
    assert(0 <= (size as int * x as int + y as int) && (size as int * x as int + y as int)
        < size as int * size as int) by (nonlinear_arith)
        requires
            x < size,
            y < size,
    ;
}

/// Distinct in-bounds pixel coordinates occupy distinct cells of the
/// backing row-major array.
pub proof fn lemma_grid_index_injective(size: u32, x1: u32, y1: u32, x2: u32, y2: u32)
    requires
        x1 < size,
        y1 < size,
        x2 < size,
        y2 < size,
        grid_index(size, x1, y1) == grid_index(size, x2, y2),
    ensures
        x1 == x2,
        y1 == y2,
{
    assert(x1 == x2 && y1 == y2) by (nonlinear_arith)
        requires
            x1 < size,
            y1 < size,
            x2 < size,
            y2 < size,
            size as int * x1 as int + y1 as int == size as int * x2 as int + y2 as int,
    ;
}

/// Every cell of the backing array belongs to some in-bounds pixel: together
/// with injectivity, the row-major mapping is a bijection between
/// `[0, size) x [0, size)` and `[0, size * size)`.
pub proof fn lemma_grid_index_surjective(size: u32, i: int)
    requires
        0 <= i < size as int * size as int,
    ensures
        exists|x: u32, y: u32|
            x < size && y < size && grid_index(size, x, y) == i,
{
    let x = i / size as int;
    let y = i % size as int;
    assert(0 < size as int) by (nonlinear_arith)
        requires
            0 <= i < size as int * size as int,
    ;
    vstd::arithmetic::div_mod::lemma_multiply_divide_lt(i, size as int, size as int);
    vstd::arithmetic::div_mod::lemma_mod_bound(i, size as int);
    vstd::arithmetic::div_mod::lemma_fundamental_div_mod(i, size as int);
    vstd::arithmetic::div_mod::lemma_div_pos_is_pos(i, size as int);
    let xu = x as u32;
    let yu = y as u32;
    assert(xu < size && yu < size && grid_index(size, xu, yu) == i);
}

/// The backing index of an in-bounds pixel, as a `usize`.
pub fn pixel_index(size: u32, x: u32, y: u32) -> (r: usize)
    requires
        x < size,
        y < size,
        size as int * size as int <= usize::MAX as int,
    ensures
        r == grid_index(size, x, y),
{
    proof {
        lemma_grid_index_in_range(size, x, y);
    }
    (size as usize) * (x as usize) + (y as usize)
}

/// A `size x size` grid of per-pixel values: raw iteration counts during
/// evaluation, intensities after normalization.
pub struct PixelGrid {
    size: u32,
    cells: Vec<u32>,
}

impl View for PixelGrid {
    type V = Seq<u32>;

    closed spec fn view(&self) -> Seq<u32> {
        self.cells@
    }
}

impl PixelGrid {
    /// The grid's side length.
    pub closed spec fn size_spec(&self) -> u32 {
        self.size
    }

    /// The backing vector holds exactly one cell per pixel.
    pub closed spec fn wf(&self) -> bool {
        &&& self.cells@.len() == self.size as int * self.size as int
        &&& self.size as int * self.size as int <= usize::MAX as int
    }

    /// A zero-filled grid of the given side length.
    pub fn new(size: u32) -> (r: Self)
        requires
            size as int * size as int <= usize::MAX as int,
        ensures
            r.wf(),
            r.size_spec() == size,
            r@.len() == size as int * size as int,
            forall|i: int| 0 <= i < r@.len() ==> r@[i] == 0,
    {
        let n: usize = (size as usize) * (size as usize);
        let mut cells: Vec<u32> = Vec::new();
        while cells.len() < n
            invariant
                cells@.len() <= n,
                forall|i: int| 0 <= i < cells@.len() ==> cells@[i] == 0,
            decreases n - cells@.len(),
        {
            cells.push(0);
        }
        PixelGrid { size, cells }
    }

    /// The grid's side length.
    pub fn size(&self) -> (r: u32)
        ensures
            r == self.size_spec(),
    {
        self.size
    }

    /// Write one pixel's value; every other cell keeps its value.
    pub fn set_count(&mut self, x: u32, y: u32, count: u32)
        requires
            old(self).wf(),
            x < old(self).size_spec(),
            y < old(self).size_spec(),
        ensures
            final(self).wf(),
            final(self).size_spec() == old(self).size_spec(),
            final(self)@ == old(self)@.update(grid_index(old(self).size_spec(), x, y), count),
    {
        proof {
            lemma_grid_index_in_range(self.size, x, y);
        }
        let i: usize = pixel_index(self.size, x, y);
        self.cells.set(i, count);
    }

    /// Read one pixel's value.
    pub fn count_at(&self, x: u32, y: u32) -> (r: u32)
        requires
            self.wf(),
            x < self.size_spec(),
            y < self.size_spec(),
        ensures
            r == self@[grid_index(self.size_spec(), x, y)],
    {
        proof {
            lemma_grid_index_in_range(self.size, x, y);
        }
        let i: usize = pixel_index(self.size, x, y);
        self.cells[i]
    }

    /// The largest raw count among the escaped pixels (those below the
    /// iteration cap), or `None` when every pixel is saturated.
    pub fn max_escaped(&self, iter_limit: u32) -> (r: Option<u32>)
        ensures
            match r {
                Option::Some(m) => is_max_escaped(self@, iter_limit, m),
                Option::None => all_saturated(self@, iter_limit),
            },
    {
        let mut best: Option<u32> = None;
        let n: usize = self.cells.len();
        let mut i: usize = 0;
        while i < n
            invariant
                n == self@.len(),
                i <= n,
                match best {
                    Option::Some(m) => {
                        &&& m < iter_limit
                        &&& exists|j: int| 0 <= j < i && self@[j] == m
                        &&& forall|j: int| 0 <= j < i && self@[j] < iter_limit ==> self@[j] <= m
                    },
                    Option::None => forall|j: int| 0 <= j < i ==> self@[j] >= iter_limit,
                },
            decreases n - i,
        {
            let c: u32 = self.cells[i];
            if c < iter_limit {
                best = match best {
                    Option::Some(m) => if c > m {
                        Some(c)
                    } else {
                        Some(m)
                    },
                    Option::None => Some(c),
                };
            }
            i = i + 1;
        }
        best
    }

    /// The normalization pass: rewrite every cell in place from raw count to
    /// intensity. Escaped counts rescale to `floor(count * 256 / m)` against
    /// the largest escaped count `m`, which is returned; saturated cells
    /// become exactly `256`. When every pixel is saturated no scale exists
    /// and the grid is left unchanged with `AllPixelsSaturated` reported.
    ///
    /// A grid whose largest escaped count is zero is left out by `requires`:
    /// rescaling would divide by zero. Callers check through `max_escaped`.
    pub fn normalize(&mut self, iter_limit: u32) -> (r: Result<u32, FractalError>)
        requires
            old(self).wf(),
            !is_max_escaped(old(self)@, iter_limit, 0),
        ensures
            final(self).wf(),
            final(self).size_spec() == old(self).size_spec(),
            final(self)@.len() == old(self)@.len(),
            match r {
                Result::Ok(m) => {
                    &&& is_max_escaped(old(self)@, iter_limit, m)
                    &&& forall|i: int| 0 <= i < old(self)@.len()
                        ==> final(self)@[i] as int == normalized_value(
                            old(self)@[i],
                            m,
                            iter_limit,
                        )
                    &&& forall|i: int| 0 <= i < final(self)@.len() ==> final(self)@[i] <= 256
                },
                Result::Err(e) => {
                    &&& e == FractalError::AllPixelsSaturated
                    &&& all_saturated(old(self)@, iter_limit)
                    &&& final(self)@ == old(self)@
                },
            },
            (r is Err) <==> all_saturated(old(self)@, iter_limit),
    {
        let max: Option<u32> = self.max_escaped(iter_limit);
        match max {
            Option::None => Err(FractalError::AllPixelsSaturated),
            Option::Some(m) => {
                assert(m != 0);
                let n: usize = self.cells.len();
                let mut i: usize = 0;
                while i < n
                    invariant
                        0 < m,
                        is_max_escaped(old(self)@, iter_limit, m),
                        self.wf(),
                        self.size_spec() == old(self).size_spec(),
                        n == self@.len(),
                        self@.len() == old(self)@.len(),
                        i <= n,
                        forall|j: int| i <= j < n ==> self@[j] == old(self)@[j],
                        forall|j: int| 0 <= j < i
                            ==> self@[j] as int == normalized_value(old(self)@[j], m, iter_limit),
                        forall|j: int| 0 <= j < i ==> self@[j] <= 256,
                    decreases n - i,
                {
                    let c: u32 = self.cells[i];
                    if c < iter_limit {
                        proof {
                            assert(old(self)@[i as int] == c);
                            lemma_intensity_in_range(c, m, iter_limit);
                        }
                        let v: u64 = (c as u64) * 256 / (m as u64);
                        self.cells.set(i, v as u32);
                    } else {
                        self.cells.set(i, 256);
                    }
                    i = i + 1;
                }
                Ok(m)
            },
        }
    }
}

} // verus!
