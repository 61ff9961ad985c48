//! The sample grid: one 8-bit brightness sample per grid position, with the
//! lowest and highest sample recorded while the grid is built.

use vstd::prelude::*;
use vstd::arithmetic::div_mod::{lemma_div_pos_is_pos, lemma_fundamental_div_mod, lemma_mod_bound};
use crate::planner::valid_dimensions;

verus! {

/// Why a sample grid could not be built.
#[derive(Clone, Copy, Debug, PartialEq, Eq)]
pub enum HeightmapError {
    /// The grid has fewer than two samples along one of its sides.
    InvalidDimensions,
    /// The number of samples is not `width * height`.
    SampleCountMismatch,
    /// The image is not a single-channel luma image.
    NotLuma,
}

/// A grid of samples, `width` wide and `height` high, at least two each way.
#[derive(Clone, Debug)]
pub struct Heightmap {
    width: u32,
    height: u32,
    samples: Vec<u8>,
    lowest: u8,
    highest: u8,
}

/// Whether `m` is the least of the values in `samples`.
pub open spec fn is_least(samples: Seq<u8>, m: u8) -> bool {
    &&& forall|k: int| 0 <= k < samples.len() ==> m <= #[trigger] samples[k]
    &&& exists|k: int| 0 <= k < samples.len() && #[trigger] samples[k] == m
}

/// Whether `m` is the greatest of the values in `samples`.
pub open spec fn is_greatest(samples: Seq<u8>, m: u8) -> bool {
    &&& forall|k: int| 0 <= k < samples.len() ==> m >= #[trigger] samples[k]
    &&& exists|k: int| 0 <= k < samples.len() && #[trigger] samples[k] == m
}

/// A grid position's place in the row-by-row order of the samples.
pub open spec fn row_major(width: int, x: int, y: int) -> int {
    y * width + x
}

/// Every grid position has its own place in the row-by-row order, and every
/// place belongs to a grid position.
pub proof fn lemma_row_major(width: int, height: int, x: int, y: int, k: int)
    requires
        width >= 1,
        height >= 1,
    ensures
        0 <= x < width && 0 <= y < height ==> 0 <= row_major(width, x, y) < width * height,
        0 <= k < width * height ==> 0 <= k % width < width && 0 <= k / width < height && row_major(
            width,
            k % width,
            k / width,
        ) == k,
{
    if 0 <= x < width && 0 <= y < height {
        assert(0 <= y * width && y * width + width <= height * width) by (nonlinear_arith)
            requires
                0 <= y < height,
                width >= 1,
        ;
        assert(height * width == width * height) by (nonlinear_arith);
    }
    if 0 <= k < width * height {
        lemma_fundamental_div_mod(k, width);
        lemma_mod_bound(k, width);
        lemma_div_pos_is_pos(k, width);
        let q = k / width;
        let r = k % width;
        assert(width * q == q * width) by (nonlinear_arith);
        assert(q < height) by (nonlinear_arith)
            requires
                k == q * width + r,
                0 <= r < width,
                k < width * height,
        ;
    }
}

impl View for Heightmap {
    type V = Seq<u8>;

    /// The samples, row by row.
    closed spec fn view(&self) -> Seq<u8> {
        self.samples@
    }
}

impl Heightmap {
    /// The invariant of a built grid.
    pub closed spec fn wf(&self) -> bool {
        &&& valid_dimensions(self.width as int, self.height as int)
        &&& self.samples@.len() == self.width * self.height
        &&& is_least(self.samples@, self.lowest)
        &&& is_greatest(self.samples@, self.highest)
    }

    /// Samples per row.
    pub closed spec fn spec_width(&self) -> int {
        self.width as int
    }

    /// Number of rows.
    pub closed spec fn spec_height(&self) -> int {
        self.height as int
    }

    /// The least sample of the grid.
    pub closed spec fn spec_lowest(&self) -> u8 {
        self.lowest
    }

    /// The greatest sample of the grid.
    pub closed spec fn spec_highest(&self) -> u8 {
        self.highest
    }

    /// Whether `(x, y)` is a position of the grid.
    pub open spec fn in_grid(&self, x: int, y: int) -> bool {
        0 <= x < self.spec_width() && 0 <= y < self.spec_height()
    }

    /// The sample at `(x, y)`.
    pub open spec fn at(&self, x: int, y: int) -> u8 {
        self@[row_major(self.spec_width(), x, y)]
    }

    /// What the invariant says, in terms of grid positions.
    pub proof fn lemma_wf(&self)
        requires
            self.wf(),
        ensures
            valid_dimensions(self.spec_width(), self.spec_height()),
            self.spec_width() <= u32::MAX,
            self.spec_height() <= u32::MAX,
            self@.len() == self.spec_width() * self.spec_height(),
            is_least(self@, self.spec_lowest()),
            is_greatest(self@, self.spec_highest()),
            forall|x: int, y: int|
                self.in_grid(x, y) ==> self.spec_lowest() <= #[trigger] self.at(x, y)
                    <= self.spec_highest(),
            exists|x: int, y: int| self.in_grid(x, y) && #[trigger] self.at(x, y) == self.spec_lowest(),
            exists|x: int, y: int|
                self.in_grid(x, y) && #[trigger] self.at(x, y) == self.spec_highest(),
    {
        let w = self.spec_width();
        let h = self.spec_height();
        assert forall|x: int, y: int| self.in_grid(x, y) implies self.spec_lowest()
            <= #[trigger] self.at(x, y) <= self.spec_highest() by {
            lemma_row_major(w, h, x, y, 0);
        }
        let k = choose|k: int| 0 <= k < self@.len() && #[trigger] self@[k] == self.spec_lowest();
        lemma_row_major(w, h, 0, 0, k);
        assert(self.in_grid(k % w, k / w) && self.at(k % w, k / w) == self.spec_lowest());
        let k = choose|k: int| 0 <= k < self@.len() && #[trigger] self@[k] == self.spec_highest();
        lemma_row_major(w, h, 0, 0, k);
        assert(self.in_grid(k % w, k / w) && self.at(k % w, k / w) == self.spec_highest());
    }

    /// Builds the grid from `samples` given row by row, and records the lowest
    /// and the highest sample on the way.
    pub fn from_samples(width: u32, height: u32, samples: Vec<u8>) -> (built: Result<
        Heightmap,
        HeightmapError,
    >)
        ensures
            match built {
                Ok(map) => {
                    &&& valid_dimensions(width as int, height as int)
                    &&& samples@.len() == width * height
                    &&& map.wf()
                    &&& map.spec_width() == width
                    &&& map.spec_height() == height
                    &&& map@ == samples@
                },
                Err(HeightmapError::InvalidDimensions) => !valid_dimensions(
                    width as int,
                    height as int,
                ),
                Err(HeightmapError::SampleCountMismatch) => valid_dimensions(
                    width as int,
                    height as int,
                ) && samples@.len() != width * height,
                Err(HeightmapError::NotLuma) => false,
            },
    {
        if width < 2 || height < 2 {
            return Err(HeightmapError::InvalidDimensions);
        }
        assert(width * height <= 0xffff_ffff * 0xffff_ffff) by (nonlinear_arith)
            requires
                width <= 0xffff_ffff,
                height <= 0xffff_ffff,
        ;
        let expected: u64 = (width as u64) * (height as u64);
        if samples.len() as u64 != expected {
            return Err(HeightmapError::SampleCountMismatch);
        }
        assert(expected >= 4) by (nonlinear_arith)
            requires
                expected == width * height,
                width >= 2,
                height >= 2,
        ;
        let mut lowest: u8 = samples[0];
        let mut highest: u8 = samples[0];
        let mut k: usize = 1;
        while k < samples.len()
            invariant
                1 <= k <= samples.len(),
                forall|n: int| 0 <= n < k ==> lowest <= #[trigger] samples@[n] <= highest,
                exists|n: int| 0 <= n < k && #[trigger] samples@[n] == lowest,
                exists|n: int| 0 <= n < k && #[trigger] samples@[n] == highest,
            decreases samples.len() - k,
        {
            let sample = samples[k];
            if sample < lowest {
                lowest = sample;
            }
            if sample > highest {
                highest = sample;
            }
            k += 1;
        }
        Ok(Heightmap { width, height, samples, lowest, highest })
    }

    /// Samples per row.
    pub fn width(&self) -> (width: u32)
        ensures
            width == self.spec_width(),
    {
        self.width
    }

    /// Number of rows.
    pub fn height(&self) -> (height: u32)
        ensures
            height == self.spec_height(),
    {
        self.height
    }

    /// The sample at `(x, y)`.
    pub fn sample(&self, x: u32, y: u32) -> (sample: u8)
        requires
            self.wf(),
            self.in_grid(x as int, y as int),
        ensures
            sample == self.at(x as int, y as int),
    {
        proof {
            lemma_row_major(self.width as int, self.height as int, x as int, y as int, 0);
            assert(0 <= y * self.width <= 0xffff_ffff * 0xffff_ffff) by (nonlinear_arith)
                requires
                    0 <= y <= 0xffff_ffff,
                    0 <= self.width <= 0xffff_ffff,
            ;
        }
        let k: u64 = (y as u64) * (self.width as u64) + (x as u64);
        let total: usize = self.samples.len();
        assert(k < total);
        self.samples[k as usize]
    }

    /// The sample at `(x, y)`, or `None` off the grid.
    pub fn get(&self, x: u32, y: u32) -> (sample: Option<u8>)
        requires
            self.wf(),
        ensures
            sample == if self.in_grid(x as int, y as int) {
                Some(self.at(x as int, y as int))
            } else {
                None
            },
    {
        if x < self.width && y < self.height {
            Some(self.sample(x, y))
        } else {
            None
        }
    }

    /// The lowest sample of the grid: the surface never dips below it.
    pub fn lowest_sample(&self) -> (lowest: u8)
        requires
            self.wf(),
        ensures
            lowest == self.spec_lowest(),
            is_least(self@, lowest),
    {
        self.lowest
    }

    /// The highest sample of the grid.
    pub fn highest_sample(&self) -> (highest: u8)
        requires
            self.wf(),
        ensures
            highest == self.spec_highest(),
            is_greatest(self@, highest),
    {
        self.highest
    }
}

} // verus!
