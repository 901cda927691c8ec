use vstd::prelude::*;

verus! {

/// Number of cells in the generated grid (its side length squared).
pub const GRID_CELLS: usize = 4096;

/// IEEE-754 bit pattern of the rock threshold, the double `0.3`: cells
/// whose noise sample exceeds it are covered by rock.
pub const ROCK_THRESHOLD_BITS: u64 = 0x3FD3333333333333;

/// IEEE-754 bit pattern of the water threshold, the double `0.8`: cells
/// whose noise sample exceeds it are covered by water.
pub const WATER_THRESHOLD_BITS: u64 = 0x3FE999999999999A;

/// Sign bit of a 64-bit IEEE-754 value; patterns at or above it denote
/// negative samples.
pub const F64_SIGN_BIT: u64 = 0x8000000000000000;

/// Whether a noise sample, given as the IEEE-754 bit pattern of a finite
/// double, is strictly greater than a positive finite threshold given the
/// same way. For such values the bit patterns of non-negative doubles
/// order exactly as the doubles themselves, and every negative sample
/// (sign bit set) compares below any positive threshold.
pub open spec fn sample_exceeds(sample_bits: u64, threshold_bits: u64) -> bool {
    sample_bits < F64_SIGN_BIT && sample_bits > threshold_bits
}

/// Exceeding the water threshold implies exceeding the rock threshold:
/// both tests read the same sample, and the water threshold is the larger
/// pattern, so every water cell is also a rock cell.
pub proof fn lemma_water_implies_rock(sample_bits: u64)
    requires
        sample_exceeds(sample_bits, WATER_THRESHOLD_BITS),
    ensures
        sample_exceeds(sample_bits, ROCK_THRESHOLD_BITS),
{
}

/// A sample at or below the rock threshold exceeds neither threshold.
pub proof fn lemma_low_sample_exceeds_neither(sample_bits: u64)
    requires
        !sample_exceeds(sample_bits, ROCK_THRESHOLD_BITS),
    ensures
        !sample_exceeds(sample_bits, WATER_THRESHOLD_BITS),
{
}

/// Runtime form of `sample_exceeds`, used by the generation pass.
pub fn exceeds_threshold(sample_bits: u64, threshold_bits: u64) -> (r: bool)
    ensures
        r == sample_exceeds(sample_bits, threshold_bits),
{
    sample_bits < F64_SIGN_BIT && sample_bits > threshold_bits
}

/// Row-major position of a grid cell in a flat sequence of samples.
pub open spec fn cell_index(x: int, y: int) -> int {
    x * 64 + y
}

/// One fully sampled grid of coherent noise: the sample for every cell of
/// the 64 x 64 grid, each held as the IEEE-754 bit pattern of the double
/// the noise function produced, in row-major order. The continuous noise
/// function itself (a seeded, scaled coherent-noise source) lives outside
/// this library; a field is built once from its output and is immutable
/// afterwards, so every read of a cell returns the one sample recorded
/// for it.
pub struct NoiseField {
    samples: Vec<u64>,
}

impl NoiseField {
    /// The recorded samples, in row-major order.
    pub closed spec fn view(&self) -> Seq<u64> {
        self.samples@
    }

    #[verifier::type_invariant]
    spec fn wf(&self) -> bool {
        self.samples@.len() == GRID_CELLS
    }

    /// Records one sample per grid cell, row-major: the sample for cell
    /// (x, y) stands at index `x * 64 + y`.
    pub fn from_samples(samples: Vec<u64>) -> (r: Self)
        requires
            samples@.len() == GRID_CELLS,
        ensures
            r@ == samples@,
    {
        Self { samples }
    }

    /// The sample recorded for cell (x, y). Reading the same cell twice
    /// returns bit-identical values: the result is pinned to the one
    /// sample the field holds for that cell.
    pub fn sample_bits(&self, x: i32, y: i32) -> (r: u64)
        requires
            0 <= x < 64,
            0 <= y < 64,
        ensures
            r == self@[cell_index(x as int, y as int)],
    {
        proof {
            use_type_invariant(self);
        }
        let idx: usize = (x as usize) * 64 + (y as usize);
        self.samples[idx]
    }

    /// A noise field always covers the whole grid.
    pub fn len(&self) -> (r: usize)
        ensures
            r == self@.len(),
            r == GRID_CELLS,
    {
        proof {
            use_type_invariant(self);
        }
        self.samples.len()
    }
}

} // verus!
