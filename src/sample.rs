//! Turning generator words into unit-interval coordinates, counting the
//! lanes that fall inside the quarter circle, and the state of one worker.
//!
//! The floating-point arithmetic itself (`x * x + y * y - 1.0`) is not done
//! here: a worker hands out the IEEE-754 bit patterns of its coordinates and
//! takes back the bit patterns of the per-lane differences, whose sign bits
//! it counts.
use vstd::prelude::*;
use crate::rng::{Xoroshiro128PlusPlusSimd, lanes_after, advance, outputs};

verus! {

/// The bit pattern of the single-precision float 1.0: biased exponent 127.
pub const EXPONENT_ONE: u32 = 127 << 23;

/// Number of 32-bit coordinate lanes in one batch: two per generator word.
pub const LANES_PER_BATCH: u64 = 8;

/// The float pattern built from the top 23 bits of `r` as mantissa and the
/// exponent of 1.0: a float in [1.0, 2.0), which minus 1.0 is in [0.0, 1.0).
pub open spec fn unit_bits(r: u32) -> u32 {
    EXPONENT_ONE | (r >> 9u32)
}

/// Half `h` of a 64-bit word: 0 is the low 32 bits, 1 the high 32 bits.
pub open spec fn word_half(w: u64, h: int) -> u32 {
    if h == 0 {
        (w & 0xFFFF_FFFF) as u32
    } else {
        (w >> 32u64) as u32
    }
}

/// The eight coordinate patterns of a batch of four words: lane `l` comes
/// from half `l % 2` of word `l / 2`, and lanes `2k`, `2k + 1` form a pair.
pub open spec fn coordinate_bits(batch: Seq<u64>) -> Seq<u32> {
    Seq::new(8, |l: int| unit_bits(word_half(batch[l / 2], l % 2)))
}

/// Whether the float with bit pattern `b` has its sign bit set.
pub open spec fn sign_set(b: u32) -> bool {
    b >> 31u32 == 1
}

/// The number of patterns in `s` whose sign bit is set.
pub open spec fn count_negative(s: Seq<u32>) -> nat
    decreases s.len(),
{
    if s.len() == 0 {
        0
    } else {
        count_negative(s.drop_last()) + if sign_set(s.last()) { 1nat } else { 0nat }
    }
}

/// Maps 32 random bits to the bit pattern of a float in [1.0, 2.0).
pub fn unit_float_bits(r: u32) -> (b: u32)
    ensures
        b == unit_bits(r),
{
    EXPONENT_ONE | (r >> 9)
}

/// Every pattern is a float in [1.0, 2.0): sign clear, biased exponent 127,
/// and the top 23 bits of the input as mantissa.
pub proof fn lemma_unit_bits_layout(r: u32)
    ensures
        unit_bits(r) >> 23u32 == 127,
        unit_bits(r) & 0x7F_FFFF == r >> 9u32,
        0x3F80_0000 <= unit_bits(r) <= 0x3FFF_FFFF,
{
    assert(((127u32 << 23u32) | (r >> 9u32)) >> 23u32 == 127) by (bit_vector);
    assert(((127u32 << 23u32) | (r >> 9u32)) & 0x7F_FFFF == r >> 9u32) by (bit_vector);
    assert(0x3F80_0000 <= ((127u32 << 23u32) | (r >> 9u32)) <= 0x3FFF_FFFF) by (bit_vector);
}

/// The conversion is monotonic in the mantissa bits: a larger mantissa gives
/// a larger pattern, and patterns of one sign and exponent order as their
/// floats do.
pub proof fn lemma_unit_bits_monotonic(a: u32, b: u32)
    ensures
        a >> 9u32 <= b >> 9u32 ==> unit_bits(a) <= unit_bits(b),
        a >> 9u32 < b >> 9u32 ==> unit_bits(a) < unit_bits(b),
{
    assert(a >> 9u32 <= b >> 9u32 ==> ((127u32 << 23u32) | (a >> 9u32)) <= ((127u32 << 23u32) | (b >> 9u32))) by (bit_vector);
    assert(a >> 9u32 < b >> 9u32 ==> ((127u32 << 23u32) | (a >> 9u32)) < ((127u32 << 23u32) | (b >> 9u32))) by (bit_vector);
}

/// Splits each word of a batch into its two 32-bit halves, low half first,
/// and turns each half into a coordinate pattern.
pub fn batch_unit_bits(batch: [u64; 4]) -> (r: [u32; 8])
    ensures
        r@ == coordinate_bits(batch@),
{
    let mut r: [u32; 8] = [0u32; 8];
    let mut k: usize = 0;
    while k < 4
        invariant
            k <= 4,
            forall|l: int| 0 <= l < 2 * k ==> r[l] == #[trigger] coordinate_bits(batch@)[l],
        decreases 4 - k,
    {
        let w = batch[k];
        let lo = (w & 0xFFFF_FFFF) as u32;
        let hi = (w >> 32) as u32;
        r[2 * k] = unit_float_bits(lo);
        r[2 * k + 1] = unit_float_bits(hi);
        assert(coordinate_bits(batch@)[2 * k as int] == unit_bits(lo));
        assert(coordinate_bits(batch@)[2 * k + 1] == unit_bits(hi));
        k = k + 1;
    }
    assert(r@ =~= coordinate_bits(batch@));
    r
}

/// Counts the lanes whose difference `x² + y² - 1` has its sign bit set,
/// that is the lanes strictly inside the unit circle; an exact zero has a
/// clear sign bit and counts as outside.
pub fn negative_lane_count(diffs: [u32; 8]) -> (c: u64)
    ensures
        c == count_negative(diffs@),
        c <= 8,
{
    let mut c: u64 = 0;
    let mut l: usize = 0;
    while l < 8
        invariant
            l <= 8,
            c == count_negative(diffs@.subrange(0, l as int)),
            c <= l,
        decreases 8 - l,
    {
        assert(diffs@.subrange(0, l + 1).drop_last() =~= diffs@.subrange(0, l as int));
        if diffs[l] >> 31 == 1 {
            c = c + 1;
        }
        l = l + 1;
    }
    assert(diffs@.subrange(0, 8) =~= diffs@);
    c
}

/// Relies on rand::random: a value drawn from the thread-local generator,
/// used as a worker's seed; nothing is assumed of which value comes.
pub assume_specification<T>[ rand::random::<T> ]() -> (r: T)
    where
        rand::distributions::Standard: rand::distributions::Distribution<T>,
;

/// One worker's sampling state: its own generator, the number of batches it
/// is to run, the number it has run, and the inside lanes counted so far.
pub struct Worker {
    rng: Xoroshiro128PlusPlusSimd,
    iterations: u64,
    done: u64,
    hits: u64,
}

impl Worker {
    /// The generator's lanes.
    pub closed spec fn lanes(&self) -> Seq<(u64, u64)> {
        self.rng@
    }

    /// The number of batches the worker is to run.
    pub closed spec fn spec_iterations(&self) -> u64 {
        self.iterations
    }

    /// The number of batches counted so far.
    pub closed spec fn spec_done(&self) -> u64 {
        self.done
    }

    /// The inside lanes counted so far.
    pub closed spec fn spec_hits(&self) -> u64 {
        self.hits
    }

    /// The counts stay within their bounds: no more batches than planned, no
    /// more hits than lanes, and every lane count fits in 64 bits.
    pub open spec fn wf(&self) -> bool {
        &&& self.spec_done() <= self.spec_iterations()
        &&& self.spec_hits() <= LANES_PER_BATCH * self.spec_done()
        &&& LANES_PER_BATCH * self.spec_iterations() <= u64::MAX
    }

    /// A worker that will run `iterations` batches from a generator seeded
    /// with `seed`.
    pub fn new(seed: u64, iterations: u64) -> (w: Worker)
        requires
            LANES_PER_BATCH * iterations <= u64::MAX,
        ensures
            w.wf(),
            w.lanes() == lanes_after(seed, 0),
            w.spec_iterations() == iterations,
            w.spec_done() == 0,
            w.spec_hits() == 0,
    {
        Worker { rng: Xoroshiro128PlusPlusSimd::from_seed(seed), iterations, done: 0, hits: 0 }
    }

    /// A worker seeded with a fresh value from the process's entropy source.
    pub fn spawn(iterations: u64) -> (w: Worker)
        requires
            LANES_PER_BATCH * iterations <= u64::MAX,
        ensures
            w.wf(),
            exists|seed: u64| w.lanes() == lanes_after(seed, 0),
            w.spec_iterations() == iterations,
            w.spec_done() == 0,
            w.spec_hits() == 0,
    {
        let seed: u64 = rand::random::<u64>();
        Worker::new(seed, iterations)
    }

    /// Whether every planned batch has been counted.
    pub fn is_finished(&self) -> (r: bool)
        ensures
            r == (self.spec_done() == self.spec_iterations()),
    {
        self.done == self.iterations
    }

    /// Draws the next batch and returns its eight coordinate patterns; lanes
    /// `2k` and `2k + 1` are the `x` and `y` of pair `k`.
    pub fn draw(&mut self) -> (r: [u32; 8])
        ensures
            r@ == coordinate_bits(outputs(old(self).lanes())),
            final(self).lanes() == advance(old(self).lanes()),
            final(self).spec_iterations() == old(self).spec_iterations(),
            final(self).spec_done() == old(self).spec_done(),
            final(self).spec_hits() == old(self).spec_hits(),
    {
        let batch = self.rng.next_u64x4();
        batch_unit_bits(batch)
    }

    /// Counts one batch: `diffs` holds, per lane, the pattern of
    /// `x² + y² - 1` for the pair the lane belongs to.
    pub fn record(&mut self, diffs: [u32; 8])
        requires
            old(self).wf(),
            old(self).spec_done() < old(self).spec_iterations(),
        ensures
            final(self).wf(),
            final(self).spec_hits() == old(self).spec_hits() + count_negative(diffs@),
            final(self).spec_done() == old(self).spec_done() + 1,
            final(self).spec_iterations() == old(self).spec_iterations(),
            final(self).lanes() == old(self).lanes(),
    {
        let c = negative_lane_count(diffs);
        self.hits = self.hits + c;
        self.done = self.done + 1;
    }

    /// The inside lanes counted so far.
    pub fn hits(&self) -> (r: u64)
        ensures
            r == self.spec_hits(),
    {
        self.hits
    }

    /// The lanes sampled so far: eight per counted batch.
    pub fn samples(&self) -> (r: u64)
        requires
            self.wf(),
        ensures
            r == LANES_PER_BATCH * self.spec_done(),
    {
        LANES_PER_BATCH * self.done
    }
}

} // verus!
