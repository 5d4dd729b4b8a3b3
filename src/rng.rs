//! A four-lane xoroshiro128++ generator: four independent instances of the
//! recurrence advanced in lockstep.
use vstd::prelude::*;

verus! {

/// The odd constant derived from the golden ratio that spaces the lane seeds.
pub const GOLDEN_GAMMA: u64 = 0x9E3779B97F4A7C15;

/// Rotation of a 64-bit word left by `k` bits (`k <= 64`); rotating by 0 or
/// by 64 leaves the word as it is.
pub open spec fn rotl(x: u64, k: u64) -> u64 {
    if k == 0 || k == 64 {
        x
    } else {
        (x << k) | (x >> ((64 - k) as u64))
    }
}

/// The word that one lane emits from its state `(s0, s1)`.
pub open spec fn lane_output(s: (u64, u64)) -> u64 {
    (rotl((s.0 + s.1) as u64, 17) + s.0) as u64
}

/// The state that follows `(s0, s1)` in one lane.
pub open spec fn lane_step(s: (u64, u64)) -> (u64, u64) {
    let t = s.1 ^ s.0;
    (rotl(s.0, 49) ^ t ^ (s.1 << 9u64), rotl(t, 28))
}

/// The `k`-th multiple of the golden-ratio constant added to `seed`, modulo 2^64.
pub open spec fn lane_seed(seed: u64, k: int) -> u64 {
    ((seed + k * GOLDEN_GAMMA) % 0x1_0000_0000_0000_0000int) as u64
}

/// The state of lane `lane` of a generator seeded with `seed`, after `n` draws.
pub open spec fn lane_state(seed: u64, lane: int, n: nat) -> (u64, u64)
    decreases n,
{
    if n == 0 {
        (lane_seed(seed, lane), lane_seed(seed, lane + 4))
    } else {
        lane_step(lane_state(seed, lane, (n - 1) as nat))
    }
}

/// All four lane states of a generator seeded with `seed`, after `n` draws.
pub open spec fn lanes_after(seed: u64, n: nat) -> Seq<(u64, u64)> {
    Seq::new(4, |i: int| lane_state(seed, i, n))
}

/// Every lane advanced by one step.
pub open spec fn advance(lanes: Seq<(u64, u64)>) -> Seq<(u64, u64)> {
    lanes.map_values(|s: (u64, u64)| lane_step(s))
}

/// The batch of words that the lanes emit.
pub open spec fn outputs(lanes: Seq<(u64, u64)>) -> Seq<u64> {
    lanes.map_values(|s: (u64, u64)| lane_output(s))
}

/// Rotates each of the four words left by `k` bits.
pub fn rotl_epi64(x: [u64; 4], k: u64) -> (r: [u64; 4])
    requires
        k <= 64,
    ensures
        forall|i: int| 0 <= i < 4 ==> r[i] == rotl(x[i], k),
{
    if k == 0 || k == 64 {
        return x;
    }
    let mut r: [u64; 4] = [0u64; 4];
    let mut i: usize = 0;
    while i < 4
        invariant
            0 < k < 64,
            i <= 4,
            forall|j: int| 0 <= j < i ==> r[j] == rotl(x[j], k),
        decreases 4 - i,
    {
        r[i] = (x[i] << k) | (x[i] >> (64 - k));
        i = i + 1;
    }
    r
}

/// Generator state: lane `i` holds the pair `(s0[i], s1[i])`.
#[derive(Clone, Copy)]
pub struct Xoroshiro128PlusPlusSimd {
    s0: [u64; 4],
    s1: [u64; 4],
}

impl View for Xoroshiro128PlusPlusSimd {
    type V = Seq<(u64, u64)>;

    closed spec fn view(&self) -> Seq<(u64, u64)> {
        Seq::new(4, |i: int| (self.s0[i], self.s1[i]))
    }
}

impl Xoroshiro128PlusPlusSimd {
    /// A generator always holds four lanes.
    pub proof fn lemma_lane_count(&self)
        ensures
            self@.len() == 4,
    {
    }

    /// Seeds lane `i` with `seed + i * GOLDEN_GAMMA` in its first word and
    /// `seed + (i + 4) * GOLDEN_GAMMA` in its second, modulo 2^64.
    pub fn from_seed(seed: u64) -> (r: Self)
        ensures
            r@ == lanes_after(seed, 0),
    {
        let mut s0: [u64; 4] = [0u64; 4];
        let mut s1: [u64; 4] = [0u64; 4];
        let mut i: u64 = 0;
        while i < 4
            invariant
                i <= 4,
                forall|j: int| 0 <= j < i ==> s0[j] == lane_seed(seed, j),
                forall|j: int| 0 <= j < i ==> s1[j] == lane_seed(seed, j + 4),
            decreases 4 - i,
        {
            let a = seed.wrapping_add(i.wrapping_mul(GOLDEN_GAMMA));
            let b = seed.wrapping_add((i + 4).wrapping_mul(GOLDEN_GAMMA));
            proof {
                lemma_lane_seed_wraps(seed, i);
                lemma_lane_seed_wraps(seed, (i + 4) as u64);
            }
            s0[i as usize] = a;
            s1[i as usize] = b;
            i = i + 1;
        }
        let r = Xoroshiro128PlusPlusSimd { s0, s1 };
        assert(r@ =~= lanes_after(seed, 0));
        r
    }

    /// Emits one word per lane, `rotl(s0 + s1, 17) + s0`, and advances every
    /// lane by one xoroshiro128++ step; lanes never mix.
    pub fn next_u64x4(&mut self) -> (r: [u64; 4])
        ensures
            r@ == outputs(old(self)@),
            final(self)@ == advance(old(self)@),
    {
        let sum = add_epi64(self.s0, self.s1);
        let rot = rotl_epi64(sum, 17);
        let result = add_epi64(rot, self.s0);

        let t = slli9_epi64(self.s1);
        let mut s1 = xor_si256(self.s1, self.s0);
        let mut s0 = rotl_epi64(self.s0, 49);
        s0 = xor_si256(s0, s1);
        s0 = xor_si256(s0, t);
        s1 = rotl_epi64(s1, 28);

        let ghost before = self@;
        self.s0 = s0;
        self.s1 = s1;
        assert(self@ =~= advance(before));
        assert(result@ =~= outputs(before));
        result
    }
}

/// Rotating left by `k` and then by `64 - k` gives the word back.
pub proof fn lemma_rotl_round_trip(x: u64, k: u64)
    requires
        k <= 64,
    ensures
        rotl(rotl(x, k), (64 - k) as u64) == x,
{
    if 0 < k < 64 {
        assert(0 < k < 64 ==> ((((x << k) | (x >> ((64 - k) as u64))) << ((64 - k) as u64))
            | (((x << k) | (x >> ((64 - k) as u64))) >> ((64 - ((64 - k) as u64)) as u64))) == x)
            by (bit_vector);
    }
}

/// Lane-wise sum modulo 2^64.
fn add_epi64(a: [u64; 4], b: [u64; 4]) -> (r: [u64; 4])
    ensures
        forall|i: int| 0 <= i < 4 ==> r[i] == (a[i] + b[i]) as u64,
{
    proof {
        lemma_wrapping_add_truncates(a[0], b[0]);
        lemma_wrapping_add_truncates(a[1], b[1]);
        lemma_wrapping_add_truncates(a[2], b[2]);
        lemma_wrapping_add_truncates(a[3], b[3]);
    }
    [a[0].wrapping_add(b[0]), a[1].wrapping_add(b[1]), a[2].wrapping_add(b[2]), a[3].wrapping_add(b[3])]
}

/// Lane-wise exclusive or.
fn xor_si256(a: [u64; 4], b: [u64; 4]) -> (r: [u64; 4])
    ensures
        forall|i: int| 0 <= i < 4 ==> r[i] == a[i] ^ b[i],
{
    [a[0] ^ b[0], a[1] ^ b[1], a[2] ^ b[2], a[3] ^ b[3]]
}

/// Lane-wise shift left by nine bits.
fn slli9_epi64(a: [u64; 4]) -> (r: [u64; 4])
    ensures
        forall|i: int| 0 <= i < 4 ==> r[i] == a[i] << 9u64,
{
    [a[0] << 9u64, a[1] << 9u64, a[2] << 9u64, a[3] << 9u64]
}

proof fn lemma_wrapping_add_truncates(a: u64, b: u64)
    ensures
        vstd::wrapping::u64_specs::wrapping_add(a, b) == (a + b) as u64,
{
    assert(a + b > u64::MAX ==> ((a + b - 0x1_0000_0000_0000_0000int) as u64) == (a + b) as u64)
        by (bit_vector);

}

proof fn lemma_lane_seed_wraps(seed: u64, k: u64)
    ensures
        vstd::wrapping::u64_specs::wrapping_add(seed, vstd::wrapping::u64_specs::wrapping_mul(k, GOLDEN_GAMMA))
            == lane_seed(seed, k as int),
{
    let m = vstd::wrapping::u64_specs::wrapping_mul(k, GOLDEN_GAMMA);
    assert(m == (k * GOLDEN_GAMMA) % 0x1_0000_0000_0000_0000int);
    vstd::arithmetic::div_mod::lemma_add_mod_noop(seed as int, k * GOLDEN_GAMMA, 0x1_0000_0000_0000_0000int);
    vstd::arithmetic::div_mod::lemma_mod_twice(seed as int, 0x1_0000_0000_0000_0000int);
    vstd::arithmetic::div_mod::lemma_small_mod(seed as nat, 0x1_0000_0000_0000_0000nat);
}

/// Draws `count` batches from a generator seeded with `seed`; batch `k` is
/// what the lanes emit after `k` earlier draws.
pub fn draw_batches(seed: u64, count: usize) -> (r: Vec<[u64; 4]>)
    ensures
        r@.len() == count,
        forall|k: int| 0 <= k < count ==> (#[trigger] r@[k])@ == outputs(lanes_after(seed, k as nat)),
{
    let mut rng = Xoroshiro128PlusPlusSimd::from_seed(seed);
    let mut r: Vec<[u64; 4]> = Vec::new();
    let mut k: usize = 0;
    while k < count
        invariant
            k <= count,
            r@.len() == k,
            rng@ == lanes_after(seed, k as nat),
            forall|j: int| 0 <= j < k ==> (#[trigger] r@[j])@ == outputs(lanes_after(seed, j as nat)),
        decreases count - k,
    {
        proof {
            lemma_draw_advances_lanes(seed, k as nat);
        }
        let batch = rng.next_u64x4();
        r.push(batch);
        k = k + 1;
    }
    r
}

/// Lanes never interact: advancing the whole generator seeded with `seed`
/// after `n` draws gives, lane by lane, the next state of each lane's own
/// recurrence, so what a generator holds and emits after `n` draws depends
/// on `seed` and `n` alone.
pub proof fn lemma_draw_advances_lanes(seed: u64, n: nat)
    ensures
        advance(lanes_after(seed, n)) == lanes_after(seed, n + 1),
        outputs(lanes_after(seed, n)) == Seq::new(4, |i: int| lane_output(lane_state(seed, i, n))),
{
    assert(advance(lanes_after(seed, n)) =~= lanes_after(seed, n + 1));
    assert(outputs(lanes_after(seed, n)) =~= Seq::new(4, |i: int| lane_output(lane_state(seed, i, n))));
}

/// One xoroshiro128++ step is injective: distinct states have distinct successors.
pub proof fn lemma_lane_step_injective(a: (u64, u64), b: (u64, u64))
    requires
        lane_step(a) == lane_step(b),
    ensures
        a == b,
{
    let (a0, a1) = a;
    let (b0, b1) = b;
    assert(a0 == b0 && a1 == b1) by (bit_vector)
        requires
            rotl(a0, 49) ^ (a1 ^ a0) ^ (a1 << 9u64) == rotl(b0, 49) ^ (b1 ^ b0) ^ (b1 << 9u64),
            rotl(a1 ^ a0, 28) == rotl(b1 ^ b0, 28),
    ;
}

/// The first word that lane `k` emits for `seed`.
spec fn first_word(seed: u64, k: int) -> u64 {
    let s0 = lane_seed(seed, k);
    let s1 = lane_seed(seed, k + 4);
    (rotl((s0 + s1) as u64, 17) + s0) as u64
}

/// Seed diversification: for every seed, any two lanes emit different
/// first words, so the four lanes' output sequences are pairwise distinct.
pub proof fn lemma_first_outputs_distinct(seed: u64, i: int, j: int)
    requires
        0 <= i < j < 4,
    ensures
        lane_output(lane_state(seed, i, 0)) != lane_output(lane_state(seed, j, 0)),
        outputs(lanes_after(seed, 0))[i] != outputs(lanes_after(seed, 0))[j],
{
    if i == 0 && j == 1 {
        assert(first_word(seed, 0) != first_word(seed, 1)) by (bit_vector);
    } else if i == 0 && j == 2 {
        assert(first_word(seed, 0) != first_word(seed, 2)) by (bit_vector);
    } else if i == 0 && j == 3 {
        assert(first_word(seed, 0) != first_word(seed, 3)) by (bit_vector);
    } else if i == 1 && j == 2 {
        assert(first_word(seed, 1) != first_word(seed, 2)) by (bit_vector);
    } else if i == 1 && j == 3 {
        assert(first_word(seed, 1) != first_word(seed, 3)) by (bit_vector);
    } else {
        assert(first_word(seed, 2) != first_word(seed, 3)) by (bit_vector);
    }
}

/// The four lanes start from pairwise distinct states.
proof fn lemma_lane_seeds_distinct(seed: u64, i: int, j: int)
    requires
        0 <= i < j < 4,
    ensures
        lane_seed(seed, i) != lane_seed(seed, j),
{
    if i == 0 && j == 1 {
        assert(lane_seed(seed, 0) != lane_seed(seed, 1)) by (bit_vector);
    } else if i == 0 && j == 2 {
        assert(lane_seed(seed, 0) != lane_seed(seed, 2)) by (bit_vector);
    } else if i == 0 && j == 3 {
        assert(lane_seed(seed, 0) != lane_seed(seed, 3)) by (bit_vector);
    } else if i == 1 && j == 2 {
        assert(lane_seed(seed, 1) != lane_seed(seed, 2)) by (bit_vector);
    } else if i == 1 && j == 3 {
        assert(lane_seed(seed, 1) != lane_seed(seed, 3)) by (bit_vector);
    } else {
        assert(lane_seed(seed, 2) != lane_seed(seed, 3)) by (bit_vector);
    }
}

/// Seed diversification: for every seed, the states of any two lanes differ
/// after any number of draws, so no lane ever runs in step with another.
pub proof fn lemma_lanes_stay_distinct(seed: u64, i: int, j: int, n: nat)
    requires
        0 <= i < 4,
        0 <= j < 4,
        i != j,
    ensures
        lane_state(seed, i, n) != lane_state(seed, j, n),
    decreases n,
{
    if n == 0 {
        if i < j {
            lemma_lane_seeds_distinct(seed, i, j);
        } else {
            lemma_lane_seeds_distinct(seed, j, i);
        }
    } else {
        lemma_lanes_stay_distinct(seed, i, j, (n - 1) as nat);
        if lane_state(seed, i, n) == lane_state(seed, j, n) {
            lemma_lane_step_injective(lane_state(seed, i, (n - 1) as nat), lane_state(seed, j, (n - 1) as nat));
        }
    }
}

} // verus!
