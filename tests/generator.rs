use simd_pi::rng::{draw_batches, rotl_epi64, Xoroshiro128PlusPlusSimd};

#[test]
fn rotl_moves_high_bits_to_the_bottom() {
    let r = rotl_epi64([0x8000_0000_0000_0001, 1, 0, u64::MAX], 17);
    assert_eq!(r, [0x30000, 0x20000, 0, u64::MAX]);
}

#[test]
fn rotl_by_zero_or_sixty_four_keeps_the_words() {
    let x = [0x8000_0000_0000_0001, 0x1234_5678_9ABC_DEF0, 0, u64::MAX];
    assert_eq!(rotl_epi64(x, 0), x);
    assert_eq!(rotl_epi64(x, 64), x);
    assert_eq!(rotl_epi64(x, 1), [3, 0x2468_ACF1_3579_BDE0, 0, u64::MAX]);
}

#[test]
fn rotl_round_trip_for_every_amount() {
    let x = [0x8000_0000_0000_0001, 0x1234_5678_9ABC_DEF0, 0xDEAD_BEEF, u64::MAX - 5];
    for k in 0..=64u64 {
        let r = rotl_epi64(x, k);
        for i in 0..4 {
            assert_eq!(r[i], x[i].rotate_left(k as u32));
        }
        assert_eq!(rotl_epi64(r, 64 - k), x);
    }
}

#[test]
fn first_batches_from_seed_zero() {
    let mut g = Xoroshiro128PlusPlusSimd::from_seed(0);
    assert_eq!(g.next_u64x4(), [0xcdcbfa53e0a8f1bb, 0x52e971375047e6ae, 0xd806e81abfe6dba1, 0x5d245efe2f83d094]);
    assert_eq!(g.next_u64x4(), [0x5b5a19ce1c4d9e19, 0x5537ddfcd589b4df, 0xe2cead63063e13a8, 0x7d14d638af9261d8]);
    assert_eq!(g.next_u64x4(), [0x9787e3dc0e59777b, 0x6f06108053204e25, 0x81c9d7b5928b74f5, 0xa737285e34e8a7e4]);
}

#[test]
fn first_batches_from_seed_forty_two() {
    let b = draw_batches(42, 3);
    assert_eq!(b.len(), 3);
    assert_eq!(b[0], [0xcdcbfa53e150f1e5, 0x52e9713750efe6d8, 0xd806e81ac08edbcb, 0x5d245efe302bd0be]);
    assert_eq!(b[1], [0x5b8e19cd844d5281, 0x5511ddffec2b3fd7, 0xe25fad625eedbef8, 0x7c7dd638384224f8]);
    assert_eq!(b[2], [0x3783e33f265af2d3, 0x797a25d3bb7deebc, 0x7035ec8249ddaf56, 0x2ad91a089db71b94]);
}

#[test]
fn lanes_are_distinct_sequences() {
    for seed in [0u64, 1, 42, u64::MAX, 0x9E3779B97F4A7C15] {
        let batches = draw_batches(seed, 10_000);
        for i in 0..4 {
            for j in (i + 1)..4 {
                assert_ne!(batches[0][i], batches[0][j]);
                let same = batches.iter().all(|b| b[i] == b[j]);
                assert!(!same, "lanes {} and {} agree for seed {}", i, j, seed);
                let matches = batches.iter().filter(|b| b[i] == b[j]).count();
                assert!(matches < 10, "lanes {} and {} agree too often for seed {}", i, j, seed);
            }
        }
    }
}

#[test]
fn reseeding_reproduces_the_output() {
    for seed in [0u64, 7, 123_456_789, u64::MAX] {
        let first = draw_batches(seed, 1_000);
        let second = draw_batches(seed, 1_000);
        assert_eq!(first, second);
        let mut g = Xoroshiro128PlusPlusSimd::from_seed(seed);
        for b in first.iter() {
            assert_eq!(g.next_u64x4(), *b);
        }
    }
}

#[test]
fn drawing_more_extends_a_shorter_draw() {
    let short = draw_batches(5, 10);
    let long = draw_batches(5, 50);
    assert_eq!(&long[..10], &short[..]);
    assert!(draw_batches(5, 0).is_empty());
}

#[test]
fn copies_advance_alike() {
    let mut a = Xoroshiro128PlusPlusSimd::from_seed(99);
    a.next_u64x4();
    let mut b = a;
    for _ in 0..100 {
        assert_eq!(a.next_u64x4(), b.next_u64x4());
    }
}
