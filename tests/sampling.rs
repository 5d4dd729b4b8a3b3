use simd_pi::sample::{batch_unit_bits, negative_lane_count, unit_float_bits, Worker, EXPONENT_ONE};

fn diffs_of(points: [(f32, f32); 4]) -> [u32; 8] {
    let mut d = [0u32; 8];
    for (k, (x, y)) in points.iter().enumerate() {
        let s = x * x + y * y - 1.0;
        d[2 * k] = s.to_bits();
        d[2 * k + 1] = (y * y + x * x - 1.0).to_bits();
    }
    d
}

fn lane_diffs(bits: [u32; 8]) -> [u32; 8] {
    let mut sq = [0f32; 8];
    for l in 0..8 {
        let v = f32::from_bits(bits[l]) - 1.0;
        sq[l] = v * v;
    }
    let mut d = [0u32; 8];
    for l in 0..8 {
        d[l] = (sq[l] + sq[l ^ 1] - 1.0).to_bits();
    }
    d
}

#[test]
fn unit_bits_examples() {
    assert_eq!(EXPONENT_ONE, 0x3F80_0000);
    assert_eq!(unit_float_bits(0), 0x3F80_0000);
    assert_eq!(unit_float_bits(0xFFFF_FFFF), 0x3FFF_FFFF);
    assert_eq!(unit_float_bits(0x8000_0000), 0x3FC0_0000);
    assert_eq!(unit_float_bits(0x1234_5678), 0x3F89_1A2B);
    assert_eq!(f32::from_bits(unit_float_bits(0x8000_0000)) - 1.0, 0.5);
}

#[test]
fn every_mantissa_maps_into_unit_interval_in_order() {
    let mut prev = -1.0f32;
    for m in 0u32..(1 << 23) {
        let v = f32::from_bits(unit_float_bits(m << 9)) - 1.0;
        assert!(v >= 0.0 && v < 1.0, "mantissa {} gives {}", m, v);
        assert!(v > prev, "mantissa {} is out of order", m);
        assert_eq!(v, m as f32 / 8_388_608.0);
        prev = v;
    }
}

#[test]
fn batch_splits_words_low_half_first() {
    let r = batch_unit_bits([0xFFFF_FFFF_0000_0000, 0x8000_0000_1234_5678, 0, u64::MAX]);
    assert_eq!(r, [0x3F80_0000, 0x3FFF_FFFF, 0x3F89_1A2B, 0x3FC0_0000, 0x3F80_0000, 0x3F80_0000, 0x3FFF_FFFF, 0x3FFF_FFFF]);
}

#[test]
fn known_points_classify_through_the_lane_path() {
    let d = diffs_of([(0.0, 0.0), (1.0, 1.0), (0.6, 0.8), (0.1, 0.1)]);
    assert_eq!(negative_lane_count([d[0], d[1], 0, 0, 0, 0, 0, 0]), 2);
    assert_eq!(negative_lane_count([d[2], d[3], 0, 0, 0, 0, 0, 0]), 0);
    assert_eq!(negative_lane_count([d[4], d[5], 0, 0, 0, 0, 0, 0]), 0);
    assert_eq!(negative_lane_count([d[6], d[7], 0, 0, 0, 0, 0, 0]), 2);
    assert_eq!(negative_lane_count(d), 4);
}

#[test]
fn exact_boundary_counts_as_outside() {
    assert_eq!(negative_lane_count([0.0f32.to_bits(); 8]), 0);
    assert_eq!(negative_lane_count([(-0.5f32).to_bits(); 8]), 8);
    assert_eq!(negative_lane_count([0x8000_0001, 0x7FFF_FFFF, 0xFFFF_FFFF, 0, 0x8000_0000, 1, 2, 3]), 3);
}

#[test]
fn worker_counts_batches_and_hits() {
    let mut w = Worker::new(3, 2);
    assert!(!w.is_finished());
    assert_eq!(w.samples(), 0);
    let coords = w.draw();
    assert_eq!(coords, batch_unit_bits(simd_pi::rng::draw_batches(3, 1)[0]));
    w.record(diffs_of([(0.0, 0.0), (1.0, 1.0), (0.1, 0.1), (0.5, 0.5)]));
    assert_eq!(w.hits(), 6);
    assert_eq!(w.samples(), 8);
    w.draw();
    w.record(diffs_of([(0.9, 0.9); 4]));
    assert_eq!(w.hits(), 6);
    assert_eq!(w.samples(), 16);
    assert!(w.is_finished());
}

#[test]
fn estimate_converges_to_pi() {
    let seeds = [1u64, 2, 3, 4];
    let iterations: u64 = 3_125_000;
    let mut hits: u64 = 0;
    let mut samples: u64 = 0;
    for seed in seeds {
        let mut w = Worker::new(seed, iterations);
        while !w.is_finished() {
            let bits = w.draw();
            w.record(lane_diffs(bits));
        }
        hits += w.hits();
        samples += w.samples();
    }
    assert_eq!(samples, 100_000_000);
    let estimate = hits as f64 * 4.0 / samples as f64;
    assert!((estimate - std::f64::consts::PI).abs() < 0.01, "estimate {}", estimate);
}

#[test]
fn spawned_workers_start_empty() {
    let w = Worker::spawn(5);
    assert_eq!(w.hits(), 0);
    assert_eq!(w.samples(), 0);
    assert!(!w.is_finished());
}
