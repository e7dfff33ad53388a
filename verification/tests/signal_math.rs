use pulsar::signal::{gate_fixed, noise_fixed, phase_ticks, saw_fixed, triangle_fixed, UNIT};

// 441 Hz divides 44100: the saw's period is exactly 100 samples.
const F_MHZ: u32 = 441_000;
const RATE: u32 = 44_100;

#[test]
fn saw_exact_ramp_values() {
    // phase 0, 1/4, 1/2, 3/4 of a cycle: 2 * frac - 1
    assert_eq!(saw_fixed(F_MHZ, 0, RATE), -UNIT);
    assert_eq!(saw_fixed(F_MHZ, 25, RATE), -500_000_000);
    assert_eq!(saw_fixed(F_MHZ, 50, RATE), 0);
    assert_eq!(saw_fixed(F_MHZ, 75, RATE), 500_000_000);
}

#[test]
fn saw_is_periodic_with_rate_over_freq_samples() {
    let period: usize = (RATE / 441) as usize;
    assert_eq!(period, 100);
    for n in [0usize, 7, 99, 123, 999, 44_100, 1_000_000] {
        assert_eq!(saw_fixed(F_MHZ, n, RATE), saw_fixed(F_MHZ, n + period, RATE));
        assert_eq!(saw_fixed(F_MHZ, n, RATE), saw_fixed(F_MHZ, n + 13 * period, RATE));
    }
}

#[test]
fn triangle_exact_corner_values() {
    assert_eq!(triangle_fixed(F_MHZ, 0, RATE), 0);
    assert_eq!(triangle_fixed(F_MHZ, 25, RATE), UNIT);
    assert_eq!(triangle_fixed(F_MHZ, 50, RATE), 0);
    assert_eq!(triangle_fixed(F_MHZ, 75, RATE), -UNIT);
    // phase 0.12 lies on the rising first quarter: 4 * 0.12 = 0.48
    assert_eq!(triangle_fixed(F_MHZ, 12, RATE), 480_000_000);
}

#[test]
fn sine_phase_index_zero_yields_zero() {
    let t = phase_ticks(440_000, 0, 44_100);
    assert_eq!(t, 0);
    let x = (t as f64) / (1000.0 * 44_100.0);
    assert_eq!((2.0 * std::f64::consts::PI * x).sin(), 0.0);
}

#[test]
fn sine_phase_matches_formula() {
    // 440 Hz at 44100 Hz: the produced phase must equal frac(440 * n / 44100)
    // exactly, so the sine computed from it matches sin(2*pi*440*n/44100).
    let denom = 1000.0 * 44_100.0;
    for n in 0usize..2000 {
        let t = phase_ticks(440_000, n, 44_100);
        let got = (t as f64) / denom;
        let want = (440.0 * n as f64 / 44_100.0).fract();
        assert!((got - want).abs() < 1e-12, "phase off at {}: {} vs {}", n, got, want);
        let s_got = (2.0 * std::f64::consts::PI * got).sin();
        let s_want = (2.0 * std::f64::consts::PI * 440.0 * n as f64 / 44_100.0).sin();
        assert!((s_got - s_want).abs() < 1e-6, "sine off at {}", n);
    }
}

#[test]
fn gate_is_identity_at_full_ratio() {
    for v in [-UNIT, -123_456_789, 0, 1, 987_654_321, UNIT] {
        assert_eq!(gate_fixed(v, 1_000_000_000), v);
    }
}

#[test]
fn gate_clips_above_half_and_doubles_within() {
    let half: u32 = 500_000_000;
    assert_eq!(gate_fixed(500_000_001, half), 0);
    assert_eq!(gate_fixed(600_000_000, half), 0);
    assert_eq!(gate_fixed(UNIT, half), 0);
    assert_eq!(gate_fixed(400_000_000, half), 800_000_000);
    assert_eq!(gate_fixed(500_000_000, half), UNIT);
    assert_eq!(gate_fixed(0, half), 0);
    assert_eq!(gate_fixed(-400_000_000, half), -800_000_000);
    // the asymmetry: negative excursions pass unclipped, however large
    assert_eq!(gate_fixed(-UNIT, half), -2 * UNIT);
}

#[test]
fn gate_zero_ratio_is_silent() {
    assert_eq!(gate_fixed(700_000_000, 0), 0);
    assert_eq!(gate_fixed(-700_000_000, 0), 0);
}

#[test]
fn noise_maps_entropy_onto_unit_range() {
    assert_eq!(noise_fixed(0), -UNIT);
    assert_eq!(noise_fixed(0x8000_0000), 0);
    assert_eq!(noise_fixed(0xFFFF_FFFF), 999_999_999);
}
