use std::sync::atomic::Ordering;

use pulsar::params::SharedParameter;
use pulsar::session::SessionState;
use pulsar::signal::UNIT;
use pulsar::{AtomicWaveType, Oscillator, SampleStep, WaveType};

fn engine_with(kind: WaveType, freq_mhz: u32, silence: u32, rate: u32) -> Oscillator {
    Oscillator::new(
        SharedParameter::new(freq_mhz),
        rate,
        AtomicWaveType::new(kind),
        SharedParameter::new(silence),
    )
}

#[test]
fn wave_selector_round_trips_every_kind() {
    for kind in [WaveType::Saw, WaveType::Noise, WaveType::Sine, WaveType::Triangle] {
        let cell = AtomicWaveType::new(WaveType::Sine);
        cell.store(kind, Ordering::Relaxed);
        assert_eq!(cell.load(Ordering::Relaxed), kind);
    }
}

#[test]
fn wave_decoding_falls_back_to_triangle() {
    assert_eq!(pulsar::wave::decode_wave(7), WaveType::Triangle);
    assert_eq!(pulsar::wave::decode_wave(255), WaveType::Triangle);
    assert_eq!(pulsar::wave::decode_wave(0), WaveType::Saw);
    assert_eq!(pulsar::wave::decode_wave(1), WaveType::Noise);
    assert_eq!(pulsar::wave::decode_wave(2), WaveType::Sine);
    assert_eq!(pulsar::wave::encode_wave(WaveType::Saw), 0);
    assert_eq!(pulsar::wave::encode_wave(WaveType::Triangle), 3);
}

#[test]
fn default_wave_is_sine() {
    assert_eq!(WaveType::default(), WaveType::Sine);
}

#[test]
fn engine_reports_its_format() {
    let o = Oscillator::default();
    assert_eq!(o.sample_rate(), 41_000);
    assert_eq!(o.channels(), 1);
    assert!(o.current_frame_len().is_none());
    let o = engine_with(WaveType::Saw, 441_000, UNIT as u32, 44_100);
    assert_eq!(o.sample_rate(), 44_100);
}

#[test]
fn saw_engine_follows_the_pure_mapping() {
    let mut o = engine_with(WaveType::Saw, 441_000, UNIT as u32, 44_100);
    // the index advances before computing: the first call produces index 1
    for n in 1usize..=200 {
        let want = pulsar::signal::gate_fixed(
            pulsar::signal::saw_fixed(441_000, n, 44_100),
            UNIT as u32,
        );
        assert_eq!(o.next_sample(), SampleStep::Ready(want));
    }
}

#[test]
fn engine_follows_parameter_changes() {
    let wave = AtomicWaveType::new(WaveType::Saw);
    let silence = SharedParameter::new(UNIT as u32);
    let mut o = Oscillator::new(SharedParameter::new(441_000), 44_100, wave.clone(), silence.clone());
    assert_eq!(
        o.next_sample(),
        SampleStep::Ready(pulsar::signal::saw_fixed(441_000, 1, 44_100))
    );
    wave.store(WaveType::Triangle, Ordering::Relaxed);
    silence.store(500_000_000, Ordering::Relaxed);
    let want = pulsar::signal::gate_fixed(
        pulsar::signal::triangle_fixed(441_000, 2, 44_100),
        500_000_000,
    );
    assert_eq!(o.next_sample(), SampleStep::Ready(want));
}

#[test]
fn sine_engine_hands_out_the_exact_phase() {
    let mut o = engine_with(WaveType::Sine, 440_000, 750_000_000, 44_100);
    match o.next_sample() {
        SampleStep::SinePhase { ticks, denom, silence } => {
            assert_eq!(denom, 44_100_000);
            assert_eq!(ticks, 440_000); // 440000 * 1 mod 44100000
            assert_eq!(silence, 750_000_000);
        },
        SampleStep::Ready(v) => panic!("expected a sine phase, got {}", v),
    }
}

#[test]
fn noise_engine_stays_in_range_with_mean_near_zero() {
    let mut o = engine_with(WaveType::Noise, 440_000, UNIT as u32, 44_100);
    let rounds: i64 = 100_000;
    let mut sum: i64 = 0;
    for _ in 0..rounds {
        match o.next_sample() {
            SampleStep::Ready(v) => {
                assert!(-UNIT <= v && v < UNIT);
                sum += v;
            },
            SampleStep::SinePhase { .. } => panic!("expected a finished noise sample"),
        }
    }
    let mean = sum / rounds;
    // uniform on [-1, 1): the mean of 100000 draws stays well within 0.02
    assert!(mean.abs() < 20_000_000, "mean {}", mean);
}

#[test]
fn engine_sustains_a_million_pulls() {
    let mut o = engine_with(WaveType::Saw, 440_000, 900_000_000, 44_100);
    for _ in 0..1_000_000usize {
        match o.next_sample() {
            SampleStep::Ready(v) => assert!(-2 * UNIT <= v && v <= UNIT),
            SampleStep::SinePhase { .. } => panic!("expected a finished saw sample"),
        }
    }
}

#[test]
fn starting_twice_keeps_a_single_session() {
    let mut s = SessionState::new();
    assert!(s.should_acquire());
    s.commit_start();
    // a second start request without an intervening stop is a no-op
    assert!(!s.should_acquire());
    assert!(!s.should_acquire());
    let was_active = s.commit_stop();
    assert!(was_active);
}

#[test]
fn stopping_twice_is_a_no_op_on_the_second_call() {
    let mut s = SessionState::new();
    s.commit_start();
    assert!(s.commit_stop());
    assert!(!s.commit_stop());
    assert!(s.should_acquire());
}

#[test]
fn failed_acquisition_leaves_the_session_usable() {
    let mut s = SessionState::new();
    assert!(s.should_acquire());
    // the device was not acquired: nothing is committed, a later start may succeed
    assert!(s.should_acquire());
    s.commit_start();
    assert!(!s.should_acquire());
}
