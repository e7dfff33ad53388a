//! Pure per-sample waveform mathematics, in exact fixed-point arithmetic.
//!
//! Amplitudes are integers in nano-units: [`UNIT`] stands for an amplitude
//! of one. Frequencies are integers in millihertz. The position inside the
//! current cycle after `index` samples at `rate` samples per second is the
//! exact rational number
//! `phase_ticks_of(freq, index, rate) / cycle_ticks(rate)`,
//! the fractional part of `freq_hz * index / rate`, kept as a numerator so
//! that no precision is lost however large the sample index grows.

use vstd::prelude::*;

verus! {

use vstd::arithmetic::div_mod::lemma_mul_mod_noop_right;
use vstd::arithmetic::div_mod::lemma_mod_division_less_than_divisor;
use vstd::arithmetic::div_mod::lemma_add_mod_noop;
use vstd::arithmetic::div_mod::lemma_mod_twice;
use vstd::arithmetic::div_mod::lemma_mod_self_0;
use vstd::arithmetic::div_mod::lemma_div_is_ordered;
use vstd::arithmetic::div_mod::lemma_div_nonincreasing;
use vstd::arithmetic::div_mod::lemma_div_multiples_vanish;
use vstd::arithmetic::div_mod::lemma_div_by_multiple;
use vstd::arithmetic::div_mod::lemma_multiply_divide_lt;
use vstd::arithmetic::div_mod::lemma_fundamental_div_mod;
use vstd::arithmetic::div_mod::lemma_div_pos_is_pos;
use vstd::arithmetic::mul::lemma_mul_is_distributive_add;
use vstd::arithmetic::mul::lemma_mul_is_associative;
use vstd::arithmetic::mul::lemma_mul_upper_bound;
use vstd::arithmetic::mul::lemma_mul_inequality;

/// One full amplitude (1.0) in nano-units.
pub const UNIT: i64 = 1_000_000_000;

/// The denominator of the phase fraction: with frequencies in millihertz,
/// one cycle spans `1000 * rate` ticks.
pub open spec fn cycle_ticks(rate: int) -> int {
    1000 * rate
}

/// Position within the current cycle, as a numerator over
/// [`cycle_ticks`]: exactly the fractional part of `freq_hz * index / rate`.
pub open spec fn phase_ticks_of(freq_mhz: int, index: int, rate: int) -> int {
    (freq_mhz * index) % cycle_ticks(rate)
}

/// Raw saw amplitude in nano-units: `2 * frac(f * n / r) - 1`, a linear
/// ramp from -1 up to 1 once per cycle, computed exactly.
pub open spec fn saw_of(freq_mhz: int, index: int, rate: int) -> int {
    2 * (UNIT as int) * phase_ticks_of(freq_mhz, index, rate) / cycle_ticks(rate) - (UNIT as int)
}

/// Raw triangle amplitude in nano-units, as the closed-form triangle with
/// the phase alignment of `(2/pi) * asin(sin(2 * pi * frac))`: rising 0..1
/// over the first quarter cycle, falling 1..-1 over the middle half, and
/// rising -1..0 over the last quarter.
pub open spec fn triangle_of(freq_mhz: int, index: int, rate: int) -> int {
    let d = cycle_ticks(rate);
    let t = phase_ticks_of(freq_mhz, index, rate);
    if 4 * t <= d {
        4 * (UNIT as int) * t / d
    } else if 4 * t <= 3 * d {
        2 * (UNIT as int) - 4 * (UNIT as int) * t / d
    } else {
        4 * (UNIT as int) * t / d - 4 * (UNIT as int)
    }
}

/// Raw noise amplitude in nano-units from one 32-bit draw: the draws map
/// uniformly onto an evenly spaced grid across [-1, 1).
pub open spec fn noise_of(entropy: u32) -> int {
    (entropy as int) * (2 * (UNIT as int)) / 0x1_0000_0000 - (UNIT as int)
}

/// Integer division truncating toward zero, as machine division does.
pub open spec fn div_toward_zero(a: int, b: int) -> int {
    if a >= 0 {
        a / b
    } else {
        -((-a) / b)
    }
}

/// The silence gate in nano-units: `scaled = v / s`; a scaled value above
/// one becomes silence, anything else — negative excursions included, an
/// asymmetry kept deliberately — passes through as `scaled`. A ratio of
/// zero (or below) means fully silent, rather than a division by zero.
pub open spec fn gate_of(v: int, s: int) -> int {
    if s <= 0 {
        0
    } else {
        let scaled = div_toward_zero(v * (UNIT as int), s);
        if scaled > (UNIT as int) {
            0
        } else {
            scaled
        }
    }
}

pub fn phase_ticks(freq_mhz: u32, index: usize, rate: u32) -> (t: u64)
    requires
        rate > 0,
    ensures
        t == phase_ticks_of(freq_mhz as int, index as int, rate as int),
        t < 1000 * (rate as u64),
{
    let den: u128 = 1000 * (rate as u128);
    let reduced: u128 = (index as u128) % den;
    proof {
        let d = cycle_ticks(rate as int);
        lemma_mod_division_less_than_divisor(index as int, d);
        lemma_mul_upper_bound(freq_mhz as int, 0xffff_ffff, reduced as int, d - 1);
    }
    let ticks: u128 = ((freq_mhz as u128) * reduced) % den;
    proof {
        let d = cycle_ticks(rate as int);
        lemma_mul_mod_noop_right(freq_mhz as int, index as int, d);
        lemma_mod_division_less_than_divisor((freq_mhz as int) * (reduced as int), d);
    }
    ticks as u64
}

pub fn saw_fixed(freq_mhz: u32, index: usize, rate: u32) -> (v: i64)
    requires
        rate > 0,
    ensures
        v == saw_of(freq_mhz as int, index as int, rate as int),
        -UNIT <= v < UNIT,
{
    let den: u128 = 1000 * (rate as u128);
    let t: u64 = phase_ticks(freq_mhz, index, rate);
    let scaled: u128 = 2 * (UNIT as u128) * (t as u128) / den;
    proof {
        let d = cycle_ticks(rate as int);
        lemma_div_pos_is_pos(2 * (UNIT as int) * (t as int), d);
        lemma_multiply_divide_lt(2 * (UNIT as int) * (t as int), d, 2 * (UNIT as int));
    }
    (scaled as i64) - UNIT
}

pub fn triangle_fixed(freq_mhz: u32, index: usize, rate: u32) -> (v: i64)
    requires
        rate > 0,
    ensures
        v == triangle_of(freq_mhz as int, index as int, rate as int),
        -UNIT <= v <= UNIT,
{
    let den: u128 = 1000 * (rate as u128);
    let t: u64 = phase_ticks(freq_mhz, index, rate);
    proof {
        lemma_mul_upper_bound(4 * (UNIT as int), 4 * (UNIT as int), t as int, 0xffff_ffff_ffff_ffff);
    }
    let q: u128 = 4 * (UNIT as u128) * (t as u128) / den;
    proof {
        let d = cycle_ticks(rate as int);
        let u = UNIT as int;
        lemma_div_pos_is_pos(4 * u * (t as int), d);
        lemma_multiply_divide_lt(4 * u * (t as int), d, 4 * u);
    }
    if 4 * (t as u128) <= den {
        proof {
            let d = cycle_ticks(rate as int);
            let u = UNIT as int;
            assert(4 * u * (t as int) <= u * d) by (nonlinear_arith)
                requires
                    4 * (t as int) <= d,
                    u >= 0,
            ;
            lemma_div_is_ordered(4 * u * (t as int), u * d, d);
            lemma_div_multiples_vanish(u, d);
            assert(q <= UNIT as u128);
        }
        q as i64
    } else if 4 * (t as u128) <= 3 * den {
        proof {
            let d = cycle_ticks(rate as int);
            let u = UNIT as int;
            assert(u * d <= 4 * u * (t as int) && 4 * u * (t as int) <= 3 * u * d)
                by (nonlinear_arith)
                requires
                    d <= 4 * (t as int),
                    4 * (t as int) <= 3 * d,
                    u >= 0,
            ;
            lemma_div_is_ordered(u * d, 4 * u * (t as int), d);
            lemma_div_multiples_vanish(u, d);
            assert(UNIT as u128 <= q);
            lemma_div_is_ordered(4 * u * (t as int), 3 * u * d, d);
            lemma_div_multiples_vanish(3 * u, d);
            assert(q <= 3 * (UNIT as u128));
        }
        2 * UNIT - (q as i64)
    } else {
        proof {
            let d = cycle_ticks(rate as int);
            let u = UNIT as int;
            assert(3 * u * d <= 4 * u * (t as int)) by (nonlinear_arith)
                requires
                    3 * d <= 4 * (t as int),
                    u >= 0,
            ;
            lemma_div_is_ordered(3 * u * d, 4 * u * (t as int), d);
            lemma_div_multiples_vanish(3 * u, d);
            assert(3 * (UNIT as u128) <= q);
        }
        (q as i64) - 4 * UNIT
    }
}

pub fn noise_fixed(entropy: u32) -> (v: i64)
    ensures
        v == noise_of(entropy),
        -UNIT <= v < UNIT,
{
    proof {
        lemma_mul_inequality(entropy as int, 0xffff_ffff, 2 * (UNIT as int));
    }
    let scaled: u64 = ((entropy as u64) * (2 * (UNIT as u64))) / 0x1_0000_0000;
    proof {
        lemma_div_pos_is_pos((entropy as int) * (2 * (UNIT as int)), 0x1_0000_0000);
        lemma_div_is_ordered(
            (entropy as int) * (2 * (UNIT as int)),
            0xffff_ffff * (2 * (UNIT as int)),
            0x1_0000_0000,
        );
    }
    (scaled as i64) - UNIT
}

pub fn gate_fixed(v: i64, silence: u32) -> (r: i64)
    requires
        -UNIT <= v <= UNIT,
    ensures
        r == gate_of(v as int, silence as int),
{
    if silence == 0 {
        0
    } else if v >= 0 {
        proof {
            lemma_mul_upper_bound(v as int, UNIT as int, UNIT as int, UNIT as int);
        }
        let scaled: u128 = (v as u128) * (UNIT as u128) / (silence as u128);
        proof {
            lemma_div_pos_is_pos((v as int) * (UNIT as int), silence as int);
            lemma_div_nonincreasing((v as int) * (UNIT as int), silence as int);
        }
        if scaled > (UNIT as u128) {
            0
        } else {
            scaled as i64
        }
    } else {
        let magnitude: i64 = -v;
        proof {
            lemma_mul_upper_bound(magnitude as int, UNIT as int, UNIT as int, UNIT as int);
        }
        let scaled: u128 = (magnitude as u128) * (UNIT as u128) / (silence as u128);
        proof {
            lemma_div_pos_is_pos((magnitude as int) * (UNIT as int), silence as int);
            lemma_div_nonincreasing((magnitude as int) * (UNIT as int), silence as int);
        }
        -(scaled as i64)
    }
}

/// Law (periodicity of the phase): advancing by `period` samples leaves the
/// phase unchanged whenever `freq * period` is a whole number of cycles.
/// Every waveform that is a function of the phase repeats with it.
pub proof fn lemma_phase_periodic(freq_mhz: int, index: int, period: int, rate: int)
    requires
        rate > 0,
        freq_mhz >= 0,
        index >= 0,
        period >= 0,
        (freq_mhz * period) % cycle_ticks(rate) == 0,
    ensures
        phase_ticks_of(freq_mhz, index + period, rate) == phase_ticks_of(freq_mhz, index, rate),
{
    let d = cycle_ticks(rate);
    lemma_mul_is_distributive_add(freq_mhz, index, period);
    lemma_add_mod_noop(freq_mhz * index, freq_mhz * period, d);
    lemma_mod_twice(freq_mhz * index, d);
}

/// Law (saw periodicity): the saw repeats whenever `freq * period` is a
/// whole number of cycles.
pub proof fn lemma_saw_periodic(freq_mhz: int, index: int, period: int, rate: int)
    requires
        rate > 0,
        freq_mhz >= 0,
        index >= 0,
        period >= 0,
        (freq_mhz * period) % cycle_ticks(rate) == 0,
    ensures
        saw_of(freq_mhz, index + period, rate) == saw_of(freq_mhz, index, rate),
{
    lemma_phase_periodic(freq_mhz, index, period, rate);
}

/// Law (triangle periodicity): likewise for the triangle.
pub proof fn lemma_triangle_periodic(freq_mhz: int, index: int, period: int, rate: int)
    requires
        rate > 0,
        freq_mhz >= 0,
        index >= 0,
        period >= 0,
        (freq_mhz * period) % cycle_ticks(rate) == 0,
    ensures
        triangle_of(freq_mhz, index + period, rate) == triangle_of(freq_mhz, index, rate),
{
    lemma_phase_periodic(freq_mhz, index, period, rate);
}

/// Law (the saw's period is `rate / freq` samples): for a frequency of
/// `freq_hz` hertz that divides the rate, the saw repeats after exactly
/// `rate / freq_hz` samples.
pub proof fn lemma_saw_period_rate_over_freq(freq_hz: int, index: int, rate: int)
    requires
        rate > 0,
        freq_hz > 0,
        index >= 0,
        rate % freq_hz == 0,
    ensures
        saw_of(1000 * freq_hz, index + rate / freq_hz, rate) == saw_of(
            1000 * freq_hz,
            index,
            rate,
        ),
{
    let p = rate / freq_hz;
    lemma_div_pos_is_pos(rate, freq_hz);
    lemma_fundamental_div_mod(rate, freq_hz);
    assert(rate == freq_hz * p);
    lemma_mul_is_associative(1000, freq_hz, p);
    assert((1000 * freq_hz) * p == 1000 * rate);
    lemma_mod_self_0(1000 * rate);
    lemma_saw_periodic(1000 * freq_hz, index, p, rate);
}

/// The phase at sample index 0 is 0; in particular a sine's sample at
/// index 0 is `sin(0) == 0`.
pub proof fn lemma_phase_starts_at_zero(freq_mhz: int, rate: int)
    requires
        rate > 0,
    ensures
        phase_ticks_of(freq_mhz, 0, rate) == 0,
{
    let d = cycle_ticks(rate);
    assert(freq_mhz * 0 == 0) by (nonlinear_arith);
    lemma_mod_self_0(d);
    assert(0int % d == 0) by {
        lemma_mod_division_less_than_divisor(0, d);
        lemma_mod_twice(0, d);
        assert((d % d) % d == d % d);
    };
}

/// Law: with the ratio at one, gating changes nothing — every amplitude
/// in [-1, 1] comes back as it went in.
pub proof fn lemma_gate_identity(v: int)
    requires
        -(UNIT as int) <= v <= (UNIT as int),
    ensures
        gate_of(v, UNIT as int) == v,
{
    let u = UNIT as int;
    if v >= 0 {
        lemma_div_by_multiple(v, u);
    } else {
        lemma_div_by_multiple(-v, u);
    }
}

/// Law (gate clipping at a ratio of one half): raw amplitudes above 1/2 are
/// silenced; raw amplitudes within [-1/2, 1/2] come out exactly doubled.
pub proof fn lemma_gate_half(v: int)
    requires
        -(UNIT as int) <= v <= (UNIT as int),
    ensures
        v > (UNIT as int) / 2 ==> gate_of(v, (UNIT as int) / 2) == 0,
        -(UNIT as int) / 2 <= v <= (UNIT as int) / 2 ==> gate_of(v, (UNIT as int) / 2) == 2 * v,
{
    let u = UNIT as int;
    let h = u / 2;
    assert(u == 2 * h);
    assert(v * u == (2 * v) * h) by (nonlinear_arith)
        requires
            u == 2 * h,
    ;
    if v > h {
        lemma_div_by_multiple(2 * v, h);
    } else if -h <= v <= h {
        if v >= 0 {
            lemma_div_by_multiple(2 * v, h);
        } else {
            assert(-(v * u) == (-(2 * v)) * h) by (nonlinear_arith)
                requires
                    u == 2 * h,
            ;
            lemma_div_by_multiple(-(2 * v), h);
        }
    }
}

} // verus!
