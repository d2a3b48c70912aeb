use crate::dvg::{
    axis_moved, axis_rate, bit_pulses, dvg_go_strobe, dvg_wf, local_scale, pulse_count, pulses,
    pulses_within, vector_ticks, DvgState,
};
use vstd::arithmetic::div_mod::{
    lemma_div_denominator, lemma_div_multiples_vanish, lemma_fundamental_div_mod,
    lemma_mod_multiples_vanish, lemma_small_mod, lemma_truncate_middle,
};
use vstd::arithmetic::power2::{lemma_pow2_adds, lemma_pow2_pos, lemma_pow2_strictly_increases, lemma_pow2_unfold, pow2};
use vstd::prelude::*;

verus! {

/// Frequency bit `b` of a rate: the bit that the 7497 counter bit `b`
/// gates (bit 0, every second tick, is gated by rate bit 11).
pub open spec fn rate_bit(rate: u16, b: nat) -> nat {
    if b < 12 {
        (rate as nat / pow2((11 - b) as nat)) % 2
    } else {
        0
    }
}

proof fn lemma_pulses_within_agree(rate: u16, t1: nat, t2: nat, k: nat)
    requires
        forall|b: nat| b < k ==> bit_pulses(rate, t1, b) == bit_pulses(rate, t2, b),
    ensures
        pulses_within(rate, t1, k) == pulses_within(rate, t2, k),
    decreases k,
{
    if k > 0 {
        lemma_pulses_within_agree(rate, t1, t2, (k - 1) as nat);
    }
}

proof fn lemma_pulses_within_single(rate: u16, t: nat, k: nat, b0: nat)
    requires
        forall|b: nat| b < k && b != b0 ==> !bit_pulses(rate, t, b),
    ensures
        pulses_within(rate, t, k) == (b0 < k && bit_pulses(rate, t, b0)),
    decreases k,
{
    if k > 0 {
        lemma_pulses_within_single(rate, t, (k - 1) as nat, b0);
    }
}

/// `pow2(b + 1)` divides `pow2(e)` for `b < e`.
proof fn lemma_pow2_divides(b: nat, e: nat)
    requires
        b < e,
    ensures
        pow2(e) == pow2(b + 1) * pow2((e - b - 1) as nat),
{
    lemma_pow2_adds(b + 1, (e - b - 1) as nat);
}

/// The last tick before 2^e fires exactly counter bit `e`.
proof fn lemma_pulse_at_all_ones(rate: u16, e: nat)
    requires
        e < 12,
    ensures
        pulses(rate, (pow2(e) - 1) as nat) == (rate_bit(rate, e) == 1),
{
    let n = pow2(e);
    lemma_pow2_pos(e);
    let t = (n - 1) as nat;
    assert forall|b: nat| b < 12 && b != e implies !bit_pulses(rate, t, b) by {
        lemma_pow2_unfold(b + 1);
        lemma_pow2_pos(b);
        let m = pow2(b + 1);
        if b < e {
            lemma_pow2_divides(b, e);
            let q = pow2((e - b - 1) as nat);
            lemma_pow2_pos((e - b - 1) as nat);
            assert(t == m * (q - 1) + (m - 1)) by (nonlinear_arith)
                requires
                    t == n - 1,
                    n == m * q,
            ;
            lemma_mod_multiples_vanish(q - 1, m - 1, m as int);
            lemma_small_mod((m - 1) as nat, m);
        } else {
            lemma_pow2_strictly_increases(e, b);
            lemma_small_mod(t, m);
        }
    }
    lemma_pulses_within_single(rate, t, 12, e);
    lemma_pow2_unfold(e + 1);
    lemma_small_mod(t, pow2(e + 1));
}

/// Ticks 2^e + u and u pulse alike while u + 1 < 2^e.
proof fn lemma_pulse_shift(rate: u16, e: nat, u: nat)
    requires
        u + 1 < pow2(e),
    ensures
        pulses(rate, pow2(e) + u) == pulses(rate, u),
{
    let n = pow2(e);
    assert forall|b: nat| b < 12 implies bit_pulses(rate, n + u, b) == bit_pulses(rate, u, b) by {
        lemma_pow2_unfold(b + 1);
        lemma_pow2_pos(b);
        let m = pow2(b + 1);
        if b < e {
            lemma_pow2_divides(b, e);
            let q = pow2((e - b - 1) as nat);
            assert(n + u == m * q + u);
            lemma_mod_multiples_vanish(q as int, u as int, m as int);
        } else {
            lemma_pow2_unfold(e + 1);
            if b > e + 1 {
                lemma_pow2_strictly_increases(e + 1, b);
            }
            lemma_small_mod(u, m);
            lemma_small_mod(n + u, m);
        }
    }
    lemma_pulses_within_agree(rate, n + u, u, 12);
}

proof fn lemma_pulse_count_shift(rate: u16, e: nat, u: nat)
    requires
        u + 1 <= pow2(e),
    ensures
        pulse_count(rate, pow2(e) + u) == pulse_count(rate, pow2(e)) + pulse_count(rate, u),
    decreases u,
{
    if u > 0 {
        lemma_pulse_count_shift(rate, e, (u - 1) as nat);
        lemma_pulse_shift(rate, e, (u - 1) as nat);
    }
}

/// Doubling the ticks doubles the pulses, up to the two counter bits that
/// first fire at the ends of the two halves.
proof fn lemma_pulse_count_double(rate: u16, e: nat)
    requires
        e + 1 < 12,
    ensures
        pulse_count(rate, pow2(e + 1)) + rate_bit(rate, e) == 2 * pulse_count(rate, pow2(e))
            + rate_bit(rate, e + 1),
{
    let n = pow2(e);
    lemma_pow2_pos(e);
    lemma_pow2_unfold(e + 1);
    lemma_pulse_count_shift(rate, e, (n - 1) as nat);
    lemma_pulse_at_all_ones(rate, e);
    lemma_pulse_at_all_ones(rate, e + 1);
    assert(pulse_count(rate, n) == pulse_count(rate, (n - 1) as nat) + if pulses(rate, (n - 1) as nat) { 1nat } else { 0nat });
    assert(pulse_count(rate, (2 * n) as nat) == pulse_count(rate, (2 * n - 1) as nat) + if pulses(rate, (2 * n - 1) as nat) { 1nat } else { 0nat });
    assert(n + (n - 1) == 2 * n - 1);
}


proof fn lemma_axis_rate_bit(dv: u16, b: nat)
    requires
        b < 12,
    ensures
        rate_bit(axis_rate(dv), b) == if b <= 9 {
            ((dv % 1024) as nat / pow2((9 - b) as nat)) % 2
        } else {
            0
        },
{
    let m = (dv % 1024) as nat;
    lemma_truncate_middle(dv as int, 4, 1024);
    assert(axis_rate(dv) == 4 * m);
    lemma_pow2_adds(2, (9 - b) as nat);
    vstd::arithmetic::power2::lemma2_to64();
    if b <= 9 {
        let p = pow2((9 - b) as nat);
        lemma_pow2_pos((9 - b) as nat);
        assert(pow2((11 - b) as nat) == 4 * p);
        lemma_div_denominator((4 * m) as int, 4, p as int);
        lemma_div_multiples_vanish(m as int, 4);
    } else if b == 10 {
        assert((4 * m) / 2 == 2 * m);
        assert((2 * m) % 2 == 0);
    } else {
        assert((4 * m) / 1 == 4 * m);
        assert((4 * m) % 2 == 0);
    }
}

/// The vector length for a 10 bit magnitude `m`: `m / 2^(9 - scale)`,
/// rounded half up.
pub open spec fn scaled_length(dv: u16, scale: nat) -> nat {
    let m = (dv % 1024) as nat;
    m / pow2((9 - scale) as nat) + if scale < 9 {
        (m / pow2((8 - scale) as nat)) % 2
    } else {
        0
    }
}

/// Over the 2^(scale + 1) ticks of a vector, the 7497 rate multiplier pair
/// steps the beam by the 10 bit magnitude of the vector register divided by
/// 2^(9 - scale), rounded half up: a full scale vector (scale 9) is traced
/// exactly, and each lower scale halves it.
pub proof fn lemma_vector_length(dv: u16, scale: nat)
    requires
        scale <= 9,
    ensures
        pulse_count(axis_rate(dv), pow2(scale + 1)) == scaled_length(dv, scale),
    decreases scale,
{
    let rate = axis_rate(dv);
    let m = (dv % 1024) as nat;
    vstd::arithmetic::power2::lemma2_to64();
    lemma_axis_rate_bit(dv, scale + 1);
    if scale == 0 {
        lemma_pulse_at_all_ones(rate, 0);
        lemma_pulse_at_all_ones(rate, 1);
        lemma_axis_rate_bit(dv, 0);
        reveal_with_fuel(pulse_count, 3);
        assert(pulse_count(rate, 2) == (if pulses(rate, 0) { 1nat } else { 0nat }) + (if pulses(
            rate,
            1,
        ) {
            1nat
        } else {
            0nat
        }));
        assert(m / 512 < 2);
        assert((m / 512) % 2 == m / 512);
    } else {
        let s = (scale - 1) as nat;
        lemma_vector_length(dv, s);
        lemma_pulse_count_double(rate, scale);
        lemma_axis_rate_bit(dv, scale);
        let p = pow2((9 - scale) as nat);
        lemma_pow2_pos((9 - scale) as nat);
        lemma_pow2_unfold((10 - scale) as nat);
        let x = m / p;
        lemma_div_denominator(m as int, p as int, 2);
        lemma_fundamental_div_mod(x as int, 2);
        assert(m / pow2((9 - s) as nat) == x / 2);
    }
}


/// A go strobe moves the beam, on each axis, by the scaled length of the
/// latched vector register in the direction of its sign bit, wrapping at 12
/// bits, and takes 2^(scale + 1) ticks; a scale above 9 leaves the beam where
/// it is.
pub proof fn lemma_go_strobe_endpoint(s: DvgState, tick_counter: u64)
    requires
        dvg_wf(s),
    ensures
        ({
            let scale = ((s.global_scale + local_scale(s)) % 16) as nat;
            let (t, command) = dvg_go_strobe(s, tick_counter);
            if scale <= 9 {
                &&& t.current_x == axis_moved(s.current_x, s.dvx & 0x400 != 0, scaled_length(s.dvx, scale))
                &&& t.current_y == axis_moved(s.current_y, s.dvy & 0x400 != 0, scaled_length(s.dvy, scale))
                &&& command.duration_ticks == pow2(scale + 1)
            } else {
                &&& t.current_x == s.current_x
                &&& t.current_y == s.current_y
                &&& command.duration_ticks == 0
            }
        }),
{
    let scale = ((s.global_scale + local_scale(s)) % 16) as nat;
    vstd::arithmetic::power2::lemma2_to64();
    if scale <= 9 {
        if scale < 9 {
            lemma_pow2_strictly_increases(scale + 1, 10);
        }
        assert(vector_ticks(s) as nat == pow2(scale + 1));
        lemma_vector_length(s.dvx, scale);
        lemma_vector_length(s.dvy, scale);
    } else {
        assert(pulse_count(axis_rate(s.dvx), 0) == 0);
        assert(pulse_count(axis_rate(s.dvy), 0) == 0);
        lemma_small_mod(s.current_x as nat, 0x1000);
        lemma_small_mod(s.current_y as nat, 0x1000);
    }
}

} // verus!
