//! The wavetable oscillator: a fixed-length periodic amplitude table,
//! built once from harmonic weights, sampled by fractional phase with
//! linear interpolation.
//!
//! Amplitudes are fixed-point `i64` values with `AMP_SCALE` as 1.0;
//! phase is fixed-point with `PHASE_SCALE` as one full cycle, so phase
//! arithmetic wraps exactly and periodicity is literal.
use vstd::prelude::*;

verus! {

use vstd::arithmetic::div_mod::{
    lemma_mod_add_multiples_vanish,
    lemma_mod_bound,
};
use vstd::arithmetic::mul::lemma_mul_is_commutative;
use crate::numeric::{
    div_trunc,
    div_trunc_i128,
    lemma_div_trunc_bounded,
    lemma_sum_u64_nonneg,
    lemma_sum_u64_take_le,
    lemma_sum_u64_take_step,
    sum_u64,
};

/// Number of entries in a wavetable; a power of two, trading
/// interpolation error against memory.
pub const WAVETABLE_SIZE: usize = 1024;

/// Fixed-point unit for amplitudes: 1.0 of signal.
pub const AMP_SCALE: i64 = 32768;

/// Fixed-point unit for oscillator phase: one full cycle.
pub const PHASE_SCALE: u64 = 0x1_0000_0000;

/// Phase span of one table entry: `PHASE_SCALE / WAVETABLE_SIZE`.
pub const PHASE_STEP: u64 = 0x40_0000;

/// A periodic waveform: one cycle of amplitudes, every entry within
/// `[-AMP_SCALE, AMP_SCALE]`.
pub struct Wavetable {
    pub table: Vec<i64>,
}

impl Wavetable {
    pub open spec fn wf(self) -> bool {
        &&& self.table@.len() == WAVETABLE_SIZE
        &&& forall|i: int|
            0 <= i < self.table@.len() ==> -AMP_SCALE <= #[trigger] self.table@[i] <= AMP_SCALE
    }

    /// Wraps a raw amplitude table, accepting it exactly when it has
    /// `WAVETABLE_SIZE` entries, all within one unit of amplitude.
    pub fn new(entries: Vec<i64>) -> (r: Option<Wavetable>)
        ensures
            r.is_some() <==> (entries@.len() == WAVETABLE_SIZE && forall|i: int|
                0 <= i < entries@.len() ==> -AMP_SCALE <= #[trigger] entries@[i] <= AMP_SCALE),
            r.is_some() ==> r.unwrap().table@ == entries@ && r.unwrap().wf(),
    {
        if entries.len() != WAVETABLE_SIZE {
            return None;
        }
        let mut i: usize = 0;
        while i < entries.len()
            invariant
                i <= entries@.len(),
                forall|j: int| 0 <= j < i ==> -AMP_SCALE <= #[trigger] entries@[j] <= AMP_SCALE,
            decreases entries@.len() - i,
        {
            let e = entries[i];
            if e < -AMP_SCALE || e > AMP_SCALE {
                return None;
            }
            i = i + 1;
        }
        Some(Wavetable { table: entries })
    }
}

/// The interpolated sample at `phase`: phase is reduced modulo one
/// cycle, split into a table index and a fractional part, and the two
/// neighbouring entries are mixed in proportion.
pub open spec fn sample_spec(t: Seq<i64>, phase: int) -> int {
    let p = phase % (PHASE_SCALE as int);
    let ix = p / (PHASE_STEP as int);
    let sub = p % (PHASE_STEP as int);
    let a = t[ix] as int;
    let b = t[(ix + 1) % (WAVETABLE_SIZE as int)] as int;
    div_trunc(a * (PHASE_STEP - sub) + b * sub, PHASE_STEP as int)
}

/// Sampling is periodic in the phase: one full cycle later, the same
/// value.
pub proof fn lemma_sample_periodic(t: Seq<i64>, phase: int)
    ensures
        sample_spec(t, phase + PHASE_SCALE) == sample_spec(t, phase),
{
    lemma_mod_add_multiples_vanish(phase, PHASE_SCALE as int);
}

/// A table bounded by one unit of amplitude yields samples bounded by
/// one unit of amplitude, whatever the phase.
pub proof fn lemma_sample_bounded(t: Seq<i64>, phase: int)
    requires
        t.len() == WAVETABLE_SIZE,
        forall|i: int| 0 <= i < t.len() ==> -AMP_SCALE <= #[trigger] t[i] <= AMP_SCALE,
    ensures
        -AMP_SCALE <= sample_spec(t, phase) <= AMP_SCALE,
{
    let p = phase % (PHASE_SCALE as int);
    lemma_mod_bound(phase, PHASE_SCALE as int);
    let ix = p / (PHASE_STEP as int);
    let sub = p % (PHASE_STEP as int);
    lemma_mod_bound(p, PHASE_STEP as int);
    assert(0 <= ix < WAVETABLE_SIZE) by (nonlinear_arith)
        requires
            0 <= p < PHASE_SCALE,
            ix == p / (PHASE_STEP as int),
            PHASE_SCALE == 0x1_0000_0000,
            PHASE_STEP == 0x40_0000,
    ;
    let a = t[ix] as int;
    let b = t[(ix + 1) % (WAVETABLE_SIZE as int)] as int;
    assert(0 <= (ix + 1) % (WAVETABLE_SIZE as int) < WAVETABLE_SIZE) by (nonlinear_arith)
        requires
            0 <= ix < WAVETABLE_SIZE,
            WAVETABLE_SIZE == 1024,
    ;
    let num = a * (PHASE_STEP - sub) + b * sub;
    assert(-(AMP_SCALE * PHASE_STEP) <= num <= AMP_SCALE * PHASE_STEP) by (nonlinear_arith)
        requires
            num == a * (PHASE_STEP - sub) + b * sub,
            -AMP_SCALE <= a <= AMP_SCALE,
            -AMP_SCALE <= b <= AMP_SCALE,
            0 <= sub < PHASE_STEP,
    ;
    lemma_div_trunc_bounded(num, PHASE_STEP as int, AMP_SCALE as int);
}

/// Interpolated lookup of `wavetable` at a fixed-point `phase`
/// (`PHASE_SCALE` is one cycle; whole cycles wrap away).
pub fn wavetable_lerp_sample(wavetable: &Wavetable, phase: u64) -> (r: i64)
    requires
        wavetable.wf(),
    ensures
        r == sample_spec(wavetable.table@, phase as int),
        -AMP_SCALE <= r <= AMP_SCALE,
{
    proof {
        lemma_sample_bounded(wavetable.table@, phase as int);
    }
    let p: u64 = phase % PHASE_SCALE;
    let ix_w: u64 = p / PHASE_STEP;
    let sub: u64 = p % PHASE_STEP;
    proof {
        assert(ix_w < 1024) by (nonlinear_arith)
            requires
                p < PHASE_SCALE,
                ix_w == p as int / (PHASE_STEP as int),
                PHASE_SCALE == 0x1_0000_0000,
                PHASE_STEP == 0x40_0000,
        ;
    }
    let ix: usize = ix_w as usize;
    let a: i64 = wavetable.table[ix];
    let b: i64 = wavetable.table[(ix + 1) % WAVETABLE_SIZE];
    proof {
        assert(-0x20_0000_0000 <= (a as int) * ((PHASE_STEP - sub) as int) <= 0x20_0000_0000) by (
        nonlinear_arith)
            requires
                -AMP_SCALE <= a <= AMP_SCALE,
                0 <= sub < PHASE_STEP,
                AMP_SCALE == 32768,
                PHASE_STEP == 0x40_0000,
        ;
        assert(-0x20_0000_0000 <= (b as int) * (sub as int) <= 0x20_0000_0000) by (
        nonlinear_arith)
            requires
                -AMP_SCALE <= b <= AMP_SCALE,
                0 <= sub < PHASE_STEP,
                AMP_SCALE == 32768,
                PHASE_STEP == 0x40_0000,
        ;
    }
    let na: i128 = (a as i128) * ((PHASE_STEP - sub) as i128);
    let nb: i128 = (b as i128) * (sub as i128);
    let num: i128 = na + nb;
    let r128: i128 = div_trunc_i128(num, PHASE_STEP as i128);
    proof {
        assert(-(AMP_SCALE * PHASE_STEP) <= num <= AMP_SCALE * PHASE_STEP) by (nonlinear_arith)
            requires
                num == (a as int) * (PHASE_STEP - sub) + (b as int) * sub,
                -AMP_SCALE <= a <= AMP_SCALE,
                -AMP_SCALE <= b <= AMP_SCALE,
                0 <= sub < PHASE_STEP,
        ;
        lemma_div_trunc_bounded(num as int, PHASE_STEP as int, AMP_SCALE as int);
    }
    r128 as i64
}

/// The harmonic-weighted sum at table entry `i` over the first `k`
/// harmonics: harmonic `j` (1-based frequency multiple) reads the sine
/// table at `i * j`, wrapped, scaled by its weight.
pub open spec fn weighted_sum(h: Seq<u64>, s: Seq<i64>, i: int, k: int) -> int
    decreases k,
{
    if k <= 0 {
        0
    } else {
        weighted_sum(h, s, i, k - 1) + h[k - 1] * s[(i * k) % (WAVETABLE_SIZE as int)]
    }
}

/// Entry `i` of a wavetable built from weights `h` over sine table `s`:
/// the weighted sum of the harmonics' sine values, normalized by the
/// total weight so that unit-bounded sines give unit-bounded entries.
pub open spec fn wavetable_entry(h: Seq<u64>, s: Seq<i64>, i: int) -> int {
    div_trunc(weighted_sum(h, s, i, h.len() as int), sum_u64(h))
}

/// The weighted sum over the first `k` harmonics is bounded by
/// `AMP_SCALE` times the sum of the first `k` weights.
proof fn lemma_weighted_sum_bounded(h: Seq<u64>, s: Seq<i64>, i: int, k: int)
    requires
        0 <= k <= h.len(),
        s.len() == WAVETABLE_SIZE,
        forall|j: int| 0 <= j < s.len() ==> -AMP_SCALE <= #[trigger] s[j] <= AMP_SCALE,
    ensures
        -(sum_u64(h.take(k)) * AMP_SCALE) <= weighted_sum(h, s, i, k) <= sum_u64(h.take(k))
            * AMP_SCALE,
    decreases k,
{
    if k <= 0 {
        assert(h.take(0) =~= Seq::<u64>::empty());
    } else {
        lemma_weighted_sum_bounded(h, s, i, k - 1);
        lemma_sum_u64_take_step(h, k - 1);
        lemma_sum_u64_nonneg(h.take(k - 1));
        let six = (i * k) % (WAVETABLE_SIZE as int);
        lemma_mod_bound(i * k, WAVETABLE_SIZE as int);
        let prev = weighted_sum(h, s, i, k - 1);
        let w = h[k - 1] as int;
        let sv = s[six] as int;
        assert(-(sum_u64(h.take(k)) * AMP_SCALE) <= prev + w * sv <= sum_u64(h.take(k))
            * AMP_SCALE) by (nonlinear_arith)
            requires
                -(sum_u64(h.take(k - 1)) * AMP_SCALE) <= prev <= sum_u64(h.take(k - 1))
                    * AMP_SCALE,
                sum_u64(h.take(k)) == sum_u64(h.take(k - 1)) + w,
                0 <= sum_u64(h.take(k - 1)),
                0 <= w,
                -AMP_SCALE <= sv <= AMP_SCALE,
        ;
    }
}

/// Builds a wavetable from harmonic amplitude weights, reading one
/// cycle of a unit sine from `sine`. Succeeds exactly when there is at
/// least one weight and the weights' sum is positive and representable;
/// each entry is then the normalized weighted sum `wavetable_entry`,
/// so the result is again bounded by one unit of amplitude.
pub fn wavetable_from_harmonics(harmonics: &Vec<u64>, sine: &Wavetable) -> (r: Option<Wavetable>)
    requires
        sine.wf(),
    ensures
        r.is_some() <==> (harmonics@.len() >= 1 && 0 < sum_u64(harmonics@) <= u64::MAX),
        r.is_some() ==> {
            let t = r.unwrap();
            &&& t.wf()
            &&& forall|i: int|
                0 <= i < WAVETABLE_SIZE ==> #[trigger] t.table@[i] == wavetable_entry(
                    harmonics@,
                    sine.table@,
                    i,
                )
        },
    {
        if harmonics.len() == 0 {
            return None;
        }
        let mut wsum: u64 = 0;
        let mut i: usize = 0;
        while i < harmonics.len()
            invariant
                i <= harmonics@.len(),
                wsum == sum_u64(harmonics@.take(i as int)),
            decreases harmonics@.len() - i,
        {
            proof {
                lemma_sum_u64_take_step(harmonics@, i as int);
            }
            match wsum.checked_add(harmonics[i]) {
                Some(s) => {
                    wsum = s;
                },
                None => {
                    proof {
                        lemma_sum_u64_take_le(harmonics@, i as int + 1);
                    }
                    return None;
                },
            }
            i = i + 1;
        }
        proof {
            assert(harmonics@.take(harmonics@.len() as int) =~= harmonics@);
        }
        if wsum == 0 {
            return None;
        }
        let mut table: Vec<i64> = Vec::new();
        let mut ti: usize = 0;
        while ti < WAVETABLE_SIZE
            invariant
                ti <= WAVETABLE_SIZE,
                sine.wf(),
                harmonics@.len() >= 1,
                wsum == sum_u64(harmonics@),
                0 < wsum,
                table@.len() == ti,
                forall|j: int|
                    0 <= j < ti ==> #[trigger] table@[j] == wavetable_entry(
                        harmonics@,
                        sine.table@,
                        j,
                    ),
                forall|j: int| 0 <= j < ti ==> -AMP_SCALE <= #[trigger] table@[j] <= AMP_SCALE,
            decreases WAVETABLE_SIZE - ti,
        {
            let mut acc: i128 = 0;
            let mut k: usize = 0;
            while k < harmonics.len()
                invariant
                    k <= harmonics@.len(),
                    ti < WAVETABLE_SIZE,
                    sine.wf(),
                    wsum == sum_u64(harmonics@),
                    0 < wsum,
                    acc == weighted_sum(harmonics@, sine.table@, ti as int, k as int),
                    -(sum_u64(harmonics@.take(k as int)) * AMP_SCALE) <= acc <= sum_u64(
                        harmonics@.take(k as int),
                    ) * AMP_SCALE,
                decreases harmonics@.len() - k,
            {
                proof {
                    assert(0 <= (ti as int) * ((k as int) + 1) < 0x8_0000_0000_0000_0000_0000)
                        by (nonlinear_arith)
                        requires
                            0 <= ti < 1024,
                            0 <= k <= 0xffff_ffff_ffff_ffff,
                    ;
                }
                let six_wide: u128 = ((ti as u128) * ((k as u128) + 1)) % (WAVETABLE_SIZE as u128);
                let six: usize = six_wide as usize;
                let w: u64 = harmonics[k];
                let sv: i64 = sine.table[six];
                proof {
                    assert(six_wide == ((ti as int) * (k as int + 1)) % (WAVETABLE_SIZE as int));
                    lemma_mod_bound((ti as int) * (k as int + 1), WAVETABLE_SIZE as int);
                    assert((-((w as int) * (AMP_SCALE as int)) <= (w as int) * (sv as int) <= (
                    w as int) * (AMP_SCALE as int)) && (-0x8000_0000_0000_0000_0000 <= (w as int)
                        * (sv as int) <= 0x8000_0000_0000_0000_0000)) by (nonlinear_arith)
                        requires
                            0 <= w <= 0xffff_ffff_ffff_ffff,
                            -AMP_SCALE <= sv <= AMP_SCALE,
                            AMP_SCALE == 32768,
                    ;
                    lemma_sum_u64_take_step(harmonics@, k as int);
                    lemma_sum_u64_take_le(harmonics@, k as int);
                    lemma_sum_u64_take_le(harmonics@, k as int + 1);
                    lemma_sum_u64_nonneg(harmonics@.take(k as int));
                    assert(sum_u64(harmonics@.take(k as int)) * AMP_SCALE
                        <= 0x8000_0000_0000_0000_0000) by (nonlinear_arith)
                        requires
                            0 <= sum_u64(harmonics@.take(k as int)) <= 0xffff_ffff_ffff_ffff,
                            AMP_SCALE == 32768,
                    ;
                    assert(-(sum_u64(harmonics@.take(k as int + 1)) * AMP_SCALE) <= acc + (w as int)
                        * (sv as int) <= sum_u64(harmonics@.take(k as int + 1)) * AMP_SCALE) by (
                    nonlinear_arith)
                        requires
                            -(sum_u64(harmonics@.take(k as int)) * AMP_SCALE) <= acc <= sum_u64(
                                harmonics@.take(k as int),
                            ) * AMP_SCALE,
                            sum_u64(harmonics@.take(k as int + 1)) == sum_u64(
                                harmonics@.take(k as int),
                            ) + w,
                            0 <= sum_u64(harmonics@.take(k as int)),
                            -((w as int) * (AMP_SCALE as int)) <= (w as int) * (sv as int) <= (
                            w as int) * (AMP_SCALE as int),
                    ;
                    assert(sum_u64(harmonics@.take(k as int + 1)) * AMP_SCALE
                        <= 0x8000_0000_0000_0000_0000) by (nonlinear_arith)
                        requires
                            0 <= sum_u64(harmonics@.take(k as int + 1)) <= 0xffff_ffff_ffff_ffff,
                            AMP_SCALE == 32768,
                    ;
                }
                acc = acc + (w as i128) * (sv as i128);
                k = k + 1;
            }
            proof {
                assert(harmonics@.take(harmonics@.len() as int) =~= harmonics@);
                assert(sum_u64(harmonics@) * AMP_SCALE <= 0x8000_0000_0000_0000_0000) by (
                nonlinear_arith)
                    requires
                        0 <= sum_u64(harmonics@) <= 0xffff_ffff_ffff_ffff,
                        AMP_SCALE == 32768,
                ;
            }
            let e: i128 = div_trunc_i128(acc, wsum as i128);
            proof {
                lemma_mul_is_commutative(sum_u64(harmonics@), AMP_SCALE as int);
                lemma_div_trunc_bounded(acc as int, wsum as int, AMP_SCALE as int);
            }
            table.push(e as i64);
            ti = ti + 1;
        }
        Some(Wavetable { table })
    }

} // verus!
