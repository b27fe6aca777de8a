//! The sample-accurate clock: maps a count of rendered samples to
//! absolute time, stretchable relative time, and musical beat position.
//!
//! Times are unsigned fixed-point values scaled by `TIME_SCALE` (one
//! second) and beat positions by `BEAT_SCALE` (one tick), so every step
//! is exact integer arithmetic.
use vstd::prelude::*;

verus! {

use crate::rhythm::DURATION_MULTIPLIER;

/// Fixed-point unit for seconds: times are counted in 1/TIME_SCALE s.
pub const TIME_SCALE: u64 = 0x1_0000_0000;

/// Fixed-point unit for beat positions: 1/BEAT_SCALE of a tick.
pub const BEAT_SCALE: u64 = 0x1_0000;

/// Largest accepted tempo, in beats (quarter notes) per minute.
pub const BPM_MAX: u64 = 1_000_000;

/// How far the beat position moves during one sample at tempo `bpm`,
/// in `BEAT_SCALE` units: `ticks-per-quarter * dt_rel * bpm / 60`,
/// rescaled from seconds to beat units, rounded down.
pub open spec fn beat_delta(dt_rel: int, bpm: int) -> int {
    (DURATION_MULTIPLIER * dt_rel * bpm * BEAT_SCALE) / (60 * TIME_SCALE)
}

/// Computes `beat_delta` exactly, in 128-bit arithmetic.
fn beat_delta_wide(dt_rel: u64, bpm: u64) -> (r: u128)
    requires
        bpm <= BPM_MAX,
    ensures
        r == beat_delta(dt_rel as int, bpm as int),
        r < 0x20_0000_0000_0000_0000,
{
    proof {
        assert((DURATION_MULTIPLIER as int) * (dt_rel as int) <= 120 * (u64::MAX as int)) by (
        nonlinear_arith)
            requires
                DURATION_MULTIPLIER == 120,
                dt_rel <= u64::MAX,
        ;
    }
    let n1: u128 = (DURATION_MULTIPLIER as u128) * (dt_rel as u128);
    proof {
        assert((n1 as int) * (bpm as int) <= 120 * (u64::MAX as int) * (BPM_MAX as int)) by (
        nonlinear_arith)
            requires
                n1 <= 120 * (u64::MAX as int),
                bpm <= BPM_MAX,
        ;
    }
    let n2: u128 = n1 * (bpm as u128);
    proof {
        assert((n2 as int) * (BEAT_SCALE as int) <= 120 * (u64::MAX as int) * (BPM_MAX as int)
            * 0x1_0000) by (nonlinear_arith)
            requires
                n2 <= 120 * (u64::MAX as int) * (BPM_MAX as int),
                BEAT_SCALE == 0x1_0000,
        ;
    }
    let n3: u128 = n2 * (BEAT_SCALE as u128);
    let r: u128 = n3 / ((60 * TIME_SCALE) as u128);
    proof {
        vstd::arithmetic::div_mod::lemma_div_is_ordered(
            n3 as int,
            120 * (u64::MAX as int) * (BPM_MAX as int) * 0x1_0000,
            (60 * TIME_SCALE) as int,
        );
    }
    r
}

/// The render clock. `dt_abs` is the length of one sample in real time;
/// `dt_rel` is the same stretched by the playback speed; `beat` is the
/// musical position in `BEAT_SCALE` fractions of a tick.
#[derive(Clone, Copy, Debug)]
pub struct Timing {
    pub sample_rate: u64,
    pub sample_num: u64,
    pub dt_abs: u64,
    pub t_abs: u64,
    pub playback_speed: u64,
    pub dt_rel: u64,
    pub t_rel: u64,
    pub beat: u64,
}

impl Timing {
    /// One sample never lasts longer than one second.
    pub open spec fn wf(self) -> bool {
        self.dt_abs <= TIME_SCALE
    }

    /// A clock at the start of playback. `playback_speed` is scaled by
    /// `TIME_SCALE`, so `TIME_SCALE` itself means unstretched time.
    pub fn new(sample_rate: u64, playback_speed: u64) -> (r: Timing)
        requires
            sample_rate >= 1,
        ensures
            r.wf(),
            r.sample_rate == sample_rate,
            r.playback_speed == playback_speed,
            r.sample_num == 0,
            r.t_abs == 0,
            r.t_rel == 0,
            r.beat == 0,
            r.dt_abs == TIME_SCALE / sample_rate,
            r.dt_rel == (TIME_SCALE as int / sample_rate as int) * playback_speed as int
                / TIME_SCALE as int,
    {
        let dt_abs: u64 = TIME_SCALE / sample_rate;
        proof {
            assert(dt_abs <= TIME_SCALE);
            assert((dt_abs as int) * (playback_speed as int) <= (TIME_SCALE as int) * (
            u64::MAX as int)) by (nonlinear_arith)
                requires
                    dt_abs <= TIME_SCALE,
                    playback_speed <= u64::MAX,
            ;
        }
        let prod: u128 = (dt_abs as u128) * (playback_speed as u128);
        let dt_rel_wide: u128 = prod / (TIME_SCALE as u128);
        proof {
            assert(prod <= (TIME_SCALE as int) * (playback_speed as int)) by (nonlinear_arith)
                requires
                    prod == (dt_abs as int) * (playback_speed as int),
                    dt_abs <= TIME_SCALE,
                    playback_speed >= 0,
            ;
            assert((TIME_SCALE as int) * (playback_speed as int) / (TIME_SCALE as int)
                == playback_speed as int) by (nonlinear_arith);
            assert(dt_rel_wide <= playback_speed as u128) by {
                vstd::arithmetic::div_mod::lemma_div_is_ordered(
                    prod as int,
                    (TIME_SCALE as int) * (playback_speed as int),
                    TIME_SCALE as int,
                );
            }
        }
        Timing {
            sample_rate,
            sample_num: 0,
            dt_abs,
            t_abs: 0,
            playback_speed,
            dt_rel: dt_rel_wide as u64,
            t_rel: 0,
            beat: 0,
        }
    }

    /// Advances the clock by exactly one rendered sample: counts the
    /// sample, recomputes absolute time, accumulates relative time, and
    /// moves the beat position forward by `beat_delta`. The beat
    /// position never moves backwards.
    pub fn step(&mut self, bpm: u64)
        requires
            old(self).wf(),
            bpm <= BPM_MAX,
            old(self).sample_num < u64::MAX,
            (old(self).sample_num + 1) * old(self).dt_abs <= u64::MAX,
            old(self).t_rel + old(self).dt_rel <= u64::MAX,
            old(self).beat + beat_delta(old(self).dt_rel as int, bpm as int) <= u64::MAX,
        ensures
            final(self).wf(),
            final(self).sample_rate == old(self).sample_rate,
            final(self).playback_speed == old(self).playback_speed,
            final(self).dt_abs == old(self).dt_abs,
            final(self).dt_rel == old(self).dt_rel,
            final(self).sample_num == old(self).sample_num + 1,
            final(self).t_abs == (old(self).sample_num + 1) * old(self).dt_abs,
            final(self).t_rel == old(self).t_rel + old(self).dt_rel,
            final(self).beat == old(self).beat + beat_delta(old(self).dt_rel as int, bpm as int),
            final(self).beat >= old(self).beat,
    {
        self.sample_num = self.sample_num + 1;
        let ta: u128 = (self.sample_num as u128) * (self.dt_abs as u128);
        proof {
            assert(ta <= u64::MAX);
        }
        self.t_abs = ta as u64;
        self.t_rel = self.t_rel + self.dt_rel;
        let delta: u128 = beat_delta_wide(self.dt_rel, bpm);
        proof {
            assert(delta <= u64::MAX);
        }
        self.beat = self.beat + (delta as u64);
    }

    /// True exactly when `step(bpm)` may be called: the tempo is in
    /// range and no counter would overflow.
    pub fn can_step(&self, bpm: u64) -> (r: bool)
        requires
            self.wf(),
        ensures
            r <==> {
                &&& bpm <= BPM_MAX
                &&& self.sample_num < u64::MAX
                &&& (self.sample_num + 1) * self.dt_abs <= u64::MAX
                &&& self.t_rel + self.dt_rel <= u64::MAX
                &&& self.beat + beat_delta(self.dt_rel as int, bpm as int) <= u64::MAX
            },
    {
        if bpm > BPM_MAX {
            return false;
        }
        if self.sample_num == u64::MAX {
            return false;
        }
        proof {
            assert((self.sample_num as int + 1) * (self.dt_abs as int) <= (u64::MAX as int + 1) * (
            TIME_SCALE as int)) by (nonlinear_arith)
                requires
                    self.sample_num <= u64::MAX,
                    self.dt_abs <= TIME_SCALE,
            ;
        }
        let ta: u128 = ((self.sample_num + 1) as u128) * (self.dt_abs as u128);
        if ta > u64::MAX as u128 {
            return false;
        }
        if self.t_rel.checked_add(self.dt_rel).is_none() {
            return false;
        }
        let delta: u128 = beat_delta_wide(self.dt_rel, bpm);
        (self.beat as u128) + delta <= u64::MAX as u128
    }
}

} // verus!
