//! The synthesis engine: per-pitch oscillator voices with linear
//! attack/release envelopes, the validated note-on command, and the
//! per-sample render step that mixes all voices into one output value.
use vstd::prelude::*;

verus! {

use vstd::arithmetic::div_mod::{lemma_multiply_divide_lt, lemma_mod_bound};
use vstd::arithmetic::mul::{lemma_mul_is_commutative, lemma_mul_strict_inequality};
use crate::numeric::{div_trunc, div_trunc_i128, div_trunc_i64, lemma_div_trunc_bounded};
use crate::pitch::note::{note_freq_millihz_spec, MIDI_NOTE_COUNT};
use crate::pitch::Note;
use crate::rhythm::{BeatDuration, BeatTime, DURATION_MULTIPLIER};
use crate::timing::{beat_delta, Timing, BEAT_SCALE, BPM_MAX};
use crate::wavetable::{sample_spec, wavetable_lerp_sample, Wavetable, AMP_SCALE, PHASE_SCALE};

/// Fixed-point unit for note velocity: 1.0, the hardest strike.
pub const VELOCITY_SCALE: u32 = 32768;

/// Frequencies are counted in millihertz.
pub const FREQ_SCALE: u64 = 1000;

/// No representable note is faster than this (millihertz).
pub const NOTE_FREQ_MAX: u64 = 16_000_000;

/// Bound on the vibrato depth (millihertz of frequency swing).
pub const VIBRATO_DEPTH_MAX: u64 = 1_000_000;

/// Bound on the vibrato rate (millihertz).
pub const VIBRATO_RATE_MAX: u64 = 1_000_000;

/// Bound on fade windows, in `BEAT_SCALE` fractions of a quarter note.
pub const FADE_MAX: u64 = 0x1_0000_0000;

/// Bound on a voice's start/end tick count.
pub const BEAT_TICKS_MAX: u64 = 0x4_0000_0000_0000;

/// Bound on a note command's duration in ticks.
pub const DURATION_TICKS_MAX: u64 = 0x100_0000_0000;

/// Divisor converting `freq * dt_rel` into oscillator phase units:
/// `FREQ_SCALE * TIME_SCALE / PHASE_SCALE`.
pub const PHASE_RATE_DIV: u64 = 1000;

/// One oscillator with its envelope state, owned by one pitch slot.
/// A voice with `target_freq == 0` has never been triggered and stays
/// silent; a triggered voice decays to silence on its own once the beat
/// position passes `end_beat`.
#[derive(Clone, Copy, Debug)]
pub struct Voice {
    pub phase: u64,
    pub target_freq: u64,
    /// Affected by e.g. vibrato, unlike `target_freq`.
    pub freq: i64,
    /// How hard the note was hit, in `VELOCITY_SCALE` units.
    pub velocity: u32,
    pub amp: i64,
    pub start_beat: BeatTime,
    pub end_beat: BeatTime,
}

impl Voice {
    pub open spec fn wf(self) -> bool {
        &&& self.phase < PHASE_SCALE
        &&& self.target_freq <= NOTE_FREQ_MAX
        &&& -((NOTE_FREQ_MAX + VIBRATO_DEPTH_MAX) as int) <= self.freq <= (NOTE_FREQ_MAX
            + VIBRATO_DEPTH_MAX) as int
        &&& self.velocity <= VELOCITY_SCALE
        &&& -AMP_SCALE <= self.amp <= AMP_SCALE
        &&& self.start_beat.0 <= BEAT_TICKS_MAX
        &&& self.end_beat.0 <= BEAT_TICKS_MAX
        &&& (self.target_freq == 0 ==> self.amp == 0)
    }

    /// Never triggered: all state at zero.
    pub open spec fn is_inert(self) -> bool {
        &&& self.phase == 0
        &&& self.target_freq == 0
        &&& self.freq == 0
        &&& self.velocity == 0
        &&& self.amp == 0
        &&& self.start_beat.0 == 0
        &&& self.end_beat.0 == 0
    }
}

impl Default for Voice {
    /// The inert voice.
    fn default() -> (r: Voice)
        ensures
            r.is_inert(),
            r.wf(),
    {
        Voice {
            phase: 0,
            target_freq: 0,
            freq: 0,
            velocity: 0,
            amp: 0,
            start_beat: BeatTime(0),
            end_beat: BeatTime(0),
        }
    }
}

/// The one message of the command protocol: start (or restart) the
/// voice of a pitch for a duration, at a velocity.
#[derive(Clone, Copy, Debug)]
pub enum SynthCommand {
    NoteOnForDuration(Note, BeatDuration, u32),
}

impl SynthCommand {
    /// What the render path may assume of a command: the pitch is one
    /// of the 128 slots, the duration is a positive, bounded tick
    /// count, and the velocity is at most 1.0.
    pub open spec fn valid(self) -> bool {
        match self {
            SynthCommand::NoteOnForDuration(n, d, v) => {
                &&& 0 <= n.0 < MIDI_NOTE_COUNT
                &&& 1 <= d.0 <= DURATION_TICKS_MAX
                &&& v <= VELOCITY_SCALE
            },
        }
    }

    /// The validating boundary of the protocol: builds a command
    /// exactly when the values are acceptable, so that everything read
    /// from the queue is known valid.
    pub fn note_on_for_duration(note: Note, duration: BeatDuration, velocity: u32) -> (r: Option<
        SynthCommand,
    >)
        ensures
            r.is_some() <==> (0 <= note.0 < MIDI_NOTE_COUNT && 1 <= duration.0
                <= DURATION_TICKS_MAX && velocity <= VELOCITY_SCALE),
            r.is_some() ==> r.unwrap() == SynthCommand::NoteOnForDuration(
                note,
                duration,
                velocity,
            ) && r.unwrap().valid(),
    {
        if note.0 < 0 {
            return None;
        }
        if note.0 as usize >= MIDI_NOTE_COUNT {
            return None;
        }
        if duration.0 < 1 || duration.0 > DURATION_TICKS_MAX {
            return None;
        }
        if velocity > VELOCITY_SCALE {
            return None;
        }
        Some(SynthCommand::NoteOnForDuration(note, duration, velocity))
    }

    /// Runtime form of `valid`, for callers outside verified code.
    pub fn is_valid(&self) -> (r: bool)
        ensures
            r == self.valid(),
    {
        match self {
            SynthCommand::NoteOnForDuration(n, d, v) => {
                n.0 >= 0 && (n.0 as usize) < MIDI_NOTE_COUNT && d.0 >= 1 && d.0
                    <= DURATION_TICKS_MAX && *v <= VELOCITY_SCALE
            },
        }
    }
}

// ------------------------------------------------------------------
// The envelope
// ------------------------------------------------------------------

/// A linear ramp from 0 at `num <= 0` to full scale at `num >= den`,
/// clamped at both ends.
pub open spec fn clamped_ramp(num: int, den: int) -> int {
    if num <= 0 {
        0
    } else if num >= den {
        AMP_SCALE as int
    } else {
        num * (AMP_SCALE as int) / den
    }
}

/// The envelope gain of a voice at beat position `beat` (in
/// `BEAT_SCALE` fractions of a tick): the lesser of the attack ramp
/// rising over `fade_in` after `start_ticks` and the release ramp
/// falling over `fade_out` before `end_ticks`; each ramp is clamped to
/// `[0, AMP_SCALE]` first, so the gain never exceeds full scale and a
/// voice past its end has gain zero.
pub open spec fn envelope_gain(
    beat: int,
    start_ticks: int,
    end_ticks: int,
    fade_in: int,
    fade_out: int,
) -> int {
    let attack = clamped_ramp(
        beat - start_ticks * BEAT_SCALE,
        DURATION_MULTIPLIER * fade_in,
    );
    let release = clamped_ramp(
        end_ticks * BEAT_SCALE - beat,
        DURATION_MULTIPLIER * fade_out,
    );
    if attack <= release {
        attack
    } else {
        release
    }
}

/// One clamped ramp, computed exactly.
fn clamped_ramp_at(beat: u64, edge_fp: u128, fade: u64) -> (g: i64)
    requires
        1 <= fade <= FADE_MAX,
        edge_fp <= (BEAT_TICKS_MAX as int) * (BEAT_SCALE as int),
    ensures
        g == clamped_ramp(beat - edge_fp, DURATION_MULTIPLIER * fade),
        0 <= g <= AMP_SCALE,
{
    proof {
        assert(1 <= (DURATION_MULTIPLIER as int) * (fade as int) <= 120 * 0x1_0000_0000) by (
        nonlinear_arith)
            requires
                1 <= fade <= FADE_MAX,
                DURATION_MULTIPLIER == 120,
                FADE_MAX == 0x1_0000_0000,
        ;
    }
    let den: u128 = (DURATION_MULTIPLIER as u128) * (fade as u128);
    if (beat as u128) <= edge_fp {
        return 0;
    }
    let diff: u128 = (beat as u128) - edge_fp;
    if diff >= den {
        return AMP_SCALE;
    }
    let q: u128 = (diff * (AMP_SCALE as u128)) / den;
    proof {
        assert((diff as int) * (AMP_SCALE as int) < 0x80_0000_0000_0000) by (nonlinear_arith)
            requires
                0 <= diff < 120 * 0x1_0000_0000,
                AMP_SCALE == 32768,
        ;
        lemma_mul_strict_inequality(diff as int, den as int, AMP_SCALE as int);
        lemma_mul_is_commutative(den as int, AMP_SCALE as int);
        lemma_multiply_divide_lt(
            (diff as int) * (AMP_SCALE as int),
            den as int,
            AMP_SCALE as int,
        );
    }
    q as i64
}

/// The envelope gain, computed exactly.
pub fn envelope_gain_at(
    beat: u64,
    start_ticks: u64,
    end_ticks: u64,
    fade_in: u64,
    fade_out: u64,
) -> (g: i64)
    requires
        1 <= fade_in <= FADE_MAX,
        1 <= fade_out <= FADE_MAX,
        start_ticks <= BEAT_TICKS_MAX,
        end_ticks <= BEAT_TICKS_MAX,
    ensures
        g == envelope_gain(
            beat as int,
            start_ticks as int,
            end_ticks as int,
            fade_in as int,
            fade_out as int,
        ),
        0 <= g <= AMP_SCALE,
{
    proof {
        assert(0 <= (start_ticks as int) * (BEAT_SCALE as int) <= 0x4_0000_0000_0000 * 0x1_0000)
            by (nonlinear_arith)
            requires
                start_ticks <= BEAT_TICKS_MAX,
                BEAT_TICKS_MAX == 0x4_0000_0000_0000,
                BEAT_SCALE == 0x1_0000,
        ;
    }
    let start_fp: u128 = (start_ticks as u128) * (BEAT_SCALE as u128);
    let attack: i64 = clamped_ramp_at(beat, start_fp, fade_in);
    // The release ramp runs the other way: it is full while the beat is
    // far before the end and zero once the beat has passed it, so its
    // `num` is `end - beat`.
    proof {
        assert(0 <= (end_ticks as int) * (BEAT_SCALE as int) <= 0x4_0000_0000_0000 * 0x1_0000)
            by (nonlinear_arith)
            requires
                end_ticks <= BEAT_TICKS_MAX,
                BEAT_TICKS_MAX == 0x4_0000_0000_0000,
                BEAT_SCALE == 0x1_0000,
        ;
    }
    let end_fp: u128 = (end_ticks as u128) * (BEAT_SCALE as u128);
    let release: i64 = release_ramp_at(beat, end_fp, fade_out);
    if attack <= release {
        attack
    } else {
        release
    }
}

/// The falling ramp before `edge_fp`: full scale while the beat is at
/// least one fade window early, zero once the beat reaches the edge.
fn release_ramp_at(beat: u64, edge_fp: u128, fade: u64) -> (g: i64)
    requires
        1 <= fade <= FADE_MAX,
        edge_fp <= (BEAT_TICKS_MAX as int) * (BEAT_SCALE as int),
    ensures
        g == clamped_ramp(edge_fp - beat, DURATION_MULTIPLIER * fade),
        0 <= g <= AMP_SCALE,
{
    proof {
        assert(1 <= (DURATION_MULTIPLIER as int) * (fade as int) <= 120 * 0x1_0000_0000) by (
        nonlinear_arith)
            requires
                1 <= fade <= FADE_MAX,
                DURATION_MULTIPLIER == 120,
                FADE_MAX == 0x1_0000_0000,
        ;
    }
    let den: u128 = (DURATION_MULTIPLIER as u128) * (fade as u128);
    if edge_fp <= (beat as u128) {
        return 0;
    }
    let diff: u128 = edge_fp - (beat as u128);
    if diff >= den {
        return AMP_SCALE;
    }
    let q: u128 = (diff * (AMP_SCALE as u128)) / den;
    proof {
        assert((diff as int) * (AMP_SCALE as int) < 0x80_0000_0000_0000) by (nonlinear_arith)
            requires
                0 <= diff < 120 * 0x1_0000_0000,
                AMP_SCALE == 32768,
        ;
        lemma_mul_strict_inequality(diff as int, den as int, AMP_SCALE as int);
        lemma_mul_is_commutative(den as int, AMP_SCALE as int);
        lemma_multiply_divide_lt(
            (diff as int) * (AMP_SCALE as int),
            den as int,
            AMP_SCALE as int,
        );
    }
    q as i64
}

// ------------------------------------------------------------------
// The patch
// ------------------------------------------------------------------

/// A timbre and its voice bank: the shared wavetable, a unit sine used
/// as the vibrato oscillator, vibrato and fade parameters, and one
/// voice per representable pitch.
pub struct SynthPatch {
    /// Vibrato rate, millihertz.
    pub vib_hz: u64,
    /// Vibrato depth, millihertz of frequency swing.
    pub vib_amp: u64,
    /// Attack window, `BEAT_SCALE` fractions of a quarter note.
    pub fade_in_t: u64,
    /// Release window, `BEAT_SCALE` fractions of a quarter note.
    pub fade_out_t: u64,
    pub wavetable: Wavetable,
    /// One cycle of a unit sine, for the vibrato oscillator.
    pub sine: Wavetable,
    pub voices: Vec<Voice>,
}

impl SynthPatch {
    pub open spec fn wf(self) -> bool {
        &&& self.wavetable.wf()
        &&& self.sine.wf()
        &&& self.voices@.len() == MIDI_NOTE_COUNT
        &&& forall|i: int| 0 <= i < self.voices@.len() ==> (#[trigger] self.voices@[i]).wf()
        &&& 1 <= self.fade_in_t <= FADE_MAX
        &&& 1 <= self.fade_out_t <= FADE_MAX
        &&& self.vib_hz <= VIBRATO_RATE_MAX
        &&& self.vib_amp <= VIBRATO_DEPTH_MAX
    }

    /// A fresh patch: every voice inert, parameters as given.
    pub fn new(
        vib_hz: u64,
        vib_amp: u64,
        fade_in_t: u64,
        fade_out_t: u64,
        wavetable: Wavetable,
        sine: Wavetable,
    ) -> (r: SynthPatch)
        requires
            wavetable.wf(),
            sine.wf(),
            1 <= fade_in_t <= FADE_MAX,
            1 <= fade_out_t <= FADE_MAX,
            vib_hz <= VIBRATO_RATE_MAX,
            vib_amp <= VIBRATO_DEPTH_MAX,
        ensures
            r.wf(),
            r.vib_hz == vib_hz,
            r.vib_amp == vib_amp,
            r.fade_in_t == fade_in_t,
            r.fade_out_t == fade_out_t,
            r.wavetable == wavetable,
            r.sine == sine,
            forall|i: int| 0 <= i < r.voices@.len() ==> (#[trigger] r.voices@[i]).is_inert(),
    {
        let mut voices: Vec<Voice> = Vec::new();
        let mut i: usize = 0;
        while i < MIDI_NOTE_COUNT
            invariant
                i <= MIDI_NOTE_COUNT,
                voices@.len() == i,
                forall|j: int| 0 <= j < i ==> (#[trigger] voices@[j]).is_inert(),
                forall|j: int| 0 <= j < i ==> (#[trigger] voices@[j]).wf(),
            decreases MIDI_NOTE_COUNT - i,
        {
            voices.push(Voice::default());
            i = i + 1;
        }
        SynthPatch { vib_hz, vib_amp, fade_in_t, fade_out_t, wavetable, sine, voices }
    }

    /// Starts (or restarts) the voice of `note`: its frequency,
    /// velocity and envelope window are overwritten in place — no
    /// allocation and no second voice; whatever envelope state the
    /// slot had before, including a running release, is replaced.
    /// `beat` is the clock's current position.
    pub fn note_on(&mut self, note: Note, duration: BeatDuration, velocity: u32, beat: u64)
        requires
            old(self).wf(),
            0 <= note.0 < MIDI_NOTE_COUNT,
            1 <= duration.0 <= DURATION_TICKS_MAX,
            velocity <= VELOCITY_SCALE,
        ensures
            final(self).wf(),
            final(self).vib_hz == old(self).vib_hz,
            final(self).vib_amp == old(self).vib_amp,
            final(self).fade_in_t == old(self).fade_in_t,
            final(self).fade_out_t == old(self).fade_out_t,
            final(self).wavetable == old(self).wavetable,
            final(self).sine == old(self).sine,
            final(self).voices@ == old(self).voices@.update(
                note.0 as int,
                note_on_voice(old(self).voices@[note.0 as int], note, duration, velocity, beat),
            ),
    {
        let ix = note.as_index();
        let mut v = self.voices[ix];
        v.target_freq = note.freq_millihz();
        v.velocity = velocity;
        let start = beat / BEAT_SCALE;
        v.start_beat = BeatTime(start);
        proof {
            assert(beat as int / BEAT_SCALE as int <= 0x1_0000_0000_0000) by (nonlinear_arith)
                requires
                    BEAT_SCALE == 0x1_0000,
                    beat <= u64::MAX,
            ;
        }
        v.end_beat = BeatTime(start + duration.0);
        self.voices[ix] = v;
        proof {
            assert(final(self).voices@ =~= old(self).voices@.update(
                note.0 as int,
                note_on_voice(old(self).voices@[note.0 as int], note, duration, velocity, beat),
            ));
        }
    }

    /// Applies one queued command against the current beat position.
    pub fn apply_command(&mut self, cmd: SynthCommand, beat: u64)
        requires
            old(self).wf(),
            cmd.valid(),
        ensures
            final(self).wf(),
            final(self).vib_hz == old(self).vib_hz,
            final(self).vib_amp == old(self).vib_amp,
            final(self).fade_in_t == old(self).fade_in_t,
            final(self).fade_out_t == old(self).fade_out_t,
            final(self).wavetable == old(self).wavetable,
            final(self).sine == old(self).sine,
            final(self).voices@ == apply_command_voices(old(self).voices@, cmd, beat),
    {
        match cmd {
            SynthCommand::NoteOnForDuration(n, d, v) => {
                self.note_on(n, d, v, beat);
            },
        }
    }
}

/// The state of a voice after a note-on: frequency, velocity and the
/// envelope window are overwritten; the oscillator's phase and current
/// output are left to the next render step.
pub open spec fn note_on_voice(
    v: Voice,
    note: Note,
    duration: BeatDuration,
    velocity: u32,
    beat: u64,
) -> Voice {
    Voice {
        target_freq: note_freq_millihz_spec(note.0 as int) as u64,
        velocity,
        start_beat: BeatTime((beat / BEAT_SCALE) as u64),
        end_beat: BeatTime((beat / BEAT_SCALE + duration.0) as u64),
        ..v
    }
}

/// The voice bank after applying one command.
pub open spec fn apply_command_voices(voices: Seq<Voice>, cmd: SynthCommand, beat: u64) -> Seq<
    Voice,
> {
    match cmd {
        SynthCommand::NoteOnForDuration(n, d, v) => voices.update(
            n.0 as int,
            note_on_voice(voices[n.0 as int], n, d, v, beat),
        ),
    }
}

/// The voice bank after draining at most one command.
pub open spec fn drained_voices(voices: Seq<Voice>, cmd: Option<SynthCommand>, beat: u64) -> Seq<
    Voice,
> {
    match cmd {
        Some(c) => apply_command_voices(voices, c, beat),
        None => voices,
    }
}

// ------------------------------------------------------------------
// Stepping the voices
// ------------------------------------------------------------------

/// The vibrato oscillator's phase at relative time `t_rel`, for a
/// vibrato rate `vib_hz` in millihertz.
pub open spec fn vib_phase(t_rel: int, vib_hz: int) -> int {
    ((t_rel * vib_hz) / (FREQ_SCALE as int)) % (PHASE_SCALE as int)
}

/// The vibrato-modulated instantaneous frequency: the target plus the
/// depth scaled by the sine of the vibrato phase.
pub open spec fn modulated_freq(
    target: int,
    vib_amp: int,
    sine: Seq<i64>,
    t_rel: int,
    vib_hz: int,
) -> int {
    target + div_trunc(vib_amp * sample_spec(sine, vib_phase(t_rel, vib_hz)), AMP_SCALE as int)
}

/// The oscillator phase after one sample at frequency `freq`
/// (millihertz) for `dt_rel` of stretched time, wrapped into one cycle.
pub open spec fn stepped_phase(phase: int, freq: int, dt_rel: int) -> int {
    (phase + div_trunc(freq * dt_rel, PHASE_RATE_DIV as int)) % (PHASE_SCALE as int)
}

/// One render step of one voice: a never-triggered voice is left
/// untouched; otherwise the frequency is re-modulated, the phase
/// advanced, and the output amplitude set to the envelope gain times
/// the wavetable sample at the new phase.
pub open spec fn stepped_voice(
    v: Voice,
    vib_hz: int,
    vib_amp: int,
    fade_in: int,
    fade_out: int,
    sine: Seq<i64>,
    wavetable: Seq<i64>,
    t_rel: int,
    dt_rel: int,
    beat: int,
) -> Voice {
    if v.target_freq == 0 {
        v
    } else {
        let f = modulated_freq(v.target_freq as int, vib_amp, sine, t_rel, vib_hz);
        let ph = stepped_phase(v.phase as int, f, dt_rel);
        let g = envelope_gain(beat, v.start_beat.0 as int, v.end_beat.0 as int, fade_in, fade_out);
        let a = div_trunc(g * sample_spec(wavetable, ph), AMP_SCALE as int);
        Voice { freq: f as i64, phase: ph as u64, amp: a as i64, ..v }
    }
}

/// `stepped_voice` with the shared parameters drawn from a patch.
pub open spec fn patch_stepped_voice(
    p: SynthPatch,
    v: Voice,
    t_rel: int,
    dt_rel: int,
    beat: int,
) -> Voice {
    stepped_voice(
        v,
        p.vib_hz as int,
        p.vib_amp as int,
        p.fade_in_t as int,
        p.fade_out_t as int,
        p.sine.table@,
        p.wavetable.table@,
        t_rel,
        dt_rel,
        beat,
    )
}

/// One render step of one voice, exact against `stepped_voice`.
fn step_voice(
    v: Voice,
    vib_hz: u64,
    vib_amp: u64,
    fade_in: u64,
    fade_out: u64,
    sine: &Wavetable,
    wavetable: &Wavetable,
    t_rel: u64,
    dt_rel: u64,
    beat: u64,
) -> (r: Voice)
    requires
        v.wf(),
        sine.wf(),
        wavetable.wf(),
        vib_hz <= VIBRATO_RATE_MAX,
        vib_amp <= VIBRATO_DEPTH_MAX,
        1 <= fade_in <= FADE_MAX,
        1 <= fade_out <= FADE_MAX,
    ensures
        r == stepped_voice(
            v,
            vib_hz as int,
            vib_amp as int,
            fade_in as int,
            fade_out as int,
            sine.table@,
            wavetable.table@,
            t_rel as int,
            dt_rel as int,
            beat as int,
        ),
        r.wf(),
{
    if v.target_freq == 0 {
        return v;
    }
    proof {
        assert(0 <= (t_rel as int) * (vib_hz as int) <= 0xffff_ffff_ffff_ffff * 1_000_000) by (
        nonlinear_arith)
            requires
                t_rel <= 0xffff_ffff_ffff_ffff,
                vib_hz <= 1_000_000,
        ;
    }
    let vp_wide: u128 = ((t_rel as u128) * (vib_hz as u128) / (FREQ_SCALE as u128)) % (
    PHASE_SCALE as u128);
    proof {
        lemma_mod_bound(
            (t_rel as int) * (vib_hz as int) / (FREQ_SCALE as int),
            PHASE_SCALE as int,
        );
    }
    let vp: u64 = vp_wide as u64;
    let sv: i64 = wavetable_lerp_sample(sine, vp);
    proof {
        assert(vp as int == vib_phase(t_rel as int, vib_hz as int));
        assert((-((vib_amp as int) * (AMP_SCALE as int)) <= (vib_amp as int) * (sv as int) <= (
        vib_amp as int) * (AMP_SCALE as int)) && (-(1_000_000 * 32768) <= (vib_amp as int) * (
        sv as int) <= 1_000_000 * 32768)) by (nonlinear_arith)
            requires
                0 <= vib_amp <= 1_000_000,
                -AMP_SCALE <= sv <= AMP_SCALE,
                AMP_SCALE == 32768,
        ;
    }
    let vib_prod: i64 = (vib_amp as i64) * sv;
    let vib: i64 = div_trunc_i64(vib_prod, AMP_SCALE);
    proof {
        lemma_mul_is_commutative(vib_amp as int, AMP_SCALE as int);
        lemma_div_trunc_bounded(vib_prod as int, AMP_SCALE as int, vib_amp as int);
    }
    let f: i64 = (v.target_freq as i64) + vib;
    proof {
        assert(-(17_000_000 * 0xffff_ffff_ffff_ffff) <= (f as int) * (dt_rel as int) <= 17_000_000
            * 0xffff_ffff_ffff_ffff) by (nonlinear_arith)
            requires
                -17_000_000 <= f <= 17_000_000,
                0 <= dt_rel <= 0xffff_ffff_ffff_ffff,
        ;
    }
    let fd: i128 = (f as i128) * (dt_rel as i128);
    let dp: i128 = div_trunc_i128(fd, PHASE_RATE_DIV as i128);
    proof {
        lemma_div_trunc_bounded(
            fd as int,
            PHASE_RATE_DIV as int,
            (17_000_000 * 0xffff_ffff_ffff_ffff) as int,
        );
    }
    let ph_wide: i128 = ((v.phase as i128) + dp).checked_rem_euclid(PHASE_SCALE as i128).unwrap();
    proof {
        lemma_mod_bound((v.phase as int) + (dp as int), PHASE_SCALE as int);
    }
    let ph: u64 = ph_wide as u64;
    let g: i64 = envelope_gain_at(beat, v.start_beat.0, v.end_beat.0, fade_in, fade_out);
    let wv: i64 = wavetable_lerp_sample(wavetable, ph);
    proof {
        assert(-(AMP_SCALE as int) * (AMP_SCALE as int) <= (g as int) * (wv as int) <= (
        AMP_SCALE as int) * (AMP_SCALE as int)) by (nonlinear_arith)
            requires
                0 <= g <= AMP_SCALE,
                -AMP_SCALE <= wv <= AMP_SCALE,
                AMP_SCALE == 32768,
        ;
    }
    let ga: i64 = g * wv;
    let a: i64 = div_trunc_i64(ga, AMP_SCALE);
    proof {
        lemma_div_trunc_bounded(ga as int, AMP_SCALE as int, AMP_SCALE as int);
    }
    let mut r = v;
    r.freq = f;
    r.phase = ph;
    r.amp = a;
    r
}

impl SynthPatch {
    /// One render step of every voice against the current clock: each
    /// voice whose target frequency is non-zero is advanced by
    /// `stepped_voice`; never-triggered voices stay silent.
    pub fn update_voices(&mut self, timing: &Timing)
        requires
            old(self).wf(),
        ensures
            final(self).wf(),
            final(self).vib_hz == old(self).vib_hz,
            final(self).vib_amp == old(self).vib_amp,
            final(self).fade_in_t == old(self).fade_in_t,
            final(self).fade_out_t == old(self).fade_out_t,
            final(self).wavetable == old(self).wavetable,
            final(self).sine == old(self).sine,
            final(self).voices@.len() == MIDI_NOTE_COUNT,
            forall|i: int|
                0 <= i < MIDI_NOTE_COUNT ==> final(self).voices@[i] == patch_stepped_voice(
                    *old(self),
                    old(self).voices@[i],
                    timing.t_rel as int,
                    timing.dt_rel as int,
                    timing.beat as int,
                ),
    {
        let mut i: usize = 0;
        while i < MIDI_NOTE_COUNT
            invariant
                i <= MIDI_NOTE_COUNT,
                old(self).wf(),
                self.vib_hz == old(self).vib_hz,
                self.vib_amp == old(self).vib_amp,
                self.fade_in_t == old(self).fade_in_t,
                self.fade_out_t == old(self).fade_out_t,
                self.wavetable == old(self).wavetable,
                self.sine == old(self).sine,
                self.voices@.len() == MIDI_NOTE_COUNT,
                forall|j: int|
                    0 <= j < i ==> self.voices@[j] == patch_stepped_voice(
                        *old(self),
                        old(self).voices@[j],
                        timing.t_rel as int,
                        timing.dt_rel as int,
                        timing.beat as int,
                    ),
                forall|j: int|
                    i <= j < MIDI_NOTE_COUNT ==> self.voices@[j] == old(self).voices@[j],
                forall|j: int| 0 <= j < i ==> (#[trigger] self.voices@[j]).wf(),
            decreases MIDI_NOTE_COUNT - i,
        {
            let v = self.voices[i];
            let nv = step_voice(
                v,
                self.vib_hz,
                self.vib_amp,
                self.fade_in_t,
                self.fade_out_t,
                &self.sine,
                &self.wavetable,
                timing.t_rel,
                timing.dt_rel,
                timing.beat,
            );
            self.voices[i] = nv;
            i = i + 1;
        }
    }
}

// ------------------------------------------------------------------
// Mixing
// ------------------------------------------------------------------

/// The sum of all voices' current amplitudes.
pub open spec fn sum_amps(vs: Seq<Voice>) -> int
    decreases vs.len(),
{
    if vs.len() == 0 {
        0
    } else {
        sum_amps(vs.drop_last()) + vs.last().amp
    }
}

proof fn lemma_sum_amps_take_step(vs: Seq<Voice>, i: int)
    requires
        0 <= i < vs.len(),
    ensures
        sum_amps(vs.take(i + 1)) == sum_amps(vs.take(i)) + vs[i].amp,
{
    assert(vs.take(i + 1).drop_last() =~= vs.take(i));
    assert(vs.take(i + 1).last() == vs[i]);
}

/// A voice never triggered contributes exactly zero to the mix: in a
/// well-formed patch its amplitude is zero, and removing it from the
/// bank leaves the mixed sum unchanged.
pub proof fn lemma_untriggered_voice_silent(p: SynthPatch, i: int)
    requires
        p.wf(),
        0 <= i < p.voices@.len(),
        p.voices@[i].target_freq == 0,
    ensures
        p.voices@[i].amp == 0,
        sum_amps(p.voices@) == sum_amps(p.voices@.remove(i)),
{
    assert(p.voices@[i].wf());
    lemma_sum_amps_remove(p.voices@, i);
}

proof fn lemma_sum_amps_remove(vs: Seq<Voice>, i: int)
    requires
        0 <= i < vs.len(),
    ensures
        sum_amps(vs) == sum_amps(vs.remove(i)) + vs[i].amp,
    decreases vs.len(),
{
    if i == vs.len() - 1 {
        assert(vs.remove(i) =~= vs.drop_last());
    } else {
        lemma_sum_amps_remove(vs.drop_last(), i);
        assert(vs.remove(i).drop_last() =~= vs.drop_last().remove(i));
        assert(vs.remove(i).last() == vs.last());
    }
}

impl SynthPatch {
    /// The mixed output before headroom: the arithmetic mean of all
    /// 128 voices' amplitudes (a mean, not a sum, so the bound holds
    /// however many voices sound at once).
    pub fn mixed_amp(&self) -> (r: i64)
        requires
            self.wf(),
        ensures
            r == div_trunc(sum_amps(self.voices@), MIDI_NOTE_COUNT as int),
            -AMP_SCALE <= r <= AMP_SCALE,
    {
        let mut sum: i64 = 0;
        let mut i: usize = 0;
        while i < MIDI_NOTE_COUNT
            invariant
                i <= MIDI_NOTE_COUNT,
                self.wf(),
                sum == sum_amps(self.voices@.take(i as int)),
                -((i as int) * (AMP_SCALE as int)) <= sum <= (i as int) * (AMP_SCALE as int),
            decreases MIDI_NOTE_COUNT - i,
        {
            proof {
                lemma_sum_amps_take_step(self.voices@, i as int);
                assert(self.voices@[i as int].wf());
                assert((-((i as int + 1) * (AMP_SCALE as int)) <= sum + self.voices@[i as int].amp
                    <= (i as int + 1) * (AMP_SCALE as int)) && (i as int + 1) * (AMP_SCALE as int)
                    <= 128 * 32768) by (nonlinear_arith)
                    requires
                        -((i as int) * (AMP_SCALE as int)) <= sum <= (i as int) * (
                        AMP_SCALE as int),
                        -AMP_SCALE <= self.voices@[i as int].amp <= AMP_SCALE,
                        0 <= i < 128,
                        AMP_SCALE == 32768,
                ;
            }
            sum = sum + self.voices[i].amp;
            i = i + 1;
        }
        proof {
            assert(self.voices@.take(MIDI_NOTE_COUNT as int) =~= self.voices@);
            lemma_mul_is_commutative(MIDI_NOTE_COUNT as int, AMP_SCALE as int);
            lemma_div_trunc_bounded(sum as int, MIDI_NOTE_COUNT as int, AMP_SCALE as int);
        }
        div_trunc_i64(sum, MIDI_NOTE_COUNT as i64)
    }
}

/// The fixed headroom: nine tenths of the mean, leaving room for
/// downstream format conversion.
pub fn apply_headroom(amp: i64) -> (r: i64)
    requires
        -AMP_SCALE <= amp <= AMP_SCALE,
    ensures
        r == div_trunc((amp as int) * 9, 10),
        -AMP_SCALE <= r <= AMP_SCALE,
{
    let n: i64 = amp * 9;
    let r = div_trunc_i64(n, 10);
    proof {
        lemma_div_trunc_bounded(n as int, 10, AMP_SCALE as int);
    }
    r
}

// ------------------------------------------------------------------
// The render step
// ------------------------------------------------------------------

/// Renders one output sample: drains at most one queued command, steps
/// every triggered voice, mixes the mean of all 128 voice amplitudes,
/// advances the clock by one sample, and returns the mean under the
/// fixed headroom — always within one unit of amplitude.
pub fn render_sample(
    patch: &mut SynthPatch,
    timing: &mut Timing,
    cmd: Option<SynthCommand>,
    bpm: u64,
) -> (amp: i64)
    requires
        old(patch).wf(),
        old(timing).wf(),
        bpm <= BPM_MAX,
        cmd.is_some() ==> cmd.unwrap().valid(),
        old(timing).sample_num < u64::MAX,
        (old(timing).sample_num + 1) * old(timing).dt_abs <= u64::MAX,
        old(timing).t_rel + old(timing).dt_rel <= u64::MAX,
        old(timing).beat + beat_delta(old(timing).dt_rel as int, bpm as int) <= u64::MAX,
    ensures
        final(patch).wf(),
        final(timing).wf(),
        final(patch).vib_hz == old(patch).vib_hz,
        final(patch).vib_amp == old(patch).vib_amp,
        final(patch).fade_in_t == old(patch).fade_in_t,
        final(patch).fade_out_t == old(patch).fade_out_t,
        final(patch).wavetable == old(patch).wavetable,
        final(patch).sine == old(patch).sine,
        final(patch).voices@.len() == MIDI_NOTE_COUNT,
        forall|i: int|
            0 <= i < MIDI_NOTE_COUNT ==> final(patch).voices@[i] == patch_stepped_voice(
                *old(patch),
                drained_voices(old(patch).voices@, cmd, old(timing).beat)[i],
                old(timing).t_rel as int,
                old(timing).dt_rel as int,
                old(timing).beat as int,
            ),
        final(timing).sample_rate == old(timing).sample_rate,
        final(timing).playback_speed == old(timing).playback_speed,
        final(timing).dt_abs == old(timing).dt_abs,
        final(timing).dt_rel == old(timing).dt_rel,
        final(timing).sample_num == old(timing).sample_num + 1,
        final(timing).t_abs == (old(timing).sample_num + 1) * old(timing).dt_abs,
        final(timing).t_rel == old(timing).t_rel + old(timing).dt_rel,
        final(timing).beat == old(timing).beat + beat_delta(
            old(timing).dt_rel as int,
            bpm as int,
        ),
        final(timing).beat >= old(timing).beat,
        amp == div_trunc(
            div_trunc(sum_amps(final(patch).voices@), MIDI_NOTE_COUNT as int) * 9,
            10,
        ),
        -AMP_SCALE <= amp <= AMP_SCALE,
{
    match cmd {
        Some(c) => {
            patch.apply_command(c, timing.beat);
        },
        None => {},
    }
    patch.update_voices(timing);
    let mean = patch.mixed_amp();
    timing.step(bpm);
    apply_headroom(mean)
}

// ------------------------------------------------------------------
// Output format conversion
// ------------------------------------------------------------------

/// A mixed sample as a signed 16-bit PCM value.
pub fn sample_to_i16(amp: i64) -> (r: i16)
    requires
        -AMP_SCALE <= amp <= AMP_SCALE,
    ensures
        r == div_trunc((amp as int) * 32767, AMP_SCALE as int),
{
    let n: i64 = amp * 32767;
    let r = div_trunc_i64(n, AMP_SCALE);
    proof {
        lemma_div_trunc_bounded(n as int, AMP_SCALE as int, 32767);
    }
    r as i16
}

/// A mixed sample as an unsigned 16-bit PCM value, with zero signal at
/// the middle of the range.
pub fn sample_to_u16(amp: i64) -> (r: u16)
    requires
        -AMP_SCALE <= amp <= AMP_SCALE,
    ensures
        r == ((amp + AMP_SCALE) * 65535) / (2 * AMP_SCALE),
{
    let n: u64 = ((amp + AMP_SCALE) as u64) * 65535;
    let r: u64 = n / ((2 * AMP_SCALE) as u64);
    proof {
        assert(r <= 65535) by (nonlinear_arith)
            requires
                r == (n as int) / (2 * (AMP_SCALE as int)),
                n == ((amp + AMP_SCALE) as int) * 65535,
                -AMP_SCALE <= amp <= AMP_SCALE,
                AMP_SCALE == 32768,
        ;
    }
    r as u16
}

} // verus!
