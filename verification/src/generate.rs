//! The composer: runs its own clock, grows a melody track measure by
//! measure, and emits validated note commands when their beat comes due.
//! The caller owns the timer and the channel; every decision is here.
use vstd::prelude::*;

verus! {

use crate::pitch::Note;
use crate::rhythm::{BeatDuration, BeatTime, QUARTER_NOTE};
use crate::synth::{SynthCommand, BEAT_TICKS_MAX, DURATION_TICKS_MAX, VELOCITY_SCALE};
use crate::timing::{Timing, BEAT_SCALE, BPM_MAX, TIME_SCALE};

/// The composer wakes this often; its clock counts one sample per wake.
pub const OK_AUDIO_DELAY_MILLISECONDS: u64 = 5;

#[verifier::external_type_specification]
#[verifier::external_body]
pub struct ExSmallRng(rand::rngs::SmallRng);

/// Relies on rand's `Rng::gen_range`: returns a value of the given
/// range, which must not be empty.
#[verifier::external_body]
fn rng_range(rng: &mut rand::rngs::SmallRng, lo: u32, hi: u32) -> (r: u32)
    requires
        lo < hi,
    ensures
        lo <= r < hi,
{
    rand::Rng::gen_range(rng, lo..hi)
}

/// A melody being played: parallel lists of notes, their start beats
/// (in ticks) and their durations.
pub struct MelodyTrack {
    pub notes: Vec<Note>,
    pub beats: Vec<BeatTime>,
    pub durations: Vec<BeatDuration>,
}

impl MelodyTrack {
    /// This composer writes quarter notes in the octave above middle C,
    /// at bounded beats.
    pub open spec fn wf(self) -> bool {
        &&& self.notes@.len() == self.beats@.len()
        &&& self.notes@.len() == self.durations@.len()
        &&& forall|i: int| 0 <= i < self.notes@.len() ==> 60 <= (#[trigger] self.notes@[i]).0 < 67
        &&& forall|i: int|
            0 <= i < self.durations@.len() ==> (#[trigger] self.durations@[i]).0 == QUARTER_NOTE
        &&& forall|i: int|
            0 <= i < self.beats@.len() ==> (#[trigger] self.beats@[i]).0 <= BEAT_TICKS_MAX
    }
}

/// The note-generation state machine: its own clock (independent of the
/// render clock), the melody so far, and the next note to send.
///
/// The composer's clock is advanced once per timer wake, not once per
/// rendered sample, so it can drift from the render clock over a long
/// run. A possible improvement would be to drop this clock and let the
/// composer read the authoritative beat position through a shared
/// counter written only by the render thread; until then the two clocks
/// stay deliberately independent.
pub struct Generator {
    pub timing: Timing,
    pub track: MelodyTrack,
    pub mel_ix: usize,
}

impl Generator {
    pub open spec fn wf(self) -> bool {
        &&& self.timing.wf()
        &&& self.track.wf()
    }

    /// A fresh composer with an empty melody, clocked at one tick per
    /// wake interval.
    pub fn new() -> (r: Generator)
        ensures
            r.wf(),
            r.track.notes@.len() == 0,
            r.mel_ix == 0,
            r.timing.beat == 0,
    {
        Generator {
            timing: Timing::new(1000 / OK_AUDIO_DELAY_MILLISECONDS, TIME_SCALE),
            track: MelodyTrack { notes: Vec::new(), beats: Vec::new(), durations: Vec::new() },
            mel_ix: 0,
        }
    }

    /// Appends one measure of four random quarter notes starting at
    /// `start`.
    fn gen_measure(&mut self, start: BeatTime, rng: &mut rand::rngs::SmallRng)
        requires
            old(self).wf(),
            start.0 + 4 * QUARTER_NOTE <= BEAT_TICKS_MAX,
        ensures
            final(self).wf(),
            final(self).timing == old(self).timing,
            final(self).mel_ix == old(self).mel_ix,
            final(self).track.notes@.len() == old(self).track.notes@.len() + 4,
    {
        let mut beat = start;
        let mut m: usize = 0;
        while m < 4
            invariant
                m <= 4,
                self.track.wf(),
                self.timing == old(self).timing,
                self.mel_ix == old(self).mel_ix,
                start.0 + 4 * QUARTER_NOTE <= BEAT_TICKS_MAX,
                beat.0 == start.0 + m * QUARTER_NOTE,
                self.track.notes@.len() == old(self).track.notes@.len() + m,
            decreases 4 - m,
        {
            proof {
                assert(beat.0 + QUARTER_NOTE == start.0 + (m as int + 1) * QUARTER_NOTE && beat.0
                    + QUARTER_NOTE <= start.0 + 4 * QUARTER_NOTE) by (nonlinear_arith)
                    requires
                        beat.0 == start.0 + (m as int) * QUARTER_NOTE,
                        m < 4,
                        QUARTER_NOTE == 120,
                ;
            }
            let step = rng_range(rng, 0, 7);
            self.track.notes.push(Note::new(60 + (step as i8)));
            self.track.beats.push(beat);
            self.track.durations.push(BeatDuration(QUARTER_NOTE));
            beat = beat.add(BeatDuration(QUARTER_NOTE));
            m = m + 1;
        }
    }

    /// One wake of the composer: extends the melody when it has been
    /// played through, emits the next note once the composer's own beat
    /// position reaches it, and advances the composer clock. Every
    /// command that comes out is valid: a quarter note in the octave
    /// above middle C at full velocity. The composer's clock never runs
    /// backwards.
    pub fn tick(&mut self, rng: &mut rand::rngs::SmallRng, bpm: u64) -> (r: Option<SynthCommand>)
        requires
            old(self).wf(),
            bpm <= BPM_MAX,
        ensures
            final(self).wf(),
            final(self).timing.beat >= old(self).timing.beat,
            final(self).track.notes@.len() >= old(self).track.notes@.len(),
            final(self).track.notes@.len() > 0,
            // A note is emitted exactly when the melody holds one whose
            // beat the composer's clock has reached; it is that note,
            // and the playhead moves past it.
            r.is_some() <==> (old(self).mel_ix < final(self).track.notes@.len() && old(
                self,
            ).timing.beat >= final(self).track.beats@[old(self).mel_ix as int].0 * BEAT_SCALE),
            r.is_some() ==> r == Some(
                SynthCommand::NoteOnForDuration(
                    final(self).track.notes@[old(self).mel_ix as int],
                    final(self).track.durations@[old(self).mel_ix as int],
                    VELOCITY_SCALE,
                ),
            ) && final(self).mel_ix == old(self).mel_ix + 1,
            r.is_none() ==> final(self).mel_ix == old(self).mel_ix,
            r.is_some() ==> r.unwrap().valid(),
            r.is_some() ==> match r.unwrap() {
                SynthCommand::NoteOnForDuration(n, d, v) => {
                    &&& 60 <= n.0 < 67
                    &&& d.0 == QUARTER_NOTE
                    &&& v == VELOCITY_SCALE
                },
            },
    {
        let num_beats = self.track.notes.len();
        if num_beats == 0 {
            self.gen_measure(BeatTime::zero(), rng);
        } else if self.mel_ix >= num_beats {
            let last_ix = num_beats - 1;
            let next = self.track.beats[last_ix].0 + QUARTER_NOTE;
            if next + 4 * QUARTER_NOTE <= BEAT_TICKS_MAX {
                self.gen_measure(BeatTime(next), rng);
            }
        }
        let mut cmd: Option<SynthCommand> = None;
        if self.mel_ix < self.track.notes.len() {
            let due: u128 = (self.track.beats[self.mel_ix].0 as u128) * (BEAT_SCALE as u128);
            proof {
                assert((BEAT_TICKS_MAX as int) * (BEAT_SCALE as int) < 0x1_0000_0000_0000_0000_0000)
                    by (nonlinear_arith)
                    requires
                        BEAT_TICKS_MAX == 0x4_0000_0000_0000,
                        BEAT_SCALE == 0x1_0000,
                ;
                assert((self.track.beats@[self.mel_ix as int].0 as int) * (BEAT_SCALE as int) <= (
                BEAT_TICKS_MAX as int) * (BEAT_SCALE as int)) by (nonlinear_arith)
                    requires
                        self.track.beats@[self.mel_ix as int].0 <= BEAT_TICKS_MAX,
                        BEAT_SCALE >= 0,
                ;
            }
            if (self.timing.beat as u128) >= due {
                let n = self.track.notes[self.mel_ix];
                let d = self.track.durations[self.mel_ix];
                proof {
                    assert(QUARTER_NOTE <= DURATION_TICKS_MAX);
                }
                cmd = Some(SynthCommand::NoteOnForDuration(n, d, VELOCITY_SCALE));
                self.mel_ix = self.mel_ix + 1;
            }
        }
        if self.timing.can_step(bpm) {
            self.timing.step(bpm);
        }
        cmd
    }
}

} // verus!
