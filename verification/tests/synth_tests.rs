use muth::pitch::note::A4;
use muth::pitch::Note;
use muth::rhythm::{BeatDuration, BeatTime, QUARTER_NOTE};
use muth::synth::{
    apply_headroom, envelope_gain_at, render_sample, sample_to_i16, sample_to_u16, SynthCommand,
    SynthPatch, Voice, DURATION_TICKS_MAX, VELOCITY_SCALE,
};
use muth::timing::{Timing, BEAT_SCALE, TIME_SCALE};
use muth::wavetable::{wavetable_from_harmonics, Wavetable, AMP_SCALE, WAVETABLE_SIZE};

fn sine() -> Wavetable {
    let mut v = Vec::new();
    for i in 0..WAVETABLE_SIZE {
        let x = (i as f64) / (WAVETABLE_SIZE as f64) * std::f64::consts::TAU;
        v.push((x.sin() * ((AMP_SCALE - 1) as f64)).round() as i64);
    }
    Wavetable::new(v).unwrap()
}

fn patch() -> SynthPatch {
    let s = sine();
    let w = wavetable_from_harmonics(&vec![10, 7, 6, 5, 5, 4, 4, 3, 3, 2, 2, 2], &s).unwrap();
    // Vibrato and fades as the front end configures them: 4 Hz at 2 Hz
    // of depth, 1/15 and 1/40 of a beat of fade.
    SynthPatch::new(4000, 2000, BEAT_SCALE / 15, BEAT_SCALE / 40, w, s)
}

#[test]
fn fresh_patch_is_silent() {
    let p = patch();
    for v in &p.voices {
        assert_eq!(v.target_freq, 0);
        assert_eq!(v.amp, 0);
    }
    assert_eq!(p.mixed_amp(), 0);
}

#[test]
fn command_validation_boundary() {
    let qn = BeatDuration(QUARTER_NOTE);
    assert!(SynthCommand::note_on_for_duration(Note::new(69), qn, VELOCITY_SCALE).is_some());
    // pitch outside the table
    assert!(SynthCommand::note_on_for_duration(Note::new(-1), qn, VELOCITY_SCALE).is_none());
    // zero-length note
    assert!(SynthCommand::note_on_for_duration(Note::new(69), BeatDuration(0), 100).is_none());
    // absurd duration
    assert!(SynthCommand::note_on_for_duration(
        Note::new(69),
        BeatDuration(DURATION_TICKS_MAX + 1),
        100
    )
    .is_none());
    // velocity above 1.0
    assert!(
        SynthCommand::note_on_for_duration(Note::new(69), qn, VELOCITY_SCALE + 1).is_none()
    );
    let cmd = SynthCommand::note_on_for_duration(Note::new(69), qn, VELOCITY_SCALE).unwrap();
    assert!(cmd.is_valid());
}

#[test]
fn note_on_overwrites_the_voice_in_place() {
    let mut p = patch();
    p.note_on(Note::new(69), BeatDuration(480), VELOCITY_SCALE, 100 * BEAT_SCALE);
    let v1 = p.voices[69];
    assert_eq!(v1.target_freq, 440_000);
    assert_eq!(v1.velocity, VELOCITY_SCALE);
    assert_eq!(v1.start_beat, BeatTime(100));
    assert_eq!(v1.end_beat, BeatTime(580));
    // Re-sending for the same pitch mid-note fully resets the envelope
    // window and velocity: an overwrite, not an accumulation.
    p.note_on(Note::new(69), BeatDuration(120), VELOCITY_SCALE / 2, 300 * BEAT_SCALE);
    let v2 = p.voices[69];
    assert_eq!(v2.target_freq, 440_000);
    assert_eq!(v2.velocity, VELOCITY_SCALE / 2);
    assert_eq!(v2.start_beat, BeatTime(300));
    assert_eq!(v2.end_beat, BeatTime(420));
    // No other slot was touched.
    for (i, v) in p.voices.iter().enumerate() {
        if i != 69 {
            assert_eq!(v.target_freq, 0);
            assert_eq!(v.amp, 0);
        }
    }
}

#[test]
fn untriggered_voices_contribute_nothing() {
    let mut p = patch();
    let mut t = Timing::new(44100, TIME_SCALE);
    // Render without any note: every voice skipped, output exactly 0.
    for _ in 0..200 {
        let amp = render_sample(&mut p, &mut t, None, 120);
        assert_eq!(amp, 0);
    }
    for v in &p.voices {
        assert_eq!(v.amp, 0);
        assert_eq!(v.phase, 0);
    }
}

#[test]
fn mixed_output_is_the_mean_under_headroom() {
    let mut p = patch();
    // Force every voice to a known amplitude; the mix is their mean.
    for v in p.voices.iter_mut() {
        v.target_freq = 440_000;
        v.amp = AMP_SCALE;
    }
    assert_eq!(p.mixed_amp(), AMP_SCALE);
    assert_eq!(apply_headroom(AMP_SCALE), 29491);
    // Half the voices at full positive, half at full negative: mean 0.
    for (i, v) in p.voices.iter_mut().enumerate() {
        v.amp = if i % 2 == 0 { AMP_SCALE } else { -AMP_SCALE };
    }
    assert_eq!(p.mixed_amp(), 0);
    // One voice at full scale among 128: mean is 1/128 of full.
    for v in p.voices.iter_mut() {
        v.amp = 0;
    }
    p.voices[69].amp = AMP_SCALE;
    assert_eq!(p.mixed_amp(), AMP_SCALE / 128);
}

#[test]
fn envelope_ramps_up_holds_and_ramps_down() {
    // One note from tick 0 to tick 120, fades of 1/15 and 1/40 beat.
    let fade_in = BEAT_SCALE / 15;
    let fade_out = BEAT_SCALE / 40;
    let gain = |beat: u64| envelope_gain_at(beat, 0, 120, fade_in, fade_out);
    assert_eq!(gain(0), 0);
    // Mid-attack: half the window, half the gain (give or take rounding).
    let attack_window = 120 * fade_in;
    let mid = gain(attack_window / 2);
    assert!((AMP_SCALE / 2 - 16..=AMP_SCALE / 2 + 16).contains(&(mid as i64)));
    // Past the attack window and far from the end: full gain.
    assert_eq!(gain(attack_window + 1), AMP_SCALE);
    assert_eq!(gain(60 * BEAT_SCALE), AMP_SCALE);
    // Inside the release window the gain falls...
    let release_window = 120 * fade_out;
    let late = 120 * BEAT_SCALE - release_window / 2;
    let falling = gain(late);
    assert!(0 < falling && falling < AMP_SCALE);
    // ...and at and past the end it is exactly zero.
    assert_eq!(gain(120 * BEAT_SCALE), 0);
    assert_eq!(gain(121 * BEAT_SCALE), 0);
}

#[test]
fn a_note_sounds_and_then_decays_to_silence() {
    let mut p = patch();
    let mut t = Timing::new(8000, TIME_SCALE);
    let cmd = SynthCommand::note_on_for_duration(
        Note::new(A4),
        BeatDuration(QUARTER_NOTE),
        VELOCITY_SCALE,
    )
    .unwrap();
    let mut first = render_sample(&mut p, &mut t, Some(cmd), 120);
    assert_eq!(first, 0); // the envelope starts at zero gain
    // One quarter note at 120 bpm is half a second: 4000 samples at 8 kHz.
    let mut peak: i64 = 0;
    let mut voice_peak: i64 = 0;
    for _ in 0..4100 {
        let amp = render_sample(&mut p, &mut t, None, 120);
        if amp.abs() > peak {
            peak = amp.abs();
        }
        if p.voices[69].amp.abs() > voice_peak {
            voice_peak = p.voices[69].amp.abs();
        }
        first = amp;
    }
    // The voice swung through a good part of its range, and its sound
    // reached the mix, diluted by the mean over all 128 slots and by
    // the headroom.
    assert!(voice_peak > AMP_SCALE / 4, "voice peak {voice_peak}");
    assert!(peak > 100, "peak {peak}");
    // ...and by now the beat has passed end_beat: the voice is silent.
    assert_eq!(first, 0);
    assert_eq!(p.voices[69].amp, 0);
    assert!(t.beat > 120 * BEAT_SCALE);
    for _ in 0..100 {
        assert_eq!(render_sample(&mut p, &mut t, None, 120), 0);
    }
}

#[test]
fn output_stays_within_unit_amplitude() {
    let mut p = patch();
    let mut t = Timing::new(8000, TIME_SCALE);
    // Trigger many voices at once and render through their overlap.
    for n in 40..80i8 {
        let cmd = SynthCommand::note_on_for_duration(
            Note::new(n),
            BeatDuration(QUARTER_NOTE),
            VELOCITY_SCALE,
        )
        .unwrap();
        render_sample(&mut p, &mut t, Some(cmd), 120);
    }
    for _ in 0..2000 {
        let amp = render_sample(&mut p, &mut t, None, 120);
        assert!(-AMP_SCALE <= amp && amp <= AMP_SCALE);
    }
}

#[test]
fn pcm_conversions() {
    assert_eq!(sample_to_i16(AMP_SCALE), 32767);
    assert_eq!(sample_to_i16(-AMP_SCALE), -32767);
    assert_eq!(sample_to_i16(0), 0);
    assert_eq!(sample_to_i16(AMP_SCALE / 2), 16383);
    assert_eq!(sample_to_u16(0), 32767);
    assert_eq!(sample_to_u16(AMP_SCALE), 65535);
    assert_eq!(sample_to_u16(-AMP_SCALE), 0);
}

#[test]
fn inert_voice_is_default() {
    let v = Voice::default();
    assert_eq!(v.target_freq, 0);
    assert_eq!(v.amp, 0);
    assert_eq!(v.phase, 0);
    assert_eq!(v.velocity, 0);
}
