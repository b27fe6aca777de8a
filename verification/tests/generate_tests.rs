use muth::generate::Generator;
use muth::rhythm::QUARTER_NOTE;
use muth::synth::{SynthCommand, VELOCITY_SCALE};
use rand::rngs::SmallRng;
use rand::SeedableRng;

#[test]
fn fresh_generator_emits_its_first_note_at_once() {
    let mut g = Generator::new();
    let mut rng = SmallRng::seed_from_u64(1337);
    let cmd = g.tick(&mut rng, 120);
    let SynthCommand::NoteOnForDuration(n, d, v) = cmd.expect("first note is due at beat zero");
    assert!((60..67).contains(&n.0));
    assert_eq!(d.0, QUARTER_NOTE);
    assert_eq!(v, VELOCITY_SCALE);
}

#[test]
fn every_emitted_command_is_valid() {
    let mut g = Generator::new();
    let mut rng = SmallRng::seed_from_u64(7);
    let mut count = 0;
    for _ in 0..2000 {
        if let Some(cmd) = g.tick(&mut rng, 120) {
            assert!(cmd.is_valid());
            let SynthCommand::NoteOnForDuration(n, d, v) = cmd;
            assert!((60..67).contains(&n.0));
            assert_eq!(d.0, QUARTER_NOTE);
            assert_eq!(v, VELOCITY_SCALE);
            count += 1;
        }
    }
    // At 120 bpm the composer's clock covers many quarter notes in
    // 2000 wakes of 5 ms: notes keep coming, spaced apart.
    assert!(count > 5, "count {count}");
    assert!(count < 2000);
}

#[test]
fn composer_clock_never_runs_backwards() {
    let mut g = Generator::new();
    let mut rng = SmallRng::seed_from_u64(42);
    let mut last = g.timing.beat;
    for _ in 0..500 {
        g.tick(&mut rng, 240);
        assert!(g.timing.beat >= last);
        last = g.timing.beat;
    }
}

#[test]
fn melody_grows_measure_by_measure() {
    let mut g = Generator::new();
    let mut rng = SmallRng::seed_from_u64(99);
    g.tick(&mut rng, 120);
    assert_eq!(g.track.notes.len(), 4);
    assert_eq!(g.track.beats.len(), 4);
    assert_eq!(g.track.durations.len(), 4);
    // Four quarter notes starting at zero.
    assert_eq!(g.track.beats[0].0, 0);
    assert_eq!(g.track.beats[1].0, QUARTER_NOTE);
    assert_eq!(g.track.beats[3].0, 3 * QUARTER_NOTE);
}
