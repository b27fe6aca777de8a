use std::sync::mpsc;

use muth::pitch::Note;
use muth::rhythm::{BeatDuration, QUARTER_NOTE};
use muth::synth::{SynthCommand, VELOCITY_SCALE};

#[test]
fn send_after_consumer_shutdown_fails_within_one_call() {
    let (tx, rx) = mpsc::channel::<SynthCommand>();
    drop(rx);
    let cmd = SynthCommand::note_on_for_duration(
        Note::new(69),
        BeatDuration(QUARTER_NOTE),
        VELOCITY_SCALE,
    )
    .unwrap();
    // The receiver is gone: the send returns an error at once — the
    // producer's signal to shut down — rather than blocking.
    let r = tx.send(cmd);
    assert!(r.is_err());
}

#[test]
fn commands_arrive_in_send_order() {
    let (tx, rx) = mpsc::channel::<SynthCommand>();
    for n in 60..64i8 {
        let cmd = SynthCommand::note_on_for_duration(
            Note::new(n),
            BeatDuration(QUARTER_NOTE),
            VELOCITY_SCALE,
        )
        .unwrap();
        tx.send(cmd).unwrap();
    }
    for n in 60..64i8 {
        let SynthCommand::NoteOnForDuration(got, _, _) = rx.try_recv().unwrap();
        assert_eq!(got.0, n);
    }
    assert!(rx.try_recv().is_err());
}
