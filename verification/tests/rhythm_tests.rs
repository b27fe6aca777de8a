use muth::config::Config;
use muth::rhythm::{
    BeatDuration, BeatTime, Rhythm, Subdivision, DURATION_MULTIPLIER, EIGHTH_NOTE,
    EIGHTH_NOTE_TRIPLET, HALF_NOTE, QN, QUARTER_NOTE, SIXTEENTH_NOTE, WHOLE_NOTE, WN,
};

#[test]
fn duration_constants_relate() {
    assert_eq!(DURATION_MULTIPLIER, 120);
    assert_eq!(QUARTER_NOTE, DURATION_MULTIPLIER);
    assert_eq!(WHOLE_NOTE, 4 * QUARTER_NOTE);
    assert_eq!(HALF_NOTE, 2 * QUARTER_NOTE);
    assert_eq!(EIGHTH_NOTE, QUARTER_NOTE / 2);
    assert_eq!(EIGHTH_NOTE_TRIPLET, QUARTER_NOTE / 3);
    assert_eq!(SIXTEENTH_NOTE, QUARTER_NOTE / 4);
    assert_eq!(QN, QUARTER_NOTE);
    assert_eq!(WN, WHOLE_NOTE);
}

#[test]
fn beat_time_arithmetic() {
    let t = BeatTime::zero();
    assert_eq!(t, BeatTime(0));
    let t = t.add(BeatDuration(QN));
    assert_eq!(t, BeatTime(120));
    assert_eq!(t.mul(3), BeatTime(360));
    assert_eq!(t.div(2), BeatTime(60));
    let mut t2 = t;
    t2.add_assign(BeatDuration(EIGHTH_NOTE));
    assert_eq!(t2, BeatTime(180));
}

#[test]
fn beat_duration_arithmetic() {
    let d = BeatDuration(QN);
    assert_eq!(d.add(BeatDuration(QN)), BeatDuration(HALF_NOTE));
    assert_eq!(d.mul(4), BeatDuration(WHOLE_NOTE));
    assert_eq!(d.div(2), BeatDuration(EIGHTH_NOTE));
    assert_eq!(d.rem(7), 120 % 7);
}

#[test]
fn subdivision_totals_its_weights() {
    let s = Subdivision::new(&vec![2, 1, 1]);
    assert_eq!(s.total, 4);
    assert_eq!(s.subs, vec![2, 1, 1]);
}

#[test]
fn subdivided_splits_evenly() {
    let parts = BeatDuration(WHOLE_NOTE)
        .subdivided(Subdivision::new(&vec![2, 1, 1]))
        .unwrap();
    assert_eq!(
        parts,
        vec![BeatDuration(HALF_NOTE), BeatDuration(QUARTER_NOTE), BeatDuration(QUARTER_NOTE)]
    );
}

#[test]
fn subdivided_rejects_uneven_split() {
    // 120 ticks cannot be split into 7 equal atoms.
    assert!(BeatDuration(QUARTER_NOTE)
        .subdivided(Subdivision::new(&vec![3, 4]))
        .is_none());
}

#[test]
fn rhythm_holds_one_duration() {
    let r = Rhythm::new(BeatDuration(QN));
    assert_eq!(r.durations, vec![BeatDuration(QN)]);
}

#[test]
fn default_config_subdivisions() {
    let c = Config::default();
    assert_eq!(c.subdivisions.len(), 11);
    assert_eq!(c.subdivisions[0].subs, vec![1]);
    assert_eq!(c.subdivisions[0].total, 1);
    assert_eq!(c.subdivisions[5].subs, vec![1, 1, 1, 1]);
    assert_eq!(c.subdivisions[5].total, 4);
    assert_eq!(c.subdivisions[10].subs, vec![1, 3]);
    assert_eq!(c.subdivisions[10].total, 4);
}
