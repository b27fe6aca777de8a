use muth::pitch::interval::{MAJ_2, MAJ_3, PER_4, PER_5, PER_8};
use muth::pitch::note::{A4, C4, C5, G9};
use muth::pitch::{ChromaticRange, Degree, Interval, Note, NoteRange};

#[test]
fn interval_new_and_ops() {
    let a = Interval::new(4);
    let b = Interval::new(3);
    assert_eq!(a.add(b), Interval(7));
    assert_eq!(a.sub(b), Interval(1));
    assert_eq!(b.sub(a), Interval(-1));
    assert_eq!(a.neg(), Interval(-4));
    assert_eq!(a.neg_const(), Interval(-4));
}

#[test]
fn interval_positive_less_than_wraps_negatives() {
    assert_eq!(Interval::new(-1).positive_less_than(12), Interval(11));
    assert_eq!(Interval::new(13).positive_less_than(12), Interval(1));
    assert_eq!(Interval::new(0).positive_less_than(12), Interval(0));
    assert_eq!(Interval::new(-24).positive_less_than(12), Interval(0));
}

#[test]
fn note_arithmetic() {
    let c4 = Note::new(C4);
    assert_eq!(c4.add_const(Interval::new(PER_8)), Note(C5));
    assert_eq!(c4.add(Interval::new(MAJ_2)), Note(62));
    assert_eq!(c4.sub(Interval::new(MAJ_3)), Note(56));
    assert_eq!(Note::new(A4).as_index(), 69);
}

#[test]
fn note_frequencies_follow_equal_temperament() {
    assert_eq!(Note::new(A4).freq_millihz(), 440_000);
    assert_eq!(Note::new(A4 + 12).freq_millihz(), 880_000);
    assert_eq!(Note::new(A4 - 12).freq_millihz(), 220_000);
    assert_eq!(Note::new(C4).freq_millihz(), 261_632);
    assert_eq!(Note::new(0).freq_millihz(), 8_176);
    assert_eq!(Note::new(G9).freq_millihz(), 12_544_000);
}

#[test]
fn every_note_doubles_per_octave() {
    for n in 0..116i8 {
        let low = Note::new(n).freq_millihz();
        let high = Note::new(n + 12).freq_millihz();
        assert_eq!(high, 2 * low);
    }
}

#[test]
fn chromatic_range_transposition() {
    let sounding: NoteRange = ChromaticRange::new(Note::new(52), Note::new(96));
    assert_eq!(sounding.write_transposition, Interval(0));
    let transposed = sounding.sounding_transposition(Interval::new(PER_5));
    assert_eq!(transposed.lower_sounding, Note(52 + PER_5));
    assert_eq!(transposed.upper_sounding, Note(96 + PER_5));
    assert_eq!(transposed.write_transposition, Interval(-PER_5));
    let down = sounding.sounding_transposition(Interval::new(-PER_4));
    assert_eq!(down.lower_sounding, Note(52 - PER_4));
    assert_eq!(down.write_transposition, Interval(PER_4));
}

#[test]
fn degree_wraps_value() {
    assert_eq!(Degree::new(3), Degree(3));
}
