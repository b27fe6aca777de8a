//! Pitch arithmetic: notes, intervals, pitch classes, instrument ranges
//! and scale families with their modes.
use vstd::prelude::*;

pub mod interval;
pub mod note;
pub mod note_range;
pub mod pitch_class;
pub mod scale_family;

verus! {

pub const DIATONIC_COUNT: usize = 7;
pub const CHROMATIC_COUNT: usize = 12;

pub const FIRST: usize = 0;
pub const SECOND: usize = 1;
pub const THIRD: usize = 2;
pub const FOURTH: usize = 3;
pub const FIFTH: usize = 4;
pub const SIXTH: usize = 5;
pub const SEVENTH: usize = 6;

pub const IONIAN: usize = 0;
pub const DORIAN: usize = 1;
pub const PHRYGIAN: usize = 2;
pub const LYDIAN: usize = 3;
pub const MIXOLYDIAN: usize = 4;
pub const AEOLIAN: usize = 5;
pub const LOCRIAN: usize = 6;

/// A scale degree: a position within a scale.
#[derive(Clone, Copy, Default, Debug, PartialEq, Eq, PartialOrd, Structural)]
pub struct Degree(pub i8);

/// A distance between two notes, in semitones.
#[derive(Clone, Copy, Default, Debug, PartialEq, Eq, PartialOrd, Structural)]
pub struct Interval(pub i8);

/// One of the 128 representable notes; 69 is the 440 Hz reference.
#[derive(Clone, Copy, Default, Debug, PartialEq, Eq, PartialOrd, Structural)]
pub struct Note(pub i8);

/// The playable range of an instrument, with the transposition applied
/// when writing parts for it.
#[derive(Clone, Copy, Default, Debug, PartialEq, Eq, PartialOrd, Structural)]
pub struct ChromaticRange {
    pub lower_sounding: Note,
    pub upper_sounding: Note,
    pub write_transposition: Interval,
}

pub type NoteRange = ChromaticRange;

/// A note name independent of octave: 0 is C, 11 is B.
#[derive(Clone, Copy, Default, Debug, PartialEq, Eq, PartialOrd, Structural)]
pub struct PitchClass(pub i8);

pub type Pc = PitchClass;

/// The seven modes obtained by starting a scale on each of its degrees.
/// `modes[m][d]` is the interval above the tonic of degree `d` of mode
/// `m`, always in `[0, 12)`.
pub struct ScaleFamily {
    pub modes: Vec<Vec<Interval>>,
    pub names: Vec<String>,
}

impl Degree {
    pub fn new(x: i8) -> (r: Degree)
        ensures
            r.0 == x,
    {
        Degree(x)
    }
}

} // verus!
