use vstd::prelude::*;

verus! {

use crate::pitch::{ChromaticRange, Interval, Note};

impl ChromaticRange {
    /// A non-transposing range: parts are written where they sound.
    pub fn new(lower_sounding: Note, upper_sounding: Note) -> (r: ChromaticRange)
        ensures
            r.lower_sounding == lower_sounding,
            r.upper_sounding == upper_sounding,
            r.write_transposition.0 == 0,
    {
        ChromaticRange { lower_sounding, upper_sounding, write_transposition: Interval(0) }
    }

    /// Shifts the sounding range up by `transposition`; written parts
    /// are then transposed the opposite way.
    pub fn sounding_transposition(self, transposition: Interval) -> (r: ChromaticRange)
        requires
            i8::MIN <= self.lower_sounding.0 + transposition.0 <= i8::MAX,
            i8::MIN <= self.upper_sounding.0 + transposition.0 <= i8::MAX,
            transposition.0 != i8::MIN,
        ensures
            r.lower_sounding.0 == self.lower_sounding.0 + transposition.0,
            r.upper_sounding.0 == self.upper_sounding.0 + transposition.0,
            r.write_transposition.0 == -transposition.0,
    {
        ChromaticRange {
            lower_sounding: self.lower_sounding.add_const(transposition),
            upper_sounding: self.upper_sounding.add_const(transposition),
            write_transposition: transposition.neg_const(),
        }
    }
}

} // verus!
