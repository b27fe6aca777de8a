use vstd::prelude::*;

verus! {

use crate::rhythm::{BeatDuration, BeatTime};

impl BeatTime {
    /// The start of playback.
    pub fn zero() -> (r: BeatTime)
        ensures
            r.0 == 0,
    {
        BeatTime(0)
    }

    pub fn add(self, other: BeatDuration) -> (r: BeatTime)
        requires
            self.0 + other.0 <= u64::MAX,
        ensures
            r.0 == self.0 + other.0,
    {
        BeatTime(self.0 + other.0)
    }

    pub fn mul(self, other: u64) -> (r: BeatTime)
        requires
            self.0 * other <= u64::MAX,
        ensures
            r.0 == self.0 * other,
    {
        BeatTime(self.0 * other)
    }

    pub fn div(self, other: u64) -> (r: BeatTime)
        requires
            other >= 1,
        ensures
            r.0 == self.0 / other,
    {
        BeatTime(self.0 / other)
    }

    pub fn add_assign(&mut self, x: BeatDuration)
        requires
            old(self).0 + x.0 <= u64::MAX,
        ensures
            final(self).0 == old(self).0 + x.0,
    {
        self.0 = self.0 + x.0;
    }
}

} // verus!
