use vstd::prelude::*;

verus! {

use crate::rhythm::{BeatDuration, Rhythm};

impl Rhythm {
    pub fn new(bd: BeatDuration) -> (r: Rhythm)
        ensures
            r.durations@ == seq![bd],
    {
        let mut durations: Vec<BeatDuration> = Vec::new();
        durations.push(bd);
        proof {
            assert(durations@ =~= seq![bd]);
        }
        Rhythm { durations }
    }
}

} // verus!
