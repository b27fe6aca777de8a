use vstd::prelude::*;

verus! {

use crate::numeric::{lemma_sum_u64_take_le, lemma_sum_u64_take_step, sum_u64};
use crate::rhythm::Subdivision;

impl Subdivision {
    /// `total` records the sum of the weights.
    pub open spec fn wf(self) -> bool {
        self.total == sum_u64(self.subs@)
    }

    pub fn new(subs: &Vec<u64>) -> (r: Subdivision)
        requires
            sum_u64(subs@) <= u64::MAX,
        ensures
            r.wf(),
            r.subs@ == subs@,
            r.total == sum_u64(subs@),
    {
        let mut total: u64 = 0;
        let mut i: usize = 0;
        while i < subs.len()
            invariant
                i <= subs.len(),
                total == sum_u64(subs@.take(i as int)),
                sum_u64(subs@) <= u64::MAX,
            decreases subs.len() - i,
        {
            proof {
                lemma_sum_u64_take_step(subs@, i as int);
                lemma_sum_u64_take_le(subs@, i + 1);
            }
            total = total + subs[i];
            i = i + 1;
        }
        proof {
            assert(subs@.take(subs@.len() as int) =~= subs@);
        }
        Subdivision { total, subs: subs.clone() }
    }
}

} // verus!
