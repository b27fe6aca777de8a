use vstd::prelude::*;

verus! {

use vstd::arithmetic::div_mod::lemma_fundamental_div_mod;
use vstd::arithmetic::mul::lemma_mul_inequality;
use crate::numeric::{lemma_sum_u64_nonneg, lemma_sum_u64_take_le, lemma_sum_u64_take_step, sum_u64};
use crate::rhythm::{BeatDuration, Subdivision};

impl BeatDuration {
    /// Splits this duration into one part per weight of `sub`, each part
    /// `atom * weight` where `atom = self / sub.total`; the split exists
    /// exactly when the weights' total divides this duration evenly.
    pub fn subdivided(self, sub: Subdivision) -> (r: Option<Vec<BeatDuration>>)
        requires
            sub.wf(),
            sub.total >= 1,
        ensures
            r.is_some() <==> self.0 % sub.total == 0,
            r.is_some() ==> {
                let parts = r.unwrap()@;
                &&& parts.len() == sub.subs@.len()
                &&& forall|i: int|
                    0 <= i < parts.len() ==> parts[i].0 == (self.0 / sub.total) * sub.subs@[i]
            },
    {
        if self.0 % sub.total != 0 {
            return None;
        }
        let atom: u64 = self.0 / sub.total;
        let mut parts: Vec<BeatDuration> = Vec::new();
        let mut i: usize = 0;
        while i < sub.subs.len()
            invariant
                i <= sub.subs.len(),
                sub.wf(),
                sub.total >= 1,
                atom == self.0 / sub.total,
                parts@.len() == i,
                forall|j: int| 0 <= j < i ==> parts@[j].0 == atom * sub.subs@[j],
            decreases sub.subs.len() - i,
        {
            proof {
                lemma_weight_product_bounded(self.0, sub.subs@, sub.total, i as int);
            }
            parts.push(BeatDuration(atom * sub.subs[i]));
            i = i + 1;
        }
        Some(parts)
    }

    pub fn add(self, other: BeatDuration) -> (r: BeatDuration)
        requires
            self.0 + other.0 <= u64::MAX,
        ensures
            r.0 == self.0 + other.0,
    {
        BeatDuration(self.0 + other.0)
    }

    pub fn mul(self, other: u64) -> (r: BeatDuration)
        requires
            self.0 * other <= u64::MAX,
        ensures
            r.0 == self.0 * other,
    {
        BeatDuration(self.0 * other)
    }

    pub fn div(self, other: u64) -> (r: BeatDuration)
        requires
            other >= 1,
        ensures
            r.0 == self.0 / other,
    {
        BeatDuration(self.0 / other)
    }

    pub fn rem(self, other: u64) -> (r: u64)
        requires
            other >= 1,
        ensures
            r == self.0 % other,
    {
        self.0 % other
    }
}

/// Each weight is at most the total, so `atom * weight` stays within the
/// duration being subdivided.
proof fn lemma_weight_product_bounded(d: u64, subs: Seq<u64>, total: u64, i: int)
    requires
        0 <= i < subs.len(),
        total == sum_u64(subs),
        total >= 1,
    ensures
        (d / total) * subs[i] <= d,
{
    lemma_sum_u64_take_step(subs, i);
    lemma_sum_u64_take_le(subs, i + 1);
    lemma_sum_u64_nonneg(subs.take(i));
    assert(subs[i] <= total);
    lemma_mul_inequality(subs[i] as int, total as int, (d / total) as int);
    lemma_fundamental_div_mod(d as int, total as int);
}

} // verus!
