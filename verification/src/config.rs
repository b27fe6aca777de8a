//! The default rhythmic configuration: the subdivisions a measure may
//! be split into, up to four parts.
use vstd::prelude::*;

verus! {

use crate::numeric::lemma_sum_u64_le;
use crate::rhythm::Subdivision;

/// The weight lists of the default subdivisions: one whole, halves,
/// the three-part splits, and the four-part splits.
pub open spec fn default_subdivision_weights() -> Seq<Seq<u64>> {
    seq![
        seq![1u64],
        seq![1u64, 1],
        seq![1u64, 1, 1],
        seq![2u64, 1],
        seq![1u64, 2],
        seq![1u64, 1, 1, 1],
        seq![2u64, 1, 1],
        seq![1u64, 2, 1],
        seq![1u64, 1, 2],
        seq![3u64, 1],
        seq![1u64, 3],
    ]
}

pub struct Config {
    pub subdivisions: Vec<Subdivision>,
}

impl Config {
    pub open spec fn wf(self) -> bool {
        forall|i: int| 0 <= i < self.subdivisions@.len() ==> (#[trigger] self.subdivisions@[i]).wf()
    }
}

impl Default for Config {
    /// The standard set of subdivisions.
    fn default() -> (r: Config)
        ensures
            r.wf(),
            r.subdivisions@.len() == default_subdivision_weights().len(),
            forall|i: int|
                0 <= i < r.subdivisions@.len() ==> (#[trigger] r.subdivisions@[i]).subs@
                    == default_subdivision_weights()[i],
    {
        let weight_lists: Vec<Vec<u64>> = vec![
            vec![1u64],
            vec![1u64, 1],
            vec![1u64, 1, 1],
            vec![2u64, 1],
            vec![1u64, 2],
            vec![1u64, 1, 1, 1],
            vec![2u64, 1, 1],
            vec![1u64, 2, 1],
            vec![1u64, 1, 2],
            vec![3u64, 1],
            vec![1u64, 3],
        ];
        proof {
            assert(weight_lists@.len() == default_subdivision_weights().len());
            assert forall|i: int| 0 <= i < weight_lists@.len() implies (
            #[trigger] weight_lists@[i])@ =~= default_subdivision_weights()[i] by {
            }
        }
        let mut subdivisions: Vec<Subdivision> = Vec::new();
        let mut i: usize = 0;
        while i < weight_lists.len()
            invariant
                i <= weight_lists@.len(),
                subdivisions@.len() == i,
                forall|j: int|
                    0 <= j < weight_lists@.len() ==> (#[trigger] weight_lists@[j])@.len() <= 4
                        && (forall|k: int|
                        0 <= k < weight_lists@[j]@.len() ==> #[trigger] weight_lists@[j]@[k] <= 3),
                forall|j: int|
                    0 <= j < weight_lists@.len() ==> (#[trigger] weight_lists@[j])@
                        == default_subdivision_weights()[j],
                forall|j: int| 0 <= j < i ==> (#[trigger] subdivisions@[j]).wf(),
                forall|j: int|
                    0 <= j < i ==> (#[trigger] subdivisions@[j]).subs@
                        == default_subdivision_weights()[j],
            decreases weight_lists@.len() - i,
        {
            proof {
                lemma_sum_u64_le(weight_lists@[i as int]@, 3);
            }
            subdivisions.push(Subdivision::new(&weight_lists[i]));
            i = i + 1;
        }
        Config { subdivisions }
    }
}

} // verus!
