use vstd::prelude::*;

verus! {

use crate::pitch::Interval;

impl Interval {
    pub fn new(interval: i8) -> (r: Interval)
        ensures
            r.0 == interval,
    {
        Interval(interval)
    }

    /// The representative of this interval in `[0, div)`.
    pub fn positive_less_than(self, div: i8) -> (r: Interval)
        requires
            div >= 1,
        ensures
            r.0 == self.0 as int % div as int,
            0 <= r.0 < div,
    {
        Interval(self.0.checked_rem_euclid(div).unwrap())
    }

    pub fn neg_const(self) -> (r: Interval)
        requires
            self.0 != i8::MIN,
        ensures
            r.0 == -self.0,
    {
        Interval(-self.0)
    }

    pub fn add(self, other: Interval) -> (r: Interval)
        requires
            i8::MIN <= self.0 + other.0 <= i8::MAX,
        ensures
            r.0 == self.0 + other.0,
    {
        Interval(self.0 + other.0)
    }

    pub fn sub(self, other: Interval) -> (r: Interval)
        requires
            i8::MIN <= self.0 - other.0 <= i8::MAX,
        ensures
            r.0 == self.0 - other.0,
    {
        Interval(self.0 - other.0)
    }

    pub fn neg(self) -> (r: Interval)
        requires
            self.0 != i8::MIN,
        ensures
            r.0 == -self.0,
    {
        Interval(-self.0)
    }
}

pub const DESC_PER_15: i8 = -24;
pub const DESC_MAJ_14: i8 = -23;
pub const DESC_MIN_14: i8 = -22;
pub const DESC_MAJ_13: i8 = -21;
pub const DESC_MIN_13: i8 = -20;
pub const DESC_AUG_12: i8 = -20;
pub const DESC_PER_12: i8 = -19;
pub const DESC_DIM_12: i8 = -18;
pub const DESC_AUG_11: i8 = -18;
pub const DESC_PER_11: i8 = -17;
pub const DESC_MAJ_10: i8 = -16;
pub const DESC_MIN_10: i8 = -15;
pub const DESC_MAJ_9: i8 = -14;
pub const DESC_MIN_9: i8 = -13;
pub const DESC_PER_8: i8 = -12;
pub const DESC_MAJ_7: i8 = -11;
pub const DESC_MIN_7: i8 = -10;
pub const DESC_MAJ_6: i8 = -9;
pub const DESC_MIN_6: i8 = -8;
pub const DESC_AUG_5: i8 = -8;
pub const DESC_PER_5: i8 = -7;
pub const DESC_DIM_5: i8 = -6;
pub const DESC_AUG_4: i8 = -6;
pub const DESC_PER_4: i8 = -5;
pub const DESC_MAJ_3: i8 = -4;
pub const DESC_MIN_3: i8 = -3;
pub const DESC_MAJ_2: i8 = -2;
pub const DESC_MIN_2: i8 = -1;
pub const PER_1: i8 = 0;
pub const MIN_2: i8 = 1;
pub const MAJ_2: i8 = 2;
pub const MIN_3: i8 = 3;
pub const MAJ_3: i8 = 4;
pub const DIM_4: i8 = 5;
pub const PER_4: i8 = 5;
pub const AUG_4: i8 = 6;
pub const DIM_5: i8 = 6;
pub const PER_5: i8 = 7;
pub const AUG_5: i8 = 8;
pub const MIN_6: i8 = 8;
pub const MAJ_6: i8 = 9;
pub const MIN_7: i8 = 10;
pub const MAJ_7: i8 = 11;
pub const PER_8: i8 = 12;
pub const MIN_9: i8 = 13;
pub const MAJ_9: i8 = 14;
pub const MIN_10: i8 = 15;
pub const MAJ_10: i8 = 16;
pub const PER_11: i8 = 17;
pub const AUG_11: i8 = 18;
pub const DIM_12: i8 = 18;
pub const PER_12: i8 = 19;
pub const AUG_12: i8 = 20;
pub const MIN_13: i8 = 20;
pub const MAJ_13: i8 = 21;
pub const MIN_14: i8 = 22;
pub const MAJ_14: i8 = 23;
pub const PER_15: i8 = 24;

} // verus!
