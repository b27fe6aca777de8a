use vstd::prelude::*;

verus! {

pub const C: i8 = 0;
pub const Cs: i8 = 1;
pub const Db: i8 = 1;
pub const D: i8 = 2;
pub const Ds: i8 = 3;
pub const Eb: i8 = 3;
pub const E: i8 = 4;
pub const F: i8 = 5;
pub const Fs: i8 = 6;
pub const Gb: i8 = 6;
pub const G: i8 = 7;
pub const Gs: i8 = 8;
pub const Ab: i8 = 8;
pub const A: i8 = 9;
pub const As: i8 = 10;
pub const Bb: i8 = 10;
pub const B: i8 = 11;
pub const Cb: i8 = 11;
pub const NUM_PC: i8 = 12;

} // verus!
