use vstd::prelude::*;

verus! {

use vstd::arithmetic::div_mod::{lemma_div_plus_one, lemma_mod_add_multiples_vanish};
use vstd::arithmetic::power2::{lemma2_to64, lemma_pow2_unfold, pow2};
use crate::pitch::{Interval, Note};

pub const MIDI_NOTE_COUNT: usize = 128;

/// Frequency in millihertz of the twelve lowest representable notes
/// (the octave of note 0). Values follow the equal-tempered mapping
/// `440 Hz * 2^((n - 69) / 12)`, rounded to the nearest millihertz;
/// note 9 of this octave is exactly 13.75 Hz, five octaves below the
/// 440 Hz reference.
pub open spec fn base_freq_millihz(pc: int) -> u64 {
    if pc == 0 {
        8176
    } else if pc == 1 {
        8662
    } else if pc == 2 {
        9177
    } else if pc == 3 {
        9723
    } else if pc == 4 {
        10301
    } else if pc == 5 {
        10913
    } else if pc == 6 {
        11562
    } else if pc == 7 {
        12250
    } else if pc == 8 {
        12978
    } else if pc == 9 {
        13750
    } else if pc == 10 {
        14568
    } else {
        15434
    }
}

/// Frequency of note `n` in millihertz: the base octave entry for its
/// pitch class, doubled once per octave. Doubling by exact powers of two
/// keeps octaves exact.
pub open spec fn note_freq_millihz_spec(n: int) -> int {
    base_freq_millihz(n % 12) * pow2((n / 12) as nat)
}

/// Raising a note by an octave exactly doubles its frequency.
pub proof fn lemma_note_freq_octave(n: int)
    requires
        n >= 0,
    ensures
        note_freq_millihz_spec(n + 12) == 2 * note_freq_millihz_spec(n),
{
    lemma_mod_add_multiples_vanish(n, 12);
    lemma_div_plus_one(n, 12);
    lemma_pow2_unfold(((n + 12) / 12) as nat);
}

impl Note {
    pub fn new(x: i8) -> (r: Note)
        ensures
            r.0 == x,
    {
        Note(x)
    }

    /// The equal-tempered frequency of this note, in millihertz.
    pub fn freq_millihz(&self) -> (r: u64)
        requires
            0 <= self.0 < 128,
        ensures
            r == note_freq_millihz_spec(self.0 as int),
            1 <= r <= 16_000_000,
    {
        let n = self.0 as u32;
        let pc = n % 12;
        let oct = n / 12;
        let base: u64 = if pc == 0 {
            8176
        } else if pc == 1 {
            8662
        } else if pc == 2 {
            9177
        } else if pc == 3 {
            9723
        } else if pc == 4 {
            10301
        } else if pc == 5 {
            10913
        } else if pc == 6 {
            11562
        } else if pc == 7 {
            12250
        } else if pc == 8 {
            12978
        } else if pc == 9 {
            13750
        } else if pc == 10 {
            14568
        } else {
            15434
        };
        let mult: u64 = if oct == 0 {
            1
        } else if oct == 1 {
            2
        } else if oct == 2 {
            4
        } else if oct == 3 {
            8
        } else if oct == 4 {
            16
        } else if oct == 5 {
            32
        } else if oct == 6 {
            64
        } else if oct == 7 {
            128
        } else if oct == 8 {
            256
        } else if oct == 9 {
            512
        } else {
            1024
        };
        proof {
            lemma2_to64();
            assert(oct <= 10);
            assert(mult == pow2(oct as nat));
        }
        base * mult
    }

    pub fn add_const(self, i: Interval) -> (r: Note)
        requires
            i8::MIN <= self.0 + i.0 <= i8::MAX,
        ensures
            r.0 == self.0 + i.0,
    {
        Note(self.0 + i.0)
    }

    /// The voice-table slot of this note.
    pub fn as_index(self) -> (r: usize)
        requires
            0 <= self.0,
        ensures
            r == self.0,
    {
        self.0 as usize
    }

    pub fn add(self, other: Interval) -> (r: Note)
        requires
            i8::MIN <= self.0 + other.0 <= i8::MAX,
        ensures
            r.0 == self.0 + other.0,
    {
        Note(self.0 + other.0)
    }

    pub fn sub(self, other: Interval) -> (r: Note)
        requires
            i8::MIN <= self.0 - other.0 <= i8::MAX,
        ensures
            r.0 == self.0 - other.0,
    {
        Note(self.0 - other.0)
    }
}

pub const Csub1: i8 = 0;
pub const Dbsub1: i8 = 1;
pub const Dsub1: i8 = 2;
pub const Ebsub1: i8 = 3;
pub const Esub1: i8 = 4;
pub const Fsub1: i8 = 5;
pub const Gbsub1: i8 = 6;
pub const Gsub1: i8 = 7;
pub const Absub1: i8 = 8;
pub const Asub1: i8 = 9;
pub const Bbsub1: i8 = 10;
pub const Bsub1: i8 = 11;
pub const C0: i8 = 12;
pub const Db0: i8 = 13;
pub const D0: i8 = 14;
pub const Eb0: i8 = 15;
pub const E0: i8 = 16;
pub const F0: i8 = 17;
pub const Gb0: i8 = 18;
pub const G0: i8 = 19;
pub const Ab0: i8 = 20;
pub const A0: i8 = 21;
pub const Bb0: i8 = 22;
pub const B0: i8 = 23;
pub const C1: i8 = 24;
pub const Db1: i8 = 25;
pub const D1: i8 = 26;
pub const Eb1: i8 = 27;
pub const E1: i8 = 28;
pub const F1: i8 = 29;
pub const Gb1: i8 = 30;
pub const G1: i8 = 31;
pub const Ab1: i8 = 32;
pub const A1: i8 = 33;
pub const Bb1: i8 = 34;
pub const B1: i8 = 35;
pub const C2: i8 = 36;
pub const Db2: i8 = 37;
pub const D2: i8 = 38;
pub const Eb2: i8 = 39;
pub const E2: i8 = 40;
pub const F2: i8 = 41;
pub const Gb2: i8 = 42;
pub const G2: i8 = 43;
pub const Ab2: i8 = 44;
pub const A2: i8 = 45;
pub const Bb2: i8 = 46;
pub const B2: i8 = 47;
pub const C3: i8 = 48;
pub const Db3: i8 = 49;
pub const D3: i8 = 50;
pub const Eb3: i8 = 51;
pub const E3: i8 = 52;
pub const F3: i8 = 53;
pub const Gb3: i8 = 54;
pub const G3: i8 = 55;
pub const Ab3: i8 = 56;
pub const A3: i8 = 57;
pub const Bb3: i8 = 58;
pub const B3: i8 = 59;
pub const C4: i8 = 60;
pub const Db4: i8 = 61;
pub const D4: i8 = 62;
pub const Eb4: i8 = 63;
pub const E4: i8 = 64;
pub const F4: i8 = 65;
pub const Gb4: i8 = 66;
pub const G4: i8 = 67;
pub const Ab4: i8 = 68;
pub const A4: i8 = 69;
pub const Bb4: i8 = 70;
pub const B4: i8 = 71;
pub const C5: i8 = 72;
pub const Db5: i8 = 73;
pub const D5: i8 = 74;
pub const Eb5: i8 = 75;
pub const E5: i8 = 76;
pub const F5: i8 = 77;
pub const Gb5: i8 = 78;
pub const G5: i8 = 79;
pub const Ab5: i8 = 80;
pub const A5: i8 = 81;
pub const Bb5: i8 = 82;
pub const B5: i8 = 83;
pub const C6: i8 = 84;
pub const Db6: i8 = 85;
pub const D6: i8 = 86;
pub const Eb6: i8 = 87;
pub const E6: i8 = 88;
pub const F6: i8 = 89;
pub const Gb6: i8 = 90;
pub const G6: i8 = 91;
pub const Ab6: i8 = 92;
pub const A6: i8 = 93;
pub const Bb6: i8 = 94;
pub const B6: i8 = 95;
pub const C7: i8 = 96;
pub const Db7: i8 = 97;
pub const D7: i8 = 98;
pub const Eb7: i8 = 99;
pub const E7: i8 = 100;
pub const F7: i8 = 101;
pub const Gb7: i8 = 102;
pub const G7: i8 = 103;
pub const Ab7: i8 = 104;
pub const A7: i8 = 105;
pub const Bb7: i8 = 106;
pub const B7: i8 = 107;
pub const C8: i8 = 108;
pub const Db8: i8 = 109;
pub const D8: i8 = 110;
pub const Eb8: i8 = 111;
pub const E8: i8 = 112;
pub const F8: i8 = 113;
pub const Gb8: i8 = 114;
pub const G8: i8 = 115;
pub const Ab8: i8 = 116;
pub const A8: i8 = 117;
pub const Bb8: i8 = 118;
pub const B8: i8 = 119;
pub const C9: i8 = 120;
pub const Db9: i8 = 121;
pub const D9: i8 = 122;
pub const Eb9: i8 = 123;
pub const E9: i8 = 124;
pub const F9: i8 = 125;
pub const Gb9: i8 = 126;
pub const G9: i8 = 127;

} // verus!
