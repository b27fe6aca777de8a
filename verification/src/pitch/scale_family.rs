use vstd::prelude::*;

verus! {

use vstd::string::*;
use crate::pitch::interval::{AUG_5, DIM_5, MAJ_2, MAJ_3, MAJ_6, MAJ_7, MIN_3, PER_1, PER_4, PER_5, AUG_4};
use crate::pitch::{Interval, ScaleFamily, DIATONIC_COUNT, FIFTH, THIRD};
use crate::text::string_push;

// ------------------------------------------------------------------
// Roman numerals
// ------------------------------------------------------------------

/// The roman numeral for `n` (empty for `n <= 0`), by the greedy rule:
/// always take the largest symbol that fits.
pub open spec fn roman_spec(n: int) -> Seq<char>
    decreases n,
{
    if n <= 0 {
        Seq::empty()
    } else if n >= 1000 {
        seq!['M'] + roman_spec(n - 1000)
    } else if n >= 900 {
        seq!['C', 'M'] + roman_spec(n - 900)
    } else if n >= 500 {
        seq!['D'] + roman_spec(n - 500)
    } else if n >= 400 {
        seq!['C', 'D'] + roman_spec(n - 400)
    } else if n >= 100 {
        seq!['C'] + roman_spec(n - 100)
    } else if n >= 90 {
        seq!['X', 'C'] + roman_spec(n - 90)
    } else if n >= 50 {
        seq!['L'] + roman_spec(n - 50)
    } else if n >= 40 {
        seq!['X', 'L'] + roman_spec(n - 40)
    } else if n >= 10 {
        seq!['X'] + roman_spec(n - 10)
    } else if n >= 9 {
        seq!['I', 'X'] + roman_spec(n - 9)
    } else if n >= 5 {
        seq!['V'] + roman_spec(n - 5)
    } else if n >= 4 {
        seq!['I', 'V'] + roman_spec(n - 4)
    } else {
        seq!['I'] + roman_spec(n - 1)
    }
}

pub fn roman_num(n: usize) -> (r: String)
    ensures
        r@ == roman_spec(n as int),
    decreases n,
{
    proof {
        reveal_strlit("M");
        reveal_strlit("CM");
        reveal_strlit("D");
        reveal_strlit("CD");
        reveal_strlit("C");
        reveal_strlit("XC");
        reveal_strlit("L");
        reveal_strlit("XL");
        reveal_strlit("X");
        reveal_strlit("IX");
        reveal_strlit("V");
        reveal_strlit("IV");
        reveal_strlit("I");
    }
    if n >= 1000 {
        let mut s = String::from_str("M");
        let rest = roman_num(n - 1000);
        s.append(rest.as_str());
        proof {
            assert(s@ =~= seq!['M'] + roman_spec(n - 1000));
        }
        s
    } else if n >= 900 {
        let mut s = String::from_str("CM");
        let rest = roman_num(n - 900);
        s.append(rest.as_str());
        proof {
            assert(s@ =~= seq!['C', 'M'] + roman_spec(n - 900));
        }
        s
    } else if n >= 500 {
        let mut s = String::from_str("D");
        let rest = roman_num(n - 500);
        s.append(rest.as_str());
        proof {
            assert(s@ =~= seq!['D'] + roman_spec(n - 500));
        }
        s
    } else if n >= 400 {
        let mut s = String::from_str("CD");
        let rest = roman_num(n - 400);
        s.append(rest.as_str());
        proof {
            assert(s@ =~= seq!['C', 'D'] + roman_spec(n - 400));
        }
        s
    } else if n >= 100 {
        let mut s = String::from_str("C");
        let rest = roman_num(n - 100);
        s.append(rest.as_str());
        proof {
            assert(s@ =~= seq!['C'] + roman_spec(n - 100));
        }
        s
    } else if n >= 90 {
        let mut s = String::from_str("XC");
        let rest = roman_num(n - 90);
        s.append(rest.as_str());
        proof {
            assert(s@ =~= seq!['X', 'C'] + roman_spec(n - 90));
        }
        s
    } else if n >= 50 {
        let mut s = String::from_str("L");
        let rest = roman_num(n - 50);
        s.append(rest.as_str());
        proof {
            assert(s@ =~= seq!['L'] + roman_spec(n - 50));
        }
        s
    } else if n >= 40 {
        let mut s = String::from_str("XL");
        let rest = roman_num(n - 40);
        s.append(rest.as_str());
        proof {
            assert(s@ =~= seq!['X', 'L'] + roman_spec(n - 40));
        }
        s
    } else if n >= 10 {
        let mut s = String::from_str("X");
        let rest = roman_num(n - 10);
        s.append(rest.as_str());
        proof {
            assert(s@ =~= seq!['X'] + roman_spec(n - 10));
        }
        s
    } else if n >= 9 {
        let mut s = String::from_str("IX");
        let rest = roman_num(n - 9);
        s.append(rest.as_str());
        proof {
            assert(s@ =~= seq!['I', 'X'] + roman_spec(n - 9));
        }
        s
    } else if n >= 5 {
        let mut s = String::from_str("V");
        let rest = roman_num(n - 5);
        s.append(rest.as_str());
        proof {
            assert(s@ =~= seq!['V'] + roman_spec(n - 5));
        }
        s
    } else if n >= 4 {
        let mut s = String::from_str("IV");
        let rest = roman_num(n - 4);
        s.append(rest.as_str());
        proof {
            assert(s@ =~= seq!['I', 'V'] + roman_spec(n - 4));
        }
        s
    } else if n >= 1 {
        let mut s = String::from_str("I");
        let rest = roman_num(n - 1);
        s.append(rest.as_str());
        proof {
            assert(s@ =~= seq!['I'] + roman_spec(n - 1));
        }
        s
    } else {
        let s = String::new();
        proof {
            assert(s@ =~= Seq::<char>::empty());
        }
        s
    }
}

/// Lower-cases the seven roman numeral letters; other characters are
/// kept as they are.
pub open spec fn lower_roman_char(c: char) -> char {
    if c == 'I' {
        'i'
    } else if c == 'V' {
        'v'
    } else if c == 'X' {
        'x'
    } else if c == 'L' {
        'l'
    } else if c == 'C' {
        'c'
    } else if c == 'D' {
        'd'
    } else if c == 'M' {
        'm'
    } else {
        c
    }
}

pub open spec fn lower_roman_spec(s: Seq<char>) -> Seq<char> {
    s.map_values(|c: char| lower_roman_char(c))
}

pub fn lower_roman(s: &str) -> (r: String)
    ensures
        r@ == lower_roman_spec(s@),
{
    let len = s.unicode_len();
    let mut out = String::new();
    proof {
        assert(out@ =~= Seq::<char>::empty());
        assert(lower_roman_spec(s@.take(0)) =~= Seq::<char>::empty());
    }
    let mut i: usize = 0;
    while i < len
        invariant
            i <= len,
            len == s@.len(),
            out@ == lower_roman_spec(s@.take(i as int)),
        decreases len - i,
    {
        let c = s.get_char(i);
        let lc: char = if c == 'I' {
            'i'
        } else if c == 'V' {
            'v'
        } else if c == 'X' {
            'x'
        } else if c == 'L' {
            'l'
        } else if c == 'C' {
            'c'
        } else if c == 'D' {
            'd'
        } else if c == 'M' {
            'm'
        } else {
            c
        };
        string_push(&mut out, lc);
        proof {
            assert(lower_roman_spec(s@.take(i as int + 1)) =~= lower_roman_spec(
                s@.take(i as int),
            ).push(lower_roman_char(s@[i as int])));
        }
        i = i + 1;
    }
    proof {
        assert(s@.take(len as int) =~= s@);
    }
    out
}

// ------------------------------------------------------------------
// Modes of a scale
// ------------------------------------------------------------------

/// The interval of degree `j` of the mode starting on degree `i`:
/// the scale step `i + j` (wrapping around), re-rooted on step `i`,
/// reduced to one octave.
pub open spec fn mode_entry(scale: Seq<Interval>, i: int, j: int) -> int {
    (scale[(i + j) % (scale.len() as int)].0 - scale[i].0) % 12
}

/// All modes of a scale: `r[i][j]` is `mode_entry(scale, i, j)`.
pub fn calc_modes(scale: &Vec<Interval>) -> (r: Vec<Vec<Interval>>)
    requires
        scale@.len() >= 1,
        scale@.len() <= 0x7fff_ffff,
    ensures
        r@.len() == scale@.len(),
        forall|i: int| 0 <= i < r@.len() ==> (#[trigger] r@[i])@.len() == scale@.len(),
        forall|i: int, j: int|
            0 <= i < r@.len() && 0 <= j < scale@.len() ==> (#[trigger] r@[i]@[j]).0 == mode_entry(
                scale@,
                i,
                j,
            ),
{
    let len = scale.len();
    let mut modes: Vec<Vec<Interval>> = Vec::new();
    let mut i: usize = 0;
    while i < len
        invariant
            i <= len,
            len == scale@.len(),
            1 <= len <= 0x7fff_ffff,
            modes@.len() == i,
            forall|a: int| 0 <= a < i ==> (#[trigger] modes@[a])@.len() == len,
            forall|a: int, b: int|
                0 <= a < i && 0 <= b < len ==> (#[trigger] modes@[a]@[b]).0 == mode_entry(
                    scale@,
                    a,
                    b,
                ),
        decreases len - i,
    {
        let mut row: Vec<Interval> = Vec::new();
        let mut j: usize = 0;
        while j < len
            invariant
                i < len,
                j <= len,
                len == scale@.len(),
                1 <= len <= 0x7fff_ffff,
                row@.len() == j,
                forall|b: int|
                    0 <= b < j ==> (#[trigger] row@[b]).0 == mode_entry(scale@, i as int, b),
            decreases len - j,
        {
            let idx = (i + j) % len;
            let diff: i32 = scale[idx].0 as i32 - scale[i].0 as i32;
            let e: i32 = diff.checked_rem_euclid(12).unwrap();
            row.push(Interval(e as i8));
            j = j + 1;
        }
        modes.push(row);
        i = i + 1;
    }
    modes
}

// ------------------------------------------------------------------
// Scale families
// ------------------------------------------------------------------

/// The intervals of the major scale, also the reference against which
/// chord names mark raised or lowered degrees.
pub open spec fn major_step_spec(d: int) -> int {
    if d == 0 {
        0
    } else if d == 1 {
        2
    } else if d == 2 {
        4
    } else if d == 3 {
        5
    } else if d == 4 {
        7
    } else if d == 5 {
        9
    } else {
        11
    }
}

fn major_step(d: usize) -> (r: i8)
    requires
        d < DIATONIC_COUNT,
    ensures
        r == major_step_spec(d as int),
{
    if d == 0 {
        0
    } else if d == 1 {
        2
    } else if d == 2 {
        4
    } else if d == 3 {
        5
    } else if d == 4 {
        7
    } else if d == 5 {
        9
    } else {
        11
    }
}

pub open spec fn major_intervals() -> Seq<Interval> {
    seq![
        Interval(0),
        Interval(2),
        Interval(4),
        Interval(5),
        Interval(7),
        Interval(9),
        Interval(11),
    ]
}

pub open spec fn harmonic_minor_intervals() -> Seq<Interval> {
    seq![
        Interval(0),
        Interval(2),
        Interval(4),
        Interval(5),
        Interval(8),
        Interval(9),
        Interval(11),
    ]
}

pub open spec fn melodic_minor_intervals() -> Seq<Interval> {
    seq![
        Interval(0),
        Interval(2),
        Interval(4),
        Interval(6),
        Interval(8),
        Interval(9),
        Interval(11),
    ]
}


/// The mode names of the major family.
pub open spec fn major_names_match(names: Seq<String>) -> bool {
    &&& names.len() == 7
    &&& names[0]@ == "Ionian"@
    &&& names[1]@ == "Dorian"@
    &&& names[2]@ == "Phrygian"@
    &&& names[3]@ == "Lydian"@
    &&& names[4]@ == "Mixolydian"@
    &&& names[5]@ == "Aeolian"@
    &&& names[6]@ == "Locrian"@
}

/// The mode names of the harmonic minor family.
pub open spec fn harmonic_minor_names_match(names: Seq<String>) -> bool {
    &&& names.len() == 7
    &&& names[0]@ == "Ionian #5"@
    &&& names[1]@ == "Dorian #4"@
    &&& names[2]@ == "Phrygian Dominant"@
    &&& names[3]@ == "Lydian #2"@
    &&& names[4]@ == "Superlocrian"@
    &&& names[5]@ == "Harmonic Minor"@
    &&& names[6]@ == "Locrian #6"@
}

/// The mode names of the melodic minor family.
pub open spec fn melodic_minor_names_match(names: Seq<String>) -> bool {
    &&& names.len() == 7
    &&& names[0]@ == "Lydian Augmented"@
    &&& names[1]@ == "Lydian Dominant"@
    &&& names[2]@ == "Mixolydian b6"@
    &&& names[3]@ == "Half-Diminished"@
    &&& names[4]@ == "Altered"@
    &&& names[5]@ == "Melodic Minor"@
    &&& names[6]@ == "Dorian b2"@
}

/// The family's mode table is exactly the modes of `scale`.
pub open spec fn family_modes_match(f: ScaleFamily, scale: Seq<Interval>) -> bool {
    &&& f.modes@.len() == scale.len()
    &&& forall|i: int| 0 <= i < scale.len() ==> (#[trigger] f.modes@[i])@.len() == scale.len()
    &&& forall|i: int, j: int|
        0 <= i < scale.len() && 0 <= j < scale.len() ==> (#[trigger] f.modes@[i]@[j]).0
            == mode_entry(scale, i, j)
}

impl ScaleFamily {
    /// Seven modes of seven degrees each.
    pub open spec fn wf(self) -> bool {
        &&& self.modes@.len() == DIATONIC_COUNT
        &&& forall|i: int|
            0 <= i < DIATONIC_COUNT ==> (#[trigger] self.modes@[i])@.len() == DIATONIC_COUNT
    }

    pub fn new(intervals: &Vec<Interval>, names: Vec<String>) -> (r: ScaleFamily)
        requires
            1 <= intervals@.len() <= 0x7fff_ffff,
        ensures
            family_modes_match(r, intervals@),
            r.names == names,
    {
        ScaleFamily { modes: calc_modes(intervals), names }
    }

    pub fn major() -> (r: ScaleFamily)
        ensures
            r.wf(),
            family_modes_match(r, major_intervals()),
            major_names_match(r.names@),
    {
        let intervals = vec![
            Interval::new(PER_1),
            Interval::new(MAJ_2),
            Interval::new(MAJ_3),
            Interval::new(PER_4),
            Interval::new(PER_5),
            Interval::new(MAJ_6),
            Interval::new(MAJ_7),
        ];
        proof {
            assert(intervals@ =~= major_intervals());
        }
        ScaleFamily::new(
            &intervals,
            vec![
                String::from_str("Ionian"),
                String::from_str("Dorian"),
                String::from_str("Phrygian"),
                String::from_str("Lydian"),
                String::from_str("Mixolydian"),
                String::from_str("Aeolian"),
                String::from_str("Locrian"),
            ],
        )
    }

    pub fn harmonic_minor() -> (r: ScaleFamily)
        ensures
            r.wf(),
            family_modes_match(r, harmonic_minor_intervals()),
            harmonic_minor_names_match(r.names@),
    {
        let intervals = vec![
            Interval::new(PER_1),
            Interval::new(MAJ_2),
            Interval::new(MAJ_3),
            Interval::new(PER_4),
            Interval::new(AUG_5),
            Interval::new(MAJ_6),
            Interval::new(MAJ_7),
        ];
        proof {
            assert(intervals@ =~= harmonic_minor_intervals());
        }
        ScaleFamily::new(
            &intervals,
            vec![
                String::from_str("Ionian #5"),
                String::from_str("Dorian #4"),
                String::from_str("Phrygian Dominant"),
                String::from_str("Lydian #2"),
                String::from_str("Superlocrian"),
                String::from_str("Harmonic Minor"),
                String::from_str("Locrian #6"),
            ],
        )
    }

    pub fn melodic_minor() -> (r: ScaleFamily)
        ensures
            r.wf(),
            family_modes_match(r, melodic_minor_intervals()),
            melodic_minor_names_match(r.names@),
    {
        let intervals = vec![
            Interval::new(PER_1),
            Interval::new(MAJ_2),
            Interval::new(MAJ_3),
            Interval::new(AUG_4),
            Interval::new(AUG_5),
            Interval::new(MAJ_6),
            Interval::new(MAJ_7),
        ];
        proof {
            assert(intervals@ =~= melodic_minor_intervals());
        }
        ScaleFamily::new(
            &intervals,
            vec![
                String::from_str("Lydian Augmented"),
                String::from_str("Lydian Dominant"),
                String::from_str("Mixolydian b6"),
                String::from_str("Half-Diminished"),
                String::from_str("Altered"),
                String::from_str("Melodic Minor"),
                String::from_str("Dorian b2"),
            ],
        )
    }

    /// The name of the chord built on `scale_degree` of mode `mode`:
    /// a `#`/`b` prefix where the degree sits above or below its major
    /// position, the degree's roman numeral (lower case when the chord's
    /// third is minor), and a diminished or augmented mark after it.
    pub open spec fn roman_chord_name_spec(self, mode: int, deg: int) -> Seq<char> {
        let expected = major_step_spec(deg);
        let actual = self.modes@[mode]@[deg].0 as int;
        let prefix: Seq<char> = if actual > expected {
            seq!['#']
        } else if expected > actual {
            seq!['b']
        } else {
            Seq::empty()
        };
        let chord = self.modes@[(mode + deg) % (DIATONIC_COUNT as int)]@;
        let minor = chord[2].0 == 3;
        let numeral = if minor {
            lower_roman_spec(roman_spec(deg + 1))
        } else {
            roman_spec(deg + 1)
        };
        let suffix: Seq<char> = if minor && chord[4].0 == 6 {
            seq!['°']
        } else if !minor && chord[4].0 == 8 {
            seq!['⁺']
        } else {
            Seq::empty()
        };
        prefix + numeral + suffix
    }

    pub fn roman_chord_name(&self, mode: usize, scale_degree: usize) -> (r: String)
        requires
            self.wf(),
            mode < DIATONIC_COUNT,
            scale_degree < DIATONIC_COUNT,
        ensures
            r@ == self.roman_chord_name_spec(mode as int, scale_degree as int),
    {
        proof {
            reveal_strlit("#");
            reveal_strlit("b");
            reveal_strlit("°");
            reveal_strlit("⁺");
        }
        let mut roman_name = String::new();
        proof {
            assert(roman_name@ =~= Seq::<char>::empty());
        }
        let expected = major_step(scale_degree);
        let actual = self.modes[mode][scale_degree].0;
        if actual > expected {
            roman_name.append("#");
            proof {
                assert(roman_name@ =~= seq!['#']);
            }
        } else if expected > actual {
            roman_name.append("b");
            proof {
                assert(roman_name@ =~= seq!['b']);
            }
        }
        let chord_degree = (mode + scale_degree) % DIATONIC_COUNT;
        let minor = self.modes[chord_degree][THIRD].0 == MIN_3;
        let numeral = roman_num(scale_degree + 1);
        if minor {
            let low = lower_roman(numeral.as_str());
            roman_name.append(low.as_str());
            if self.modes[chord_degree][FIFTH].0 == DIM_5 {
                roman_name.append("°");
                proof {
                    assert(roman_name@ =~= self.roman_chord_name_spec(
                        mode as int,
                        scale_degree as int,
                    ));
                }
            } else {
                proof {
                    assert(roman_name@ =~= self.roman_chord_name_spec(
                        mode as int,
                        scale_degree as int,
                    ));
                }
            }
        } else {
            roman_name.append(numeral.as_str());
            if self.modes[chord_degree][FIFTH].0 == AUG_5 {
                roman_name.append("⁺");
                proof {
                    assert(roman_name@ =~= self.roman_chord_name_spec(
                        mode as int,
                        scale_degree as int,
                    ));
                }
            } else {
                proof {
                    assert(roman_name@ =~= self.roman_chord_name_spec(
                        mode as int,
                        scale_degree as int,
                    ));
                }
            }
        }
        roman_name
    }

    /// The scale of the chord built on `scale_degree` of mode `mode`:
    /// the mode rooted on that chord's degree.
    pub fn chord_scale_0<'a>(&'a self, mode: usize, scale_degree: usize) -> (r: &'a Vec<Interval>)
        requires
            self.wf(),
            mode < DIATONIC_COUNT,
            scale_degree < DIATONIC_COUNT,
        ensures
            r@ == self.modes@[(mode as int + scale_degree as int) % (DIATONIC_COUNT as int)]@,
    {
        &self.modes[(mode + scale_degree) % DIATONIC_COUNT]
    }
}

pub fn major_family() -> (r: ScaleFamily)
    ensures
        r.wf(),
        family_modes_match(r, major_intervals()),
        major_names_match(r.names@),
{
    ScaleFamily::major()
}

pub fn harmonic_minor_family() -> (r: ScaleFamily)
    ensures
        r.wf(),
        family_modes_match(r, harmonic_minor_intervals()),
        harmonic_minor_names_match(r.names@),
{
    ScaleFamily::harmonic_minor()
}

pub fn melodic_minor_family() -> (r: ScaleFamily)
    ensures
        r.wf(),
        family_modes_match(r, melodic_minor_intervals()),
        melodic_minor_names_match(r.names@),
{
    ScaleFamily::melodic_minor()
}

} // verus!
