use muth::wavetable::{
    wavetable_from_harmonics, wavetable_lerp_sample, Wavetable, AMP_SCALE, PHASE_SCALE, PHASE_STEP,
    WAVETABLE_SIZE,
};

fn sine_entries() -> Vec<i64> {
    let mut v = Vec::new();
    for i in 0..WAVETABLE_SIZE {
        let x = (i as f64) / (WAVETABLE_SIZE as f64) * std::f64::consts::TAU;
        v.push((x.sin() * ((AMP_SCALE - 1) as f64)).round() as i64);
    }
    v
}

fn sine() -> Wavetable {
    Wavetable::new(sine_entries()).unwrap()
}

#[test]
fn new_rejects_wrong_length() {
    assert!(Wavetable::new(vec![0i64; 100]).is_none());
    assert!(Wavetable::new(Vec::new()).is_none());
}

#[test]
fn new_rejects_out_of_range_entries() {
    let mut entries = vec![0i64; WAVETABLE_SIZE];
    entries[17] = AMP_SCALE + 1;
    assert!(Wavetable::new(entries).is_none());
    let mut entries = vec![0i64; WAVETABLE_SIZE];
    entries[1000] = -AMP_SCALE - 1;
    assert!(Wavetable::new(entries).is_none());
}

#[test]
fn new_accepts_a_unit_sine() {
    let t = Wavetable::new(sine_entries());
    assert!(t.is_some());
}

#[test]
fn from_harmonics_rejects_empty_and_zero_weights() {
    let s = sine();
    assert!(wavetable_from_harmonics(&Vec::new(), &s).is_none());
    assert!(wavetable_from_harmonics(&vec![0, 0, 0], &s).is_none());
}

#[test]
fn single_harmonic_reproduces_the_sine() {
    let s = sine();
    let w = wavetable_from_harmonics(&vec![1], &s).unwrap();
    assert_eq!(w.table, s.table);
}

#[test]
fn two_harmonics_average_octaves() {
    let s = sine();
    let w = wavetable_from_harmonics(&vec![1, 1], &s).unwrap();
    // At a quarter cycle the fundamental peaks and the octave is at a
    // zero crossing, so the normalized sum is half the peak.
    assert_eq!(s.table[256], AMP_SCALE - 1);
    assert_eq!(s.table[512], 0);
    assert_eq!(w.table[256], (AMP_SCALE - 1) / 2);
    assert_eq!(w.table[0], 0);
}

#[test]
fn normalized_tables_stay_within_unit_amplitude() {
    let s = sine();
    let weights = vec![10, 7, 6, 5, 5, 4, 4, 3, 3, 2, 2, 2];
    let w = wavetable_from_harmonics(&weights, &s).unwrap();
    for &e in &w.table {
        assert!(-AMP_SCALE <= e && e <= AMP_SCALE);
    }
    for phase in (0..PHASE_SCALE).step_by((PHASE_SCALE / 4096) as usize) {
        let v = wavetable_lerp_sample(&w, phase);
        assert!(-AMP_SCALE <= v && v <= AMP_SCALE);
    }
}

#[test]
fn sampling_on_an_entry_reads_it_exactly() {
    let s = sine();
    for k in [0u64, 1, 255, 256, 512, 1023] {
        assert_eq!(wavetable_lerp_sample(&s, k * PHASE_STEP), s.table[k as usize]);
    }
}

#[test]
fn sampling_between_entries_interpolates() {
    let s = sine();
    // Halfway between the first two entries.
    let v = wavetable_lerp_sample(&s, PHASE_STEP / 2);
    let a = s.table[0];
    let b = s.table[1];
    assert_eq!(v, (a + b) / 2);
    assert_eq!(v, 100);
}

#[test]
fn sampling_is_periodic() {
    let s = sine();
    for phase in [0u64, 1, 12345, PHASE_STEP * 700 + 99] {
        assert_eq!(
            wavetable_lerp_sample(&s, phase),
            wavetable_lerp_sample(&s, phase + PHASE_SCALE)
        );
        assert_eq!(
            wavetable_lerp_sample(&s, phase),
            wavetable_lerp_sample(&s, phase + 3 * PHASE_SCALE)
        );
    }
}
