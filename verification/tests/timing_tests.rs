use muth::timing::{Timing, BEAT_SCALE, TIME_SCALE};

#[test]
fn new_clock_is_at_zero() {
    let t = Timing::new(44100, TIME_SCALE);
    assert_eq!(t.sample_num, 0);
    assert_eq!(t.t_abs, 0);
    assert_eq!(t.t_rel, 0);
    assert_eq!(t.beat, 0);
    assert_eq!(t.dt_abs, TIME_SCALE / 44100);
    assert_eq!(t.dt_abs, 97391);
    assert_eq!(t.dt_rel, 97391);
}

#[test]
fn step_advances_exactly() {
    let mut t = Timing::new(44100, TIME_SCALE);
    assert!(t.can_step(120));
    t.step(120);
    assert_eq!(t.sample_num, 1);
    assert_eq!(t.t_abs, 97391);
    assert_eq!(t.t_rel, 97391);
    // ticks-per-quarter * dt_rel * bpm / 60, in BEAT_SCALE units
    assert_eq!(t.beat, 356);
    t.step(120);
    assert_eq!(t.sample_num, 2);
    assert_eq!(t.t_abs, 2 * 97391);
    assert_eq!(t.beat, 2 * 356);
}

#[test]
fn beat_is_monotone_for_all_tempi() {
    let mut t = Timing::new(48000, TIME_SCALE / 2);
    let mut last = t.beat;
    for bpm in [0u64, 1, 60, 120, 999] {
        for _ in 0..50 {
            assert!(t.can_step(bpm));
            t.step(bpm);
            assert!(t.beat >= last);
            last = t.beat;
        }
    }
}

#[test]
fn playback_speed_scales_relative_time() {
    let half = Timing::new(1000, TIME_SCALE / 2);
    let full = Timing::new(1000, TIME_SCALE);
    assert_eq!(half.dt_rel, full.dt_rel / 2);
    let mut half = half;
    let mut full = full;
    half.step(120);
    full.step(120);
    assert_eq!(half.t_abs, full.t_abs);
    assert_eq!(half.t_rel, full.t_rel / 2);
}

#[test]
fn zero_tempo_freezes_the_beat() {
    let mut t = Timing::new(8000, TIME_SCALE);
    for _ in 0..100 {
        t.step(0);
    }
    assert_eq!(t.beat, 0);
    assert_eq!(t.sample_num, 100);
}

#[test]
fn can_step_rejects_absurd_tempo() {
    let t = Timing::new(44100, TIME_SCALE);
    assert!(!t.can_step(2_000_000));
}

#[test]
fn beat_scale_is_a_tick() {
    // 60 bpm at one sample per second: one quarter note each second.
    let mut t = Timing::new(1, TIME_SCALE);
    t.step(60);
    assert_eq!(t.beat, 120 * BEAT_SCALE);
}
