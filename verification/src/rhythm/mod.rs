//! Integer musical time: tick counts, durations and their subdivision.
use vstd::prelude::*;

pub mod beat_duration;
pub mod beat_time;
pub mod rhythm;
pub mod subdivision;

verus! {

/// A span of musical time, counted in ticks.
#[derive(Clone, Copy, Default, Debug, PartialEq, Eq, Structural)]
pub struct BeatDuration(pub u64);

/// A point in musical time: ticks since the start of playback.
#[derive(Clone, Copy, Default, Debug, PartialEq, Eq, Structural)]
pub struct BeatTime(pub u64);

/// A sequence of durations forming a rhythmic figure.
pub struct Rhythm {
    pub durations: Vec<BeatDuration>,
}

/// A way of splitting a duration into weighted parts; `total` is always
/// the sum of the weights in `subs`.
pub struct Subdivision {
    pub total: u64,
    pub subs: Vec<u64>,
}

/// Ticks per quarter note. Chosen highly divisible so that common note
/// values (triplets, dotted notes, thirty-second notes) are exact
/// integers, and small enough that tick counts stay far from overflow
/// over a run of many years.
pub const DURATION_MULTIPLIER: u64 = 2 * 2 * 2 * 3 * 5;

pub const WHOLE_NOTE: u64 = DURATION_MULTIPLIER * 4;
pub const DOUBLE_DOTTED_HALF_NOTE: u64 = DURATION_MULTIPLIER * 7 / 2;
pub const DOTTED_HALF_NOTE: u64 = DURATION_MULTIPLIER * 3;
pub const HALF_NOTE: u64 = DURATION_MULTIPLIER * 2;
pub const HALF_NOTE_TRIPLET: u64 = DURATION_MULTIPLIER * 4 / 3;
pub const DOUBLE_DOTTED_QUARTER_NOTE: u64 = DURATION_MULTIPLIER * 7 / 4;
pub const DOTTED_QUARTER_NOTE: u64 = DURATION_MULTIPLIER * 3 / 2;
pub const QUARTER_NOTE: u64 = DURATION_MULTIPLIER;
pub const QUARTER_NOTE_TRIPLET: u64 = DURATION_MULTIPLIER * 2 / 3;
pub const DOUBLE_DOTTED_EIGHTH_NOTE: u64 = DURATION_MULTIPLIER * 7 / 8;
pub const DOTTED_EIGHTH_NOTE: u64 = DURATION_MULTIPLIER * 3 / 4;
pub const EIGHTH_NOTE: u64 = DURATION_MULTIPLIER / 2;
pub const EIGHTH_NOTE_TRIPLET: u64 = DURATION_MULTIPLIER / 3;
pub const DOTTED_SIXTEENTH_NOTE: u64 = DURATION_MULTIPLIER * 3 / 8;
pub const SIXTEENTH_NOTE: u64 = DURATION_MULTIPLIER / 4;
pub const SIXTEENTH_NOTE_TRIPLET: u64 = DURATION_MULTIPLIER / 6;
pub const THIRTYSECOND_NOTE: u64 = DURATION_MULTIPLIER / 8;
pub const THIRTYSECOND_NOTE_TRIPLET: u64 = DURATION_MULTIPLIER / 12;

pub const WN: u64 = WHOLE_NOTE;
pub const DDHN: u64 = DOUBLE_DOTTED_HALF_NOTE;
pub const DHN: u64 = DOTTED_HALF_NOTE;
pub const HN: u64 = HALF_NOTE;
pub const HNT: u64 = HALF_NOTE_TRIPLET;
pub const DDQN: u64 = DOUBLE_DOTTED_QUARTER_NOTE;
pub const DQN: u64 = DOTTED_QUARTER_NOTE;
pub const QN: u64 = QUARTER_NOTE;
pub const QNT: u64 = QUARTER_NOTE_TRIPLET;
pub const DDEN: u64 = DOUBLE_DOTTED_EIGHTH_NOTE;
pub const DEN: u64 = DOTTED_EIGHTH_NOTE;
pub const EN: u64 = EIGHTH_NOTE;
pub const ENT: u64 = EIGHTH_NOTE_TRIPLET;
pub const DSN: u64 = DOTTED_SIXTEENTH_NOTE;
pub const SN: u64 = SIXTEENTH_NOTE;
pub const SNT: u64 = SIXTEENTH_NOTE_TRIPLET;
pub const TN: u64 = THIRTYSECOND_NOTE;
pub const TNT: u64 = THIRTYSECOND_NOTE_TRIPLET;

} // verus!
