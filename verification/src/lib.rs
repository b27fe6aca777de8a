//! A small music library: pitch arithmetic (notes, intervals, scale
//! families and their modes), integer musical time (ticks, durations,
//! subdivisions), and a fixed-point synthesis engine (sample clock,
//! wavetable oscillator, per-pitch voices with linear envelopes, and a
//! validated note-on command protocol), together with the state machines
//! of a small terminal front end.
//!
//! All amplitudes, times and phases are integers in fixed-point scales so
//! that every arithmetic step has an exact, machine-checked meaning.
#![allow(non_upper_case_globals)]

pub mod config;
pub mod generate;
pub mod numeric;
pub mod pitch;
pub mod rhythm;
pub mod synth;
pub mod text;
pub mod timing;
pub mod ui;
pub mod wavetable;
