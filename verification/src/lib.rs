//! A single-voice digital audio synthesizer engine in Q16.16 fixed-point
//! arithmetic: phase-accumulator oscillators, a chainable filter framework
//! with a generalized Direct-Form-II IIR stage, an ADSR envelope, per-voice
//! MIDI-to-parameter mapping, analog-input conditioning, a bounded MIDI
//! event queue, and the circular audio chunk pipeline.
pub mod config;
pub mod discrete_functions;
pub mod envelope;
pub mod filters;
pub mod input;
pub mod midi;
pub mod oscillators;
pub mod pipeline;
pub mod synth;
