//! The oscillator framework: the phase accumulator at the heart of every
//! pitched oscillator, the equal-tempered frequency scale, the waveform
//! generators and the capability traits they share.
pub mod notes;
pub mod oscillators;
pub mod phaser;
pub mod scales;
pub mod traits;
