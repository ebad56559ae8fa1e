//! Capability traits of the oscillator bank: a `Generator` produces one
//! output value per time step; an `Oscillator` can additionally be tuned,
//! set to a frequency or a note, and reset.
use vstd::prelude::*;

verus! {

use crate::oscillators::phaser::TUNE_LIMIT;
use crate::oscillators::scales::{FREQ_LIMIT, SCALE_KEYS};

pub trait Generator {
    /// The output type of the generator.
    type Out;

    /// The invariant the generator keeps between steps.
    spec fn inv(&self) -> bool;

    /// Produce the next output value; call once per time step.
    fn generate(&mut self) -> (r: Self::Out)
        requires
            old(self).inv(),
        ensures
            final(self).inv(),
    ;
}

pub trait Oscillator: Generator {
    /// Tune the oscillator; a factor of `ONE` is perfectly in tune.
    fn tune(&mut self, tuning_factor: i64)
        requires
            old(self).inv(),
            0 <= tuning_factor <= TUNE_LIMIT,
        ensures
            final(self).inv(),
    ;

    /// Set the nominal frequency in Q16.16 Hz.
    fn set_frequency(&mut self, frequency: i64)
        requires
            old(self).inv(),
            0 <= frequency <= FREQ_LIMIT,
        ensures
            final(self).inv(),
    ;

    /// Set the nominal frequency from a key of the 88-key scale.
    fn set_note(&mut self, note: u8)
        requires
            old(self).inv(),
            note < SCALE_KEYS,
        ensures
            final(self).inv(),
    ;

    /// Reset the internal state (e.g. phase) to its initial value.
    fn reset(&mut self)
        requires
            old(self).inv(),
        ensures
            final(self).inv(),
    ;
}

} // verus!
