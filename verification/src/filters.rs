//! The chainable single-sample filter framework: the `Filter` capability,
//! the chain combinator, the generalized Direct-Form-II IIR stage with
//! its biquad presets, and the amplifier and mixer stages.
pub mod pass;
pub mod traits;
pub mod volume;
