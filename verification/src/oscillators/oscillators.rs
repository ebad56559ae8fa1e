//! The waveform generators: sine, sawtooth and PWM derive their sample
//! from an embedded phase generator; noise draws from a pseudo-random
//! generator and ignores pitch entirely.
use vstd::prelude::*;

verus! {

use crate::config::ONE;
use crate::discrete_functions::{sin, sin_spec, SinTable};
use crate::oscillators::phaser::{phase_increment_spec, PhaseGenerator, TUNE_LIMIT};
use crate::oscillators::scales::{freq, scale_spec, FREQ_LIMIT, SCALE_KEYS};
use crate::oscillators::traits::{Generator, Oscillator};

/// Half of one full binary-angle turn (2^31), the phase of pi.
pub const PHASE_HALF: i64 = 2147483648;

#[verifier::external_type_specification]
#[verifier::external_body]
pub struct ExXorShiftRng(rand_xorshift::XorShiftRng);

/// Relies on `rand_core::SeedableRng::from_seed` as implemented by
/// `rand_xorshift::XorShiftRng`: deterministically builds the generator
/// from 16 seed bytes; every seed is accepted.
#[verifier::external_body]
fn rng_from_seed(seed: [u8; 16]) -> rand_xorshift::XorShiftRng {
    <rand_xorshift::XorShiftRng as rand_core::SeedableRng>::from_seed(seed)
}

/// Relies on `rand_core::RngCore::next_u32` as implemented by
/// `rand_xorshift::XorShiftRng`: yields the next word of the
/// pseudo-random stream; nothing is assumed of its value.
#[verifier::external_body]
fn rng_next(rng: &mut rand_xorshift::XorShiftRng) -> u32 {
    <rand_xorshift::XorShiftRng as rand_core::RngCore>::next_u32(rng)
}

// Sine =================================

pub struct SineOscillator {
    phase_gen: PhaseGenerator,
    table: SinTable,
}

impl SineOscillator {
    pub closed spec fn pg(&self) -> PhaseGenerator {
        self.phase_gen
    }

    pub fn new(f_ref: i64) -> (o: SineOscillator)
        requires
            0 <= f_ref <= FREQ_LIMIT,
        ensures
            o.inv(),
            o.pg() == (PhaseGenerator::new_spec(f_ref as int)),
    {
        SineOscillator { phase_gen: PhaseGenerator::new(f_ref), table: SinTable::new() }
    }
}

impl SineOscillator {
    /// The embedded phase generator's increment per sample.
    pub fn current_increment(&self) -> (r: u32)
        ensures
            r == self.pg().increment(),
    {
        self.phase_gen.current_increment()
    }
}

impl Generator for SineOscillator {
    type Out = i64;

    closed spec fn inv(&self) -> bool {
        &&& self.phase_gen.wf()
        &&& self.table.wf()
    }

    fn generate(&mut self) -> (r: i64)
        ensures
            r == sin_spec(old(self).pg().phase()),
            -ONE <= r <= ONE,
            final(self).pg() == (old(self).pg().advanced()),
    {
        let phi: u32 = self.phase_gen.generate();
        sin(&self.table, phi)
    }
}

// Sawtooth =============================

/// The sawtooth sample at a phase: rises linearly from -1 to +1 over one
/// period (`phi / pi - 1` in radians).
pub open spec fn saw_spec(phase: int) -> int {
    phase * ONE / (PHASE_HALF as int) - ONE
}

pub struct SawToothOscillator {
    phase_gen: PhaseGenerator,
}

impl SawToothOscillator {
    pub closed spec fn pg(&self) -> PhaseGenerator {
        self.phase_gen
    }

    pub fn new(f_ref: i64) -> (o: SawToothOscillator)
        requires
            0 <= f_ref <= FREQ_LIMIT,
        ensures
            o.inv(),
            o.pg() == (PhaseGenerator::new_spec(f_ref as int)),
    {
        SawToothOscillator { phase_gen: PhaseGenerator::new(f_ref) }
    }
}

impl SawToothOscillator {
    /// The embedded phase generator's increment per sample.
    pub fn current_increment(&self) -> (r: u32)
        ensures
            r == self.pg().increment(),
    {
        self.phase_gen.current_increment()
    }
}

impl Generator for SawToothOscillator {
    type Out = i64;

    closed spec fn inv(&self) -> bool {
        self.phase_gen.wf()
    }

    fn generate(&mut self) -> (r: i64)
        ensures
            r == saw_spec(old(self).pg().phase()),
            -ONE <= r <= ONE,
            final(self).pg() == (old(self).pg().advanced()),
    {
        let phi: u32 = self.phase_gen.generate();
        phi as i64 * ONE / PHASE_HALF - ONE
    }
}

// PWM ==================================

/// The pulse sample at a phase: high for the first `duty` fraction of the
/// period, low for the rest.
pub open spec fn pwm_spec(phase: int, duty: int) -> int {
    if phase * ONE < duty * (2 * PHASE_HALF) {
        ONE as int
    } else {
        -ONE as int
    }
}

pub struct PWMOscillator {
    phase_gen: PhaseGenerator,
    /// Fraction of one period with a high output, Q16.16 in [0, ONE].
    pub duty_cycle: i64,
}

impl PWMOscillator {
    pub closed spec fn pg(&self) -> PhaseGenerator {
        self.phase_gen
    }

    pub closed spec fn duty(&self) -> int {
        self.duty_cycle as int
    }

    pub fn new(f_ref: i64, duty_cycle: i64) -> (o: PWMOscillator)
        requires
            0 <= f_ref <= FREQ_LIMIT,
            0 <= duty_cycle <= ONE,
        ensures
            o.inv(),
            o.pg() == (PhaseGenerator::new_spec(f_ref as int)),
            o.duty() == duty_cycle,
    {
        PWMOscillator { phase_gen: PhaseGenerator::new(f_ref), duty_cycle }
    }
}

impl PWMOscillator {
    /// The embedded phase generator's increment per sample.
    pub fn current_increment(&self) -> (r: u32)
        ensures
            r == self.pg().increment(),
    {
        self.phase_gen.current_increment()
    }
}

impl Generator for PWMOscillator {
    type Out = i64;

    closed spec fn inv(&self) -> bool {
        &&& self.phase_gen.wf()
        &&& 0 <= self.duty_cycle <= ONE
    }

    fn generate(&mut self) -> (r: i64)
        ensures
            r == pwm_spec(old(self).pg().phase(), old(self).duty()),
            -ONE <= r <= ONE,
            final(self).pg() == (old(self).pg().advanced()),
            final(self).duty() == old(self).duty(),
    {
        let phi: u32 = self.phase_gen.generate();
        if (phi as i64) * ONE < self.duty_cycle * (2 * PHASE_HALF) {
            ONE
        } else {
            -ONE
        }
    }
}

// Noise ================================

/// Largest positive value of a 32-bit two's-complement word (2^31 - 1).
pub const WORD_MAX: i64 = 2147483647;

/// The drawn 32-bit word reinterpreted as two's complement.
pub open spec fn signed_word_spec(w: int) -> int {
    if w < PHASE_HALF {
        w
    } else {
        w - 2 * PHASE_HALF
    }
}

/// The sample a drawn word maps to: the word reinterpreted as a signed
/// 32-bit value and scaled by its largest positive value, landing
/// linearly on [-1.0, 1.0].
pub open spec fn noise_sample_spec(w: int) -> int {
    crate::filters::pass::tdiv_spec(signed_word_spec(w) * ONE, WORD_MAX as int)
}

/// Map one pseudo-random word onto a sample in [-1.0, 1.0].
pub fn noise_sample(w: u32) -> (r: i64)
    ensures
        r == noise_sample_spec(w as int),
        -ONE <= r <= ONE,
{
    let d: i64 = if w < 2147483648 {
        w as i64
    } else {
        w as i64 - 4294967296
    };
    proof {
        assert(d == signed_word_spec(w as int));
        assert(-(PHASE_HALF * ONE) <= d * ONE <= WORD_MAX * ONE) by (nonlinear_arith)
            requires
                -PHASE_HALF <= d <= WORD_MAX,
                ONE > 0,
                PHASE_HALF == 2147483648,
                WORD_MAX == 2147483647,
        ;
        if d >= 0 {
            vstd::arithmetic::div_mod::lemma_div_pos_is_pos(d * ONE, WORD_MAX as int);
            vstd::arithmetic::div_mod::lemma_div_is_ordered(
                d * ONE,
                WORD_MAX * ONE,
                WORD_MAX as int,
            );
            vstd::arithmetic::div_mod::lemma_div_multiples_vanish(ONE as int, WORD_MAX as int);
            assert(WORD_MAX * ONE == ONE * WORD_MAX) by (nonlinear_arith);
        } else {
            vstd::arithmetic::div_mod::lemma_div_pos_is_pos(-(d * ONE), WORD_MAX as int);
            vstd::arithmetic::div_mod::lemma_div_is_ordered(
                -(d * ONE),
                PHASE_HALF * ONE,
                WORD_MAX as int,
            );
            assert(-(d * ONE) == (-d) * ONE) by (nonlinear_arith);
            assert(PHASE_HALF * ONE / (WORD_MAX as int) == ONE) by (nonlinear_arith)
                requires
                    PHASE_HALF == 2147483648,
                    WORD_MAX == 2147483647,
                    ONE == 65536,
            ;
        }
    }
    crate::filters::pass::tdiv(d * ONE, WORD_MAX)
}

pub struct Noise {
    rng: rand_xorshift::XorShiftRng,
}

/// The 16 seed bytes the noise generator is seeded with: the seed word
/// repeated four times, little endian.
fn seed_bytes(seed: u32) -> [u8; 16] {
    let b0: u8 = (seed % 256) as u8;
    let b1: u8 = ((seed / 256) % 256) as u8;
    let b2: u8 = ((seed / 65536) % 256) as u8;
    let b3: u8 = ((seed / 16777216) % 256) as u8;
    [b0, b1, b2, b3, b0, b1, b2, b3, b0, b1, b2, b3, b0, b1, b2, b3]
}

impl Noise {
    pub fn new(seed: u32) -> (o: Noise)
        ensures
            o.inv(),
    {
        Noise { rng: rng_from_seed(seed_bytes(seed)) }
    }
}

impl Generator for Noise {
    type Out = i64;

    open spec fn inv(&self) -> bool {
        true
    }

    fn generate(&mut self) -> (r: i64)
        ensures
            -ONE <= r <= ONE,
            exists|w: int| 0 <= w < 4294967296 && r == noise_sample_spec(w),
    {
        let a: u32 = rng_next(&mut self.rng);
        let r: i64 = noise_sample(a);
        proof {
            assert(0 <= (a as int) < 4294967296);
            assert(r == noise_sample_spec(a as int));
        }
        r
    }
}

// Do-nothing implementation of the pitch capabilities for Noise
impl Oscillator for Noise {
    fn tune(&mut self, _tuning_factor: i64)
        ensures
            *final(self) == *old(self),
    {
    }

    fn set_frequency(&mut self, _frequency: i64)
        ensures
            *final(self) == *old(self),
    {
    }

    fn set_note(&mut self, _note: u8)
        ensures
            *final(self) == *old(self),
    {
    }

    fn reset(&mut self)
        ensures
            *final(self) == *old(self),
    {
    }
}

impl Oscillator for SineOscillator {
    fn tune(&mut self, tuning_factor: i64)
        ensures
            final(self).pg() == (old(self).pg().with_tune(tuning_factor as int)),
    {
        self.phase_gen.tune(tuning_factor);
    }

    fn set_frequency(&mut self, frequency: i64)
        ensures
            final(self).pg() == (old(self).pg().with_frequency(frequency as int)),
    {
        self.phase_gen.set_frequency(frequency);
    }

    fn set_note(&mut self, note: u8)
        ensures
            final(self).pg() == (old(self).pg().with_frequency(scale_spec(note as int))),
    {
        let f: i64 = freq(note);
        self.phase_gen.set_frequency(f);
    }

    fn reset(&mut self)
        ensures
            final(self).pg() == (old(self).pg().with_reset()),
    {
        self.phase_gen.reset();
    }
}

impl Oscillator for SawToothOscillator {
    fn tune(&mut self, tuning_factor: i64)
        ensures
            final(self).pg() == (old(self).pg().with_tune(tuning_factor as int)),
    {
        self.phase_gen.tune(tuning_factor);
    }

    fn set_frequency(&mut self, frequency: i64)
        ensures
            final(self).pg() == (old(self).pg().with_frequency(frequency as int)),
    {
        self.phase_gen.set_frequency(frequency);
    }

    fn set_note(&mut self, note: u8)
        ensures
            final(self).pg() == (old(self).pg().with_frequency(scale_spec(note as int))),
    {
        let f: i64 = freq(note);
        self.phase_gen.set_frequency(f);
    }

    fn reset(&mut self)
        ensures
            final(self).pg() == (old(self).pg().with_reset()),
    {
        self.phase_gen.reset();
    }
}

impl Oscillator for PWMOscillator {
    fn tune(&mut self, tuning_factor: i64)
        ensures
            final(self).pg() == (old(self).pg().with_tune(tuning_factor as int)),
            final(self).duty() == old(self).duty(),
    {
        self.phase_gen.tune(tuning_factor);
    }

    fn set_frequency(&mut self, frequency: i64)
        ensures
            final(self).pg() == (old(self).pg().with_frequency(frequency as int)),
            final(self).duty() == old(self).duty(),
    {
        self.phase_gen.set_frequency(frequency);
    }

    fn set_note(&mut self, note: u8)
        ensures
            final(self).pg() == (old(self).pg().with_frequency(scale_spec(note as int))),
            final(self).duty() == old(self).duty(),
    {
        let f: i64 = freq(note);
        self.phase_gen.set_frequency(f);
    }

    fn reset(&mut self)
        ensures
            final(self).pg() == (old(self).pg().with_reset()),
            final(self).duty() == old(self).duty(),
    {
        self.phase_gen.reset();
    }
}

/// The sample an oscillator produces at its current state: the pitched
/// waveforms are functions of their phase; noise is a function of the
/// drawn word `w` alone.
pub open spec fn sample_spec(osc: OscillatorKind, w: int) -> int {
    match osc {
        OscillatorKind::Sine(o) => sin_spec(o.pg().phase()),
        OscillatorKind::SawTooth(o) => saw_spec(o.pg().phase()),
        OscillatorKind::Pwm(o) => pwm_spec(o.pg().phase(), o.duty()),
        OscillatorKind::Noise(_) => noise_sample_spec(w),
    }
}

// The closed set of waveforms a voice can mix: a tagged variant per
// oscillator kind, dispatched through a single match per capability.
pub enum OscillatorKind {
    Sine(SineOscillator),
    SawTooth(SawToothOscillator),
    Pwm(PWMOscillator),
    Noise(Noise),
}

impl OscillatorKind {
    pub open spec fn inv(&self) -> bool {
        match self {
            OscillatorKind::Sine(o) => o.inv(),
            OscillatorKind::SawTooth(o) => o.inv(),
            OscillatorKind::Pwm(o) => o.inv(),
            OscillatorKind::Noise(o) => o.inv(),
        }
    }

    /// Whether this oscillator is the unpitched noise source.
    pub open spec fn is_noise(&self) -> bool {
        match self {
            OscillatorKind::Noise(_) => true,
            _ => false,
        }
    }

    /// The embedded phase generator of a pitched oscillator.
    pub open spec fn pg(&self) -> PhaseGenerator {
        match self {
            OscillatorKind::Sine(o) => o.pg(),
            OscillatorKind::SawTooth(o) => o.pg(),
            OscillatorKind::Pwm(o) => o.pg(),
            OscillatorKind::Noise(_) => PhaseGenerator::new_spec(0),
        }
    }

    /// Produce the next sample of this oscillator.
    pub fn generate(&mut self) -> (r: i64)
        requires
            old(self).inv(),
        ensures
            final(self).inv(),
            -ONE <= r <= ONE,
            final(self).is_noise() == old(self).is_noise(),
            !old(self).is_noise() ==> final(self).pg() == (old(self).pg().advanced()),
            exists|w: int| 0 <= w < 4294967296 && r == sample_spec(*old(self), w),
    {
        let r: i64 = match self {
            OscillatorKind::Sine(o) => o.generate(),
            OscillatorKind::SawTooth(o) => o.generate(),
            OscillatorKind::Pwm(o) => o.generate(),
            OscillatorKind::Noise(o) => o.generate(),
        };
        proof {
            if old(self).is_noise() {
                let w = choose|w: int| 0 <= w < 4294967296 && r == noise_sample_spec(w);
                assert(0 <= w < 4294967296 && r == sample_spec(*old(self), w));
            } else {
                assert(0 <= 0 < 4294967296 && r == sample_spec(*old(self), 0));
            }
        }
        r
    }

    /// Tune the oscillator; a no-op for noise.
    pub fn tune(&mut self, tuning_factor: i64)
        requires
            old(self).inv(),
            0 <= tuning_factor <= TUNE_LIMIT,
        ensures
            final(self).inv(),
            final(self).is_noise() == old(self).is_noise(),
            old(self).is_noise() ==> *final(self) == *old(self),
            !old(self).is_noise() ==> final(self).pg() == (old(self).pg().with_tune(
                tuning_factor as int,
            )),
    {
        match self {
            OscillatorKind::Sine(o) => o.tune(tuning_factor),
            OscillatorKind::SawTooth(o) => o.tune(tuning_factor),
            OscillatorKind::Pwm(o) => o.tune(tuning_factor),
            OscillatorKind::Noise(o) => o.tune(tuning_factor),
        }
    }

    /// Set the nominal frequency; a no-op for noise.
    pub fn set_frequency(&mut self, frequency: i64)
        requires
            old(self).inv(),
            0 <= frequency <= FREQ_LIMIT,
        ensures
            final(self).inv(),
            final(self).is_noise() == old(self).is_noise(),
            old(self).is_noise() ==> *final(self) == *old(self),
            !old(self).is_noise() ==> final(self).pg() == (old(self).pg().with_frequency(
                frequency as int,
            )),
    {
        match self {
            OscillatorKind::Sine(o) => o.set_frequency(frequency),
            OscillatorKind::SawTooth(o) => o.set_frequency(frequency),
            OscillatorKind::Pwm(o) => o.set_frequency(frequency),
            OscillatorKind::Noise(o) => o.set_frequency(frequency),
        }
    }

    /// Set the frequency from a key of the scale; a no-op for noise.
    pub fn set_note(&mut self, note: u8)
        requires
            old(self).inv(),
            note < SCALE_KEYS,
        ensures
            final(self).inv(),
            final(self).is_noise() == old(self).is_noise(),
            old(self).is_noise() ==> *final(self) == *old(self),
            !old(self).is_noise() ==> final(self).pg() == (old(self).pg().with_frequency(
                scale_spec(note as int),
            )),
    {
        match self {
            OscillatorKind::Sine(o) => o.set_note(note),
            OscillatorKind::SawTooth(o) => o.set_note(note),
            OscillatorKind::Pwm(o) => o.set_note(note),
            OscillatorKind::Noise(o) => o.set_note(note),
        }
    }

    /// Zero the phase; a no-op for noise.
    pub fn reset(&mut self)
        requires
            old(self).inv(),
        ensures
            final(self).inv(),
            final(self).is_noise() == old(self).is_noise(),
            old(self).is_noise() ==> *final(self) == *old(self),
            !old(self).is_noise() ==> final(self).pg() == (old(self).pg().with_reset()),
    {
        match self {
            OscillatorKind::Sine(o) => o.reset(),
            OscillatorKind::SawTooth(o) => o.reset(),
            OscillatorKind::Pwm(o) => o.reset(),
            OscillatorKind::Noise(o) => o.reset(),
        }
    }
}

} // verus!
