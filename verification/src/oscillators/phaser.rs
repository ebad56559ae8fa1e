//! The phase generator at the heart of every pitched oscillator: a 32-bit
//! binary-angle accumulator advanced once per sample by an increment that
//! is recomputed synchronously whenever frequency, tuning or reference
//! pitch changes — never lazily on the audio path.
use vstd::prelude::*;

verus! {

use crate::config::{ONE, SAMPLE_RATE, FULL_TURN};
use crate::oscillators::scales::{REFERENCE_FREQ, FREQ_LIMIT};

/// Upper saturation bound for the tuning factor: Q16.16 of 32.
pub const TUNE_LIMIT: i64 = 2097152;

/// Phase units a phase of `f_eff` Hz (Q16.16) advances per sample:
/// `f_eff / SAMPLE_RATE` of a full 2^32 turn.
pub open spec fn units_per_sample_spec(f_eff: int) -> int {
    f_eff * ONE / (SAMPLE_RATE as int)
}

/// The effective frequency set by `f_set`, scaled by the ratio of the
/// reference frequency to the standard reference and by the tuning
/// factor, each product saturated at `FREQ_LIMIT`.
pub open spec fn effective_freq_spec(f_set: int, f_ref: int, tune: int) -> int {
    let scaled = clamp_limit_spec(f_set * f_ref / (REFERENCE_FREQ as int));
    clamp_limit_spec(scaled * tune / (ONE as int))
}

pub open spec fn clamp_limit_spec(v: int) -> int {
    if v > FREQ_LIMIT {
        FREQ_LIMIT as int
    } else {
        v
    }
}

/// The per-sample phase increment for the set frequency, reference
/// frequency and tune of the oscillator.
pub open spec fn phase_increment_spec(f_set: int, f_ref: int, tune: int) -> int {
    units_per_sample_spec(effective_freq_spec(f_set, f_ref, tune))
}

pub proof fn lemma_phase_increment_range(f_set: int, f_ref: int, tune: int)
    requires
        0 <= f_set <= FREQ_LIMIT,
        0 <= f_ref <= FREQ_LIMIT,
        0 <= tune <= TUNE_LIMIT,
    ensures
        0 <= phase_increment_spec(f_set, f_ref, tune) < FULL_TURN,
{
    let s = f_set * f_ref / (REFERENCE_FREQ as int);
    assert(0 <= f_set * f_ref) by (nonlinear_arith)
        requires
            0 <= f_set,
            0 <= f_ref,
    ;
    vstd::arithmetic::div_mod::lemma_div_pos_is_pos(f_set * f_ref, REFERENCE_FREQ as int);
    let sc = clamp_limit_spec(s);
    let e = sc * tune / (ONE as int);
    assert(0 <= sc * tune) by (nonlinear_arith)
        requires
            0 <= sc,
            0 <= tune,
    ;
    vstd::arithmetic::div_mod::lemma_div_pos_is_pos(sc * tune, ONE as int);
    let f = clamp_limit_spec(e);
    assert(0 <= f * ONE / (SAMPLE_RATE as int) < FULL_TURN) by (nonlinear_arith)
        requires
            0 <= f <= FREQ_LIMIT,
            FREQ_LIMIT == 2147483648,
            ONE == 65536,
            SAMPLE_RATE == 41000,
            FULL_TURN == 4294967296,
    ;
}

/// Compute the phase increment with every product saturated, so that no
/// admissible frequency or tuning can overflow.
fn phase_increment(f_set: i64, f_ref: i64, tune: i64) -> (r: u32)
    requires
        0 <= f_set <= FREQ_LIMIT,
        0 <= f_ref <= FREQ_LIMIT,
        0 <= tune <= TUNE_LIMIT,
    ensures
        r == phase_increment_spec(f_set as int, f_ref as int, tune as int),
{
    proof {
        lemma_phase_increment_range(f_set as int, f_ref as int, tune as int);
        assert(f_set * f_ref <= FREQ_LIMIT * FREQ_LIMIT) by (nonlinear_arith)
            requires
                0 <= f_set <= FREQ_LIMIT,
                0 <= f_ref <= FREQ_LIMIT,
        ;
        assert(0 <= f_set * f_ref) by (nonlinear_arith)
            requires
                0 <= f_set,
                0 <= f_ref,
        ;
    }
    let s: i64 = f_set * f_ref / REFERENCE_FREQ;
    let sc: i64 = if s > FREQ_LIMIT {
        FREQ_LIMIT
    } else {
        s
    };
    proof {
        assert(0 <= sc * tune <= FREQ_LIMIT * TUNE_LIMIT) by (nonlinear_arith)
            requires
                0 <= sc <= FREQ_LIMIT,
                0 <= tune <= TUNE_LIMIT,
        ;
    }
    let e: i64 = sc * tune / ONE;
    let f: i64 = if e > FREQ_LIMIT {
        FREQ_LIMIT
    } else {
        e
    };
    proof {
        assert(0 <= f * ONE <= FREQ_LIMIT * ONE) by (nonlinear_arith)
            requires
                0 <= f <= FREQ_LIMIT,
                ONE > 0,
        ;
    }
    (f * ONE / (SAMPLE_RATE as i64)) as u32
}

/// The phase generator: produces the current phase, a 32-bit binary
/// angle, at every generation step, then advances it by `dphi`.
pub struct PhaseGenerator {
    /// Current phase as a binary angle: the full `u32` range is one period.
    phi: u32,
    /// Phase increment per sample.
    dphi: u32,
    /// Set frequency, Q16.16 Hz.
    f_set: i64,
    /// Reference frequency, Q16.16 Hz.
    f_ref: i64,
    /// Tuning factor, Q16.16, 1.0 when perfectly in tune.
    tune: i64,
}

impl PhaseGenerator {
    pub closed spec fn wf(&self) -> bool {
        &&& 0 <= self.f_set <= FREQ_LIMIT
        &&& 0 <= self.f_ref <= FREQ_LIMIT
        &&& 0 <= self.tune <= TUNE_LIMIT
    }

    pub closed spec fn phase(&self) -> int {
        self.phi as int
    }

    pub closed spec fn increment(&self) -> int {
        self.dphi as int
    }

    pub closed spec fn set_freq(&self) -> int {
        self.f_set as int
    }

    pub closed spec fn ref_freq(&self) -> int {
        self.f_ref as int
    }

    pub closed spec fn tuning(&self) -> int {
        self.tune as int
    }

    /// The state a fresh generator starts in: phase and increment zero,
    /// the standard reference as set frequency, perfectly in tune.
    pub closed spec fn new_spec(f_ref: int) -> PhaseGenerator {
        PhaseGenerator {
            phi: 0,
            dphi: 0,
            f_set: REFERENCE_FREQ,
            f_ref: f_ref as i64,
            tune: ONE,
        }
    }

    /// The state after the tuning factor is set to `t`.
    pub closed spec fn with_tune(&self, t: int) -> PhaseGenerator {
        PhaseGenerator {
            tune: t as i64,
            dphi: (phase_increment_spec(self.f_set as int, self.f_ref as int, t) as u32),
            ..*self
        }
    }

    /// The state after the set frequency is changed to `f`.
    pub closed spec fn with_frequency(&self, f: int) -> PhaseGenerator {
        PhaseGenerator {
            f_set: f as i64,
            dphi: (phase_increment_spec(f, self.f_ref as int, self.tune as int) as u32),
            ..*self
        }
    }

    /// The state after a reset: the phase zeroed, everything else kept.
    pub closed spec fn with_reset(&self) -> PhaseGenerator {
        PhaseGenerator { phi: 0, ..*self }
    }

    /// The state after one generation step: the phase advanced by the
    /// increment modulo one full turn, everything else unchanged.
    pub closed spec fn advanced(&self) -> PhaseGenerator {
        PhaseGenerator {
            phi: (((self.phi as int + self.dphi as int) % (FULL_TURN as int)) as u32),
            ..*self
        }
    }

    /// A fresh generator at phase zero with a zero increment; the
    /// increment is first computed when frequency or tune is set.
    pub fn new(f_ref: i64) -> (g: PhaseGenerator)
        requires
            0 <= f_ref <= FREQ_LIMIT,
        ensures
            g.wf(),
            g.phase() == 0,
            g.increment() == 0,
            g.set_freq() == REFERENCE_FREQ,
            g.ref_freq() == f_ref,
            g.tuning() == ONE,
            g == (PhaseGenerator::new_spec(f_ref as int)),
    {
        PhaseGenerator { phi: 0, dphi: 0, f_set: REFERENCE_FREQ, f_ref, tune: ONE }
    }

    /// Set the tuning factor and synchronously recompute the increment.
    pub fn tune(&mut self, tune: i64)
        requires
            old(self).wf(),
            0 <= tune <= TUNE_LIMIT,
        ensures
            final(self).wf(),
            final(self).tuning() == tune,
            final(self).set_freq() == old(self).set_freq(),
            final(self).ref_freq() == old(self).ref_freq(),
            final(self).phase() == old(self).phase(),
            final(self).increment() == phase_increment_spec(
                old(self).set_freq(),
                old(self).ref_freq(),
                tune as int,
            ),
            *final(self) == (old(self).with_tune(tune as int)),
    {
        self.tune = tune;
        self.dphi = phase_increment(self.f_set, self.f_ref, self.tune);
    }

    /// Set the nominal frequency and synchronously recompute the increment.
    pub fn set_frequency(&mut self, frequency: i64)
        requires
            old(self).wf(),
            0 <= frequency <= FREQ_LIMIT,
        ensures
            final(self).wf(),
            final(self).set_freq() == frequency,
            final(self).ref_freq() == old(self).ref_freq(),
            final(self).tuning() == old(self).tuning(),
            final(self).phase() == old(self).phase(),
            final(self).increment() == phase_increment_spec(
                frequency as int,
                old(self).ref_freq(),
                old(self).tuning(),
            ),
            *final(self) == (old(self).with_frequency(frequency as int)),
    {
        self.f_set = frequency;
        self.dphi = phase_increment(self.f_set, self.f_ref, self.tune);
    }

    /// The phase increment per sample, as last recomputed.
    pub fn current_increment(&self) -> (r: u32)
        ensures
            r == self.increment(),
    {
        self.dphi
    }

    /// Zero the phase; the increment and the frequency triple stay.
    pub fn reset(&mut self)
        requires
            old(self).wf(),
        ensures
            final(self).wf(),
            final(self).phase() == 0,
            final(self).increment() == old(self).increment(),
            final(self).set_freq() == old(self).set_freq(),
            final(self).ref_freq() == old(self).ref_freq(),
            final(self).tuning() == old(self).tuning(),
            *final(self) == (old(self).with_reset()),
    {
        self.phi = 0;
    }

    /// Return the current phase, then advance it by the increment,
    /// wrapping exactly around the full turn.
    pub fn generate(&mut self) -> (r: u32)
        requires
            old(self).wf(),
        ensures
            final(self).wf(),
            r == old(self).phase(),
            final(self).phase() == (old(self).phase() + old(self).increment()) % (
            FULL_TURN as int),
            final(self).increment() == old(self).increment(),
            final(self).set_freq() == old(self).set_freq(),
            final(self).ref_freq() == old(self).ref_freq(),
            final(self).tuning() == old(self).tuning(),
            *final(self) == (old(self).advanced()),
    {
        let a: u32 = self.phi;
        self.phi = ((self.phi as u64 + self.dphi as u64) % FULL_TURN) as u32;
        a
    }
}

/// What the views of a freshly constructed generator are.
pub broadcast proof fn lemma_new_spec_views(f_ref: int)
    ensures
        (#[trigger] PhaseGenerator::new_spec(f_ref)).phase() == 0,
        PhaseGenerator::new_spec(f_ref).increment() == 0,
        PhaseGenerator::new_spec(f_ref).set_freq() == REFERENCE_FREQ,
        0 <= f_ref <= FREQ_LIMIT ==> PhaseGenerator::new_spec(f_ref).ref_freq() == f_ref,
        PhaseGenerator::new_spec(f_ref).tuning() == ONE,
        0 <= f_ref <= FREQ_LIMIT ==> PhaseGenerator::new_spec(f_ref).wf(),
{
}

/// What setting the tuning factor does to the views.
pub broadcast proof fn lemma_with_tune_views(g: PhaseGenerator, t: int)
    ensures
        (#[trigger] g.with_tune(t)).phase() == g.phase(),
        g.with_tune(t).set_freq() == g.set_freq(),
        g.with_tune(t).ref_freq() == g.ref_freq(),
        0 <= t <= TUNE_LIMIT ==> g.with_tune(t).tuning() == t,
        g.wf() && 0 <= t <= TUNE_LIMIT ==> g.with_tune(t).increment() == phase_increment_spec(
            g.set_freq(),
            g.ref_freq(),
            t,
        ),
        g.wf() && 0 <= t <= TUNE_LIMIT ==> g.with_tune(t).wf(),
{
    if g.wf() && 0 <= t <= TUNE_LIMIT {
        lemma_phase_increment_range(g.set_freq(), g.ref_freq(), t);
    }
}

/// What setting the frequency does to the views.
pub broadcast proof fn lemma_with_frequency_views(g: PhaseGenerator, f: int)
    ensures
        (#[trigger] g.with_frequency(f)).phase() == g.phase(),
        g.with_frequency(f).ref_freq() == g.ref_freq(),
        g.with_frequency(f).tuning() == g.tuning(),
        0 <= f <= FREQ_LIMIT ==> g.with_frequency(f).set_freq() == f,
        g.wf() && 0 <= f <= FREQ_LIMIT ==> g.with_frequency(f).increment()
            == phase_increment_spec(f, g.ref_freq(), g.tuning()),
        g.wf() && 0 <= f <= FREQ_LIMIT ==> g.with_frequency(f).wf(),
{
    if g.wf() && 0 <= f <= FREQ_LIMIT {
        lemma_phase_increment_range(f, g.ref_freq(), g.tuning());
    }
}

/// What a reset does to the views: only the phase is zeroed.
pub broadcast proof fn lemma_with_reset_views(g: PhaseGenerator)
    ensures
        (#[trigger] g.with_reset()).phase() == 0,
        g.with_reset().increment() == g.increment(),
        g.with_reset().set_freq() == g.set_freq(),
        g.with_reset().ref_freq() == g.ref_freq(),
        g.with_reset().tuning() == g.tuning(),
        g.with_reset().wf() == g.wf(),
{
}

/// What one generation step does to the views: the phase advances by the
/// increment modulo one full turn, the rest stays.
pub broadcast proof fn lemma_advanced_views(g: PhaseGenerator)
    ensures
        (#[trigger] g.advanced()).phase() == (g.phase() + g.increment()) % (FULL_TURN as int),
        g.advanced().increment() == g.increment(),
        g.advanced().set_freq() == g.set_freq(),
        g.advanced().ref_freq() == g.ref_freq(),
        g.advanced().tuning() == g.tuning(),
        g.advanced().wf() == g.wf(),
{
}

/// The phase and the increment are binary angles: always within one
/// full turn; a well-formed generator also keeps its frequency triple
/// within the saturation limits.
pub proof fn lemma_phase_generator_bounds(g: PhaseGenerator)
    ensures
        0 <= g.phase() < FULL_TURN,
        0 <= g.increment() < FULL_TURN,
        g.wf() ==> 0 <= g.set_freq() <= FREQ_LIMIT && 0 <= g.ref_freq() <= FREQ_LIMIT && 0
            <= g.tuning() <= TUNE_LIMIT,
{
}

/// The phase after `n` advances by `d` from `p0`, modulo one full turn.
pub open spec fn phase_after_spec(p0: int, d: int, n: nat) -> int
    decreases n,
{
    if n == 0 {
        p0 % (FULL_TURN as int)
    } else {
        (phase_after_spec(p0, d, (n - 1) as nat) + d) % (FULL_TURN as int)
    }
}

/// After `n` generation steps the phase has advanced by exactly
/// `n * d` modulo one full turn: wrap-around loses nothing.
pub proof fn lemma_phase_accumulation(p0: int, d: int, n: nat)
    requires
        0 <= p0,
        0 <= d,
    ensures
        phase_after_spec(p0, d, n) == (p0 + n * d) % (FULL_TURN as int),
    decreases n,
{
    if n == 0 {
        assert(n * d == 0);
    } else {
        lemma_phase_accumulation(p0, d, (n - 1) as nat);
        let m = FULL_TURN as int;
        let prev = p0 + (n - 1) * d;
        vstd::arithmetic::div_mod::lemma_add_mod_noop(prev, d, m);
        assert(p0 + (n - 1) * d + d == p0 + n * d) by (nonlinear_arith);
        vstd::arithmetic::div_mod::lemma_mod_twice(d, m);
        vstd::arithmetic::div_mod::lemma_add_mod_noop((prev % m), d, m);
        vstd::arithmetic::div_mod::lemma_mod_twice(prev, m);
    }
}

} // verus!
