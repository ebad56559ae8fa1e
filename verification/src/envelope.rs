//! The ADSR amplitude envelope: a state machine over Attack,
//! Decay/Sustain, Release and Idle that scales each sample by its
//! current level, itself a filter stage.
//!
//! The level lives in [0, LEVEL_ONE] at Q32.32 resolution. Attack and
//! Release move it by an exact rational ramp: each step adds the ramp
//! numerator to a running remainder and carries whole level units out,
//! so after `n` steps the level has moved by exactly
//! `floor(n * numerator / denominator)` — no drift ever accumulates and
//! the ramps land on their endpoints in exactly the ideal number of
//! samples. Decay/Sustain lets the level creep toward the sustain
//! level.
use vstd::prelude::*;

verus! {

use crate::config::{ONE, SAMPLE_RATE};
use crate::filters::pass::tdiv;
use crate::filters::traits::Filter;
use crate::filters::volume::{tdiv_one, tdiv_one_spec, VOLUME_IN_LIMIT};

/// Full level: the Q32.32 representation of 1.0.
pub const LEVEL_ONE: i64 = 4294967296;

/// The ramp numerator of the attack: one full level per second of
/// attack time, as `LEVEL_ONE * ONE` (2^48).
pub const RAMP_NUM: i64 = 281474976710656;

/// Largest admissible envelope time parameter: Q16.16 of 600 seconds.
pub const TIME_LIMIT: i64 = 39321600;

/// Smallest admissible envelope time parameter, two quantization units;
/// below it a single sample crosses the whole level range anyway.
pub const TIME_MIN: i64 = 2;

pub trait Envelope: Filter {
    /// A key was struck: begin shaping a new note.
    fn note_on(&mut self, note: u8, velocity: u8)
        requires
            old(self).inv(),
        ensures
            final(self).inv(),
    ;

    /// The key was let go: fade the note out.
    fn note_off(&mut self, note: u8, velocity: u8)
        requires
            old(self).inv(),
        ensures
            final(self).inv(),
    ;
}

#[derive(Debug, Clone, Copy, PartialEq, Eq, Structural)]
pub enum ADSRStage {
    Attack,
    DecaySustain,
    Release,
    Idle,
}

#[derive(Debug, Clone, Copy, PartialEq, Eq, Structural)]
pub struct ADSREnvelope {
    /// Seconds (Q16.16) the attack ramp takes to cross the full range.
    pub attack_time: i64,
    /// Seconds (Q16.16) scaling the decay toward the sustain level.
    pub decay_time: i64,
    /// Level (Q16.16 of [0, 1]) held while the key stays down.
    pub sustain_level: i64,
    /// Seconds (Q16.16) scaling the release ramp back to silence.
    pub release_time: i64,
    /// The state machine's current stage.
    pub stage: ADSRStage,
    /// Current amplitude scale, Q32.32 in [0, LEVEL_ONE].
    pub level: i64,
    /// Running remainder of the ramp division, in [0, rate * time).
    pub frac: i64,
}

/// The ramp denominator: samples per second times the time parameter.
pub open spec fn ramp_den_spec(time: int) -> int {
    (SAMPLE_RATE as int) * time
}

/// The per-sample decay factor `dt / decay_time` in Q16.16.
pub open spec fn decay_rate_spec(decay_time: int) -> int {
    (ONE * ONE) / ((SAMPLE_RATE as int) * decay_time)
}

/// One sample step of the envelope state machine.
pub open spec fn env_after_step(e: ADSREnvelope) -> ADSREnvelope {
    match e.stage {
        ADSRStage::Attack => {
            let den = ramp_den_spec(e.attack_time as int);
            let t = RAMP_NUM + e.frac;
            let l = e.level + t / den;
            if l >= LEVEL_ONE {
                (ADSREnvelope { level: LEVEL_ONE, frac: 0, stage: ADSRStage::DecaySustain, ..e })
            } else {
                (ADSREnvelope { level: (l as i64), frac: ((t % den) as i64), ..e })
            }
        },
        ADSRStage::DecaySustain => {
            let delta = tdiv_one_spec(
                (e.level - e.sustain_level * ONE) * decay_rate_spec(e.decay_time as int),
            );
            (ADSREnvelope { level: ((e.level - delta) as i64), ..e })
        },
        ADSRStage::Release => {
            let den = ramp_den_spec(e.release_time as int);
            let t = e.sustain_level * LEVEL_ONE + e.frac;
            let l = e.level - t / den;
            if l <= 0 {
                (ADSREnvelope { level: 0, frac: 0, stage: ADSRStage::Idle, ..e })
            } else {
                (ADSREnvelope { level: (l as i64), frac: ((t % den) as i64), ..e })
            }
        },
        ADSRStage::Idle => e,
    }
}

impl ADSREnvelope {
    /// The state a fresh envelope starts in: idle and silent.
    pub open spec fn new_spec(
        attack_time: int,
        decay_time: int,
        sustain_level: int,
        release_time: int,
    ) -> ADSREnvelope {
        ADSREnvelope {
            attack_time: attack_time as i64,
            decay_time: decay_time as i64,
            sustain_level: sustain_level as i64,
            release_time: release_time as i64,
            stage: ADSRStage::Idle,
            level: 0,
            frac: 0,
        }
    }

    pub open spec fn wf(&self) -> bool {
        &&& TIME_MIN <= self.attack_time <= TIME_LIMIT
        &&& TIME_MIN <= self.decay_time <= TIME_LIMIT
        &&& 0 <= self.sustain_level <= ONE
        &&& TIME_MIN <= self.release_time <= TIME_LIMIT
        &&& 0 <= self.level <= LEVEL_ONE
        &&& 0 <= self.frac < (SAMPLE_RATE as int) * TIME_LIMIT
    }

    /// A fresh envelope: idle, silent, with the given time parameters.
    pub fn new(attack_time: i64, decay_time: i64, sustain_level: i64, release_time: i64) -> (e:
        ADSREnvelope)
        requires
            TIME_MIN <= attack_time <= TIME_LIMIT,
            TIME_MIN <= decay_time <= TIME_LIMIT,
            0 <= sustain_level <= ONE,
            TIME_MIN <= release_time <= TIME_LIMIT,
        ensures
            e.wf(),
            e.attack_time == attack_time,
            e.decay_time == decay_time,
            e.sustain_level == sustain_level,
            e.release_time == release_time,
            e.stage == ADSRStage::Idle,
            e.level == 0,
            e == (ADSREnvelope::new_spec(
                attack_time as int,
                decay_time as int,
                sustain_level as int,
                release_time as int,
            )),
    {
        ADSREnvelope {
            attack_time,
            decay_time,
            sustain_level,
            release_time,
            stage: ADSRStage::Idle,
            level: 0,
            frac: 0,
        }
    }
}

/// The ramp quotients stay within the level range and one step never
/// leaves the well-formed region.
pub proof fn lemma_rates_bounded(e: ADSREnvelope)
    requires
        e.wf(),
    ensures
        0 <= decay_rate_spec(e.decay_time as int) <= ONE,
        env_after_step(e).wf(),
        env_after_step(e).attack_time == e.attack_time,
        env_after_step(e).decay_time == e.decay_time,
        env_after_step(e).sustain_level == e.sustain_level,
        env_after_step(e).release_time == e.release_time,
{
    let rate = SAMPLE_RATE as int;
    assert(rate * TIME_MIN <= rate * e.decay_time <= rate * TIME_LIMIT) by (nonlinear_arith)
        requires
            TIME_MIN <= e.decay_time <= TIME_LIMIT,
            rate == 41000,
    ;
    vstd::arithmetic::div_mod::lemma_div_is_ordered_by_denominator(
        ONE * ONE,
        rate * TIME_MIN,
        rate * e.decay_time,
    );
    vstd::arithmetic::div_mod::lemma_div_pos_is_pos(ONE * ONE, rate * e.decay_time);
    if e.stage == ADSRStage::Attack {
        let den = ramp_den_spec(e.attack_time as int);
        assert(rate * TIME_MIN <= den <= rate * TIME_LIMIT) by (nonlinear_arith)
            requires
                den == rate * e.attack_time,
                TIME_MIN <= e.attack_time <= TIME_LIMIT,
                rate == 41000,
        ;
        let t = RAMP_NUM + e.frac;
        vstd::arithmetic::div_mod::lemma_div_pos_is_pos(t, den);
        vstd::arithmetic::div_mod::lemma_mod_bound(t, den);
    } else if e.stage == ADSRStage::DecaySustain {
        let k = decay_rate_spec(e.decay_time as int);
        let diff = e.level - e.sustain_level * ONE;
        assert(0 <= e.sustain_level * ONE <= LEVEL_ONE) by (nonlinear_arith)
            requires
                0 <= e.sustain_level <= ONE,
                ONE == 65536,
                LEVEL_ONE == 4294967296,
        ;
        if diff >= 0 {
            assert(0 <= diff * k <= diff * ONE) by (nonlinear_arith)
                requires
                    0 <= diff,
                    0 <= k <= ONE,
            ;
            vstd::arithmetic::div_mod::lemma_div_is_ordered(diff * k, diff * ONE, ONE as int);
            vstd::arithmetic::div_mod::lemma_div_pos_is_pos(diff * k, ONE as int);
            vstd::arithmetic::div_mod::lemma_div_multiples_vanish(diff, ONE as int);
            assert(diff * ONE == ONE * diff) by (nonlinear_arith);
        } else {
            assert(0 <= (-diff) * k <= (-diff) * ONE) by (nonlinear_arith)
                requires
                    0 <= -diff,
                    0 <= k <= ONE,
            ;
            vstd::arithmetic::div_mod::lemma_div_is_ordered((-diff) * k, (-diff) * ONE, ONE as int);
            vstd::arithmetic::div_mod::lemma_div_pos_is_pos((-diff) * k, ONE as int);
            vstd::arithmetic::div_mod::lemma_div_multiples_vanish(-diff, ONE as int);
            assert((-diff) * ONE == ONE * (-diff)) by (nonlinear_arith);
            assert(-(diff * k) == (-diff) * k) by (nonlinear_arith);
        }
    } else if e.stage == ADSRStage::Release {
        let den = ramp_den_spec(e.release_time as int);
        assert(rate * TIME_MIN <= den <= rate * TIME_LIMIT) by (nonlinear_arith)
            requires
                den == rate * e.release_time,
                TIME_MIN <= e.release_time <= TIME_LIMIT,
                rate == 41000,
        ;
        assert(0 <= e.sustain_level * LEVEL_ONE <= RAMP_NUM) by (nonlinear_arith)
            requires
                0 <= e.sustain_level <= ONE,
                ONE == 65536,
                LEVEL_ONE == 4294967296,
                RAMP_NUM == 281474976710656,
        ;
        let t = e.sustain_level * LEVEL_ONE + e.frac;
        vstd::arithmetic::div_mod::lemma_div_pos_is_pos(t, den);
        vstd::arithmetic::div_mod::lemma_mod_bound(t, den);
    }
}

impl Envelope for ADSREnvelope {
    fn note_on(&mut self, _note: u8, _velocity: u8)
        ensures
            *final(self) == (ADSREnvelope { stage: ADSRStage::Attack, frac: 0, ..*old(self) }),
    {
        self.stage = ADSRStage::Attack;
        self.frac = 0;
    }

    fn note_off(&mut self, _note: u8, _velocity: u8)
        ensures
            *final(self) == (ADSREnvelope { stage: ADSRStage::Release, frac: 0, ..*old(self) }),
    {
        self.stage = ADSRStage::Release;
        self.frac = 0;
    }
}

impl Filter for ADSREnvelope {
    type In = i64;

    type Out = i64;

    open spec fn inv(&self) -> bool {
        self.wf()
    }

    open spec fn in_ok(x: i64) -> bool {
        -VOLUME_IN_LIMIT <= x <= VOLUME_IN_LIMIT
    }

    open spec fn out_ok(y: i64) -> bool {
        -VOLUME_IN_LIMIT <= y <= VOLUME_IN_LIMIT
    }

    open spec fn model_out(&self, x: i64) -> i64 {
        crate::filters::pass::tdiv_spec(
            x * env_after_step(*self).level,
            LEVEL_ONE as int,
        ) as i64
    }

    open spec fn models(&self, x: i64, next: &ADSREnvelope) -> bool {
        *next == env_after_step(*self)
    }

    /// Advance the state machine by one sample and scale the input by
    /// the fresh level.
    fn filter(&mut self, x: i64) -> (r: i64)
        ensures
            *final(self) == env_after_step(*old(self)),
            r == crate::filters::pass::tdiv_spec(
                x * env_after_step(*old(self)).level,
                LEVEL_ONE as int,
            ),
    {
        proof {
            lemma_rates_bounded(*self);
        }
        match self.stage {
            ADSRStage::Attack => {
                let den: i64 = (SAMPLE_RATE as i64) * self.attack_time;
                let t: i64 = RAMP_NUM + self.frac;
                let l: i64 = self.level + t / den;
                if l >= LEVEL_ONE {
                    self.level = LEVEL_ONE;
                    self.frac = 0;
                    self.stage = ADSRStage::DecaySustain;
                } else {
                    self.level = l;
                    self.frac = t % den;
                }
            },
            ADSRStage::DecaySustain => {
                let rate: i64 = (ONE * ONE) / ((SAMPLE_RATE as i64) * self.decay_time);
                proof {
                    assert(-(LEVEL_ONE * ONE) <= (self.level - self.sustain_level * ONE) * rate
                        <= LEVEL_ONE * ONE) by (nonlinear_arith)
                        requires
                            -LEVEL_ONE <= self.level - self.sustain_level * ONE <= LEVEL_ONE,
                            0 <= rate <= ONE,
                    ;
                }
                let delta: i64 = tdiv_one((self.level - self.sustain_level * ONE) * rate);
                self.level = self.level - delta;
            },
            ADSRStage::Release => {
                let den: i64 = (SAMPLE_RATE as i64) * self.release_time;
                let t: i64 = self.sustain_level * LEVEL_ONE + self.frac;
                let l: i64 = self.level - t / den;
                if l <= 0 {
                    self.level = 0;
                    self.frac = 0;
                    self.stage = ADSRStage::Idle;
                } else {
                    self.level = l;
                    self.frac = t % den;
                }
            },
            ADSRStage::Idle => {},
        }
        proof {
            assert(-(VOLUME_IN_LIMIT * LEVEL_ONE) <= x * self.level <= VOLUME_IN_LIMIT
                * LEVEL_ONE) by (nonlinear_arith)
                requires
                    -VOLUME_IN_LIMIT <= x <= VOLUME_IN_LIMIT,
                    0 <= self.level <= LEVEL_ONE,
            ;
            if x >= 0 {
                assert(0 <= x * self.level) by (nonlinear_arith)
                    requires
                        0 <= x,
                        0 <= self.level,
                ;
                assert(x * self.level <= x * LEVEL_ONE) by (nonlinear_arith)
                    requires
                        0 <= x,
                        self.level <= LEVEL_ONE,
                ;
                vstd::arithmetic::div_mod::lemma_div_is_ordered(
                    x * self.level,
                    x * LEVEL_ONE,
                    LEVEL_ONE as int,
                );
                vstd::arithmetic::div_mod::lemma_div_pos_is_pos(x * self.level, LEVEL_ONE as int);
                vstd::arithmetic::div_mod::lemma_div_multiples_vanish(x as int, LEVEL_ONE as int);
                assert(x * LEVEL_ONE == LEVEL_ONE * x) by (nonlinear_arith);
            } else {
                assert(0 <= (-x) * self.level) by (nonlinear_arith)
                    requires
                        x < 0,
                        0 <= self.level,
                ;
                assert((-x) * self.level <= (-x) * LEVEL_ONE) by (nonlinear_arith)
                    requires
                        x < 0,
                        self.level <= LEVEL_ONE,
                ;
                vstd::arithmetic::div_mod::lemma_div_is_ordered(
                    (-x) * self.level,
                    (-x) * LEVEL_ONE,
                    LEVEL_ONE as int,
                );
                vstd::arithmetic::div_mod::lemma_div_pos_is_pos(
                    (-x) * self.level,
                    LEVEL_ONE as int,
                );
                vstd::arithmetic::div_mod::lemma_div_multiples_vanish(
                    -(x as int),
                    LEVEL_ONE as int,
                );
                assert((-x) * LEVEL_ONE == LEVEL_ONE * (-(x as int))) by (nonlinear_arith);
                assert(-(x * self.level) == (-x) * self.level) by (nonlinear_arith);
            }
        }
        tdiv(x * self.level, LEVEL_ONE)
    }
}

/// The envelope after `n` sample steps.
pub open spec fn env_iter_spec(e: ADSREnvelope, n: nat) -> ADSREnvelope
    decreases n,
{
    if n == 0 {
        e
    } else {
        env_after_step(env_iter_spec(e, (n - 1) as nat))
    }
}

/// While the attack ramp has not crossed full level, `n` steps have
/// moved the level by exactly `floor(n * RAMP_NUM / den)`: the running
/// remainder loses nothing.
proof fn lemma_attack_progress(e: ADSREnvelope, n: nat)
    requires
        e.wf(),
        e.stage == ADSRStage::Attack,
        e.level == 0,
        e.frac == 0,
        n * RAMP_NUM < LEVEL_ONE * ramp_den_spec(e.attack_time as int),
    ensures
        env_iter_spec(e, n).stage == ADSRStage::Attack,
        env_iter_spec(e, n).level == n * RAMP_NUM / ramp_den_spec(e.attack_time as int),
        env_iter_spec(e, n).frac == n * RAMP_NUM % ramp_den_spec(e.attack_time as int),
        env_iter_spec(e, n).attack_time == e.attack_time,
        env_iter_spec(e, n).decay_time == e.decay_time,
        env_iter_spec(e, n).sustain_level == e.sustain_level,
        env_iter_spec(e, n).release_time == e.release_time,
        env_iter_spec(e, n).level < LEVEL_ONE,
    decreases n,
{
    let den = ramp_den_spec(e.attack_time as int);
    assert(82000 <= den) by (nonlinear_arith)
        requires
            den == (SAMPLE_RATE as int) * e.attack_time,
            TIME_MIN <= e.attack_time,
            SAMPLE_RATE == 41000,
            TIME_MIN == 2,
    ;
    vstd::arithmetic::div_mod::lemma_fundamental_div_mod(n * RAMP_NUM, den);
    vstd::arithmetic::div_mod::lemma_mod_bound(n * RAMP_NUM, den);
    assert(0 <= n * RAMP_NUM) by (nonlinear_arith)
        requires
            RAMP_NUM > 0,
    ;
    let ln = n * RAMP_NUM / den;
    assert(ln * den <= n * RAMP_NUM < LEVEL_ONE * den);
    assert(ln < LEVEL_ONE) by (nonlinear_arith)
        requires
            ln * den < LEVEL_ONE * den,
            den > 0,
    ;
    if n == 0 {
        assert(0int * RAMP_NUM == 0) by (nonlinear_arith);
        vstd::arithmetic::div_mod::lemma_div_of0(den);
        vstd::arithmetic::div_mod::lemma_small_mod(0, den as nat);
    } else {
        assert((n - 1) * RAMP_NUM < n * RAMP_NUM) by (nonlinear_arith)
            requires
                n >= 1,
                RAMP_NUM > 0,
        ;
        lemma_attack_progress(e, (n - 1) as nat);
        let ep = env_iter_spec(e, (n - 1) as nat);
        let lp = (n - 1) * RAMP_NUM / den;
        let rp = (n - 1) * RAMP_NUM % den;
        let t = RAMP_NUM + rp;
        vstd::arithmetic::div_mod::lemma_fundamental_div_mod((n - 1) * RAMP_NUM, den);
        vstd::arithmetic::div_mod::lemma_fundamental_div_mod(t, den);
        vstd::arithmetic::div_mod::lemma_mod_bound(t, den);
        // the fresh quotient carries the remainder forward exactly
        assert((n - 1) * RAMP_NUM + RAMP_NUM == n * RAMP_NUM) by (nonlinear_arith);
        assert((lp + t / den) * den + t % den == n * RAMP_NUM) by (nonlinear_arith)
            requires
                lp * den + rp == (n - 1) * RAMP_NUM,
                (t / den) * den + t % den == t,
                t == RAMP_NUM + rp,
                (n - 1) * RAMP_NUM + RAMP_NUM == n * RAMP_NUM,
        ;
        vstd::arithmetic::div_mod::lemma_fundamental_div_mod_converse(
            n * RAMP_NUM,
            den,
            lp + t / den,
            t % den,
        );
        assert(lp + t / den < LEVEL_ONE);
        assert(env_iter_spec(e, n) == env_after_step(ep));
    }
}

/// From a fresh attack the level reaches full and the envelope enters
/// Decay/Sustain in exactly the ideal sample count: within
/// `attack_time * SAMPLE_RATE / ONE + 1` steps.
pub proof fn lemma_attack_reaches_full(e: ADSREnvelope, k: nat)
    requires
        e.wf(),
        e.stage == ADSRStage::Attack,
        e.level == 0,
        e.frac == 0,
        k == (LEVEL_ONE * ramp_den_spec(e.attack_time as int) + RAMP_NUM - 1) / (RAMP_NUM as int),
    ensures
        env_iter_spec(e, k).stage == ADSRStage::DecaySustain,
        env_iter_spec(e, k).level == LEVEL_ONE,
        k <= ramp_den_spec(e.attack_time as int) / (ONE as int) + 1,
{
    let den = ramp_den_spec(e.attack_time as int);
    assert(82000 <= den <= 41000 * TIME_LIMIT) by (nonlinear_arith)
        requires
            den == (SAMPLE_RATE as int) * e.attack_time,
            TIME_MIN <= e.attack_time <= TIME_LIMIT,
            SAMPLE_RATE == 41000,
            TIME_MIN == 2,
    ;
    let target = LEVEL_ONE * den;
    assert(0 < LEVEL_ONE * den) by (nonlinear_arith)
        requires
            den > 0,
    ;
    vstd::arithmetic::div_mod::lemma_fundamental_div_mod(target + RAMP_NUM - 1, RAMP_NUM as int);
    vstd::arithmetic::div_mod::lemma_mod_bound(target + RAMP_NUM - 1, RAMP_NUM as int);
    // k is the least count whose total ramp reaches the target
    assert(k * RAMP_NUM >= target && (k - 1) * RAMP_NUM < target) by (nonlinear_arith)
        requires
            (RAMP_NUM as int) * k + (target + RAMP_NUM - 1) % (RAMP_NUM as int) == target
                + RAMP_NUM - 1,
            0 <= (target + RAMP_NUM - 1) % (RAMP_NUM as int) < RAMP_NUM,
    ;
    assert(k >= 1) by (nonlinear_arith)
        requires
            k * RAMP_NUM >= target,
            target > 0,
            RAMP_NUM > 0,
    ;
    let n1 = (k - 1) as nat;
    assert(n1 * RAMP_NUM == (k - 1) * RAMP_NUM);
    assert(n1 * RAMP_NUM < LEVEL_ONE * den);
    lemma_attack_progress(e, n1);
    let ep = env_iter_spec(e, n1);
    let lp = n1 * RAMP_NUM / den;
    let rp = n1 * RAMP_NUM % den;
    let t = RAMP_NUM + rp;
    vstd::arithmetic::div_mod::lemma_fundamental_div_mod(n1 * RAMP_NUM, den);
    vstd::arithmetic::div_mod::lemma_mod_bound(n1 * RAMP_NUM, den);
    vstd::arithmetic::div_mod::lemma_div_pos_is_pos(n1 * RAMP_NUM, den);
    vstd::arithmetic::div_mod::lemma_fundamental_div_mod(t, den);
    vstd::arithmetic::div_mod::lemma_mod_bound(t, den);
    assert(ep.level == lp && ep.frac == rp && ep.stage == ADSRStage::Attack);
    assert((k - 1) * RAMP_NUM + RAMP_NUM == k * RAMP_NUM) by (nonlinear_arith);
    // the crossing step: the fresh quotient lifts the level past full
    assert((lp + t / den) * den > target - den) by (nonlinear_arith)
        requires
            den * lp + rp == n1 * RAMP_NUM,
            den * (t / den) + t % den == t,
            t == RAMP_NUM + rp,
            0 <= t % den < den,
            n1 * RAMP_NUM == (k - 1) * RAMP_NUM,
            (k - 1) * RAMP_NUM + RAMP_NUM == k * RAMP_NUM,
            k * RAMP_NUM >= target,
    ;
    assert(lp + t / den >= LEVEL_ONE) by (nonlinear_arith)
        requires
            (lp + t / den) * den > target - den,
            target == LEVEL_ONE * den,
            den > 0,
    ;
    assert(env_iter_spec(e, k) == env_after_step(ep));
    // the ideal count: k = ceil(den / ONE) <= den / ONE + 1
    vstd::arithmetic::div_mod::lemma_fundamental_div_mod(den, ONE as int);
    assert((den / (ONE as int) + 1) * RAMP_NUM >= target) by (nonlinear_arith)
        requires
            (ONE as int) * (den / (ONE as int)) + den % (ONE as int) == den,
            0 <= den % (ONE as int) < ONE,
            RAMP_NUM == LEVEL_ONE * ONE,
            target == LEVEL_ONE * den,
            LEVEL_ONE > 0,
            ONE > 0,
    ;
    assert(k <= den / (ONE as int) + 1) by (nonlinear_arith)
        requires
            (k - 1) * RAMP_NUM < target,
            (den / (ONE as int) + 1) * RAMP_NUM >= target,
            RAMP_NUM > 0,
    ;
}

/// One release step never raises the level; whenever the per-sample
/// drop amounts to at least one level unit, it strictly lowers it.
pub proof fn lemma_release_monotone(e: ADSREnvelope)
    requires
        e.wf(),
        e.stage == ADSRStage::Release,
    ensures
        env_after_step(e).level <= e.level,
        e.level > 0 && e.sustain_level * LEVEL_ONE >= ramp_den_spec(e.release_time as int)
            ==> env_after_step(e).level < e.level,
        env_after_step(e).stage == ADSRStage::Release || env_after_step(e).stage
            == ADSRStage::Idle,
        env_after_step(e).stage == ADSRStage::Idle ==> env_after_step(e).level == 0,
{
    lemma_rates_bounded(e);
    let den = ramp_den_spec(e.release_time as int);
    let t = e.sustain_level * LEVEL_ONE + e.frac;
    assert(0 < den) by (nonlinear_arith)
        requires
            den == (SAMPLE_RATE as int) * e.release_time,
            TIME_MIN <= e.release_time,
            SAMPLE_RATE == 41000,
            TIME_MIN == 2,
    ;
    if e.level > 0 && e.sustain_level * LEVEL_ONE >= den {
        vstd::arithmetic::div_mod::lemma_div_is_ordered(den, t, den);
        vstd::arithmetic::div_mod::lemma_div_by_self(den);
    }
}

/// While the release ramp has not crossed zero, `n` steps have lowered
/// the level by exactly `floor(n * sustain * LEVEL_ONE / den)`.
proof fn lemma_release_progress(e: ADSREnvelope, n: nat)
    requires
        e.wf(),
        e.stage == ADSRStage::Release,
        e.frac == 0,
        1 <= e.sustain_level,
        n * (e.sustain_level * LEVEL_ONE) < e.level * ramp_den_spec(e.release_time as int),
    ensures
        env_iter_spec(e, n).stage == ADSRStage::Release,
        env_iter_spec(e, n).level == e.level - n * (e.sustain_level * (LEVEL_ONE as int))
            / ramp_den_spec(e.release_time as int),
        env_iter_spec(e, n).frac == n * (e.sustain_level * (LEVEL_ONE as int)) % ramp_den_spec(
            e.release_time as int,
        ),
        env_iter_spec(e, n).attack_time == e.attack_time,
        env_iter_spec(e, n).decay_time == e.decay_time,
        env_iter_spec(e, n).sustain_level == e.sustain_level,
        env_iter_spec(e, n).release_time == e.release_time,
        env_iter_spec(e, n).level > 0,
    decreases n,
{
    let den = ramp_den_spec(e.release_time as int);
    let num = e.sustain_level * LEVEL_ONE;
    assert(82000 <= den) by (nonlinear_arith)
        requires
            den == (SAMPLE_RATE as int) * e.release_time,
            TIME_MIN <= e.release_time,
            SAMPLE_RATE == 41000,
            TIME_MIN == 2,
    ;
    assert(LEVEL_ONE <= num <= RAMP_NUM) by (nonlinear_arith)
        requires
            num == e.sustain_level * LEVEL_ONE,
            1 <= e.sustain_level <= ONE,
            ONE == 65536,
            LEVEL_ONE == 4294967296,
            RAMP_NUM == 281474976710656,
    ;
    vstd::arithmetic::div_mod::lemma_fundamental_div_mod(n * num, den);
    vstd::arithmetic::div_mod::lemma_mod_bound(n * num, den);
    assert(0 <= n * num) by (nonlinear_arith)
        requires
            num > 0,
    ;
    let dn = n * num / den;
    assert(dn * den <= n * num < e.level * den);
    assert(dn < e.level) by (nonlinear_arith)
        requires
            dn * den < e.level * den,
            den > 0,
    ;
    if n == 0 {
        assert(0int * num == 0) by (nonlinear_arith);
        vstd::arithmetic::div_mod::lemma_div_of0(den);
        vstd::arithmetic::div_mod::lemma_small_mod(0, den as nat);
    } else {
        assert((n - 1) * num < n * num) by (nonlinear_arith)
            requires
                n >= 1,
                num > 0,
        ;
        lemma_release_progress(e, (n - 1) as nat);
        let ep = env_iter_spec(e, (n - 1) as nat);
        let dp = (n - 1) * num / den;
        let rp = (n - 1) * num % den;
        let t = num + rp;
        vstd::arithmetic::div_mod::lemma_fundamental_div_mod((n - 1) * num, den);
        vstd::arithmetic::div_mod::lemma_fundamental_div_mod(t, den);
        vstd::arithmetic::div_mod::lemma_mod_bound(t, den);
        assert((n - 1) * num + num == n * num) by (nonlinear_arith);
        assert((dp + t / den) * den + t % den == n * num) by (nonlinear_arith)
            requires
                dp * den + rp == (n - 1) * num,
                (t / den) * den + t % den == t,
                t == num + rp,
                (n - 1) * num + num == n * num,
        ;
        vstd::arithmetic::div_mod::lemma_fundamental_div_mod_converse(
            n * num,
            den,
            dp + t / den,
            t % den,
        );
        assert(dp + t / den < e.level);
        assert(env_iter_spec(e, n) == env_after_step(ep));
    }
}

/// From a fresh release with a positive sustain level, the envelope
/// reaches Idle at level zero in exactly the ideal sample count; from
/// the sustain level itself that is within
/// `release_time * SAMPLE_RATE / ONE + 1` steps.
pub proof fn lemma_release_reaches_idle(e: ADSREnvelope, k: nat)
    requires
        e.wf(),
        e.stage == ADSRStage::Release,
        e.frac == 0,
        1 <= e.sustain_level,
        1 <= e.level,
        k == (e.level * ramp_den_spec(e.release_time as int) + e.sustain_level * LEVEL_ONE
            - 1) / (e.sustain_level * (LEVEL_ONE as int)),
    ensures
        env_iter_spec(e, k).stage == ADSRStage::Idle,
        env_iter_spec(e, k).level == 0,
        e.level <= e.sustain_level * ONE ==> k <= ramp_den_spec(e.release_time as int) / (
        ONE as int) + 1,
{
    let den = ramp_den_spec(e.release_time as int);
    let num = e.sustain_level * (LEVEL_ONE as int);
    assert(82000 <= den) by (nonlinear_arith)
        requires
            den == (SAMPLE_RATE as int) * e.release_time,
            TIME_MIN <= e.release_time,
            SAMPLE_RATE == 41000,
            TIME_MIN == 2,
    ;
    assert(LEVEL_ONE <= num <= RAMP_NUM) by (nonlinear_arith)
        requires
            num == e.sustain_level * (LEVEL_ONE as int),
            1 <= e.sustain_level <= ONE,
            ONE == 65536,
            LEVEL_ONE == 4294967296,
            RAMP_NUM == 281474976710656,
    ;
    let target = e.level * den;
    assert(0 < e.level * den) by (nonlinear_arith)
        requires
            den > 0,
            e.level >= 1,
    ;
    vstd::arithmetic::div_mod::lemma_fundamental_div_mod(target + num - 1, num);
    vstd::arithmetic::div_mod::lemma_mod_bound(target + num - 1, num);
    assert(k * num >= target && (k - 1) * num < target) by (nonlinear_arith)
        requires
            num * k + (target + num - 1) % num == target + num - 1,
            0 <= (target + num - 1) % num < num,
    ;
    assert(k >= 1) by (nonlinear_arith)
        requires
            k * num >= target,
            target > 0,
            num > 0,
    ;
    let n1 = (k - 1) as nat;
    assert(n1 * num == (k - 1) * num);
    assert(n1 * num < e.level * den);
    lemma_release_progress(e, n1);
    let ep = env_iter_spec(e, n1);
    let dp = n1 * num / den;
    let rp = n1 * num % den;
    let t = num + rp;
    vstd::arithmetic::div_mod::lemma_fundamental_div_mod(n1 * num, den);
    vstd::arithmetic::div_mod::lemma_mod_bound(n1 * num, den);
    vstd::arithmetic::div_mod::lemma_div_pos_is_pos(n1 * num, den);
    vstd::arithmetic::div_mod::lemma_fundamental_div_mod(t, den);
    vstd::arithmetic::div_mod::lemma_mod_bound(t, den);
    assert(ep.level == e.level - dp && ep.frac == rp && ep.stage == ADSRStage::Release);
    assert((k - 1) * num + num == k * num) by (nonlinear_arith);
    assert((dp + t / den) * den > target - den) by (nonlinear_arith)
        requires
            den * dp + rp == n1 * num,
            den * (t / den) + t % den == t,
            t == num + rp,
            0 <= t % den < den,
            n1 * num == (k - 1) * num,
            (k - 1) * num + num == k * num,
            k * num >= target,
    ;
    assert(dp + t / den >= e.level) by (nonlinear_arith)
        requires
            (dp + t / den) * den > target - den,
            target == e.level * den,
            den > 0,
    ;
    assert(env_iter_spec(e, k) == env_after_step(ep));
    if e.level <= e.sustain_level * ONE {
        vstd::arithmetic::div_mod::lemma_fundamental_div_mod(den, ONE as int);
        assert((den / (ONE as int) + 1) * num >= target) by (nonlinear_arith)
            requires
                (ONE as int) * (den / (ONE as int)) + den % (ONE as int) == den,
                0 <= den % (ONE as int) < ONE,
                num == e.sustain_level * (LEVEL_ONE as int),
                target == e.level * den,
                e.level <= e.sustain_level * ONE,
                e.sustain_level >= 1,
                LEVEL_ONE == 4294967296,
                ONE == 65536,
                den > 0,
        ;
        assert(k <= den / (ONE as int) + 1) by (nonlinear_arith)
            requires
                (k - 1) * num < target,
                (den / (ONE as int) + 1) * num >= target,
                num > 0,
        ;
    }
}

/// Idle is absorbing: once silent, the envelope stays silent.
pub proof fn lemma_idle_stays(e: ADSREnvelope, n: nat)
    requires
        e.stage == ADSRStage::Idle,
    ensures
        env_iter_spec(e, n) == e,
    decreases n,
{
    if n > 0 {
        lemma_idle_stays(e, (n - 1) as nat);
    }
}

} // verus!
