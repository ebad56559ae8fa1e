//! The voice: the top-level synthesis unit. It owns an ordered bank of
//! oscillators, an ADSR envelope and the low-pass / high-pass shaping
//! stages, holds the current note, and maps MIDI events onto parameter
//! changes.
//!
//! Control-change values in [0, 127] reach physical parameters through
//! two maps: a linear map onto `[vmin, vmax]`, and a logarithmic map
//! realized as geometric stepping — one fixed Q16.16 ratio per MIDI
//! step — so equal control steps give perceptually equal changes.
use vstd::prelude::*;

verus! {

use crate::config::ONE;
use crate::envelope::{env_after_step, ADSREnvelope, ADSRStage, Envelope, LEVEL_ONE};
use crate::filters::pass::{
    BiquadHighPassFilter, BiquadLowPassFilter, df2_next_state_spec, df2_output_spec, CUTOFF_LIMIT,
    DF2_OUT_LIMIT, Q_LIMIT,
};
use crate::filters::traits::Filter;
use crate::filters::volume::VOLUME_IN_LIMIT;
use crate::midi::MidiEvent;
use crate::oscillators::notes;
use crate::oscillators::oscillators::{sample_spec, Noise, OscillatorKind, SawToothOscillator};
use crate::oscillators::phaser::{PhaseGenerator, TUNE_LIMIT};
use crate::oscillators::scales::{freq, scale_spec, SCALE_KEYS};

broadcast use crate::oscillators::phaser::lemma_with_tune_views,
    crate::oscillators::phaser::lemma_with_frequency_views,
    crate::oscillators::phaser::lemma_with_reset_views,
    crate::oscillators::phaser::lemma_advanced_views,
    crate::oscillators::phaser::lemma_new_spec_views;

/// Saturation bound of the geometric accumulator (2^31 in Q16.16).
pub const GEO_LIMIT: i64 = 2147483648;

/// Q16.16 of 1.1^(5/127): one control step of the detune pairing.
pub const DETUNE_FACTOR: i64 = 65782;

/// Q16.16 of 2^7 = 128 Hz: the cutoff at control value zero.
pub const CUTOFF_START: i64 = 8388608;

/// Q16.16 of 2^(7/127): one control step of the cutoff map.
pub const CUTOFF_FACTOR: i64 = 68088;

/// Q16.16 of 2^(-4): the resonance at control value zero.
pub const RESONANCE_START: i64 = 4096;

/// Q16.16 of 2^(6/127): one control step of the resonance map.
pub const RESONANCE_FACTOR: i64 = 67718;

/// Q16.16 of 10^(-4) seconds: the envelope time at control value zero.
pub const TIME_START: i64 = 7;

/// Q16.16 of 10^(4/127): one control step of the envelope-time map.
pub const TIME_FACTOR: i64 = 70466;

/// Linearly maps a value from the range [0, 127] to [vmin, vmax].
pub open spec fn linear_map_spec(value: int, vmin: int, vmax: int) -> int {
    vmin + crate::filters::pass::tdiv_spec((vmax - vmin) * value, 127)
}

pub fn linear_map(value: u8, vmin: i64, vmax: i64) -> (r: i64)
    requires
        value <= 127,
        -0x4000_0000_0000 <= vmin <= 0x4000_0000_0000,
        -0x4000_0000_0000 <= vmax <= 0x4000_0000_0000,
    ensures
        r == linear_map_spec(value as int, vmin as int, vmax as int),
{
    proof {
        assert(-(0x8000_0000_0000 * 127) <= (vmax - vmin) * (value as i64) <= 0x8000_0000_0000
            * 127) by (nonlinear_arith)
            requires
                -0x8000_0000_0000 <= vmax - vmin <= 0x8000_0000_0000,
                0 <= value <= 127,
        ;
    }
    vmin + crate::filters::pass::tdiv((vmax - vmin) * (value as i64), 127)
}

/// `factor^v` in Q16.16 by repeated multiplication, saturated at
/// `GEO_LIMIT`; the ratio is at least one, so the power never shrinks.
pub open spec fn geo_spec(factor: int, v: int) -> int
    decreases v,
{
    if v <= 0 {
        ONE as int
    } else {
        let p = geo_spec(factor, v - 1) * factor / (ONE as int);
        if p > GEO_LIMIT {
            GEO_LIMIT as int
        } else {
            p
        }
    }
}

pub proof fn lemma_geo_grows(factor: int, v: int)
    requires
        ONE <= factor <= 2 * ONE,
    ensures
        ONE <= geo_spec(factor, v) <= GEO_LIMIT,
    decreases v,
{
    if v > 0 {
        lemma_geo_grows(factor, v - 1);
        let g = geo_spec(factor, v - 1);
        assert(g * ONE <= g * factor) by (nonlinear_arith)
            requires
                ONE <= factor,
                g >= 0,
        ;
        vstd::arithmetic::div_mod::lemma_div_is_ordered(g * ONE, g * factor, ONE as int);
        vstd::arithmetic::div_mod::lemma_div_multiples_vanish(g, ONE as int);
        assert(g * ONE == ONE * g) by (nonlinear_arith);
    }
}

/// Logarithmically maps a value from the range [0, 127] onto the curve
/// `start * factor^value`, saturated at `limit`.
pub open spec fn log_map_spec(value: int, start: int, factor: int, limit: int) -> int {
    let r = start * geo_spec(factor, value) / (ONE as int);
    if r > limit {
        limit
    } else {
        r
    }
}

pub fn log_map(value: u8, start: i64, factor: i64, limit: i64) -> (r: i64)
    requires
        1 <= start <= limit,
        ONE <= factor <= 2 * ONE,
        limit <= 0x80000000,
    ensures
        r == log_map_spec(value as int, start as int, factor as int, limit as int),
        start <= r <= limit,
{
    proof {
        lemma_geo_grows(factor as int, value as int);
    }
    let mut g: i64 = ONE;
    let mut i: u8 = 0;
    while i < value
        invariant
            0 <= i <= value,
            ONE <= factor <= 2 * ONE,
            g == geo_spec(factor as int, i as int),
            ONE <= g <= GEO_LIMIT,
        decreases value - i,
    {
        proof {
            lemma_geo_grows(factor as int, i as int + 1);
            assert(0 <= g * factor <= GEO_LIMIT * (2 * ONE)) by (nonlinear_arith)
                requires
                    0 <= g <= GEO_LIMIT,
                    0 <= factor <= 2 * ONE,
            ;
        }
        g = g * factor / ONE;
        if g > GEO_LIMIT {
            g = GEO_LIMIT;
        }
        i = i + 1;
    }
    proof {
        assert(start * ONE <= start * g <= 0x80000000 * GEO_LIMIT) by (nonlinear_arith)
            requires
                1 <= start <= 0x80000000,
                ONE <= g <= GEO_LIMIT,
                0x80000000 * GEO_LIMIT == 4611686018427387904,
        ;
        vstd::arithmetic::div_mod::lemma_div_is_ordered(start * ONE, start * g, ONE as int);
        vstd::arithmetic::div_mod::lemma_div_multiples_vanish(start as int, ONE as int);
        assert(start * ONE == ONE * start) by (nonlinear_arith);
        vstd::arithmetic::div_mod::lemma_div_pos_is_pos(start * g, ONE as int);
    }
    let r: i64 = start * g / ONE;
    if r > limit {
        limit
    } else {
        r
    }
}

/// The Q16.16 reciprocal of a tuning factor of at least one.
pub open spec fn recip_spec(t: int) -> int {
    (ONE * ONE) / t
}

fn recip_q(t: i64) -> (r: i64)
    requires
        ONE <= t,
    ensures
        r == recip_spec(t as int),
        0 <= r <= ONE,
{
    proof {
        vstd::arithmetic::div_mod::lemma_div_is_ordered_by_denominator(
            ONE * ONE,
            ONE as int,
            t as int,
        );
        vstd::arithmetic::div_mod::lemma_div_pos_is_pos(ONE * ONE, t as int);
        vstd::arithmetic::div_mod::lemma_div_multiples_vanish(ONE as int, ONE as int);
    }
    (ONE * ONE) / t
}

/// The sum of the first `k` oscillators' samples, the noise draws taken
/// from `ws` index by index.
pub open spec fn bank_sum_spec(oscs: Seq<OscillatorKind>, ws: Seq<int>, k: int) -> int
    decreases k,
{
    if k <= 0 {
        0
    } else {
        bank_sum_spec(oscs, ws, k - 1) + sample_spec(oscs[k - 1], ws[k - 1])
    }
}

/// Appending a draw never disturbs the sum over an existing prefix.
proof fn lemma_bank_sum_push(oscs: Seq<OscillatorKind>, ws: Seq<int>, w: int, k: int)
    requires
        0 <= k <= ws.len(),
    ensures
        bank_sum_spec(oscs, ws.push(w), k) == bank_sum_spec(oscs, ws, k),
    decreases k,
{
    if k > 0 {
        lemma_bank_sum_push(oscs, ws, w, k - 1);
        assert(ws.push(w)[k - 1] == ws[k - 1]);
    }
}

/// The sample one generation step hands to the low pass: the bank sum
/// scaled by the envelope's fresh level.
pub open spec fn shaped_sample_spec(v: Voice, ws: Seq<int>) -> int {
    crate::filters::pass::tdiv_spec(
        bank_sum_spec(v.oscillators(), ws, v.oscillators().len() as int) * env_after_step(
            v.envelope_view(),
        ).level,
        LEVEL_ONE as int,
    )
}

/// How one generation step relates the voice before and after it, and
/// the sample it produces: the envelope steps once, every pitched phase
/// advances once, the shaping parameters stay, and the output is the
/// low pass applied to the enveloped bank sum for some draw of noise
/// words.
pub open spec fn generate_step_rel(pre: Voice, post: Voice, out: int) -> bool {
    &&& post.held() == pre.held()
    &&& post.envelope_view() == env_after_step(pre.envelope_view())
    &&& post.oscillators().len() == pre.oscillators().len()
    &&& (forall|i: int|
        0 <= i < pre.oscillators().len() ==> (#[trigger] post.oscillators()[i]).is_noise()
            == pre.oscillators()[i].is_noise())
    &&& (forall|i: int|
        0 <= i < pre.oscillators().len() && !pre.oscillators()[i].is_noise() ==> (
        #[trigger] post.oscillators()[i]).pg() == (pre.oscillators()[i].pg().advanced()))
    &&& post.low_pass().cutoff() == pre.low_pass().cutoff()
    &&& post.low_pass().resonance() == pre.low_pass().resonance()
    &&& post.low_pass().stage().a_view() == pre.low_pass().stage().a_view()
    &&& post.low_pass().stage().b_view() == pre.low_pass().stage().b_view()
    &&& post.high_pass() == pre.high_pass()
    &&& exists|ws: Seq<int>|
        {
            &&& ws.len() == pre.oscillators().len()
            &&& (forall|i: int| 0 <= i < ws.len() ==> 0 <= #[trigger] ws[i] < 4294967296)
            &&& out == df2_output_spec(
                pre.low_pass().stage().a_view(),
                pre.low_pass().stage().b_view(),
                pre.low_pass().stage().state(),
                shaped_sample_spec(pre, ws),
            )
            &&& post.low_pass().stage().state() =~= df2_next_state_spec(
                pre.low_pass().stage().a_view(),
                pre.low_pass().stage().b_view(),
                pre.low_pass().stage().state(),
                shaped_sample_spec(pre, ws),
            )
        }
}

/// Everything a control change leaves untouched besides the oscillator
/// bank.
pub open spec fn cc_keeps_rest(o: Voice, n: Voice) -> bool {
    &&& n.envelope_view() == o.envelope_view()
    &&& n.low_pass() == o.low_pass()
    &&& n.high_pass() == o.high_pass()
    &&& n.held() == o.held()
}

/// What the detune pairing control does: even-indexed oscillators are
/// tuned up by the mapped factor, their odd partners down by its
/// reciprocal; an unpaired trailing oscillator and the noise source
/// stay put.
pub open spec fn detune_effect(o: Voice, n: Voice, value: int) -> bool {
    let len = o.oscillators().len() as int;
    let t = log_map_spec(value, ONE as int, DETUNE_FACTOR as int, TUNE_LIMIT as int);
    &&& n.oscillators().len() == len
    &&& forall|j: int|
        0 <= j < len ==> (#[trigger] n.oscillators()[j]).is_noise()
            == o.oscillators()[j].is_noise()
    &&& forall|j: int|
        0 <= j < len - 1 && j % 2 == 0 && !o.oscillators()[j].is_noise() ==> (
        #[trigger] n.oscillators()[j]).pg() == (o.oscillators()[j].pg().with_tune(t))
    &&& forall|j: int|
        1 <= j < len && j % 2 == 1 && !o.oscillators()[j].is_noise() ==> (
        #[trigger] n.oscillators()[j]).pg() == (o.oscillators()[j].pg().with_tune(recip_spec(t)))
    &&& forall|j: int|
        0 <= j < len && o.oscillators()[j].is_noise() ==> #[trigger] n.oscillators()[j]
            == o.oscillators()[j]
    &&& (len % 2 == 1 && len > 0 ==> n.oscillators()[len - 1] == o.oscillators()[len - 1])
    &&& cc_keeps_rest(o, n)
}

/// Everything a control change leaves untouched besides one filter.
pub open spec fn cc_keeps_voice(o: Voice, n: Voice) -> bool {
    &&& n.oscillators() == o.oscillators()
    &&& n.held() == o.held()
}

/// The full control-change map: which parameter each control number
/// moves and onto which curve the value lands. Unknown numbers change
/// nothing.
pub open spec fn cc_effect(o: Voice, n: Voice, control: int, value: int) -> bool {
    if control == 14 {
        detune_effect(o, n, value)
    } else if control == 15 {
        &&& n.low_pass().cutoff() == log_map_spec(
            value,
            CUTOFF_START as int,
            CUTOFF_FACTOR as int,
            CUTOFF_LIMIT as int,
        )
        &&& n.low_pass().resonance() == o.low_pass().resonance()
        &&& n.low_pass().stage().a_view() == BiquadLowPassFilter::loaded_a_spec(
            n.low_pass().cutoff(),
            n.low_pass().resonance(),
        )
        &&& n.low_pass().stage().b_view() == BiquadLowPassFilter::loaded_b_spec(
            n.low_pass().cutoff(),
            n.low_pass().resonance(),
        )
        &&& n.high_pass() == o.high_pass()
        &&& n.envelope_view() == o.envelope_view()
        &&& cc_keeps_voice(o, n)
    } else if control == 16 {
        &&& n.low_pass().resonance() == log_map_spec(
            value,
            RESONANCE_START as int,
            RESONANCE_FACTOR as int,
            Q_LIMIT as int,
        )
        &&& n.low_pass().cutoff() == o.low_pass().cutoff()
        &&& n.low_pass().stage().a_view() == BiquadLowPassFilter::loaded_a_spec(
            n.low_pass().cutoff(),
            n.low_pass().resonance(),
        )
        &&& n.low_pass().stage().b_view() == BiquadLowPassFilter::loaded_b_spec(
            n.low_pass().cutoff(),
            n.low_pass().resonance(),
        )
        &&& n.high_pass() == o.high_pass()
        &&& n.envelope_view() == o.envelope_view()
        &&& cc_keeps_voice(o, n)
    } else if control == 17 {
        &&& n.high_pass().cutoff() == log_map_spec(
            value,
            CUTOFF_START as int,
            CUTOFF_FACTOR as int,
            CUTOFF_LIMIT as int,
        )
        &&& n.high_pass().resonance() == o.high_pass().resonance()
        &&& n.low_pass() == o.low_pass()
        &&& n.envelope_view() == o.envelope_view()
        &&& cc_keeps_voice(o, n)
    } else if control == 18 {
        &&& n.high_pass().resonance() == log_map_spec(
            value,
            RESONANCE_START as int,
            RESONANCE_FACTOR as int,
            Q_LIMIT as int,
        )
        &&& n.high_pass().cutoff() == o.high_pass().cutoff()
        &&& n.low_pass() == o.low_pass()
        &&& n.envelope_view() == o.envelope_view()
        &&& cc_keeps_voice(o, n)
    } else if control == 19 {
        &&& n.envelope_view() == (ADSREnvelope {
            attack_time: (env_time_spec(value) as i64),
            ..o.envelope_view()
        })
        &&& n.low_pass() == o.low_pass()
        &&& n.high_pass() == o.high_pass()
        &&& cc_keeps_voice(o, n)
    } else if control == 20 {
        &&& n.envelope_view() == (ADSREnvelope {
            decay_time: (env_time_spec(value) as i64),
            ..o.envelope_view()
        })
        &&& n.low_pass() == o.low_pass()
        &&& n.high_pass() == o.high_pass()
        &&& cc_keeps_voice(o, n)
    } else if control == 21 {
        &&& n.envelope_view() == (ADSREnvelope {
            sustain_level: (env_time_spec(value) as i64),
            ..o.envelope_view()
        })
        &&& n.low_pass() == o.low_pass()
        &&& n.high_pass() == o.high_pass()
        &&& cc_keeps_voice(o, n)
    } else if control == 22 {
        &&& n.envelope_view() == (ADSREnvelope {
            release_time: (env_time_spec(value) as i64),
            ..o.envelope_view()
        })
        &&& n.low_pass() == o.low_pass()
        &&& n.high_pass() == o.high_pass()
        &&& cc_keeps_voice(o, n)
    } else if control == 23 {
        &&& n.envelope_view() == (ADSREnvelope {
            attack_time: (env_time_spec(value) as i64),
            decay_time: (env_time_spec(value) as i64),
            release_time: (env_time_spec(value) as i64),
            ..o.envelope_view()
        })
        &&& n.low_pass() == o.low_pass()
        &&& n.high_pass() == o.high_pass()
        &&& cc_keeps_voice(o, n)
    } else {
        n == o
    }
}

/// The envelope-time curve: `10^(-4)` to `10^0` seconds over the
/// control range.
pub open spec fn env_time_spec(value: int) -> int {
    log_map_spec(value, TIME_START as int, TIME_FACTOR as int, ONE as int)
}

/// The single-voice synthesis engine.
pub struct Voice {
    osc: Vec<OscillatorKind>,
    env: ADSREnvelope,
    lp: BiquadLowPassFilter,
    hp: BiquadHighPassFilter,
    note: Option<u8>,
}

impl Voice {
    pub closed spec fn oscillators(&self) -> Seq<OscillatorKind> {
        self.osc@
    }

    pub closed spec fn envelope_view(&self) -> ADSREnvelope {
        self.env
    }

    pub closed spec fn low_pass(&self) -> BiquadLowPassFilter {
        self.lp
    }

    pub closed spec fn high_pass(&self) -> BiquadHighPassFilter {
        self.hp
    }

    pub closed spec fn held(&self) -> Option<u8> {
        self.note
    }

    pub closed spec fn wf(&self) -> bool {
        &&& self.osc@.len() <= 16
        &&& forall|i: int| 0 <= i < self.osc@.len() ==> (#[trigger] self.osc@[i]).inv()
        &&& self.env.wf()
        &&& self.lp.wf()
        &&& self.hp.wf()
    }

    /// The default patch: two sawtooth pairs an octave apart, a noise
    /// source, a fast envelope and the two shaping stages.
    pub fn new() -> (v: Voice)
        ensures
            v.wf(),
            v.oscillators().len() == 5,
            forall|i: int| 0 <= i < 5 ==> ((#[trigger] v.oscillators()[i]).is_noise() <==> i == 4),
            forall|i: int|
                0 <= i < 4 ==> (#[trigger] v.oscillators()[i]) matches OscillatorKind::SawTooth(_),
            v.oscillators()[0].pg() == (PhaseGenerator::new_spec(scale_spec(notes::A4 as int))),
            v.oscillators()[1].pg() == (PhaseGenerator::new_spec(scale_spec(notes::A4 as int))),
            v.oscillators()[2].pg() == (PhaseGenerator::new_spec(scale_spec(notes::A3 as int))),
            v.oscillators()[3].pg() == (PhaseGenerator::new_spec(scale_spec(notes::A3 as int))),
            v.envelope_view() == (ADSREnvelope::new_spec(655, 655, 39322, 13107)),
            v.low_pass().cutoff() == crate::oscillators::scales::REFERENCE_FREQ,
            v.low_pass().resonance() == 47186,
            v.low_pass().stage().a_view() == BiquadLowPassFilter::loaded_a_spec(
                crate::oscillators::scales::REFERENCE_FREQ as int,
                47186,
            ),
            v.low_pass().stage().b_view() == BiquadLowPassFilter::loaded_b_spec(
                crate::oscillators::scales::REFERENCE_FREQ as int,
                47186,
            ),
            v.low_pass().stage().state() =~= Seq::new(3, |i: int| 0),
            v.high_pass().cutoff() == crate::oscillators::scales::REFERENCE_FREQ,
            v.high_pass().resonance() == 47186,
            v.high_pass().stage().a_view() == BiquadHighPassFilter::loaded_a_spec(
                crate::oscillators::scales::REFERENCE_FREQ as int,
                47186,
            ),
            v.high_pass().stage().b_view() == BiquadHighPassFilter::loaded_b_spec(
                crate::oscillators::scales::REFERENCE_FREQ as int,
                47186,
            ),
            v.held() is None,
    {
        let mut osc: Vec<OscillatorKind> = Vec::new();
        osc.push(OscillatorKind::SawTooth(SawToothOscillator::new(freq(notes::A4))));
        osc.push(OscillatorKind::SawTooth(SawToothOscillator::new(freq(notes::A4))));
        osc.push(OscillatorKind::SawTooth(SawToothOscillator::new(freq(notes::A3))));
        osc.push(OscillatorKind::SawTooth(SawToothOscillator::new(freq(notes::A3))));
        osc.push(OscillatorKind::Noise(Noise::new(0xBAD_5EED)));
        Voice {
            osc,
            env: ADSREnvelope::new(655, 655, 39322, 13107),
            lp: BiquadLowPassFilter::new(),
            hp: BiquadHighPassFilter::new(),
            note: None,
        }
    }

    /// The note currently held, if any.
    pub fn current_note(&self) -> (r: Option<u8>)
        ensures
            r == self.held(),
    {
        self.note
    }

    /// The envelope, for observing level, stage and time parameters.
    pub fn envelope(&self) -> (r: &ADSREnvelope)
        ensures
            *r == self.envelope_view(),
    {
        &self.env
    }

    /// The low-pass cutoff in Q16.16 Hz.
    pub fn low_pass_cutoff(&self) -> (r: i64)
        ensures
            r == self.low_pass().cutoff(),
    {
        self.lp.cutoff_freq()
    }

    /// The low-pass resonance in Q16.16.
    pub fn low_pass_q(&self) -> (r: i64)
        ensures
            r == self.low_pass().resonance(),
    {
        self.lp.resonance_q()
    }

    /// The phase increment of each oscillator, in binary-angle units
    /// per sample; the noise source reports zero.
    pub fn oscillator_increments(&self) -> (r: Vec<u32>)
        requires
            self.wf(),
        ensures
            r@.len() == self.oscillators().len(),
            forall|i: int|
                0 <= i < r@.len() ==> #[trigger] r@[i] as int == (
                if self.oscillators()[i].is_noise() {
                    0
                } else {
                    self.oscillators()[i].pg().increment()
                }),
    {
        let mut r: Vec<u32> = Vec::new();
        let mut i: usize = 0;
        while i < self.osc.len()
            invariant
                0 <= i <= self.osc@.len(),
                self.wf(),
                r@.len() == i,
                forall|j: int|
                    0 <= j < i ==> #[trigger] r@[j] as int == (
                    if self.oscillators()[j].is_noise() {
                        0
                    } else {
                        self.oscillators()[j].pg().increment()
                    }),
            decreases self.osc@.len() - i,
        {
            let d: u32 = match &self.osc[i] {
                OscillatorKind::Sine(o) => o.current_increment(),
                OscillatorKind::SawTooth(o) => o.current_increment(),
                OscillatorKind::Pwm(o) => o.current_increment(),
                OscillatorKind::Noise(_) => 0,
            };
            r.push(d);
            i = i + 1;
        }
        r
    }

    /// Produce one output sample: sum the oscillator bank, shape the
    /// sum by the envelope, then by the low pass.
    pub fn generate(&mut self) -> (r: i64)
        requires
            old(self).wf(),
        ensures
            final(self).wf(),
            -DF2_OUT_LIMIT <= r <= DF2_OUT_LIMIT,
            final(self).held() == old(self).held(),
            final(self).envelope_view() == env_after_step(old(self).envelope_view()),
            final(self).oscillators().len() == old(self).oscillators().len(),
            forall|i: int|
                0 <= i < old(self).oscillators().len() ==> (#[trigger] final(self).oscillators()[i]).is_noise() == old(self).oscillators()[i].is_noise(),
            forall|i: int|
                0 <= i < old(self).oscillators().len() && !old(self).oscillators()[i].is_noise()
                    ==> (#[trigger] final(self).oscillators()[i]).pg()
                    == (old(self).oscillators()[i].pg().advanced()),
            final(self).low_pass().cutoff() == old(self).low_pass().cutoff(),
            final(self).low_pass().resonance() == old(self).low_pass().resonance(),
            final(self).low_pass().stage().a_view() == old(self).low_pass().stage().a_view(),
            final(self).low_pass().stage().b_view() == old(self).low_pass().stage().b_view(),
            final(self).high_pass() == old(self).high_pass(),
            exists|ws: Seq<int>|
                {
                    &&& ws.len() == old(self).oscillators().len()
                    &&& (forall|i: int| 0 <= i < ws.len() ==> 0 <= #[trigger] ws[i] < 4294967296)
                    &&& r == df2_output_spec(
                        old(self).low_pass().stage().a_view(),
                        old(self).low_pass().stage().b_view(),
                        old(self).low_pass().stage().state(),
                        shaped_sample_spec(*old(self), ws),
                    )
                    &&& final(self).low_pass().stage().state() =~= df2_next_state_spec(
                        old(self).low_pass().stage().a_view(),
                        old(self).low_pass().stage().b_view(),
                        old(self).low_pass().stage().state(),
                        shaped_sample_spec(*old(self), ws),
                    )
                },
            generate_step_rel(*old(self), *final(self), r as int),
    {
        let n: usize = self.osc.len();
        let mut sum: i64 = 0;
        let mut i: usize = 0;
        let ghost mut ws: Seq<int> = Seq::empty();
        while i < n
            invariant
                0 <= i <= n == self.osc@.len(),
                self.wf(),
                -(i as int) * ONE <= sum as int <= (i as int) * ONE,
                n <= 16,
                self.env == old(self).env,
                self.lp == old(self).lp,
                self.hp == old(self).hp,
                self.note == old(self).note,
                ws.len() == i,
                forall|j: int| 0 <= j < i ==> 0 <= #[trigger] ws[j] < 4294967296,
                sum == bank_sum_spec(old(self).oscillators(), ws, i as int),
                forall|j: int|
                    0 <= j < n ==> (#[trigger] self.osc@[j]).is_noise() == old(self).oscillators()[j].is_noise(),
                forall|j: int|
                    0 <= j < i && !old(self).oscillators()[j].is_noise() ==> (
                    #[trigger] self.osc@[j]).pg() == (old(self).oscillators()[j].pg().advanced()),
                forall|j: int| i <= j < n ==> #[trigger] self.osc@[j] == old(self).oscillators()[j],
            decreases n - i,
        {
            let s: i64 = self.osc[i].generate();
            proof {
                assert((i as int + 1) * ONE == (i as int) * ONE + ONE) by (nonlinear_arith);
                assert((i as int) * ONE <= 16 * ONE) by (nonlinear_arith)
                    requires
                        0 <= i as int <= 16,
                        ONE > 0,
                ;
                let w0 = choose|w: int|
                    0 <= w < 4294967296 && s == sample_spec(old(self).oscillators()[i as int], w);
                lemma_bank_sum_push(old(self).oscillators(), ws, w0, i as int);
                ws = ws.push(w0);
                assert(ws[i as int] == w0);
            }
            sum = sum + s;
            i = i + 1;
        }
        proof {
            assert((n as int) * ONE <= 16 * ONE) by (nonlinear_arith)
                requires
                    0 <= n as int <= 16,
                    ONE > 0,
            ;
            assert(16 * ONE <= VOLUME_IN_LIMIT);
        }
        let shaped: i64 = self.env.filter(sum);
        let r: i64 = self.lp.filter(shaped);
        proof {
            assert(shaped == shaped_sample_spec(*old(self), ws));
            assert(generate_step_rel(*old(self), *self, r as int));
        }
        r
    }

    /// Route one MIDI event into the voice: only channel one is
    /// listened to; anything else leaves the voice untouched.
    pub fn handle_midi(&mut self, event: MidiEvent)
        requires
            old(self).wf(),
            event.wf(),
            event matches MidiEvent::NoteOn { channel: 0, note, .. } ==> note < SCALE_KEYS,
        ensures
            final(self).wf(),
            (event matches MidiEvent::NoteOn { channel: 0, note, velocity } ==> {
                &&& final(self).held() == Some(note)
                &&& final(self).envelope_view() == (ADSREnvelope {
                    stage: ADSRStage::Attack,
                    frac: 0,
                    ..old(self).envelope_view()
                })
                &&& final(self).oscillators().len() == old(self).oscillators().len()
                &&& forall|i: int|
                    0 <= i < old(self).oscillators().len()
                        && !old(self).oscillators()[i].is_noise()
                        ==> (#[trigger] final(self).oscillators()[i]).pg()
                        == (old(self).oscillators()[i].pg().with_frequency(scale_spec(note as int)))
                &&& forall|i: int|
                    0 <= i < old(self).oscillators().len()
                        && old(self).oscillators()[i].is_noise()
                        ==> #[trigger] final(self).oscillators()[i] == old(self).oscillators()[i]
                &&& final(self).low_pass() == old(self).low_pass()
                &&& final(self).high_pass() == old(self).high_pass()
            }),
            (event matches MidiEvent::NoteOff { channel: 0, .. } ==> {
                &&& final(self).held() is None
                &&& final(self).envelope_view() == (ADSREnvelope {
                    stage: ADSRStage::Release,
                    frac: 0,
                    ..old(self).envelope_view()
                })
                &&& final(self).oscillators() == old(self).oscillators()
                &&& final(self).low_pass() == old(self).low_pass()
                &&& final(self).high_pass() == old(self).high_pass()
            }),
            (event matches MidiEvent::ControlChange { channel: 0, control, value } ==> cc_effect(
                *old(self),
                *final(self),
                control as int,
                value as int,
            )),
            (event.channel_of() != 0 ==> *final(self) == *old(self)),
    {
        match event {
            MidiEvent::NoteOn { channel, note, velocity } => {
                if channel == 0 {
                    self.handle_note_on(note, velocity);
                }
            },
            MidiEvent::NoteOff { channel, note, velocity } => {
                if channel == 0 {
                    self.handle_note_off(note, velocity);
                }
            },
            MidiEvent::ControlChange { channel, control, value } => {
                if channel == 0 {
                    self.handle_control_change(control, value);
                }
            },
        }
    }

    fn handle_note_on(&mut self, note: u8, velocity: u8)
        requires
            old(self).wf(),
            note < SCALE_KEYS,
        ensures
            final(self).wf(),
            final(self).held() == Some(note),
            final(self).envelope_view() == (ADSREnvelope {
                stage: ADSRStage::Attack,
                frac: 0,
                ..old(self).envelope_view()
            }),
            final(self).oscillators().len() == old(self).oscillators().len(),
            forall|i: int|
                0 <= i < old(self).oscillators().len() && !old(self).oscillators()[i].is_noise()
                    ==> (#[trigger] final(self).oscillators()[i]).pg()
                    == (old(self).oscillators()[i].pg().with_frequency(scale_spec(note as int))),
            forall|i: int|
                0 <= i < old(self).oscillators().len() && old(self).oscillators()[i].is_noise()
                    ==> #[trigger] final(self).oscillators()[i] == old(self).oscillators()[i],
            forall|i: int|
                0 <= i < old(self).oscillators().len() ==> (#[trigger] final(self).oscillators()[i]).is_noise() == old(self).oscillators()[i].is_noise(),
            final(self).low_pass() == old(self).low_pass(),
            final(self).high_pass() == old(self).high_pass(),
    {
        self.note = Some(note);
        let n: usize = self.osc.len();
        let mut i: usize = 0;
        while i < n
            invariant
                0 <= i <= n == self.osc@.len(),
                self.wf(),
                note < SCALE_KEYS,
                self.env == old(self).env,
                self.lp == old(self).lp,
                self.hp == old(self).hp,
                self.note == Some(note),
                forall|j: int|
                    0 <= j < n ==> (#[trigger] self.osc@[j]).is_noise() == old(self).oscillators()[j].is_noise(),
                forall|j: int|
                    0 <= j < i && !old(self).oscillators()[j].is_noise() ==> (
                    #[trigger] self.osc@[j]).pg() == (old(self).oscillators()[j].pg().with_frequency(scale_spec(note as int))),
                forall|j: int|
                    0 <= j < i && old(self).oscillators()[j].is_noise() ==> #[trigger] self.osc@[j]
                        == old(self).oscillators()[j],
                forall|j: int| i <= j < n ==> #[trigger] self.osc@[j] == old(self).oscillators()[j],
            decreases n - i,
        {
            self.osc[i].set_note(note);
            i = i + 1;
        }
        self.env.note_on(note, velocity);
    }

    /// Apply a control change to the mapped parameter; unknown control
    /// numbers are silently ignored.
    fn handle_control_change(&mut self, control: u8, value: u8)
        requires
            old(self).wf(),
        ensures
            final(self).wf(),
            cc_effect(*old(self), *final(self), control as int, value as int),
    {
        if control == 14 {
            let t: i64 = log_map(value, ONE, DETUNE_FACTOR, TUNE_LIMIT);
            let it: i64 = recip_q(t);
            let n: usize = self.osc.len();
            let mut i: usize = 0;
            while i + 1 < n
                invariant
                    0 <= i <= n == self.osc@.len(),
                    i % 2 == 0,
                    ONE <= t <= TUNE_LIMIT,
                    t == log_map_spec(
                        value as int,
                        ONE as int,
                        DETUNE_FACTOR as int,
                        TUNE_LIMIT as int,
                    ),
                    it == recip_spec(t as int),
                    0 <= it <= ONE,
                    self.wf(),
                    self.env == old(self).env,
                    self.lp == old(self).lp,
                    self.hp == old(self).hp,
                    self.note == old(self).note,
                    forall|j: int|
                        0 <= j < n ==> (#[trigger] self.osc@[j]).is_noise() == old(self).oscillators()[j].is_noise(),
                    forall|j: int|
                        0 <= j < i && j % 2 == 0 && !old(self).oscillators()[j].is_noise() ==> (
                        #[trigger] self.osc@[j]).pg() == (old(self).oscillators()[j].pg().with_tune(t as int)),
                    forall|j: int|
                        0 <= j < i && j % 2 == 1 && !old(self).oscillators()[j].is_noise() ==> (
                        #[trigger] self.osc@[j]).pg() == (old(self).oscillators()[j].pg().with_tune(recip_spec(t as int))),
                    forall|j: int|
                        0 <= j < i && old(self).oscillators()[j].is_noise()
                            ==> #[trigger] self.osc@[j] == old(self).oscillators()[j],
                    forall|j: int|
                        i <= j < n ==> #[trigger] self.osc@[j] == old(self).oscillators()[j],
                decreases n - i,
            {
                self.osc[i].tune(t);
                self.osc[i + 1].tune(it);
                i = i + 2;
            }
        } else if control == 15 {
            let c: i64 = log_map(value, CUTOFF_START, CUTOFF_FACTOR, CUTOFF_LIMIT);
            self.lp.set_cutoff(c);
        } else if control == 16 {
            let q: i64 = log_map(value, RESONANCE_START, RESONANCE_FACTOR, Q_LIMIT);
            self.lp.set_q(q);
        } else if control == 17 {
            let c: i64 = log_map(value, CUTOFF_START, CUTOFF_FACTOR, CUTOFF_LIMIT);
            self.hp.set_cutoff(c);
        } else if control == 18 {
            let q: i64 = log_map(value, RESONANCE_START, RESONANCE_FACTOR, Q_LIMIT);
            self.hp.set_q(q);
        } else if control == 19 {
            self.env.attack_time = log_map(value, TIME_START, TIME_FACTOR, ONE);
        } else if control == 20 {
            self.env.decay_time = log_map(value, TIME_START, TIME_FACTOR, ONE);
        } else if control == 21 {
            self.env.sustain_level = log_map(value, TIME_START, TIME_FACTOR, ONE);
        } else if control == 22 {
            self.env.release_time = log_map(value, TIME_START, TIME_FACTOR, ONE);
        } else if control == 23 {
            let delta_t: i64 = log_map(value, TIME_START, TIME_FACTOR, ONE);
            self.env.attack_time = delta_t;
            self.env.decay_time = delta_t;
            self.env.release_time = delta_t;
        }
    }

    fn handle_note_off(&mut self, note: u8, velocity: u8)
        requires
            old(self).wf(),
        ensures
            final(self).wf(),
            final(self).held() is None,
            final(self).envelope_view() == (ADSREnvelope {
                stage: ADSRStage::Release,
                frac: 0,
                ..old(self).envelope_view()
            }),
            final(self).oscillators() == old(self).oscillators(),
            final(self).low_pass() == old(self).low_pass(),
            final(self).high_pass() == old(self).high_pass(),
    {
        self.note = None;
        self.env.note_off(note, velocity);
    }
}

} // verus!
