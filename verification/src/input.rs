//! Analog-input conditioning: a one-pole integer smoothing filter and a
//! hysteresis gate per channel, and the round-robin poll scheduler that
//! turns changed readings into control-change events.
//!
//! The hysteresis stage opens once a measurement moves more than
//! `trigger_threshold` away from the last emitted value, then follows
//! every measurement until one falls within `sustain_threshold` of the
//! last smoothed value; this keeps noisy but stationary signals quiet
//! while staying responsive to intentional movement.
use vstd::prelude::*;

verus! {

use crate::filters::traits::Filter;
use crate::midi::MidiEvent;

/// One past the largest raw reading the converter can deliver.
pub const ADC_MAX: u16 = 4096;

/// The fixed-point weight denominator of the smoothing filter (2^16).
pub const ADC_SCALE: u32 = 65536;

/// The weight budget split between input and feedback (2^16).
pub const ADC_WEIGHT: u32 = 65536;

/// One smoothing step: `y' = (a*x + b*y) / 2^16`, exact in integers.
pub open spec fn adc_filter_step_spec(a: int, b: int, y: int, x: int) -> int {
    (a * x + b * y) / (ADC_SCALE as int)
}

/// Simple first order low pass over raw readings.
#[derive(Clone)]
pub struct AdcFilter {
    y: u16,
    a: u32,
    b: u32,
}

impl AdcFilter {
    pub closed spec fn smoothed(&self) -> int {
        self.y as int
    }

    pub closed spec fn weight_in(&self) -> int {
        self.a as int
    }

    pub closed spec fn weight_back(&self) -> int {
        self.b as int
    }

    pub closed spec fn wf(&self) -> bool {
        &&& self.a + self.b == ADC_WEIGHT
        &&& self.y < ADC_MAX
    }

    /// A filter with input weight `alpha` out of 2^16; the weight
    /// stands for the smoothing coefficient: the full budget means no
    /// filtering at all.
    pub fn new(alpha: u32) -> (f: AdcFilter)
        requires
            alpha <= ADC_WEIGHT,
        ensures
            f.wf(),
            f.weight_in() == alpha,
            f.weight_back() == ADC_WEIGHT - alpha,
            f.smoothed() == 0,
    {
        AdcFilter { y: 0, a: alpha, b: ADC_WEIGHT - alpha }
    }

}

impl Filter for AdcFilter {
    type In = u16;

    type Out = u16;

    open spec fn inv(&self) -> bool {
        self.wf()
    }

    open spec fn in_ok(x: u16) -> bool {
        x < ADC_MAX
    }

    open spec fn out_ok(y: u16) -> bool {
        y < ADC_MAX
    }

    open spec fn model_out(&self, x: u16) -> u16 {
        adc_filter_step_spec(self.weight_in(), self.weight_back(), self.smoothed(), x as int) as u16
    }

    open spec fn models(&self, x: u16, next: &AdcFilter) -> bool {
        &&& next.weight_in() == self.weight_in()
        &&& next.weight_back() == self.weight_back()
        &&& next.smoothed() == adc_filter_step_spec(
            self.weight_in(),
            self.weight_back(),
            self.smoothed(),
            x as int,
        )
    }

    /// Fold one raw measurement into the running average.
    fn filter(&mut self, x: u16) -> (r: u16)
        ensures
            final(self).weight_in() == old(self).weight_in(),
            final(self).weight_back() == old(self).weight_back(),
            final(self).smoothed() == adc_filter_step_spec(
                old(self).weight_in(),
                old(self).weight_back(),
                old(self).smoothed(),
                x as int,
            ),
            r == final(self).smoothed(),
    {
        proof {
            assert(self.a * (x as u32) + self.b * self.y <= 65536 * 4095) by (nonlinear_arith)
                requires
                    self.a + self.b == 65536,
                    x <= 4095,
                    self.y <= 4095,
            ;
            assert((self.a * (x as u32) + self.b * self.y) / 65536 <= 4095);
        }
        self.y = ((self.a * x as u32 + self.b * self.y as u32) / ADC_SCALE) as u16;
        self.y
    }
}

/// The hysteresis gate over smoothed measurements.
#[derive(Clone, Copy, PartialEq, Eq, Structural)]
pub struct AdcGate {
    /// Measurement difference that makes the hysteresis stage open.
    pub trigger_threshold: u16,
    /// Measurement difference under which the hysteresis stage closes.
    pub sustain_threshold: u16,
    /// The last measurement the open gate passed through.
    pub last: u16,
    /// Whether measurements currently pass through.
    pub active: bool,
}

pub open spec fn abs_diff_spec(x: int, y: int) -> int {
    if x >= y {
        x - y
    } else {
        y - x
    }
}

/// The hysteresis state after one measurement.
pub open spec fn gate_step_spec(g: AdcGate, x: u16) -> AdcGate {
    let diff = abs_diff_spec(x as int, g.last as int);
    let active = if diff > g.trigger_threshold {
        true
    } else if diff < g.sustain_threshold {
        false
    } else {
        g.active
    };
    if active {
        (AdcGate { active: true, last: x, ..g })
    } else {
        (AdcGate { active: false, ..g })
    }
}

/// What one measurement makes the hysteresis stage emit.
pub open spec fn gate_out_spec(g: AdcGate, x: u16) -> Option<u16> {
    if gate_step_spec(g, x).active {
        Some(x)
    } else {
        None
    }
}

impl AdcGate {
    pub fn new(trigger_threshold: u16, sustain_threshold: u16) -> (g: AdcGate)
        ensures
            g.trigger_threshold == trigger_threshold,
            g.sustain_threshold == sustain_threshold,
            g.last == 0,
            !g.active,
    {
        AdcGate { trigger_threshold, sustain_threshold, last: 0, active: false }
    }

}

impl Filter for AdcGate {
    type In = u16;

    type Out = Option<u16>;

    open spec fn inv(&self) -> bool {
        true
    }

    open spec fn in_ok(x: u16) -> bool {
        true
    }

    open spec fn out_ok(y: Option<u16>) -> bool {
        true
    }

    open spec fn model_out(&self, x: u16) -> Option<u16> {
        gate_out_spec(*self, x)
    }

    open spec fn models(&self, x: u16, next: &AdcGate) -> bool {
        *next == gate_step_spec(*self, x)
    }

    /// Pass the measurement if the hysteresis stage is (or just became)
    /// open.
    fn filter(&mut self, x: u16) -> (r: Option<u16>)
        ensures
            *final(self) == gate_step_spec(*old(self), x),
            r == gate_out_spec(*old(self), x),
    {
        let diff: u16 = if x >= self.last {
            x - self.last
        } else {
            self.last - x
        };
        if diff > self.trigger_threshold {
            self.active = true;
        } else if diff < self.sustain_threshold {
            self.active = false;
        }
        if self.active {
            self.last = x;
            Some(x)
        } else {
            None
        }
    }
}

/// The hysteresis state after a whole run of measurements.
pub open spec fn gate_iter_spec(g: AdcGate, rs: Seq<u16>) -> AdcGate
    decreases rs.len(),
{
    if rs.len() == 0 {
        g
    } else {
        gate_iter_spec(gate_step_spec(g, rs[0]), rs.drop_first())
    }
}

/// A closed gate stays closed, keeps its reference value, and emits
/// nothing, as long as every measurement stays within the trigger
/// threshold of that reference.
pub proof fn lemma_gate_stays_closed(g: AdcGate, rs: Seq<u16>)
    requires
        !g.active,
        forall|i: int|
            0 <= i < rs.len() ==> abs_diff_spec(#[trigger] rs[i] as int, g.last as int)
                <= g.trigger_threshold,
    ensures
        !gate_iter_spec(g, rs).active,
        gate_iter_spec(g, rs).last == g.last,
        forall|i: int|
            0 <= i < rs.len() ==> gate_out_spec(
                gate_iter_spec(g, rs.take(i)),
                #[trigger] rs[i],
            ) is None,
    decreases rs.len(),
{
    if rs.len() > 0 {
        let g1 = gate_step_spec(g, rs[0]);
        assert(!g1.active && g1.last == g.last);
        assert(forall|i: int|
            0 <= i < rs.drop_first().len() ==> abs_diff_spec(
                #[trigger] rs.drop_first()[i] as int,
                g1.last as int,
            ) <= g1.trigger_threshold);
        lemma_gate_stays_closed(g1, rs.drop_first());
        assert forall|i: int| 0 <= i < rs.len() implies gate_out_spec(
            gate_iter_spec(g, rs.take(i)),
            #[trigger] rs[i],
        ) is None by {
            if i == 0 {
                assert(rs.take(0) =~= Seq::<u16>::empty());
            } else {
                assert(rs.take(i).drop_first() =~= rs.drop_first().take(i - 1));
                assert(gate_iter_spec(g, rs.take(i)) == gate_iter_spec(
                    g1,
                    rs.drop_first().take(i - 1),
                ));
                assert(rs[i] == rs.drop_first()[i - 1]);
            }
        }
    }
}

/// An open gate closes on the first measurement within the sustain
/// threshold of its last passed value, and emits nothing for it.
pub proof fn lemma_gate_closes(g: AdcGate, x: u16)
    requires
        g.active,
        abs_diff_spec(x as int, g.last as int) < g.sustain_threshold,
        g.sustain_threshold <= g.trigger_threshold,
    ensures
        !gate_step_spec(g, x).active,
        gate_out_spec(g, x) is None,
{
}

/// Per-channel conditioning configuration.
#[derive(Clone, Copy)]
pub struct AnalogInputConfig {
    /// Input weight of the smoothing filter, out of 2^16; the full
    /// budget means no filtering.
    pub alpha: u32,
    pub trigger_threshold: u16,
    pub sustain_threshold: u16,
}

/// Filtered and gated analog input, producing a value only when the
/// reading really moved.
pub struct AnalogInput {
    filter: AdcFilter,
    gate: AdcGate,
}

impl AnalogInput {
    pub closed spec fn filter_view(&self) -> AdcFilter {
        self.filter
    }

    pub closed spec fn gate_view(&self) -> AdcGate {
        self.gate
    }

    pub closed spec fn wf(&self) -> bool {
        &&& self.filter.wf()
        &&& self.gate.last < ADC_MAX
    }

    /// A fresh conditioned channel.
    pub fn new(config: AnalogInputConfig) -> (a: AnalogInput)
        requires
            config.alpha <= ADC_WEIGHT,
        ensures
            a.wf(),
            a.filter_view().weight_in() == config.alpha,
            a.filter_view().weight_back() == ADC_WEIGHT - config.alpha,
            a.filter_view().smoothed() == 0,
            a.gate_view() == (AdcGate {
                trigger_threshold: config.trigger_threshold,
                sustain_threshold: config.sustain_threshold,
                last: 0,
                active: false,
            }),
    {
        AnalogInput {
            filter: AdcFilter::new(config.alpha),
            gate: AdcGate::new(config.trigger_threshold, config.sustain_threshold),
        }
    }

    /// Condition one raw measurement: smooth it, then gate it.
    pub fn poll(&mut self, raw: u16) -> (r: Option<u16>)
        requires
            old(self).wf(),
            raw < ADC_MAX,
        ensures
            final(self).wf(),
            final(self).filter_view().weight_in() == old(self).filter_view().weight_in(),
            final(self).filter_view().weight_back() == old(self).filter_view().weight_back(),
            final(self).filter_view().smoothed() == adc_filter_step_spec(
                old(self).filter_view().weight_in(),
                old(self).filter_view().weight_back(),
                old(self).filter_view().smoothed(),
                raw as int,
            ),
            final(self).gate_view() == gate_step_spec(
                old(self).gate_view(),
                (final(self).filter_view().smoothed() as u16),
            ),
            r == gate_out_spec(
                old(self).gate_view(),
                (final(self).filter_view().smoothed() as u16),
            ),
            r matches Some(v) ==> v < ADC_MAX,
    {
        let smoothed: u16 = self.filter.filter(raw);
        self.gate.filter(smoothed)
    }
}

/// Builder for a set of conditioned channels, each tied to a MIDI
/// control number.
pub struct AnalogInputBuilder {
    input_config: AnalogInputConfig,
    inputs: Vec<(AnalogInput, u8)>,
}

impl AnalogInputBuilder {
    pub closed spec fn count(&self) -> int {
        self.inputs@.len() as int
    }

    /// The conditioning configuration every added channel gets.
    pub closed spec fn config(&self) -> AnalogInputConfig {
        self.input_config
    }

    pub closed spec fn channel_view(&self, i: int) -> AnalogInput {
        self.inputs@[i].0
    }

    /// The control number the `i`-th channel is tied to.
    pub closed spec fn control_of(&self, i: int) -> u8 {
        self.inputs@[i].1
    }

    pub closed spec fn wf(&self) -> bool {
        &&& self.input_config.alpha <= ADC_WEIGHT
        &&& forall|i: int|
            0 <= i < self.inputs@.len() ==> (#[trigger] self.inputs@[i]).0.wf()
                && self.inputs@[i].1 <= 127
    }

    /// Construct a new analog input builder.
    ///
    /// `config` - filter and gate configuration for every channel
    pub fn new(config: AnalogInputConfig) -> (b: AnalogInputBuilder)
        requires
            config.alpha <= ADC_WEIGHT,
        ensures
            b.wf(),
            b.count() == 0,
            b.config() == config,
    {
        AnalogInputBuilder { input_config: config, inputs: Vec::new() }
    }

    /// Add a new conditioned channel tied to MIDI control `control`.
    pub fn add(self, control: u8) -> (b: AnalogInputBuilder)
        requires
            self.wf(),
            control <= 127,
        ensures
            b.wf(),
            b.count() == self.count() + 1,
            b.config() == self.config(),
            forall|j: int|
                0 <= j < self.count() ==> #[trigger] b.channel_view(j) == self.channel_view(j)
                    && b.control_of(j) == self.control_of(j),
            b.control_of(self.count()) == control,
            b.channel_view(self.count()).wf(),
            b.channel_view(self.count()).filter_view().weight_in() == self.config().alpha,
            b.channel_view(self.count()).filter_view().weight_back() == ADC_WEIGHT
                - self.config().alpha,
            b.channel_view(self.count()).filter_view().smoothed() == 0,
            b.channel_view(self.count()).gate_view() == (AdcGate {
                trigger_threshold: self.config().trigger_threshold,
                sustain_threshold: self.config().sustain_threshold,
                last: 0,
                active: false,
            }),
    {
        let mut b = self;
        let input = AnalogInput::new(b.input_config);
        b.inputs.push((input, control));
        b
    }

    /// Finish: the channels become a round-robin polled bank.
    pub fn build(self) -> (bank: AnalogInputBank)
        requires
            self.wf(),
        ensures
            bank.wf(),
            bank.count() == self.count(),
            self.count() > 0 ==> bank.position() == 0,
            forall|j: int|
                0 <= j < self.count() ==> #[trigger] bank.channel_view(j) == self.channel_view(j)
                    && bank.control_of(j) == self.control_of(j),
    {
        AnalogInputBank { inputs: self.inputs, next: 0 }
    }
}

/// All conditioned channels, polled cyclically: one reading per tick,
/// channels taken in turn so none can starve the others.
pub struct AnalogInputBank {
    inputs: Vec<(AnalogInput, u8)>,
    next: usize,
}

impl AnalogInputBank {
    pub closed spec fn count(&self) -> int {
        self.inputs@.len() as int
    }

    /// The channel the next reading belongs to.
    pub closed spec fn position(&self) -> int {
        self.next as int
    }

    pub closed spec fn control_of(&self, i: int) -> u8 {
        self.inputs@[i].1
    }

    pub closed spec fn channel_view(&self, i: int) -> AnalogInput {
        self.inputs@[i].0
    }

    pub closed spec fn wf(&self) -> bool {
        &&& forall|i: int|
            0 <= i < self.inputs@.len() ==> (#[trigger] self.inputs@[i]).0.wf()
                && self.inputs@[i].1 <= 127
        &&& (self.inputs@.len() > 0 ==> self.next < self.inputs@.len())
        &&& (self.inputs@.len() == 0 ==> self.next == 0)
    }

    /// How many channels the bank polls.
    pub fn channel_count(&self) -> (r: usize)
        ensures
            r == self.count(),
    {
        self.inputs.len()
    }

    /// Which channel to read for the next step.
    pub fn next_channel(&self) -> (r: usize)
        ensures
            r == self.position(),
    {
        self.next
    }

    /// Feed the reading for the current channel; on a passed value,
    /// the channel's control-change event with the reading scaled from
    /// the converter range down to [0, 127].
    pub fn step(&mut self, raw: u16) -> (r: Option<MidiEvent>)
        requires
            old(self).wf(),
            old(self).count() > 0,
            raw < ADC_MAX,
        ensures
            final(self).wf(),
            final(self).count() == old(self).count(),
            final(self).position() == (old(self).position() + 1) % old(self).count(),
            forall|j: int|
                0 <= j < old(self).count() && j != old(self).position()
                    ==> #[trigger] final(self).channel_view(j) == old(self).channel_view(j),
            forall|j: int|
                0 <= j < old(self).count() ==> #[trigger] final(self).control_of(j) == old(
                    self,
                ).control_of(j),
            ({
                let i = old(self).position();
                let g = old(self).channel_view(i).gate_view();
                let smoothed = adc_filter_step_spec(
                    old(self).channel_view(i).filter_view().weight_in(),
                    old(self).channel_view(i).filter_view().weight_back(),
                    old(self).channel_view(i).filter_view().smoothed(),
                    raw as int,
                );
                &&& final(self).channel_view(i).filter_view().smoothed() == smoothed
                &&& final(self).channel_view(i).filter_view().weight_in() == old(
                    self,
                ).channel_view(i).filter_view().weight_in()
                &&& final(self).channel_view(i).filter_view().weight_back() == old(
                    self,
                ).channel_view(i).filter_view().weight_back()
                &&& final(self).channel_view(i).gate_view() == gate_step_spec(
                    g,
                    (smoothed as u16),
                )
                &&& (r is Some <==> gate_out_spec(g, (smoothed as u16)) is Some)
                &&& (r matches Some(e) ==> e == (MidiEvent::ControlChange {
                    channel: 0,
                    control: old(self).control_of(i),
                    value: ((smoothed / 32) as u8),
                }))
            }),
    {
        let i: usize = self.next;
        let control: u8 = self.inputs[i].1;
        let out: Option<u16> = self.inputs[i].0.poll(raw);
        let len: usize = self.inputs.len();
        self.next = (self.next + 1) % len;
        match out {
            Some(v) => Some(
                MidiEvent::ControlChange { channel: 0, control, value: (v / 32) as u8 },
            ),
            None => None,
        }
    }
}

} // verus!
