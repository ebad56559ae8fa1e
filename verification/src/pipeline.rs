//! The audio chunk pipeline: a fixed-size buffer of interleaved stereo
//! sample frames generated ahead of transmission. The streaming sink
//! accepts as many frames per call as it can and reports the count; the
//! unsent tail is rotated to the front so the next cycle regenerates
//! only what was actually consumed.
use vstd::prelude::*;

verus! {

use crate::config::{CHUNK_SAMPLES, FULL_TURN, ONE};
use crate::envelope::env_iter_spec;
use crate::filters::pass::tdiv_spec;
use crate::oscillators::phaser::{lemma_phase_accumulation, phase_after_spec};
use crate::synth::{generate_step_rel, Voice};

broadcast use crate::oscillators::phaser::lemma_advanced_views;

/// The largest 16-bit sample magnitude the frames carry.
pub const FRAME_MAX: i64 = 32767;

/// A voice sample clamped into [-1, 1].
pub open spec fn clamp_one_spec(a: int) -> int {
    if a > ONE {
        ONE as int
    } else if a < -ONE {
        -ONE as int
    } else {
        a
    }
}

/// The 16-bit value written to both channels of a frame: the clamped
/// sample scaled to half the 16-bit range.
pub open spec fn frame_value_spec(a: int) -> int {
    tdiv_spec(clamp_one_spec(a) * FRAME_MAX, 2 * ONE)
}

/// Convert one voice sample to an interleaved stereo frame.
pub fn to_frame(a: i64) -> (r: [i16; 2])
    ensures
        r@[0] == frame_value_spec(a as int),
        r@[1] == frame_value_spec(a as int),
        -16383 <= r@[0] <= 16383,
{
    let c: i64 = if a > ONE {
        ONE
    } else if a < -ONE {
        -ONE
    } else {
        a
    };
    proof {
        assert(-(ONE * FRAME_MAX) <= c * FRAME_MAX <= ONE * FRAME_MAX) by (nonlinear_arith)
            requires
                -ONE <= c <= ONE,
                FRAME_MAX > 0,
        ;
        if c >= 0 {
            vstd::arithmetic::div_mod::lemma_div_pos_is_pos(c * FRAME_MAX, 2 * ONE);
            vstd::arithmetic::div_mod::lemma_div_is_ordered(c * FRAME_MAX, ONE * FRAME_MAX, 2 * ONE);
        } else {
            vstd::arithmetic::div_mod::lemma_div_pos_is_pos(-(c as int) * FRAME_MAX, 2 * ONE);
            vstd::arithmetic::div_mod::lemma_div_is_ordered(
                -(c as int) * FRAME_MAX,
                ONE * FRAME_MAX,
                2 * ONE,
            );
            assert(-(c as int) * FRAME_MAX == -(c * FRAME_MAX)) by (nonlinear_arith);
        }
        assert(ONE * FRAME_MAX / (2 * ONE) == 16383) by (nonlinear_arith)
            requires
                ONE == 65536,
                FRAME_MAX == 32767,
        ;
    }
    let b: i64 = crate::filters::pass::tdiv(c * FRAME_MAX, 2 * ONE);
    let s: i16 = b as i16;
    [s, s]
}

/// A fresh all-silent chunk buffer.
pub fn new_chunk_buffer() -> (r: Vec<[i16; 2]>)
    ensures
        r@.len() == CHUNK_SAMPLES,
        forall|i: int| 0 <= i < CHUNK_SAMPLES ==> #[trigger] r@[i]@[0] == 0 && r@[i]@[1] == 0,
{
    let mut r: Vec<[i16; 2]> = Vec::new();
    let mut i: usize = 0;
    while i < CHUNK_SAMPLES
        invariant
            0 <= i <= CHUNK_SAMPLES,
            r@.len() == i,
            forall|j: int| 0 <= j < i ==> #[trigger] r@[j]@[0] == 0 && r@[j]@[1] == 0,
        decreases CHUNK_SAMPLES - i,
    {
        r.push([0, 0]);
        i = i + 1;
    }
    r
}

/// The chunk buffer together with the rolling start offset of the
/// region that must be regenerated next cycle.
pub struct ChunkBuffer {
    buf: Vec<[i16; 2]>,
    start: usize,
}

impl ChunkBuffer {
    pub closed spec fn frames(&self) -> Seq<[i16; 2]> {
        self.buf@
    }

    pub closed spec fn start_at(&self) -> int {
        self.start as int
    }

    pub closed spec fn wf(&self) -> bool {
        &&& self.buf@.len() == CHUNK_SAMPLES
        &&& self.start <= CHUNK_SAMPLES
    }

    pub fn new() -> (b: ChunkBuffer)
        ensures
            b.wf(),
            b.start_at() == 0,
            b.frames().len() == CHUNK_SAMPLES,
            forall|i: int| 0 <= i < CHUNK_SAMPLES ==> (#[trigger] b.frames()[i])@[0] == 0
                && b.frames()[i]@[1] == 0,
    {
        ChunkBuffer { buf: new_chunk_buffer(), start: 0 }
    }

    /// The start of the region the next fill regenerates.
    pub fn start_offset(&self) -> (r: usize)
        ensures
            r == self.start_at(),
    {
        self.start
    }

    /// The frames as one chunk, ready for the sink.
    pub fn chunk(&self) -> (r: &Vec<[i16; 2]>)
        ensures
            r@ == self.frames(),
    {
        &self.buf
    }

    /// Regenerate the slots from the start offset to the end of the
    /// chunk, one voice sample each: the voice steps once per slot, and
    /// every regenerated frame is a bounded stereo-duplicated sample.
    pub fn fill(&mut self, voice: &mut Voice)
        requires
            old(self).wf(),
            old(voice).wf(),
        ensures
            final(self).wf(),
            final(voice).wf(),
            final(self).start_at() == old(self).start_at(),
            final(self).frames().len() == CHUNK_SAMPLES,
            forall|i: int|
                0 <= i < old(self).start_at() ==> #[trigger] final(self).frames()[i] == old(self).frames()[i],
            forall|i: int|
                old(self).start_at() <= i < CHUNK_SAMPLES ==> (#[trigger] final(self).frames()[i])@[0] == final(self).frames()[i]@[1] && -16383 <= final(self).frames()[i]@[0] <= 16383,
            final(voice).held() == old(voice).held(),
            final(voice).envelope_view() == env_iter_spec(
                old(voice).envelope_view(),
                (CHUNK_SAMPLES - old(self).start_at()) as nat,
            ),
            final(voice).high_pass() == old(voice).high_pass(),
            final(voice).low_pass().cutoff() == old(voice).low_pass().cutoff(),
            final(voice).low_pass().resonance() == old(voice).low_pass().resonance(),
            final(voice).low_pass().stage().a_view() == old(voice).low_pass().stage().a_view(),
            final(voice).low_pass().stage().b_view() == old(voice).low_pass().stage().b_view(),
            final(voice).oscillators().len() == old(voice).oscillators().len(),
            forall|j: int|
                0 <= j < old(voice).oscillators().len() ==> (#[trigger] final(voice).oscillators()[j]).is_noise() == old(voice).oscillators()[j].is_noise(),
            forall|j: int|
                0 <= j < old(voice).oscillators().len() && !old(voice).oscillators()[j].is_noise() ==> {
                    let pg0 = old(voice).oscillators()[j].pg();
                    let pg1 = (#[trigger] final(voice).oscillators()[j]).pg();
                    &&& pg1.increment() == pg0.increment()
                    &&& pg1.set_freq() == pg0.set_freq()
                    &&& pg1.ref_freq() == pg0.ref_freq()
                    &&& pg1.tuning() == pg0.tuning()
                    &&& pg1.phase() == (pg0.phase() + (CHUNK_SAMPLES - old(self).start_at())
                        * pg0.increment()) % (FULL_TURN as int)
                },
            exists|trace: Seq<Voice>|
                {
                    &&& trace.len() == CHUNK_SAMPLES - old(self).start_at() + 1
                    &&& trace[0] == *old(voice)
                    &&& trace[trace.len() - 1] == *final(voice)
                    &&& (forall|k: int|
                        0 <= k < trace.len() - 1 ==> exists|out: int|
                            {
                                &&& generate_step_rel(#[trigger] trace[k], trace[k + 1], out)
                                &&& final(self).frames()[old(self).start_at() + k]@[0]
                                    == frame_value_spec(out)
                                &&& final(self).frames()[old(self).start_at() + k]@[1]
                                    == frame_value_spec(out)
                            })
                },
    {
        proof {
            assert forall|j: int|
                0 <= j < old(voice).oscillators().len() && !old(
                    voice,
                ).oscillators()[j].is_noise() implies (#[trigger] voice.oscillators()[j]).pg().phase() == phase_after_spec(
                old(voice).oscillators()[j].pg().phase(),
                old(voice).oscillators()[j].pg().increment(),
                0,
            ) by {
                let pg0 = old(voice).oscillators()[j].pg();
                crate::oscillators::phaser::lemma_phase_generator_bounds(pg0);
                vstd::arithmetic::div_mod::lemma_small_mod(pg0.phase() as nat, FULL_TURN as nat);
            }
        }
        let mut i: usize = self.start;
        let ghost mut trace: Seq<Voice> = seq![*voice];
        while i < CHUNK_SAMPLES
            invariant
                old(self).start_at() <= i <= CHUNK_SAMPLES,
                self.buf@.len() == CHUNK_SAMPLES,
                self.start == old(self).start_at(),
                voice.wf(),
                trace.len() == i - old(self).start_at() + 1,
                trace[0] == *old(voice),
                trace[trace.len() - 1] == *voice,
                forall|k: int|
                    0 <= k < trace.len() - 1 ==> exists|out: int|
                        {
                            &&& generate_step_rel(#[trigger] trace[k], trace[k + 1], out)
                            &&& self.buf@[old(self).start_at() + k]@[0] == frame_value_spec(out)
                            &&& self.buf@[old(self).start_at() + k]@[1] == frame_value_spec(out)
                        },
                forall|j: int|
                    0 <= j < old(self).start_at() ==> #[trigger] self.buf@[j] == old(self).frames()[j],
                forall|j: int|
                    old(self).start_at() <= j < i ==> (#[trigger] self.buf@[j])@[0]
                        == self.buf@[j]@[1] && -16383 <= self.buf@[j]@[0] <= 16383,
                voice.held() == old(voice).held(),
                voice.envelope_view() == env_iter_spec(
                    old(voice).envelope_view(),
                    (i - old(self).start_at()) as nat,
                ),
                voice.high_pass() == old(voice).high_pass(),
                voice.low_pass().cutoff() == old(voice).low_pass().cutoff(),
                voice.low_pass().resonance() == old(voice).low_pass().resonance(),
                voice.low_pass().stage().a_view() == old(voice).low_pass().stage().a_view(),
                voice.low_pass().stage().b_view() == old(voice).low_pass().stage().b_view(),
                voice.oscillators().len() == old(voice).oscillators().len(),
                forall|j: int|
                    0 <= j < old(voice).oscillators().len() ==> (#[trigger] voice.oscillators()[j]).is_noise() == old(voice).oscillators()[j].is_noise(),
                forall|j: int|
                    0 <= j < old(voice).oscillators().len() && !old(voice).oscillators()[j].is_noise() ==> {
                        let pg0 = old(voice).oscillators()[j].pg();
                        let pg1 = (#[trigger] voice.oscillators()[j]).pg();
                        &&& pg1.increment() == pg0.increment()
                        &&& pg1.set_freq() == pg0.set_freq()
                        &&& pg1.ref_freq() == pg0.ref_freq()
                        &&& pg1.tuning() == pg0.tuning()
                        &&& pg1.phase() == phase_after_spec(
                            pg0.phase(),
                            pg0.increment(),
                            (i - old(self).start_at()) as nat,
                        )
                    },
            decreases CHUNK_SAMPLES - i,
        {
            let ghost trace0 = trace;
            let ghost buf0 = self.buf@;
            let a: i64 = voice.generate();
            let frame: [i16; 2] = to_frame(a);
            self.buf.set(i, frame);
            proof {
                trace = trace0.push(*voice);
                let start0 = old(self).start_at();
                assert forall|k: int| 0 <= k < trace.len() - 1 implies exists|out: int|
                    {
                        &&& generate_step_rel(#[trigger] trace[k], trace[k + 1], out)
                        &&& self.buf@[start0 + k]@[0] == frame_value_spec(out)
                        &&& self.buf@[start0 + k]@[1] == frame_value_spec(out)
                    } by {
                    if k < trace0.len() - 1 {
                        assert(trace[k] == trace0[k] && trace[k + 1] == trace0[k + 1]);
                        assert(self.buf@[start0 + k] == buf0[start0 + k]);
                        let out0 = choose|out: int|
                            {
                                &&& generate_step_rel(trace0[k], trace0[k + 1], out)
                                &&& buf0[start0 + k]@[0] == frame_value_spec(out)
                                &&& buf0[start0 + k]@[1] == frame_value_spec(out)
                            };
                        assert(generate_step_rel(trace[k], trace[k + 1], out0)
                            && self.buf@[start0 + k]@[0] == frame_value_spec(out0)
                            && self.buf@[start0 + k]@[1] == frame_value_spec(out0));
                    } else {
                        assert(trace[k] == trace0[trace0.len() - 1] && trace[k + 1] == *voice);
                        assert(generate_step_rel(trace[k], trace[k + 1], a as int)
                            && self.buf@[start0 + k]@[0] == frame_value_spec(a as int)
                            && self.buf@[start0 + k]@[1] == frame_value_spec(a as int));
                    }
                }
            }
            i = i + 1;
        }
        proof {
            let steps = (CHUNK_SAMPLES - old(self).start_at()) as nat;
            assert forall|j: int|
                0 <= j < old(voice).oscillators().len() && !old(voice).oscillators()[j].is_noise() implies (#[trigger] voice.oscillators()[j]).pg().phase() == (old(voice).oscillators()[j].pg().phase() + steps * old(voice).oscillators()[j].pg().increment())
                % (FULL_TURN as int) by {
                let pg0 = old(voice).oscillators()[j].pg();
                crate::oscillators::phaser::lemma_phase_generator_bounds(pg0);
                lemma_phase_accumulation(pg0.phase(), pg0.increment(), steps);
            }
        }
    }

    /// Account for the frames the sink consumed: rotate the unsent
    /// tail to the front and advance the start offset so only the
    /// consumed frames are regenerated.
    pub fn consume(&mut self, written: usize)
        requires
            old(self).wf(),
            written <= CHUNK_SAMPLES,
        ensures
            final(self).wf(),
            final(self).frames().len() == CHUNK_SAMPLES,
            final(self).frames() =~= old(self).frames().subrange(
                written as int,
                CHUNK_SAMPLES as int,
            ) + old(self).frames().subrange(0, written as int),
            final(self).start_at() == CHUNK_SAMPLES - written,
    {
        let n: usize = CHUNK_SAMPLES;
        let mut w: Vec<[i16; 2]> = Vec::new();
        let mut i: usize = written;
        while i < n
            invariant
                written <= i <= n,
                self.buf@.len() == n == CHUNK_SAMPLES,
                w@ =~= self.buf@.subrange(written as int, i as int),
            decreases n - i,
        {
            w.push(self.buf[i]);
            i = i + 1;
        }
        let mut k: usize = 0;
        while k < written
            invariant
                0 <= k <= written <= n,
                self.buf@.len() == n == CHUNK_SAMPLES,
                w@ =~= self.buf@.subrange(written as int, n as int) + self.buf@.subrange(
                    0,
                    k as int,
                ),
            decreases written - k,
        {
            w.push(self.buf[k]);
            k = k + 1;
        }
        self.buf = w;
        self.start = n - written;
    }
}

} // verus!
