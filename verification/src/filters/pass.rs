//! The generalized order-N Direct-Form-II IIR filter and the biquad
//! low-pass and high-pass presets built on top of it.
//!
//! A Direct-Form-II stage keeps one shared delay line: per sample,
//! `v0 = b0*x - sum(a[i]*v[i])`, the state shifts by one slot, and the
//! output is `y = v0 + sum(b[i]*v[i])` over the shifted state. The
//! coefficient vectors are normalized at load time so that `a[0] = 1`.
use vstd::prelude::*;

verus! {

use crate::config::{ONE, SAMPLE_RATE};
use crate::discrete_functions::{
    cos, cos_spec, lemma_sin_first_half_nonneg, sin, sin_spec, SinTable,
};
use crate::filters::traits::Filter;
use crate::filters::volume::{tdiv_one, tdiv_one_spec};
use crate::oscillators::scales::REFERENCE_FREQ;

/// Largest admissible order (coefficient count) of a stage.
pub const ORDER_LIMIT: usize = 8;

/// Largest magnitude of a normalized coefficient: Q16.16 of 16.
pub const COEF_LIMIT: i64 = 1048576;

/// Saturation bound of each delay-line slot (2^30 in Q16.16).
pub const STATE_LIMIT: i64 = 1073741824;

/// Largest magnitude of a stage's output (2^38 in Q16.16).
pub const DF2_OUT_LIMIT: i64 = 274877906944;

/// Largest magnitude of one accumulator term, `COEF_LIMIT * STATE_LIMIT`
/// (2^50).
pub const ACC_TERM: i64 = 1125899906842624;

/// Largest admissible cutoff frequency: Q16.16 of 20000 Hz, below half
/// the sample rate.
pub const CUTOFF_LIMIT: i64 = 1310720000;

/// Smallest admissible resonance: Q16.16 of 1/16.
pub const Q_MIN: i64 = 4096;

/// Largest admissible resonance: Q16.16 of 16.
pub const Q_LIMIT: i64 = 1048576;

/// Division truncating toward zero by a positive divisor.
pub open spec fn tdiv_spec(p: int, q: int) -> int {
    if p >= 0 {
        p / q
    } else {
        -((-p) / q)
    }
}

pub fn tdiv(p: i64, q: i64) -> (r: i64)
    requires
        i64::MIN < p,
        0 < q,
    ensures
        r == tdiv_spec(p as int, q as int),
{
    if p >= 0 {
        p / q
    } else {
        -((-p) / q)
    }
}

/// The weighted sum `sum(c[j] * v[j])` over slots 1 to `k - 1`; slot 0
/// is never part of it.
pub open spec fn wsum_spec(c: Seq<int>, v: Seq<int>, k: int) -> int
    decreases k,
{
    if k <= 1 {
        0
    } else {
        wsum_spec(c, v, k - 1) + c[k - 1] * v[k - 1]
    }
}

/// The same weighted sum taken against the delay line as it stands
/// before the shift: coefficient `c[j]` weighs the value `j` samples
/// back, which still sits in slot `j - 1`.
pub open spec fn wsum_prev_spec(c: Seq<int>, v: Seq<int>, k: int) -> int
    decreases k,
{
    if k <= 1 {
        0
    } else {
        wsum_prev_spec(c, v, k - 1) + c[k - 1] * v[k - 2]
    }
}

pub open spec fn clamp_state_spec(v: int) -> int {
    if v > STATE_LIMIT {
        STATE_LIMIT as int
    } else if v < -STATE_LIMIT {
        -STATE_LIMIT as int
    } else {
        v
    }
}

/// The freshly computed head of the delay line for input `x`, saturated
/// into the state range.
pub open spec fn df2_v0_spec(a: Seq<int>, b: Seq<int>, v: Seq<int>, x: int) -> int {
    clamp_state_spec(tdiv_one_spec(b[0] * x - wsum_prev_spec(a, v, a.len() as int)))
}

/// The delay line after one sample: the new head in front, every other
/// slot shifted down by one, the last slot dropped.
pub open spec fn df2_next_state_spec(a: Seq<int>, b: Seq<int>, v: Seq<int>, x: int) -> Seq<int> {
    seq![df2_v0_spec(a, b, v, x)] + v.subrange(0, v.len() - 1)
}

/// The output sample: the new head plus the feedforward sum over the
/// shifted delay line.
pub open spec fn df2_output_spec(a: Seq<int>, b: Seq<int>, v: Seq<int>, x: int) -> int {
    df2_v0_spec(a, b, v, x) + tdiv_one_spec(
        wsum_spec(b, df2_next_state_spec(a, b, v, x), b.len() as int),
    )
}

/// Generic IIR filter in Direct Form II, order `len - 1`.
pub struct DF2Filter {
    b: Vec<i64>,
    a: Vec<i64>,
    v: Vec<i64>,
}

/// A coefficient vector normalized by the leading feedback coefficient.
pub open spec fn normalized_spec(c: Seq<int>, a0: int) -> Seq<int> {
    Seq::new(c.len(), |i: int| tdiv_spec(c[i] * ONE, a0))
}

/// Normalize one raw coefficient by `a0`.
fn normalize_coef(c: i64, a0: i64) -> (r: i64)
    requires
        -16 * ONE <= c <= 16 * ONE,
        ONE <= a0,
    ensures
        r == tdiv_spec(c as int * ONE, a0 as int),
        -COEF_LIMIT <= r <= COEF_LIMIT,
{
    proof {
        assert(-(16 * ONE * ONE) <= c * ONE <= 16 * ONE * ONE) by (nonlinear_arith)
            requires
                -16 * ONE <= c <= 16 * ONE,
                ONE == 65536,
        ;
        if c >= 0 {
            vstd::arithmetic::div_mod::lemma_div_is_ordered_by_denominator(
                c as int * ONE,
                ONE as int,
                a0 as int,
            );
            vstd::arithmetic::div_mod::lemma_div_pos_is_pos(c as int * ONE, a0 as int);
            vstd::arithmetic::div_mod::lemma_div_multiples_vanish(c as int, ONE as int);
            assert(c as int * ONE == ONE * c) by (nonlinear_arith);
        } else {
            vstd::arithmetic::div_mod::lemma_div_is_ordered_by_denominator(
                -(c as int) * ONE,
                ONE as int,
                a0 as int,
            );
            vstd::arithmetic::div_mod::lemma_div_pos_is_pos(-(c as int) * ONE, a0 as int);
            vstd::arithmetic::div_mod::lemma_div_multiples_vanish(-(c as int), ONE as int);
            assert(-(c as int) * ONE == ONE * -(c as int)) by (nonlinear_arith);
            assert(-(c as int * ONE) == -(c as int) * ONE) by (nonlinear_arith);
        }
    }
    tdiv(c * ONE, a0)
}

impl DF2Filter {
    pub closed spec fn a_view(&self) -> Seq<int> {
        self.a@.map_values(|c: i64| c as int)
    }

    pub closed spec fn b_view(&self) -> Seq<int> {
        self.b@.map_values(|c: i64| c as int)
    }

    pub closed spec fn state(&self) -> Seq<int> {
        self.v@.map_values(|c: i64| c as int)
    }

    /// What every constructor and sample step maintains.
    pub closed spec fn wf(&self) -> bool {
        &&& self.a@.len() == self.b@.len() == self.v@.len()
        &&& 1 <= self.a@.len() <= ORDER_LIMIT
        &&& forall|i: int|
            0 <= i < self.a@.len() ==> -COEF_LIMIT <= #[trigger] self.a@[i] <= COEF_LIMIT
        &&& forall|i: int|
            0 <= i < self.b@.len() ==> -COEF_LIMIT <= #[trigger] self.b@[i] <= COEF_LIMIT
        &&& forall|i: int|
            0 <= i < self.v@.len() ==> -STATE_LIMIT <= #[trigger] self.v@[i] <= STATE_LIMIT
    }

    /// Build a stage from raw coefficient vectors `a` and `b`, both
    /// normalized by `a[0]`, with a cleared delay line.
    ///
    /// `a[0] >= ONE` is the machine limit that keeps every normalized
    /// coefficient within the verified overflow envelope; the designs
    /// this engine loads always have `a[0] = 1 + alpha >= 1`.
    pub fn new(a: Vec<i64>, b: Vec<i64>) -> (f: DF2Filter)
        requires
            a@.len() == b@.len(),
            1 <= a@.len() <= ORDER_LIMIT,
            ONE <= a@[0],
            forall|i: int| 0 <= i < a@.len() ==> -16 * ONE <= #[trigger] a@[i] <= 16 * ONE,
            forall|i: int| 0 <= i < b@.len() ==> -16 * ONE <= #[trigger] b@[i] <= 16 * ONE,
        ensures
            f.wf(),
            f.a_view() == normalized_spec(a@.map_values(|c: i64| c as int), a@[0] as int),
            f.b_view() == normalized_spec(b@.map_values(|c: i64| c as int), a@[0] as int),
            f.state() =~= Seq::new(a@.len() as nat, |i: int| 0),
    {
        let mut f = DF2Filter { b: Vec::new(), a: Vec::new(), v: Vec::new() };
        f.load(a, b);
        f
    }

    /// Replace the coefficients (normalized by `a[0]`) and clear the
    /// delay line.
    pub fn set_coefficients(&mut self, a: Vec<i64>, b: Vec<i64>)
        requires
            a@.len() == b@.len(),
            1 <= a@.len() <= ORDER_LIMIT,
            ONE <= a@[0],
            forall|i: int| 0 <= i < a@.len() ==> -16 * ONE <= #[trigger] a@[i] <= 16 * ONE,
            forall|i: int| 0 <= i < b@.len() ==> -16 * ONE <= #[trigger] b@[i] <= 16 * ONE,
        ensures
            final(self).wf(),
            final(self).a_view() == normalized_spec(
                a@.map_values(|c: i64| c as int),
                a@[0] as int,
            ),
            final(self).b_view() == normalized_spec(
                b@.map_values(|c: i64| c as int),
                a@[0] as int,
            ),
            final(self).state() =~= Seq::new(a@.len() as nat, |i: int| 0),
    {
        self.load(a, b);
    }

    fn load(&mut self, a: Vec<i64>, b: Vec<i64>)
        requires
            a@.len() == b@.len(),
            1 <= a@.len() <= ORDER_LIMIT,
            ONE <= a@[0],
            forall|i: int| 0 <= i < a@.len() ==> -16 * ONE <= #[trigger] a@[i] <= 16 * ONE,
            forall|i: int| 0 <= i < b@.len() ==> -16 * ONE <= #[trigger] b@[i] <= 16 * ONE,
        ensures
            final(self).wf(),
            final(self).a_view() =~= normalized_spec(
                a@.map_values(|c: i64| c as int),
                a@[0] as int,
            ),
            final(self).b_view() =~= normalized_spec(
                b@.map_values(|c: i64| c as int),
                a@[0] as int,
            ),
            final(self).state() =~= Seq::new(a@.len() as nat, |i: int| 0),
    {
        let n: usize = a.len();
        let a0: i64 = a[0];
        let mut na: Vec<i64> = Vec::new();
        let mut nb: Vec<i64> = Vec::new();
        let mut nv: Vec<i64> = Vec::new();
        let mut i: usize = 0;
        while i < n
            invariant
                0 <= i <= n == a@.len() == b@.len(),
                ONE <= a0 == a@[0],
                forall|j: int| 0 <= j < n ==> -16 * ONE <= #[trigger] a@[j] <= 16 * ONE,
                forall|j: int| 0 <= j < n ==> -16 * ONE <= #[trigger] b@[j] <= 16 * ONE,
                na@.len() == nb@.len() == nv@.len() == i,
                forall|j: int|
                    0 <= j < i ==> #[trigger] na@[j] == tdiv_spec(a@[j] * ONE, a0 as int),
                forall|j: int|
                    0 <= j < i ==> #[trigger] nb@[j] == tdiv_spec(b@[j] * ONE, a0 as int),
                forall|j: int| 0 <= j < i ==> #[trigger] nv@[j] == 0,
                forall|j: int| 0 <= j < i ==> -COEF_LIMIT <= #[trigger] na@[j] <= COEF_LIMIT,
                forall|j: int| 0 <= j < i ==> -COEF_LIMIT <= #[trigger] nb@[j] <= COEF_LIMIT,
            decreases n - i,
        {
            na.push(normalize_coef(a[i], a0));
            nb.push(normalize_coef(b[i], a0));
            nv.push(0);
            i = i + 1;
        }
        self.a = na;
        self.b = nb;
        self.v = nv;
        proof {
            assert(self.a_view() =~= normalized_spec(
                a@.map_values(|c: i64| c as int),
                a@[0] as int,
            ));
            assert(self.b_view() =~= normalized_spec(
                b@.map_values(|c: i64| c as int),
                a@[0] as int,
            ));
        }
    }
}

impl Filter for DF2Filter {
    type In = i64;

    type Out = i64;

    open spec fn inv(&self) -> bool {
        self.wf()
    }

    open spec fn in_ok(x: i64) -> bool {
        -STATE_LIMIT <= x <= STATE_LIMIT
    }

    open spec fn out_ok(y: i64) -> bool {
        -DF2_OUT_LIMIT <= y <= DF2_OUT_LIMIT
    }

    open spec fn model_out(&self, x: i64) -> i64 {
        df2_output_spec(self.a_view(), self.b_view(), self.state(), x as int) as i64
    }

    open spec fn models(&self, x: i64, next: &DF2Filter) -> bool {
        &&& next.a_view() == self.a_view()
        &&& next.b_view() == self.b_view()
        &&& next.state() =~= df2_next_state_spec(self.a_view(), self.b_view(), self.state(), x as int)
    }

    fn filter(&mut self, x: i64) -> (r: i64)
        ensures
            final(self).a_view() == old(self).a_view(),
            final(self).b_view() == old(self).b_view(),
            final(self).state() =~= df2_next_state_spec(
                old(self).a_view(),
                old(self).b_view(),
                old(self).state(),
                x as int,
            ),
            r == df2_output_spec(
                old(self).a_view(),
                old(self).b_view(),
                old(self).state(),
                x as int,
            ),
    {
        let n: usize = self.a.len();
        proof {
            assert(-ACC_TERM <= self.b@[0] * x <= ACC_TERM) by (nonlinear_arith)
                requires
                    -COEF_LIMIT <= self.b@[0] <= COEF_LIMIT,
                    -STATE_LIMIT <= x <= STATE_LIMIT,
                    ACC_TERM == COEF_LIMIT * STATE_LIMIT,
            ;
        }
        let mut acc: i64 = self.b[0] * x;
        let mut j: usize = 1;
        while j < n
            invariant
                1 <= j <= n,
                self.wf(),
                n == self.a@.len(),
                -STATE_LIMIT <= x <= STATE_LIMIT,
                acc == self.b_view()[0] * x - wsum_prev_spec(self.a_view(), self.state(), j as int),
                -(j as int) * ACC_TERM <= acc as int <= (j as int) * ACC_TERM,
            decreases n - j,
        {
            proof {
                assert(-ACC_TERM <= self.a@[j as int] * self.v@[j - 1] <= ACC_TERM)
                    by (nonlinear_arith)
                    requires
                        -COEF_LIMIT <= self.a@[j as int] <= COEF_LIMIT,
                        -STATE_LIMIT <= self.v@[j - 1] <= STATE_LIMIT,
                        ACC_TERM == COEF_LIMIT * STATE_LIMIT,
                ;
                assert((j as int + 1) * ACC_TERM == (j as int) * ACC_TERM + ACC_TERM)
                    by (nonlinear_arith);
                assert((j as int) * ACC_TERM <= 8 * ACC_TERM) by (nonlinear_arith)
                    requires
                        0 <= j as int <= 8,
                        ACC_TERM > 0,
                ;
            }
            acc = acc - self.a[j] * self.v[j - 1];
            j = j + 1;
        }
        let v0r: i64 = tdiv_one(acc);
        let v0: i64 = if v0r > STATE_LIMIT {
            STATE_LIMIT
        } else if v0r < -STATE_LIMIT {
            -STATE_LIMIT
        } else {
            v0r
        };
        let ghost old_state = self.state();
        let mut w: Vec<i64> = Vec::new();
        w.push(v0);
        let mut k: usize = 0;
        while k < n - 1
            invariant
                0 <= k <= n - 1,
                self.wf(),
                n == self.v@.len(),
                w@.len() == k + 1,
                w@[0] == v0,
                -STATE_LIMIT <= v0 <= STATE_LIMIT,
                forall|i: int| 1 <= i <= k ==> #[trigger] w@[i] == self.v@[i - 1],
            decreases n - k,
        {
            w.push(self.v[k]);
            k = k + 1;
        }
        self.v = w;
        proof {
            assert(self.state() =~= seq![v0 as int] + old_state.subrange(0, n - 1));
        }
        let mut acc2: i64 = 0;
        let mut m: usize = 1;
        while m < n
            invariant
                1 <= m <= n,
                self.wf(),
                n == self.a@.len(),
                acc2 == wsum_spec(self.b_view(), self.state(), m as int),
                -(m as int) * ACC_TERM <= acc2 as int <= (m as int) * ACC_TERM,
            decreases n - m,
        {
            proof {
                assert(-ACC_TERM <= self.b@[m as int] * self.v@[m as int] <= ACC_TERM)
                    by (nonlinear_arith)
                    requires
                        -COEF_LIMIT <= self.b@[m as int] <= COEF_LIMIT,
                        -STATE_LIMIT <= self.v@[m as int] <= STATE_LIMIT,
                        ACC_TERM == COEF_LIMIT * STATE_LIMIT,
                ;
                assert((m as int + 1) * ACC_TERM == (m as int) * ACC_TERM + ACC_TERM)
                    by (nonlinear_arith);
                assert((m as int) * ACC_TERM <= 8 * ACC_TERM) by (nonlinear_arith)
                    requires
                        0 <= m as int <= 8,
                        ACC_TERM > 0,
                ;
            }
            acc2 = acc2 + self.b[m] * self.v[m];
            m = m + 1;
        }
        v0 + tdiv_one(acc2)
    }
}

/// The binary-angle phase of the analog cutoff: `cutoff / SAMPLE_RATE`
/// of one full turn.
pub open spec fn omega_spec(cutoff: int) -> int {
    cutoff * ONE / (SAMPLE_RATE as int)
}

/// The filter sharpness term `alpha = sin(omega) / (2 q)` of the
/// standard audio-biquad design equations.
pub open spec fn alpha_spec(cutoff: int, q: int) -> int {
    sin_spec(omega_spec(cutoff)) * ONE / (2 * q)
}

/// The feedback coefficients shared by both biquad presets.
pub open spec fn biquad_a_spec(cutoff: int, q: int) -> Seq<int> {
    let c = cos_spec(omega_spec(cutoff));
    seq![ONE + alpha_spec(cutoff, q), -2 * c, ONE - alpha_spec(cutoff, q)]
}

/// The low-pass feedforward coefficients.
pub open spec fn lowpass_b_spec(cutoff: int) -> Seq<int> {
    let c = cos_spec(omega_spec(cutoff));
    seq![(ONE - c) / 2, ONE - c, (ONE - c) / 2]
}

/// The high-pass feedforward coefficients.
pub open spec fn highpass_b_spec(cutoff: int) -> Seq<int> {
    let c = cos_spec(omega_spec(cutoff));
    seq![(ONE + c) / 2, -(ONE + c), (ONE + c) / 2]
}

proof fn lemma_biquad_ranges(cutoff: int, q: int)
    requires
        0 <= cutoff <= CUTOFF_LIMIT,
        Q_MIN <= q <= Q_LIMIT,
    ensures
        0 <= omega_spec(cutoff) < 2147483648,
        0 <= alpha_spec(cutoff, q) <= 8 * ONE,
{
    assert(0 <= cutoff * ONE <= CUTOFF_LIMIT * ONE) by (nonlinear_arith)
        requires
            0 <= cutoff <= CUTOFF_LIMIT,
            ONE > 0,
    ;
    assert(0 <= cutoff * ONE / (SAMPLE_RATE as int) < 2147483648) by (nonlinear_arith)
        requires
            0 <= cutoff * ONE <= CUTOFF_LIMIT * ONE,
            CUTOFF_LIMIT == 1310720000,
            ONE == 65536,
            SAMPLE_RATE == 41000,
    ;
    lemma_sin_first_half_nonneg(omega_spec(cutoff));
    let s = sin_spec(omega_spec(cutoff));
    assert(0 <= s * ONE <= ONE * ONE) by (nonlinear_arith)
        requires
            0 <= s <= ONE,
    ;
    assert(0 <= s * ONE / (2 * q) <= 8 * ONE) by (nonlinear_arith)
        requires
            0 <= s * ONE <= ONE * ONE,
            ONE == 65536,
            Q_MIN <= q,
            Q_MIN == 4096,
    ;
}

/// Compute the biquad design equations for one preset: the feedback
/// vector `a` and the feedforward vector `b` handed to the DF2 stage.
#[verifier::rlimit(50)]
fn biquad_coefficients(table: &SinTable, cutoff: i64, q: i64, highpass: bool) -> (r: (
    Vec<i64>,
    Vec<i64>,
))
    requires
        table.wf(),
        0 <= cutoff <= CUTOFF_LIMIT,
        Q_MIN <= q <= Q_LIMIT,
    ensures
        r.0@.len() == r.1@.len() == 3,
        r.0@.map_values(|c: i64| c as int) =~= biquad_a_spec(cutoff as int, q as int),
        !highpass ==> r.1@.map_values(|c: i64| c as int) =~= lowpass_b_spec(cutoff as int),
        highpass ==> r.1@.map_values(|c: i64| c as int) =~= highpass_b_spec(cutoff as int),
        ONE <= r.0@[0],
        forall|i: int| 0 <= i < 3 ==> -16 * ONE <= #[trigger] r.0@[i] <= 16 * ONE,
        forall|i: int| 0 <= i < 3 ==> -16 * ONE <= #[trigger] r.1@[i] <= 16 * ONE,
{
    proof {
        lemma_biquad_ranges(cutoff as int, q as int);
        assert(0 <= cutoff * ONE <= CUTOFF_LIMIT * ONE) by (nonlinear_arith)
            requires
                0 <= cutoff <= CUTOFF_LIMIT,
                ONE > 0,
        ;
    }
    let omega: u32 = (cutoff * ONE / (SAMPLE_RATE as i64)) as u32;
    let s: i64 = sin(table, omega);
    let omega_cos: i64 = cos(table, omega);
    proof {
        lemma_sin_first_half_nonneg(omega as int);
        assert(0 <= s * ONE <= ONE * ONE) by (nonlinear_arith)
            requires
                0 <= s <= ONE,
        ;
    }
    let alpha: i64 = s * ONE / (2 * q);
    proof {
        assert(omega as int == omega_spec(cutoff as int));
        assert(s == sin_spec(omega_spec(cutoff as int)));
        assert(alpha == alpha_spec(cutoff as int, q as int));
        assert(0 <= alpha <= 8 * ONE);
        assert(-ONE <= omega_cos <= ONE);
    }
    let mut a: Vec<i64> = Vec::new();
    a.push(ONE + alpha);
    a.push(-2 * omega_cos);
    a.push(ONE - alpha);
    proof {
        assert(a@.len() == 3);
        assert(a@[0] == ONE + alpha && a@[1] == -2 * omega_cos && a@[2] == ONE - alpha);
        assert(forall|i: int| 0 <= i < 3 ==> -16 * ONE <= #[trigger] a@[i] <= 16 * ONE);
    }
    let mut b: Vec<i64> = Vec::new();
    if highpass {
        b.push((ONE + omega_cos) / 2);
        b.push(-(ONE + omega_cos));
        b.push((ONE + omega_cos) / 2);
    } else {
        b.push((ONE - omega_cos) / 2);
        b.push(ONE - omega_cos);
        b.push((ONE - omega_cos) / 2);
    }
    (a, b)
}

/// Second-order low-pass shaping derived from cutoff frequency and
/// resonance by the standard audio-biquad design equations, recomputed
/// eagerly whenever either parameter is set.
pub struct BiquadLowPassFilter {
    df2: DF2Filter,
    cutoff_freq: i64,
    q: i64,
    table: SinTable,
}

impl BiquadLowPassFilter {
    pub closed spec fn cutoff(&self) -> int {
        self.cutoff_freq as int
    }

    pub closed spec fn resonance(&self) -> int {
        self.q as int
    }

    pub closed spec fn stage(&self) -> DF2Filter {
        self.df2
    }

    pub closed spec fn wf(&self) -> bool {
        &&& self.df2.wf()
        &&& self.table.wf()
        &&& 0 <= self.cutoff_freq <= CUTOFF_LIMIT
        &&& Q_MIN <= self.q <= Q_LIMIT
    }

    /// The DF2 coefficients the preset loads for a cutoff and resonance.
    pub open spec fn loaded_a_spec(cutoff: int, q: int) -> Seq<int> {
        normalized_spec(biquad_a_spec(cutoff, q), biquad_a_spec(cutoff, q)[0])
    }

    pub open spec fn loaded_b_spec(cutoff: int, q: int) -> Seq<int> {
        normalized_spec(lowpass_b_spec(cutoff), biquad_a_spec(cutoff, q)[0])
    }

    /// A low pass at the reference frequency with a flat resonance.
    pub fn new() -> (f: BiquadLowPassFilter)
        ensures
            f.wf(),
            f.cutoff() == REFERENCE_FREQ,
            f.resonance() == 47186,
            f.stage().a_view() == BiquadLowPassFilter::loaded_a_spec(
                REFERENCE_FREQ as int,
                47186,
            ),
            f.stage().b_view() == BiquadLowPassFilter::loaded_b_spec(
                REFERENCE_FREQ as int,
                47186,
            ),
            f.stage().state() =~= Seq::new(3, |i: int| 0),
    {
        let table = SinTable::new();
        let cutoff_freq: i64 = REFERENCE_FREQ;
        let q: i64 = 47186;
        let (a, b) = biquad_coefficients(&table, cutoff_freq, q, false);
        BiquadLowPassFilter { df2: DF2Filter::new(a, b), cutoff_freq, q, table }
    }

    /// Move the cutoff; the coefficients are recomputed at once and the
    /// delay line is cleared.
    pub fn set_cutoff(&mut self, cutoff_freq: i64)
        requires
            old(self).wf(),
            0 <= cutoff_freq <= CUTOFF_LIMIT,
        ensures
            final(self).wf(),
            final(self).cutoff() == cutoff_freq,
            final(self).resonance() == old(self).resonance(),
            final(self).stage().a_view() == BiquadLowPassFilter::loaded_a_spec(
                cutoff_freq as int,
                old(self).resonance(),
            ),
            final(self).stage().b_view() == BiquadLowPassFilter::loaded_b_spec(
                cutoff_freq as int,
                old(self).resonance(),
            ),
            final(self).stage().state() =~= Seq::new(3, |i: int| 0),
    {
        self.cutoff_freq = cutoff_freq;
        let (a, b) = biquad_coefficients(&self.table, self.cutoff_freq, self.q, false);
        self.df2.set_coefficients(a, b);
    }

    /// Move the resonance; the coefficients are recomputed at once and
    /// the delay line is cleared.
    pub fn set_q(&mut self, q: i64)
        requires
            old(self).wf(),
            Q_MIN <= q <= Q_LIMIT,
        ensures
            final(self).wf(),
            final(self).resonance() == q,
            final(self).cutoff() == old(self).cutoff(),
            final(self).stage().a_view() == BiquadLowPassFilter::loaded_a_spec(
                old(self).cutoff(),
                q as int,
            ),
            final(self).stage().b_view() == BiquadLowPassFilter::loaded_b_spec(
                old(self).cutoff(),
                q as int,
            ),
            final(self).stage().state() =~= Seq::new(3, |i: int| 0),
    {
        self.q = q;
        let (a, b) = biquad_coefficients(&self.table, self.cutoff_freq, self.q, false);
        self.df2.set_coefficients(a, b);
    }

    /// The current cutoff frequency in Q16.16 Hz.
    pub fn cutoff_freq(&self) -> (r: i64)
        ensures
            r == self.cutoff(),
    {
        self.cutoff_freq
    }

    /// The current resonance in Q16.16.
    pub fn resonance_q(&self) -> (r: i64)
        ensures
            r == self.resonance(),
    {
        self.q
    }
}

impl Filter for BiquadLowPassFilter {
    type In = i64;

    type Out = i64;

    open spec fn inv(&self) -> bool {
        self.wf()
    }

    open spec fn in_ok(x: i64) -> bool {
        -STATE_LIMIT <= x <= STATE_LIMIT
    }

    open spec fn out_ok(y: i64) -> bool {
        -DF2_OUT_LIMIT <= y <= DF2_OUT_LIMIT
    }

    open spec fn model_out(&self, x: i64) -> i64 {
        df2_output_spec(self.stage().a_view(), self.stage().b_view(), self.stage().state(), x as int) as i64
    }

    open spec fn models(&self, x: i64, next: &BiquadLowPassFilter) -> bool {
        &&& next.cutoff() == self.cutoff()
        &&& next.resonance() == self.resonance()
        &&& next.stage().a_view() == self.stage().a_view()
        &&& next.stage().b_view() == self.stage().b_view()
        &&& next.stage().state() =~= df2_next_state_spec(
            self.stage().a_view(),
            self.stage().b_view(),
            self.stage().state(),
            x as int,
        )
    }

    fn filter(&mut self, x: i64) -> (r: i64)
        ensures
            final(self).cutoff() == old(self).cutoff(),
            final(self).resonance() == old(self).resonance(),
            final(self).stage().a_view() == old(self).stage().a_view(),
            final(self).stage().b_view() == old(self).stage().b_view(),
            final(self).stage().state() =~= df2_next_state_spec(
                old(self).stage().a_view(),
                old(self).stage().b_view(),
                old(self).stage().state(),
                x as int,
            ),
            r == df2_output_spec(
                old(self).stage().a_view(),
                old(self).stage().b_view(),
                old(self).stage().state(),
                x as int,
            ),
    {
        self.df2.filter(x)
    }
}

/// Second-order high-pass shaping, the mirror preset of the low pass.
pub struct BiquadHighPassFilter {
    df2: DF2Filter,
    cutoff_freq: i64,
    q: i64,
    table: SinTable,
}

impl BiquadHighPassFilter {
    pub closed spec fn cutoff(&self) -> int {
        self.cutoff_freq as int
    }

    pub closed spec fn resonance(&self) -> int {
        self.q as int
    }

    pub closed spec fn stage(&self) -> DF2Filter {
        self.df2
    }

    pub closed spec fn wf(&self) -> bool {
        &&& self.df2.wf()
        &&& self.table.wf()
        &&& 0 <= self.cutoff_freq <= CUTOFF_LIMIT
        &&& Q_MIN <= self.q <= Q_LIMIT
    }

    pub open spec fn loaded_a_spec(cutoff: int, q: int) -> Seq<int> {
        normalized_spec(biquad_a_spec(cutoff, q), biquad_a_spec(cutoff, q)[0])
    }

    pub open spec fn loaded_b_spec(cutoff: int, q: int) -> Seq<int> {
        normalized_spec(highpass_b_spec(cutoff), biquad_a_spec(cutoff, q)[0])
    }

    /// A high pass at the reference frequency with a flat resonance.
    pub fn new() -> (f: BiquadHighPassFilter)
        ensures
            f.wf(),
            f.cutoff() == REFERENCE_FREQ,
            f.resonance() == 47186,
            f.stage().a_view() == BiquadHighPassFilter::loaded_a_spec(
                REFERENCE_FREQ as int,
                47186,
            ),
            f.stage().b_view() == BiquadHighPassFilter::loaded_b_spec(
                REFERENCE_FREQ as int,
                47186,
            ),
            f.stage().state() =~= Seq::new(3, |i: int| 0),
    {
        let table = SinTable::new();
        let cutoff_freq: i64 = REFERENCE_FREQ;
        let q: i64 = 47186;
        let (a, b) = biquad_coefficients(&table, cutoff_freq, q, true);
        BiquadHighPassFilter { df2: DF2Filter::new(a, b), cutoff_freq, q, table }
    }

    pub fn set_cutoff(&mut self, cutoff_freq: i64)
        requires
            old(self).wf(),
            0 <= cutoff_freq <= CUTOFF_LIMIT,
        ensures
            final(self).wf(),
            final(self).cutoff() == cutoff_freq,
            final(self).resonance() == old(self).resonance(),
            final(self).stage().a_view() == BiquadHighPassFilter::loaded_a_spec(
                cutoff_freq as int,
                old(self).resonance(),
            ),
            final(self).stage().b_view() == BiquadHighPassFilter::loaded_b_spec(
                cutoff_freq as int,
                old(self).resonance(),
            ),
            final(self).stage().state() =~= Seq::new(3, |i: int| 0),
    {
        self.cutoff_freq = cutoff_freq;
        let (a, b) = biquad_coefficients(&self.table, self.cutoff_freq, self.q, true);
        self.df2.set_coefficients(a, b);
    }

    pub fn set_q(&mut self, q: i64)
        requires
            old(self).wf(),
            Q_MIN <= q <= Q_LIMIT,
        ensures
            final(self).wf(),
            final(self).resonance() == q,
            final(self).cutoff() == old(self).cutoff(),
            final(self).stage().a_view() == BiquadHighPassFilter::loaded_a_spec(
                old(self).cutoff(),
                q as int,
            ),
            final(self).stage().b_view() == BiquadHighPassFilter::loaded_b_spec(
                old(self).cutoff(),
                q as int,
            ),
            final(self).stage().state() =~= Seq::new(3, |i: int| 0),
    {
        self.q = q;
        let (a, b) = biquad_coefficients(&self.table, self.cutoff_freq, self.q, true);
        self.df2.set_coefficients(a, b);
    }

    /// The current cutoff frequency in Q16.16 Hz.
    pub fn cutoff_freq(&self) -> (r: i64)
        ensures
            r == self.cutoff(),
    {
        self.cutoff_freq
    }
}

impl Filter for BiquadHighPassFilter {
    type In = i64;

    type Out = i64;

    open spec fn inv(&self) -> bool {
        self.wf()
    }

    open spec fn in_ok(x: i64) -> bool {
        -STATE_LIMIT <= x <= STATE_LIMIT
    }

    open spec fn out_ok(y: i64) -> bool {
        -DF2_OUT_LIMIT <= y <= DF2_OUT_LIMIT
    }

    open spec fn model_out(&self, x: i64) -> i64 {
        df2_output_spec(self.stage().a_view(), self.stage().b_view(), self.stage().state(), x as int) as i64
    }

    open spec fn models(&self, x: i64, next: &BiquadHighPassFilter) -> bool {
        &&& next.cutoff() == self.cutoff()
        &&& next.resonance() == self.resonance()
        &&& next.stage().a_view() == self.stage().a_view()
        &&& next.stage().b_view() == self.stage().b_view()
        &&& next.stage().state() =~= df2_next_state_spec(
            self.stage().a_view(),
            self.stage().b_view(),
            self.stage().state(),
            x as int,
        )
    }

    fn filter(&mut self, x: i64) -> (r: i64)
        ensures
            final(self).cutoff() == old(self).cutoff(),
            final(self).resonance() == old(self).resonance(),
            final(self).stage().a_view() == old(self).stage().a_view(),
            final(self).stage().b_view() == old(self).stage().b_view(),
            final(self).stage().state() =~= df2_next_state_spec(
                old(self).stage().a_view(),
                old(self).stage().b_view(),
                old(self).stage().state(),
                x as int,
            ),
            r == df2_output_spec(
                old(self).stage().a_view(),
                old(self).stage().b_view(),
                old(self).stage().state(),
                x as int,
            ),
    {
        self.df2.filter(x)
    }
}

/// With the identity coefficient vectors `a = [1, 0, 0]` and
/// `b = [1, 0, 0]`, one Direct-Form-II step returns its input unchanged,
/// whatever the delay line holds.
pub proof fn lemma_identity_filter(v: Seq<int>, x: int)
    requires
        v.len() == 3,
        -STATE_LIMIT <= x <= STATE_LIMIT,
    ensures
        df2_output_spec(seq![ONE as int, 0, 0], seq![ONE as int, 0, 0], v, x) == x,
{
    let a = seq![ONE as int, 0, 0];
    let b = seq![ONE as int, 0, 0];
    reveal_with_fuel(wsum_spec, 4);
    reveal_with_fuel(wsum_prev_spec, 4);
    assert(wsum_prev_spec(a, v, 3) == a[1] * v[0] + a[2] * v[1]);
    assert(a[1] * v[0] == 0) by (nonlinear_arith)
        requires
            a[1] == 0,
    ;
    assert(a[2] * v[1] == 0) by (nonlinear_arith)
        requires
            a[2] == 0,
    ;
    assert(b[0] * x == ONE * x) by (nonlinear_arith)
        requires
            b[0] == ONE,
    ;
    if x >= 0 {
        vstd::arithmetic::div_mod::lemma_div_multiples_vanish(x, ONE as int);
    } else {
        vstd::arithmetic::div_mod::lemma_div_multiples_vanish(-x, ONE as int);
        assert(-(ONE * x) == ONE * (-x)) by (nonlinear_arith);
    }
    assert(tdiv_one_spec(ONE * x) == x);
    let v2 = df2_next_state_spec(a, b, v, x);
    assert(wsum_spec(b, v2, 3) == b[1] * v2[1] + b[2] * v2[2]);
    assert(b[1] * v2[1] == 0) by (nonlinear_arith)
        requires
            b[1] == 0,
    ;
    assert(b[2] * v2[2] == 0) by (nonlinear_arith)
        requires
            b[2] == 0,
    ;
}

} // verus!
