//! Gain stages: an amplifier with a hard output clamp guarding the
//! downstream integer conversion, and a fixed-arity weighted mixer.
use vstd::prelude::*;

verus! {

use crate::config::ONE;
use crate::filters::traits::Filter;

/// Largest sample the amplifier lets through: Q16.16 of 0.99.
pub const CLAMP_LIMIT: i64 = 64880;

/// Largest admissible gain: Q16.16 of 16.
pub const GAIN_LIMIT: i64 = 1048576;

/// Largest sample the gain stages accept (2^30 in Q16.16).
pub const VOLUME_IN_LIMIT: i64 = 1073741824;

/// Division by `ONE` truncating toward zero, as the fixed-point product
/// scaling steps compute it.
pub open spec fn tdiv_one_spec(v: int) -> int {
    if v >= 0 {
        v / (ONE as int)
    } else {
        -((-v) / (ONE as int))
    }
}

/// Scale a Q32.32 product back to Q16.16, truncating toward zero.
pub fn tdiv_one(v: i64) -> (r: i64)
    requires
        i64::MIN < v,
    ensures
        r == tdiv_one_spec(v as int),
        0 <= v ==> 0 <= r <= v,
        v <= 0 ==> v <= r <= 0,
{
    if v >= 0 {
        v / ONE
    } else {
        -((-v) / ONE)
    }
}

/// What the amplifier makes of a sample: gain applied in Q16.16, then a
/// hard clamp into [-0.99, 0.99].
pub open spec fn amp_spec(x: int, gain: int) -> int {
    let y = tdiv_one_spec(x * gain);
    if y > CLAMP_LIMIT {
        CLAMP_LIMIT as int
    } else if y < -CLAMP_LIMIT {
        -CLAMP_LIMIT as int
    } else {
        y
    }
}

pub struct Amplifier {
    gain: i64,
}

impl Amplifier {
    pub closed spec fn gain(&self) -> int {
        self.gain as int
    }

    pub fn new() -> (a: Amplifier)
        ensures
            a.inv(),
            a.gain() == 0,
    {
        Amplifier { gain: 0 }
    }

    pub fn set_gain(&mut self, gain: i64)
        requires
            -GAIN_LIMIT <= gain <= GAIN_LIMIT,
        ensures
            final(self).inv(),
            final(self).gain() == gain,
    {
        self.gain = gain
    }
}

impl Filter for Amplifier {
    type In = i64;

    type Out = i64;

    closed spec fn inv(&self) -> bool {
        -GAIN_LIMIT <= self.gain <= GAIN_LIMIT
    }

    open spec fn in_ok(x: i64) -> bool {
        -VOLUME_IN_LIMIT <= x <= VOLUME_IN_LIMIT
    }

    open spec fn out_ok(y: i64) -> bool {
        -CLAMP_LIMIT <= y <= CLAMP_LIMIT
    }

    open spec fn model_out(&self, x: i64) -> i64 {
        amp_spec(x as int, self.gain()) as i64
    }

    open spec fn models(&self, x: i64, next: &Amplifier) -> bool {
        next.gain() == self.gain()
    }

    fn filter(&mut self, x: i64) -> (r: i64)
        ensures
            r == amp_spec(x as int, old(self).gain()),
            final(self).gain() == old(self).gain(),
    {
        proof {
            assert(-(VOLUME_IN_LIMIT * GAIN_LIMIT) <= x * self.gain <= VOLUME_IN_LIMIT
                * GAIN_LIMIT) by (nonlinear_arith)
                requires
                    -VOLUME_IN_LIMIT <= x <= VOLUME_IN_LIMIT,
                    -GAIN_LIMIT <= self.gain <= GAIN_LIMIT,
            ;
        }
        let y: i64 = tdiv_one(x * self.gain);
        if y > CLAMP_LIMIT {
            CLAMP_LIMIT
        } else if y < -CLAMP_LIMIT {
            -CLAMP_LIMIT
        } else {
            y
        }
    }
}

/// The weighted sum of the first `k` channels, each product scaled back
/// to Q16.16.
pub open spec fn dot_q_spec(levels: Seq<int>, x: Seq<int>, k: int) -> int
    decreases k,
{
    if k <= 0 {
        0
    } else {
        dot_q_spec(levels, x, k - 1) + tdiv_one_spec(levels[k - 1] * x[k - 1])
    }
}

/// A fixed-length weighted sum over `N` input channels; every weight
/// defaults to `1/N`.
pub struct Mixer<const N: usize> {
    levels: [i64; N],
}

impl<const N: usize> Mixer<N> {
    pub closed spec fn levels(&self) -> Seq<int> {
        self.levels@.map_values(|v: i64| v as int)
    }

    pub fn new() -> (m: Mixer<N>)
        requires
            1 <= N <= 64,
        ensures
            m.inv(),
            forall|i: int| 0 <= i < N ==> #[trigger] m.levels()[i] == (ONE as int) / (N as int),
    {
        Mixer { levels: [ONE / N as i64; N] }
    }
}

impl<const N: usize> Filter for Mixer<N> {
    type In = [i64; N];

    type Out = i64;

    closed spec fn inv(&self) -> bool {
        &&& 1 <= N <= 64
        &&& forall|i: int| 0 <= i < N ==> 0 <= #[trigger] self.levels@[i] <= ONE
    }

    open spec fn in_ok(x: [i64; N]) -> bool {
        forall|i: int| 0 <= i < N ==> -VOLUME_IN_LIMIT <= #[trigger] x@[i] <= VOLUME_IN_LIMIT
    }

    open spec fn out_ok(y: i64) -> bool {
        -64 * VOLUME_IN_LIMIT <= y <= 64 * VOLUME_IN_LIMIT
    }

    open spec fn model_out(&self, x: [i64; N]) -> i64 {
        dot_q_spec(self.levels(), x@.map_values(|v: i64| v as int), N as int) as i64
    }

    open spec fn models(&self, x: [i64; N], next: &Mixer<N>) -> bool {
        *next == *self
    }

    fn filter(&mut self, x: [i64; N]) -> (r: i64)
        ensures
            r == dot_q_spec(old(self).levels(), x@.map_values(|v: i64| v as int), N as int),
            *final(self) == *old(self),
    {
        let mut acc: i64 = 0;
        let mut i: usize = 0;
        while i < N
            invariant
                0 <= i <= N,
                self.inv(),
                Mixer::<N>::in_ok(x),
                acc == dot_q_spec(self.levels(), x@.map_values(|v: i64| v as int), i as int),
                -(i as i64) * VOLUME_IN_LIMIT <= acc <= (i as i64) * VOLUME_IN_LIMIT,
            decreases N - i,
        {
            proof {
                assert(0 <= self.levels@[i as int] * x@[i as int] <= ONE * VOLUME_IN_LIMIT
                    || 0 >= self.levels@[i as int] * x@[i as int] >= -(ONE * VOLUME_IN_LIMIT))
                    by (nonlinear_arith)
                    requires
                        0 <= self.levels@[i as int] <= ONE,
                        -VOLUME_IN_LIMIT <= x@[i as int] <= VOLUME_IN_LIMIT,
                ;
            }
            let term: i64 = tdiv_one(self.levels[i] * x[i]);
            acc = acc + term;
            i = i + 1;
        }
        acc
    }
}

} // verus!
