//! The 88-key equal-tempered scale in Q16.16 Hz, anchored at A4 = 440 Hz
//! and derived by repeated multiplication or division by the twelfth root
//! of two, exactly as a piano keyboard is laid out.
use vstd::prelude::*;

verus! {

use crate::config::ONE;
use crate::oscillators::notes;

/// Q16.16 of 2^(1/12), the frequency ratio of one half tone.
pub const HALF_TONE_FACTOR: i64 = 69433;

/// Q16.16 of 440 Hz, the reference pitch of the A4 key.
pub const REFERENCE_FREQ: i64 = 28835840;

/// Upper saturation bound for every frequency the engine handles:
/// Q16.16 of 32768 Hz, far above the highest key.
pub const FREQ_LIMIT: i64 = 2147483648;

/// Number of keys on the scale.
pub const SCALE_KEYS: usize = 88;

pub open spec fn clamp_freq_spec(v: int) -> int {
    if v > FREQ_LIMIT {
        FREQ_LIMIT as int
    } else {
        v
    }
}

/// Frequency of key `n`: walk half tones from the A4 anchor.
pub open spec fn scale_spec(n: int) -> int
    decreases (if n >= notes::A4 {
        n - notes::A4
    } else {
        notes::A4 - n
    }),
{
    if n == notes::A4 {
        REFERENCE_FREQ as int
    } else if n > notes::A4 {
        clamp_freq_spec(scale_spec(n - 1) * HALF_TONE_FACTOR / (ONE as int))
    } else {
        scale_spec(n + 1) * ONE / (HALF_TONE_FACTOR as int)
    }
}

pub proof fn lemma_scale_range(n: int)
    ensures
        0 <= scale_spec(n) <= FREQ_LIMIT,
    decreases (if n >= notes::A4 {
        n - notes::A4
    } else {
        notes::A4 - n
    }),
{
    if n == notes::A4 {
    } else if n > notes::A4 {
        lemma_scale_range(n - 1);
        let v = scale_spec(n - 1);
        assert(0 <= v * HALF_TONE_FACTOR / (ONE as int)) by (nonlinear_arith)
            requires
                0 <= v,
        ;
    } else {
        lemma_scale_range(n + 1);
        let v = scale_spec(n + 1);
        assert(0 <= v * ONE / (HALF_TONE_FACTOR as int) <= v) by (nonlinear_arith)
            requires
                0 <= v,
        ;
    }
}

/// Build the whole 88-entry scale table, upward then downward from A4.
pub fn create_tempered_scale() -> (t: Vec<i64>)
    ensures
        t@.len() == SCALE_KEYS,
        forall|i: int| 0 <= i < SCALE_KEYS ==> t@[i] == scale_spec(i),
{
    let mut t: Vec<i64> = Vec::new();
    let mut i: usize = 0;
    while i < SCALE_KEYS
        invariant
            t@.len() == i <= SCALE_KEYS,
            forall|j: int| 0 <= j < i ==> t@[j] == 0,
        decreases SCALE_KEYS - i,
    {
        t.push(0);
        i = i + 1;
    }
    t.set(notes::A4 as usize, REFERENCE_FREQ);
    let mut k: usize = notes::A4 as usize;
    while k < SCALE_KEYS - 1
        invariant
            notes::A4 <= k <= SCALE_KEYS - 1,
            t@.len() == SCALE_KEYS,
            forall|j: int| notes::A4 <= j <= k ==> t@[j] == scale_spec(j),
        decreases SCALE_KEYS - k,
    {
        proof {
            lemma_scale_range(k as int);
        }
        let v: i64 = t[k] * HALF_TONE_FACTOR / ONE;
        let c: i64 = if v > FREQ_LIMIT {
            FREQ_LIMIT
        } else {
            v
        };
        proof {
            let x = scale_spec(k as int);
            assert(0 <= x * HALF_TONE_FACTOR) by (nonlinear_arith)
                requires
                    0 <= x,
            ;
            assert(x * HALF_TONE_FACTOR <= FREQ_LIMIT * HALF_TONE_FACTOR) by (nonlinear_arith)
                requires
                    x <= FREQ_LIMIT,
                    HALF_TONE_FACTOR > 0,
            ;
        }
        t.set(k + 1, c);
        k = k + 1;
    }
    let mut m: usize = notes::A4 as usize;
    while m > 0
        invariant
            0 <= m <= notes::A4,
            t@.len() == SCALE_KEYS,
            forall|j: int| m <= j < SCALE_KEYS ==> t@[j] == scale_spec(j),
        decreases m,
    {
        proof {
            lemma_scale_range(m as int);
            let x = scale_spec(m as int);
            assert(0 <= x * ONE <= FREQ_LIMIT * ONE) by (nonlinear_arith)
                requires
                    0 <= x <= FREQ_LIMIT,
                    ONE > 0,
            ;
        }
        let v: i64 = t[m] * ONE / HALF_TONE_FACTOR;
        t.set(m - 1, v);
        m = m - 1;
    }
    t
}

/// Frequency of key `n` in Q16.16 Hz.
pub fn freq(n: u8) -> (r: i64)
    requires
        n < SCALE_KEYS,
    ensures
        r == scale_spec(n as int),
        0 <= r <= FREQ_LIMIT,
{
    proof {
        lemma_scale_range(n as int);
    }
    let t: Vec<i64> = create_tempered_scale();
    t[n as usize]
}

} // verus!
