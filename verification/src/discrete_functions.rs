//! Fixed-point sine and cosine from a precomputed quarter-period table.
//!
//! The table holds Q16.16 samples of sin on [0, pi/2], computed once from a
//! truncated Taylor series; `sin` reduces a 32-bit binary-angle phase into a
//! quadrant, reflects it onto the quarter table and interpolates linearly
//! between adjacent entries. `cos(phi) = sin(phi + pi/2)` by phase shift.
use vstd::prelude::*;

verus! {

use crate::config::{ONE, PHASE_QUARTER, FULL_TURN};

/// Quarter-period table steps: the full period is divided into 64 grid
/// intervals, so one quarter holds 16 of them (17 boundary entries).
pub const QUARTER_STEPS: usize = 16;

/// Binary-angle phase units per table grid interval (2^32 / 64 = 2^26).
pub const PHASE_STEP: u32 = 67108864;

/// Q16.16 angle step between two table entries: 2*pi/64 in radians.
pub const DPHI_Q: i64 = 6434;

/// Saturation limit for the fixed-point power helper (2^33 in Q16.16).
pub const POW_LIMIT: i64 = 8589934592;

pub open spec fn fact_spec(n: nat) -> nat
    decreases n,
{
    if n == 0 {
        1
    } else {
        n * fact_spec((n - 1) as nat)
    }
}

pub proof fn lemma_fact_pos(n: nat)
    ensures
        fact_spec(n) >= 1,
    decreases n,
{
    if n > 0 {
        lemma_fact_pos((n - 1) as nat);
        assert(fact_spec(n) == n * fact_spec((n - 1) as nat));
        assert(n * fact_spec((n - 1) as nat) >= 1) by (nonlinear_arith)
            requires
                n >= 1,
                fact_spec((n - 1) as nat) >= 1,
        ;
    }
}

/// Factorial of `n`, used as the Taylor-term divisor of the sine table.
pub fn factorial(n: u32) -> (r: u32)
    requires
        n <= 12,
    ensures
        r == fact_spec(n as nat),
{
    proof {
        lemma_fact_bound(n as nat);
    }
    let mut f: u32 = 1;
    let mut i: u32 = 0;
    while i < n
        invariant
            i <= n <= 12,
            f == fact_spec(i as nat),
            f <= 479001600,
        decreases n - i,
    {
        proof {
            lemma_fact_bound((i + 1) as nat);
            assert(fact_spec((i + 1) as nat) == (i + 1) * fact_spec(i as nat));
            assert(f * (i + 1) == (i + 1) * fact_spec(i as nat)) by (nonlinear_arith)
                requires
                    f == fact_spec(i as nat),
            ;
        }
        i = i + 1;
        f = f * i;
    }
    f
}

/// The factorials up to 12 all fit a `u32`.
proof fn lemma_fact_bound(n: nat)
    requires
        n <= 12,
    ensures
        fact_spec(n) <= 479001600,
    decreases 12 - n,
{
    if n == 12 {
        reveal_with_fuel(fact_spec, 13);
        assert(fact_spec(12) == 479001600);
    } else {
        lemma_fact_bound((n + 1) as nat);
        lemma_fact_pos(n);
        assert(fact_spec((n + 1) as nat) == (n + 1) * fact_spec(n));
        assert(fact_spec(n) <= (n + 1) * fact_spec(n)) by (nonlinear_arith)
            requires
                fact_spec(n) >= 1,
                n >= 0,
        ;
    }
}

/// `x^n` in Q16.16 by repeated multiplication, saturated at `POW_LIMIT`.
pub open spec fn pow_q_spec(x: int, n: nat) -> int
    decreases n,
{
    if n == 0 {
        ONE as int
    } else {
        let p = pow_q_spec(x, (n - 1) as nat) * x / (ONE as int);
        if p > POW_LIMIT {
            POW_LIMIT as int
        } else {
            p
        }
    }
}

fn pow_q(x: i64, n: u32) -> (r: i64)
    requires
        0 <= x <= 2 * ONE,
        n <= 16,
    ensures
        r == pow_q_spec(x as int, n as nat),
        0 <= r <= POW_LIMIT,
{
    let mut p: i64 = ONE;
    let mut i: u32 = 0;
    while i < n
        invariant
            i <= n,
            0 <= x <= 2 * ONE,
            p == pow_q_spec(x as int, i as nat),
            0 <= p <= POW_LIMIT,
        decreases n - i,
    {
        assert(p * x <= POW_LIMIT * (2 * ONE)) by (nonlinear_arith)
            requires
                0 <= p <= POW_LIMIT,
                0 <= x <= 2 * ONE,
        ;
        assert(p * x >= 0) by (nonlinear_arith)
            requires
                0 <= p,
                0 <= x,
        ;
        p = p * x / ONE;
        if p > POW_LIMIT {
            p = POW_LIMIT;
        }
        i = i + 1;
    }
    p
}

/// Truncated Taylor series for sin at a Q16.16 angle: the odd terms
/// `phi^k / k!` up to `k = 9`, with alternating signs.
pub open spec fn sin_apx_spec(phi: int) -> int {
    pow_q_spec(phi, 1) / fact_spec(1) as int - pow_q_spec(phi, 3) / fact_spec(3) as int
        + pow_q_spec(phi, 5) / fact_spec(5) as int - pow_q_spec(phi, 7) / fact_spec(7) as int
        + pow_q_spec(phi, 9) / fact_spec(9) as int
}

fn sin_apx(phi: i64) -> (r: i64)
    requires
        0 <= phi <= 2 * ONE,
    ensures
        r == sin_apx_spec(phi as int),
{
    proof {
        lemma_fact_pos(1);
        lemma_fact_pos(3);
        lemma_fact_pos(5);
        lemma_fact_pos(7);
        lemma_fact_pos(9);
        lemma_fact_bound(9);
    }
    let t1: i64 = pow_q(phi, 1) / factorial(1) as i64;
    let t3: i64 = pow_q(phi, 3) / factorial(3) as i64;
    let t5: i64 = pow_q(phi, 5) / factorial(5) as i64;
    let t7: i64 = pow_q(phi, 7) / factorial(7) as i64;
    let t9: i64 = pow_q(phi, 9) / factorial(9) as i64;
    t1 - t3 + t5 - t7 + t9
}

pub open spec fn clamp01_spec(v: int) -> int {
    if v < 0 {
        0
    } else if v > ONE {
        ONE as int
    } else {
        v
    }
}

/// Value of quarter-table entry `i`: sin of the `i`-th grid angle in
/// Q16.16, clamped into [0, ONE]; the endpoints are pinned exactly.
pub open spec fn qtable_spec(i: int) -> int {
    if i <= 0 {
        0
    } else if i >= QUARTER_STEPS {
        ONE as int
    } else {
        clamp01_spec(sin_apx_spec(i * DPHI_Q))
    }
}

pub proof fn lemma_qtable_range(i: int)
    ensures
        0 <= qtable_spec(i) <= ONE,
{
}

/// Fill the quarter-period sine table from the Taylor series.
pub fn generate_sin_table() -> (t: Vec<i64>)
    ensures
        t@.len() == QUARTER_STEPS + 1,
        forall|i: int| 0 <= i <= QUARTER_STEPS ==> t@[i] == qtable_spec(i),
{
    let mut t: Vec<i64> = Vec::new();
    t.push(0);
    let mut phi: i64 = 0;
    let mut i: usize = 1;
    while i < QUARTER_STEPS
        invariant
            1 <= i <= QUARTER_STEPS,
            t@.len() == i,
            phi == (i - 1) * DPHI_Q,
            forall|j: int| 0 <= j < i ==> t@[j] == qtable_spec(j),
        decreases QUARTER_STEPS - i,
    {
        phi = phi + DPHI_Q;
        let v: i64 = sin_apx(phi);
        let c: i64 = if v < 0 {
            0
        } else if v > ONE {
            ONE
        } else {
            v
        };
        t.push(c);
        i = i + 1;
    }
    t.push(ONE);
    t
}

/// The quarter-period sine table; built once, read on every sample.
pub struct SinTable {
    table: Vec<i64>,
}

impl SinTable {
    pub closed spec fn wf(&self) -> bool {
        &&& self.table@.len() == QUARTER_STEPS + 1
        &&& forall|i: int| 0 <= i <= QUARTER_STEPS ==> self.table@[i] == qtable_spec(i)
    }

    pub fn new() -> (t: SinTable)
        ensures
            t.wf(),
    {
        SinTable { table: generate_sin_table() }
    }
}

/// Linear interpolation on the quarter table for a phase in the first
/// quadrant: `q` ranges over [0, PHASE_QUARTER].
pub open spec fn qsin_spec(q: int) -> int {
    if q >= PHASE_QUARTER {
        ONE as int
    } else {
        let i = q / (PHASE_STEP as int);
        let f = q % (PHASE_STEP as int);
        let a = qtable_spec(i);
        let b = qtable_spec(i + 1);
        if b >= a {
            a + (b - a) * f / (PHASE_STEP as int)
        } else {
            a - (a - b) * f / (PHASE_STEP as int)
        }
    }
}

pub proof fn lemma_qsin_range(q: int)
    ensures
        0 <= qsin_spec(q) <= ONE,
{
    if q < PHASE_QUARTER {
        let i = q / (PHASE_STEP as int);
        let f = q % (PHASE_STEP as int);
        let a = qtable_spec(i);
        let b = qtable_spec(i + 1);
        lemma_qtable_range(i);
        lemma_qtable_range(i + 1);
        if q >= 0 {
            vstd::arithmetic::div_mod::lemma_mod_bound(q, PHASE_STEP as int);
        }
        if b >= a {
            assert(0 <= (b - a) * f / (PHASE_STEP as int) <= b - a) by (nonlinear_arith)
                requires
                    b >= a,
                    0 <= f < (PHASE_STEP as int) || q < 0,
                    f == q % (PHASE_STEP as int),
                    PHASE_STEP as int > 0,
            ;
        } else {
            assert(0 <= (a - b) * f / (PHASE_STEP as int) <= a - b) by (nonlinear_arith)
                requires
                    a > b,
                    f == q % (PHASE_STEP as int),
                    PHASE_STEP as int > 0,
            ;
        }
    }
}

impl SinTable {
    fn qsin(&self, q: u32) -> (r: i64)
        requires
            self.wf(),
            q <= PHASE_QUARTER,
        ensures
            r == qsin_spec(q as int),
            0 <= r <= ONE,
    {
        proof {
            lemma_qsin_range(q as int);
        }
        if q >= PHASE_QUARTER {
            ONE
        } else {
            let i: usize = (q / PHASE_STEP) as usize;
            let f: i64 = (q % PHASE_STEP) as i64;
            assert(i < QUARTER_STEPS);
            let a: i64 = self.table[i];
            let b: i64 = self.table[i + 1];
            if b >= a {
                a + (b - a) * f / (PHASE_STEP as i64)
            } else {
                a - (a - b) * f / (PHASE_STEP as i64)
            }
        }
    }
}

/// Fixed-point sine over one full binary-angle period: quadrant reduction
/// plus reflection onto the quarter table.
pub open spec fn sin_spec(phi: int) -> int {
    let quad = phi / (PHASE_QUARTER as int);
    let r = phi % (PHASE_QUARTER as int);
    if quad == 0 {
        qsin_spec(r)
    } else if quad == 1 {
        qsin_spec(PHASE_QUARTER - r)
    } else if quad == 2 {
        -qsin_spec(r)
    } else {
        -qsin_spec(PHASE_QUARTER - r)
    }
}

pub open spec fn cos_spec(phi: int) -> int {
    sin_spec((phi + PHASE_QUARTER) % (FULL_TURN as int))
}

/// Table-interpolated sine of a binary-angle phase.
pub fn sin(t: &SinTable, phi: u32) -> (r: i64)
    requires
        t.wf(),
    ensures
        r == sin_spec(phi as int),
        -ONE <= r <= ONE,
{
    let quad: u32 = phi / PHASE_QUARTER;
    let rem: u32 = phi % PHASE_QUARTER;
    proof {
        lemma_qsin_range(rem as int);
        lemma_qsin_range(PHASE_QUARTER - rem as int);
    }
    if quad == 0 {
        t.qsin(rem)
    } else if quad == 1 {
        t.qsin(PHASE_QUARTER - rem)
    } else if quad == 2 {
        -t.qsin(rem)
    } else {
        -t.qsin(PHASE_QUARTER - rem)
    }
}

/// Table-interpolated cosine: sin shifted a quarter period forward.
pub fn cos(t: &SinTable, phi: u32) -> (r: i64)
    requires
        t.wf(),
    ensures
        r == cos_spec(phi as int),
        -ONE <= r <= ONE,
{
    let shifted: u32 = ((phi as u64 + PHASE_QUARTER as u64) % FULL_TURN) as u32;
    sin(t, shifted)
}

/// In the first half period the sine is nonnegative.
pub proof fn lemma_sin_first_half_nonneg(phi: int)
    requires
        0 <= phi < 2 * PHASE_QUARTER,
    ensures
        0 <= sin_spec(phi) <= ONE,
{
    let quad = phi / (PHASE_QUARTER as int);
    let r = phi % (PHASE_QUARTER as int);
    lemma_qsin_range(r);
    lemma_qsin_range(PHASE_QUARTER - r);
}

/// At the four cardinal phases (0, pi/2, pi, 3pi/2) the table is exact,
/// so the Pythagorean identity holds with no error at all there.
#[verifier::rlimit(50)]
pub proof fn lemma_pythagoras_at_cardinals(k: int)
    requires
        0 <= k < 4,
    ensures
        sin_spec(k * PHASE_QUARTER) * sin_spec(k * PHASE_QUARTER) + cos_spec(k * PHASE_QUARTER)
            * cos_spec(k * PHASE_QUARTER) == ONE * ONE,
{
    let q = PHASE_QUARTER as int;
    assert(qsin_spec(0) == 0) by {
        assert(qtable_spec(0) == 0);
        assert(0int % (PHASE_STEP as int) == 0);
        assert(0int / (PHASE_STEP as int) == 0);
    }
    assert(qsin_spec(q) == ONE);
    let s = sin_spec(k * q);
    let c = cos_spec(k * q);
    if k == 0 {
        assert(0int % q == 0 && 0int / q == 0);
        assert(s == qsin_spec(0));
        assert((0int * q + q) % (FULL_TURN as int) == q);
        assert(q / q == 1 && q % q == 0);
        assert(c == qsin_spec(q - 0));
        assert(s == 0 && c == ONE);
    } else if k == 1 {
        assert(q / q == 1 && q % q == 0);
        assert(s == qsin_spec(q - 0));
        assert((1int * q + q) % (FULL_TURN as int) == 2 * q);
        assert((2 * q) / q == 2 && (2 * q) % q == 0);
        assert(c == -qsin_spec(0));
        assert(s == ONE && c == 0);
    } else if k == 2 {
        assert((2 * q) / q == 2 && (2 * q) % q == 0);
        assert(s == -qsin_spec(0));
        assert((2int * q + q) % (FULL_TURN as int) == 3 * q);
        assert((3 * q) / q == 3 && (3 * q) % q == 0);
        assert(c == -qsin_spec(q - 0));
        assert(s == 0 && c == -ONE);
    } else {
        assert(k == 3);
        assert((3 * q) / q == 3 && (3 * q) % q == 0);
        assert(s == -qsin_spec(q - 0));
        assert((3int * q + q) % (FULL_TURN as int) == 0);
        assert(c == qsin_spec(0));
        assert(s == -ONE && c == 0);
    }
    assert(s * s + c * c == ONE * ONE) by (nonlinear_arith)
        requires
            (s == 0 && c == ONE) || (s == ONE && c == 0) || (s == 0 && c == -ONE) || (s == -ONE
                && c == 0),
    ;
}


#[verifier::spinoff_prover]
#[verifier::rlimit(100)]
proof fn lemma_qtable_entry_1()
    ensures
        qtable_spec(1) == 6424,
{
    reveal_with_fuel(pow_q_spec, 2);
    reveal_with_fuel(fact_spec, 11);
    assert(fact_spec(1) == 1);
    assert(fact_spec(3) == 6);
    assert(fact_spec(5) == 120);
    assert(fact_spec(7) == 5040);
    assert(fact_spec(9) == 362880);
    assert(pow_q_spec(6434, 0) == 65536);
    assert(pow_q_spec(6434, 1) == 6434);
    assert(pow_q_spec(6434, 2) == 631);
    assert(pow_q_spec(6434, 3) == 61);
    assert(pow_q_spec(6434, 4) == 5);
    assert(pow_q_spec(6434, 5) == 0);
    assert(pow_q_spec(6434, 6) == 0);
    assert(pow_q_spec(6434, 7) == 0);
    assert(pow_q_spec(6434, 8) == 0);
    assert(pow_q_spec(6434, 9) == 0);
    assert(sin_apx_spec(6434) == 6434int / 1 - 61int / 6 + 0int / 120 - 0int / 5040 + 0int / 362880);
    assert(1 * DPHI_Q == 6434);
    assert(qtable_spec(1) == clamp01_spec(sin_apx_spec(6434)));
}

#[verifier::spinoff_prover]
#[verifier::rlimit(100)]
proof fn lemma_qtable_entry_2()
    ensures
        qtable_spec(2) == 12786,
{
    reveal_with_fuel(pow_q_spec, 2);
    reveal_with_fuel(fact_spec, 11);
    assert(fact_spec(1) == 1);
    assert(fact_spec(3) == 6);
    assert(fact_spec(5) == 120);
    assert(fact_spec(7) == 5040);
    assert(fact_spec(9) == 362880);
    assert(pow_q_spec(12868, 0) == 65536);
    assert(pow_q_spec(12868, 1) == 12868);
    assert(pow_q_spec(12868, 2) == 2526);
    assert(pow_q_spec(12868, 3) == 495);
    assert(pow_q_spec(12868, 4) == 97);
    assert(pow_q_spec(12868, 5) == 19);
    assert(pow_q_spec(12868, 6) == 3);
    assert(pow_q_spec(12868, 7) == 0);
    assert(pow_q_spec(12868, 8) == 0);
    assert(pow_q_spec(12868, 9) == 0);
    assert(sin_apx_spec(12868) == 12868int / 1 - 495int / 6 + 19int / 120 - 0int / 5040 + 0int / 362880);
    assert(2 * DPHI_Q == 12868);
    assert(qtable_spec(2) == clamp01_spec(sin_apx_spec(12868)));
}

#[verifier::spinoff_prover]
#[verifier::rlimit(100)]
proof fn lemma_qtable_entry_3()
    ensures
        qtable_spec(3) == 19024,
{
    reveal_with_fuel(pow_q_spec, 2);
    reveal_with_fuel(fact_spec, 11);
    assert(fact_spec(1) == 1);
    assert(fact_spec(3) == 6);
    assert(fact_spec(5) == 120);
    assert(fact_spec(7) == 5040);
    assert(fact_spec(9) == 362880);
    assert(pow_q_spec(19302, 0) == 65536);
    assert(pow_q_spec(19302, 1) == 19302);
    assert(pow_q_spec(19302, 2) == 5684);
    assert(pow_q_spec(19302, 3) == 1674);
    assert(pow_q_spec(19302, 4) == 493);
    assert(pow_q_spec(19302, 5) == 145);
    assert(pow_q_spec(19302, 6) == 42);
    assert(pow_q_spec(19302, 7) == 12);
    assert(pow_q_spec(19302, 8) == 3);
    assert(pow_q_spec(19302, 9) == 0);
    assert(sin_apx_spec(19302) == 19302int / 1 - 1674int / 6 + 145int / 120 - 12int / 5040 + 0int / 362880);
    assert(3 * DPHI_Q == 19302);
    assert(qtable_spec(3) == clamp01_spec(sin_apx_spec(19302)));
}

#[verifier::spinoff_prover]
#[verifier::rlimit(100)]
proof fn lemma_qtable_entry_4()
    ensures
        qtable_spec(4) == 25080,
{
    reveal_with_fuel(pow_q_spec, 2);
    reveal_with_fuel(fact_spec, 11);
    assert(fact_spec(1) == 1);
    assert(fact_spec(3) == 6);
    assert(fact_spec(5) == 120);
    assert(fact_spec(7) == 5040);
    assert(fact_spec(9) == 362880);
    assert(pow_q_spec(25736, 0) == 65536);
    assert(pow_q_spec(25736, 1) == 25736);
    assert(pow_q_spec(25736, 2) == 10106);
    assert(pow_q_spec(25736, 3) == 3968);
    assert(pow_q_spec(25736, 4) == 1558);
    assert(pow_q_spec(25736, 5) == 611);
    assert(pow_q_spec(25736, 6) == 239);
    assert(pow_q_spec(25736, 7) == 93);
    assert(pow_q_spec(25736, 8) == 36);
    assert(pow_q_spec(25736, 9) == 14);
    assert(sin_apx_spec(25736) == 25736int / 1 - 3968int / 6 + 611int / 120 - 93int / 5040 + 14int / 362880);
    assert(4 * DPHI_Q == 25736);
    assert(qtable_spec(4) == clamp01_spec(sin_apx_spec(25736)));
}

#[verifier::spinoff_prover]
#[verifier::rlimit(100)]
proof fn lemma_qtable_entry_5()
    ensures
        qtable_spec(5) == 30894,
{
    reveal_with_fuel(pow_q_spec, 2);
    reveal_with_fuel(fact_spec, 11);
    assert(fact_spec(1) == 1);
    assert(fact_spec(3) == 6);
    assert(fact_spec(5) == 120);
    assert(fact_spec(7) == 5040);
    assert(fact_spec(9) == 362880);
    assert(pow_q_spec(32170, 0) == 65536);
    assert(pow_q_spec(32170, 1) == 32170);
    assert(pow_q_spec(32170, 2) == 15791);
    assert(pow_q_spec(32170, 3) == 7751);
    assert(pow_q_spec(32170, 4) == 3804);
    assert(pow_q_spec(32170, 5) == 1867);
    assert(pow_q_spec(32170, 6) == 916);
    assert(pow_q_spec(32170, 7) == 449);
    assert(pow_q_spec(32170, 8) == 220);
    assert(pow_q_spec(32170, 9) == 107);
    assert(sin_apx_spec(32170) == 32170int / 1 - 7751int / 6 + 1867int / 120 - 449int / 5040 + 107int / 362880);
    assert(5 * DPHI_Q == 32170);
    assert(qtable_spec(5) == clamp01_spec(sin_apx_spec(32170)));
}

#[verifier::spinoff_prover]
#[verifier::rlimit(100)]
proof fn lemma_qtable_entry_6()
    ensures
        qtable_spec(6) == 36410,
{
    reveal_with_fuel(pow_q_spec, 2);
    reveal_with_fuel(fact_spec, 11);
    assert(fact_spec(1) == 1);
    assert(fact_spec(3) == 6);
    assert(fact_spec(5) == 120);
    assert(fact_spec(7) == 5040);
    assert(fact_spec(9) == 362880);
    assert(pow_q_spec(38604, 0) == 65536);
    assert(pow_q_spec(38604, 1) == 38604);
    assert(pow_q_spec(38604, 2) == 22739);
    assert(pow_q_spec(38604, 3) == 13394);
    assert(pow_q_spec(38604, 4) == 7889);
    assert(pow_q_spec(38604, 5) == 4647);
    assert(pow_q_spec(38604, 6) == 2737);
    assert(pow_q_spec(38604, 7) == 1612);
    assert(pow_q_spec(38604, 8) == 949);
    assert(pow_q_spec(38604, 9) == 559);
    assert(sin_apx_spec(38604) == 38604int / 1 - 13394int / 6 + 4647int / 120 - 1612int / 5040 + 559int / 362880);
    assert(6 * DPHI_Q == 38604);
    assert(qtable_spec(6) == clamp01_spec(sin_apx_spec(38604)));
}

#[verifier::spinoff_prover]
#[verifier::rlimit(100)]
proof fn lemma_qtable_entry_7()
    ensures
        qtable_spec(7) == 41576,
{
    reveal_with_fuel(pow_q_spec, 2);
    reveal_with_fuel(fact_spec, 11);
    assert(fact_spec(1) == 1);
    assert(fact_spec(3) == 6);
    assert(fact_spec(5) == 120);
    assert(fact_spec(7) == 5040);
    assert(fact_spec(9) == 362880);
    assert(pow_q_spec(45038, 0) == 65536);
    assert(pow_q_spec(45038, 1) == 45038);
    assert(pow_q_spec(45038, 2) == 30951);
    assert(pow_q_spec(45038, 3) == 21270);
    assert(pow_q_spec(45038, 4) == 14617);
    assert(pow_q_spec(45038, 5) == 10045);
    assert(pow_q_spec(45038, 6) == 6903);
    assert(pow_q_spec(45038, 7) == 4743);
    assert(pow_q_spec(45038, 8) == 3259);
    assert(pow_q_spec(45038, 9) == 2239);
    assert(sin_apx_spec(45038) == 45038int / 1 - 21270int / 6 + 10045int / 120 - 4743int / 5040 + 2239int / 362880);
    assert(7 * DPHI_Q == 45038);
    assert(qtable_spec(7) == clamp01_spec(sin_apx_spec(45038)));
}

#[verifier::spinoff_prover]
#[verifier::rlimit(100)]
proof fn lemma_qtable_entry_8()
    ensures
        qtable_spec(8) == 46342,
{
    reveal_with_fuel(pow_q_spec, 2);
    reveal_with_fuel(fact_spec, 11);
    assert(fact_spec(1) == 1);
    assert(fact_spec(3) == 6);
    assert(fact_spec(5) == 120);
    assert(fact_spec(7) == 5040);
    assert(fact_spec(9) == 362880);
    assert(pow_q_spec(51472, 0) == 65536);
    assert(pow_q_spec(51472, 1) == 51472);
    assert(pow_q_spec(51472, 2) == 40426);
    assert(pow_q_spec(51472, 3) == 31750);
    assert(pow_q_spec(51472, 4) == 24936);
    assert(pow_q_spec(51472, 5) == 19584);
    assert(pow_q_spec(51472, 6) == 15381);
    assert(pow_q_spec(51472, 7) == 12080);
    assert(pow_q_spec(51472, 8) == 9487);
    assert(pow_q_spec(51472, 9) == 7451);
    assert(sin_apx_spec(51472) == 51472int / 1 - 31750int / 6 + 19584int / 120 - 12080int / 5040 + 7451int / 362880);
    assert(8 * DPHI_Q == 51472);
    assert(qtable_spec(8) == clamp01_spec(sin_apx_spec(51472)));
}

#[verifier::spinoff_prover]
#[verifier::rlimit(100)]
proof fn lemma_qtable_entry_9()
    ensures
        qtable_spec(9) == 50661,
{
    reveal_with_fuel(pow_q_spec, 2);
    reveal_with_fuel(fact_spec, 11);
    assert(fact_spec(1) == 1);
    assert(fact_spec(3) == 6);
    assert(fact_spec(5) == 120);
    assert(fact_spec(7) == 5040);
    assert(fact_spec(9) == 362880);
    assert(pow_q_spec(57906, 0) == 65536);
    assert(pow_q_spec(57906, 1) == 57906);
    assert(pow_q_spec(57906, 2) == 51164);
    assert(pow_q_spec(57906, 3) == 45207);
    assert(pow_q_spec(57906, 4) == 39943);
    assert(pow_q_spec(57906, 5) == 35292);
    assert(pow_q_spec(57906, 6) == 31183);
    assert(pow_q_spec(57906, 7) == 27552);
    assert(pow_q_spec(57906, 8) == 24344);
    assert(pow_q_spec(57906, 9) == 21509);
    assert(sin_apx_spec(57906) == 57906int / 1 - 45207int / 6 + 35292int / 120 - 27552int / 5040 + 21509int / 362880);
    assert(9 * DPHI_Q == 57906);
    assert(qtable_spec(9) == clamp01_spec(sin_apx_spec(57906)));
}

#[verifier::spinoff_prover]
#[verifier::rlimit(100)]
proof fn lemma_qtable_entry_10()
    ensures
        qtable_spec(10) == 54492,
{
    reveal_with_fuel(pow_q_spec, 2);
    reveal_with_fuel(fact_spec, 11);
    assert(fact_spec(1) == 1);
    assert(fact_spec(3) == 6);
    assert(fact_spec(5) == 120);
    assert(fact_spec(7) == 5040);
    assert(fact_spec(9) == 362880);
    assert(pow_q_spec(64340, 0) == 65536);
    assert(pow_q_spec(64340, 1) == 64340);
    assert(pow_q_spec(64340, 2) == 63165);
    assert(pow_q_spec(64340, 3) == 62012);
    assert(pow_q_spec(64340, 4) == 60880);
    assert(pow_q_spec(64340, 5) == 59768);
    assert(pow_q_spec(64340, 6) == 58677);
    assert(pow_q_spec(64340, 7) == 57606);
    assert(pow_q_spec(64340, 8) == 56554);
    assert(pow_q_spec(64340, 9) == 55521);
    assert(sin_apx_spec(64340) == 64340int / 1 - 62012int / 6 + 59768int / 120 - 57606int / 5040 + 55521int / 362880);
    assert(10 * DPHI_Q == 64340);
    assert(qtable_spec(10) == clamp01_spec(sin_apx_spec(64340)));
}

#[verifier::spinoff_prover]
#[verifier::rlimit(100)]
proof fn lemma_qtable_entry_11()
    ensures
        qtable_spec(11) == 57798,
{
    reveal_with_fuel(pow_q_spec, 2);
    reveal_with_fuel(fact_spec, 11);
    assert(fact_spec(1) == 1);
    assert(fact_spec(3) == 6);
    assert(fact_spec(5) == 120);
    assert(fact_spec(7) == 5040);
    assert(fact_spec(9) == 362880);
    assert(pow_q_spec(70774, 0) == 65536);
    assert(pow_q_spec(70774, 1) == 70774);
    assert(pow_q_spec(70774, 2) == 76430);
    assert(pow_q_spec(70774, 3) == 82538);
    assert(pow_q_spec(70774, 4) == 89134);
    assert(pow_q_spec(70774, 5) == 96258);
    assert(pow_q_spec(70774, 6) == 103951);
    assert(pow_q_spec(70774, 7) == 112259);
    assert(pow_q_spec(70774, 8) == 121231);
    assert(pow_q_spec(70774, 9) == 130920);
    assert(sin_apx_spec(70774) == 70774int / 1 - 82538int / 6 + 96258int / 120 - 112259int / 5040 + 130920int / 362880);
    assert(11 * DPHI_Q == 70774);
    assert(qtable_spec(11) == clamp01_spec(sin_apx_spec(70774)));
}

#[verifier::spinoff_prover]
#[verifier::rlimit(100)]
proof fn lemma_qtable_entry_12()
    ensures
        qtable_spec(12) == 60548,
{
    reveal_with_fuel(pow_q_spec, 2);
    reveal_with_fuel(fact_spec, 11);
    assert(fact_spec(1) == 1);
    assert(fact_spec(3) == 6);
    assert(fact_spec(5) == 120);
    assert(fact_spec(7) == 5040);
    assert(fact_spec(9) == 362880);
    assert(pow_q_spec(77208, 0) == 65536);
    assert(pow_q_spec(77208, 1) == 77208);
    assert(pow_q_spec(77208, 2) == 90958);
    assert(pow_q_spec(77208, 3) == 107157);
    assert(pow_q_spec(77208, 4) == 126241);
    assert(pow_q_spec(77208, 5) == 148724);
    assert(pow_q_spec(77208, 6) == 175211);
    assert(pow_q_spec(77208, 7) == 206416);
    assert(pow_q_spec(77208, 8) == 243178);
    assert(pow_q_spec(77208, 9) == 286488);
    assert(sin_apx_spec(77208) == 77208int / 1 - 107157int / 6 + 148724int / 120 - 206416int / 5040 + 286488int / 362880);
    assert(12 * DPHI_Q == 77208);
    assert(qtable_spec(12) == clamp01_spec(sin_apx_spec(77208)));
}

#[verifier::spinoff_prover]
#[verifier::rlimit(100)]
proof fn lemma_qtable_entry_13()
    ensures
        qtable_spec(13) == 62714,
{
    reveal_with_fuel(pow_q_spec, 2);
    reveal_with_fuel(fact_spec, 11);
    assert(fact_spec(1) == 1);
    assert(fact_spec(3) == 6);
    assert(fact_spec(5) == 120);
    assert(fact_spec(7) == 5040);
    assert(fact_spec(9) == 362880);
    assert(pow_q_spec(83642, 0) == 65536);
    assert(pow_q_spec(83642, 1) == 83642);
    assert(pow_q_spec(83642, 2) == 106750);
    assert(pow_q_spec(83642, 3) == 136242);
    assert(pow_q_spec(83642, 4) == 173882);
    assert(pow_q_spec(83642, 5) == 221921);
    assert(pow_q_spec(83642, 6) == 283232);
    assert(pow_q_spec(83642, 7) == 361482);
    assert(pow_q_spec(83642, 8) == 461350);
    assert(pow_q_spec(83642, 9) == 588809);
    assert(sin_apx_spec(83642) == 83642int / 1 - 136242int / 6 + 221921int / 120 - 361482int / 5040 + 588809int / 362880);
    assert(13 * DPHI_Q == 83642);
    assert(qtable_spec(13) == clamp01_spec(sin_apx_spec(83642)));
}

#[verifier::spinoff_prover]
#[verifier::rlimit(100)]
proof fn lemma_qtable_entry_14()
    ensures
        qtable_spec(14) == 64277,
{
    reveal_with_fuel(pow_q_spec, 2);
    reveal_with_fuel(fact_spec, 11);
    assert(fact_spec(1) == 1);
    assert(fact_spec(3) == 6);
    assert(fact_spec(5) == 120);
    assert(fact_spec(7) == 5040);
    assert(fact_spec(9) == 362880);
    assert(pow_q_spec(90076, 0) == 65536);
    assert(pow_q_spec(90076, 1) == 90076);
    assert(pow_q_spec(90076, 2) == 123805);
    assert(pow_q_spec(90076, 3) == 170163);
    assert(pow_q_spec(90076, 4) == 233880);
    assert(pow_q_spec(90076, 5) == 321456);
    assert(pow_q_spec(90076, 6) == 441825);
    assert(pow_q_spec(90076, 7) == 607266);
    assert(pow_q_spec(90076, 8) == 834657);
    assert(pow_q_spec(90076, 9) == 1147194);
    assert(sin_apx_spec(90076) == 90076int / 1 - 170163int / 6 + 321456int / 120 - 607266int / 5040 + 1147194int / 362880);
    assert(14 * DPHI_Q == 90076);
    assert(qtable_spec(14) == clamp01_spec(sin_apx_spec(90076)));
}

#[verifier::spinoff_prover]
#[verifier::rlimit(100)]
proof fn lemma_qtable_entry_15()
    ensures
        qtable_spec(15) == 65220,
{
    reveal_with_fuel(pow_q_spec, 2);
    reveal_with_fuel(fact_spec, 11);
    assert(fact_spec(1) == 1);
    assert(fact_spec(3) == 6);
    assert(fact_spec(5) == 120);
    assert(fact_spec(7) == 5040);
    assert(fact_spec(9) == 362880);
    assert(pow_q_spec(96510, 0) == 65536);
    assert(pow_q_spec(96510, 1) == 96510);
    assert(pow_q_spec(96510, 2) == 142123);
    assert(pow_q_spec(96510, 3) == 209293);
    assert(pow_q_spec(96510, 4) == 308210);
    assert(pow_q_spec(96510, 5) == 453877);
    assert(pow_q_spec(96510, 6) == 668390);
    assert(pow_q_spec(96510, 7) == 984288);
    assert(pow_q_spec(96510, 8) == 1449487);
    assert(pow_q_spec(96510, 9) == 2134551);
    assert(sin_apx_spec(96510) == 96510int / 1 - 209293int / 6 + 453877int / 120 - 984288int / 5040 + 2134551int / 362880);
    assert(15 * DPHI_Q == 96510);
    assert(qtable_spec(15) == clamp01_spec(sin_apx_spec(96510)));
}

/// Every quarter-table entry, evaluated from the series definition.
pub proof fn lemma_qtable_values()
    ensures
        qtable_spec(0) == 0,
        qtable_spec(1) == 6424,
        qtable_spec(2) == 12786,
        qtable_spec(3) == 19024,
        qtable_spec(4) == 25080,
        qtable_spec(5) == 30894,
        qtable_spec(6) == 36410,
        qtable_spec(7) == 41576,
        qtable_spec(8) == 46342,
        qtable_spec(9) == 50661,
        qtable_spec(10) == 54492,
        qtable_spec(11) == 57798,
        qtable_spec(12) == 60548,
        qtable_spec(13) == 62714,
        qtable_spec(14) == 64277,
        qtable_spec(15) == 65220,
        qtable_spec(16) == 65536,
{
    lemma_qtable_entry_1();
    lemma_qtable_entry_2();
    lemma_qtable_entry_3();
    lemma_qtable_entry_4();
    lemma_qtable_entry_5();
    lemma_qtable_entry_6();
    lemma_qtable_entry_7();
    lemma_qtable_entry_8();
    lemma_qtable_entry_9();
    lemma_qtable_entry_10();
    lemma_qtable_entry_11();
    lemma_qtable_entry_12();
    lemma_qtable_entry_13();
    lemma_qtable_entry_14();
    lemma_qtable_entry_15();
}

/// At every grid pair the squared table entries miss one by far less
/// than the one-percent interpolation budget.
pub proof fn lemma_grid_pair_bound(a: int)
    requires
        0 <= a <= 16,
    ensures
        -((ONE * ONE) / 100) <= qtable_spec(a) * qtable_spec(a) + qtable_spec(16 - a) * qtable_spec(
            16 - a,
        ) - ONE * ONE <= (ONE * ONE) / 100,
{
    lemma_qtable_values();
    if a == 0 {
        assert(qtable_spec(0) * qtable_spec(0) + qtable_spec(16) * qtable_spec(16) - ONE
            * ONE == 0);
    }
    if a == 1 {
        assert(qtable_spec(1) * qtable_spec(1) + qtable_spec(15) * qtable_spec(15) - ONE
            * ONE == -51120);
    }
    if a == 2 {
        assert(qtable_spec(2) * qtable_spec(2) + qtable_spec(14) * qtable_spec(14) - ONE
            * ONE == 47229);
    }
    if a == 3 {
        assert(qtable_spec(3) * qtable_spec(3) + qtable_spec(13) * qtable_spec(13) - ONE
            * ONE == -8924);
    }
    if a == 4 {
        assert(qtable_spec(4) * qtable_spec(4) + qtable_spec(12) * qtable_spec(12) - ONE
            * ONE == 99408);
    }
    if a == 5 {
        assert(qtable_spec(5) * qtable_spec(5) + qtable_spec(11) * qtable_spec(11) - ONE
            * ONE == 80744);
    }
    if a == 6 {
        assert(qtable_spec(6) * qtable_spec(6) + qtable_spec(10) * qtable_spec(10) - ONE
            * ONE == 98868);
    }
    if a == 7 {
        assert(qtable_spec(7) * qtable_spec(7) + qtable_spec(9) * qtable_spec(9) - ONE
            * ONE == 133401);
    }
    if a == 8 {
        assert(qtable_spec(8) * qtable_spec(8) + qtable_spec(8) * qtable_spec(8) - ONE
            * ONE == 194632);
    }
    if a == 9 {
        assert(qtable_spec(9) * qtable_spec(9) + qtable_spec(7) * qtable_spec(7) - ONE
            * ONE == 133401);
    }
    if a == 10 {
        assert(qtable_spec(10) * qtable_spec(10) + qtable_spec(6) * qtable_spec(6) - ONE
            * ONE == 98868);
    }
    if a == 11 {
        assert(qtable_spec(11) * qtable_spec(11) + qtable_spec(5) * qtable_spec(5) - ONE
            * ONE == 80744);
    }
    if a == 12 {
        assert(qtable_spec(12) * qtable_spec(12) + qtable_spec(4) * qtable_spec(4) - ONE
            * ONE == 99408);
    }
    if a == 13 {
        assert(qtable_spec(13) * qtable_spec(13) + qtable_spec(3) * qtable_spec(3) - ONE
            * ONE == -8924);
    }
    if a == 14 {
        assert(qtable_spec(14) * qtable_spec(14) + qtable_spec(2) * qtable_spec(2) - ONE
            * ONE == 47229);
    }
    if a == 15 {
        assert(qtable_spec(15) * qtable_spec(15) + qtable_spec(1) * qtable_spec(1) - ONE
            * ONE == -51120);
    }
    if a == 16 {
        assert(qtable_spec(16) * qtable_spec(16) + qtable_spec(0) * qtable_spec(0) - ONE
            * ONE == 0);
    }
}


/// Which quarter-table entry the sine at grid step `j` reflects onto.
pub open spec fn grid_index_spec(j: int) -> int {
    let quad = j / 16;
    let m = j % 16;
    if quad == 0 || quad == 2 {
        m
    } else if m == 0 {
        16
    } else {
        16 - m
    }
}

/// On a grid phase the interpolation is exact: the first-quadrant sine
/// is the table entry itself.
proof fn lemma_qsin_at_grid(m: int)
    requires
        0 <= m <= 16,
    ensures
        qsin_spec(m * PHASE_STEP) == qtable_spec(m),
{
    let step = PHASE_STEP as int;
    if m == 16 {
        assert(16 * step == PHASE_QUARTER);
    } else {
        let p = m * step;
        assert(0 <= m * step < PHASE_QUARTER) by (nonlinear_arith)
            requires
                0 <= m < 16,
                step == 67108864,
                PHASE_QUARTER == 1073741824,
        ;
        vstd::arithmetic::div_mod::lemma_fundamental_div_mod_converse(p, step, m, 0);
        assert(p / step == m && p % step == 0);
        let a = qtable_spec(m);
        let b = qtable_spec(m + 1);
        if b >= a {
            assert((b - a) * 0 == 0) by (nonlinear_arith);
            assert(qsin_spec(p) == a + 0int / step);
        } else {
            assert((a - b) * 0 == 0) by (nonlinear_arith);
            assert(qsin_spec(p) == a - 0int / step);
        }
    }
}

/// The squared sine at grid step `j` equals the squared table entry the
/// quadrant reflection picks.
proof fn lemma_sin_squared_at_grid(j: int)
    requires
        0 <= j < 64,
    ensures
        sin_spec(j * PHASE_STEP) * sin_spec(j * PHASE_STEP) == qtable_spec(grid_index_spec(j))
            * qtable_spec(grid_index_spec(j)),
{
    let step = PHASE_STEP as int;
    let quarter = PHASE_QUARTER as int;
    let quad = j / 16;
    let m = j % 16;
    vstd::arithmetic::div_mod::lemma_fundamental_div_mod(j, 16);
    vstd::arithmetic::div_mod::lemma_mod_bound(j, 16);
    assert(0 <= quad < 4) by (nonlinear_arith)
        requires
            j == 16 * quad + m,
            0 <= m < 16,
            0 <= j < 64,
    ;
    let p = j * step;
    assert(j * step == quad * quarter + m * step) by (nonlinear_arith)
        requires
            j == 16 * quad + m,
            step == 67108864,
            quarter == 1073741824,
    ;
    assert(0 <= m * step < quarter) by (nonlinear_arith)
        requires
            0 <= m < 16,
            step == 67108864,
            quarter == 1073741824,
    ;
    vstd::arithmetic::div_mod::lemma_fundamental_div_mod_converse(p, quarter, quad, m * step);
    assert(p / quarter == quad && p % quarter == m * step);
    lemma_qsin_at_grid(m);
    lemma_qsin_at_grid(16 - m);
    assert((16 - m) * step == quarter - m * step) by (nonlinear_arith)
        requires
            step == 67108864,
            quarter == 1073741824,
    ;
    let s = sin_spec(p);
    let t = qtable_spec(grid_index_spec(j));
    if quad == 0 || quad == 2 {
        assert(s == qsin_spec(m * step) || s == -qsin_spec(m * step));
    } else {
        if m == 0 {
            assert(quarter - 0 * step == 16 * step) by (nonlinear_arith)
                requires
                    step == 67108864,
                    quarter == 1073741824,
            ;
        }
        assert(s == qsin_spec(quarter - m * step) || s == -qsin_spec(quarter - m * step));
    }
    assert(s == t || s == -t);
    assert((-t) * (-t) == t * t) by (nonlinear_arith);
}

/// On every one of the 64 table grid phases, `sin^2 + cos^2` misses one
/// by less than the one-percent interpolation error budget.
pub proof fn lemma_pythagoras_at_grid(j: int)
    requires
        0 <= j < 64,
    ensures
        -((ONE * ONE) / 100) <= sin_spec(j * PHASE_STEP) * sin_spec(j * PHASE_STEP) + cos_spec(
            j * PHASE_STEP,
        ) * cos_spec(j * PHASE_STEP) - ONE * ONE <= (ONE * ONE) / 100,
{
    let step = PHASE_STEP as int;
    let full = FULL_TURN as int;
    let p = j * step;
    let j2 = if j + 16 < 64 { j + 16 } else { j - 48 };
    assert(j * step + PHASE_QUARTER == (j + 16) * step) by (nonlinear_arith)
        requires
            step == 67108864,
            PHASE_QUARTER == 1073741824,
    ;
    if j + 16 < 64 {
        assert(0 <= (j + 16) * step < full) by (nonlinear_arith)
            requires
                0 <= j + 16 < 64,
                step == 67108864,
                full == 4294967296,
        ;
        vstd::arithmetic::div_mod::lemma_small_mod(((j + 16) * step) as nat, full as nat);
        assert(cos_spec(p) == sin_spec(j2 * step));
    } else {
        vstd::arithmetic::div_mod::lemma_mod_sub_multiples_vanish((j + 16) * step, full);
        assert((j + 16) * step - full == (j - 48) * step) by (nonlinear_arith)
            requires
                step == 67108864,
                full == 4294967296,
        ;
        assert(0 <= (j - 48) * step < full) by (nonlinear_arith)
            requires
                48 <= j < 64,
                step == 67108864,
                full == 4294967296,
        ;
        vstd::arithmetic::div_mod::lemma_small_mod(((j - 48) * step) as nat, full as nat);
        assert(cos_spec(p) == sin_spec(j2 * step));
    }
    lemma_sin_squared_at_grid(j);
    lemma_sin_squared_at_grid(j2);
    let quad = j / 16;
    let m = j % 16;
    vstd::arithmetic::div_mod::lemma_fundamental_div_mod(j, 16);
    vstd::arithmetic::div_mod::lemma_mod_bound(j, 16);
    assert(j2 == 16 * ((quad + 1) % 4) + m) by (nonlinear_arith)
        requires
            j == 16 * quad + m,
            0 <= m < 16,
            0 <= j < 64,
            j2 == (if j + 16 < 64 { j + 16 } else { j - 48 }),
            0 <= quad < 4,
    ;
    vstd::arithmetic::div_mod::lemma_fundamental_div_mod_converse(j2, 16, (quad + 1) % 4, m);
    assert(grid_index_spec(j) + grid_index_spec(j2) == 16);
    lemma_grid_pair_bound(grid_index_spec(j));
}

/// The phase opposite to `phi`: the binary angle of `-phi`.
pub open spec fn neg_phase_spec(phi: int) -> int {
    (FULL_TURN as int - phi) % (FULL_TURN as int)
}

/// Periodicity: sine depends on its angle only through the angle modulo
/// one full turn, so adding a full turn never changes it.
pub proof fn lemma_sin_periodic(n: int)
    ensures
        sin_spec((n + FULL_TURN as int) % (FULL_TURN as int)) == sin_spec(
            n % (FULL_TURN as int),
        ),
{
    vstd::arithmetic::div_mod::lemma_mod_add_multiples_vanish(n, FULL_TURN as int);
}

/// Oddness: negating the phase negates the sine, exactly, for every
/// representable phase.
pub proof fn lemma_sin_odd(phi: u32)
    ensures
        sin_spec(neg_phase_spec(phi as int)) == -sin_spec(phi as int),
{
    let p = phi as int;
    let q = PHASE_QUARTER as int;
    let quad = p / q;
    let r = p % q;
    vstd::arithmetic::div_mod::lemma_fundamental_div_mod(p, q);
    vstd::arithmetic::div_mod::lemma_mod_bound(p, q);
    assert(0 <= quad < 4) by (nonlinear_arith)
        requires
            p == q * quad + r,
            0 <= r < q,
            0 <= p < 4 * q,
            q > 0,
    ;
    if p == 0 {
        assert(neg_phase_spec(0) == 0);
    } else {
        let n = (FULL_TURN as int - p) % (FULL_TURN as int);
        assert(n == FULL_TURN as int - p) by {
            vstd::arithmetic::div_mod::lemma_small_mod(
                (FULL_TURN as int - p) as nat,
                FULL_TURN as nat,
            );
        }
        if r == 0 {
            // p is a quadrant boundary: q, 2q or 3q.
            if quad == 1 {
                assert(n == 3 * q);
                assert(n / q == 3 && n % q == 0) by (nonlinear_arith)
                    requires
                        n == 3 * q,
                        q > 0,
                ;
                assert(sin_spec(n) == -qsin_spec(q));
                assert(sin_spec(p) == qsin_spec(q - 0));
            } else if quad == 2 {
                assert(n == 2 * q);
                assert(n / q == 2 && n % q == 0) by (nonlinear_arith)
                    requires
                        n == 2 * q,
                        q > 0,
                ;
                assert(qsin_spec(0) == 0);
            } else {
                assert(n == q);
                assert(n / q == 1 && n % q == 0) by (nonlinear_arith)
                    requires
                        n == q,
                        q > 0,
                ;
            }
        } else {
            // p lies strictly inside its quadrant.
            assert(n == (3 - quad) * q + (q - r));
            assert(n / q == 3 - quad && n % q == q - r) by (nonlinear_arith)
                requires
                    n == (3 - quad) * q + (q - r),
                    0 < q - r < q,
                    0 <= 3 - quad <= 3,
                    q > 0,
            ;
            assert(q - (q - r) == r);
        }
    }
}

} // verus!
