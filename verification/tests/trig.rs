use synth::config::{ONE, PHASE_QUARTER};
use synth::discrete_functions::{cos, factorial, generate_sin_table, sin, SinTable};

const ONE_SQ: i64 = 65536 * 65536;

#[test]
fn factorial_values() {
    assert_eq!(factorial(0), 1);
    assert_eq!(factorial(1), 1);
    assert_eq!(factorial(5), 120);
    assert_eq!(factorial(12), 479001600);
}

#[test]
fn table_shape() {
    let t = generate_sin_table();
    assert_eq!(t.len(), 17);
    assert_eq!(t[0], 0);
    assert_eq!(t[16], ONE);
    for i in 0..16 {
        assert!(t[i] < t[i + 1], "quarter table must rise");
    }
}

#[test]
fn sin_cardinal_values() {
    let t = SinTable::new();
    assert_eq!(sin(&t, 0), 0);
    assert_eq!(sin(&t, PHASE_QUARTER), ONE);
    assert_eq!(sin(&t, 2 * PHASE_QUARTER), 0);
    assert_eq!(sin(&t, 3u32.wrapping_mul(PHASE_QUARTER)), -ONE);
    assert_eq!(cos(&t, 0), ONE);
    assert_eq!(cos(&t, PHASE_QUARTER), 0);
}

#[test]
fn sin_eighth_turn() {
    let t = SinTable::new();
    // sin(pi/4) = 0.70711; the table interpolation must land close by
    let s = sin(&t, PHASE_QUARTER / 2);
    let expected = 46341;
    assert!((s - expected).abs() < 655, "sin(pi/4) = {s}");
}

#[test]
fn pythagorean_identity_sampled() {
    // sin^2 + cos^2 stays within one percent of one across the period,
    // including phases that fall between table entries
    let t = SinTable::new();
    let bound = ONE_SQ / 100;
    for i in 0..4096u32 {
        let phi = i.wrapping_mul(1048576).wrapping_add(i * 37);
        let s = sin(&t, phi);
        let c = cos(&t, phi);
        let err = s * s + c * c - ONE_SQ;
        assert!(err.abs() < bound, "identity off by {err} at phase {phi}");
    }
}

#[test]
fn sin_oddness_sampled() {
    // sin(-phi) == -sin(phi), exactly, for every sampled phase
    let t = SinTable::new();
    for i in 0..4096u32 {
        let phi = i.wrapping_mul(1048576).wrapping_add(i * 101);
        let neg = phi.wrapping_neg();
        assert_eq!(sin(&t, neg), -sin(&t, phi), "oddness broken at {phi}");
    }
}

#[test]
fn cos_is_shifted_sin() {
    let t = SinTable::new();
    for i in 0..512u32 {
        let phi = i.wrapping_mul(8388608).wrapping_add(999);
        assert_eq!(cos(&t, phi), sin(&t, phi.wrapping_add(PHASE_QUARTER)));
    }
}

#[test]
fn sin_periodicity_via_wraparound() {
    // one full turn is exactly the u32 range, so phases one period apart
    // are the same phase word and the same sample
    let t = SinTable::new();
    for i in 0..512u64 {
        let n = i * 7919 + 13;
        let reduced = (n % 4294967296) as u32;
        let shifted = ((n + 4294967296) % 4294967296) as u32;
        assert_eq!(sin(&t, reduced), sin(&t, shifted));
    }
}
