use synth::config::ONE;
use synth::filters::pass::{BiquadLowPassFilter, DF2Filter};
use synth::filters::traits::{chain_filters, Filter, Filterable};
use synth::filters::volume::{Amplifier, Mixer, CLAMP_LIMIT};

#[test]
fn df2_identity_coefficients_pass_input_through() {
    let mut f = DF2Filter::new(vec![ONE, 0, 0], vec![ONE, 0, 0]);
    for x in [0i64, 1, -1, 12345, -98765, 1073741824, -1073741824] {
        assert_eq!(f.filter(x), x, "identity filter changed {x}");
    }
}

#[test]
fn df2_pure_gain() {
    // b = [2, 0, 0] doubles every sample; no feedback, no memory
    let mut f = DF2Filter::new(vec![ONE, 0, 0], vec![2 * ONE, 0, 0]);
    assert_eq!(f.filter(1000), 2000);
    assert_eq!(f.filter(-300), -600);
}

#[test]
fn df2_normalizes_by_leading_coefficient() {
    // a0 = 2 halves both vectors: b0/a0 = 1, so this is the identity
    let mut f = DF2Filter::new(vec![2 * ONE, 0, 0], vec![2 * ONE, 0, 0]);
    assert_eq!(f.filter(4242), 4242);
}

#[test]
fn df2_feedforward_delay() {
    // y[n] = x[n] + x[n-1]: b = [1, 1, 0], no feedback
    let mut f = DF2Filter::new(vec![ONE, 0, 0], vec![ONE, ONE, 0]);
    assert_eq!(f.filter(100), 100);
    assert_eq!(f.filter(0), 100);
    assert_eq!(f.filter(0), 0);
}

#[test]
fn amplifier_scales_and_clamps() {
    let mut a = Amplifier::new();
    // a fresh amplifier is silent
    assert_eq!(a.filter(12345), 0);
    a.set_gain(ONE);
    assert_eq!(a.filter(4321), 4321);
    a.set_gain(2 * ONE);
    assert_eq!(a.filter(1000), 2000);
    assert_eq!(a.filter(40000), CLAMP_LIMIT);
    assert_eq!(a.filter(-40000), -CLAMP_LIMIT);
}

#[test]
fn mixer_averages_channels() {
    let mut m = Mixer::<2>::new();
    assert_eq!(m.filter([ONE, ONE]), ONE);
    assert_eq!(m.filter([ONE, -ONE]), 0);
    let mut m4 = Mixer::<4>::new();
    assert_eq!(m4.filter([ONE, ONE, ONE, ONE]), ONE);
}

#[test]
fn chain_composes_left_to_right() {
    let mut gain2 = Amplifier::new();
    gain2.set_gain(2 * ONE);
    let mut gain3 = Amplifier::new();
    gain3.set_gain(3 * ONE);
    let mut chained = chain_filters(gain2, gain3);
    assert_eq!(chained.filter(100), 600);
    assert_eq!(200i64.apply(&mut chained), 1200);
}

#[test]
fn biquad_lowpass_getters_follow_setters() {
    let mut lp = BiquadLowPassFilter::new();
    assert_eq!(lp.cutoff_freq(), 28835840);
    // the default resonance is 0.72 in Q16.16
    assert_eq!(lp.resonance_q(), 47186);
    lp.set_cutoff(1000000);
    assert_eq!(lp.cutoff_freq(), 1000000);
    lp.set_q(ONE);
    assert_eq!(lp.resonance_q(), ONE);
}

#[test]
fn biquad_lowpass_settles_on_dc() {
    // a constant input settles to a constant: the leading feedforward
    // weight rides inside the recursion, so the passband gain sits near
    // a quarter rather than unity, but it must be steady and positive
    let mut lp = BiquadLowPassFilter::new();
    let mut y = 0i64;
    for _ in 0..4000 {
        y = lp.filter(10000);
    }
    let settled = lp.filter(10000);
    assert_eq!(settled, y, "dc response must be steady");
    assert!((2000..3000).contains(&y), "dc response {y}");
}

#[test]
fn biquad_lowpass_attenuates_fast_alternation() {
    // the Nyquist-rate square wave is far above any audible cutoff
    let mut lp = BiquadLowPassFilter::new();
    lp.set_cutoff(440 * ONE);
    let mut x = 10000i64;
    let mut peak = 0i64;
    for i in 0..4000 {
        let y = lp.filter(x);
        if i > 2000 {
            peak = peak.max(y.abs());
        }
        x = -x;
    }
    assert!(peak < 100, "alternating input leaked {peak}");
}
