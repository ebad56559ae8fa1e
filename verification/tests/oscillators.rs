use synth::config::ONE;
use synth::oscillators::notes;
use synth::oscillators::oscillators::{noise_sample, Noise, PWMOscillator, SawToothOscillator};
use synth::oscillators::phaser::PhaseGenerator;
use synth::oscillators::scales::{create_tempered_scale, freq, REFERENCE_FREQ};
use synth::oscillators::traits::{Generator, Oscillator};

fn expected_increment(freq_q: u64) -> u32 {
    // eff = f_set * f_ref / REF with f_ref == REF, then turns per sample
    (freq_q * 65536 / 41000) as u32
}

#[test]
fn phase_accumulates_modulo_turn() {
    let mut pg = PhaseGenerator::new(REFERENCE_FREQ);
    pg.set_frequency(REFERENCE_FREQ);
    let d = pg.current_increment();
    assert_eq!(d, expected_increment(REFERENCE_FREQ as u64));
    let n: u64 = 100000;
    for _ in 0..n {
        pg.generate();
    }
    let expected = ((n * d as u64) % 4294967296) as u32;
    assert_eq!(pg.generate(), expected, "phase after {n} steps");
}

#[test]
fn phase_reset_zeroes_phase_only() {
    let mut pg = PhaseGenerator::new(REFERENCE_FREQ);
    pg.set_frequency(2 * REFERENCE_FREQ);
    let d = pg.current_increment();
    for _ in 0..17 {
        pg.generate();
    }
    pg.reset();
    assert_eq!(pg.generate(), 0);
    assert_eq!(pg.current_increment(), d);
}

#[test]
fn tempered_scale_anchor_and_octaves() {
    let scale = create_tempered_scale();
    assert_eq!(scale.len(), 88);
    assert_eq!(scale[notes::A4 as usize], REFERENCE_FREQ);
    assert_eq!(freq(notes::A4), REFERENCE_FREQ);
    // one octave up doubles the frequency, within rounding
    let a5 = freq(notes::A5) as f64;
    let ratio = a5 / (2.0 * REFERENCE_FREQ as f64);
    assert!((ratio - 1.0).abs() < 0.001, "octave ratio {ratio}");
    // the lowest key of the piano is A0 at 27.5 Hz
    let a0 = freq(notes::A0) as f64 / 65536.0;
    assert!((a0 - 27.5).abs() < 0.1, "A0 = {a0} Hz");
}

#[test]
fn sawtooth_ramps_over_period() {
    let mut o = SawToothOscillator::new(REFERENCE_FREQ);
    // with a zero increment the phase stays at zero: the ramp bottom
    assert_eq!(o.generate(), -ONE);
    o.set_frequency(REFERENCE_FREQ);
    let mut last = -ONE - 1;
    for _ in 0..50 {
        let s = o.generate();
        assert!(s > last, "saw must rise within one period");
        assert!((-ONE..=ONE).contains(&s));
        last = s;
    }
}

#[test]
fn pwm_starts_high_with_half_duty() {
    let mut o = PWMOscillator::new(REFERENCE_FREQ, ONE / 2);
    o.set_frequency(REFERENCE_FREQ);
    let first = o.generate();
    assert_eq!(first, ONE);
    // over a few periods both levels appear
    let mut highs = 0;
    let mut lows = 0;
    for _ in 0..400 {
        match o.generate() {
            v if v == ONE => highs += 1,
            v if v == -ONE => lows += 1,
            v => panic!("pwm produced {v}"),
        }
    }
    assert!(highs > 0 && lows > 0);
}

#[test]
fn noise_word_mapping_is_twos_complement() {
    // the drawn word is reinterpreted as a signed 32-bit value and
    // scaled by its largest positive value onto [-1.0, 1.0]
    assert_eq!(noise_sample(0), 0);
    assert_eq!(noise_sample(2147483647), ONE);
    assert_eq!(noise_sample(2147483648), -ONE);
    assert_eq!(noise_sample(4294967295), 0);
    assert_eq!(noise_sample(1073741824), ONE / 2);
}

#[test]
fn noise_is_bounded_and_not_constant() {
    let mut o = Noise::new(0xBAD_5EED);
    let first = o.generate();
    let mut saw_other = false;
    for _ in 0..1000 {
        let s = o.generate();
        assert!((-ONE..=ONE).contains(&s));
        if s != first {
            saw_other = true;
        }
    }
    assert!(saw_other, "noise must vary");
}

#[test]
fn noise_ignores_pitch_commands() {
    let mut a = Noise::new(7);
    let mut b = Noise::new(7);
    a.tune(2 * ONE);
    a.set_frequency(REFERENCE_FREQ);
    a.set_note(10);
    a.reset();
    // the pseudo-random streams stay in lockstep
    for _ in 0..64 {
        assert_eq!(a.generate(), b.generate());
    }
}
