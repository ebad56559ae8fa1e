use synth::envelope::{ADSREnvelope, ADSRStage, Envelope, LEVEL_ONE};
use synth::filters::traits::Filter;

fn default_env() -> ADSREnvelope {
    // 10 ms attack, 10 ms decay, 0.6 sustain, 200 ms release
    ADSREnvelope::new(655, 655, 39322, 13107)
}

/// The ideal sample count of a ramp over `time_q` seconds (Q16.16),
/// rounded up: `ceil(time * rate)`.
fn ideal_steps(time_q: i64) -> i64 {
    (41000 * time_q + 65535) / 65536
}

#[test]
fn fresh_envelope_is_idle_and_silent() {
    let mut e = default_env();
    assert!(matches!(e.stage, ADSRStage::Idle));
    assert_eq!(e.level, 0);
    assert_eq!(e.filter(50000), 0);
}

#[test]
fn attack_reaches_full_level_in_the_ideal_step_count() {
    let mut e = default_env();
    e.note_on(49, 127);
    assert!(matches!(e.stage, ADSRStage::Attack));
    let expected_steps = ideal_steps(655);
    assert_eq!(expected_steps, 410);
    let mut steps = 0i64;
    while e.level < LEVEL_ONE {
        e.filter(0);
        steps += 1;
        assert!(steps <= expected_steps, "attack too slow");
    }
    assert_eq!(steps, expected_steps);
    assert!(matches!(e.stage, ADSRStage::DecaySustain));
    assert_eq!(e.level, LEVEL_ONE);
}

#[test]
fn one_second_attack_lands_on_the_sample_grid() {
    // one full second of attack: exactly rate samples, the case a
    // coarser per-sample increment would miss by tens of percent
    let mut e = ADSREnvelope::new(65536, 655, 39322, 13107);
    e.note_on(49, 127);
    let mut steps = 0i64;
    while e.level < LEVEL_ONE {
        e.filter(0);
        steps += 1;
        assert!(steps <= 41001, "attack too slow");
    }
    assert_eq!(steps, 41000);
}

#[test]
fn release_from_sustain_takes_the_ideal_step_count() {
    // start directly in Release at the sustain level, remainder fresh
    let mut e = ADSREnvelope {
        attack_time: 655,
        decay_time: 655,
        sustain_level: 39322,
        release_time: 13107,
        stage: ADSRStage::Release,
        level: 39322 * 65536,
        frac: 0,
    };
    let expected_steps = ideal_steps(13107);
    assert_eq!(expected_steps, 8200);
    let mut steps = 0i64;
    while !matches!(e.stage, ADSRStage::Idle) {
        e.filter(0);
        steps += 1;
        assert!(steps <= expected_steps, "release too slow");
    }
    assert_eq!(steps, expected_steps);
    assert_eq!(e.level, 0);
}

#[test]
fn release_never_raises_the_level() {
    let mut e = default_env();
    e.note_on(49, 127);
    for _ in 0..1000 {
        e.filter(0);
    }
    e.note_off(49, 127);
    assert!(matches!(e.stage, ADSRStage::Release));
    let mut last = e.level;
    loop {
        e.filter(0);
        if matches!(e.stage, ADSRStage::Idle) {
            break;
        }
        assert!(e.level <= last, "release must never rise");
        last = e.level;
    }
    assert_eq!(e.level, 0);
}

#[test]
fn note_off_interrupts_attack() {
    let mut e = default_env();
    e.note_on(49, 127);
    for _ in 0..5 {
        e.filter(0);
    }
    e.note_off(49, 127);
    assert!(matches!(e.stage, ADSRStage::Release));
}

#[test]
fn decay_moves_level_toward_sustain() {
    let mut e = default_env();
    e.note_on(49, 127);
    while !matches!(e.stage, ADSRStage::DecaySustain) {
        e.filter(0);
    }
    for _ in 0..200000 {
        e.filter(0);
    }
    assert!(matches!(e.stage, ADSRStage::DecaySustain));
    assert!(e.level >= e.sustain_level * 65536, "level fell under sustain");
    assert!(e.level < LEVEL_ONE, "level never decayed");
}

#[test]
fn filter_scales_input_by_level() {
    let mut e = default_env();
    e.note_on(49, 127);
    while e.level < LEVEL_ONE {
        e.filter(0);
    }
    // level is exactly one entering decay; the very next sample decays a
    // touch, so scaling tracks the fresh level
    let y = e.filter(40000);
    let expected = 40000 * e.level / LEVEL_ONE;
    assert_eq!(y, expected);
}
