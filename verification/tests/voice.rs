use synth::config::ONE;
use synth::envelope::ADSRStage;
use synth::midi::MidiEvent;
use synth::oscillators::scales::freq;
use synth::synth::{linear_map, log_map, Voice};

fn expected_increment(f_set: i64, f_ref: i64) -> u32 {
    // the effective frequency scaled by the oscillator's reference,
    // then turned into binary-angle units per sample
    let eff = f_set as u64 * f_ref as u64 / 28835840;
    (eff * 65536 / 41000) as u32
}

#[test]
fn note_on_retunes_all_pitched_oscillators() {
    let mut v = Voice::new();
    v.handle_midi(MidiEvent::NoteOn { channel: 0, note: 49, velocity: 127 });
    assert_eq!(v.current_note(), Some(49));
    assert!(matches!(v.envelope().stage, ADSRStage::Attack));
    let incs = v.oscillator_increments();
    assert_eq!(incs.len(), 5);
    // the first sawtooth pair is referenced at A4, the second at A3:
    // the same key sounds an octave apart between the pairs
    let at_a4 = expected_increment(freq(49), freq(49));
    let at_a3 = expected_increment(freq(49), freq(37));
    assert_eq!(incs[0], at_a4, "440 Hz at the A4 reference");
    assert_eq!(incs[1], at_a4);
    assert_eq!(incs[2], at_a3, "one octave down at the A3 reference");
    assert_eq!(incs[3], at_a3);
    // one full turn per 440 Hz cycle: about 41000 / 440 samples
    assert!((incs[0] as f64 / 4294967296.0 - 440.0 / 41000.0).abs() < 1e-4);
    assert_eq!(incs[4], 0, "noise has no phase");
    // generating one sample must not move the increments
    v.generate();
    assert_eq!(v.oscillator_increments()[0], at_a4);
}

#[test]
fn note_off_releases_to_idle() {
    let mut v = Voice::new();
    v.handle_midi(MidiEvent::NoteOn { channel: 0, note: 49, velocity: 127 });
    v.generate();
    v.handle_midi(MidiEvent::NoteOff { channel: 0, note: 49, velocity: 0 });
    assert_eq!(v.current_note(), None);
    assert!(matches!(v.envelope().stage, ADSRStage::Release));
    // release_time / dt = 0.2 s * 41000 samples per second
    for _ in 0..8200 {
        v.generate();
    }
    assert_eq!(v.envelope().level, 0);
    assert!(matches!(v.envelope().stage, ADSRStage::Idle));
}

#[test]
fn cutoff_control_lands_on_log_curve() {
    let mut v = Voice::new();
    v.handle_midi(MidiEvent::ControlChange { channel: 0, control: 15, value: 64 });
    let cutoff_hz = v.low_pass_cutoff() as f64 / 65536.0;
    let expected = 2f64.powf(7.0 + (14.0 - 7.0) * 64.0 / 127.0);
    let rel = (cutoff_hz - expected).abs() / expected;
    assert!(rel < 0.01, "cutoff {cutoff_hz} Hz vs {expected} Hz");
}

#[test]
fn cutoff_control_spans_seven_octaves() {
    let mut v = Voice::new();
    v.handle_midi(MidiEvent::ControlChange { channel: 0, control: 15, value: 0 });
    let low = v.low_pass_cutoff() as f64 / 65536.0;
    assert!((low - 128.0).abs() < 1.0, "bottom of the cutoff range {low}");
    v.handle_midi(MidiEvent::ControlChange { channel: 0, control: 15, value: 127 });
    let high = v.low_pass_cutoff() as f64 / 65536.0;
    assert!((high - 16384.0).abs() / 16384.0 < 0.01, "top of the cutoff range {high}");
}

#[test]
fn resonance_control_lands_on_log_curve() {
    let mut v = Voice::new();
    v.handle_midi(MidiEvent::ControlChange { channel: 0, control: 16, value: 127 });
    let q = v.low_pass_q() as f64 / 65536.0;
    assert!((q - 4.0).abs() / 4.0 < 0.01, "resonance {q}");
}

#[test]
fn envelope_time_controls() {
    let mut v = Voice::new();
    v.handle_midi(MidiEvent::ControlChange { channel: 0, control: 19, value: 127 });
    // 10^0 seconds saturates exactly at one
    assert_eq!(v.envelope().attack_time, ONE);
    v.handle_midi(MidiEvent::ControlChange { channel: 0, control: 23, value: 0 });
    let e = v.envelope();
    assert_eq!(e.attack_time, 7);
    assert_eq!(e.decay_time, 7);
    assert_eq!(e.release_time, 7);
}

#[test]
fn detune_splits_oscillator_pairs() {
    let mut v = Voice::new();
    v.handle_midi(MidiEvent::NoteOn { channel: 0, note: 49, velocity: 127 });
    let base = v.oscillator_increments();
    v.handle_midi(MidiEvent::ControlChange { channel: 0, control: 14, value: 127 });
    let incs = v.oscillator_increments();
    for j in [0usize, 2] {
        assert!(incs[j] > base[j], "even partner tuned up: {} vs {}", incs[j], base[j]);
        assert!(incs[j + 1] < base[j + 1], "odd partner tuned down");
    }
    // 1.1^5 up and down: the pair splits by about 61 percent either way
    let up = incs[0] as f64 / base[0] as f64;
    let down = incs[1] as f64 / base[1] as f64;
    assert!((up - 1.61051).abs() < 0.01, "up ratio {up}");
    assert!((down - 1.0 / 1.61051).abs() < 0.01, "down ratio {down}");
}

#[test]
fn unknown_control_and_wrong_channel_are_ignored() {
    let mut v = Voice::new();
    let cutoff = v.low_pass_cutoff();
    v.handle_midi(MidiEvent::ControlChange { channel: 0, control: 99, value: 5 });
    v.handle_midi(MidiEvent::NoteOn { channel: 3, note: 49, velocity: 127 });
    assert_eq!(v.low_pass_cutoff(), cutoff);
    assert_eq!(v.current_note(), None);
    assert!(matches!(v.envelope().stage, ADSRStage::Idle));
}

#[test]
fn linear_map_endpoints_and_midpoint() {
    assert_eq!(linear_map(0, 1000, 2000), 1000);
    assert_eq!(linear_map(127, 1000, 2000), 2000);
    assert_eq!(linear_map(64, 0, 127), 64);
    assert_eq!(linear_map(127, -500, 500), 500);
}

#[test]
fn log_map_endpoints() {
    // the cutoff curve: 128 Hz at the bottom of the control range
    assert_eq!(log_map(0, 8388608, 68088, 1310720000), 8388608);
    let top = log_map(127, 8388608, 68088, 1310720000) as f64;
    let expected = 16384.0 * 65536.0;
    assert!((top - expected).abs() / expected < 0.01, "top {top}");
}
