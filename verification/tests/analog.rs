use synth::filters::traits::{Filter, Filterable};
use synth::input::{AdcFilter, AdcGate, AnalogInputBuilder, AnalogInputConfig};
use synth::midi::MidiEvent;

#[test]
fn adc_filter_computes_exact_fixed_point_average() {
    // alpha = 0.8 of the 2^16 weight budget
    let mut f = AdcFilter::new(52429);
    // y = (52429 * 4000 + 13107 * 0) / 65536
    assert_eq!(f.filter(4000), 3200);
    // y = (52429 * 4000 + 13107 * 3200) / 65536
    assert_eq!(f.filter(4000), 3840);
}

#[test]
fn raw_values_apply_through_the_conditioning_stages() {
    let mut f = AdcFilter::new(65536);
    let mut g = AdcGate::new(0, 0);
    assert_eq!(3200u16.apply(&mut f).apply(&mut g), Some(3200));
}

#[test]
fn adc_filter_full_weight_tracks_input() {
    // the full 2^16 weight budget means no filtering at all
    let mut f = AdcFilter::new(65536);
    assert_eq!(f.filter(4095), 4095);
    let mut g = AdcFilter::new(0);
    // a zero weight never moves off the initial average
    assert_eq!(g.filter(4095), 0);
}

#[test]
fn gate_opens_follows_and_closes() {
    let mut g = AdcGate::new(16, 8);
    // the first measurement jumps far from the initial value: open
    assert_eq!(g.filter(100), Some(100));
    // while open, every measurement passes and becomes the new anchor
    assert_eq!(g.filter(110), Some(110));
    // a measurement within the sustain threshold closes it again
    assert_eq!(g.filter(114), None);
    // closed: values near the anchor stay suppressed
    assert_eq!(g.filter(120), None);
    assert_eq!(g.filter(105), None);
    // only a move beyond the trigger threshold reopens
    assert_eq!(g.filter(131), Some(131));
}

#[test]
fn gate_stays_closed_for_noise_under_trigger() {
    let mut g = AdcGate::new(16, 8);
    assert_eq!(g.filter(1000), Some(1000));
    assert_eq!(g.filter(1000), None);
    // jitter around the baseline below the trigger threshold
    for x in [1004u16, 996, 1009, 991, 1015, 1001] {
        assert_eq!(g.filter(x), None, "gate reopened on noise {x}");
    }
    // an intentional move reopens
    assert_eq!(g.filter(1017), Some(1017));
}

#[test]
fn bank_polls_round_robin_and_emits_control_changes() {
    let config = AnalogInputConfig { alpha: 65536, trigger_threshold: 0, sustain_threshold: 0 };
    let mut bank = AnalogInputBuilder::new(config).add(14).add(15).build();
    assert_eq!(bank.channel_count(), 2);
    assert_eq!(bank.next_channel(), 0);
    // full weight passes the raw value through; 3200 / 32 = 100
    let e0 = bank.step(3200);
    assert_eq!(e0, Some(MidiEvent::ControlChange { channel: 0, control: 14, value: 100 }));
    assert_eq!(bank.next_channel(), 1);
    let e1 = bank.step(640);
    assert_eq!(e1, Some(MidiEvent::ControlChange { channel: 0, control: 15, value: 20 }));
    assert_eq!(bank.next_channel(), 0);
}

#[test]
fn quiet_channel_emits_nothing() {
    let config = AnalogInputConfig { alpha: 65536, trigger_threshold: 50, sustain_threshold: 20 };
    let mut bank = AnalogInputBuilder::new(config).add(14).build();
    // a measurement near zero never triggers
    assert_eq!(bank.step(30), None);
    assert_eq!(bank.step(40), None);
}
