use synth::midi::send::{send_control, send_note_off, send_note_on};
use synth::midi::sequencer::Sequencer;
use synth::midi::usb::{decode_packet, handle_usb_packet};
use synth::midi::{EventQueue, MidiEvent};

#[test]
fn queue_is_bounded_fifo() {
    let mut q = EventQueue::new(4);
    for note in 1..=4u8 {
        assert!(q.try_enqueue(MidiEvent::NoteOn { channel: 0, note, velocity: 100 }));
    }
    // a full queue back-pressures instead of dropping
    assert!(!q.try_enqueue(MidiEvent::NoteOn { channel: 0, note: 5, velocity: 100 }));
    for note in 1..=4u8 {
        assert_eq!(
            q.dequeue(),
            Some(MidiEvent::NoteOn { channel: 0, note, velocity: 100 }),
            "events must leave in arrival order"
        );
    }
    assert_eq!(q.dequeue(), None);
}

#[test]
fn senders_build_channel_one_events() {
    let mut q = EventQueue::new(4);
    assert!(send_note_on(&mut q, 49, 127));
    assert!(send_note_off(&mut q, 49, 64));
    assert!(send_control(&mut q, 15, 99));
    assert_eq!(q.dequeue(), Some(MidiEvent::NoteOn { channel: 0, note: 49, velocity: 127 }));
    assert_eq!(q.dequeue(), Some(MidiEvent::NoteOff { channel: 0, note: 49, velocity: 64 }));
    assert_eq!(q.dequeue(), Some(MidiEvent::ControlChange { channel: 0, control: 15, value: 99 }));
}

#[test]
fn sequencer_cycles_through_melody() {
    let mut s = Sequencer::new(vec![36, 39, 41]);
    for round in 0..2 {
        for &note in &[36u8, 39, 41] {
            let (on, off) = s.beat();
            assert_eq!(on, MidiEvent::NoteOn { channel: 0, note, velocity: 127 }, "round {round}");
            assert_eq!(off, MidiEvent::NoteOff { channel: 0, note, velocity: 127 });
        }
    }
}

#[test]
fn decode_note_on_packet() {
    // byte 0 is USB framing; 0x90 starts a channel-one note-on
    let packet = vec![0x09u8, 0x90, 49, 127];
    assert_eq!(
        decode_packet(&packet),
        Some(MidiEvent::NoteOn { channel: 0, note: 49, velocity: 127 })
    );
}

#[test]
fn decode_note_off_packet() {
    let packet = vec![0x08u8, 0x80, 49, 10];
    assert_eq!(
        decode_packet(&packet),
        Some(MidiEvent::NoteOff { channel: 0, note: 49, velocity: 10 })
    );
}

#[test]
fn decode_control_change_packet() {
    let packet = vec![0x0Bu8, 0xB0, 15, 64];
    assert_eq!(
        decode_packet(&packet),
        Some(MidiEvent::ControlChange { channel: 0, control: 15, value: 64 })
    );
}

#[test]
fn decode_channel_is_kept() {
    // 0x91: note-on on channel two
    let packet = vec![0x09u8, 0x91, 49, 127];
    assert_eq!(
        decode_packet(&packet),
        Some(MidiEvent::NoteOn { channel: 1, note: 49, velocity: 127 })
    );
}

#[test]
fn malformed_packet_is_discarded() {
    assert_eq!(decode_packet(&vec![0x00u8, 0x01]), None);
    assert_eq!(decode_packet(&vec![0x09u8, 0x90, 49]), None);
}

#[test]
fn usb_packets_are_routed_onto_the_queue() {
    let mut q = EventQueue::new(2);
    assert!(handle_usb_packet(&vec![0x09u8, 0x90, 49, 127], &mut q));
    assert!(!handle_usb_packet(&vec![0x00u8, 0x01], &mut q), "garbage parses to nothing");
    assert!(handle_usb_packet(&vec![0x08u8, 0x80, 49, 0], &mut q));
    // the queue is now full
    assert!(!handle_usb_packet(&vec![0x09u8, 0x90, 50, 127], &mut q));
    assert_eq!(q.dequeue(), Some(MidiEvent::NoteOn { channel: 0, note: 49, velocity: 127 }));
}
