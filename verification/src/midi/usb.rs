//! USB-MIDI packet decode: byte 0 of a packet is USB framing to skip;
//! the rest is a standard MIDI wire message. A packet that parses to a
//! channel-voice event is routed onto the event queue; anything else is
//! discarded, never an error that would stop the decode loop.
use vstd::prelude::*;

verus! {

use crate::midi::{EventQueue, MidiEvent};

/// What the MIDI wire parser makes of a byte sequence: the channel-voice
/// event it encodes, if any.
pub uninterp spec fn parsed_event(bytes: Seq<u8>) -> Option<MidiEvent>;

/// Relies on `midi_msg::MidiMsg::from_midi`: parses a standard MIDI wire
/// message, yielding seven-bit data bytes on success; the result depends
/// on the bytes alone. Only plain channel-voice messages (note on, note
/// off, simple control change) become events; everything else is `None`.
#[verifier::external_body]
fn parse_midi_bytes(bytes: &Vec<u8>) -> (r: Option<MidiEvent>)
    ensures
        r == parsed_event(bytes@),
        r matches Some(e) ==> e.wf(),
{
    match midi_msg::MidiMsg::from_midi(&bytes[..]) {
        Ok((midi_msg::MidiMsg::ChannelVoice { channel, msg }, _)) => match msg {
            midi_msg::ChannelVoiceMsg::NoteOn { note, velocity } => Some(
                MidiEvent::NoteOn { channel: channel as u8, note, velocity },
            ),
            midi_msg::ChannelVoiceMsg::NoteOff { note, velocity } => Some(
                MidiEvent::NoteOff { channel: channel as u8, note, velocity },
            ),
            midi_msg::ChannelVoiceMsg::ControlChange {
                control: midi_msg::ControlChange::CC { control, value },
            } => Some(MidiEvent::ControlChange { channel: channel as u8, control, value }),
            _ => None,
        },
        _ => None,
    }
}

/// Decode one USB-MIDI packet: skip the framing byte, parse the rest.
pub fn decode_packet(packet: &Vec<u8>) -> (r: Option<MidiEvent>)
    requires
        packet@.len() >= 1,
    ensures
        r == parsed_event(packet@.subrange(1, packet@.len() as int)),
        r matches Some(e) ==> e.wf(),
{
    let mut body: Vec<u8> = Vec::new();
    let mut i: usize = 1;
    while i < packet.len()
        invariant
            1 <= i <= packet@.len(),
            body@ =~= packet@.subrange(1, i as int),
        decreases packet@.len() - i,
    {
        body.push(packet[i]);
        i = i + 1;
    }
    proof {
        assert(body@ =~= packet@.subrange(1, packet@.len() as int));
    }
    parse_midi_bytes(&body)
}

/// Decode one packet and, if it carries an event, offer it to the
/// queue. Returns true exactly when an event was parsed and accepted.
pub fn handle_usb_packet(packet: &Vec<u8>, queue: &mut EventQueue) -> (accepted: bool)
    requires
        packet@.len() >= 1,
        old(queue).wf(),
    ensures
        final(queue).wf(),
        final(queue).cap() == old(queue).cap(),
        ({
            let parsed = parsed_event(packet@.subrange(1, packet@.len() as int));
            &&& accepted <==> (parsed is Some && old(queue).contents().len() < old(queue).cap())
            &&& accepted ==> final(queue).contents() =~= old(queue).contents().push(
                parsed->Some_0,
            )
            &&& !accepted ==> final(queue).contents() == old(queue).contents()
        }),
{
    match decode_packet(packet) {
        Some(event) => queue.try_enqueue(event),
        None => false,
    }
}

} // verus!
