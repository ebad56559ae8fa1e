//! Producers' view of the event bus: build a channel-one event and
//! offer it to the queue. A `false` return means the queue was full and
//! the caller must hold the event and retry.
use vstd::prelude::*;

verus! {

use crate::midi::{EventQueue, MidiEvent};

/// Offer a control-change event on channel one.
pub fn send_control(queue: &mut EventQueue, control: u8, value: u8) -> (accepted: bool)
    requires
        old(queue).wf(),
    ensures
        final(queue).wf(),
        final(queue).cap() == old(queue).cap(),
        accepted <==> old(queue).contents().len() < old(queue).cap(),
        accepted ==> final(queue).contents() =~= old(queue).contents().push(
            MidiEvent::ControlChange { channel: 0, control, value },
        ),
        !accepted ==> final(queue).contents() == old(queue).contents(),
{
    queue.try_enqueue(MidiEvent::ControlChange { channel: 0, control, value })
}

/// Offer a note-on event on channel one.
pub fn send_note_on(queue: &mut EventQueue, note: u8, velocity: u8) -> (accepted: bool)
    requires
        old(queue).wf(),
    ensures
        final(queue).wf(),
        final(queue).cap() == old(queue).cap(),
        accepted <==> old(queue).contents().len() < old(queue).cap(),
        accepted ==> final(queue).contents() =~= old(queue).contents().push(
            MidiEvent::NoteOn { channel: 0, note, velocity },
        ),
        !accepted ==> final(queue).contents() == old(queue).contents(),
{
    queue.try_enqueue(MidiEvent::NoteOn { channel: 0, note, velocity })
}

/// Offer a note-off event on channel one.
pub fn send_note_off(queue: &mut EventQueue, note: u8, velocity: u8) -> (accepted: bool)
    requires
        old(queue).wf(),
    ensures
        final(queue).wf(),
        final(queue).cap() == old(queue).cap(),
        accepted <==> old(queue).contents().len() < old(queue).cap(),
        accepted ==> final(queue).contents() =~= old(queue).contents().push(
            MidiEvent::NoteOff { channel: 0, note, velocity },
        ),
        !accepted ==> final(queue).contents() == old(queue).contents(),
{
    queue.try_enqueue(MidiEvent::NoteOff { channel: 0, note, velocity })
}

} // verus!
