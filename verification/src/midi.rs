//! The MIDI event model: the channel-tagged events the engine routes,
//! and the bounded multi-producer/single-consumer event queue they
//! travel through. Producers that find the queue full hold their event
//! back and retry; nothing is ever silently dropped.
use vstd::prelude::*;

pub mod send;
pub mod sequencer;
pub mod usb;

verus! {

/// One MIDI-like event on the engine's bus.
#[derive(Debug, Clone, Copy, PartialEq, Eq, Structural)]
pub enum MidiEvent {
    NoteOn { channel: u8, note: u8, velocity: u8 },
    NoteOff { channel: u8, note: u8, velocity: u8 },
    ControlChange { channel: u8, control: u8, value: u8 },
}

impl MidiEvent {
    /// The channel the event is tagged with.
    pub open spec fn channel_of(&self) -> u8 {
        match *self {
            MidiEvent::NoteOn { channel, .. } => channel,
            MidiEvent::NoteOff { channel, .. } => channel,
            MidiEvent::ControlChange { channel, .. } => channel,
        }
    }

    /// What the MIDI wire format can carry: a four-bit channel and
    /// seven-bit data bytes.
    pub open spec fn wf(&self) -> bool {
        match *self {
            MidiEvent::NoteOn { channel, note, velocity } => channel < 16 && note <= 127
                && velocity <= 127,
            MidiEvent::NoteOff { channel, note, velocity } => channel < 16 && note <= 127
                && velocity <= 127,
            MidiEvent::ControlChange { channel, control, value } => channel < 16 && control <= 127
                && value <= 127,
        }
    }
}

/// The bounded event queue between the producers (analog polling, the
/// sequencer, the USB decoder) and the single consumer that drives the
/// voice. Events leave in exactly the order they entered.
pub struct EventQueue {
    items: Vec<MidiEvent>,
    capacity: usize,
}

impl EventQueue {
    /// The queued events, oldest first.
    pub closed spec fn contents(&self) -> Seq<MidiEvent> {
        self.items@
    }

    pub closed spec fn cap(&self) -> int {
        self.capacity as int
    }

    pub closed spec fn wf(&self) -> bool {
        &&& self.items@.len() <= self.capacity
        &&& 1 <= self.capacity
    }

    /// An empty queue holding at most `capacity` events.
    pub fn new(capacity: usize) -> (q: EventQueue)
        requires
            1 <= capacity,
        ensures
            q.wf(),
            q.cap() == capacity,
            q.contents() =~= Seq::<MidiEvent>::empty(),
    {
        EventQueue { items: Vec::new(), capacity }
    }

    pub fn len(&self) -> (r: usize)
        ensures
            r == self.contents().len(),
    {
        self.items.len()
    }

    /// Append an event at the back, unless the queue is full; a full
    /// queue back-pressures the producer, which must retry.
    pub fn try_enqueue(&mut self, event: MidiEvent) -> (accepted: bool)
        requires
            old(self).wf(),
        ensures
            final(self).wf(),
            final(self).cap() == old(self).cap(),
            accepted <==> old(self).contents().len() < old(self).cap(),
            accepted ==> final(self).contents() =~= old(self).contents().push(event),
            !accepted ==> final(self).contents() == old(self).contents(),
    {
        if self.items.len() < self.capacity {
            self.items.push(event);
            true
        } else {
            false
        }
    }

    /// Remove and return the oldest event, if any.
    pub fn dequeue(&mut self) -> (r: Option<MidiEvent>)
        requires
            old(self).wf(),
        ensures
            final(self).wf(),
            final(self).cap() == old(self).cap(),
            old(self).contents().len() == 0 ==> r is None && final(self).contents()
                == old(self).contents(),
            old(self).contents().len() > 0 ==> r == Some(old(self).contents()[0])
                && final(self).contents() =~= old(self).contents().subrange(
                1,
                old(self).contents().len() as int,
            ),
    {
        if self.items.len() == 0 {
            None
        } else {
            Some(self.items.remove(0))
        }
    }
}

} // verus!
