//! The note sequencer's decision core: a cyclic melody of scale keys
//! emitting a note-on and the matching note-off per beat. The periodic
//! timing (beat ticks, note duration) lives with the task that drives
//! it; this state machine only decides which events each beat carries.
use vstd::prelude::*;

verus! {

use crate::midi::MidiEvent;
use crate::oscillators::scales::SCALE_KEYS;

/// A fixed-tempo arpeggio over a cyclic melody.
pub struct Sequencer {
    melody: Vec<u8>,
    next: usize,
}

impl Sequencer {
    /// The melody as scale keys, in playing order.
    pub closed spec fn melody(&self) -> Seq<u8> {
        self.melody@
    }

    /// Index of the note the next beat will play.
    pub closed spec fn position(&self) -> int {
        self.next as int
    }

    pub closed spec fn wf(&self) -> bool {
        &&& 1 <= self.melody@.len()
        &&& self.next < self.melody@.len()
        &&& forall|i: int| 0 <= i < self.melody@.len() ==> #[trigger] self.melody@[i] < SCALE_KEYS
    }

    /// A sequencer at the top of the melody.
    pub fn new(melody: Vec<u8>) -> (s: Sequencer)
        requires
            1 <= melody@.len(),
            forall|i: int| 0 <= i < melody@.len() ==> #[trigger] melody@[i] < SCALE_KEYS,
        ensures
            s.wf(),
            s.melody() == melody@,
            s.position() == 0,
    {
        Sequencer { melody, next: 0 }
    }

    /// One beat: the note-on for the current melody note and the
    /// note-off that follows it, both at full velocity; the position
    /// advances cyclically.
    pub fn beat(&mut self) -> (r: (MidiEvent, MidiEvent))
        requires
            old(self).wf(),
        ensures
            final(self).wf(),
            final(self).melody() == old(self).melody(),
            r.0 == (MidiEvent::NoteOn {
                channel: 0,
                note: old(self).melody()[old(self).position()],
                velocity: 127,
            }),
            r.1 == (MidiEvent::NoteOff {
                channel: 0,
                note: old(self).melody()[old(self).position()],
                velocity: 127,
            }),
            final(self).position() == (old(self).position() + 1) % (
            old(self).melody().len() as int),
    {
        let note: u8 = self.melody[self.next];
        let len: usize = self.melody.len();
        self.next = (self.next + 1) % len;
        (
            MidiEvent::NoteOn { channel: 0, note, velocity: 127 },
            MidiEvent::NoteOff { channel: 0, note, velocity: 127 },
        )
    }
}

} // verus!
