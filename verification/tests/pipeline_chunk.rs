use synth::config::CHUNK_SAMPLES;
use synth::midi::MidiEvent;
use synth::pipeline::{new_chunk_buffer, to_frame, ChunkBuffer};
use synth::synth::Voice;

#[test]
fn frame_conversion_scales_and_clamps() {
    assert_eq!(to_frame(0), [0, 0]);
    assert_eq!(to_frame(65536), [16383, 16383]);
    assert_eq!(to_frame(-65536), [-16383, -16383]);
    assert_eq!(to_frame(32768), [8191, 8191]);
    assert_eq!(to_frame(-32768), [-8191, -8191]);
    // out-of-range samples clamp to the same extremes
    assert_eq!(to_frame(99999999), [16383, 16383]);
    assert_eq!(to_frame(-99999999), [-16383, -16383]);
}

#[test]
fn fresh_chunk_buffer_is_silent() {
    let b = new_chunk_buffer();
    assert_eq!(b.len(), CHUNK_SAMPLES);
    assert!(b.iter().all(|f| *f == [0, 0]));
}

#[test]
fn partial_consumption_rotates_the_tail_forward() {
    let mut voice = Voice::new();
    voice.handle_midi(MidiEvent::NoteOn { channel: 0, note: 49, velocity: 127 });
    let mut chunk = ChunkBuffer::new();
    chunk.fill(&mut voice);
    let before = chunk.chunk().clone();
    // the sink took only 100 of the 256 frames
    let written = 100usize;
    chunk.consume(written);
    let after = chunk.chunk();
    assert_eq!(after.len(), CHUNK_SAMPLES);
    for i in 0..CHUNK_SAMPLES - written {
        assert_eq!(after[i], before[i + written], "tail must move to the front");
    }
    for i in 0..written {
        assert_eq!(after[CHUNK_SAMPLES - written + i], before[i]);
    }
    assert_eq!(chunk.start_offset(), CHUNK_SAMPLES - written);
    // the next fill regenerates exactly the consumed count of frames
    let preserved = after[..CHUNK_SAMPLES - written].to_vec();
    chunk.fill(&mut voice);
    assert_eq!(&chunk.chunk()[..CHUNK_SAMPLES - written], &preserved[..]);
}

#[test]
fn full_consumption_restarts_the_chunk() {
    let mut voice = Voice::new();
    let mut chunk = ChunkBuffer::new();
    chunk.fill(&mut voice);
    chunk.consume(CHUNK_SAMPLES);
    assert_eq!(chunk.start_offset(), 0);
}

#[test]
fn idle_voice_renders_silence() {
    let mut voice = Voice::new();
    let mut chunk = ChunkBuffer::new();
    chunk.fill(&mut voice);
    // the envelope idles at level zero, so every frame is silent
    assert!(chunk.chunk().iter().all(|f| *f == [0, 0]));
}
