use ears::vad::{Hysteresis, SegmentAssembler, VadResult, SILERO_FRAME_SIZE, SILERO_SAMPLE_RATE};

fn silence(ms: usize) -> Vec<f32> {
    vec![0.0; SILERO_SAMPLE_RATE * ms / 1000]
}

fn feed_silence(a: &mut SegmentAssembler<f32>, samples: &[f32]) -> usize {
    a.push_samples(samples);
    let mut segments = 0;
    while let Some(frame) = a.next_frame() {
        if a.on_frame(frame, VadResult::Silence).is_some() {
            segments += 1;
        }
    }
    segments
}

#[test]
fn test_hysteresis_min_speech_duration() {
    let mut vad = Hysteresis::new(SILERO_SAMPLE_RATE, 320, 700);
    for _ in 0..5 {
        assert_eq!(vad.step(true), VadResult::Silence, "Should not trigger speech yet");
    }
    assert!(!vad.is_speaking());
    assert!(vad.is_probably_speaking());
    for _ in 0..4 {
        assert_eq!(vad.step(true), VadResult::Silence);
    }
    assert_eq!(vad.step(true), VadResult::Speech);
    assert!(vad.is_speaking());
}

#[test]
fn test_hysteresis_max_silence_duration() {
    let mut vad = Hysteresis::new(SILERO_SAMPLE_RATE, 32, 96);
    assert_eq!(vad.step(true), VadResult::Speech);
    assert_eq!(vad.step(false), VadResult::Speech, "One frame of silence should not end speech");
    assert_eq!(vad.step(false), VadResult::Speech);
    assert_eq!(vad.step(false), VadResult::Silence);
    assert!(!vad.is_speaking());
}

#[test]
fn test_default_hysteresis_tolerates_one_second_pause() {
    let mut vad = Hysteresis::new(SILERO_SAMPLE_RATE, 300, 1200);
    for _ in 0..10 {
        vad.step(true);
    }
    assert!(vad.is_speaking());
    for _ in 0..31 {
        assert_eq!(vad.step(false), VadResult::Speech);
    }
    vad.reset();
    assert!(!vad.is_speaking());
}

#[test]
fn test_segment_detector_silence_no_segment() {
    let mut a: SegmentAssembler<f32> = SegmentAssembler::new(SILERO_SAMPLE_RATE, 500);
    assert_eq!(feed_silence(&mut a, &silence(2000)), 0);
    assert!(!a.in_segment());
}

#[test]
fn test_segment_detector_reframe_buffer() {
    let mut a: SegmentAssembler<f32> = SegmentAssembler::new(SILERO_SAMPLE_RATE, 500);
    let chunk = silence(100);
    assert_eq!(chunk.len(), 1600);
    feed_silence(&mut a, &chunk);
    assert_eq!(a.pending_len(), 64);
    feed_silence(&mut a, &chunk);
    assert_eq!(a.pending_len(), 128);
}

#[test]
fn test_segment_detector_reset() {
    let mut a: SegmentAssembler<f32> = SegmentAssembler::new(SILERO_SAMPLE_RATE, 500);
    feed_silence(&mut a, &silence(500));
    assert!(a.pending_len() > 0 || a.processed_ms() > 0);
    a.reset();
    assert!(!a.in_segment());
    assert_eq!(a.processed_ms(), 0);
    assert_eq!(a.pending_len(), 0);
    assert_eq!(a.replay_len(), 0);
}

#[test]
fn test_pre_speech_buffer_capacity() {
    let a: SegmentAssembler<f32> = SegmentAssembler::new(SILERO_SAMPLE_RATE, 500);
    assert_eq!(a.replay_capacity_samples(), 8000);
    let a: SegmentAssembler<f32> = SegmentAssembler::new(SILERO_SAMPLE_RATE, 1000);
    assert_eq!(a.replay_capacity_samples(), 16000);
}

#[test]
fn test_pre_speech_buffer_fills_during_silence() {
    let mut a: SegmentAssembler<f32> = SegmentAssembler::new(SILERO_SAMPLE_RATE, 200);
    feed_silence(&mut a, &silence(100));
    assert_eq!(a.replay_len(), 1536);
}

#[test]
fn test_pre_speech_buffer_evicts_old_samples() {
    let mut a: SegmentAssembler<f32> = SegmentAssembler::new(SILERO_SAMPLE_RATE, 100);
    feed_silence(&mut a, &silence(500));
    assert!(a.replay_len() <= a.replay_capacity_samples());
    assert_eq!(a.replay_len(), 1600);
}

#[test]
fn test_pre_speech_buffer_cleared_on_reset() {
    let mut a: SegmentAssembler<f32> = SegmentAssembler::new(SILERO_SAMPLE_RATE, 500);
    feed_silence(&mut a, &silence(300));
    assert!(a.replay_len() > 0);
    a.reset();
    assert_eq!(a.replay_len(), 0);
}

#[test]
fn speech_segment_includes_replay_and_timing() {
    let mut a: SegmentAssembler<i16> = SegmentAssembler::new(SILERO_SAMPLE_RATE, 100);
    let frame = vec![0i16; SILERO_FRAME_SIZE];
    for _ in 0..4 {
        assert!(a.on_frame(frame.clone(), VadResult::Silence).is_none());
    }
    assert_eq!(a.processed_ms(), 128);
    assert_eq!(a.replay_len(), 1600);
    assert!(a.on_frame(vec![1i16; SILERO_FRAME_SIZE], VadResult::Speech).is_none());
    assert!(a.in_segment());
    assert_eq!(a.replay_len(), 0);
    assert!(a.on_frame(vec![2i16; SILERO_FRAME_SIZE], VadResult::Speech).is_none());
    let seg = a.on_frame(frame.clone(), VadResult::Silence).unwrap();
    assert_eq!(seg.samples.len(), 1600 + 2 * SILERO_FRAME_SIZE);
    assert_eq!(seg.start_ms, 128 - 100);
    assert_eq!(seg.end_ms, 192);
    assert_eq!(seg.samples[1600], 1);
    assert!(!a.in_segment());
}

#[test]
fn reframing_keeps_the_remainder_and_advances_time_per_frame() {
    let mut a: SegmentAssembler<f32> = SegmentAssembler::new(SILERO_SAMPLE_RATE, 500);
    let frames = a.take_frames(&vec![0.0f32; 1600]);
    assert_eq!(frames.len(), 3);
    assert!(frames.iter().all(|f| f.len() == SILERO_FRAME_SIZE));
    assert_eq!(a.pending_len(), 64);
    for f in frames {
        assert!(a.on_frame(f, VadResult::Silence).is_none());
    }
    assert_eq!(a.processed_ms(), 96);
    let frames = a.take_frames(&vec![0.0f32; 1600]);
    assert_eq!(frames.len(), 3);
    assert_eq!(a.pending_len(), 128);
    assert!(a.replay_len() <= a.replay_capacity_samples());
}

#[test]
fn one_detector_call_keeps_the_remainder_and_counts_frames() {
    let mut a: SegmentAssembler<f32> = SegmentAssembler::new(SILERO_SAMPLE_RATE, 500);
    let frames = a.take_frames(&vec![0.0f32; 1600]);
    let n = frames.len();
    assert!(a.on_frames(frames, &vec![VadResult::Silence; n]).is_none());
    assert_eq!(a.pending_len(), 64);
    assert_eq!(a.processed_ms(), 96);
    let frames = a.take_frames(&vec![0.0f32; 1600]);
    let n = frames.len();
    assert!(a.on_frames(frames, &vec![VadResult::Silence; n]).is_none());
    assert_eq!(a.pending_len(), 128);
    assert_eq!(a.processed_ms(), 192);
    assert!(a.replay_len() <= 8000);
}

#[test]
fn a_run_of_decisions_returns_the_completed_segment() {
    let mut a: SegmentAssembler<i16> = SegmentAssembler::new(SILERO_SAMPLE_RATE, 0);
    let frames = a.take_frames(&vec![1i16; 4 * SILERO_FRAME_SIZE]);
    let decisions = vec![VadResult::Speech, VadResult::Speech, VadResult::Silence, VadResult::Silence];
    let seg = a.on_frames(frames, &decisions).expect("speech then silence completes a segment");
    assert_eq!(seg.samples.len(), 2 * SILERO_FRAME_SIZE);
    assert_eq!(seg.end_ms, 64);
    assert!(!a.in_segment());
    assert_eq!(a.processed_ms(), 128);
    let frames = a.take_frames(&vec![1i16; 2 * SILERO_FRAME_SIZE]);
    assert!(a.on_frames(frames, &[VadResult::Silence, VadResult::Speech]).is_none());
    assert!(a.in_segment());
}

fn detector_call(a: &mut SegmentAssembler<f32>, samples: &[f32]) -> Option<ears::vad::SpeechSegment<f32>> {
    let frames = a.upcoming_frames(samples);
    let decisions = vec![VadResult::Silence; frames.len()];
    a.process(samples, &decisions)
}

#[test]
fn one_process_call_reframes_and_advances_the_clock() {
    let mut a: SegmentAssembler<f32> = SegmentAssembler::new(SILERO_SAMPLE_RATE, 500);
    assert!(detector_call(&mut a, &silence(100)).is_none());
    assert_eq!(a.pending_len(), 64);
    assert_eq!(a.processed_ms(), 96);
    assert!(detector_call(&mut a, &silence(100)).is_none());
    assert_eq!(a.pending_len(), 128);
    assert_eq!(a.processed_ms(), 192);
    assert!(a.replay_len() <= 8000);
}

#[test]
fn upcoming_frames_start_with_what_is_pending() {
    let mut a: SegmentAssembler<i16> = SegmentAssembler::new(SILERO_SAMPLE_RATE, 500);
    let first: Vec<i16> = (0..600).map(|x| x as i16).collect();
    let frames = a.upcoming_frames(&first);
    assert_eq!(frames.len(), 1);
    assert_eq!(a.pending_len(), 0);
    a.process(&first, &[VadResult::Silence]);
    assert_eq!(a.pending_len(), 88);
    let second: Vec<i16> = (600..1100).map(|x| x as i16).collect();
    let frames = a.upcoming_frames(&second);
    assert_eq!(frames.len(), 1);
    assert_eq!(frames[0][0], 512);
    assert_eq!(frames[0][511], 1023);
    let seg = a.process(&second, &[VadResult::Speech]);
    assert!(seg.is_none());
    assert!(a.in_segment());
    assert_eq!(a.pending_len(), 76);
}
