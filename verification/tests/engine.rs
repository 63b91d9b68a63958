use ears::streaming::AudioBuffer;
use ears::streaming_engine::{EngineCore, SegmentOutcome, StreamingEvent, StreamingStats};
use ears::text_filters::TextFilters;

#[test]
fn test_streaming_stats_default() {
    let stats = StreamingStats::default();
    assert_eq!(stats.segments_processed, 0);
    assert_eq!(stats.avg_latency_ms, 0);
    assert_eq!(stats.chars_typed, 0);
}

#[test]
fn stats_average_is_total_over_count() {
    let mut stats = StreamingStats::default();
    stats.record_segment(100);
    stats.record_segment(51);
    assert_eq!(stats.segments_processed, 2);
    assert_eq!(stats.total_latency_ms, 151);
    assert_eq!(stats.avg_latency_ms, 75);
}

#[test]
fn vad_frames_raise_events_on_rising_edges() {
    let mut core = EngineCore::new(2, true);
    assert_eq!(core.on_vad_frame(true, false), vec![StreamingEvent::SpeechProbable]);
    assert_eq!(core.on_vad_frame(true, false), vec![]);
    assert_eq!(core.on_vad_frame(false, true), vec![StreamingEvent::SpeechStarted]);
    assert_eq!(core.on_vad_frame(false, true), vec![]);
    assert_eq!(core.on_segment_end(), StreamingEvent::SpeechEnded);
    assert_eq!(
        core.on_vad_frame(true, true),
        vec![StreamingEvent::SpeechProbable, StreamingEvent::SpeechStarted]
    );
}

#[test]
fn transcripts_accumulate_with_spaces() {
    let mut core = EngineCore::new(2, true);
    match core.on_transcript("Hello world") {
        SegmentOutcome::Committed { text, newly_committed, type_to } => {
            assert_eq!(text, "Hello world");
            assert_eq!(newly_committed, "Hello world");
            assert_eq!(type_to, Some("Hello world".to_string()));
        }
        SegmentOutcome::Skip => panic!("expected a commit"),
    }
    core.on_transcript("again");
    assert_eq!(core.committed_text(), "Hello world again");
    assert_eq!(core.on_transcript(""), SegmentOutcome::Skip);
    assert_eq!(core.committed_text(), "Hello world again");
}

#[test]
fn filters_apply_unless_guided() {
    let mut core = EngineCore::new(2, false);
    core.set_text_filters(
        TextFilters { lowercase: true, remove_punctuation: true, strict_alphabet: false, alphabet_threshold_permille: 500 },
        None,
    );
    match core.on_transcript("Hello, World!") {
        SegmentOutcome::Committed { text, type_to, .. } => {
            assert_eq!(text, "hello world");
            assert_eq!(type_to, None);
        }
        SegmentOutcome::Skip => panic!("expected a commit"),
    }
    core.set_guided(true);
    match core.on_transcript("ls -la.") {
        SegmentOutcome::Committed { text, .. } => assert_eq!(text, "ls -la."),
        SegmentOutcome::Skip => panic!("expected a commit"),
    }
    core.set_guided(false);
    assert_eq!(core.on_transcript("!!!"), SegmentOutcome::Skip);
}

#[test]
fn single_agreement_commits_nothing_on_second_feed() {
    let mut core = EngineCore::new(1, true);
    match core.on_transcript("hi") {
        SegmentOutcome::Committed { newly_committed, type_to, .. } => {
            assert_eq!(newly_committed, "");
            assert_eq!(type_to, None);
        }
        SegmentOutcome::Skip => panic!("expected a commit"),
    }
    assert_eq!(core.committed_text(), "");
}

#[test]
fn finish_segment_reports_events() {
    let mut core = EngineCore::new(2, true);
    core.on_transcript("one");
    let events = core.finish_segment("one".to_string(), 900, 40);
    assert_eq!(
        events,
        vec![
            StreamingEvent::TranscriptUpdate { committed: "one".to_string(), uncommitted: String::new() },
            StreamingEvent::SegmentCompleted { text: "one".to_string(), duration_ms: 900 },
            StreamingEvent::StatsUpdate { segments_processed: 1, avg_latency_ms: 40 },
        ]
    );
    core.record_typed(3);
    assert_eq!(core.stats().chars_typed, 3);
    core.reset();
    assert_eq!(core.committed_text(), "");
    assert_eq!(core.stats(), StreamingStats::default());
}

#[test]
fn test_audio_buffer_write_read() {
    let mut buffer = AudioBuffer::new(1, 16000, 0.0f32);
    let samples = vec![0.1, 0.2, 0.3, 0.4, 0.5];
    buffer.write(&samples);
    let read_samples = buffer.read_recent(5);
    assert_eq!(read_samples, samples);
}

#[test]
fn test_audio_buffer_circular() {
    let mut buffer = AudioBuffer::new(1, 10, 0.0f32);
    let samples: Vec<f32> = (0..15).map(|i| i as f32).collect();
    buffer.write(&samples);
    let read_samples = buffer.read_recent(10);
    let expected: Vec<f32> = (5..15).map(|i| i as f32).collect();
    assert_eq!(read_samples, expected);
}

#[test]
fn test_audio_buffer_empty_read() {
    let buffer = AudioBuffer::new(1, 16000, 0.0f32);
    let samples = buffer.read_recent(100);
    assert_eq!(samples.len(), 0);
}

#[test]
fn test_audio_buffer_read_more_than_written() {
    let mut buffer = AudioBuffer::new(1, 16000, 0.0f32);
    buffer.write(&[0.1, 0.2, 0.3]);
    let samples = buffer.read_recent(100);
    assert_eq!(samples.len(), 3);
    assert_eq!(samples, vec![0.1, 0.2, 0.3]);
}

#[test]
fn audio_buffer_reads_most_recent_samples() {
    let mut buffer = AudioBuffer::new(1, 4, 0i16);
    buffer.write(&[1, 2, 3, 4, 5, 6]);
    assert_eq!(buffer.read_recent(2), vec![5, 6]);
    assert_eq!(buffer.read_recent(4), vec![3, 4, 5, 6]);
    assert_eq!(buffer.total_written(), 6);
    buffer.clear();
    assert_eq!(buffer.total_written(), 0);
    assert!(buffer.read_recent(4).is_empty());
}
