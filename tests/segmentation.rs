use autocut::buffer::SampleBuffer;
use autocut::recorder::SoundRecorder;
use autocut::session::VadSession;
use autocut::speech::{Reading, SpeechState};

fn reading(probability: f32, threshold: f32) -> Reading {
    if probability > threshold {
        Reading::Above
    } else if probability < threshold {
        Reading::Below
    } else {
        Reading::AtThreshold
    }
}

fn frame(start: u32, n: u32) -> Vec<f32> {
    (start..start + n).map(|x| x as f32).collect()
}

#[test]
fn transition_table() {
    assert_eq!(SpeechState::NotStarted.advance(Reading::Above), SpeechState::Talking);
    assert_eq!(SpeechState::NotStarted.advance(Reading::Below), SpeechState::NotStarted);
    assert_eq!(SpeechState::NotStarted.advance(Reading::AtThreshold), SpeechState::NotStarted);
    assert_eq!(SpeechState::Talking.advance(Reading::Above), SpeechState::Talking);
    assert_eq!(SpeechState::Talking.advance(Reading::Below), SpeechState::PossiblyEnded);
    assert_eq!(SpeechState::Talking.advance(Reading::AtThreshold), SpeechState::Talking);
    assert_eq!(SpeechState::PossiblyEnded.advance(Reading::Above), SpeechState::Talking);
    assert_eq!(SpeechState::PossiblyEnded.advance(Reading::Below), SpeechState::Ended);
    assert_eq!(SpeechState::PossiblyEnded.advance(Reading::AtThreshold), SpeechState::PossiblyEnded);
    assert_eq!(SpeechState::Ended.advance(Reading::Above), SpeechState::Ended);
    assert_eq!(SpeechState::Ended.advance(Reading::Below), SpeechState::Ended);
    assert!(SpeechState::Ended.is_ended());
    assert!(!SpeechState::PossiblyEnded.is_ended());
}

#[test]
fn second_strike_ends_on_fifth_tick() {
    let mut s: VadSession<f32> = VadSession::new(1000);
    let probs = [0.9f32, 0.2, 0.8, 0.1, 0.3];
    for (k, p) in probs.iter().enumerate() {
        s.push_frame(&frame(k as u32 * 10, 10));
        let ended = s.tick(reading(*p, 0.75));
        assert_eq!(ended, k == 4);
    }
    assert_eq!(s.current_state(), SpeechState::Ended);
}

#[test]
fn recovery_before_second_strike_resumes_talking() {
    let mut s: VadSession<f32> = VadSession::new(1000);
    let expected = [SpeechState::Talking, SpeechState::PossiblyEnded, SpeechState::Talking];
    for (k, p) in [0.95f32, 0.5, 0.99].iter().enumerate() {
        s.push_frame(&frame(0, 4));
        assert!(!s.tick(reading(*p, 0.75)));
        assert_eq!(s.current_state(), expected[k]);
    }
}

#[test]
fn silence_keeps_buffer_bounded() {
    let keep = 50usize;
    let mut s: VadSession<f32> = VadSession::new(keep);
    for k in 0..40u32 {
        s.push_frame(&frame(k * 17, 17));
        assert!(!s.tick(reading(0.1, 0.75)));
        assert_eq!(s.current_state(), SpeechState::NotStarted);
        assert!(s.len() <= keep);
    }
    let seg = s.segment();
    assert_eq!(seg.len(), keep);
    assert_eq!(seg[keep - 1], (40 * 17 - 1) as f32);
}

#[test]
fn score_at_threshold_holds_state_and_buffer() {
    let mut s: VadSession<f32> = VadSession::new(2);
    s.push_frame(&frame(0, 5));
    assert!(!s.tick(reading(0.75, 0.75)));
    assert_eq!(s.current_state(), SpeechState::NotStarted);
    assert_eq!(s.len(), 5);
}

#[test]
fn end_to_end_session() {
    let mut s: VadSession<f32> = VadSession::new(4);
    let probs = [0.1f32, 0.1, 0.9, 0.9, 0.9, 0.3, 0.2];
    let states = [
        SpeechState::NotStarted,
        SpeechState::NotStarted,
        SpeechState::Talking,
        SpeechState::Talking,
        SpeechState::Talking,
        SpeechState::PossiblyEnded,
        SpeechState::Ended,
    ];
    for k in 0..7 {
        s.push_frame(&frame(k as u32 * 3 + 1, 3));
        let ended = s.tick(reading(probs[k], 0.75));
        assert_eq!(s.current_state(), states[k]);
        assert_eq!(ended, k == 6);
    }
    // tick 1 keeps [1, 2, 3]; tick 2 trims [1..6] to its last four.
    assert_eq!(s.segment(), frame(3, 19));
}

#[test]
fn window_is_the_tail() {
    let mut s: VadSession<f32> = VadSession::new(100);
    s.push_frame(&frame(0, 3));
    assert_eq!(s.window(512), frame(0, 3));
    s.push_frame(&frame(3, 600));
    let w = s.window(512);
    assert_eq!(w.len(), 512);
    assert_eq!(w, frame(91, 512));
}

#[test]
fn buffer_operations() {
    let mut b: SampleBuffer<f32> = SampleBuffer::new();
    assert_eq!(b.len(), 0);
    assert!(b.tail(4).is_empty());
    b.append(&[1.0, 2.0, 3.0]);
    b.append(&[]);
    b.append(&[4.0, 5.0]);
    assert_eq!(b.len(), 5);
    assert_eq!(b.tail(2), vec![4.0, 5.0]);
    b.prune_to_last(10);
    assert_eq!(b.snapshot(), vec![1.0, 2.0, 3.0, 4.0, 5.0]);
    b.prune_to_last(3);
    assert_eq!(b.snapshot(), vec![3.0, 4.0, 5.0]);
    b.prune_to_last(0);
    assert!(b.snapshot().is_empty());
}

#[test]
fn recorder_settings() {
    let r = SoundRecorder::new();
    assert_eq!(r.sample_rate, 16000);
    assert_eq!(r.chunk_size, 512);
    assert_eq!(r.keep_past_seconds, 5);
    assert_eq!(r.poll_interval_ms, 300);
    assert_eq!(r.idle_poll_ms, 100);
    assert_eq!(r.keep_samples(), 80000);
    let s: VadSession<f32> = r.session();
    assert_eq!(s.current_state(), SpeechState::NotStarted);
    assert_eq!(s.len(), 0);
}

#[test]
fn recorder_session_prunes_to_five_seconds() {
    let r = SoundRecorder::new();
    let mut s: VadSession<f32> = r.session();
    for _ in 0..3 {
        s.push_frame(&vec![0.0f32; 48000]);
        s.tick(reading(0.01, 0.75));
    }
    assert_eq!(s.len(), 80000);
}
