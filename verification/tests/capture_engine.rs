use screen_capture::capture::capture_engine::{CaptureConfig, CaptureEngine, EnginePhase};
use screen_capture::capture::display::Display;
use screen_capture::capture::error::CaptureError;
use screen_capture::capture::ffi::{NativeHandle, NativeRequest, OpenReply, StreamKind};
use screen_capture::capture::frame::{NativeEvent, PixelFormat, VideoFrame};
use screen_capture::capture::pcm_buffer::AudioFormat;

fn display() -> Display {
    Display { id: 1, width: 1920, height: 1080, scale_percent: 100, name: String::from("Main") }
}

fn config(queue: usize) -> CaptureConfig {
    CaptureConfig {
        frame_rate: 30,
        audio: AudioFormat::new(48_000, 1, 16).unwrap(),
        audio_buffer_frames: 4,
        frame_queue_len: queue,
    }
}

fn frame(timestamp: u64) -> VideoFrame {
    VideoFrame {
        pixels: vec![timestamp as u8; 4],
        timestamp,
        width: 1,
        height: 1,
        format: PixelFormat::Bgra8,
    }
}

fn close(kind: StreamKind, raw: u64) -> NativeRequest {
    NativeRequest::Close(NativeHandle { kind, raw })
}

fn running(queue: usize) -> CaptureEngine {
    let mut engine = CaptureEngine::new();
    engine.start(display(), config(queue)).unwrap();
    engine.video_reply(OpenReply::Granted(10));
    engine.audio_reply(OpenReply::Granted(20));
    assert_eq!(engine.phase(), EnginePhase::Running);
    engine
}

#[test]
fn config_validity() {
    assert!(config(4).is_valid());
    assert!(!config(0).is_valid());
    assert!(!CaptureConfig { frame_rate: 0, ..config(4) }.is_valid());
    assert!(!CaptureConfig { audio_buffer_frames: 0, ..config(4) }.is_valid());
    let wide = AudioFormat::new(48_000, 2, 16).unwrap();
    assert!(!CaptureConfig { audio: wide, audio_buffer_frames: usize::MAX, ..config(4) }.is_valid());
    let none = AudioFormat { sample_rate: 48_000, channels: 0, bit_depth: 16 };
    assert!(!CaptureConfig { audio: none, ..config(4) }.is_valid());
}

#[test]
fn a_new_engine_is_stopped() {
    let engine = CaptureEngine::new();
    assert_eq!(engine.phase(), EnginePhase::Stopped);
    assert_eq!(engine.open_handles(), 0);
    assert_eq!(engine.queued_frames(), 0);
}

#[test]
fn start_opens_video_then_audio() {
    let mut engine = CaptureEngine::new();
    assert_eq!(
        engine.start(display(), config(4)),
        Ok(NativeRequest::OpenVideo { display_id: 1, frame_rate: 30 })
    );
    assert_eq!(engine.phase(), EnginePhase::OpeningVideo);
    let step = engine.video_reply(OpenReply::Granted(10));
    assert_eq!(step.requests, vec![NativeRequest::OpenAudio { format: config(4).audio }]);
    assert_eq!(step.error, None);
    assert_eq!(engine.phase(), EnginePhase::OpeningAudio);
    assert_eq!(engine.open_handles(), 1);
    let step = engine.audio_reply(OpenReply::Granted(20));
    assert!(step.requests.is_empty());
    assert_eq!(step.error, None);
    assert_eq!(engine.phase(), EnginePhase::Running);
    assert_eq!(engine.open_handles(), 2);
}

#[test]
fn start_is_refused_while_a_session_exists() {
    let mut engine = running(4);
    assert_eq!(engine.start(display(), config(4)), Err(CaptureError::InvalidTransition));
    assert_eq!(engine.phase(), EnginePhase::Running);
    assert_eq!(engine.open_handles(), 2);
}

#[test]
fn start_with_a_bad_config_is_unavailable() {
    let mut engine = CaptureEngine::new();
    assert_eq!(engine.start(display(), config(0)), Err(CaptureError::CaptureUnavailable));
    assert_eq!(engine.phase(), EnginePhase::Stopped);
}

#[test]
fn refused_video_ends_the_session() {
    let mut engine = CaptureEngine::new();
    engine.start(display(), config(4)).unwrap();
    let step = engine.video_reply(OpenReply::Denied);
    assert!(step.requests.is_empty());
    assert_eq!(step.error, Some(CaptureError::CaptureUnavailable));
    assert_eq!(engine.phase(), EnginePhase::Stopped);
    assert_eq!(engine.open_handles(), 0);
}

#[test]
fn refused_audio_gives_the_video_handle_back() {
    let mut engine = CaptureEngine::new();
    engine.start(display(), config(4)).unwrap();
    engine.video_reply(OpenReply::Granted(10));
    let step = engine.audio_reply(OpenReply::Vanished);
    assert_eq!(step.requests, vec![close(StreamKind::Video, 10)]);
    assert_eq!(step.error, Some(CaptureError::CaptureUnavailable));
    assert_eq!(engine.phase(), EnginePhase::Stopped);
    assert_eq!(engine.open_handles(), 0);
}

#[test]
fn frames_come_out_oldest_first_and_once() {
    let mut engine = running(4);
    assert!(engine.accept_frame(frame(5)));
    assert!(engine.accept_frame(frame(5)));
    assert!(engine.accept_frame(frame(9)));
    assert_eq!(engine.queued_frames(), 3);
    assert_eq!(engine.next_video_frame(), Some(frame(5)));
    assert_eq!(engine.next_video_frame(), Some(frame(5)));
    assert_eq!(engine.next_video_frame(), Some(frame(9)));
    assert_eq!(engine.next_video_frame(), None);
}

#[test]
fn a_late_frame_is_dropped() {
    let mut engine = running(4);
    assert!(engine.accept_frame(frame(10)));
    assert!(!engine.accept_frame(frame(9)));
    assert_eq!(engine.next_video_frame(), Some(frame(10)));
    assert!(!engine.accept_frame(frame(9)));
    assert!(engine.accept_frame(frame(10)));
    assert_eq!(engine.next_video_frame(), Some(frame(10)));
    assert_eq!(engine.next_video_frame(), None);
}

#[test]
fn a_full_queue_drops_its_oldest_frame() {
    let mut engine = running(2);
    assert!(engine.accept_frame(frame(1)));
    assert!(engine.accept_frame(frame(2)));
    assert!(engine.accept_frame(frame(3)));
    assert_eq!(engine.queued_frames(), 2);
    assert_eq!(engine.next_video_frame(), Some(frame(2)));
    assert_eq!(engine.next_video_frame(), Some(frame(3)));
    assert_eq!(engine.next_video_frame(), None);
}

#[test]
fn media_is_taken_only_while_running() {
    let mut engine = CaptureEngine::new();
    assert!(!engine.accept_frame(frame(1)));
    assert_eq!(engine.accept_samples(&[1, 2]), 0);
    engine.start(display(), config(4)).unwrap();
    assert!(!engine.accept_frame(frame(1)));
    engine.video_reply(OpenReply::Granted(10));
    assert_eq!(engine.accept_samples(&[1, 2]), 0);
    assert_eq!(engine.queued_frames(), 0);
    assert!(engine.read_audio(8).samples.is_empty());
}

#[test]
fn audio_goes_through_the_ring() {
    let mut engine = running(4);
    assert_eq!(engine.accept_samples(&[1, 2, 3]), 3);
    assert_eq!(engine.accept_samples(&[4, 5]), 1);
    let chunk = engine.read_audio(2);
    assert_eq!(chunk.samples, vec![1, 2]);
    assert_eq!(chunk.signal, Some(CaptureError::Overrun));
    let chunk = engine.read_audio(8);
    assert_eq!(chunk.samples, vec![3, 4]);
    assert_eq!(chunk.signal, None);
    assert!(engine.read_audio(8).samples.is_empty());
}

#[test]
fn events_are_dispatched() {
    let mut engine = CaptureEngine::new();
    engine.start(display(), config(4)).unwrap();
    let step = engine.handle_event(NativeEvent::VideoReply(OpenReply::Granted(10)));
    assert_eq!(step.requests.len(), 1);
    engine.handle_event(NativeEvent::AudioReply(OpenReply::Granted(20)));
    assert!(engine.handle_event(NativeEvent::Frame(frame(3))).requests.is_empty());
    assert!(engine.handle_event(NativeEvent::Samples(vec![7, 8])).requests.is_empty());
    assert_eq!(engine.next_video_frame(), Some(frame(3)));
    assert_eq!(engine.read_audio(8).samples, vec![7, 8]);
    let step = engine.handle_event(NativeEvent::Fault);
    assert_eq!(step.requests, vec![close(StreamKind::Video, 10), close(StreamKind::Audio, 20)]);
    assert_eq!(step.error, Some(CaptureError::NativeFailure));
}

#[test]
fn stop_gives_both_handles_back_video_first() {
    let mut engine = running(4);
    engine.accept_frame(frame(1));
    engine.accept_samples(&[1]);
    assert_eq!(engine.stop(), vec![close(StreamKind::Video, 10), close(StreamKind::Audio, 20)]);
    assert_eq!(engine.phase(), EnginePhase::Stopped);
    assert_eq!(engine.open_handles(), 0);
    assert_eq!(engine.queued_frames(), 0);
    assert_eq!(engine.next_video_frame(), None);
    assert!(engine.read_audio(8).samples.is_empty());
}

#[test]
fn stop_twice_asks_for_nothing_the_second_time() {
    let mut engine = running(4);
    assert_eq!(engine.stop().len(), 2);
    assert_eq!(engine.stop(), Vec::new());
    assert_eq!(engine.phase(), EnginePhase::Stopped);
    let mut fresh = CaptureEngine::new();
    assert_eq!(fresh.stop(), Vec::new());
}

#[test]
fn stop_while_video_is_awaited_gives_a_late_grant_back() {
    let mut engine = CaptureEngine::new();
    engine.start(display(), config(4)).unwrap();
    assert_eq!(engine.stop(), Vec::new());
    assert_eq!(engine.phase(), EnginePhase::Draining);
    assert_eq!(engine.start(display(), config(4)), Err(CaptureError::InvalidTransition));
    let step = engine.video_reply(OpenReply::Granted(10));
    assert_eq!(step.requests, vec![close(StreamKind::Video, 10)]);
    assert_eq!(step.error, None);
    assert_eq!(engine.phase(), EnginePhase::Stopped);
    assert_eq!(engine.open_handles(), 0);
}

#[test]
fn stop_while_audio_is_awaited_closes_video_now_and_audio_later() {
    let mut engine = CaptureEngine::new();
    engine.start(display(), config(4)).unwrap();
    engine.video_reply(OpenReply::Granted(10));
    assert_eq!(engine.stop(), vec![close(StreamKind::Video, 10)]);
    assert_eq!(engine.phase(), EnginePhase::Draining);
    assert_eq!(engine.open_handles(), 0);
    let step = engine.audio_reply(OpenReply::Granted(20));
    assert_eq!(step.requests, vec![close(StreamKind::Audio, 20)]);
    assert_eq!(engine.phase(), EnginePhase::Stopped);
}

#[test]
fn a_draining_engine_settles_on_a_refusal_too() {
    let mut engine = CaptureEngine::new();
    engine.start(display(), config(4)).unwrap();
    engine.stop();
    let step = engine.video_reply(OpenReply::Denied);
    assert!(step.requests.is_empty());
    assert_eq!(step.error, None);
    assert_eq!(engine.phase(), EnginePhase::Stopped);
}

#[test]
fn fault_without_an_open_stream_changes_nothing() {
    let mut engine = CaptureEngine::new();
    let step = engine.fault();
    assert!(step.requests.is_empty());
    assert_eq!(step.error, None);
    engine.start(display(), config(4)).unwrap();
    let step = engine.fault();
    assert_eq!(step.error, None);
    assert_eq!(engine.phase(), EnginePhase::OpeningVideo);
}

#[test]
fn fault_while_audio_is_awaited_ends_the_session() {
    let mut engine = CaptureEngine::new();
    engine.start(display(), config(4)).unwrap();
    engine.video_reply(OpenReply::Granted(10));
    let step = engine.fault();
    assert_eq!(step.requests, vec![close(StreamKind::Video, 10)]);
    assert_eq!(step.error, Some(CaptureError::NativeFailure));
    assert_eq!(engine.phase(), EnginePhase::Draining);
    let step = engine.audio_reply(OpenReply::Granted(20));
    assert_eq!(step.requests, vec![close(StreamKind::Audio, 20)]);
    assert_eq!(engine.phase(), EnginePhase::Stopped);
}

#[test]
fn a_new_session_starts_with_empty_buffers() {
    let mut engine = running(4);
    engine.accept_frame(frame(100));
    engine.accept_samples(&[1, 2]);
    engine.stop();
    engine.start(display(), config(4)).unwrap();
    engine.video_reply(OpenReply::Granted(11));
    engine.audio_reply(OpenReply::Granted(21));
    assert_eq!(engine.queued_frames(), 0);
    assert!(engine.read_audio(8).samples.is_empty());
    assert!(engine.accept_frame(frame(1)));
    assert_eq!(engine.next_video_frame(), Some(frame(1)));
}
