use screen_capture::capture::capture_engine::CaptureConfig;
use screen_capture::capture::display::{list_displays, Display, DisplayQuery};
use screen_capture::capture::error::CaptureError;
use screen_capture::capture::ffi::{NativeHandle, NativeRequest, OpenReply, StreamKind};
use screen_capture::capture::frame::{NativeEvent, PixelFormat, VideoFrame};
use screen_capture::capture::pcm_buffer::AudioFormat;
use screen_capture::capture::screen_recorder::{RecorderState, ScreenRecorder};

/// A stand-in for the operating system that counts its open handles.
struct FakeNative {
    next_raw: u64,
    open: Vec<NativeHandle>,
    refuse_audio: bool,
    double_closes: usize,
}

impl FakeNative {
    fn new() -> Self {
        FakeNative { next_raw: 1, open: Vec::new(), refuse_audio: false, double_closes: 0 }
    }

    fn grant(&mut self, kind: StreamKind) -> OpenReply {
        let raw = self.next_raw;
        self.next_raw += 1;
        self.open.push(NativeHandle { kind, raw });
        OpenReply::Granted(raw)
    }

    fn perform(&mut self, request: NativeRequest) -> Option<NativeEvent> {
        match request {
            NativeRequest::OpenVideo { .. } => {
                Some(NativeEvent::VideoReply(self.grant(StreamKind::Video)))
            }
            NativeRequest::OpenAudio { .. } => {
                if self.refuse_audio {
                    Some(NativeEvent::AudioReply(OpenReply::Denied))
                } else {
                    Some(NativeEvent::AudioReply(self.grant(StreamKind::Audio)))
                }
            }
            NativeRequest::Close(handle) => {
                match self.open.iter().position(|h| *h == handle) {
                    Some(at) => {
                        self.open.remove(at);
                    }
                    None => self.double_closes += 1,
                }
                None
            }
        }
    }
}

/// Performs requests, and the requests that their answers lead to.
fn drive(recorder: &mut ScreenRecorder, native: &mut FakeNative, requests: Vec<NativeRequest>) {
    let mut todo = requests;
    while !todo.is_empty() {
        let request = todo.remove(0);
        if let Some(event) = native.perform(request) {
            let step = recorder.handle_event(event);
            todo.extend(step.requests);
        }
    }
}

fn display() -> Display {
    Display { id: 1, width: 1920, height: 1080, scale_percent: 200, name: String::from("Main") }
}

fn config() -> CaptureConfig {
    CaptureConfig {
        frame_rate: 30,
        audio: AudioFormat::new(48_000, 1, 16).unwrap(),
        audio_buffer_frames: 4_800,
        frame_queue_len: 16,
    }
}

fn frame(timestamp: u64) -> VideoFrame {
    VideoFrame { pixels: vec![0; 8], timestamp, width: 2, height: 1, format: PixelFormat::Rgba8 }
}

fn close(kind: StreamKind, raw: u64) -> NativeRequest {
    NativeRequest::Close(NativeHandle { kind, raw })
}

/// A recorder in the given state.
fn recorder_in(state: RecorderState) -> ScreenRecorder {
    let mut recorder = ScreenRecorder::new();
    match state {
        RecorderState::Idle => {}
        RecorderState::Starting => {
            recorder.start(display(), config()).unwrap();
        }
        RecorderState::Recording | RecorderState::Paused => {
            recorder.start(display(), config()).unwrap();
            recorder.handle_event(NativeEvent::VideoReply(OpenReply::Granted(10)));
            recorder.handle_event(NativeEvent::AudioReply(OpenReply::Granted(20)));
            if state == RecorderState::Paused {
                recorder.pause().unwrap();
            }
        }
        RecorderState::Stopping => {
            recorder.start(display(), config()).unwrap();
            recorder.stop();
        }
        RecorderState::Failed => {
            recorder.start(display(), config()).unwrap();
            recorder.handle_event(NativeEvent::VideoReply(OpenReply::Denied));
        }
    }
    assert_eq!(recorder.state(), state);
    recorder
}

const STATES: [RecorderState; 6] = [
    RecorderState::Idle,
    RecorderState::Starting,
    RecorderState::Recording,
    RecorderState::Paused,
    RecorderState::Stopping,
    RecorderState::Failed,
];

#[test]
fn a_new_recorder_is_idle() {
    let recorder = ScreenRecorder::new();
    assert_eq!(recorder.state(), RecorderState::Idle);
    assert_eq!(recorder.open_handles(), 0);
}

#[test]
fn start_is_accepted_only_when_idle() {
    for state in STATES {
        let mut recorder = recorder_in(state);
        let handles = recorder.open_handles();
        let result = recorder.start(display(), config());
        if state == RecorderState::Idle {
            assert_eq!(result, Ok(NativeRequest::OpenVideo { display_id: 1, frame_rate: 30 }));
            assert_eq!(recorder.state(), RecorderState::Starting);
        } else {
            assert_eq!(result, Err(CaptureError::InvalidTransition));
            assert_eq!(recorder.state(), state);
            assert_eq!(recorder.open_handles(), handles);
        }
    }
}

#[test]
fn pause_is_accepted_only_when_recording() {
    for state in STATES {
        let mut recorder = recorder_in(state);
        let result = recorder.pause();
        if state == RecorderState::Recording {
            assert_eq!(result, Ok(()));
            assert_eq!(recorder.state(), RecorderState::Paused);
        } else {
            assert_eq!(result, Err(CaptureError::InvalidTransition));
            assert_eq!(recorder.state(), state);
        }
    }
}

#[test]
fn resume_is_accepted_only_when_paused() {
    for state in STATES {
        let mut recorder = recorder_in(state);
        let result = recorder.resume();
        if state == RecorderState::Paused {
            assert_eq!(result, Ok(()));
            assert_eq!(recorder.state(), RecorderState::Recording);
        } else {
            assert_eq!(result, Err(CaptureError::InvalidTransition));
            assert_eq!(recorder.state(), state);
        }
    }
}

#[test]
fn reset_is_accepted_only_when_failed() {
    for state in STATES {
        let mut recorder = recorder_in(state);
        let result = recorder.reset();
        if state == RecorderState::Failed {
            assert_eq!(result, Ok(()));
            assert_eq!(recorder.state(), RecorderState::Idle);
        } else {
            assert_eq!(result, Err(CaptureError::InvalidTransition));
            assert_eq!(recorder.state(), state);
        }
    }
}

#[test]
fn stop_is_accepted_in_every_state() {
    let after = [
        RecorderState::Idle,
        RecorderState::Stopping,
        RecorderState::Idle,
        RecorderState::Idle,
        RecorderState::Stopping,
        RecorderState::Failed,
    ];
    for (state, expected) in STATES.into_iter().zip(after) {
        let mut recorder = recorder_in(state);
        recorder.stop();
        assert_eq!(recorder.state(), expected);
        assert_eq!(recorder.open_handles(), 0);
    }
}

#[test]
fn stop_twice_releases_nothing_twice() {
    for state in STATES {
        let mut recorder = recorder_in(state);
        let first = recorder.stop();
        let held = [RecorderState::Recording, RecorderState::Paused].contains(&state);
        if held {
            assert_eq!(first, vec![close(StreamKind::Video, 10), close(StreamKind::Audio, 20)]);
        } else {
            assert_eq!(first, Vec::new());
        }
        let between = recorder.state();
        assert_eq!(recorder.stop(), Vec::new());
        assert_eq!(recorder.state(), between);
    }
}

#[test]
fn resume_while_idle_is_an_invalid_transition() {
    let mut recorder = ScreenRecorder::new();
    assert_eq!(recorder.resume(), Err(CaptureError::InvalidTransition));
    assert_eq!(recorder.state(), RecorderState::Idle);
}

#[test]
fn start_with_a_bad_config_fails_the_recorder() {
    let mut recorder = ScreenRecorder::new();
    let bad = CaptureConfig { frame_rate: 0, ..config() };
    assert_eq!(recorder.start(display(), bad), Err(CaptureError::CaptureUnavailable));
    assert_eq!(recorder.state(), RecorderState::Failed);
    assert_eq!(recorder.open_handles(), 0);
    assert_eq!(recorder.reset(), Ok(()));
    assert_eq!(recorder.state(), RecorderState::Idle);
}

#[test]
fn every_start_stop_leaves_no_handle_open() {
    let mut recorder = ScreenRecorder::new();
    let mut native = FakeNative::new();
    for _ in 0..5 {
        let request = recorder.start(display(), config()).unwrap();
        drive(&mut recorder, &mut native, vec![request]);
        assert_eq!(recorder.state(), RecorderState::Recording);
        assert_eq!(native.open.len(), 2);
        let requests = recorder.stop();
        drive(&mut recorder, &mut native, requests);
        assert_eq!(recorder.state(), RecorderState::Idle);
        assert_eq!(native.open.len(), 0);
        assert_eq!(recorder.open_handles(), 0);
    }
    assert_eq!(native.double_closes, 0);
    assert_eq!(native.next_raw, 11);
}

#[test]
fn failed_audio_open_leaves_no_handle_open() {
    let mut recorder = ScreenRecorder::new();
    let mut native = FakeNative::new();
    native.refuse_audio = true;
    let request = recorder.start(display(), config()).unwrap();
    drive(&mut recorder, &mut native, vec![request]);
    assert_eq!(recorder.state(), RecorderState::Failed);
    assert_eq!(native.open.len(), 0);
    assert_eq!(native.double_closes, 0);
    assert_eq!(recorder.open_handles(), 0);
}

#[test]
fn failed_audio_open_reports_unavailable_with_the_close() {
    let mut recorder = recorder_in(RecorderState::Starting);
    recorder.handle_event(NativeEvent::VideoReply(OpenReply::Granted(10)));
    assert_eq!(recorder.state(), RecorderState::Starting);
    let step = recorder.handle_event(NativeEvent::AudioReply(OpenReply::Denied));
    assert_eq!(step.requests, vec![close(StreamKind::Video, 10)]);
    assert_eq!(step.error, Some(CaptureError::CaptureUnavailable));
    assert_eq!(recorder.state(), RecorderState::Failed);
}

#[test]
fn stop_while_starting_gives_a_late_grant_back() {
    let mut recorder = ScreenRecorder::new();
    let mut native = FakeNative::new();
    let request = recorder.start(display(), config()).unwrap();
    let answer = native.perform(request).unwrap();
    assert_eq!(recorder.stop(), Vec::new());
    assert_eq!(recorder.state(), RecorderState::Stopping);
    assert_eq!(native.open.len(), 1);
    let step = recorder.handle_event(answer);
    assert_eq!(recorder.state(), RecorderState::Idle);
    drive(&mut recorder, &mut native, step.requests);
    assert_eq!(native.open.len(), 0);
    assert_eq!(native.double_closes, 0);
}

#[test]
fn a_broken_stream_fails_the_recorder_and_releases_everything() {
    for state in [RecorderState::Recording, RecorderState::Paused] {
        let mut recorder = recorder_in(state);
        let step = recorder.handle_event(NativeEvent::Fault);
        assert_eq!(step.requests, vec![close(StreamKind::Video, 10), close(StreamKind::Audio, 20)]);
        assert_eq!(step.error, Some(CaptureError::NativeFailure));
        assert_eq!(recorder.state(), RecorderState::Failed);
        assert_eq!(recorder.open_handles(), 0);
        assert_eq!(recorder.stop(), Vec::new());
        assert_eq!(recorder.state(), RecorderState::Failed);
    }
}

#[test]
fn a_fault_while_starting_fails_once_the_answer_is_in() {
    let mut recorder = recorder_in(RecorderState::Starting);
    recorder.handle_event(NativeEvent::VideoReply(OpenReply::Granted(10)));
    let step = recorder.handle_event(NativeEvent::Fault);
    assert_eq!(step.requests, vec![close(StreamKind::Video, 10)]);
    assert_eq!(step.error, Some(CaptureError::NativeFailure));
    assert_eq!(recorder.state(), RecorderState::Starting);
    let step = recorder.handle_event(NativeEvent::AudioReply(OpenReply::Granted(20)));
    assert_eq!(step.requests, vec![close(StreamKind::Audio, 20)]);
    assert_eq!(recorder.state(), RecorderState::Failed);
    assert_eq!(recorder.open_handles(), 0);
}

#[test]
fn media_is_handed_out_only_while_recording() {
    for state in STATES {
        let mut recorder = recorder_in(state);
        recorder.handle_event(NativeEvent::Frame(frame(1)));
        recorder.handle_event(NativeEvent::Samples(vec![1, 2, 3]));
        if state == RecorderState::Recording {
            assert_eq!(recorder.next_video_frame(), Some(frame(1)));
            assert_eq!(recorder.read_audio(8).samples, vec![1, 2, 3]);
        } else {
            assert_eq!(recorder.next_video_frame(), None);
            let chunk = recorder.read_audio(8);
            assert!(chunk.samples.is_empty());
            assert_eq!(chunk.signal, None);
        }
        assert_eq!(recorder.state(), state);
    }
}

#[test]
fn pause_keeps_what_was_queued_and_discards_what_arrives() {
    let mut recorder = recorder_in(RecorderState::Recording);
    recorder.handle_event(NativeEvent::Frame(frame(1)));
    recorder.handle_event(NativeEvent::Samples(vec![1]));
    recorder.pause().unwrap();
    recorder.handle_event(NativeEvent::Frame(frame(2)));
    recorder.handle_event(NativeEvent::Samples(vec![2]));
    assert_eq!(recorder.next_video_frame(), None);
    assert!(recorder.read_audio(8).samples.is_empty());
    assert_eq!(recorder.open_handles(), 2);
    recorder.resume().unwrap();
    recorder.handle_event(NativeEvent::Frame(frame(3)));
    assert_eq!(recorder.next_video_frame(), Some(frame(1)));
    assert_eq!(recorder.next_video_frame(), Some(frame(3)));
    assert_eq!(recorder.next_video_frame(), None);
    assert_eq!(recorder.read_audio(8).samples, vec![1]);
}

#[test]
fn a_session_from_enumeration_to_stop() {
    let displays = list_displays(DisplayQuery::Answered(vec![display()])).unwrap();
    let chosen = displays.into_iter().next().unwrap();
    let mut recorder = ScreenRecorder::new();
    let mut native = FakeNative::new();
    let request = recorder.start(chosen, config()).unwrap();
    assert_eq!(request, NativeRequest::OpenVideo { display_id: 1, frame_rate: 30 });
    drive(&mut recorder, &mut native, vec![request]);
    assert_eq!(recorder.state(), RecorderState::Recording);

    let stamps = [100u64, 133, 133, 166, 150, 200, 233, 266, 300, 333, 366];
    let mut last = 0;
    let mut read = 0;
    for stamp in stamps {
        recorder.handle_event(NativeEvent::Frame(frame(stamp)));
        if let Some(got) = recorder.next_video_frame() {
            assert!(got.timestamp >= last);
            last = got.timestamp;
            read += 1;
        }
    }
    assert_eq!(read, 10);
    assert_eq!(last, 366);

    assert_eq!(recorder.pause(), Ok(()));
    recorder.handle_event(NativeEvent::Frame(frame(400)));
    assert_eq!(recorder.next_video_frame(), None);
    assert_eq!(recorder.resume(), Ok(()));
    assert_eq!(recorder.next_video_frame(), None);
    recorder.handle_event(NativeEvent::Frame(frame(433)));
    assert_eq!(recorder.next_video_frame(), Some(frame(433)));

    let requests = recorder.stop();
    drive(&mut recorder, &mut native, requests);
    assert_eq!(recorder.state(), RecorderState::Idle);
    assert_eq!(native.open.len(), 0);
    assert_eq!(native.double_closes, 0);
    assert_eq!(recorder.open_handles(), 0);
}
