//! One capture session: a video stream and an audio stream, opened in turn,
//! fed by the native callbacks, and torn down together.
//!
//! The engine opens the video stream first and the audio stream once the
//! video stream is open. If either cannot be opened, what was opened is
//! given back and the session is over. While both are open, frames are queued
//! for the consumer in the order of their timestamps and audio samples go to
//! the ring.
//!
//! Frame policy: the queue is bounded. A frame older than the newest frame
//! seen is dropped, and when the queue is full the oldest queued frame is
//! dropped for the new one. Frames are dropped, never reordered.
use std::collections::VecDeque;
use vstd::prelude::*;

use crate::capture::display::Display;
use crate::capture::error::CaptureError;
use crate::capture::ffi::{
    request_seq, BindingLayer, NativeRequest, OpenReply, Settlement, Slot, StreamKind,
};
use crate::capture::frame::{
    lemma_ordered_with, lemma_ordered_without, may_follow, ordered_up_to, timestamps,
    NativeEvent, VideoFrame,
};
use crate::capture::pcm_buffer::{AudioChunk, AudioFormat, ChunkView, PcmBuffer, PcmView};

verus! {

/// What a session is asked to capture, and how much it may buffer.
#[derive(Clone, Copy, Debug, PartialEq, Eq, Structural)]
pub struct CaptureConfig {
    /// Frames per second asked of the video stream.
    pub frame_rate: u32,
    /// The format asked of the audio stream.
    pub audio: AudioFormat,
    /// Room in the audio ring, in sample frames.
    pub audio_buffer_frames: usize,
    /// Room in the frame queue, in frames.
    pub frame_queue_len: usize,
}

impl CaptureConfig {
    /// A configuration that a session can be started with.
    pub open spec fn wf(self) -> bool {
        &&& self.frame_rate > 0
        &&& self.frame_queue_len > 0
        &&& self.audio.wf()
        &&& self.audio_buffer_frames > 0
        &&& self.audio_buffer_frames * self.audio.channels <= usize::MAX
    }

    /// The room of the audio ring in samples.
    pub open spec fn audio_capacity(self) -> nat {
        (self.audio_buffer_frames * self.audio.channels) as nat
    }
}

/// A session: the display it captures and the configuration it was started
/// with.
#[derive(Debug)]
pub struct CaptureSession {
    pub display: Display,
    pub config: CaptureConfig,
}

/// Where the engine stands, as its two streams tell.
#[derive(Clone, Copy, Debug, PartialEq, Eq, Structural)]
pub enum EnginePhase {
    /// No session, nothing open, nothing awaited.
    Stopped,
    /// The video stream was asked for.
    OpeningVideo,
    /// The video stream is open and the audio stream was asked for.
    OpeningAudio,
    /// Both streams are open.
    Running,
    /// The session is over, and an answer to an open request is still
    /// awaited, to give back what it may grant.
    Draining,
}

/// The phase that an account of the two streams stands for.
pub open spec fn phase_of(binding: BindingLayer) -> EnginePhase {
    match (binding.video, binding.audio) {
        (Slot::Empty, Slot::Empty) => EnginePhase::Stopped,
        (Slot::Pending, Slot::Empty) => EnginePhase::OpeningVideo,
        (Slot::Open(_), Slot::Pending) => EnginePhase::OpeningAudio,
        (Slot::Open(_), Slot::Open(_)) => EnginePhase::Running,
        _ => EnginePhase::Draining,
    }
}

/// The accounts that an engine can come to: the four phases of a session,
/// and an abandoned request with nothing else open.
pub open spec fn shape_ok(binding: BindingLayer) -> bool {
    match (binding.video, binding.audio) {
        (Slot::Empty, Slot::Empty) => true,
        (Slot::Pending, Slot::Empty) => true,
        (Slot::Open(_), Slot::Pending) => true,
        (Slot::Open(_), Slot::Open(_)) => true,
        (Slot::Abandoned, Slot::Empty) => true,
        (Slot::Empty, Slot::Abandoned) => true,
        _ => false,
    }
}

/// What one step of the engine asks of the caller and reports to it.
pub struct StepView {
    /// The native calls to perform, in this order, before the engine is
    /// called again.
    pub requests: Seq<NativeRequest>,
    /// The failure that ended the session, if this step ended it.
    pub error: Option<CaptureError>,
}

impl StepView {
    /// A step that asks for nothing and reports nothing.
    pub open spec fn quiet() -> StepView {
        StepView { requests: Seq::empty(), error: None }
    }
}

/// What one step of the engine asks of the caller and reports to it.
#[derive(Debug)]
pub struct EngineStep {
    /// The native calls to perform, in this order, before the engine is
    /// called again.
    pub requests: Vec<NativeRequest>,
    /// The failure that ended the session, if this step ended it.
    pub error: Option<CaptureError>,
}

impl View for EngineStep {
    type V = StepView;

    open spec fn view(&self) -> StepView {
        StepView { requests: self.requests@, error: self.error }
    }
}

/// The engine as its contracts see it.
pub struct EngineView {
    /// The account of the two streams.
    pub binding: BindingLayer,
    /// The session, while there is one.
    pub session: Option<CaptureSession>,
    /// The frames queued for the consumer, oldest first.
    pub frames: Seq<VideoFrame>,
    /// The audio ring of the session.
    pub audio: Option<PcmView>,
    /// The timestamp of the newest frame that the session has queued.
    pub newest: Option<u64>,
    /// The timestamps of the frames handed to the consumer in this session,
    /// in the order in which they were handed out.
    pub delivered: Seq<u64>,
}

impl EngineView {
    /// An engine without a session.
    pub open spec fn idle(binding: BindingLayer) -> EngineView {
        EngineView {
            binding,
            session: None,
            frames: Seq::empty(),
            audio: None,
            newest: None,
            delivered: Seq::empty(),
        }
    }

    /// The phase of the engine.
    pub open spec fn phase(self) -> EnginePhase {
        phase_of(self.binding)
    }

    /// Whether the phase is one in which a session exists.
    pub open spec fn in_session(self) -> bool {
        self.phase() is OpeningVideo || self.phase() is OpeningAudio || self.phase() is Running
    }

    /// The invariant of the engine.
    ///
    /// There is a session exactly while a stream is wanted; without one the
    /// engine holds nothing. The ring has the format and room that the
    /// session asked for, the queue keeps within its room, and the frames
    /// handed out followed by the frames queued have timestamps that never
    /// decrease.
    pub open spec fn wf(self) -> bool {
        &&& shape_ok(self.binding)
        &&& self.session is Some <==> self.in_session()
        &&& match self.session {
            None => self == EngineView::idle(self.binding),
            Some(session) => {
                &&& session.config.wf()
                &&& self.frames.len() <= session.config.frame_queue_len
                &&& self.audio matches Some(ring)
                &&& ring.wf()
                &&& ring.format == session.config.audio
                &&& ring.capacity == session.config.audio_capacity()
            },
        }
        &&& ordered_up_to(self.delivered + timestamps(self.frames), self.newest)
    }

    /// The engine after `start`, and what `start` returns.
    ///
    /// Only a stopped engine starts. A configuration that no session can be
    /// started with makes capture unavailable. Otherwise the session begins
    /// with an empty queue and an empty ring, and the video stream is asked
    /// for.
    pub open spec fn start(self, display: Display, config: CaptureConfig) -> (
        EngineView,
        Result<NativeRequest, CaptureError>,
    ) {
        if !(self.phase() is Stopped) {
            (self, Err(CaptureError::InvalidTransition))
        } else if !config.wf() {
            (self, Err(CaptureError::CaptureUnavailable))
        } else {
            (
                EngineView {
                    binding: self.binding.asked(StreamKind::Video),
                    session: Some(CaptureSession { display, config }),
                    frames: Seq::empty(),
                    audio: Some(PcmView::empty(config.audio, config.audio_capacity())),
                    newest: None,
                    delivered: Seq::empty(),
                },
                Ok(NativeRequest::OpenVideo { display_id: display.id, frame_rate: config.frame_rate }),
            )
        }
    }

    /// The engine after the answer to the video request.
    ///
    /// Granted while awaited: the audio stream is asked for. Refused while
    /// awaited: the session is over, capture is unavailable. A handle that
    /// is not wanted is given back.
    pub open spec fn on_video_reply(self, reply: OpenReply) -> (EngineView, StepView) {
        let (binding, settlement) = self.binding.settled(StreamKind::Video, reply);
        match settlement {
            Settlement::Opened(_) => match self.session {
                Some(session) => (
                    EngineView { binding: binding.asked(StreamKind::Audio), ..self },
                    StepView {
                        requests: seq![NativeRequest::OpenAudio { format: session.config.audio }],
                        error: None,
                    },
                ),
                None => (EngineView { binding, ..self }, StepView::quiet()),
            },
            Settlement::Unavailable => (
                EngineView::idle(binding),
                StepView { requests: Seq::empty(), error: Some(CaptureError::CaptureUnavailable) },
            ),
            Settlement::GivenBack(request) => (
                EngineView { binding, ..self },
                StepView { requests: seq![request], error: None },
            ),
            Settlement::Nothing => (EngineView { binding, ..self }, StepView::quiet()),
        }
    }

    /// The engine after the answer to the audio request.
    ///
    /// Granted while awaited: both streams are open. Refused while awaited:
    /// the video handle is given back, the session is over, capture is
    /// unavailable. A handle that is not wanted is given back.
    pub open spec fn on_audio_reply(self, reply: OpenReply) -> (EngineView, StepView) {
        let (binding, settlement) = self.binding.settled(StreamKind::Audio, reply);
        match settlement {
            Settlement::Opened(_) => (EngineView { binding, ..self }, StepView::quiet()),
            Settlement::Unavailable => {
                let (rest, close) = binding.released(StreamKind::Video);
                (
                    EngineView::idle(rest),
                    StepView {
                        requests: request_seq(close),
                        error: Some(CaptureError::CaptureUnavailable),
                    },
                )
            },
            Settlement::GivenBack(request) => (
                EngineView { binding, ..self },
                StepView { requests: seq![request], error: None },
            ),
            Settlement::Nothing => (EngineView { binding, ..self }, StepView::quiet()),
        }
    }

    /// Whether the engine queues this frame: both streams are open and the
    /// frame is not older than the newest frame seen.
    pub open spec fn takes_frame(self, frame: VideoFrame) -> bool {
        self.phase() is Running && self.session is Some && may_follow(self.newest, frame.timestamp)
    }

    /// The engine after the video callback delivered a frame.
    ///
    /// A frame that is taken goes to the end of the queue; if the queue is
    /// full, the oldest queued frame makes room for it.
    pub open spec fn on_frame(self, frame: VideoFrame) -> EngineView {
        if self.takes_frame(frame) {
            let kept = if self.frames.len() >= self.session->0.config.frame_queue_len {
                self.frames.skip(1)
            } else {
                self.frames
            };
            EngineView { frames: kept.push(frame), newest: Some(frame.timestamp), ..self }
        } else {
            self
        }
    }

    /// The engine after the audio callback delivered samples: while both
    /// streams are open they are written to the ring.
    pub open spec fn on_samples(self, samples: Seq<i32>) -> EngineView {
        match self.audio {
            Some(ring) if self.phase() is Running => EngineView {
                audio: Some(ring.write(samples)),
                ..self
            },
            _ => self,
        }
    }

    /// The engine after `stop`, and the requests that `stop` returns: every
    /// open handle is given back, video first, every awaited answer is
    /// abandoned, and the session is over.
    pub open spec fn stop(self) -> (EngineView, Seq<NativeRequest>) {
        let (first, video) = self.binding.released(StreamKind::Video);
        let (second, audio) = first.released(StreamKind::Audio);
        (EngineView::idle(second), request_seq(video) + request_seq(audio))
    }

    /// Whether a fault ends the session: a stream is open.
    pub open spec fn breaks_on_fault(self) -> bool {
        self.phase() is Running || self.phase() is OpeningAudio
    }

    /// The engine after a stream broke. With a stream open the session ends
    /// as by `stop`, and the failure is reported; without one nothing
    /// happens.
    pub open spec fn on_fault(self) -> (EngineView, StepView) {
        if self.breaks_on_fault() {
            let (after, requests) = self.stop();
            (after, StepView { requests, error: Some(CaptureError::NativeFailure) })
        } else {
            (self, StepView::quiet())
        }
    }

    /// The engine after an event of the native layer, and what the step asks
    /// and reports.
    pub open spec fn on_event(self, event: NativeEvent) -> (EngineView, StepView) {
        match event {
            NativeEvent::VideoReply(reply) => self.on_video_reply(reply),
            NativeEvent::AudioReply(reply) => self.on_audio_reply(reply),
            NativeEvent::Frame(frame) => (self.on_frame(frame), StepView::quiet()),
            NativeEvent::Samples(samples) => (self.on_samples(samples@), StepView::quiet()),
            NativeEvent::Fault => self.on_fault(),
        }
    }

    /// The engine after the consumer asked for a frame, and the frame: the
    /// oldest queued frame, if there is one.
    pub open spec fn next_video_frame(self) -> (EngineView, Option<VideoFrame>) {
        if self.frames.len() > 0 {
            (
                EngineView {
                    frames: self.frames.skip(1),
                    delivered: self.delivered.push(self.frames[0].timestamp),
                    ..self
                },
                Some(self.frames[0]),
            )
        } else {
            (self, None)
        }
    }

    /// The engine after the consumer read at most `max` samples, and what it
    /// got. Without a session there is nothing to read.
    pub open spec fn read_audio(self, max: nat) -> (EngineView, ChunkView) {
        match self.audio {
            Some(ring) => (EngineView { audio: Some(ring.read(max)), ..self }, ring.chunk(max)),
            None => (self, ChunkView { samples: Seq::empty(), overrun: false }),
        }
    }
}

/// The engine. It owns the session and, through the binding layer, the
/// account of the native handles.
pub struct CaptureEngine {
    binding: BindingLayer,
    session: Option<CaptureSession>,
    frames: VecDeque<VideoFrame>,
    audio: Option<PcmBuffer>,
    newest: Option<u64>,
    delivered: Ghost<Seq<u64>>,
}

impl View for CaptureEngine {
    type V = EngineView;

    closed spec fn view(&self) -> EngineView {
        EngineView {
            binding: self.binding,
            session: self.session,
            frames: self.frames@,
            audio: match self.audio {
                Some(ring) => Some(ring@),
                None => None,
            },
            newest: self.newest,
            delivered: self.delivered@,
        }
    }
}

impl CaptureConfig {
    /// Whether a session can be started with this configuration.
    pub fn is_valid(&self) -> (valid: bool)
        ensures
            valid == self.wf(),
    {
        let channels: usize = self.audio.channels as usize;
        self.frame_rate > 0 && self.frame_queue_len > 0 && self.audio.is_valid()
            && self.audio_buffer_frames > 0 && self.audio_buffer_frames.checked_mul(
            channels,
        ).is_some()
    }
}

impl CaptureEngine {
    /// The invariant that every method keeps.
    pub closed spec fn wf(&self) -> bool {
        &&& self@.wf()
        &&& self.audio matches Some(ring) ==> ring.wf()
    }

    /// An engine that keeps its invariant shows a well-formed view.
    pub proof fn lemma_view_wf(&self)
        requires
            self.wf(),
        ensures
            self@.wf(),
    {
    }

    /// A stopped engine.
    pub fn new() -> (engine: CaptureEngine)
        ensures
            engine.wf(),
            engine@ == EngineView::idle(BindingLayer { video: Slot::Empty, audio: Slot::Empty }),
    {
        let engine = CaptureEngine {
            binding: BindingLayer::new(),
            session: None,
            frames: VecDeque::new(),
            audio: None,
            newest: None,
            delivered: Ghost(Seq::empty()),
        };
        proof {
            assert(timestamps(engine@.frames) =~= Seq::<u64>::empty());
        }
        engine
    }

    /// The phase of the engine.
    pub fn phase(&self) -> (phase: EnginePhase)
        ensures
            phase == self@.phase(),
    {
        match (self.binding.video, self.binding.audio) {
            (Slot::Empty, Slot::Empty) => EnginePhase::Stopped,
            (Slot::Pending, Slot::Empty) => EnginePhase::OpeningVideo,
            (Slot::Open(_), Slot::Pending) => EnginePhase::OpeningAudio,
            (Slot::Open(_), Slot::Open(_)) => EnginePhase::Running,
            _ => EnginePhase::Draining,
        }
    }

    /// The number of native handles that the engine holds.
    pub fn open_handles(&self) -> (count: usize)
        ensures
            count == self@.binding.held(),
    {
        self.binding.open_handles()
    }

    /// The number of frames queued for the consumer.
    pub fn queued_frames(&self) -> (count: usize)
        ensures
            count == self@.frames.len(),
    {
        self.frames.len()
    }

    /// Ends the session in the fields: nothing queued, no ring.
    fn drop_session(&mut self)
        ensures
            final(self)@ == EngineView::idle(old(self)@.binding),
    {
        self.session = None;
        self.frames.clear();
        self.audio = None;
        self.newest = None;
        self.delivered = Ghost(Seq::empty());
    }

    /// Begins a session on `display`: the request that opens the video
    /// stream.
    ///
    /// `InvalidTransition` unless the engine is stopped, `CaptureUnavailable`
    /// for a configuration that no session can be started with; either way
    /// nothing changes.
    pub fn start(&mut self, display: Display, config: CaptureConfig) -> (request: Result<
        NativeRequest,
        CaptureError,
    >)
        requires
            old(self).wf(),
        ensures
            final(self).wf(),
            (final(self)@, request) == old(self)@.start(display, config),
    {
        match self.phase() {
            EnginePhase::Stopped => {},
            _ => {
                return Err(CaptureError::InvalidTransition);
            },
        }
        if !config.is_valid() {
            return Err(CaptureError::CaptureUnavailable);
        }
        let ring = match PcmBuffer::new(config.audio, config.audio_buffer_frames) {
            Some(ring) => ring,
            None => {
                return Err(CaptureError::CaptureUnavailable);
            },
        };
        let request = match self.binding.open_video_capture(&display, config.frame_rate) {
            Some(request) => request,
            None => {
                return Err(CaptureError::InvalidTransition);
            },
        };
        proof {
            ring.lemma_view_wf();
        }
        self.session = Some(CaptureSession { display, config });
        self.frames.clear();
        self.audio = Some(ring);
        self.newest = None;
        self.delivered = Ghost(Seq::empty());
        proof {
            assert(timestamps(self@.frames) =~= Seq::<u64>::empty());
            assert(self@.delivered + timestamps(self@.frames) =~= Seq::<u64>::empty());
        }
        Ok(request)
    }

    /// Takes the answer to the video request.
    pub fn video_reply(&mut self, reply: OpenReply) -> (step: EngineStep)
        requires
            old(self).wf(),
        ensures
            final(self).wf(),
            (final(self)@, step@) == old(self)@.on_video_reply(reply),
    {
        let mut requests: Vec<NativeRequest> = Vec::new();
        let mut error: Option<CaptureError> = None;
        match self.binding.settle(StreamKind::Video, reply) {
            Settlement::Opened(_) => {
                let format = match &self.session {
                    Some(session) => Some(session.config.audio),
                    None => None,
                };
                if let Some(format) = format {
                    if let Some(request) = self.binding.open_audio_capture(format) {
                        requests.push(request);
                    }
                }
            },
            Settlement::Unavailable => {
                self.drop_session();
                error = Some(CaptureError::CaptureUnavailable);
            },
            Settlement::GivenBack(request) => {
                requests.push(request);
            },
            Settlement::Nothing => {},
        }
        proof {
            assert(self@.session is None ==> self@.delivered + timestamps(self@.frames)
                =~= Seq::<u64>::empty());
            assert(requests@ =~= old(self)@.on_video_reply(reply).1.requests);
        }
        EngineStep { requests, error }
    }

    /// Takes the answer to the audio request.
    pub fn audio_reply(&mut self, reply: OpenReply) -> (step: EngineStep)
        requires
            old(self).wf(),
        ensures
            final(self).wf(),
            (final(self)@, step@) == old(self)@.on_audio_reply(reply),
    {
        let mut requests: Vec<NativeRequest> = Vec::new();
        let mut error: Option<CaptureError> = None;
        match self.binding.settle(StreamKind::Audio, reply) {
            Settlement::Opened(_) => {},
            Settlement::Unavailable => {
                if let Some(request) = self.binding.release(StreamKind::Video) {
                    requests.push(request);
                }
                self.drop_session();
                error = Some(CaptureError::CaptureUnavailable);
            },
            Settlement::GivenBack(request) => {
                requests.push(request);
            },
            Settlement::Nothing => {},
        }
        proof {
            assert(self@.session is None ==> self@.delivered + timestamps(self@.frames)
                =~= Seq::<u64>::empty());
            assert(requests@ =~= old(self)@.on_audio_reply(reply).1.requests);
        }
        EngineStep { requests, error }
    }

    /// Takes a frame from the video callback: queues it for the consumer, or
    /// drops it. Returns whether the frame was queued.
    pub fn accept_frame(&mut self, frame: VideoFrame) -> (queued: bool)
        requires
            old(self).wf(),
        ensures
            final(self).wf(),
            final(self)@ == old(self)@.on_frame(frame),
            queued == old(self)@.takes_frame(frame),
    {
        let room: usize = match (&self.session, self.phase()) {
            (Some(session), EnginePhase::Running) => session.config.frame_queue_len,
            _ => {
                return false;
            },
        };
        if let Some(newest) = self.newest {
            if frame.timestamp < newest {
                return false;
            }
        }
        let ghost stamps = self@.delivered + timestamps(self@.frames);
        let ghost at = self@.delivered.len() as int;
        if self.frames.len() >= room {
            let dropped = self.frames.pop_front();
            proof {
                assert(self@.frames =~= old(self)@.frames.skip(1));
                lemma_ordered_without(stamps, self@.newest, at);
                assert(self@.delivered + timestamps(self@.frames) =~= stamps.remove(at));
            }
        }
        let ghost kept = self@.delivered + timestamps(self@.frames);
        let timestamp: u64 = frame.timestamp;
        self.frames.push_back(frame);
        self.newest = Some(timestamp);
        proof {
            lemma_ordered_with(kept, old(self)@.newest, timestamp);
            assert(self@.delivered + timestamps(self@.frames) =~= kept.push(timestamp));
        }
        true
    }

    /// Takes samples from the audio callback: while both streams are open
    /// they are written to the ring. Returns how many samples the ring took.
    pub fn accept_samples(&mut self, samples: &[i32]) -> (taken: usize)
        requires
            old(self).wf(),
        ensures
            final(self).wf(),
            final(self)@ == old(self)@.on_samples(samples@),
            taken == match old(self)@.audio {
                Some(ring) if old(self)@.phase() is Running => ring.accepted(samples@.len()),
                _ => 0,
            },
    {
        match self.phase() {
            EnginePhase::Running => {},
            _ => {
                return 0;
            },
        }
        match &mut self.audio {
            Some(ring) => {
                let taken = ring.write(samples);
                proof {
                    ring.lemma_view_wf();
                }
                taken
            },
            None => 0,
        }
    }

    /// Ends the session: the requests that give back every open handle,
    /// video first. An awaited answer is abandoned, so that a handle it may
    /// still grant is given back when it comes. Stopping a stopped engine
    /// changes nothing and asks for nothing.
    pub fn stop(&mut self) -> (requests: Vec<NativeRequest>)
        requires
            old(self).wf(),
        ensures
            final(self).wf(),
            (final(self)@, requests@) == old(self)@.stop(),
    {
        let mut requests: Vec<NativeRequest> = Vec::new();
        if let Some(request) = self.binding.release(StreamKind::Video) {
            requests.push(request);
        }
        if let Some(request) = self.binding.release(StreamKind::Audio) {
            requests.push(request);
        }
        self.drop_session();
        proof {
            assert(timestamps(self@.frames) =~= Seq::<u64>::empty());
            assert(self@.delivered + timestamps(self@.frames) =~= Seq::<u64>::empty());
            assert(requests@ =~= old(self)@.stop().1);
        }
        requests
    }

    /// Takes the report that a stream broke.
    pub fn fault(&mut self) -> (step: EngineStep)
        requires
            old(self).wf(),
        ensures
            final(self).wf(),
            (final(self)@, step@) == old(self)@.on_fault(),
    {
        match self.phase() {
            EnginePhase::Running | EnginePhase::OpeningAudio => {
                let requests = self.stop();
                EngineStep { requests, error: Some(CaptureError::NativeFailure) }
            },
            _ => EngineStep { requests: Vec::new(), error: None },
        }
    }

    /// Takes an event of the native layer.
    pub fn handle_event(&mut self, event: NativeEvent) -> (step: EngineStep)
        requires
            old(self).wf(),
        ensures
            final(self).wf(),
            (final(self)@, step@) == old(self)@.on_event(event),
    {
        match event {
            NativeEvent::VideoReply(reply) => self.video_reply(reply),
            NativeEvent::AudioReply(reply) => self.audio_reply(reply),
            NativeEvent::Frame(frame) => {
                self.accept_frame(frame);
                EngineStep { requests: Vec::new(), error: None }
            },
            NativeEvent::Samples(samples) => {
                self.accept_samples(samples.as_slice());
                EngineStep { requests: Vec::new(), error: None }
            },
            NativeEvent::Fault => self.fault(),
        }
    }

    /// Hands the oldest queued frame to the consumer, if there is one. A
    /// frame is handed out once.
    pub fn next_video_frame(&mut self) -> (frame: Option<VideoFrame>)
        requires
            old(self).wf(),
        ensures
            final(self).wf(),
            (final(self)@, frame) == old(self)@.next_video_frame(),
    {
        let frame = self.frames.pop_front();
        if let Some(f) = &frame {
            self.delivered = Ghost(self.delivered@.push(f.timestamp));
            proof {
                assert(self@.frames =~= old(self)@.frames.skip(1));
                assert(self@.delivered + timestamps(self@.frames) =~= old(self)@.delivered
                    + timestamps(old(self)@.frames));
            }
        }
        frame
    }

    /// Reads at most `max_samples` samples from the ring of the session.
    /// Without a session the chunk is empty.
    pub fn read_audio(&mut self, max_samples: usize) -> (chunk: AudioChunk)
        requires
            old(self).wf(),
        ensures
            final(self).wf(),
            chunk.wf(),
            (final(self)@, chunk@) == old(self)@.read_audio(max_samples as nat),
    {
        match &mut self.audio {
            Some(ring) => {
                let chunk = ring.read(max_samples);
                proof {
                    ring.lemma_view_wf();
                }
                chunk
            },
            None => AudioChunk::silence(),
        }
    }
}

} // verus!
