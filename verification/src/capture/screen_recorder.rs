//! The recorder: the state machine that callers drive.
//!
//! ```text
//! Idle      --start-->                 Starting
//! Starting  --both streams open-->     Recording
//! Starting  --a stream refused-->      Failed
//! Recording --pause-->                 Paused
//! Paused    --resume-->                Recording
//! Recording, Paused --stop-->          Idle
//! Starting  --stop-->                  Stopping --answer settled--> Idle
//! Recording, Paused --stream broke-->  Failed
//! Failed    --reset-->                 Idle
//! ```
//!
//! `stop` is accepted in every state and never fails: where there is nothing
//! to stop it changes nothing. Every other call that the table does not list
//! is refused with `InvalidTransition` and changes nothing. The methods take
//! `&mut self`, so transitions cannot overlap.
//!
//! While paused the native streams stay open; frames and samples that arrive
//! are discarded, and nothing is handed to the consumer.
use vstd::prelude::*;

use crate::capture::capture_engine::{
    CaptureConfig, CaptureEngine, EnginePhase, EngineStep, EngineView, StepView,
};
use crate::capture::display::Display;
use crate::capture::error::CaptureError;
use crate::capture::ffi::{BindingLayer, NativeRequest, Slot};
use crate::capture::frame::{NativeEvent, VideoFrame};
use crate::capture::pcm_buffer::{AudioChunk, ChunkView};

verus! {

/// The states of the recorder.
#[derive(Clone, Copy, Debug, PartialEq, Eq, Structural)]
pub enum RecorderState {
    /// No session. The state a recorder begins in and comes back to.
    Idle,
    /// A session was asked for and its streams are being opened.
    Starting,
    /// Both streams are open and media flows to the consumer.
    Recording,
    /// Both streams are open and nothing is handed to the consumer.
    Paused,
    /// The session was stopped while a stream was being opened; the answer
    /// is awaited, to give back what it may grant.
    Stopping,
    /// The session failed. Only `reset` leaves this state.
    Failed,
}

/// The state that the recorder is in once the engine has taken an event.
pub open spec fn after_event(state: RecorderState, phase: EnginePhase) -> RecorderState {
    match state {
        RecorderState::Starting => match phase {
            EnginePhase::Running => RecorderState::Recording,
            EnginePhase::Stopped => RecorderState::Failed,
            _ => RecorderState::Starting,
        },
        RecorderState::Recording => if phase is Running {
            RecorderState::Recording
        } else {
            RecorderState::Failed
        },
        RecorderState::Paused => if phase is Running {
            RecorderState::Paused
        } else {
            RecorderState::Failed
        },
        RecorderState::Stopping => if phase is Stopped {
            RecorderState::Idle
        } else {
            RecorderState::Stopping
        },
        RecorderState::Idle => RecorderState::Idle,
        RecorderState::Failed => RecorderState::Failed,
    }
}

/// The recorder as its contracts see it.
pub struct RecorderView {
    pub state: RecorderState,
    pub engine: EngineView,
}

impl RecorderView {
    /// A recorder that has done nothing yet.
    pub open spec fn fresh() -> RecorderView {
        RecorderView {
            state: RecorderState::Idle,
            engine: EngineView::idle(BindingLayer { video: Slot::Empty, audio: Slot::Empty }),
        }
    }

    /// The invariant of the recorder: the state agrees with the phase of the
    /// engine.
    pub open spec fn wf(self) -> bool {
        &&& self.engine.wf()
        &&& match self.state {
            RecorderState::Idle => self.engine.phase() is Stopped,
            RecorderState::Failed => self.engine.phase() is Stopped,
            RecorderState::Starting => self.engine.phase() is OpeningVideo
                || self.engine.phase() is OpeningAudio || self.engine.phase() is Draining,
            RecorderState::Recording => self.engine.phase() is Running,
            RecorderState::Paused => self.engine.phase() is Running,
            RecorderState::Stopping => self.engine.phase() is Draining,
        }
    }

    /// The recorder after `start`, and what `start` returns.
    pub open spec fn start(self, display: Display, config: CaptureConfig) -> (
        RecorderView,
        Result<NativeRequest, CaptureError>,
    ) {
        if !(self.state is Idle) {
            (self, Err(CaptureError::InvalidTransition))
        } else {
            let (engine, result) = self.engine.start(display, config);
            let state = if result is Ok {
                RecorderState::Starting
            } else {
                RecorderState::Failed
            };
            (RecorderView { state, engine }, result)
        }
    }

    /// The recorder after `pause`, and what `pause` returns.
    pub open spec fn pause(self) -> (RecorderView, Result<(), CaptureError>) {
        if self.state is Recording {
            (RecorderView { state: RecorderState::Paused, ..self }, Ok(()))
        } else {
            (self, Err(CaptureError::InvalidTransition))
        }
    }

    /// The recorder after `resume`, and what `resume` returns.
    pub open spec fn resume(self) -> (RecorderView, Result<(), CaptureError>) {
        if self.state is Paused {
            (RecorderView { state: RecorderState::Recording, ..self }, Ok(()))
        } else {
            (self, Err(CaptureError::InvalidTransition))
        }
    }

    /// The recorder after `reset`, and what `reset` returns.
    pub open spec fn reset(self) -> (RecorderView, Result<(), CaptureError>) {
        if self.state is Failed {
            (RecorderView { state: RecorderState::Idle, ..self }, Ok(()))
        } else {
            (self, Err(CaptureError::InvalidTransition))
        }
    }

    /// Whether there is a session for `stop` to end.
    pub open spec fn has_session_to_stop(self) -> bool {
        self.state is Starting || self.state is Recording || self.state is Paused
    }

    /// The recorder after `stop`, and the requests that `stop` returns.
    pub open spec fn stop(self) -> (RecorderView, Seq<NativeRequest>) {
        if self.has_session_to_stop() {
            let (engine, requests) = self.engine.stop();
            let state = if engine.phase() is Stopped {
                RecorderState::Idle
            } else {
                RecorderState::Stopping
            };
            (RecorderView { state, engine }, requests)
        } else {
            (self, Seq::empty())
        }
    }

    /// Whether the recorder discards this event unseen: media that arrives
    /// while paused.
    pub open spec fn discards(self, event: NativeEvent) -> bool {
        self.state is Paused && (event is Frame || event is Samples)
    }

    /// The recorder after an event of the native layer, and what the step
    /// asks and reports.
    pub open spec fn on_event(self, event: NativeEvent) -> (RecorderView, StepView) {
        if self.discards(event) {
            (self, StepView::quiet())
        } else {
            let (engine, step) = self.engine.on_event(event);
            (RecorderView { state: after_event(self.state, engine.phase()), engine }, step)
        }
    }

    /// The recorder after the consumer asked for a frame, and the frame.
    /// Frames are handed out only while recording.
    pub open spec fn next_video_frame(self) -> (RecorderView, Option<VideoFrame>) {
        if self.state is Recording {
            let (engine, frame) = self.engine.next_video_frame();
            (RecorderView { engine, ..self }, frame)
        } else {
            (self, None)
        }
    }

    /// The recorder after the consumer read at most `max` samples, and what
    /// it got. Samples are handed out only while recording.
    pub open spec fn read_audio(self, max: nat) -> (RecorderView, ChunkView) {
        if self.state is Recording {
            let (engine, chunk) = self.engine.read_audio(max);
            (RecorderView { engine, ..self }, chunk)
        } else {
            (self, ChunkView { samples: Seq::empty(), overrun: false })
        }
    }
}

/// The recorder.
pub struct ScreenRecorder {
    state: RecorderState,
    engine: CaptureEngine,
}

impl View for ScreenRecorder {
    type V = RecorderView;

    closed spec fn view(&self) -> RecorderView {
        RecorderView { state: self.state, engine: self.engine@ }
    }
}

impl ScreenRecorder {
    /// The invariant that every method keeps.
    pub closed spec fn wf(&self) -> bool {
        &&& self@.wf()
        &&& self.engine.wf()
    }

    /// A recorder that keeps its invariant shows a well-formed view.
    pub proof fn lemma_view_wf(&self)
        requires
            self.wf(),
        ensures
            self@.wf(),
    {
    }

    /// An idle recorder.
    pub fn new() -> (recorder: ScreenRecorder)
        ensures
            recorder.wf(),
            recorder@ == RecorderView::fresh(),
    {
        ScreenRecorder { state: RecorderState::Idle, engine: CaptureEngine::new() }
    }

    /// The state of the recorder.
    pub fn state(&self) -> (state: RecorderState)
        ensures
            state == self@.state,
    {
        self.state
    }

    /// The number of native handles that the recorder holds.
    pub fn open_handles(&self) -> (count: usize)
        ensures
            count == self@.engine.binding.held(),
    {
        self.engine.open_handles()
    }

    /// Starts a session on `display`: the request that opens the video
    /// stream.
    ///
    /// Only an idle recorder starts; from any other state the call is
    /// refused with `InvalidTransition` and nothing changes. A configuration
    /// that no session can be started with fails the recorder with
    /// `CaptureUnavailable`. Whether the streams could be opened shows later,
    /// when their answers are handed to [`ScreenRecorder::handle_event`].
    pub fn start(&mut self, display: Display, config: CaptureConfig) -> (request: Result<
        NativeRequest,
        CaptureError,
    >)
        requires
            old(self).wf(),
        ensures
            final(self).wf(),
            (final(self)@, request) == old(self)@.start(display, config),
    {
        match self.state {
            RecorderState::Idle => {},
            _ => {
                return Err(CaptureError::InvalidTransition);
            },
        }
        let request = self.engine.start(display, config);
        proof {
            self.engine.lemma_view_wf();
        }
        self.state = if request.is_ok() {
            RecorderState::Starting
        } else {
            RecorderState::Failed
        };
        request
    }

    /// Suspends the delivery of media. Only a recording recorder pauses.
    pub fn pause(&mut self) -> (done: Result<(), CaptureError>)
        requires
            old(self).wf(),
        ensures
            final(self).wf(),
            (final(self)@, done) == old(self)@.pause(),
    {
        match self.state {
            RecorderState::Recording => {
                self.state = RecorderState::Paused;
                Ok(())
            },
            _ => Err(CaptureError::InvalidTransition),
        }
    }

    /// Takes up the delivery of media again. Only a paused recorder resumes.
    pub fn resume(&mut self) -> (done: Result<(), CaptureError>)
        requires
            old(self).wf(),
        ensures
            final(self).wf(),
            (final(self)@, done) == old(self)@.resume(),
    {
        match self.state {
            RecorderState::Paused => {
                self.state = RecorderState::Recording;
                Ok(())
            },
            _ => Err(CaptureError::InvalidTransition),
        }
    }

    /// Makes a failed recorder idle again. Nothing is retried.
    pub fn reset(&mut self) -> (done: Result<(), CaptureError>)
        requires
            old(self).wf(),
        ensures
            final(self).wf(),
            (final(self)@, done) == old(self)@.reset(),
    {
        match self.state {
            RecorderState::Failed => {
                self.state = RecorderState::Idle;
                Ok(())
            },
            _ => Err(CaptureError::InvalidTransition),
        }
    }

    /// Stops the session: the requests that give back every open handle.
    ///
    /// Accepted in every state. With both streams open the recorder is idle
    /// at once. While a stream is being opened the recorder is stopping
    /// until the answer has come, and a handle that the answer grants is
    /// given back then. Without a session nothing changes and nothing is
    /// asked for, so a second `stop` gives nothing back twice.
    pub fn stop(&mut self) -> (requests: Vec<NativeRequest>)
        requires
            old(self).wf(),
        ensures
            final(self).wf(),
            (final(self)@, requests@) == old(self)@.stop(),
    {
        match self.state {
            RecorderState::Starting | RecorderState::Recording | RecorderState::Paused => {
                let requests = self.engine.stop();
                proof {
                    self.engine.lemma_view_wf();
                }
                self.state = match self.engine.phase() {
                    EnginePhase::Stopped => RecorderState::Idle,
                    _ => RecorderState::Stopping,
                };
                requests
            },
            _ => Vec::new(),
        }
    }

    /// Takes an event of the native layer: the requests to perform, and the
    /// failure that ended the session if the event ended it.
    pub fn handle_event(&mut self, event: NativeEvent) -> (step: EngineStep)
        requires
            old(self).wf(),
        ensures
            final(self).wf(),
            (final(self)@, step@) == old(self)@.on_event(event),
    {
        let discard = match (self.state, &event) {
            (RecorderState::Paused, NativeEvent::Frame(_)) => true,
            (RecorderState::Paused, NativeEvent::Samples(_)) => true,
            _ => false,
        };
        if discard {
            return EngineStep { requests: Vec::new(), error: None };
        }
        let step = self.engine.handle_event(event);
        proof {
            self.engine.lemma_view_wf();
        }
        let phase = self.engine.phase();
        self.state = match self.state {
            RecorderState::Starting => match phase {
                EnginePhase::Running => RecorderState::Recording,
                EnginePhase::Stopped => RecorderState::Failed,
                _ => RecorderState::Starting,
            },
            RecorderState::Recording => match phase {
                EnginePhase::Running => RecorderState::Recording,
                _ => RecorderState::Failed,
            },
            RecorderState::Paused => match phase {
                EnginePhase::Running => RecorderState::Paused,
                _ => RecorderState::Failed,
            },
            RecorderState::Stopping => match phase {
                EnginePhase::Stopped => RecorderState::Idle,
                _ => RecorderState::Stopping,
            },
            RecorderState::Idle => RecorderState::Idle,
            RecorderState::Failed => RecorderState::Failed,
        };
        step
    }

    /// Hands the oldest queued frame to the consumer, while recording. In
    /// any other state there is no frame.
    pub fn next_video_frame(&mut self) -> (frame: Option<VideoFrame>)
        requires
            old(self).wf(),
        ensures
            final(self).wf(),
            (final(self)@, frame) == old(self)@.next_video_frame(),
    {
        match self.state {
            RecorderState::Recording => {
                let frame = self.engine.next_video_frame();
                proof {
                    self.engine.lemma_view_wf();
                }
                frame
            },
            _ => None,
        }
    }

    /// Reads at most `max_samples` samples, while recording. In any other
    /// state the chunk is empty.
    pub fn read_audio(&mut self, max_samples: usize) -> (chunk: AudioChunk)
        requires
            old(self).wf(),
        ensures
            final(self).wf(),
            chunk.wf(),
            (final(self)@, chunk@) == old(self)@.read_audio(max_samples as nat),
    {
        match self.state {
            RecorderState::Recording => {
                let chunk = self.engine.read_audio(max_samples);
                proof {
                    self.engine.lemma_view_wf();
                }
                chunk
            },
            _ => AudioChunk::silence(),
        }
    }
}

} // verus!
