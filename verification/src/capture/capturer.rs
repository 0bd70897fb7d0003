//! The capturer: what the sharing page talks to. It holds the room that is
//! being shared into and the recorder that feeds it.
use vstd::prelude::*;

use crate::capture::capture_engine::{CaptureConfig, EngineStep};
use crate::capture::display::Display;
use crate::capture::error::CaptureError;
use crate::capture::ffi::NativeRequest;
use crate::capture::frame::NativeEvent;
use crate::capture::screen_recorder::{RecorderState, RecorderView, ScreenRecorder};

verus! {

/// The room that viewers join.
#[derive(Clone, Debug, PartialEq, Eq)]
pub struct Room {
    pub id: String,
    pub password: String,
    pub invite_link: String,
}

/// The capturer as its contracts see it.
pub struct CapturerView {
    /// The room, while one is open.
    pub room: Option<Room>,
    pub recorder: RecorderView,
}

impl CapturerView {
    /// The capturer after `shutdown`, and the requests that `shutdown`
    /// returns: the room is closed and the recorder is stopped.
    pub open spec fn shutdown(self) -> (CapturerView, Seq<NativeRequest>) {
        (CapturerView { room: None, recorder: self.recorder.stop().0 }, self.recorder.stop().1)
    }
}

/// The capturer.
pub struct Capturer {
    room: Option<Room>,
    recorder: ScreenRecorder,
}

impl View for Capturer {
    type V = CapturerView;

    closed spec fn view(&self) -> CapturerView {
        CapturerView { room: self.room, recorder: self.recorder@ }
    }
}

/// What a getter of the room hands out: a copy of the field, if there is a
/// room.
pub open spec fn copy_of(copy: Option<String>, field: Option<String>) -> bool {
    match (copy, field) {
        (Some(c), Some(f)) => c@ == f@,
        (None, None) => true,
        _ => false,
    }
}

impl Capturer {
    /// The invariant that every method keeps.
    pub closed spec fn wf(&self) -> bool {
        self.recorder.wf()
    }

    /// A capturer that keeps its invariant shows a well-formed recorder.
    pub proof fn lemma_view_wf(&self)
        requires
            self.wf(),
        ensures
            self@.recorder.wf(),
    {
        self.recorder.lemma_view_wf();
    }

    /// A capturer without a room, with an idle recorder.
    pub fn new() -> (capturer: Capturer)
        ensures
            capturer.wf(),
            capturer@ == (CapturerView { room: None, recorder: RecorderView::fresh() }),
    {
        Capturer { room: None, recorder: ScreenRecorder::new() }
    }

    /// Opens `room`, in place of the room that was open.
    pub fn open_room(&mut self, room: Room)
        requires
            old(self).wf(),
        ensures
            final(self).wf(),
            final(self)@ == (CapturerView { room: Some(room), ..old(self)@ }),
    {
        self.room = Some(room);
    }

    /// The state of the recorder.
    pub fn state(&self) -> (state: RecorderState)
        ensures
            state == self@.recorder.state,
    {
        self.recorder.state()
    }

    /// Starts the recorder on `display`.
    pub fn start(&mut self, display: Display, config: CaptureConfig) -> (request: Result<
        NativeRequest,
        CaptureError,
    >)
        requires
            old(self).wf(),
        ensures
            final(self).wf(),
            final(self)@.room == old(self)@.room,
            (final(self)@.recorder, request) == old(self)@.recorder.start(display, config),
    {
        self.recorder.start(display, config)
    }

    /// Hands an event of the native layer to the recorder.
    pub fn handle_event(&mut self, event: NativeEvent) -> (step: EngineStep)
        requires
            old(self).wf(),
        ensures
            final(self).wf(),
            final(self)@.room == old(self)@.room,
            (final(self)@.recorder, step@) == old(self)@.recorder.on_event(event),
    {
        self.recorder.handle_event(event)
    }

    /// The link that invites into the room, if a room is open.
    pub fn get_invite_link(&self) -> (link: Option<String>)
        ensures
            copy_of(
                link,
                match self@.room {
                    Some(room) => Some(room.invite_link),
                    None => None,
                },
            ),
    {
        match &self.room {
            Some(room) => Some(room.invite_link.clone()),
            None => None,
        }
    }

    /// The identifier of the room, if a room is open.
    pub fn get_room_id(&self) -> (id: Option<String>)
        ensures
            copy_of(
                id,
                match self@.room {
                    Some(room) => Some(room.id),
                    None => None,
                },
            ),
    {
        match &self.room {
            Some(room) => Some(room.id.clone()),
            None => None,
        }
    }

    /// The password of the room, if a room is open.
    pub fn get_room_password(&self) -> (password: Option<String>)
        ensures
            copy_of(
                password,
                match self@.room {
                    Some(room) => Some(room.password),
                    None => None,
                },
            ),
    {
        match &self.room {
            Some(room) => Some(room.password.clone()),
            None => None,
        }
    }

    /// Ends the sharing: closes the room and stops the recorder. Returns the
    /// requests that give back every open native handle. A second shutdown
    /// changes nothing and asks for nothing.
    pub fn shutdown(&mut self) -> (requests: Vec<NativeRequest>)
        requires
            old(self).wf(),
        ensures
            final(self).wf(),
            (final(self)@, requests@) == old(self)@.shutdown(),
    {
        self.room = None;
        self.recorder.stop()
    }
}

} // verus!
