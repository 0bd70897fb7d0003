//! The boundary to the native capture interfaces.
//!
//! Nothing here calls the operating system. A native call is handed out as a
//! [`NativeRequest`]; the caller performs it and hands back what the
//! operating system answered. The [`BindingLayer`] keeps the account: which
//! streams were asked for, which handles were granted, which were given back.
//! A handle that was granted is given back exactly once, and a request that
//! is no longer wanted is remembered until its answer has come.
use vstd::prelude::*;

use crate::capture::display::Display;
use crate::capture::error::CaptureError;
use crate::capture::pcm_buffer::AudioFormat;

verus! {

/// The two streams of a session.
#[derive(Clone, Copy, Debug, PartialEq, Eq, Structural)]
pub enum StreamKind {
    Video,
    Audio,
}

/// An open native stream: the kind of stream and the number by which the
/// operating system knows it.
#[derive(Clone, Copy, Debug, PartialEq, Eq, Structural)]
pub struct NativeHandle {
    pub kind: StreamKind,
    pub raw: u64,
}

/// A native call for the caller to perform.
#[derive(Clone, Copy, Debug, PartialEq, Eq, Structural)]
pub enum NativeRequest {
    /// Open the video stream of this display at this frame rate.
    OpenVideo { display_id: u32, frame_rate: u32 },
    /// Open the audio stream in this format.
    OpenAudio { format: AudioFormat },
    /// Give this handle back to the operating system.
    Close(NativeHandle),
}

/// What the operating system answered to a request to open a stream.
#[derive(Clone, Copy, Debug, PartialEq, Eq, Structural)]
pub enum OpenReply {
    /// The stream is open under this number.
    Granted(u64),
    /// Permission was denied.
    Denied,
    /// The device is gone.
    Vanished,
}

/// The account of one stream.
#[derive(Clone, Copy, Debug, PartialEq, Eq, Structural)]
pub enum Slot {
    /// Nothing is open and nothing was asked for.
    Empty,
    /// The stream was asked for and the answer is awaited.
    Pending,
    /// The stream was asked for and is no longer wanted: if the answer
    /// grants a handle, the handle is given back at once.
    Abandoned,
    /// The stream is open under this number.
    Open(u64),
}

/// What an answer to an open request came to.
#[derive(Clone, Copy, Debug, PartialEq, Eq, Structural)]
pub enum Settlement {
    /// The stream is open and the account holds the handle.
    Opened(NativeHandle),
    /// The stream that was asked for could not be opened.
    Unavailable,
    /// A handle was granted that is not wanted: it has to be given back with
    /// this request.
    GivenBack(NativeRequest),
    /// Nothing was granted and nothing was awaited.
    Nothing,
}

/// The account of the two streams.
#[derive(Clone, Copy, Debug, PartialEq, Eq, Structural)]
pub struct BindingLayer {
    pub video: Slot,
    pub audio: Slot,
}

impl OpenReply {
    /// How many handles the answer grants.
    pub open spec fn grants(self) -> nat {
        if self is Granted {
            1
        } else {
            0
        }
    }
}

impl BindingLayer {
    /// The account of one of the two streams.
    pub open spec fn slot(self, kind: StreamKind) -> Slot {
        match kind {
            StreamKind::Video => self.video,
            StreamKind::Audio => self.audio,
        }
    }

    /// This account with the account of one stream replaced.
    pub open spec fn with_slot(self, kind: StreamKind, slot: Slot) -> BindingLayer {
        match kind {
            StreamKind::Video => BindingLayer { video: slot, ..self },
            StreamKind::Audio => BindingLayer { audio: slot, ..self },
        }
    }

    /// Whether this handle is open.
    pub open spec fn is_open(self, handle: NativeHandle) -> bool {
        self.slot(handle.kind) == Slot::Open(handle.raw)
    }

    /// How many handles of this kind are open: one or none.
    pub open spec fn held_of(self, kind: StreamKind) -> nat {
        if self.slot(kind) is Open {
            1
        } else {
            0
        }
    }

    /// How many handles are open.
    pub open spec fn held(self) -> nat {
        self.held_of(StreamKind::Video) + self.held_of(StreamKind::Audio)
    }

    /// The account after a stream was asked for. Only a stream with an empty
    /// account can be asked for.
    pub open spec fn asked(self, kind: StreamKind) -> BindingLayer {
        if self.slot(kind) is Empty {
            self.with_slot(kind, Slot::Pending)
        } else {
            self
        }
    }

    /// The account after the answer to an open request, and what the answer
    /// came to.
    pub open spec fn settled(self, kind: StreamKind, reply: OpenReply) -> (BindingLayer, Settlement) {
        match (self.slot(kind), reply) {
            (Slot::Pending, OpenReply::Granted(raw)) => (
                self.with_slot(kind, Slot::Open(raw)),
                Settlement::Opened(NativeHandle { kind, raw }),
            ),
            (Slot::Pending, _) => (self.with_slot(kind, Slot::Empty), Settlement::Unavailable),
            (Slot::Abandoned, OpenReply::Granted(raw)) => (
                self.with_slot(kind, Slot::Empty),
                Settlement::GivenBack(NativeRequest::Close(NativeHandle { kind, raw })),
            ),
            (Slot::Abandoned, _) => (self.with_slot(kind, Slot::Empty), Settlement::Nothing),
            (_, OpenReply::Granted(raw)) => (
                self,
                Settlement::GivenBack(NativeRequest::Close(NativeHandle { kind, raw })),
            ),
            (_, _) => (self, Settlement::Nothing),
        }
    }

    /// The account after a stream is let go, and the request that gives its
    /// handle back, if it had one. A stream that is awaited becomes
    /// abandoned.
    pub open spec fn released(self, kind: StreamKind) -> (BindingLayer, Option<NativeRequest>) {
        match self.slot(kind) {
            Slot::Open(raw) => (
                self.with_slot(kind, Slot::Empty),
                Some(NativeRequest::Close(NativeHandle { kind, raw })),
            ),
            Slot::Pending => (self.with_slot(kind, Slot::Abandoned), None),
            _ => (self, None),
        }
    }

    /// An account with nothing open and nothing asked for.
    pub fn new() -> (binding: BindingLayer)
        ensures
            binding == (BindingLayer { video: Slot::Empty, audio: Slot::Empty }),
    {
        BindingLayer { video: Slot::Empty, audio: Slot::Empty }
    }

    /// Whether this handle is open.
    pub fn holds(&self, handle: NativeHandle) -> (open: bool)
        ensures
            open == self.is_open(handle),
    {
        let slot = match handle.kind {
            StreamKind::Video => self.video,
            StreamKind::Audio => self.audio,
        };
        match slot {
            Slot::Open(raw) => raw == handle.raw,
            _ => false,
        }
    }

    /// The number of open handles.
    pub fn open_handles(&self) -> (count: usize)
        ensures
            count == self.held(),
    {
        let video: usize = match self.video {
            Slot::Open(_) => 1,
            _ => 0,
        };
        let audio: usize = match self.audio {
            Slot::Open(_) => 1,
            _ => 0,
        };
        video + audio
    }

    /// Asks for the video stream of `display` at `frame_rate` frames per
    /// second: the request to perform, or `None`, with nothing changed, if
    /// the video stream is open or was asked for already.
    ///
    /// The handle comes later, with the answer: see [`BindingLayer::settle`].
    pub fn open_video_capture(&mut self, display: &Display, frame_rate: u32) -> (request: Option<
        NativeRequest,
    >)
        ensures
            *final(self) == old(self).asked(StreamKind::Video),
            request == if old(self).video is Empty {
                Some(NativeRequest::OpenVideo { display_id: display.id, frame_rate })
            } else {
                None::<NativeRequest>
            },
    {
        match self.video {
            Slot::Empty => {
                self.video = Slot::Pending;
                Some(NativeRequest::OpenVideo { display_id: display.id, frame_rate })
            },
            _ => None,
        }
    }

    /// Asks for the audio stream in `format`: the request to perform, or
    /// `None`, with nothing changed, if the audio stream is open or was asked
    /// for already.
    pub fn open_audio_capture(&mut self, format: AudioFormat) -> (request: Option<NativeRequest>)
        ensures
            *final(self) == old(self).asked(StreamKind::Audio),
            request == if old(self).audio is Empty {
                Some(NativeRequest::OpenAudio { format })
            } else {
                None::<NativeRequest>
            },
    {
        match self.audio {
            Slot::Empty => {
                self.audio = Slot::Pending;
                Some(NativeRequest::OpenAudio { format })
            },
            _ => None,
        }
    }

    /// Takes the answer to an open request.
    ///
    /// A handle that was awaited is kept. A handle that is not wanted (the
    /// request was abandoned, or none was made) is never kept: the result
    /// holds the request that gives it back. A refusal of an awaited stream
    /// is `Unavailable`.
    pub fn settle(&mut self, kind: StreamKind, reply: OpenReply) -> (settlement: Settlement)
        ensures
            (*final(self), settlement) == old(self).settled(kind, reply),
    {
        let slot = match kind {
            StreamKind::Video => self.video,
            StreamKind::Audio => self.audio,
        };
        let (next, settlement) = match (slot, reply) {
            (Slot::Pending, OpenReply::Granted(raw)) => (
                Slot::Open(raw),
                Settlement::Opened(NativeHandle { kind, raw }),
            ),
            (Slot::Pending, _) => (Slot::Empty, Settlement::Unavailable),
            (Slot::Abandoned, OpenReply::Granted(raw)) => (
                Slot::Empty,
                Settlement::GivenBack(NativeRequest::Close(NativeHandle { kind, raw })),
            ),
            (Slot::Abandoned, _) => (Slot::Empty, Settlement::Nothing),
            (_, OpenReply::Granted(raw)) => (
                slot,
                Settlement::GivenBack(NativeRequest::Close(NativeHandle { kind, raw })),
            ),
            (_, _) => (slot, Settlement::Nothing),
        };
        match kind {
            StreamKind::Video => {
                self.video = next;
            },
            StreamKind::Audio => {
                self.audio = next;
            },
        }
        settlement
    }

    /// Gives an open handle back: the request to perform. A handle that is
    /// not open (it was closed before, or never granted) is refused with
    /// `InvalidTransition` and nothing changes, so that no handle is ever
    /// given back twice.
    pub fn close(&mut self, handle: NativeHandle) -> (request: Result<NativeRequest, CaptureError>)
        ensures
            old(self).is_open(handle) ==> request == Ok::<NativeRequest, CaptureError>(
                NativeRequest::Close(handle),
            ) && *final(self) == old(self).with_slot(handle.kind, Slot::Empty),
            !old(self).is_open(handle) ==> request == Err::<NativeRequest, CaptureError>(
                CaptureError::InvalidTransition,
            ) && *final(self) == *old(self),
    {
        if self.holds(handle) {
            match handle.kind {
                StreamKind::Video => {
                    self.video = Slot::Empty;
                },
                StreamKind::Audio => {
                    self.audio = Slot::Empty;
                },
            }
            Ok(NativeRequest::Close(handle))
        } else {
            Err(CaptureError::InvalidTransition)
        }
    }

    /// Lets a stream go, whatever its account: an open handle is given back
    /// with the request returned, a stream that is awaited is abandoned, and
    /// otherwise nothing changes. Letting go twice gives nothing back twice.
    pub fn release(&mut self, kind: StreamKind) -> (request: Option<NativeRequest>)
        ensures
            (*final(self), request) == old(self).released(kind),
    {
        let slot = match kind {
            StreamKind::Video => self.video,
            StreamKind::Audio => self.audio,
        };
        let (next, request) = match slot {
            Slot::Open(raw) => (Slot::Empty, Some(NativeRequest::Close(NativeHandle { kind, raw }))),
            Slot::Pending => (Slot::Abandoned, None),
            _ => (slot, None),
        };
        match kind {
            StreamKind::Video => {
                self.video = next;
            },
            StreamKind::Audio => {
                self.audio = next;
            },
        }
        request
    }
}

/// How many requests of a sequence give back a handle of this kind.
pub open spec fn closes_of(requests: Seq<NativeRequest>, kind: StreamKind) -> nat
    decreases requests.len(),
{
    if requests.len() == 0 {
        0
    } else {
        closes_of(requests.drop_last(), kind) + closes_in(requests.last(), kind)
    }
}

/// One if the request gives back a handle of this kind, else none.
pub open spec fn closes_in(request: NativeRequest, kind: StreamKind) -> nat {
    if request matches NativeRequest::Close(handle) && handle.kind == kind {
        1
    } else {
        0
    }
}

/// The requests that a settlement asks for.
pub open spec fn requests_of(settlement: Settlement) -> Seq<NativeRequest> {
    match settlement {
        Settlement::GivenBack(request) => seq![request],
        _ => Seq::empty(),
    }
}

/// The requests that letting go asks for.
pub open spec fn request_seq(request: Option<NativeRequest>) -> Seq<NativeRequest> {
    match request {
        Some(r) => seq![r],
        None => Seq::empty(),
    }
}

/// The closes of two sequences add up.
pub proof fn lemma_closes_of_concat(a: Seq<NativeRequest>, b: Seq<NativeRequest>, kind: StreamKind)
    ensures
        closes_of(a + b, kind) == closes_of(a, kind) + closes_of(b, kind),
    decreases b.len(),
{
    if b.len() == 0 {
        assert(a + b =~= a);
    } else {
        assert((a + b).drop_last() =~= a + b.drop_last());
        assert((a + b).last() == b.last());
        lemma_closes_of_concat(a, b.drop_last(), kind);
    }
}

/// One request alone closes what it closes.
pub proof fn lemma_closes_of_one(request: NativeRequest, kind: StreamKind)
    ensures
        closes_of(seq![request], kind) == closes_in(request, kind),
{
    reveal_with_fuel(closes_of, 2);
    assert(seq![request].drop_last() =~= Seq::<NativeRequest>::empty());
    assert(seq![request].last() == request);
}

/// The account balances over an answer: the handle that an answer grants is
/// afterwards either held or given back, and it is the only one.
pub proof fn lemma_settle_balances(binding: BindingLayer, kind: StreamKind, reply: OpenReply, of: StreamKind)
    ensures
        ({
            let (after, settlement) = binding.settled(kind, reply);
            after.held_of(of) + closes_of(requests_of(settlement), of) == binding.held_of(of) + (
            if of == kind {
                reply.grants()
            } else {
                0
            })
        }),
{
    let (after, settlement) = binding.settled(kind, reply);
    if let Settlement::GivenBack(request) = settlement {
        lemma_closes_of_one(request, of);
    }
}

/// The account balances over letting go: a handle that was held is given
/// back, and nothing else is.
pub proof fn lemma_release_balances(binding: BindingLayer, kind: StreamKind, of: StreamKind)
    ensures
        ({
            let (after, request) = binding.released(kind);
            &&& after.held_of(of) + closes_of(request_seq(request), of) == binding.held_of(of)
            &&& after.held_of(kind) == 0
            &&& after.released(kind) == (after, None::<NativeRequest>)
        }),
{
    let (after, request) = binding.released(kind);
    if let Some(r) = request {
        lemma_closes_of_one(r, of);
    }
}

} // verus!
