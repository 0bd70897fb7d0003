//! What holds of a recorder over any history of calls and events.
//!
//! A history is a sequence of calls on a recorder, the events of the native
//! layer among them, applied one after the other. The statements here are
//! about every history, so they hold however callers, callbacks and answers
//! take turns.
use vstd::prelude::*;

use crate::capture::capture_engine::{CaptureConfig, EngineView};
use crate::capture::display::Display;
use crate::capture::error::CaptureError;
use crate::capture::ffi::{
    closes_of, lemma_closes_of_concat, lemma_closes_of_one, lemma_release_balances,
    lemma_settle_balances, request_seq, NativeHandle, NativeRequest, OpenReply, Settlement,
    Slot, StreamKind,
};
use crate::capture::frame::{
    lemma_ordered_with, lemma_ordered_without, non_decreasing, timestamps, NativeEvent,
};
use crate::capture::pcm_history::{lemma_step_keeps_wf, PcmOp};
use crate::capture::screen_recorder::{RecorderState, RecorderView};

verus! {

/// One call on a recorder.
pub enum Call {
    Start(Display, CaptureConfig),
    Pause,
    Resume,
    Stop,
    Reset,
    Event(NativeEvent),
    NextFrame,
    ReadAudio(nat),
}

/// The requests that `start` hands out: the one it returns, if it returns
/// one.
pub open spec fn started(result: Result<NativeRequest, CaptureError>) -> Seq<NativeRequest> {
    match result {
        Ok(request) => seq![request],
        Err(_) => Seq::empty(),
    }
}

/// The recorder after one call.
pub open spec fn step(v: RecorderView, call: Call) -> RecorderView {
    match call {
        Call::Start(display, config) => v.start(display, config).0,
        Call::Pause => v.pause().0,
        Call::Resume => v.resume().0,
        Call::Stop => v.stop().0,
        Call::Reset => v.reset().0,
        Call::Event(event) => v.on_event(event).0,
        Call::NextFrame => v.next_video_frame().0,
        Call::ReadAudio(max) => v.read_audio(max).0,
    }
}

/// The native requests that one call hands out.
pub open spec fn asked_by(v: RecorderView, call: Call) -> Seq<NativeRequest> {
    match call {
        Call::Start(display, config) => started(v.start(display, config).1),
        Call::Stop => v.stop().1,
        Call::Event(event) => v.on_event(event).1.requests,
        _ => Seq::empty(),
    }
}

/// How many handles of this kind one call brings: one, if the call hands in
/// an answer that grants a stream of this kind.
pub open spec fn granted_by(call: Call, kind: StreamKind) -> nat {
    match call {
        Call::Event(NativeEvent::VideoReply(reply)) => if kind is Video {
            reply.grants()
        } else {
            0
        },
        Call::Event(NativeEvent::AudioReply(reply)) => if kind is Audio {
            reply.grants()
        } else {
            0
        },
        _ => 0,
    }
}

/// The recorder after a history.
pub open spec fn run(v: RecorderView, calls: Seq<Call>) -> RecorderView
    decreases calls.len(),
{
    if calls.len() == 0 {
        v
    } else {
        step(run(v, calls.drop_last()), calls.last())
    }
}

/// All native requests that a history hands out, in order.
pub open spec fn asked_in(v: RecorderView, calls: Seq<Call>) -> Seq<NativeRequest>
    decreases calls.len(),
{
    if calls.len() == 0 {
        Seq::empty()
    } else {
        asked_in(v, calls.drop_last()) + asked_by(run(v, calls.drop_last()), calls.last())
    }
}

/// How many handles of this kind a history brings.
pub open spec fn granted_in(calls: Seq<Call>, kind: StreamKind) -> nat
    decreases calls.len(),
{
    if calls.len() == 0 {
        0
    } else {
        granted_in(calls.drop_last(), kind) + granted_by(calls.last(), kind)
    }
}

/// The lifecycle calls that a state accepts. `stop` is not among them: it is
/// accepted everywhere.
pub open spec fn accepts(state: RecorderState, call: Call) -> bool {
    match call {
        Call::Start(_, _) => state is Idle,
        Call::Pause => state is Recording,
        Call::Resume => state is Paused,
        Call::Reset => state is Failed,
        _ => true,
    }
}

/// Whether a lifecycle call was refused as an invalid transition.
pub open spec fn refused(v: RecorderView, call: Call) -> bool {
    match call {
        Call::Start(display, config) => v.start(display, config).1 == Err::<
            NativeRequest,
            CaptureError,
        >(CaptureError::InvalidTransition),
        Call::Pause => v.pause().1 == Err::<(), CaptureError>(CaptureError::InvalidTransition),
        Call::Resume => v.resume().1 == Err::<(), CaptureError>(CaptureError::InvalidTransition),
        Call::Reset => v.reset().1 == Err::<(), CaptureError>(CaptureError::InvalidTransition),
        _ => false,
    }
}

/// An event keeps the invariant of the engine.
pub proof fn lemma_engine_event_keeps_wf(e: EngineView, event: NativeEvent)
    requires
        e.wf(),
    ensures
        e.on_event(event).0.wf(),
{
    let after = e.on_event(event).0;
    let stamps = e.delivered + timestamps(e.frames);
    assert(EngineView::idle(after.binding).delivered + timestamps(
        EngineView::idle(after.binding).frames,
    ) =~= Seq::<u64>::empty());
    match event {
        NativeEvent::Frame(frame) => {
            if e.takes_frame(frame) {
                let room = e.session->0.config.frame_queue_len;
                if e.frames.len() >= room {
                    let at = e.delivered.len() as int;
                    lemma_ordered_without(stamps, e.newest, at);
                    let kept = stamps.remove(at);
                    assert(kept =~= e.delivered + timestamps(e.frames.skip(1)));
                    lemma_ordered_with(kept, e.newest, frame.timestamp);
                    assert(kept.push(frame.timestamp) =~= after.delivered + timestamps(
                        after.frames,
                    ));
                } else {
                    lemma_ordered_with(stamps, e.newest, frame.timestamp);
                    assert(stamps.push(frame.timestamp) =~= after.delivered + timestamps(
                        after.frames,
                    ));
                }
            }
        },
        NativeEvent::Samples(samples) => {
            if let Some(ring) = e.audio {
                lemma_step_keeps_wf(ring, PcmOp::Write(samples@));
            }
        },
        _ => {},
    }
}

/// Every call keeps the invariant of the recorder.
pub proof fn lemma_step_keeps_wf_of_recorder(v: RecorderView, call: Call)
    requires
        v.wf(),
    ensures
        step(v, call).wf(),
{
    let after = step(v, call);
    let e = v.engine;
    assert(EngineView::idle(after.engine.binding).delivered + timestamps(
        EngineView::idle(after.engine.binding).frames,
    ) =~= Seq::<u64>::empty());
    match call {
        Call::Start(display, config) => {
            if v.state is Idle && config.wf() {
                assert(after.engine.delivered + timestamps(after.engine.frames) =~= Seq::<
                    u64,
                >::empty());
                vstd::arithmetic::div_mod::lemma_mod_multiples_basic(
                    config.audio_buffer_frames as int,
                    config.audio.channels as int,
                );
                vstd::arithmetic::div_mod::lemma_small_mod(0, config.audio.channels as nat);
                assert(config.audio_capacity() > 0) by (nonlinear_arith)
                    requires
                        config.audio_buffer_frames > 0,
                        config.audio.channels > 0,
                        config.audio_capacity() == config.audio_buffer_frames
                            * config.audio.channels,
                ;
            }
        },
        Call::Event(event) => {
            if !v.discards(event) {
                lemma_engine_event_keeps_wf(e, event);
            }
        },
        Call::NextFrame => {
            if v.state is Recording && e.frames.len() > 0 {
                assert(after.engine.delivered + timestamps(after.engine.frames) =~= e.delivered
                    + timestamps(e.frames));
            }
        },
        Call::ReadAudio(max) => {
            if v.state is Recording {
                if let Some(ring) = e.audio {
                    lemma_step_keeps_wf(ring, PcmOp::Read(max));
                }
            }
        },
        _ => {},
    }
}

/// Every history keeps the invariant of the recorder.
pub proof fn lemma_run_keeps_wf(v: RecorderView, calls: Seq<Call>)
    requires
        v.wf(),
    ensures
        run(v, calls).wf(),
    decreases calls.len(),
{
    if calls.len() > 0 {
        lemma_run_keeps_wf(v, calls.drop_last());
        lemma_step_keeps_wf_of_recorder(run(v, calls.drop_last()), calls.last());
    }
}

/// Without a session no native handle is open: an idle, a stopping and a
/// failed recorder hold none.
pub proof fn lemma_no_session_no_handles(v: RecorderView)
    requires
        v.wf(),
        v.state is Idle || v.state is Stopping || v.state is Failed,
    ensures
        v.engine.binding.held() == 0,
        v.engine.session is None,
{
}

/// `stop` gives back every open handle: afterwards none is open in any
/// state, the requests are the closes of the handles that were open, video
/// first, and the recorder is idle unless an answer is still awaited.
pub proof fn lemma_stop_gives_everything_back(v: RecorderView)
    requires
        v.wf(),
    ensures
        v.stop().0.wf(),
        v.stop().0.engine.binding.held() == 0,
        v.stop().0.state is Idle || v.stop().0.state is Stopping || v.stop().0.state is Failed,
        v.stop().1 == request_seq(
            match v.engine.binding.video {
                Slot::Open(raw) => Some(
                    NativeRequest::Close(NativeHandle { kind: StreamKind::Video, raw }),
                ),
                _ => None,
            },
        ) + request_seq(
            match v.engine.binding.audio {
                Slot::Open(raw) => Some(
                    NativeRequest::Close(NativeHandle { kind: StreamKind::Audio, raw }),
                ),
                _ => None,
            },
        ),
        v.state is Recording || v.state is Paused ==> v.stop().0.state is Idle,
{
    lemma_step_keeps_wf_of_recorder(v, Call::Stop);
    if !v.has_session_to_stop() {
        assert(v.stop().1 =~= Seq::<NativeRequest>::empty() + Seq::<NativeRequest>::empty());
    }
}

/// `stop` twice is `stop` once: the second call changes nothing and asks for
/// nothing, so no handle is given back twice.
pub proof fn lemma_stop_is_idempotent(v: RecorderView)
    requires
        v.wf(),
    ensures
        v.stop().0.stop() == (v.stop().0, Seq::<NativeRequest>::empty()),
{
}

/// The transition table: a lifecycle call other than `stop` is refused as an
/// invalid transition exactly in the states that do not accept it, and a
/// refused call changes nothing. An accepted call moves the recorder as the
/// table says.
pub proof fn lemma_transition_table(v: RecorderView, call: Call)
    requires
        v.wf(),
        call is Start || call is Pause || call is Resume || call is Reset,
    ensures
        refused(v, call) <==> !accepts(v.state, call),
        refused(v, call) ==> step(v, call) == v,
        accepts(v.state, call) ==> step(v, call).state == match call {
            Call::Start(_, config) => if config.wf() {
                RecorderState::Starting
            } else {
                RecorderState::Failed
            },
            Call::Pause => RecorderState::Paused,
            Call::Resume => RecorderState::Recording,
            _ => RecorderState::Idle,
        },
{
}

/// `stop` is never refused and always ends without a session: from every
/// state the recorder is idle, stopping or failed afterwards, and it is
/// failed only if it was failed before.
pub proof fn lemma_stop_from_every_state(v: RecorderView)
    requires
        v.wf(),
    ensures
        v.stop().0.state == match v.state {
            RecorderState::Idle => RecorderState::Idle,
            RecorderState::Starting => RecorderState::Stopping,
            RecorderState::Recording => RecorderState::Idle,
            RecorderState::Paused => RecorderState::Idle,
            RecorderState::Stopping => RecorderState::Stopping,
            RecorderState::Failed => RecorderState::Failed,
        },
{
}

/// The frames handed to the consumer in one session have timestamps that
/// never decrease, and the frame handed out next is no older than any
/// handed out before it.
pub proof fn lemma_delivery_never_goes_back(v: RecorderView)
    requires
        v.wf(),
    ensures
        non_decreasing(v.engine.delivered),
        v.next_video_frame().1 matches Some(frame) ==> forall|i: int|
            0 <= i < v.engine.delivered.len() ==> v.engine.delivered[i] <= frame.timestamp,
        non_decreasing(v.next_video_frame().0.engine.delivered),
{
    let stamps = v.engine.delivered + timestamps(v.engine.frames);
    assert forall|i: int, j: int| 0 <= i <= j < v.engine.delivered.len() implies
        v.engine.delivered[i] <= v.engine.delivered[j] by {
        assert(stamps[i] == v.engine.delivered[i]);
        assert(stamps[j] == v.engine.delivered[j]);
    }
    if v.state is Recording && v.engine.frames.len() > 0 {
        let frame = v.engine.frames[0];
        let at = v.engine.delivered.len() as int;
        assert(stamps[at] == frame.timestamp);
        assert forall|i: int| 0 <= i < v.engine.delivered.len() implies v.engine.delivered[i]
            <= frame.timestamp by {
            assert(stamps[i] == v.engine.delivered[i]);
        }
        let more = v.next_video_frame().0.engine.delivered;
        assert forall|i: int, j: int| 0 <= i <= j < more.len() implies more[i] <= more[j] by {
            assert(more[i] == stamps[i]);
            assert(more[j] == stamps[j]);
        }
    }
}

/// A start that cannot open the audio stream leaves nothing open: the video
/// handle that was opened is given back in the same step, capture is
/// reported unavailable and the recorder is failed.
pub proof fn lemma_failed_audio_open_leaves_nothing(v: RecorderView, reply: OpenReply)
    requires
        v.wf(),
        v.state is Starting,
        v.engine.binding.audio is Pending,
        !(reply is Granted),
    ensures
        ({
            let (after, step) = v.on_event(NativeEvent::AudioReply(reply));
            &&& after.state is Failed
            &&& after.engine.binding.held() == 0
            &&& after.engine.session is None
            &&& step.error == Some(CaptureError::CaptureUnavailable)
            &&& v.engine.binding.video matches Slot::Open(raw)
            &&& step.requests == seq![
                NativeRequest::Close(NativeHandle { kind: StreamKind::Video, raw }),
            ]
        }),
{
}

/// A start that cannot open the video stream leaves nothing open either.
pub proof fn lemma_failed_video_open_leaves_nothing(v: RecorderView, reply: OpenReply)
    requires
        v.wf(),
        v.state is Starting,
        v.engine.binding.video is Pending,
        !(reply is Granted),
    ensures
        ({
            let (after, step) = v.on_event(NativeEvent::VideoReply(reply));
            &&& after.state is Failed
            &&& after.engine.binding.held() == 0
            &&& step.error == Some(CaptureError::CaptureUnavailable)
            &&& step.requests == Seq::<NativeRequest>::empty()
        }),
{
}

/// While paused, media that arrives changes nothing, and nothing is handed
/// to the consumer; `pause` and `resume` undo each other.
pub proof fn lemma_pause_is_reversible(v: RecorderView, event: NativeEvent, max: nat)
    requires
        v.wf(),
        v.state is Recording,
    ensures
        v.pause().0.resume().0 == v,
        event is Frame || event is Samples ==> v.pause().0.on_event(event).0 == v.pause().0,
        v.pause().0.next_video_frame() == (v.pause().0, None::<crate::capture::frame::VideoFrame>),
        v.pause().0.read_audio(max).0 == v.pause().0,
        v.pause().0.read_audio(max).1.samples.len() == 0,
{
}

/// One call balances the account of each kind of handle: what was open
/// before, and what the call brought, is open afterwards or given back by
/// the requests of the call.
pub proof fn lemma_step_balances(v: RecorderView, call: Call, kind: StreamKind)
    requires
        v.wf(),
    ensures
        step(v, call).engine.binding.held_of(kind) + closes_of(asked_by(v, call), kind)
            == v.engine.binding.held_of(kind) + granted_by(call, kind),
{
    let b = v.engine.binding;
    reveal_with_fuel(closes_of, 3);
    match call {
        Call::Start(display, config) => {
            if let Ok(request) = v.start(display, config).1 {
                lemma_closes_of_one(request, kind);
            }
        },
        Call::Stop => {
            if v.has_session_to_stop() {
                lemma_stop_balances(v.engine, kind);
            }
        },
        Call::Event(event) => {
            if !v.discards(event) {
                match event {
                    NativeEvent::VideoReply(reply) => {
                        lemma_settle_balances(b, StreamKind::Video, reply, kind);
                        let (_, settlement) = b.settled(StreamKind::Video, reply);
                        match settlement {
                            Settlement::Opened(_) => {
                                lemma_closes_of_one(
                                    NativeRequest::OpenAudio {
                                        format: v.engine.session->0.config.audio,
                                    },
                                    kind,
                                );
                            },
                            Settlement::GivenBack(request) => {
                                lemma_closes_of_one(request, kind);
                            },
                            _ => {},
                        }
                    },
                    NativeEvent::AudioReply(reply) => {
                        lemma_settle_balances(b, StreamKind::Audio, reply, kind);
                        let (settled, settlement) = b.settled(StreamKind::Audio, reply);
                        match settlement {
                            Settlement::Unavailable => {
                                lemma_release_balances(settled, StreamKind::Video, kind);
                            },
                            Settlement::GivenBack(request) => {
                                lemma_closes_of_one(request, kind);
                            },
                            _ => {},
                        }
                    },
                    NativeEvent::Fault => {
                        if v.engine.breaks_on_fault() {
                            lemma_stop_balances(v.engine, kind);
                        }
                    },
                    _ => {},
                }
            }
        },
        _ => {},
    }
}

/// Stopping the engine balances the account: every handle that was open is
/// given back exactly once.
pub proof fn lemma_stop_balances(e: EngineView, kind: StreamKind)
    ensures
        e.stop().0.binding.held_of(kind) + closes_of(e.stop().1, kind) == e.binding.held_of(kind),
        e.stop().0.binding.held() == 0,
{
    let (first, video) = e.binding.released(StreamKind::Video);
    let (second, audio) = first.released(StreamKind::Audio);
    lemma_release_balances(e.binding, StreamKind::Video, kind);
    lemma_release_balances(first, StreamKind::Audio, kind);
    lemma_closes_of_concat(request_seq(video), request_seq(audio), kind);
}

/// No leak and no double release, over every history: for each kind of
/// handle, the handles that the operating system granted are exactly the
/// handles given back by the requests of the history, and the one still
/// open, if one is. So a handle is never given back twice, and when the
/// recorder is idle, stopping or failed, every handle that was ever granted
/// has been given back.
pub proof fn lemma_handles_balance(v: RecorderView, calls: Seq<Call>, kind: StreamKind)
    requires
        v.wf(),
    ensures
        run(v, calls).engine.binding.held_of(kind) + closes_of(asked_in(v, calls), kind)
            == v.engine.binding.held_of(kind) + granted_in(calls, kind),
        ({
            let end = run(v, calls);
            end.state is Idle || end.state is Stopping || end.state is Failed ==> closes_of(
                asked_in(v, calls),
                kind,
            ) == v.engine.binding.held_of(kind) + granted_in(calls, kind)
        }),
    decreases calls.len(),
{
    lemma_run_keeps_wf(v, calls);
    if calls.len() > 0 {
        let head = calls.drop_last();
        lemma_handles_balance(v, head, kind);
        lemma_run_keeps_wf(v, head);
        lemma_step_balances(run(v, head), calls.last(), kind);
        lemma_closes_of_concat(asked_in(v, head), asked_by(run(v, head), calls.last()), kind);
    }
}

/// After `stop`, whatever came before it, no native handle is open, and
/// every handle that was open or granted has been given back exactly once.
pub proof fn lemma_after_stop_nothing_is_open(v: RecorderView, calls: Seq<Call>, kind: StreamKind)
    requires
        v.wf(),
        calls.len() > 0,
        calls.last() is Stop,
    ensures
        run(v, calls).engine.binding.held() == 0,
        closes_of(asked_in(v, calls), kind) == v.engine.binding.held_of(kind) + granted_in(
            calls,
            kind,
        ),
{
    lemma_run_keeps_wf(v, calls.drop_last());
    lemma_stop_gives_everything_back(run(v, calls.drop_last()));
    lemma_handles_balance(v, calls, kind);
}

/// Over every history, the frames handed to the consumer in the session at
/// hand have timestamps that never decrease.
pub proof fn lemma_every_history_delivers_in_order(v: RecorderView, calls: Seq<Call>)
    requires
        v.wf(),
    ensures
        non_decreasing(run(v, calls).engine.delivered),
{
    lemma_run_keeps_wf(v, calls);
    lemma_delivery_never_goes_back(run(v, calls));
}

} // verus!
