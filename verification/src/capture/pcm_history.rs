//! What holds of a buffer over any history of writes and reads.
//!
//! A history is a sequence of operations applied to a buffer, one after the
//! other. The statements here are about every history, so they are about
//! every way in which a producer and a consumer can take turns.
use vstd::prelude::*;

use crate::capture::pcm_buffer::{
    lemma_aligned_difference, lemma_aligned_sum, lemma_whole_frames, PcmView,
};

verus! {

/// One operation on a buffer.
pub enum PcmOp {
    /// The producer offers these samples.
    Write(Seq<i32>),
    /// The consumer asks for at most this many samples.
    Read(nat),
}

/// The buffer after one operation.
pub open spec fn step(v: PcmView, op: PcmOp) -> PcmView {
    match op {
        PcmOp::Write(samples) => v.write(samples),
        PcmOp::Read(max) => v.read(max),
    }
}

/// The buffer after a history.
pub open spec fn run(v: PcmView, ops: Seq<PcmOp>) -> PcmView
    decreases ops.len(),
{
    if ops.len() == 0 {
        v
    } else {
        step(run(v, ops.drop_last()), ops.last())
    }
}

/// The buffer as operation `i` of the history finds it.
pub open spec fn before(v: PcmView, ops: Seq<PcmOp>, i: int) -> PcmView {
    run(v, ops.take(i))
}

/// The samples that one operation takes in.
pub open spec fn taken_by(v: PcmView, op: PcmOp) -> Seq<i32> {
    match op {
        PcmOp::Write(samples) => samples.take(v.accepted(samples.len()) as int),
        PcmOp::Read(_) => Seq::empty(),
    }
}

/// The samples that one operation hands out.
pub open spec fn handed_by(v: PcmView, op: PcmOp) -> Seq<i32> {
    match op {
        PcmOp::Write(_) => Seq::empty(),
        PcmOp::Read(max) => v.chunk(max).samples,
    }
}

/// All samples that the writes of a history took in, in order.
pub open spec fn taken_in(v: PcmView, ops: Seq<PcmOp>) -> Seq<i32>
    decreases ops.len(),
{
    if ops.len() == 0 {
        Seq::empty()
    } else {
        taken_in(v, ops.drop_last()) + taken_by(run(v, ops.drop_last()), ops.last())
    }
}

/// All samples that the reads of a history handed out, in order.
pub open spec fn handed_out(v: PcmView, ops: Seq<PcmOp>) -> Seq<i32>
    decreases ops.len(),
{
    if ops.len() == 0 {
        Seq::empty()
    } else {
        handed_out(v, ops.drop_last()) + handed_by(run(v, ops.drop_last()), ops.last())
    }
}

/// All samples that the writes of a history offered, in order.
pub open spec fn offered(ops: Seq<PcmOp>) -> Seq<i32>
    decreases ops.len(),
{
    if ops.len() == 0 {
        Seq::empty()
    } else {
        offered(ops.drop_last()) + match ops.last() {
            PcmOp::Write(samples) => samples,
            PcmOp::Read(_) => Seq::empty(),
        }
    }
}

/// Whether operation `i` is a write that discards a whole sample frame.
pub open spec fn overflowed_at(v: PcmView, ops: Seq<PcmOp>, i: int) -> bool {
    ops[i] matches PcmOp::Write(samples) && before(v, ops, i).overflows(samples.len())
}

/// Whether operation `i` is a read that carries the overrun signal.
pub open spec fn reported_at(v: PcmView, ops: Seq<PcmOp>, i: int) -> bool {
    ops[i] is Read && before(v, ops, i).overrun
}

/// Whether the operations from `lo` up to `hi` are all writes.
pub open spec fn writes_only(ops: Seq<PcmOp>, lo: int, hi: int) -> bool {
    forall|k: int| lo <= k < hi ==> #[trigger] ops[k] is Write
}

/// Whether operation `j` overflowed and no read came between it and
/// operation `i`.
pub open spec fn unreported_overflow(v: PcmView, ops: Seq<PcmOp>, j: int, i: int) -> bool {
    0 <= j < i && overflowed_at(v, ops, j) && writes_only(ops, j + 1, i)
}

/// Whether every write of the history offers whole sample frames and finds
/// room for all of them.
pub open spec fn within_capacity(v: PcmView, ops: Seq<PcmOp>) -> bool {
    forall|i: int|
        0 <= i < ops.len() ==> (#[trigger] ops[i] matches PcmOp::Write(samples) ==> samples.len() % (
        v.format.channels as nat) == 0 && !before(v, ops, i).overflows(samples.len()))
}

/// One operation keeps the invariant, the format and the capacity.
pub proof fn lemma_step_keeps_wf(v: PcmView, op: PcmOp)
    requires
        v.wf(),
    ensures
        step(v, op).wf(),
        step(v, op).format == v.format,
        step(v, op).capacity == v.capacity,
        taken_by(v, op).len() % (v.format.channels as nat) == 0,
        handed_by(v, op).len() % (v.format.channels as nat) == 0,
        handed_by(v, op) + step(v, op).unread == v.unread + taken_by(v, op),
{
    let ch = v.format.channels as nat;
    vstd::arithmetic::div_mod::lemma_small_mod(0, ch);
    match op {
        PcmOp::Write(samples) => {
            lemma_whole_frames(samples.len(), ch);
            lemma_aligned_difference(v.capacity, v.unread.len(), ch);
            assert(v.free() % ch == 0);
            assert(v.accepted(samples.len()) % ch == 0);
            assert(taken_by(v, op).len() == v.accepted(samples.len()));
            lemma_aligned_sum(v.unread.len(), v.accepted(samples.len()), ch);
            assert(handed_by(v, op) + step(v, op).unread =~= v.unread + taken_by(v, op));
        },
        PcmOp::Read(max) => {
            let reach = if max <= v.unread.len() {
                max
            } else {
                v.unread.len()
            };
            lemma_whole_frames(reach, ch);
            lemma_aligned_difference(v.unread.len(), v.readable(max), ch);
            assert(handed_by(v, op) + step(v, op).unread =~= v.unread + taken_by(v, op));
        },
    }
}

/// The buffer that operation `i + 1` finds is the one that operation `i`
/// left.
pub proof fn lemma_before_next(v: PcmView, ops: Seq<PcmOp>, i: int)
    requires
        0 <= i < ops.len(),
    ensures
        before(v, ops, i + 1) == step(before(v, ops, i), ops[i]),
        taken_in(v, ops.take(i + 1)) == taken_in(v, ops.take(i)) + taken_by(
            before(v, ops, i),
            ops[i],
        ),
        handed_out(v, ops.take(i + 1)) == handed_out(v, ops.take(i)) + handed_by(
            before(v, ops, i),
            ops[i],
        ),
{
    assert(ops.take(i + 1).drop_last() =~= ops.take(i));
    assert(ops.take(i + 1).last() == ops[i]);
}

/// Every history keeps the invariant: the unread samples always fit and are
/// always whole sample frames.
pub proof fn lemma_run_keeps_wf(v: PcmView, ops: Seq<PcmOp>)
    requires
        v.wf(),
    ensures
        run(v, ops).wf(),
        run(v, ops).format == v.format,
        run(v, ops).capacity == v.capacity,
    decreases ops.len(),
{
    if ops.len() > 0 {
        lemma_run_keeps_wf(v, ops.drop_last());
        lemma_step_keeps_wf(run(v, ops.drop_last()), ops.last());
    }
}

/// First in, first out: over every history, what was handed out, followed by
/// what is still unread, is what was unread at the start followed by what
/// was taken in. No sample that was taken in is lost, repeated or moved.
pub proof fn lemma_first_in_first_out(v: PcmView, ops: Seq<PcmOp>)
    requires
        v.wf(),
    ensures
        handed_out(v, ops) + run(v, ops).unread == v.unread + taken_in(v, ops),
    decreases ops.len(),
{
    if ops.len() == 0 {
        assert(handed_out(v, ops) + run(v, ops).unread =~= v.unread + taken_in(v, ops));
    } else {
        let head = ops.drop_last();
        let prev = run(v, head);
        lemma_first_in_first_out(v, head);
        lemma_run_keeps_wf(v, head);
        lemma_step_keeps_wf(prev, ops.last());
        let h = handed_by(prev, ops.last());
        let t = taken_by(prev, ops.last());
        assert((handed_out(v, head) + h) + run(v, ops).unread =~= handed_out(v, head) + (h + run(
            v,
            ops,
        ).unread));
        assert(handed_out(v, head) + (prev.unread + t) =~= (handed_out(v, head) + prev.unread)
            + t);
        assert((v.unread + taken_in(v, head)) + t =~= v.unread + (taken_in(v, head) + t));
    }
}

/// No sample frame is split: over every history, the samples taken in and
/// the samples handed out are whole sample frames, so every chunk starts and
/// ends between two sample frames of the stream.
pub proof fn lemma_reads_cut_between_frames(v: PcmView, ops: Seq<PcmOp>)
    requires
        v.wf(),
    ensures
        taken_in(v, ops).len() % (v.format.channels as nat) == 0,
        handed_out(v, ops).len() % (v.format.channels as nat) == 0,
        run(v, ops).unread.len() % (v.format.channels as nat) == 0,
    decreases ops.len(),
{
    let ch = v.format.channels as nat;
    if ops.len() > 0 {
        let head = ops.drop_last();
        lemma_reads_cut_between_frames(v, head);
        lemma_run_keeps_wf(v, head);
        lemma_step_keeps_wf(run(v, head), ops.last());
        lemma_aligned_sum(taken_in(v, head).len(), taken_by(run(v, head), ops.last()).len(), ch);
        lemma_aligned_sum(
            handed_out(v, head).len(),
            handed_by(run(v, head), ops.last()).len(),
            ch,
        );
        lemma_run_keeps_wf(v, ops);
    }
}

/// The chunk of the read at place `i` of a history is a stretch of the
/// stream (what was unread at the start, then all that was taken in), and
/// the stretch begins and ends at a multiple of the channel count.
pub proof fn lemma_chunk_is_whole_frames_of_stream(v: PcmView, ops: Seq<PcmOp>, i: int)
    requires
        v.wf(),
        0 <= i < ops.len(),
        ops[i] is Read,
    ensures
        ({
            let stream = v.unread + taken_in(v, ops.take(i));
            let from = handed_out(v, ops.take(i)).len();
            let chunk = handed_by(before(v, ops, i), ops[i]);
            &&& from % (v.format.channels as nat) == 0
            &&& chunk.len() % (v.format.channels as nat) == 0
            &&& from + chunk.len() <= stream.len()
            &&& chunk == stream.subrange(from as int, (from + chunk.len()) as int)
        }),
{
    let head = ops.take(i);
    let prev = before(v, ops, i);
    let chunk = handed_by(prev, ops[i]);
    lemma_reads_cut_between_frames(v, head);
    lemma_first_in_first_out(v, head);
    lemma_run_keeps_wf(v, head);
    lemma_step_keeps_wf(prev, ops[i]);
    let stream = v.unread + taken_in(v, head);
    let from = handed_out(v, head).len();
    assert(stream == handed_out(v, head) + prev.unread);
    assert(chunk =~= stream.subrange(from as int, (from + chunk.len()) as int));
}

/// Within capacity nothing is discarded: if every write of a history offers
/// whole sample frames and finds room for them, then what was taken in is
/// all that was offered, and the overrun flag is never raised.
pub proof fn lemma_nothing_lost_within_capacity(v: PcmView, ops: Seq<PcmOp>)
    requires
        v.wf(),
        within_capacity(v, ops),
    ensures
        taken_in(v, ops) == offered(ops),
        run(v, ops).overrun ==> v.overrun,
    decreases ops.len(),
{
    if ops.len() > 0 {
        let head = ops.drop_last();
        let last = ops.len() - 1;
        assert forall|i: int| 0 <= i < head.len() implies (#[trigger] head[i] matches PcmOp::Write(
            samples,
        ) ==> samples.len() % (v.format.channels as nat) == 0 && !before(v, head, i).overflows(
            samples.len(),
        )) by {
            assert(head[i] == ops[i]);
            assert(head.take(i) =~= ops.take(i));
        }
        lemma_nothing_lost_within_capacity(v, head);
        lemma_run_keeps_wf(v, head);
        assert(ops.take(last) =~= head);
        assert(ops[last] == ops.last());
        match ops.last() {
            PcmOp::Write(samples) => {
                lemma_whole_frames(samples.len(), v.format.channels as nat);
                assert(samples.take(samples.len() as int) =~= samples);
            },
            PcmOp::Read(_) => {},
        }
    }
}

/// The overrun flag, as operation `i` finds it, is up exactly if some write
/// before it overflowed and no read came since.
pub proof fn lemma_flag_marks_unreported_overflow(v: PcmView, ops: Seq<PcmOp>, i: int)
    requires
        v.wf(),
        !v.overrun,
        0 <= i <= ops.len(),
    ensures
        before(v, ops, i).overrun <==> exists|j: int| unreported_overflow(v, ops, j, i),
    decreases i,
{
    if i == 0 {
        assert(ops.take(0) =~= Seq::<PcmOp>::empty());
    } else {
        let p = i - 1;
        lemma_flag_marks_unreported_overflow(v, ops, p);
        lemma_before_next(v, ops, p);
        let prev = before(v, ops, p);
        match ops[p] {
            PcmOp::Read(_) => {
                assert forall|j: int| !unreported_overflow(v, ops, j, i) by {
                    if 0 <= j < i && writes_only(ops, j + 1, i) {
                        if j < p {
                            assert(ops[p] is Write);
                        }
                    }
                }
            },
            PcmOp::Write(samples) => {
                if before(v, ops, i).overrun {
                    if prev.overrun {
                        let j = choose|j: int| unreported_overflow(v, ops, j, p);
                        assert(unreported_overflow(v, ops, j, i));
                    } else {
                        assert(unreported_overflow(v, ops, p, i));
                    }
                }
                if exists|j: int| unreported_overflow(v, ops, j, i) {
                    let j = choose|j: int| unreported_overflow(v, ops, j, i);
                    if j < p {
                        assert(unreported_overflow(v, ops, j, p));
                    }
                }
            },
        }
    }
}

/// An overflow episode is reported once: a read carries the overrun signal
/// exactly if a write overflowed since the read before it (or since the
/// start), however many writes overflowed and however many samples were
/// discarded. The read after it, with no overflow in between, carries none.
pub proof fn lemma_overrun_reported_once_per_episode(v: PcmView, ops: Seq<PcmOp>, i: int)
    requires
        v.wf(),
        !v.overrun,
        0 <= i < ops.len(),
        ops[i] is Read,
    ensures
        reported_at(v, ops, i) <==> exists|j: int| unreported_overflow(v, ops, j, i),
        !before(v, ops, i + 1).overrun,
{
    lemma_flag_marks_unreported_overflow(v, ops, i);
    lemma_before_next(v, ops, i);
}

} // verus!
