//! What the operations on recorders promise, in terms of the spans that each
//! recorder holds before and after.

use crate::flamegraph::model::{clamped, CpuSpan, FrameCapture, Moment};
use crate::flamegraph::recorder::{
    collect_other_thread_spans_into, distinct_threads, drain_current_thread_spans,
    lemma_own_spans, lemma_thread_buffer_size, other_spans, own_spans, ring_push, with_span,
    RecorderModel, ThreadRecorder, ThreadRegistry, CPU_SPAN_BYTES, MAX_THREAD_SPANS,
};
use crate::flamegraph::session::newest;
use vstd::prelude::*;

verus! {

/// A value within the limits stays, and any other moves to the nearer limit.
pub proof fn law_clamping(value: int, limit: int)
    requires
        0 <= limit,
    ensures
        0 <= clamped(value, limit) <= limit,
        0 <= value <= limit ==> clamped(value, limit) == value,
        value <= 0 ==> clamped(value, limit) == 0,
        limit <= value ==> clamped(value, limit) == limit,
{
}

/// The time between two moments, added to the earlier one, gives the later one,
/// as long as 64 bits can count it. Time does not run backwards.
pub proof fn law_time_between_moments(later: Moment, earlier: Moment, ns: u64)
    requires
        call_ensures(Moment::nanos_since, (later, earlier), ns),
    ensures
        earlier.nanos <= later.nanos <= earlier.nanos + u64::MAX ==> earlier.nanos + ns
            == later.nanos,
        later.nanos <= earlier.nanos ==> ns == 0,
        earlier.nanos + u64::MAX <= later.nanos ==> ns == u64::MAX,
{
}

/// The short time between two moments, added to the earlier one, gives the later
/// one, as long as 32 bits can count it.
pub proof fn law_short_time_between_moments(later: Moment, earlier: Moment, ns: u32)
    requires
        call_ensures(Moment::short_nanos_since, (later, earlier), ns),
    ensures
        earlier.nanos <= later.nanos <= earlier.nanos + u32::MAX ==> earlier.nanos + ns
            == later.nanos,
        later.nanos <= earlier.nanos ==> ns == 0,
        earlier.nanos + u32::MAX <= later.nanos ==> ns == u32::MAX,
{
}

/// A frame's model holds what the frame's fields hold.
pub proof fn law_frame_model(frame: FrameCapture)
    ensures
        frame@.frame_index == frame.frame_index,
        frame@.window_id == frame.window_id,
        frame@.cpu_spans == frame.cpu_spans@,
        frame@.background_spans == frame.background_spans@,
        frame@.gpu_spans == frame.gpu_spans@,
        frame@.gpu_spans_finalized == frame.gpu_spans_finalized,
        frame@.gpu_spans_truncated == frame.gpu_spans_truncated,
        frame@.frame_start_ns == frame.frame_start_ns,
        frame@.frame_end_ns == frame.frame_end_ns,
{
}

/// The newest items are the last ones, in order, and as many as there may be.
pub proof fn law_newest<T>(items: Seq<T>, count: nat)
    ensures
        items.len() <= count ==> newest(items, count) == items,
        count <= items.len() ==> newest(items, count).len() == count,
        forall|i: int|
            0 <= i < newest(items, count).len() ==> #[trigger] newest(items, count)[i] == items[i
                + items.len() - newest(items, count).len()],
{
}

/// Whether `after` is a buffer that held `before` and took `span`: at its end,
/// and in place of its oldest span where it was full. A buffer has room for as
/// many spans as two mebibytes hold.
pub open spec fn takes_span(before: Seq<CpuSpan>, span: CpuSpan, after: Seq<CpuSpan>) -> bool {
    &&& after.len() > 0
    &&& after.last() == span
    &&& (before.len() + 1) * CPU_SPAN_BYTES <= 2097152 ==> after.drop_last() == before
    &&& (before.len() + 1) * CPU_SPAN_BYTES > 2097152 ==> after.drop_last() == before.skip(1)
}

/// A buffer takes a span at its end. It drops its oldest span for it when it is
/// full, and keeps all others in order.
pub proof fn law_buffer_takes_span(spans: Seq<CpuSpan>, span: CpuSpan)
    ensures
        takes_span(spans, span, ring_push(spans, span)),
{
    lemma_thread_buffer_size();
    let after = ring_push(spans, span);
    let bytes = CPU_SPAN_BYTES as int;
    let room = MAX_THREAD_SPANS as int;
    assert(room * bytes <= 2097152 && 2097152 < (room + 1) * bytes);
    if spans.len() < room {
        assert((spans.len() + 1) * bytes <= room * bytes) by (nonlinear_arith)
            requires
                spans.len() + 1 <= room,
                0 <= bytes,
        ;
        assert(after.drop_last() == spans);
    } else {
        assert((room + 1) * bytes <= (spans.len() + 1) * bytes) by (nonlinear_arith)
            requires
                room <= spans.len(),
                0 <= bytes,
        ;
        assert(after.drop_last() == spans.skip(1));
    }
}

/// Recording a span adds it to the recorder's buffer, and to nothing else.
pub proof fn law_record(recorder: &mut ThreadRecorder, span: CpuSpan)
    requires
        call_ensures(ThreadRecorder::record, (recorder, span), ()),
    ensures
        takes_span(old(recorder)@.spans, span, final(recorder)@.spans),
        final(recorder)@.thread_id == old(recorder)@.thread_id,
{
    law_buffer_takes_span(old(recorder)@.spans, span);
}

/// Draining a recorder moves its spans, in order, behind those that are there.
pub proof fn law_drain(recorder: &mut ThreadRecorder, target: &mut Vec<CpuSpan>)
    requires
        call_ensures(ThreadRecorder::drain_into, (recorder, target), ()),
    ensures
        final(target)@ == old(target)@ + old(recorder)@.spans,
        final(recorder)@.spans.len() == 0,
        final(recorder)@.thread_id == old(recorder)@.thread_id,
{
}

/// The spans of other threads are those of every recorder but the thread's own,
/// recorder after recorder.
pub proof fn law_other_spans(recorders: Seq<RecorderModel>, next: RecorderModel, thread_id: u64)
    ensures
        other_spans(Seq::empty(), thread_id).len() == 0,
        next.thread_id != thread_id ==> other_spans(recorders.push(next), thread_id)
            == other_spans(recorders, thread_id) + next.spans,
        next.thread_id == thread_id ==> other_spans(recorders.push(next), thread_id)
            == other_spans(recorders, thread_id),
{
    assert(recorders.push(next).drop_last() == recorders);
}

/// A span is one of other threads exactly when another thread's recorder holds
/// it.
pub proof fn law_other_spans_are_recorded(
    recorders: Seq<RecorderModel>,
    thread_id: u64,
    span: CpuSpan,
)
    ensures
        other_spans(recorders, thread_id).contains(span) <==> exists|i: int|
            0 <= i < recorders.len() && (#[trigger] recorders[i]).thread_id != thread_id
                && recorders[i].spans.contains(span),
    decreases recorders.len(),
{
    let all = other_spans(recorders, thread_id);
    if recorders.len() > 0 {
        let rest = recorders.drop_last();
        let last = recorders.last();
        law_other_spans_are_recorded(rest, thread_id, span);
        law_other_spans(rest, last, thread_id);
        assert(recorders == rest.push(last));
        let earlier = other_spans(rest, thread_id);
        if all.contains(span) {
            let k = all.index_of(span);
            if k < earlier.len() {
                assert(earlier[k] == span);
                assert(earlier.contains(span));
                let i = choose|i: int|
                    0 <= i < rest.len() && (#[trigger] rest[i]).thread_id != thread_id
                        && rest[i].spans.contains(span);
                assert(recorders[i] == rest[i]);
            } else {
                assert(last.spans[k - earlier.len()] == span);
                assert(recorders[recorders.len() - 1].spans.contains(span));
            }
        }
        if exists|i: int|
            0 <= i < recorders.len() && (#[trigger] recorders[i]).thread_id != thread_id
                && recorders[i].spans.contains(span) {
            let i = choose|i: int|
                0 <= i < recorders.len() && (#[trigger] recorders[i]).thread_id != thread_id
                    && recorders[i].spans.contains(span);
            if i < rest.len() {
                assert(rest[i] == recorders[i]);
                assert(earlier.contains(span));
                let k = earlier.index_of(span);
                assert(all[k] == span);
            } else {
                let k = last.spans.index_of(span);
                assert(all[earlier.len() + k] == span);
            }
        }
    }
}

/// A thread that drains its recorder gets every span that it completed, in
/// order. Its recorder is empty afterwards, and no other recorder changes.
pub proof fn law_thread_drains_its_own_spans(
    registry: &mut ThreadRegistry,
    thread_id: u64,
    spans: Vec<CpuSpan>,
)
    requires
        call_ensures(drain_current_thread_spans, (registry, thread_id), spans),
        distinct_threads(old(registry)@),
    ensures
        forall|i: int|
            0 <= i < old(registry)@.len() && (#[trigger] old(registry)@[i]).thread_id == thread_id
                ==> spans@ == old(registry)@[i].spans,
        (forall|i: int|
            0 <= i < old(registry)@.len() ==> (#[trigger] old(registry)@[i]).thread_id
                != thread_id) ==> spans@.len() == 0,
        forall|i: int|
            0 <= i < old(registry)@.len() ==> {
                &&& i < final(registry)@.len()
                &&& (#[trigger] final(registry)@[i]).thread_id == old(registry)@[i].thread_id
                &&& old(registry)@[i].thread_id == thread_id ==> final(registry)@[i].spans.len()
                    == 0
                &&& old(registry)@[i].thread_id != thread_id ==> final(registry)@[i].spans
                    == old(registry)@[i].spans
            },
        forall|i: int|
            old(registry)@.len() <= i < final(registry)@.len() ==> i == old(registry)@.len() && (
            #[trigger] final(registry)@[i]).thread_id == thread_id
                && final(registry)@[i].spans.len() == 0,
{
    lemma_own_spans(old(registry)@, thread_id);
}

/// Collecting takes the spans of every other thread, and leaves those of the
/// thread itself.
pub proof fn law_collect_takes_other_threads_spans(
    registry: &mut ThreadRegistry,
    thread_id: u64,
    pending: &mut Vec<CpuSpan>,
)
    requires
        call_ensures(collect_other_thread_spans_into, (registry, thread_id, pending), ()),
    ensures
        final(pending)@ == old(pending)@ + other_spans(old(registry)@, thread_id),
        final(registry)@.len() == old(registry)@.len(),
        forall|i: int|
            0 <= i < old(registry)@.len() ==> {
                &&& (#[trigger] final(registry)@[i]).thread_id == old(registry)@[i].thread_id
                &&& old(registry)@[i].thread_id == thread_id ==> final(registry)@[i].spans
                    == old(registry)@[i].spans
                &&& old(registry)@[i].thread_id != thread_id ==> final(registry)@[i].spans.len()
                    == 0
            },
{
}

/// A thread that records a span has it behind the spans it completed before. The
/// recorders of other threads stay, and a thread without a recorder gets one.
pub proof fn law_thread_records_its_own_spans(
    registry: &mut ThreadRegistry,
    thread_id: u64,
    span: CpuSpan,
)
    requires
        call_ensures(ThreadRegistry::record, (registry, thread_id, span), ()),
    ensures
        records_span(old(registry)@, thread_id, span, final(registry)@),
{
    lemma_records_span(old(registry)@, thread_id, span);
}

/// Whether `after` are the recorders `before` once `thread_id` recorded `span`:
/// its own recorder took the span, or it got one with the span alone, and the
/// others are as they were.
pub open spec fn records_span(
    before: Seq<RecorderModel>,
    thread_id: u64,
    span: CpuSpan,
    after: Seq<RecorderModel>,
) -> bool {
    &&& forall|i: int|
        0 <= i < before.len() ==> {
            &&& i < after.len()
            &&& (#[trigger] after[i]).thread_id == before[i].thread_id
            &&& before[i].thread_id == thread_id ==> takes_span(
                before[i].spans,
                span,
                after[i].spans,
            )
            &&& before[i].thread_id != thread_id ==> after[i].spans == before[i].spans
        }
    &&& (exists|i: int| 0 <= i < before.len() && (#[trigger] before[i]).thread_id == thread_id)
        ==> after.len() == before.len()
    &&& (forall|i: int| 0 <= i < before.len() ==> (#[trigger] before[i]).thread_id != thread_id)
        ==> {
        &&& after.len() == before.len() + 1
        &&& after.last().thread_id == thread_id
        &&& after.last().spans == seq![span]
    }
}

pub(crate) proof fn lemma_records_span(
    before: Seq<RecorderModel>,
    thread_id: u64,
    span: CpuSpan,
)
    ensures
        records_span(before, thread_id, span, with_span(before, thread_id, span)),
{
    let after = with_span(before, thread_id, span);
    lemma_thread_buffer_size();
    assert forall|i: int| 0 <= i < before.len() implies {
        &&& i < after.len()
        &&& (#[trigger] after[i]).thread_id == before[i].thread_id
        &&& before[i].thread_id == thread_id ==> takes_span(before[i].spans, span, after[i].spans)
        &&& before[i].thread_id != thread_id ==> after[i].spans == before[i].spans
    } by {
        law_buffer_takes_span(before[i].spans, span);
    }
    if forall|i: int| 0 <= i < before.len() ==> (#[trigger] before[i]).thread_id != thread_id {
        assert(after.last().spans == seq![span]);
    }
}

/// A thread's own spans are what its recorder holds.
pub proof fn law_own_spans(recorders: Seq<RecorderModel>, thread_id: u64, i: int)
    requires
        distinct_threads(recorders),
        0 <= i < recorders.len(),
        recorders[i].thread_id == thread_id,
    ensures
        own_spans(recorders, thread_id) == recorders[i].spans,
{
    lemma_own_spans(recorders, thread_id);
}

/// No two recorders of a registry belong to one thread.
pub proof fn law_one_recorder_per_thread(recorders: Seq<RecorderModel>, i: int, j: int)
    requires
        distinct_threads(recorders),
        0 <= i < recorders.len(),
        0 <= j < recorders.len(),
        recorders[i].thread_id == recorders[j].thread_id,
    ensures
        i == j,
{
    if i < j {
        assert(recorders[i].thread_id != recorders[j].thread_id);
    }
    if j < i {
        assert(recorders[j].thread_id != recorders[i].thread_id);
    }
}

/// Registering a thread gives it a recorder where the call says, an empty one if
/// it had none, and changes nothing else.
pub proof fn law_register(registry: &mut ThreadRegistry, thread_id: u64, position: usize)
    requires
        call_ensures(ThreadRegistry::register_thread_recorder, (registry, thread_id), position),
    ensures
        position < final(registry)@.len(),
        final(registry)@[position as int].thread_id == thread_id,
        forall|i: int|
            0 <= i < old(registry)@.len() ==> i < final(registry)@.len()
                && #[trigger] final(registry)@[i] == old(registry)@[i],
        position >= old(registry)@.len() ==> final(registry)@[position as int].spans.len() == 0,
        final(registry)@.len() <= old(registry)@.len() + 1,
        (exists|i: int|
            0 <= i < old(registry)@.len() && (#[trigger] old(registry)@[i]).thread_id
                == thread_id) <==> final(registry)@.len() == old(registry)@.len(),
{
    let before = old(registry)@;
    let after = final(registry)@;
    if position >= before.len() {
        assert(after.len() == before.len() + 1);
    }
}

/// Unregistering a thread drops its recorder and no other. A thread without one
/// changes nothing.
pub proof fn law_unregister(registry: &mut ThreadRegistry, thread_id: u64, i: int)
    requires
        call_ensures(ThreadRegistry::unregister_thread_recorder, (registry, thread_id), ()),
        distinct_threads(old(registry)@),
        0 <= i < old(registry)@.len(),
    ensures
        forall|j: int|
            0 <= j < final(registry)@.len() ==> old(registry)@.contains(
                #[trigger] final(registry)@[j],
            ),
        (forall|j: int|
            0 <= j < old(registry)@.len() ==> (#[trigger] old(registry)@[j]).thread_id
                != thread_id) ==> final(registry)@ == old(registry)@,
        forall|j: int|
            0 <= j < final(registry)@.len() ==> (#[trigger] final(registry)@[j]).thread_id
                != thread_id,
        old(registry)@[i].thread_id != thread_id ==> final(registry)@.contains(
            old(registry)@[i],
        ),
        old(registry)@[i].thread_id == thread_id ==> final(registry)@.len() + 1
            == old(registry)@.len(),
{
    let before = old(registry)@;
    let after = final(registry)@;
    if exists|k: int| 0 <= k < before.len() && (#[trigger] before[k]).thread_id == thread_id {
        let k = choose|k: int|
            0 <= k < before.len() && (#[trigger] before[k]).thread_id == thread_id;
        assert(after == before.update(k, before.last()).drop_last());
        assert forall|j: int| 0 <= j < after.len() implies before.contains(
            #[trigger] after[j],
        ) by {
            if j == k {
                assert(after[j] == before[before.len() - 1]);
            } else {
                assert(after[j] == before[j]);
            }
        }
        if before[i].thread_id != thread_id {
            if i == before.len() - 1 {
                assert(after[k] == before[i]);
            } else {
                assert(after[i] == before[i]);
            }
        }
    } else {
        assert(after == before);
        assert(after[i] == before[i]);
    }
}

/// New recorders and registries are empty, and say what they are.
pub proof fn law_empty_recorders(
    thread_id: u64,
    recorder: ThreadRecorder,
    id: u64,
    registry: ThreadRegistry,
    count: usize,
    asked: &ThreadRegistry,
    asked_count: usize,
)
    requires
        call_ensures(ThreadRecorder::new, (thread_id,), recorder),
        call_ensures(ThreadRecorder::thread_id, (&recorder,), id),
        call_ensures(ThreadRegistry::new, (), registry),
        call_ensures(ThreadRegistry::len, (&registry,), count),
        call_ensures(ThreadRegistry::len, (asked,), asked_count),
    ensures
        recorder@.spans.len() == 0,
        recorder@.thread_id == thread_id,
        id == thread_id,
        registry@.len() == 0,
        count == 0,
        asked_count == asked@.len(),
{
}

} // verus!
