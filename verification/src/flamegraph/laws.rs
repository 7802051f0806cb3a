//! What holds of captures as a whole.

use crate::flamegraph::capture::stopped_capture;
use crate::flamegraph::model::{
    clamped, CpuSpan, ElementAttribution, FrameModel, GpuSpan, Moment, SpanCategory, SpanName,
    ThreadKey,
};
use crate::flamegraph::recorder::{
    distinct_threads, has_recorder, lemma_own_spans, lemma_thread_buffer_size, other_spans,
    own_spans, ring_push, with_recorder, with_span, RecorderModel, MAX_THREAD_SPANS,
};
use crate::flamegraph::session::{
    claimable_spans, closed_frame, frame_closed, frame_opened, frames_closed, fresh_session,
    gpu_spans_attached, is_first_with_index, lemma_ascending_unique, lemma_closes_empty,
    lists_open_frames, newest, open_order, recorders_after_close, session_ns, session_wf, spans_outside, spans_within, starts_within,
    with_gpu_spans, CaptureOptions, SessionModel,
};
use crate::flamegraph::spans::{completed_span, opened_span, PendingSpan};
use vstd::prelude::*;

verus! {

/// Every frame of a session, open or finished, has an index of its own, below
/// that of the next frame.
pub open spec fn indices_unique(session: SessionModel) -> bool {
    &&& forall|index: u64| #[trigger]
        session.open_frames.contains_key(index) ==> index < session.next_frame_index
    &&& forall|i: int|
        0 <= i < session.finished_frames.len() ==> {
            &&& (#[trigger] session.finished_frames[i]).frame_index < session.next_frame_index
            &&& !session.open_frames.contains_key(session.finished_frames[i].frame_index)
        }
    &&& forall|i: int, j: int|
        0 <= i < j < session.finished_frames.len() ==> (
        #[trigger] session.finished_frames[i]).frame_index != (
        #[trigger] session.finished_frames[j]).frame_index
}

/// A session begins without frames, so no two share an index.
pub proof fn law_indices_unique_at_start(options: CaptureOptions, anchor: Moment)
    ensures
        indices_unique(fresh_session(options, anchor)),
        session_wf(fresh_session(options, anchor)),
{
}

/// Opening a frame gives it an index that no frame of the session has, until
/// the indices are used up.
pub proof fn law_opened_index_is_fresh(session: SessionModel, window_id: u64, now: Moment)
    requires
        indices_unique(session),
        session.next_frame_index < u64::MAX,
    ensures
        !session.open_frames.contains_key(session.next_frame_index),
        forall|i: int|
            0 <= i < session.finished_frames.len() ==> (
            #[trigger] session.finished_frames[i]).frame_index != session.next_frame_index,
        indices_unique(frame_opened(session, window_id, now)),
{
}

/// Closing a frame keeps every frame's index its own.
pub proof fn law_close_keeps_indices_unique(
    session: SessionModel,
    frame_index: u64,
    now: Moment,
    recorders: Seq<RecorderModel>,
    thread_id: u64,
)
    requires
        indices_unique(session),
    ensures
        indices_unique(frame_closed(session, frame_index, now, recorders, thread_id)),
{
    if session.open_frames.contains_key(frame_index) {
        let frame = closed_frame(session, frame_index, now, recorders, thread_id);
        let all = session.finished_frames.push(frame);
        let kept = newest(all, session.max_frames as nat);
        let dropped = all.len() - kept.len();
        assert forall|i: int| 0 <= i < kept.len() implies kept[i] == all[i + dropped] by {}
    }
}

/// A session never keeps more frames than its bound: a closed frame joins at
/// the end, and only the oldest frames leave to make room for it.
pub proof fn law_ring_keeps_newest_frames(
    session: SessionModel,
    frame_index: u64,
    now: Moment,
    recorders: Seq<RecorderModel>,
    thread_id: u64,
)
    requires
        session_wf(session),
        session.open_frames.contains_key(frame_index),
    ensures
        ({
            let after = frame_closed(session, frame_index, now, recorders, thread_id);
            let frame = closed_frame(session, frame_index, now, recorders, thread_id);
            &&& session_wf(after)
            &&& after.finished_frames.last() == frame
            &&& session.finished_frames.len() < session.max_frames ==> after.finished_frames
                == session.finished_frames.push(frame)
            &&& session.finished_frames.len() == session.max_frames ==> after.finished_frames
                == session.finished_frames.skip(1).push(frame)
        }),
{
    let frame = closed_frame(session, frame_index, now, recorders, thread_id);
    let all = session.finished_frames.push(frame);
    if session.finished_frames.len() == session.max_frames {
        assert(all.skip(1) == session.finished_frames.skip(1).push(frame));
    }
}

/// Closing a frame a second time, or one that was never opened, changes
/// nothing.
pub proof fn law_close_is_idempotent(
    session: SessionModel,
    frame_index: u64,
    now: Moment,
    recorders: Seq<RecorderModel>,
    thread_id: u64,
    later: Moment,
    later_recorders: Seq<RecorderModel>,
    later_thread: u64,
)
    ensures
        ({
            let once = frame_closed(session, frame_index, now, recorders, thread_id);
            &&& frame_closed(once, frame_index, later, later_recorders, later_thread) == once
            &&& recorders_after_close(once, frame_index, later_recorders, later_thread)
                == later_recorders
        }),
{
}

/// Splitting a sequence by a condition loses nothing and doubles nothing.
proof fn lemma_split_keeps_all(spans: Seq<CpuSpan>, start_ns: u64, end_ns: u64)
    ensures
        spans_within(spans, start_ns, end_ns).to_multiset().add(
            spans_outside(spans, start_ns, end_ns).to_multiset(),
        ) == spans.to_multiset(),
    decreases spans.len(),
{
    broadcast use vstd::seq_lib::group_to_multiset_ensures;

    reveal(Seq::filter);
    if spans.len() == 0 {
        assert(spans == Seq::<CpuSpan>::empty());
    } else {
        let rest = spans.drop_last();
        lemma_split_keeps_all(rest, start_ns, end_ns);
        assert(spans == rest.push(spans.last()));
        if starts_within(spans.last(), start_ns, end_ns) {
            assert(spans_within(spans, start_ns, end_ns) == spans_within(
                rest,
                start_ns,
                end_ns,
            ).push(spans.last()));
        } else {
            assert(spans_outside(spans, start_ns, end_ns) == spans_outside(
                rest,
                start_ns,
                end_ns,
            ).push(spans.last()));
        }
        assert(spans_within(spans, start_ns, end_ns).to_multiset().add(
            spans_outside(spans, start_ns, end_ns).to_multiset(),
        ) =~= spans.to_multiset());
    }
}

/// Recorders that hold nothing yield no spans.
proof fn lemma_empty_recorders(recorders: Seq<RecorderModel>, thread_id: u64)
    requires
        forall|i: int|
            0 <= i < recorders.len() ==> (#[trigger] recorders[i]).spans == Seq::<CpuSpan>::empty(),
    ensures
        own_spans(recorders, thread_id) == Seq::<CpuSpan>::empty(),
        other_spans(recorders, thread_id) == Seq::<CpuSpan>::empty(),
    decreases recorders.len(),
{
    if recorders.len() > 0 {
        lemma_empty_recorders(recorders.drop_last(), thread_id);
        assert(recorders[recorders.len() - 1] == recorders.last());
    }
}

/// Closing a frame neither loses nor doubles a span: what the threads had
/// completed and what was pending is afterwards in the frame or still pending,
/// and the recorders are empty.
pub proof fn law_close_conserves_spans(
    session: SessionModel,
    frame_index: u64,
    now: Moment,
    recorders: Seq<RecorderModel>,
    thread_id: u64,
)
    requires
        session.open_frames.contains_key(frame_index),
    ensures
        ({
            let frame = closed_frame(session, frame_index, now, recorders, thread_id);
            let after = frame_closed(session, frame_index, now, recorders, thread_id);
            let recorders_after = recorders_after_close(
                session,
                frame_index,
                recorders,
                thread_id,
            );
            &&& frame.cpu_spans == own_spans(recorders, thread_id)
            &&& frame.background_spans.to_multiset().add(
                after.pending_background_spans.to_multiset(),
            ) == session.pending_background_spans.to_multiset().add(
                other_spans(recorders, thread_id).to_multiset(),
            )
            &&& own_spans(recorders_after, thread_id) == Seq::<CpuSpan>::empty()
            &&& other_spans(recorders_after, thread_id) == Seq::<CpuSpan>::empty()
        }),
{
    let recorders_after = recorders_after_close(session, frame_index, recorders, thread_id);
    lemma_split_keeps_all(
        claimable_spans(session, recorders, thread_id),
        session.open_frames[frame_index].frame_start_ns,
        session_ns(session, now),
    );
    vstd::seq_lib::lemma_multiset_commutative(
        session.pending_background_spans,
        other_spans(recorders, thread_id),
    );
    lemma_empty_recorders(recorders_after, thread_id);
}

/// A frame's background spans started while the frame was drawn, and no such
/// span stays pending.
pub proof fn law_background_spans_match_window(
    session: SessionModel,
    frame_index: u64,
    now: Moment,
    recorders: Seq<RecorderModel>,
    thread_id: u64,
)
    requires
        session.open_frames.contains_key(frame_index),
    ensures
        ({
            let frame = closed_frame(session, frame_index, now, recorders, thread_id);
            let after = frame_closed(session, frame_index, now, recorders, thread_id);
            &&& forall|i: int|
                0 <= i < frame.background_spans.len() ==> starts_within(
                    #[trigger] frame.background_spans[i],
                    frame.frame_start_ns,
                    frame.frame_end_ns,
                )
            &&& forall|i: int|
                0 <= i < after.pending_background_spans.len() ==> !starts_within(
                    #[trigger] after.pending_background_spans[i],
                    frame.frame_start_ns,
                    frame.frame_end_ns,
                )
        }),
{
    broadcast use Seq::lemma_filter_pred;

}

/// Recording a span puts it behind those its thread has completed, and leaves
/// the spans of other threads alone.
pub proof fn law_recorded_span_joins_its_thread(
    recorders: Seq<RecorderModel>,
    thread_id: u64,
    span: CpuSpan,
)
    requires
        distinct_threads(recorders),
    ensures
        own_spans(with_span(recorders, thread_id, span), thread_id) == ring_push(
            own_spans(recorders, thread_id),
            span,
        ),
        other_spans(with_span(recorders, thread_id, span), thread_id) == other_spans(
            recorders,
            thread_id,
        ),
{
    let registered = with_recorder(recorders, thread_id);
    let after = with_span(recorders, thread_id, span);
    if !has_recorder(recorders, thread_id) {
        assert(registered[recorders.len() as int].thread_id == thread_id);
        assert(registered.drop_last() == recorders);
    }
    assert(distinct_threads(registered));
    assert(has_recorder(registered, thread_id));
    let i = choose|i: int| 0 <= i < registered.len() && (#[trigger] registered[i]).thread_id
        == thread_id;
    lemma_own_spans(recorders, thread_id);
    lemma_own_spans(registered, thread_id);
    assert forall|j: int, k: int| 0 <= j < k < after.len() implies (#[trigger] after[j]).thread_id
        != (#[trigger] after[k]).thread_id by {
        assert(registered[j].thread_id != registered[k].thread_id);
    }
    lemma_own_spans(after, thread_id);
    assert(after[i].thread_id == thread_id);
    lemma_record_keeps_others(registered, thread_id, span);
}

/// Replacing what a thread's recorder holds leaves the other threads' spans.
proof fn lemma_record_keeps_others(recorders: Seq<RecorderModel>, thread_id: u64, span: CpuSpan)
    ensures
        other_spans(
            recorders.map_values(
                |recorder: RecorderModel|
                    if recorder.thread_id == thread_id {
                        RecorderModel { thread_id, spans: ring_push(recorder.spans, span) }
                    } else {
                        recorder
                    },
            ),
            thread_id,
        ) == other_spans(recorders, thread_id),
    decreases recorders.len(),
{
    let recorded = |recorder: RecorderModel|
        if recorder.thread_id == thread_id {
            RecorderModel { thread_id, spans: ring_push(recorder.spans, span) }
        } else {
            recorder
        };
    if recorders.len() > 0 {
        lemma_record_keeps_others(recorders.drop_last(), thread_id, span);
        assert(recorders.map_values(recorded).drop_last() == recorders.drop_last().map_values(
            recorded,
        ));
    }
}

/// What a thread's buffer holds after several spans were recorded into it.
pub open spec fn ring_pushes(spans: Seq<CpuSpan>, more: Seq<CpuSpan>) -> Seq<CpuSpan>
    decreases more.len(),
{
    if more.len() == 0 {
        spans
    } else {
        ring_push(ring_pushes(spans, more.drop_last()), more.last())
    }
}

/// A thread's buffer holds the spans it recorded last, as many as fit.
pub proof fn law_thread_buffer_keeps_newest(more: Seq<CpuSpan>)
    ensures
        ring_pushes(Seq::empty(), more) == newest(more, MAX_THREAD_SPANS as nat),
    decreases more.len(),
{
    lemma_thread_buffer_size();
    if more.len() > 0 {
        let rest = more.drop_last();
        law_thread_buffer_keeps_newest(rest);
        if rest.len() < MAX_THREAD_SPANS {
            assert(rest.push(more.last()) == more);
        } else {
            assert(newest(rest, MAX_THREAD_SPANS as nat).skip(1).push(more.last()) == newest(
                more,
                MAX_THREAD_SPANS as nat,
            ));
        }
    } else {
        assert(more == Seq::<CpuSpan>::empty());
    }
}

/// GPU spans go to the frame they belong to and to no other, and change
/// nothing but its GPU side. Where that frame was evicted they are dropped.
pub proof fn law_gpu_spans_touch_one_frame(
    session: SessionModel,
    frame_index: u64,
    spans: Seq<GpuSpan>,
    truncated: bool,
)
    requires
        indices_unique(session),
    ensures
        ({
            let frames = session.finished_frames;
            let after = gpu_spans_attached(frames, frame_index, spans, truncated);
            &&& after.len() == frames.len()
            &&& forall|i: int|
                0 <= i < frames.len() ==> (#[trigger] after[i]) == if frames[i].frame_index
                    == frame_index {
                    with_gpu_spans(frames[i], spans, truncated)
                } else {
                    frames[i]
                }
            &&& indices_unique(SessionModel { finished_frames: after, ..session })
        }),
{
    let frames = session.finished_frames;
    let after = gpu_spans_attached(frames, frame_index, spans, truncated);
    if exists|i: int| is_first_with_index(frames, frame_index, i) {
        let first = choose|i: int| is_first_with_index(frames, frame_index, i);
        assert forall|i: int| 0 <= i < frames.len() implies (#[trigger] after[i]) == if frames[i].frame_index
            == frame_index {
            with_gpu_spans(frames[i], spans, truncated)
        } else {
            frames[i]
        } by {
            if i != first {
                assert(frames[i].frame_index != frames[first].frame_index);
            }
        }
    } else {
        lemma_no_first(frames, frame_index, frames.len() as int);
    }
}

/// Where no frame is the first with an index, none has it.
proof fn lemma_no_first(frames: Seq<FrameModel>, frame_index: u64, count: int)
    requires
        0 <= count <= frames.len(),
        forall|i: int| !is_first_with_index(frames, frame_index, i),
    ensures
        forall|i: int| 0 <= i < count ==> (#[trigger] frames[i]).frame_index != frame_index,
    decreases count,
{
    if count > 0 {
        lemma_no_first(frames, frame_index, count - 1);
        assert(!is_first_with_index(frames, frame_index, count - 1));
    }
}

/// There is one way to list the open frames, the oldest first.
pub proof fn law_open_order_is_unique(session: SessionModel, order: Seq<u64>)
    requires
        lists_open_frames(session, order),
    ensures
        open_order(session) == order,
{
    lemma_ascending_unique(open_order(session), order);
}

/// The indices of a sequence of frames.
pub open spec fn frame_indices(frames: Seq<FrameModel>) -> Seq<u64> {
    frames.map_values(|frame: FrameModel| frame.frame_index)
}

/// Stopping a capture closes every frame that is open, the oldest first: the
/// capture holds the frames that were finished, then those, and where they are
/// more than the bound, the newest of them.
pub proof fn law_stop_closes_oldest_first(
    session: SessionModel,
    order: Seq<u64>,
    now: Moment,
    recorders: Seq<RecorderModel>,
    thread_id: u64,
)
    requires
        session_wf(session),
        lists_open_frames(session, order),
    ensures
        ({
            let stopped = frames_closed(session, order, now, recorders, thread_id);
            &&& stopped.open_frames.dom() == Set::<u64>::empty()
            &&& frame_indices(stopped.finished_frames) == newest(
                frame_indices(session.finished_frames) + order,
                session.max_frames as nat,
            )
            &&& stopped_capture(session, now, recorders, thread_id).frames
                == stopped.finished_frames
        }),
{
    law_open_order_is_unique(session, order);
    lemma_closes_empty(session, order, now, recorders, thread_id);
    lemma_closes_in_order(session, order, order.len() as int, now, recorders, thread_id);
    assert(order.take(order.len() as int) == order);
    assert(session.open_frames.remove_keys(order.to_set()).dom() == Set::<u64>::empty());
}

/// Each of the first `n` listed frames joins the finished ones, in order.
proof fn lemma_closes_in_order(
    session: SessionModel,
    order: Seq<u64>,
    n: int,
    now: Moment,
    recorders: Seq<RecorderModel>,
    thread_id: u64,
)
    requires
        session_wf(session),
        lists_open_frames(session, order),
        0 <= n <= order.len(),
    ensures
        ({
            let closed = frames_closed(session, order.take(n), now, recorders, thread_id);
            frame_indices(closed.finished_frames) == newest(
                frame_indices(session.finished_frames) + order.take(n),
                session.max_frames as nat,
            )
        }),
    decreases n,
{
    let finished = frame_indices(session.finished_frames);
    let bound = session.max_frames as nat;
    if n == 0 {
        assert(finished + order.take(0) == finished);
    } else {
        let rest = order.take(n - 1);
        lemma_closes_in_order(session, order, n - 1, now, recorders, thread_id);
        lemma_closes_empty(session, rest, now, recorders, thread_id);
        assert(order.take(n).drop_last() == rest);
        assert(order.take(n).last() == order[n - 1]);
        assert(order.to_set().contains(order[n - 1]));
        assert(!rest.to_set().contains(order[n - 1])) by {
            if rest.contains(order[n - 1]) {
                let i = rest.index_of(order[n - 1]);
                assert(order[i] == order[n - 1]);
            }
        }
        let before = frames_closed(session, rest, now, recorders, thread_id);
        let closed = frames_closed(session, order.take(n), now, recorders, thread_id);
        assert(frame_indices(closed.finished_frames) == newest(
            frame_indices(before.finished_frames).push(order[n - 1]),
            bound,
        ));
        assert(finished + order.take(n) == (finished + rest).push(order[n - 1]));
        assert(newest(newest(finished + rest, bound).push(order[n - 1]), bound) == newest(
            (finished + rest).push(order[n - 1]),
            bound,
        ));
    }
}

/// Closing a span restores the stack it was opened on, and yields that span:
/// spans close in the reverse of the order they were opened in.
pub proof fn law_spans_nest(
    stack: Seq<PendingSpan>,
    name: SpanName,
    category: SpanCategory,
    element: Option<ElementAttribution>,
    now: Moment,
)
    ensures
        ({
            let opened = opened_span(stack.len(), name, category, element, now);
            &&& stack.push(opened).last() == opened
            &&& stack.push(opened).drop_last() == stack
        }),
{
}

/// A span's depth counts the spans that were open around it: one opened
/// directly inside another is one level deeper, as far as the depth can count.
pub proof fn law_depth_counts_enclosing_spans(
    stack: Seq<PendingSpan>,
    outer: PendingSpan,
    name: SpanName,
    category: SpanCategory,
    element: Option<ElementAttribution>,
    start: Moment,
    anchor: Moment,
    end: Moment,
    key: ThreadKey,
)
    requires
        outer == opened_span(stack.len(), outer.name, outer.category, outer.element, outer.start),
    ensures
        ({
            let inner = opened_span(stack.push(outer).len(), name, category, element, start);
            &&& completed_span(inner, anchor, end, key).depth == clamped(
                stack.len() as int + 1,
                u16::MAX as int,
            )
            &&& stack.len() < u16::MAX ==> completed_span(inner, anchor, end, key).depth
                == completed_span(outer, anchor, end, key).depth + 1
        }),
{
}

/// A span that was opened and closed inside another lies within it on the
/// recorded timeline, where neither its times nor its duration saturate.
pub proof fn law_nested_span_lies_within(
    outer: PendingSpan,
    inner: PendingSpan,
    anchor: Moment,
    inner_end: Moment,
    outer_end: Moment,
    key: ThreadKey,
)
    requires
        anchor.nanos <= outer.start.nanos <= inner.start.nanos <= inner_end.nanos
            <= outer_end.nanos,
        outer_end.nanos - anchor.nanos <= u64::MAX,
        outer_end.nanos - outer.start.nanos <= u32::MAX,
    ensures
        ({
            let outer_span = completed_span(outer, anchor, outer_end, key);
            let inner_span = completed_span(inner, anchor, inner_end, key);
            &&& outer_span.start_ns <= inner_span.start_ns
            &&& inner_span.start_ns + inner_span.duration_ns <= outer_span.start_ns
                + outer_span.duration_ns
        }),
{
}

} // verus!
