//! What the operations on a capture session promise, in terms of the frames and
//! spans before and after.

use crate::flamegraph::capture::{
    active_capture_anchor, active_capture_wants_gpu, attach_gpu_spans, capture_anchor,
    capture_enabled, close_frame_cpu_side, current_gpu_correlation_frame_index, gpu_calibration,
    open_frame_cpu_side, set_gpu_calibration, start_capture, Capture, CaptureHandle, Profiler,
};
use crate::flamegraph::laws::{
    frame_indices, law_close_conserves_spans, law_open_order_is_unique,
    law_stop_closes_oldest_first,
};
use crate::flamegraph::model::{
    frame_models, CpuSpan, FrameCapture, FrameModel, GpuClockCalibration, GpuSpan, Moment,
};
use crate::flamegraph::recorder::{
    distinct_threads, lemma_own_spans, other_spans, RecorderModel, ThreadRegistry,
};
use crate::flamegraph::recorder_laws::{law_newest, law_other_spans_are_recorded};
use crate::flamegraph::session::{
    closed_frame, frame_closed, frames_closed, is_first_with_index, last_opened, newest, open_order,
    recorders_after_close, recorders_after_closes, session_ns, spans_outside, spans_within,
    AlreadyCapturingError, CaptureOptions, CaptureState, SessionModel,
};
use std::collections::VecDeque;
use vstd::prelude::*;
use vstd::std_specs::vecdeque::into_iter_elts;

verus! {

/// A session's clock counts from its anchor: a moment's time, added to the
/// anchor, gives the moment.
pub proof fn law_session_time(session: SessionModel, now: Moment)
    ensures
        session.anchor.nanos <= now.nanos <= session.anchor.nanos + u64::MAX
            ==> session.anchor.nanos + session_ns(session, now) == now.nanos,
        now.nanos <= session.anchor.nanos ==> session_ns(session, now) == 0,
        session.anchor.nanos + u64::MAX <= now.nanos ==> session_ns(session, now) == u64::MAX,
{
}

/// A session's clock does not run backwards.
pub proof fn law_session_time_advances(session: SessionModel, earlier: Moment, later: Moment)
    requires
        earlier.nanos <= later.nanos,
    ensures
        session_ns(session, earlier) <= session_ns(session, later),
{
}

/// Sorting one more span by a frame's window: it joins those inside exactly when
/// its start is not before the window and is before the window's end, and those
/// outside otherwise. Nothing else about the span matters, and order is kept.
pub proof fn law_window_sorts_by_start(
    spans: Seq<CpuSpan>,
    span: CpuSpan,
    start_ns: u64,
    end_ns: u64,
)
    ensures
        spans_within(Seq::empty(), start_ns, end_ns).len() == 0,
        spans_outside(Seq::empty(), start_ns, end_ns).len() == 0,
        start_ns <= span.start_ns && span.start_ns < end_ns ==> spans_within(
            spans.push(span),
            start_ns,
            end_ns,
        ) == spans_within(spans, start_ns, end_ns).push(span) && spans_outside(
            spans.push(span),
            start_ns,
            end_ns,
        ) == spans_outside(spans, start_ns, end_ns),
        span.start_ns < start_ns || end_ns <= span.start_ns ==> spans_within(
            spans.push(span),
            start_ns,
            end_ns,
        ) == spans_within(spans, start_ns, end_ns) && spans_outside(
            spans.push(span),
            start_ns,
            end_ns,
        ) == spans_outside(spans, start_ns, end_ns).push(span),
{
    reveal(Seq::filter);
    assert(spans.push(span).drop_last() == spans);
}

/// A span is inside a window exactly when it is one of the spans and starts
/// there.
proof fn lemma_within(spans: Seq<CpuSpan>, span: CpuSpan, start_ns: u64, end_ns: u64)
    ensures
        spans_within(spans, start_ns, end_ns).contains(span) <==> spans.contains(span) && start_ns
            <= span.start_ns && span.start_ns < end_ns,
        spans_outside(spans, start_ns, end_ns).contains(span) <==> spans.contains(span)
            && !(start_ns <= span.start_ns && span.start_ns < end_ns),
    decreases spans.len(),
{
    if spans.len() == 0 {
        law_window_sorts_by_start(spans, span, start_ns, end_ns);
        assert(spans == Seq::<CpuSpan>::empty());
    } else {
        let rest = spans.drop_last();
        let last = spans.last();
        lemma_within(rest, span, start_ns, end_ns);
        law_window_sorts_by_start(rest, last, start_ns, end_ns);
        assert(spans == rest.push(last));
        lemma_push_contains(rest, last, span);
        lemma_push_contains(spans_within(rest, start_ns, end_ns), last, span);
        lemma_push_contains(spans_outside(rest, start_ns, end_ns), last, span);
    }
}

proof fn lemma_push_contains(spans: Seq<CpuSpan>, last: CpuSpan, span: CpuSpan)
    ensures
        spans.push(last).contains(span) <==> spans.contains(span) || span == last,
{
    let longer = spans.push(last);
    if spans.contains(span) {
        let i = spans.index_of(span);
        assert(longer[i] == span);
    }
    if span == last {
        assert(longer[spans.len() as int] == span);
    }
    if longer.contains(span) && span != last {
        let i = longer.index_of(span);
        assert(spans[i] == span);
    }
}

/// Whether `span` was pending, or was completed by another thread, when a frame
/// was closed on `thread_id`.
pub open spec fn awaits_a_frame(
    pending: Seq<CpuSpan>,
    recorders: Seq<RecorderModel>,
    thread_id: u64,
    span: CpuSpan,
) -> bool {
    pending.contains(span) || exists|i: int|
        0 <= i < recorders.len() && (#[trigger] recorders[i]).thread_id != thread_id
            && recorders[i].spans.contains(span)
}

/// Closing a frame sorts every span that was pending, or that another thread
/// completed, by its start alone: into the frame where it started in the
/// frame's window, and into the pending spans otherwise. Nothing else is in
/// either.
pub proof fn law_close_claims_spans_by_start(
    profiler: &mut Profiler,
    frame_index: u64,
    now: Moment,
    registry: &mut ThreadRegistry,
    thread_id: u64,
    span: CpuSpan,
)
    requires
        call_ensures(
            close_frame_cpu_side,
            (profiler, Some(frame_index), now, registry, thread_id),
            (),
        ),
        old(profiler)@.active is Some,
        old(profiler)@.active->0.open_frames.contains_key(frame_index),
        1 <= old(profiler)@.active->0.max_frames,
    ensures
        ({
            let before = old(profiler)@.active->0;
            let after = final(profiler)@.active->0;
            let frame = after.finished_frames.last();
            let awaited = awaits_a_frame(
                before.pending_background_spans,
                old(registry)@,
                thread_id,
                span,
            );
            &&& frame.background_spans.contains(span) <==> awaited && frame.frame_start_ns
                <= span.start_ns && span.start_ns < frame.frame_end_ns
            &&& after.pending_background_spans.contains(span) <==> awaited && !(
            frame.frame_start_ns <= span.start_ns && span.start_ns < frame.frame_end_ns)
            &&& frame.background_spans.to_multiset().add(
                after.pending_background_spans.to_multiset(),
            ) == before.pending_background_spans.to_multiset().add(
                other_spans(old(registry)@, thread_id).to_multiset(),
            )
        }),
{
    let before = old(profiler)@.active->0;
    let recorders = old(registry)@;
    let all = before.pending_background_spans + other_spans(recorders, thread_id);
    let frame = closed_frame(before, frame_index, now, recorders, thread_id);
    lemma_closed_is_last(before, frame_index, now, recorders, thread_id);
    law_other_spans_are_recorded(recorders, thread_id, span);
    lemma_within(all, span, frame.frame_start_ns, frame.frame_end_ns);
    lemma_concat_contains(
        before.pending_background_spans,
        other_spans(recorders, thread_id),
        span,
    );
    law_close_conserves_spans(before, frame_index, now, recorders, thread_id);
}

proof fn lemma_concat_contains(first: Seq<CpuSpan>, second: Seq<CpuSpan>, span: CpuSpan)
    ensures
        (first + second).contains(span) <==> first.contains(span) || second.contains(span),
{
    let both = first + second;
    if first.contains(span) {
        let i = first.index_of(span);
        assert(both[i] == span);
    }
    if second.contains(span) {
        let i = second.index_of(span);
        assert(both[first.len() + i] == span);
    }
    if both.contains(span) {
        let i = both.index_of(span);
        if i < first.len() {
            assert(first[i] == span);
        } else {
            assert(second[i - first.len()] == span);
        }
    }
}

proof fn lemma_closed_is_last(
    session: SessionModel,
    frame_index: u64,
    now: Moment,
    recorders: Seq<RecorderModel>,
    thread_id: u64,
)
    requires
        session.open_frames.contains_key(frame_index),
        1 <= session.max_frames,
    ensures
        frame_closed(
            session,
            frame_index,
            now,
            recorders,
            thread_id,
        ).finished_frames.len() > 0,
        frame_closed(session, frame_index, now, recorders, thread_id).finished_frames.last()
            == closed_frame(session, frame_index, now, recorders, thread_id),
{
    let all = session.finished_frames.push(
        closed_frame(session, frame_index, now, recorders, thread_id),
    );
    law_newest(all, session.max_frames as nat);
}

/// The spans that a frame claims come in order: those that were pending before
/// those of other threads.
pub proof fn law_close_keeps_span_order(
    profiler: &mut Profiler,
    frame_index: u64,
    now: Moment,
    registry: &mut ThreadRegistry,
    thread_id: u64,
)
    requires
        call_ensures(
            close_frame_cpu_side,
            (profiler, Some(frame_index), now, registry, thread_id),
            (),
        ),
        old(profiler)@.active is Some,
        old(profiler)@.active->0.open_frames.contains_key(frame_index),
        1 <= old(profiler)@.active->0.max_frames,
    ensures
        ({
            let before = old(profiler)@.active->0;
            let after = final(profiler)@.active->0;
            let frame = after.finished_frames.last();
            let awaited = before.pending_background_spans + other_spans(
                old(registry)@,
                thread_id,
            );
            &&& frame.background_spans == spans_within(
                awaited,
                frame.frame_start_ns,
                frame.frame_end_ns,
            )
            &&& after.pending_background_spans == spans_outside(
                awaited,
                frame.frame_start_ns,
                frame.frame_end_ns,
            )
        }),
{
    lemma_closed_is_last(
        old(profiler)@.active->0,
        frame_index,
        now,
        old(registry)@,
        thread_id,
    );
}

/// A closed frame is the newest finished frame. It is of the window and from the
/// time it was opened with, ends at the moment it is closed, has every span that
/// its own thread completed, and waits for GPU spans if the capture wants them.
pub proof fn law_close_finishes_the_frame(
    profiler: &mut Profiler,
    frame_index: u64,
    now: Moment,
    registry: &mut ThreadRegistry,
    thread_id: u64,
)
    requires
        call_ensures(
            close_frame_cpu_side,
            (profiler, Some(frame_index), now, registry, thread_id),
            (),
        ),
        distinct_threads(old(registry)@),
        old(profiler)@.active is Some,
        old(profiler)@.active->0.open_frames.contains_key(frame_index),
        1 <= old(profiler)@.active->0.max_frames,
    ensures
        ({
            let before = old(profiler)@.active->0;
            let after = final(profiler)@.active->0;
            let opened = before.open_frames[frame_index];
            let frame = after.finished_frames.last();
            let recorders = old(registry)@;
            &&& frame.frame_index == frame_index
            &&& frame.window_id == opened.window_id
            &&& frame.frame_start_ns == opened.frame_start_ns
            &&& before.anchor.nanos <= now.nanos <= before.anchor.nanos + u64::MAX
                ==> before.anchor.nanos + frame.frame_end_ns == now.nanos
            &&& now.nanos <= before.anchor.nanos ==> frame.frame_end_ns == 0
            &&& before.anchor.nanos + u64::MAX <= now.nanos ==> frame.frame_end_ns == u64::MAX
            &&& forall|i: int|
                0 <= i < recorders.len() && (#[trigger] recorders[i]).thread_id == thread_id
                    ==> frame.cpu_spans == recorders[i].spans
            &&& (forall|i: int|
                0 <= i < recorders.len() ==> (#[trigger] recorders[i]).thread_id != thread_id)
                ==> frame.cpu_spans.len() == 0
            &&& frame.gpu_spans.len() == 0
            &&& frame.gpu_spans_finalized <==> !before.capture_gpu
            &&& !frame.gpu_spans_truncated
        }),
{
    lemma_closed_is_last(
        old(profiler)@.active->0,
        frame_index,
        now,
        old(registry)@,
        thread_id,
    );
    lemma_own_spans(old(registry)@, thread_id);
}

/// Closing a frame keeps the frames finished before it, all but the oldest where
/// the bound leaves no room, and keeps every other open frame and the session's
/// settings. Every recorder is empty afterwards.
pub proof fn law_close_keeps_the_rest(
    profiler: &mut Profiler,
    frame_index: u64,
    now: Moment,
    registry: &mut ThreadRegistry,
    thread_id: u64,
)
    requires
        call_ensures(
            close_frame_cpu_side,
            (profiler, Some(frame_index), now, registry, thread_id),
            (),
        ),
        old(profiler)@.active is Some,
        old(profiler)@.active->0.open_frames.contains_key(frame_index),
        1 <= old(profiler)@.active->0.max_frames,
        old(profiler)@.active->0.finished_frames.len() <= old(profiler)@.active->0.max_frames,
    ensures
        final(profiler)@.active is Some,
        ({
            let before = old(profiler)@.active->0;
            let after = final(profiler)@.active->0;
            &&& before.finished_frames.len() < before.max_frames
                ==> after.finished_frames.drop_last() == before.finished_frames
            &&& before.finished_frames.len() == before.max_frames
                ==> after.finished_frames.drop_last() == before.finished_frames.skip(1)
            &&& after.open_frames == before.open_frames.remove(frame_index)
            &&& after.anchor == before.anchor
            &&& after.max_frames == before.max_frames
            &&& after.capture_gpu == before.capture_gpu
            &&& after.next_frame_index == before.next_frame_index
            &&& after.last_opened_frame_index == before.last_opened_frame_index
        }),
        final(profiler)@.calibration == old(profiler)@.calibration,
        forall|i: int|
            0 <= i < final(registry)@.len() ==> (#[trigger] final(registry)@[i]).spans.len() == 0,
        forall|i: int|
            0 <= i < old(registry)@.len() ==> i < final(registry)@.len() && (
            #[trigger] final(registry)@[i]).thread_id == old(registry)@[i].thread_id,
        forall|i: int|
            old(registry)@.len() <= i < final(registry)@.len() ==> i == old(registry)@.len() && (
            #[trigger] final(registry)@[i]).thread_id == thread_id,
{
    let before = old(profiler)@.active->0;
    let frame = closed_frame(before, frame_index, now, old(registry)@, thread_id);
    law_newest(before.finished_frames.push(frame), before.max_frames as nat);
    let after = final(profiler)@.active->0;
    if before.finished_frames.len() < before.max_frames {
        assert(after.finished_frames.drop_last() == before.finished_frames);
    } else {
        assert(after.finished_frames.drop_last() == before.finished_frames.skip(1));
    }
}

/// Closing no frame, a frame that is not open, or any frame without a capture
/// changes nothing.
pub proof fn law_close_ignores_what_is_not_open(
    profiler: &mut Profiler,
    frame_index: Option<u64>,
    now: Moment,
    registry: &mut ThreadRegistry,
    thread_id: u64,
)
    requires
        call_ensures(
            close_frame_cpu_side,
            (profiler, frame_index, now, registry, thread_id),
            (),
        ),
        old(profiler)@.active is None || frame_index is None
            || !old(profiler)@.active->0.open_frames.contains_key(frame_index->0),
    ensures
        final(profiler)@ == old(profiler)@,
        final(registry)@ == old(registry)@,
{
}

/// An opened frame is open, of the window and from the moment that were given;
/// it is the one opened last. No other frame and no span changes.
pub proof fn law_open_frame(
    profiler: &mut Profiler,
    window_id: u64,
    now: Moment,
    index: Option<u64>,
)
    requires
        call_ensures(open_frame_cpu_side, (profiler, window_id, now), index),
        old(profiler)@.active is Some,
    ensures
        index is Some,
        final(profiler)@.active is Some,
        ({
            let before = old(profiler)@.active->0;
            let after = final(profiler)@.active->0;
            &&& after.open_frames.contains_key(index->0)
            &&& after.open_frames[index->0].window_id == window_id
            &&& before.anchor.nanos <= now.nanos <= before.anchor.nanos + u64::MAX
                ==> before.anchor.nanos + after.open_frames[index->0].frame_start_ns == now.nanos
            &&& now.nanos <= before.anchor.nanos
                ==> after.open_frames[index->0].frame_start_ns == 0
            &&& before.anchor.nanos + u64::MAX <= now.nanos
                ==> after.open_frames[index->0].frame_start_ns == u64::MAX
            &&& forall|other: u64|
                other != index->0 ==> (#[trigger] after.open_frames.contains_key(other)
                    == before.open_frames.contains_key(other)) && (before.open_frames.contains_key(
                    other,
                ) ==> after.open_frames[other] == before.open_frames[other])
            &&& index->0 == before.next_frame_index
            &&& index->0 < u64::MAX ==> after.next_frame_index == index->0 + 1 && last_opened(
                after,
            ) == Some(index->0)
            &&& index->0 == u64::MAX ==> after.next_frame_index == 0
            &&& after.finished_frames == before.finished_frames
            &&& after.pending_background_spans == before.pending_background_spans
            &&& after.anchor == before.anchor
            &&& after.max_frames == before.max_frames
            &&& after.capture_gpu == before.capture_gpu
        }),
        final(profiler)@.calibration == old(profiler)@.calibration,
{
}

/// Without a capture no frame is opened.
pub proof fn law_no_frame_without_capture(
    profiler: &mut Profiler,
    window_id: u64,
    now: Moment,
    index: Option<u64>,
)
    requires
        call_ensures(open_frame_cpu_side, (profiler, window_id, now), index),
        old(profiler)@.active is None,
    ensures
        index is None,
        final(profiler)@ == old(profiler)@,
{
}

/// The frame that GPU work is tagged with is the one opened last, and there is
/// none until a frame was opened.
pub proof fn law_gpu_work_belongs_to_the_last_frame(
    opening: &mut Profiler,
    window_id: u64,
    now: Moment,
    opened: Option<u64>,
    asked: &Profiler,
    index: Option<u64>,
)
    requires
        call_ensures(open_frame_cpu_side, (opening, window_id, now), opened),
        call_ensures(current_gpu_correlation_frame_index, (asked,), index),
        asked@ == final(opening)@,
        opened != Some(u64::MAX),
    ensures
        index == opened,
{
}

/// Starting a capture succeeds exactly when none is active. The session then
/// counts from the moment it was started, keeps the given number of frames but
/// at least one, wants GPU spans as asked, and has no frames and no spans.
pub proof fn law_start(
    profiler: &mut Profiler,
    options: CaptureOptions,
    now: Moment,
    result: Result<CaptureHandle, AlreadyCapturingError>,
)
    requires
        call_ensures(start_capture, (profiler, options, now), result),
    ensures
        result is Ok <==> old(profiler)@.active is None,
        old(profiler)@.active is Some ==> final(profiler)@ == old(profiler)@,
        final(profiler)@.calibration == old(profiler)@.calibration,
        final(profiler)@.active is Some,
        result is Ok ==> {
            let session = final(profiler)@.active->0;
            &&& session_ns(session, now) == 0
            &&& session.anchor == now
            &&& session.max_frames >= 1
            &&& options.max_frames >= 1 ==> session.max_frames == options.max_frames
            &&& options.max_frames == 0 ==> session.max_frames == 1
            &&& session.capture_gpu == options.capture_gpu
            &&& session.next_frame_index == 0
            &&& last_opened(session) is None
            &&& session.finished_frames.len() == 0
            &&& session.pending_background_spans.len() == 0
            &&& forall|index: u64| !#[trigger] session.open_frames.contains_key(index)
        },
{
}

/// A capture is on exactly while there is a session; then its anchor can be
/// asked for, and whether it wants GPU spans.
pub proof fn law_questions(
    profiler: &Profiler,
    enabled: bool,
    anchor: Option<Moment>,
    calibration_anchor: Option<Moment>,
    wanted: bool,
    calibration: GpuClockCalibration,
    handle: &CaptureHandle,
    recording: bool,
    last: Option<u64>,
)
    requires
        call_ensures(current_gpu_correlation_frame_index, (profiler,), last),
        call_ensures(capture_enabled, (profiler,), enabled),
        call_ensures(active_capture_anchor, (profiler,), anchor),
        call_ensures(capture_anchor, (profiler,), calibration_anchor),
        call_ensures(active_capture_wants_gpu, (profiler,), wanted),
        call_ensures(gpu_calibration, (profiler,), calibration),
        call_ensures(CaptureHandle::is_recording, (handle, profiler), recording),
    ensures
        enabled <==> profiler@.active is Some,
        recording <==> enabled,
        anchor is Some <==> enabled,
        enabled ==> anchor == Some(profiler@.active->0.anchor),
        calibration_anchor == anchor,
        wanted <==> enabled && profiler@.active->0.capture_gpu,
        calibration == profiler@.calibration,
        last is Some <==> enabled && profiler@.active->0.last_opened_frame_index < u64::MAX,
        last matches Some(index) ==> index == profiler@.active->0.last_opened_frame_index,
{
}

/// Setting the calibration replaces it and leaves the capture alone.
pub proof fn law_set_calibration(profiler: &mut Profiler, calibration: GpuClockCalibration)
    requires
        call_ensures(set_gpu_calibration, (profiler, calibration), ()),
    ensures
        final(profiler)@.calibration == calibration,
        final(profiler)@.active == old(profiler)@.active,
{
}

/// GPU spans reach the first frame with their index, whole and in order, and mark it
/// as done. Every other frame stays, and so does the rest of the session.
pub proof fn law_attach(
    profiler: &mut Profiler,
    frame_index: u64,
    spans: Vec<GpuSpan>,
    truncated: bool,
)
    requires
        call_ensures(attach_gpu_spans, (profiler, frame_index, spans, truncated), ()),
        old(profiler)@.active is Some,
    ensures
        final(profiler)@.active is Some,
        ({
            let before = old(profiler)@.active->0;
            let after = final(profiler)@.active->0;
            &&& after.finished_frames.len() == before.finished_frames.len()
            &&& forall|i: int|
                0 <= i < before.finished_frames.len() ==> {
                    let old_frame = before.finished_frames[i];
                    let new_frame = #[trigger] after.finished_frames[i];
                    if old_frame.frame_index == frame_index && (forall|j: int|
                        0 <= j < i ==> (#[trigger] before.finished_frames[j]).frame_index
                            != frame_index) {
                        &&& new_frame.gpu_spans == spans@
                        &&& new_frame.gpu_spans_finalized
                        &&& new_frame.gpu_spans_truncated == truncated
                        &&& new_frame.frame_index == old_frame.frame_index
                        &&& new_frame.window_id == old_frame.window_id
                        &&& new_frame.cpu_spans == old_frame.cpu_spans
                        &&& new_frame.background_spans == old_frame.background_spans
                        &&& new_frame.frame_start_ns == old_frame.frame_start_ns
                        &&& new_frame.frame_end_ns == old_frame.frame_end_ns
                    } else {
                        new_frame == old_frame
                    }
                }
            &&& after.open_frames == before.open_frames
            &&& after.pending_background_spans == before.pending_background_spans
            &&& after.anchor == before.anchor
            &&& after.max_frames == before.max_frames
            &&& after.capture_gpu == before.capture_gpu
            &&& after.next_frame_index == before.next_frame_index
            &&& after.last_opened_frame_index == before.last_opened_frame_index
        }),
        final(profiler)@.calibration == old(profiler)@.calibration,
{
    let frames = old(profiler)@.active->0.finished_frames;
    lemma_first_with_index(frames, frame_index);
    if exists|i: int| is_first_with_index(frames, frame_index, i) {
        let i = choose|i: int| is_first_with_index(frames, frame_index, i);
        assert(is_first_with_index(frames, frame_index, i));
        assert forall|k: int| is_first_with_index(frames, frame_index, k) implies k == i by {}
        assert forall|k: int|
            0 <= k < frames.len() && k != i && (
            #[trigger] frames[k]).frame_index == frame_index implies exists|j: int|
            0 <= j < k && (#[trigger] frames[j]).frame_index == frame_index by {
            assert(!is_first_with_index(frames, frame_index, k));
        }
    }
}

proof fn lemma_first_with_index(frames: Seq<FrameModel>, frame_index: u64)
    ensures
        forall|i: int|
            0 <= i < frames.len() && (#[trigger] frames[i]).frame_index == frame_index && (forall|
                j: int,
            |
                0 <= j < i ==> (#[trigger] frames[j]).frame_index != frame_index)
                ==> is_first_with_index(frames, frame_index, i),
{
}

/// Without a capture, GPU spans are dropped.
pub proof fn law_attach_without_capture(
    profiler: &mut Profiler,
    frame_index: u64,
    spans: Vec<GpuSpan>,
    truncated: bool,
)
    requires
        call_ensures(attach_gpu_spans, (profiler, frame_index, spans, truncated), ()),
        old(profiler)@.active is None,
    ensures
        final(profiler)@ == old(profiler)@,
{
}

/// Stopping ends the capture and hands out its frames: those that were finished,
/// then those that were open, the oldest first, as far as the bound allows. The
/// anchor and the bound go with them.
pub proof fn law_stop(
    handle: CaptureHandle,
    profiler: &mut Profiler,
    now: Moment,
    registry: &mut ThreadRegistry,
    thread_id: u64,
    capture: Capture,
    order: Seq<u64>,
)
    requires
        call_ensures(
            CaptureHandle::stop,
            (handle, profiler, now, registry, thread_id),
            capture,
        ),
        old(profiler)@.active is Some,
        1 <= old(profiler)@.active->0.max_frames,
        old(profiler)@.active->0.finished_frames.len() <= old(profiler)@.active->0.max_frames,
        forall|i: int, j: int| 0 <= i < j < order.len() ==> order[i] < order[j],
        forall|index: u64|
            order.contains(index) <==> #[trigger] old(
                profiler,
            )@.active->0.open_frames.contains_key(index),
    ensures
        final(profiler)@.active is None,
        final(profiler)@.calibration == old(profiler)@.calibration,
        capture@.anchor == old(profiler)@.active->0.anchor,
        capture@.max_frames == old(profiler)@.active->0.max_frames,
        ({
            let before = old(profiler)@.active->0;
            let all = before.finished_frames.len() + order.len();
            let count = capture@.frames.len();
            &&& all <= before.max_frames ==> count == all
            &&& all > before.max_frames ==> count == before.max_frames
            &&& forall|i: int|
                0 <= i < count ==> {
                    let place = i + all - count;
                    (#[trigger] capture@.frames[i]).frame_index == if place
                        < before.finished_frames.len() {
                        before.finished_frames[place].frame_index
                    } else {
                        order[place - before.finished_frames.len()]
                    }
                }
        }),
{
    let before = old(profiler)@.active->0;
    assert(order.to_set() == before.open_frames.dom());
    law_stop_closes_oldest_first(before, order, now, old(registry)@, thread_id);
    let indices = frame_indices(before.finished_frames) + order;
    law_newest(indices, before.max_frames as nat);
    assert(frame_indices(capture@.frames) == newest(indices, before.max_frames as nat));
    assert forall|i: int| 0 <= i < capture@.frames.len() implies (
    #[trigger] capture@.frames[i]).frame_index == frame_indices(capture@.frames)[i] by {}
}

/// Stopping closes the open frames one after the other, as closing each of them
/// on that thread at that moment would.
pub proof fn law_stop_closes_each_frame(
    handle: CaptureHandle,
    profiler: &mut Profiler,
    now: Moment,
    registry: &mut ThreadRegistry,
    thread_id: u64,
    capture: Capture,
    order: Seq<u64>,
    next: u64,
)
    requires
        call_ensures(
            CaptureHandle::stop,
            (handle, profiler, now, registry, thread_id),
            capture,
        ),
        old(profiler)@.active is Some,
        forall|i: int, j: int| 0 <= i < j < order.len() ==> order[i] < order[j],
        forall|index: u64|
            order.contains(index) <==> #[trigger] old(
                profiler,
            )@.active->0.open_frames.contains_key(index),
    ensures
        ({
            let before = old(profiler)@.active->0;
            let recorders = old(registry)@;
            let closed = frames_closed(before, order, now, recorders, thread_id);
            let left = recorders_after_closes(before, order, now, recorders, thread_id);
            &&& capture@.frames == closed.finished_frames
            &&& final(registry)@ == left
            &&& frames_closed(before, Seq::empty(), now, recorders, thread_id) == before
            &&& recorders_after_closes(before, Seq::empty(), now, recorders, thread_id)
                == recorders
            &&& frames_closed(before, order.push(next), now, recorders, thread_id)
                == frame_closed(closed, next, now, left, thread_id)
            &&& recorders_after_closes(before, order.push(next), now, recorders, thread_id)
                == recorders_after_close(closed, next, left, thread_id)
        }),
{
    let before = old(profiler)@.active->0;
    assert(order.to_set() == before.open_frames.dom());
    law_open_order_is_unique(before, order);
    assert(order.push(next).drop_last() == order);
}

/// A frame that was finished before the capture was stopped is handed out as it
/// was, unless the bound dropped it.
pub proof fn law_stop_keeps_finished_frames(
    handle: CaptureHandle,
    profiler: &mut Profiler,
    now: Moment,
    registry: &mut ThreadRegistry,
    thread_id: u64,
    capture: Capture,
)
    requires
        call_ensures(
            CaptureHandle::stop,
            (handle, profiler, now, registry, thread_id),
            capture,
        ),
        old(profiler)@.active is Some,
        1 <= old(profiler)@.active->0.max_frames,
        old(profiler)@.active->0.finished_frames.len() <= old(profiler)@.active->0.max_frames,
        forall|index: u64|
            !#[trigger] old(profiler)@.active->0.open_frames.contains_key(index),
    ensures
        capture@.frames == old(profiler)@.active->0.finished_frames,
        final(registry)@ == old(registry)@,
{
    let before = old(profiler)@.active->0;
    let order = open_order(before);
    if order.len() > 0 {
        assert(order.to_set().contains(order[0]));
    }
}

/// A stopped capture has as many frames as it says, and gives each of them in
/// its place.
pub proof fn law_frames(
    capture: &Capture,
    count: usize,
    anchor: Moment,
    frames: std::collections::vec_deque::Iter<'_, FrameCapture>,
    index: usize,
)
    requires
        call_ensures(Capture::frame_count, (capture,), count),
        call_ensures(Capture::anchor, (capture,), anchor),
        call_ensures(Capture::frames, (capture,), frames),
    ensures
        count == capture@.frames.len(),
        anchor == capture@.anchor,
        into_iter_elts(frames).len() == count,
        index < count ==> into_iter_elts(frames)[index as int]@ == capture@.frames[index as int],
{
}

/// A new profiler records nothing and is not calibrated.
pub proof fn law_new_profiler(
    profiler: Profiler,
    enabled: bool,
    calibration: GpuClockCalibration,
    default: GpuClockCalibration,
    options: CaptureOptions,
)
    requires
        call_ensures(Profiler::new, (), profiler),
        call_ensures(capture_enabled, (&profiler,), enabled),
        call_ensures(gpu_calibration, (&profiler,), calibration),
        call_ensures(GpuClockCalibration::default, (), default),
        call_ensures(CaptureOptions::default, (), options),
    ensures
        !enabled,
        !calibration.calibrated,
        calibration.cpu_anchor_ns == 0,
        calibration.gpu_anchor_ticks == 0,
        calibration.ns_per_tick_bits == 0,
        default == calibration,
        options.max_frames == 600,
        options.capture_gpu,
{
}

/// A session of its own begins as one that a profiler starts does.
pub proof fn law_session_begins_alike(
    options: CaptureOptions,
    now: Moment,
    state: CaptureState,
    profiler: &mut Profiler,
    result: Result<CaptureHandle, AlreadyCapturingError>,
)
    requires
        call_ensures(CaptureState::new, (options, now), state),
        call_ensures(start_capture, (profiler, options, now), result),
        old(profiler)@.active is None,
    ensures
        final(profiler)@.active == Some(state@),
{
}

/// A session of its own opens frames as one of a profiler does.
pub proof fn law_session_opens_alike(
    state: &mut CaptureState,
    profiler: &mut Profiler,
    window_id: u64,
    now: Moment,
    frame_index: u64,
    index: Option<u64>,
)
    requires
        call_ensures(CaptureState::open_frame, (state, window_id, now), frame_index),
        call_ensures(open_frame_cpu_side, (profiler, window_id, now), index),
        old(profiler)@.active == Some(old(state)@),
    ensures
        index == Some(frame_index),
        final(profiler)@.active == Some(final(state)@),
{
}

/// A session of its own closes frames as one of a profiler does.
pub proof fn law_session_closes_alike(
    state: &mut CaptureState,
    profiler: &mut Profiler,
    frame_index: u64,
    now: Moment,
    registry: &mut ThreadRegistry,
    other: &mut ThreadRegistry,
    thread_id: u64,
)
    requires
        call_ensures(CaptureState::close_frame, (state, frame_index, now, registry, thread_id), ()),
        call_ensures(
            close_frame_cpu_side,
            (profiler, Some(frame_index), now, other, thread_id),
            (),
        ),
        old(profiler)@.active == Some(old(state)@),
        old(registry)@ == old(other)@,
    ensures
        final(profiler)@.active == Some(final(state)@),
        final(registry)@ == final(other)@,
{
}

/// A session of its own ends as one of a profiler does.
pub proof fn law_session_ends_alike(
    state: &mut CaptureState,
    ended: CaptureState,
    frames: VecDeque<FrameCapture>,
    handle: CaptureHandle,
    profiler: &mut Profiler,
    now: Moment,
    registry: &mut ThreadRegistry,
    other: &mut ThreadRegistry,
    thread_id: u64,
    capture: Capture,
)
    requires
        call_ensures(CaptureState::finalize_open_frames, (state, now, registry, thread_id), ()),
        ended@ == final(state)@,
        call_ensures(CaptureState::into_finished_frames, (ended,), frames),
        call_ensures(CaptureHandle::stop, (handle, profiler, now, other, thread_id), capture),
        old(profiler)@.active == Some(old(state)@),
        old(registry)@ == old(other)@,
    ensures
        final(registry)@ == final(other)@,
        frames@.len() == capture@.frames.len(),
        forall|i: int| 0 <= i < frames@.len() ==> (#[trigger] frames@[i])@ == capture@.frames[i],
        forall|index: u64| !#[trigger] final(state)@.open_frames.contains_key(index),
{
    assert(frame_models(frames@) == capture@.frames);
    assert forall|i: int| 0 <= i < frames@.len() implies (#[trigger] frames@[i])@
        == capture@.frames[i] by {
        assert(frame_models(frames@)[i] == frames@[i]@);
    }
}

/// A session of its own takes GPU spans as one of a profiler does.
pub proof fn law_session_attaches_alike(
    state: &mut CaptureState,
    profiler: &mut Profiler,
    frame_index: u64,
    spans: Vec<GpuSpan>,
    truncated: bool,
)
    requires
        call_ensures(CaptureState::attach_gpu_spans, (state, frame_index, spans, truncated), ()),
        call_ensures(attach_gpu_spans, (profiler, frame_index, spans, truncated), ()),
        old(profiler)@.active == Some(old(state)@),
    ensures
        final(profiler)@.active == Some(final(state)@),
{
}

/// What a session says of itself.
pub proof fn law_session_questions(
    state: &CaptureState,
    now: Moment,
    ns: u64,
    anchor: Moment,
    max_frames: usize,
    wanted: bool,
    last: Option<u64>,
)
    requires
        call_ensures(CaptureState::now_ns, (state, now), ns),
        call_ensures(CaptureState::anchor, (state,), anchor),
        call_ensures(CaptureState::max_frames, (state,), max_frames),
        call_ensures(CaptureState::capture_gpu, (state,), wanted),
        call_ensures(CaptureState::last_opened_frame_index, (state,), last),
    ensures
        anchor == state@.anchor,
        anchor.nanos <= now.nanos <= anchor.nanos + u64::MAX ==> anchor.nanos + ns == now.nanos,
        now.nanos <= anchor.nanos ==> ns == 0,
        anchor.nanos + u64::MAX <= now.nanos ==> ns == u64::MAX,
        max_frames == state@.max_frames,
        wanted == state@.capture_gpu,
        last is Some <==> state@.last_opened_frame_index < u64::MAX,
        last matches Some(index) ==> index == state@.last_opened_frame_index,
{
}

} // verus!
