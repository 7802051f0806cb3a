//! What opening and closing spans promises, in terms of the stack, the recorded
//! spans and the moments they were opened and closed at.

use crate::flamegraph::capture::Profiler;
use crate::flamegraph::model::{
    CpuSpan, ElementAttribution, Moment, SpanCategory, SpanName, ThreadKey,
};
use crate::flamegraph::recorder::ThreadRegistry;
use crate::flamegraph::recorder_laws::{lemma_records_span, records_span};
use crate::flamegraph::session::{session_ns, SessionModel};
use crate::flamegraph::spans::{
    completed_span, enter_span, CurrentThread, PendingSpan, SpanGuard, SpanStack,
};
use vstd::prelude::*;

verus! {

/// Opening a span while a capture is active puts it on top of the open ones, as
/// it was given and from that moment on. Its depth is the number of spans that
/// were open, as far as the depth can count.
pub proof fn law_enter(
    profiler: &Profiler,
    stack: &mut SpanStack,
    name: SpanName,
    category: SpanCategory,
    element: Option<ElementAttribution>,
    now: Moment,
    guard: SpanGuard,
)
    requires
        call_ensures(enter_span, (profiler, stack, name, category, element, now), guard),
        profiler@.active is Some,
    ensures
        guard.is_open(),
        final(stack)@.len() == old(stack)@.len() + 1,
        final(stack)@.drop_last() == old(stack)@,
        ({
            let opened = final(stack)@.last();
            &&& opened.name == name
            &&& opened.category == category
            &&& opened.element == element
            &&& opened.start == now
            &&& old(stack)@.len() <= u16::MAX ==> opened.depth == old(stack)@.len()
            &&& old(stack)@.len() >= u16::MAX ==> opened.depth == u16::MAX
        }),
{
}

/// Opening a span without a capture does nothing, and neither does closing it.
pub proof fn law_idle_spans_do_nothing(
    idle: &Profiler,
    stack: &mut SpanStack,
    name: SpanName,
    category: SpanCategory,
    element: Option<ElementAttribution>,
    now: Moment,
    guard: SpanGuard,
    profiler: &Profiler,
    later_stack: &mut SpanStack,
    registry: &mut ThreadRegistry,
    thread: CurrentThread,
    end: Moment,
)
    requires
        call_ensures(enter_span, (idle, stack, name, category, element, now), guard),
        idle@.active is None,
        call_ensures(
            SpanGuard::close,
            (guard, profiler, later_stack, registry, thread, end),
            (),
        ),
    ensures
        final(stack)@ == old(stack)@,
        final(later_stack)@ == old(later_stack)@,
        final(registry)@ == old(registry)@,
{
}

/// Closing a span takes the innermost one from the stack and records it with its
/// thread, behind the spans completed before: as it was opened, with its start
/// counted from the capture's anchor and its duration from its start. Starts
/// are exact as far as 64 bits count, durations as far as 32 bits do.
pub proof fn law_close_records_the_span(
    guard: SpanGuard,
    profiler: &Profiler,
    stack: &mut SpanStack,
    registry: &mut ThreadRegistry,
    thread: CurrentThread,
    now: Moment,
)
    requires
        call_ensures(SpanGuard::close, (guard, profiler, stack, registry, thread, now), ()),
        guard.is_open(),
        profiler@.active is Some,
        old(stack)@.len() > 0,
    ensures
        final(stack)@ == old(stack)@.drop_last(),
        exists|span: CpuSpan|
            #[trigger] records_span(
                old(registry)@,
                thread.thread_id,
                span,
                final(registry)@,
            ) && completes(old(stack)@.last(), profiler@.active->0.anchor, now, thread.key, span),
{
    let span = completed_span(old(stack)@.last(), profiler@.active->0.anchor, now, thread.key);
    lemma_records_span(old(registry)@, thread.thread_id, span);
    assert(records_span(old(registry)@, thread.thread_id, span, final(registry)@));
}

/// Whether `span` is what closing `opened` at `now` completes, in a capture that
/// counts from `anchor`.
pub open spec fn completes(
    opened: PendingSpan,
    anchor: Moment,
    now: Moment,
    key: ThreadKey,
    span: CpuSpan,
) -> bool {
    &&& span.name == opened.name
    &&& span.category == opened.category
    &&& span.element == opened.element
    &&& span.depth == opened.depth
    &&& span.thread_id == key
    &&& anchor.nanos <= opened.start.nanos <= anchor.nanos + u64::MAX ==> anchor.nanos
        + span.start_ns == opened.start.nanos
    &&& opened.start.nanos <= anchor.nanos ==> span.start_ns == 0
    &&& opened.start.nanos >= anchor.nanos + u64::MAX ==> span.start_ns == u64::MAX
    &&& opened.start.nanos <= now.nanos <= opened.start.nanos + u32::MAX ==> opened.start.nanos
        + span.duration_ns == now.nanos
    &&& now.nanos <= opened.start.nanos ==> span.duration_ns == 0
    &&& now.nanos >= opened.start.nanos + u32::MAX ==> span.duration_ns == u32::MAX
}

/// A span that is closed after its capture ended is dropped: the stack loses it,
/// and nothing is recorded.
pub proof fn law_close_after_the_capture(
    guard: SpanGuard,
    profiler: &Profiler,
    stack: &mut SpanStack,
    registry: &mut ThreadRegistry,
    thread: CurrentThread,
    now: Moment,
)
    requires
        call_ensures(SpanGuard::close, (guard, profiler, stack, registry, thread, now), ()),
        guard.is_open(),
        profiler@.active is None,
        old(stack)@.len() > 0,
    ensures
        final(stack)@ == old(stack)@.drop_last(),
        final(registry)@ == old(registry)@,
{
}

/// A guard whose stack is empty closes nothing.
pub proof fn law_close_on_an_empty_stack(
    guard: SpanGuard,
    profiler: &Profiler,
    stack: &mut SpanStack,
    registry: &mut ThreadRegistry,
    thread: CurrentThread,
    now: Moment,
)
    requires
        call_ensures(SpanGuard::close, (guard, profiler, stack, registry, thread, now), ()),
        old(stack)@.len() == 0,
    ensures
        final(stack)@ == old(stack)@,
        final(registry)@ == old(registry)@,
{
}

/// A completed span starts where it was opened: its start, counted from the
/// capture's anchor, is exact as far as 64 bits count.
pub proof fn law_span_starts_where_it_was_opened(
    pending: PendingSpan,
    anchor: Moment,
    now: Moment,
    thread: CurrentThread,
)
    requires
        anchor.nanos <= pending.start.nanos,
        pending.start.nanos - anchor.nanos <= u64::MAX,
    ensures
        completed_span(pending, anchor, now, thread.key).start_ns == pending.start.nanos
            - anchor.nanos,
{
}

/// A span that was opened and closed while a frame was open starts within the
/// frame, and ends within it where its duration is exact.
pub proof fn law_span_lies_in_its_frame(
    session: SessionModel,
    pending: PendingSpan,
    frame_start: Moment,
    end: Moment,
    frame_end: Moment,
    thread: CurrentThread,
)
    requires
        session.anchor.nanos <= frame_start.nanos <= pending.start.nanos <= end.nanos
            <= frame_end.nanos,
        frame_end.nanos - session.anchor.nanos <= u64::MAX,
    ensures
        ({
            let span = completed_span(pending, session.anchor, end, thread.key);
            &&& session_ns(session, frame_start) <= span.start_ns <= session_ns(
                session,
                frame_end,
            )
            &&& span.start_ns + span.duration_ns <= session_ns(session, frame_end)
        }),
{
}

/// A new stack has no spans, and a stack is as deep as it has spans.
pub proof fn law_stack_depth(empty: SpanStack, stack: &SpanStack, depth: usize)
    requires
        call_ensures(SpanStack::new, (), empty),
        call_ensures(SpanStack::depth, (stack,), depth),
    ensures
        empty@.len() == 0,
        depth == stack@.len(),
{
}

} // verus!
