//! Opening and closing CPU spans: the stack of a thread's open spans.

use crate::flamegraph::capture::{active_capture_anchor, capture_enabled, Profiler};
use crate::flamegraph::model::{
    clamped, CpuSpan, ElementAttribution, Moment, SpanCategory, SpanName, ThreadKey,
};
use crate::flamegraph::recorder::{with_span, ThreadRegistry};
use vstd::prelude::*;

verus! {

/// A span that was opened and not closed.
#[derive(Debug, Clone, Copy)]
pub struct PendingSpan {
    /// Span name.
    pub name: SpanName,
    /// Span category.
    pub category: SpanCategory,
    /// Element attribution.
    pub element: Option<ElementAttribution>,
    /// When the span was opened.
    pub start: Moment,
    /// How many spans were open on the thread before it.
    pub depth: u16,
}

/// A thread's open spans, innermost last: a `SmallVec` of the `smallvec`
/// crate with room for 32 spans before it allocates.
#[verifier::external_body]
pub struct SpanStack {
    spans: smallvec::SmallVec<[PendingSpan; 32]>,
}

/// The spans that a stack holds, innermost last.
pub uninterp spec fn stacked_spans(stack: SpanStack) -> Seq<PendingSpan>;

impl View for SpanStack {
    type V = Seq<PendingSpan>;

    open spec fn view(&self) -> Seq<PendingSpan> {
        stacked_spans(*self)
    }
}

/// `SmallVec::new` makes an empty vector.
#[verifier::external_body]
fn stack_new() -> (stack: SpanStack)
    ensures
        stacked_spans(stack) == Seq::<PendingSpan>::empty(),
{
    SpanStack { spans: smallvec::SmallVec::new() }
}

/// `SmallVec::len` counts the items.
#[verifier::external_body]
fn stack_len(stack: &SpanStack) -> (len: usize)
    ensures
        len == stacked_spans(*stack).len(),
{
    stack.spans.len()
}

/// `SmallVec::push` appends an item. It panics where the doubled capacity
/// would exceed the address space, which the length bound keeps out of reach.
#[verifier::external_body]
fn stack_push(stack: &mut SpanStack, span: PendingSpan)
    requires
        stacked_spans(*old(stack)).len() < usize::MAX / 256,
    ensures
        stacked_spans(*final(stack)) == stacked_spans(*old(stack)).push(span),
{
    stack.spans.push(span);
}

/// `SmallVec::pop` removes the last item and returns it, or returns `None`
/// from an empty vector.
#[verifier::external_body]
fn stack_pop(stack: &mut SpanStack) -> (span: Option<PendingSpan>)
    ensures
        stacked_spans(*old(stack)).len() == 0 ==> span is None && stacked_spans(*final(stack))
            == stacked_spans(*old(stack)),
        stacked_spans(*old(stack)).len() > 0 ==> span == Some(stacked_spans(*old(stack)).last())
            && stacked_spans(*final(stack)) == stacked_spans(*old(stack)).drop_last(),
{
    stack.spans.pop()
}

impl SpanStack {
    /// A stack without open spans.
    pub fn new() -> (stack: Self)
        ensures
            stack@ == Seq::<PendingSpan>::empty(),
    {
        stack_new()
    }

    /// How many spans are open.
    pub fn depth(&self) -> (depth: usize)
        ensures
            depth == self@.len(),
    {
        stack_len(self)
    }
}

/// The thread that opens and closes spans.
#[derive(Debug, Clone, Copy)]
pub struct CurrentThread {
    /// Which recorder its spans go to.
    pub thread_id: u64,
    /// The key that its spans carry.
    pub key: ThreadKey,
}

/// Returned by [`enter_span`]; closing it closes the span. A guard that was
/// handed out while no capture was active does nothing.
pub struct SpanGuard {
    open: bool,
}

impl SpanGuard {
    /// Whether the guard stands for an open span.
    pub closed spec fn is_open(&self) -> bool {
        self.open
    }
}

/// The span that opening one on a thread with `open_count` open spans pushes.
pub open spec fn opened_span(
    open_count: nat,
    name: SpanName,
    category: SpanCategory,
    element: Option<ElementAttribution>,
    now: Moment,
) -> PendingSpan {
    PendingSpan {
        name,
        category,
        element,
        start: now,
        depth: clamped(open_count as int, u16::MAX as int) as u16,
    }
}

/// The span that closing `pending` at `now` records, in a capture anchored at
/// `anchor`.
pub open spec fn completed_span(
    pending: PendingSpan,
    anchor: Moment,
    now: Moment,
    key: ThreadKey,
) -> CpuSpan {
    CpuSpan {
        name: pending.name,
        category: pending.category,
        depth: pending.depth,
        start_ns: clamped(pending.start.nanos - anchor.nanos, u64::MAX as int) as u64,
        duration_ns: clamped(now.nanos - pending.start.nanos, u32::MAX as int) as u32,
        thread_id: key,
        element: pending.element,
    }
}

/// Open a CPU span at `now`. When no capture is active, the stack is left
/// alone and the guard does nothing.
pub fn enter_span(
    profiler: &Profiler,
    stack: &mut SpanStack,
    name: SpanName,
    category: SpanCategory,
    element: Option<ElementAttribution>,
    now: Moment,
) -> (guard: SpanGuard)
    requires
        old(stack)@.len() < usize::MAX / 256,
    ensures
        guard.is_open() == (profiler@.active is Some),
        final(stack)@ == if profiler@.active is Some {
            old(stack)@.push(opened_span(old(stack)@.len(), name, category, element, now))
        } else {
            old(stack)@
        },
{
    if !capture_enabled(profiler) {
        return SpanGuard { open: false };
    }
    let open_count: usize = stack.depth();
    let depth: u16 = if open_count > u16::MAX as usize {
        u16::MAX
    } else {
        open_count as u16
    };
    stack_push(stack, PendingSpan { name, category, element, start: now, depth });
    SpanGuard { open: true }
}

impl SpanGuard {
    /// Close the innermost open span at `now`, and record it if a capture is
    /// active. A guard that was handed out while no capture was active does
    /// nothing.
    pub fn close(
        self,
        profiler: &Profiler,
        stack: &mut SpanStack,
        registry: &mut ThreadRegistry,
        thread: CurrentThread,
        now: Moment,
    )
        requires
            old(registry).wf(),
        ensures
            final(registry).wf(),
            final(stack)@ == if self.is_open() && old(stack)@.len() > 0 {
                old(stack)@.drop_last()
            } else {
                old(stack)@
            },
            final(registry)@ == match profiler@.active {
                Some(session) if self.is_open() && old(stack)@.len() > 0 => with_span(
                    old(registry)@,
                    thread.thread_id,
                    completed_span(old(stack)@.last(), session.anchor, now, thread.key),
                ),
                _ => old(registry)@,
            },
    {
        if !self.open {
            return;
        }
        let pending = match stack_pop(stack) {
            Some(pending) => pending,
            None => return,
        };
        let anchor = match active_capture_anchor(profiler) {
            Some(anchor) => anchor,
            None => return,
        };
        let span = CpuSpan {
            name: pending.name,
            category: pending.category,
            depth: pending.depth,
            start_ns: pending.start.nanos_since(anchor),
            duration_ns: now.short_nanos_since(pending.start),
            thread_id: thread.key,
            element: pending.element,
        };
        registry.record(thread.thread_id, span);
    }
}

} // verus!
