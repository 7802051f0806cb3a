//! Per-thread buffers of completed spans, and the registry that holds one
//! buffer per thread.

use crate::flamegraph::model::CpuSpan;
use circular_buffer::CircularBuffer;
use vstd::prelude::*;

verus! {

/// Byte budget of one thread's buffer of completed spans.
pub const THREAD_SPAN_BUDGET_BYTES: usize = 2 * 1024 * 1024;

/// Size of a [`CpuSpan`]: six words, and 40 bytes whatever the word size.
pub const CPU_SPAN_BYTES: usize = 40 + 6 * (usize::BITS as usize / 8);

/// Number of completed spans one thread's buffer holds. Once it is full, a
/// new span replaces the oldest.
pub const MAX_THREAD_SPANS: usize = THREAD_SPAN_BUDGET_BYTES / CPU_SPAN_BYTES;

/// A thread's buffer holds 23831 spans on a 64-bit machine, and 32768 on a
/// 32-bit one.
pub proof fn lemma_thread_buffer_size()
    ensures
        usize::BITS == 64 ==> CPU_SPAN_BYTES == 88 && MAX_THREAD_SPANS == 23831,
        usize::BITS == 32 ==> CPU_SPAN_BYTES == 64 && MAX_THREAD_SPANS == 32768,
        MAX_THREAD_SPANS > 0,
{
    let budget = THREAD_SPAN_BUDGET_BYTES as int;
    let bytes = CPU_SPAN_BYTES as int;
    assert(MAX_THREAD_SPANS == budget / bytes);
    if usize::BITS == 64 {
        vstd::arithmetic::div_mod::lemma_fundamental_div_mod_converse(budget, bytes, 23831, 24);
    } else {
        vstd::arithmetic::div_mod::lemma_fundamental_div_mod_converse(budget, bytes, 32768, 0);
    }
}

/// The fixed-capacity ring buffer of the `circular_buffer` crate.
#[verifier::external_type_specification]
#[verifier::external_body]
#[verifier::reject_recursive_types(T)]
pub struct ExCircularBuffer<const N: usize, T>(CircularBuffer<N, T>);

/// The spans that a buffer holds, oldest first.
pub uninterp spec fn buffered_spans(buffer: CircularBuffer<MAX_THREAD_SPANS, CpuSpan>) -> Seq<
    CpuSpan,
>;

/// `CircularBuffer::boxed` allocates an empty buffer.
#[verifier::external_body]
fn buffer_boxed() -> (buffer: Box<CircularBuffer<MAX_THREAD_SPANS, CpuSpan>>)
    ensures
        buffered_spans(*buffer) == Seq::<CpuSpan>::empty(),
{
    CircularBuffer::boxed()
}

/// `CircularBuffer::push_back` appends an item, and drops the oldest one when
/// the buffer is at its capacity.
#[verifier::external_body]
fn buffer_push_back(buffer: &mut CircularBuffer<MAX_THREAD_SPANS, CpuSpan>, span: CpuSpan)
    ensures
        buffered_spans(*final(buffer)) == ring_push(buffered_spans(*old(buffer)), span),
{
    buffer.push_back(span);
}

/// `CircularBuffer::as_slices` gives the items in order, as two slices that
/// follow each other.
#[verifier::external_body]
fn buffer_as_slices(buffer: &CircularBuffer<MAX_THREAD_SPANS, CpuSpan>) -> (slices: (
    &[CpuSpan],
    &[CpuSpan],
))
    ensures
        slices.0@ + slices.1@ == buffered_spans(*buffer),
{
    buffer.as_slices()
}

/// `CircularBuffer::clear` removes every item.
#[verifier::external_body]
fn buffer_clear(buffer: &mut CircularBuffer<MAX_THREAD_SPANS, CpuSpan>)
    ensures
        buffered_spans(*final(buffer)) == Seq::<CpuSpan>::empty(),
{
    buffer.clear();
}

/// What a thread's buffer holds after one more span was recorded into it.
pub open spec fn ring_push(spans: Seq<CpuSpan>, span: CpuSpan) -> Seq<CpuSpan> {
    if spans.len() < MAX_THREAD_SPANS {
        spans.push(span)
    } else {
        spans.skip(1).push(span)
    }
}

/// One thread's completed spans, waiting for a frame to claim them.
pub struct ThreadRecorder {
    thread_id: u64,
    completed: Box<CircularBuffer<MAX_THREAD_SPANS, CpuSpan>>,
}

/// What a [`ThreadRecorder`] holds.
#[verifier::ext_equal]
pub struct RecorderModel {
    pub thread_id: u64,
    pub spans: Seq<CpuSpan>,
}

impl View for ThreadRecorder {
    type V = RecorderModel;

    closed spec fn view(&self) -> RecorderModel {
        RecorderModel { thread_id: self.thread_id, spans: buffered_spans(*self.completed) }
    }
}

impl ThreadRecorder {
    /// An empty recorder for the thread `thread_id`.
    pub fn new(thread_id: u64) -> (recorder: Self)
        ensures
            recorder@ == empty_recorder(thread_id),
    {
        ThreadRecorder { thread_id, completed: buffer_boxed() }
    }

    /// The thread whose spans this recorder holds.
    pub fn thread_id(&self) -> (id: u64)
        ensures
            id == self@.thread_id,
    {
        self.thread_id
    }

    /// Record a completed span, replacing the oldest one when the buffer is
    /// full.
    pub fn record(&mut self, span: CpuSpan)
        ensures
            final(self)@ == (RecorderModel {
                thread_id: old(self)@.thread_id,
                spans: ring_push(old(self)@.spans, span),
            }),
    {
        buffer_push_back(&mut self.completed, span);
    }

    /// Move every span, oldest first, to the end of `target`.
    pub fn drain_into(&mut self, target: &mut Vec<CpuSpan>)
        ensures
            final(self)@ == empty_recorder(old(self)@.thread_id),
            final(target)@ == old(target)@ + old(self)@.spans,
    {
        let (first, second) = buffer_as_slices(&self.completed);
        target.extend_from_slice(first);
        target.extend_from_slice(second);
        proof {
            assert(target@ == old(target)@ + (first@ + second@));
        }
        buffer_clear(&mut self.completed);
    }
}

/// A recorder that holds nothing.
pub open spec fn empty_recorder(thread_id: u64) -> RecorderModel {
    RecorderModel { thread_id, spans: Seq::empty() }
}

/// Whether the thread `thread_id` has a recorder.
pub open spec fn has_recorder(recorders: Seq<RecorderModel>, thread_id: u64) -> bool {
    exists|i: int| 0 <= i < recorders.len() && (#[trigger] recorders[i]).thread_id == thread_id
}

/// No thread has two recorders.
pub open spec fn distinct_threads(recorders: Seq<RecorderModel>) -> bool {
    forall|i: int, j: int|
        0 <= i < j < recorders.len() ==> (#[trigger] recorders[i]).thread_id != (
        #[trigger] recorders[j]).thread_id
}

/// The recorders once `thread_id` has one: a thread that records for the
/// first time gets an empty recorder behind the others.
pub open spec fn with_recorder(recorders: Seq<RecorderModel>, thread_id: u64) -> Seq<
    RecorderModel,
> {
    if has_recorder(recorders, thread_id) {
        recorders
    } else {
        recorders.push(empty_recorder(thread_id))
    }
}

/// The recorders after `thread_id` recorded `span`.
pub open spec fn with_span(recorders: Seq<RecorderModel>, thread_id: u64, span: CpuSpan) -> Seq<
    RecorderModel,
> {
    with_recorder(recorders, thread_id).map_values(
        |recorder: RecorderModel|
            if recorder.thread_id == thread_id {
                RecorderModel { thread_id, spans: ring_push(recorder.spans, span) }
            } else {
                recorder
            },
    )
}

/// The recorders after the spans of `thread_id` were taken.
pub open spec fn own_emptied(recorders: Seq<RecorderModel>, thread_id: u64) -> Seq<RecorderModel> {
    recorders.map_values(
        |recorder: RecorderModel|
            if recorder.thread_id == thread_id {
                empty_recorder(thread_id)
            } else {
                recorder
            },
    )
}

/// The recorders after the spans of every thread but `thread_id` were taken.
pub open spec fn others_emptied(recorders: Seq<RecorderModel>, thread_id: u64) -> Seq<
    RecorderModel,
> {
    recorders.map_values(
        |recorder: RecorderModel|
            if recorder.thread_id == thread_id {
                recorder
            } else {
                empty_recorder(recorder.thread_id)
            },
    )
}

/// The spans that `thread_id` has completed, oldest first.
pub open spec fn own_spans(recorders: Seq<RecorderModel>, thread_id: u64) -> Seq<CpuSpan>
    decreases recorders.len(),
{
    if recorders.len() == 0 {
        Seq::empty()
    } else if recorders.last().thread_id == thread_id {
        own_spans(recorders.drop_last(), thread_id) + recorders.last().spans
    } else {
        own_spans(recorders.drop_last(), thread_id)
    }
}

/// The spans that threads other than `thread_id` have completed, recorder by
/// recorder, oldest first in each.
pub open spec fn other_spans(recorders: Seq<RecorderModel>, thread_id: u64) -> Seq<CpuSpan>
    decreases recorders.len(),
{
    if recorders.len() == 0 {
        Seq::empty()
    } else if recorders.last().thread_id == thread_id {
        other_spans(recorders.drop_last(), thread_id)
    } else {
        other_spans(recorders.drop_last(), thread_id) + recorders.last().spans
    }
}

/// Every thread's recorder.
pub struct ThreadRegistry {
    recorders: Vec<ThreadRecorder>,
}

/// The models of a sequence of recorders.
pub open spec fn recorder_models(recorders: Seq<ThreadRecorder>) -> Seq<RecorderModel> {
    recorders.map_values(|recorder: ThreadRecorder| recorder@)
}

impl View for ThreadRegistry {
    type V = Seq<RecorderModel>;

    closed spec fn view(&self) -> Seq<RecorderModel> {
        recorder_models(self.recorders@)
    }
}

impl ThreadRegistry {
    /// No thread has two recorders.
    pub open spec fn wf(&self) -> bool {
        distinct_threads(self@)
    }

    /// A registry without recorders.
    pub fn new() -> (registry: Self)
        ensures
            registry.wf(),
            registry@ == Seq::<RecorderModel>::empty(),
    {
        ThreadRegistry { recorders: Vec::new() }
    }

    /// Number of threads that have a recorder.
    pub fn len(&self) -> (count: usize)
        ensures
            count == self@.len(),
    {
        self.recorders.len()
    }

    /// Where the recorder of `thread_id` is.
    fn position(&self, thread_id: u64) -> (position: Option<usize>)
        ensures
            match position {
                Some(i) => {
                    &&& i < self@.len()
                    &&& self@[i as int].thread_id == thread_id
                    &&& forall|j: int| 0 <= j < i ==> self@[j].thread_id != thread_id
                },
                None => !has_recorder(self@, thread_id),
            },
    {
        let mut i: usize = 0;
        while i < self.recorders.len()
            invariant
                i <= self.recorders@.len(),
                forall|j: int| 0 <= j < i ==> self@[j].thread_id != thread_id,
            decreases self.recorders.len() - i,
        {
            assert(self@[i as int] == self.recorders@[i as int]@);
            if self.recorders[i].thread_id() == thread_id {
                return Some(i);
            }
            i = i + 1;
        }
        None
    }

    /// Make sure that `thread_id` has a recorder, and say where it is.
    pub fn register_thread_recorder(&mut self, thread_id: u64) -> (position: usize)
        requires
            old(self).wf(),
        ensures
            final(self).wf(),
            final(self)@ == with_recorder(old(self)@, thread_id),
            position < final(self)@.len(),
            final(self)@[position as int].thread_id == thread_id,
    {
        match self.position(thread_id) {
            Some(position) => position,
            None => {
                let position: usize = self.recorders.len();
                self.recorders.push(ThreadRecorder::new(thread_id));
                assert(self@ == old(self)@.push(empty_recorder(thread_id)));
                position
            },
        }
    }

    /// Forget the recorder of a thread that ended, with the spans it still
    /// holds. The last recorder takes its place.
    pub fn unregister_thread_recorder(&mut self, thread_id: u64)
        requires
            old(self).wf(),
        ensures
            final(self).wf(),
            !has_recorder(final(self)@, thread_id),
            !has_recorder(old(self)@, thread_id) ==> final(self)@ == old(self)@,
            forall|i: int|
                0 <= i < old(self)@.len() && (#[trigger] old(self)@[i]).thread_id == thread_id
                    ==> final(self)@ == old(self)@.update(i, old(self)@.last()).drop_last(),
    {
        if let Some(position) = self.position(thread_id) {
            self.recorders.swap_remove(position);
            assert(self@ == old(self)@.update(position as int, old(self)@.last()).drop_last());
        }
    }

    /// Record a span that `thread_id` completed.
    pub fn record(&mut self, thread_id: u64, span: CpuSpan)
        requires
            old(self).wf(),
        ensures
            final(self).wf(),
            final(self)@ == with_span(old(self)@, thread_id, span),
    {
        let position: usize = self.register_thread_recorder(thread_id);
        self.recorders[position].record(span);
        assert(self@ == with_span(old(self)@, thread_id, span));
    }
}

/// A thread's own spans are what its one recorder holds, and nothing when it
/// has none.
pub proof fn lemma_own_spans(recorders: Seq<RecorderModel>, thread_id: u64)
    requires
        distinct_threads(recorders),
    ensures
        !has_recorder(recorders, thread_id) ==> own_spans(recorders, thread_id) == Seq::<
            CpuSpan,
        >::empty(),
        forall|i: int|
            0 <= i < recorders.len() && (#[trigger] recorders[i]).thread_id == thread_id
                ==> own_spans(recorders, thread_id) == recorders[i].spans,
    decreases recorders.len(),
{
    if recorders.len() > 0 {
        let rest = recorders.drop_last();
        lemma_own_spans(rest, thread_id);
        assert forall|i: int| 0 <= i < rest.len() implies rest[i] == recorders[i] by {}
        if has_recorder(rest, thread_id) {
            let i = choose|i: int| 0 <= i < rest.len() && rest[i].thread_id == thread_id;
            assert(recorders[i].thread_id != recorders.last().thread_id);
            assert(own_spans(rest, thread_id) == rest[i].spans);
        } else if recorders.last().thread_id == thread_id {
            assert forall|i: int|
                0 <= i < recorders.len() && (#[trigger] recorders[i]).thread_id
                    == thread_id implies i == recorders.len() - 1 by {
                if i < rest.len() {
                    assert(rest[i].thread_id == thread_id);
                }
            }
        }
    }
}

/// Take the spans that the thread `thread_id` has completed, oldest first.
pub fn drain_current_thread_spans(registry: &mut ThreadRegistry, thread_id: u64) -> (spans: Vec<
    CpuSpan,
>)
    requires
        old(registry).wf(),
    ensures
        final(registry).wf(),
        final(registry)@ == own_emptied(with_recorder(old(registry)@, thread_id), thread_id),
        spans@ == own_spans(old(registry)@, thread_id),
{
    let position: usize = registry.register_thread_recorder(thread_id);
    let ghost before = registry@;
    let mut spans: Vec<CpuSpan> = Vec::new();
    registry.recorders[position].drain_into(&mut spans);
    proof {
        assert(registry@ == own_emptied(before, thread_id));
        lemma_own_spans(old(registry)@, thread_id);
    }
    spans
}

/// Move the spans that every thread but `thread_id` has completed to the end
/// of `pending`.
pub fn collect_other_thread_spans_into(
    registry: &mut ThreadRegistry,
    thread_id: u64,
    pending: &mut Vec<CpuSpan>,
)
    requires
        old(registry).wf(),
    ensures
        final(registry).wf(),
        final(registry)@ == others_emptied(old(registry)@, thread_id),
        final(pending)@ == old(pending)@ + other_spans(old(registry)@, thread_id),
{
    let ghost before = registry@;
    let mut i: usize = 0;
    while i < registry.recorders.len()
        invariant
            before == old(registry)@,
            i <= before.len(),
            registry.recorders@.len() == before.len(),
            registry@ == others_emptied(before.take(i as int), thread_id) + before.skip(i as int),
            pending@ == old(pending)@ + other_spans(before.take(i as int), thread_id),
        decreases before.len() - i,
    {
        let ghost earlier = registry@;
        proof {
            assert(earlier[i as int] == before[i as int]);
            assert(registry.recorders@[i as int]@ == before[i as int]);
            assert(before.take(i + 1).drop_last() == before.take(i as int));
            assert(before.take(i + 1).last() == before[i as int]);
        }
        if registry.recorders[i].thread_id() != thread_id {
            registry.recorders[i].drain_into(pending);
            proof {
                assert(registry@ == earlier.update(
                    i as int,
                    empty_recorder(before[i as int].thread_id),
                ));
            }
        }
        proof {
            assert(registry@ == others_emptied(before.take(i + 1), thread_id) + before.skip(i + 1));
        }
        i = i + 1;
    }
    proof {
        assert(before.take(before.len() as int) == before);
        assert(registry@ == others_emptied(before, thread_id));
    }
}

} // verus!
