//! Capture session: opening and closing frames, bucketing spans into them,
//! and the one-session-at-a-time lifecycle.

use crate::flamegraph::model::{
    clamped, frame_models, CpuSpan, FrameCapture, FrameModel, GpuSpan, Moment,
};
use crate::flamegraph::recorder::{
    collect_other_thread_spans_into, drain_current_thread_spans, has_recorder, other_spans,
    others_emptied, own_emptied, own_spans, with_recorder, RecorderModel, ThreadRegistry,
};
use std::collections::{HashMap, VecDeque};
use vstd::prelude::*;
use vstd::std_specs::iter::IteratorSpec;

verus! {

broadcast use vstd::std_specs::hash::group_hash_axioms;

/// Error returned by [`start_capture`] when a capture session is already
/// active.
#[derive(Debug, Clone, Copy, PartialEq, Eq, Structural)]
pub struct AlreadyCapturingError;

/// Options for [`start_capture`].
#[derive(Debug, Clone, Copy)]
pub struct CaptureOptions {
    /// Ring-buffer bound, in frames. Older frames are evicted once exceeded;
    /// zero counts as one.
    pub max_frames: usize,
    /// Whether to also record GPU timestamp spans.
    pub capture_gpu: bool,
}

impl Default for CaptureOptions {
    fn default() -> (options: Self)
        ensures
            options.max_frames == 600,
            options.capture_gpu,
    {
        CaptureOptions { max_frames: 600, capture_gpu: true }
    }
}

/// A frame whose CPU side is still being drawn.
#[derive(Debug, Clone, Copy)]
pub struct OpenFrame {
    /// Hashed id of the window that draws it.
    pub window_id: u64,
    /// When it was opened, in nanoseconds since the capture's anchor.
    pub frame_start_ns: u64,
}

/// What a capture session holds.
#[verifier::ext_equal]
pub struct SessionModel {
    /// The moment that every `_ns` value of the session counts from.
    pub anchor: Moment,
    /// How many finished frames are kept.
    pub max_frames: usize,
    /// Whether the session wants GPU spans.
    pub capture_gpu: bool,
    /// Index of the next frame to open.
    pub next_frame_index: u64,
    /// Index of the frame opened last, or `u64::MAX` when there was none.
    pub last_opened_frame_index: u64,
    /// Frames that were opened and not closed, by index.
    pub open_frames: Map<u64, OpenFrame>,
    /// Closed frames, oldest first.
    pub finished_frames: Seq<FrameModel>,
    /// Spans of background threads that no frame has claimed.
    pub pending_background_spans: Seq<CpuSpan>,
}

/// The session that a capture with `options`, started at `anchor`, begins
/// with.
pub open spec fn fresh_session(options: CaptureOptions, anchor: Moment) -> SessionModel {
    SessionModel {
        anchor,
        max_frames: if options.max_frames == 0 {
            1
        } else {
            options.max_frames
        },
        capture_gpu: options.capture_gpu,
        next_frame_index: 0,
        last_opened_frame_index: u64::MAX,
        open_frames: Map::empty(),
        finished_frames: Seq::empty(),
        pending_background_spans: Seq::empty(),
    }
}

/// Nanoseconds from a session's anchor to `now`.
pub open spec fn session_ns(session: SessionModel, now: Moment) -> u64 {
    clamped(now.nanos - session.anchor.nanos, u64::MAX as int) as u64
}

/// The index after `index`; past `u64::MAX` indices start over.
pub open spec fn index_after(index: u64) -> u64 {
    if index == u64::MAX {
        0
    } else {
        (index + 1) as u64
    }
}

/// The session after a frame of `window_id` was opened at `now`. The frame
/// has the index `session.next_frame_index`.
pub open spec fn frame_opened(session: SessionModel, window_id: u64, now: Moment) -> SessionModel {
    SessionModel {
        next_frame_index: index_after(session.next_frame_index),
        last_opened_frame_index: session.next_frame_index,
        open_frames: session.open_frames.insert(
            session.next_frame_index,
            OpenFrame { window_id, frame_start_ns: session_ns(session, now) },
        ),
        ..session
    }
}

/// Whether a span started in the frame window `start_ns..end_ns`.
pub open spec fn starts_within(span: CpuSpan, start_ns: u64, end_ns: u64) -> bool {
    start_ns <= span.start_ns < end_ns
}

/// The spans that started in `start_ns..end_ns`, in order.
pub open spec fn spans_within(spans: Seq<CpuSpan>, start_ns: u64, end_ns: u64) -> Seq<CpuSpan> {
    spans.filter(|span: CpuSpan| starts_within(span, start_ns, end_ns))
}

/// The spans that did not start in `start_ns..end_ns`, in order.
pub open spec fn spans_outside(spans: Seq<CpuSpan>, start_ns: u64, end_ns: u64) -> Seq<CpuSpan> {
    spans.filter(|span: CpuSpan| !starts_within(span, start_ns, end_ns))
}

/// The last `count` items, or all of them when there are fewer.
pub open spec fn newest<T>(items: Seq<T>, count: nat) -> Seq<T> {
    if items.len() > count {
        items.skip(items.len() - count)
    } else {
        items
    }
}

/// The background spans that a frame closed on `thread_id` chooses from.
pub open spec fn claimable_spans(
    session: SessionModel,
    recorders: Seq<RecorderModel>,
    thread_id: u64,
) -> Seq<CpuSpan> {
    session.pending_background_spans + other_spans(recorders, thread_id)
}

/// The frame that closing `frame_index` on `thread_id` at `now` yields.
pub open spec fn closed_frame(
    session: SessionModel,
    frame_index: u64,
    now: Moment,
    recorders: Seq<RecorderModel>,
    thread_id: u64,
) -> FrameModel {
    let opened = session.open_frames[frame_index];
    let end_ns = session_ns(session, now);
    FrameModel {
        frame_index,
        window_id: opened.window_id,
        cpu_spans: own_spans(recorders, thread_id),
        background_spans: spans_within(
            claimable_spans(session, recorders, thread_id),
            opened.frame_start_ns,
            end_ns,
        ),
        gpu_spans: Seq::empty(),
        gpu_spans_finalized: !session.capture_gpu,
        gpu_spans_truncated: false,
        frame_start_ns: opened.frame_start_ns,
        frame_end_ns: end_ns,
    }
}

/// The session after `frame_index` was closed on `thread_id` at `now`.
/// Closing a frame that is not open changes nothing.
pub open spec fn frame_closed(
    session: SessionModel,
    frame_index: u64,
    now: Moment,
    recorders: Seq<RecorderModel>,
    thread_id: u64,
) -> SessionModel {
    if session.open_frames.contains_key(frame_index) {
        SessionModel {
            open_frames: session.open_frames.remove(frame_index),
            finished_frames: newest(
                session.finished_frames.push(
                    closed_frame(session, frame_index, now, recorders, thread_id),
                ),
                session.max_frames as nat,
            ),
            pending_background_spans: spans_outside(
                claimable_spans(session, recorders, thread_id),
                session.open_frames[frame_index].frame_start_ns,
                session_ns(session, now),
            ),
            ..session
        }
    } else {
        session
    }
}

/// The recorders after `frame_index` was closed on `thread_id`: every
/// recorder was emptied, into the frame or into the pending spans.
pub open spec fn recorders_after_close(
    session: SessionModel,
    frame_index: u64,
    recorders: Seq<RecorderModel>,
    thread_id: u64,
) -> Seq<RecorderModel> {
    if session.open_frames.contains_key(frame_index) {
        others_emptied(own_emptied(with_recorder(recorders, thread_id), thread_id), thread_id)
    } else {
        recorders
    }
}

/// The session after the frames in `order` were closed one after the other,
/// all at `now`.
pub open spec fn frames_closed(
    session: SessionModel,
    order: Seq<u64>,
    now: Moment,
    recorders: Seq<RecorderModel>,
    thread_id: u64,
) -> SessionModel
    decreases order.len(),
{
    if order.len() == 0 {
        session
    } else {
        let before = frames_closed(session, order.drop_last(), now, recorders, thread_id);
        let then = recorders_after_closes(session, order.drop_last(), now, recorders, thread_id);
        frame_closed(before, order.last(), now, then, thread_id)
    }
}

/// The recorders after the frames in `order` were closed one after the other.
pub open spec fn recorders_after_closes(
    session: SessionModel,
    order: Seq<u64>,
    now: Moment,
    recorders: Seq<RecorderModel>,
    thread_id: u64,
) -> Seq<RecorderModel>
    decreases order.len(),
{
    if order.len() == 0 {
        recorders
    } else {
        let before = frames_closed(session, order.drop_last(), now, recorders, thread_id);
        let then = recorders_after_closes(session, order.drop_last(), now, recorders, thread_id);
        recorders_after_close(before, order.last(), then, thread_id)
    }
}

/// Whether each index is greater than those before it.
pub open spec fn ascending(indices: Seq<u64>) -> bool {
    forall|i: int, j: int| 0 <= i < j < indices.len() ==> indices[i] < indices[j]
}

/// Whether `order` lists exactly the open frames of `session`, each once, the
/// oldest first.
pub open spec fn lists_open_frames(session: SessionModel, order: Seq<u64>) -> bool {
    &&& ascending(order)
    &&& order.to_set() == session.open_frames.dom()
}

/// The open frames of `session`, the oldest first.
pub open spec fn open_order(session: SessionModel) -> Seq<u64> {
    choose|order: Seq<u64>| lists_open_frames(session, order)
}

/// Whether `i` is the first frame with the index `frame_index`.
pub open spec fn is_first_with_index(frames: Seq<FrameModel>, frame_index: u64, i: int) -> bool {
    &&& 0 <= i < frames.len()
    &&& frames[i].frame_index == frame_index
    &&& forall|j: int| 0 <= j < i ==> (#[trigger] frames[j]).frame_index != frame_index
}

/// The frame opened last, if there was one.
pub open spec fn last_opened(session: SessionModel) -> Option<u64> {
    if session.last_opened_frame_index == u64::MAX {
        None
    } else {
        Some(session.last_opened_frame_index)
    }
}

/// A frame once its GPU spans arrived.
pub open spec fn with_gpu_spans(
    frame: FrameModel,
    spans: Seq<GpuSpan>,
    truncated: bool,
) -> FrameModel {
    FrameModel {
        gpu_spans: spans,
        gpu_spans_finalized: true,
        gpu_spans_truncated: truncated,
        ..frame
    }
}

/// The frames after GPU spans arrived for the frame `frame_index`. Spans of a
/// frame that is not held any more are dropped.
pub open spec fn gpu_spans_attached(
    frames: Seq<FrameModel>,
    frame_index: u64,
    spans: Seq<GpuSpan>,
    truncated: bool,
) -> Seq<FrameModel> {
    if exists|i: int| is_first_with_index(frames, frame_index, i) {
        let i = choose|i: int| is_first_with_index(frames, frame_index, i);
        frames.update(i, with_gpu_spans(frames[i], spans, truncated))
    } else {
        frames
    }
}

/// State of a running capture session.
pub struct CaptureState {
    anchor: Moment,
    max_frames: usize,
    capture_gpu: bool,
    next_frame_index: u64,
    last_opened_frame_index: u64,
    open_frames: HashMap<u64, OpenFrame>,
    finished_frames: VecDeque<FrameCapture>,
    pending_background_spans: Vec<CpuSpan>,
}

impl View for CaptureState {
    type V = SessionModel;

    closed spec fn view(&self) -> SessionModel {
        SessionModel {
            anchor: self.anchor,
            max_frames: self.max_frames,
            capture_gpu: self.capture_gpu,
            next_frame_index: self.next_frame_index,
            last_opened_frame_index: self.last_opened_frame_index,
            open_frames: self.open_frames@,
            finished_frames: frame_models(self.finished_frames@),
            pending_background_spans: self.pending_background_spans@,
        }
    }
}

/// At least one frame is kept, and never more than the bound allows.
pub open spec fn session_wf(session: SessionModel) -> bool {
    &&& 1 <= session.max_frames
    &&& session.finished_frames.len() <= session.max_frames
}

impl CaptureState {
    /// At least one frame is kept, and never more than the bound allows.
    pub open spec fn wf(&self) -> bool {
        session_wf(self@)
    }

    /// A session without frames, anchored at `anchor`.
    pub fn new(options: CaptureOptions, anchor: Moment) -> (state: Self)
        ensures
            state.wf(),
            state@ == fresh_session(options, anchor),
    {
        let state = CaptureState {
            anchor,
            max_frames: if options.max_frames == 0 {
                1
            } else {
                options.max_frames
            },
            capture_gpu: options.capture_gpu,
            next_frame_index: 0,
            last_opened_frame_index: u64::MAX,
            open_frames: HashMap::new(),
            finished_frames: VecDeque::new(),
            pending_background_spans: Vec::new(),
        };
        assert(state@ == fresh_session(options, anchor));
        state
    }

    /// Nanoseconds from the session's anchor to `now`.
    pub fn now_ns(&self, now: Moment) -> (ns: u64)
        ensures
            ns == session_ns(self@, now),
    {
        now.nanos_since(self.anchor)
    }

    /// Open a frame of `window_id` at `now`, and return its index.
    pub fn open_frame(&mut self, window_id: u64, now: Moment) -> (frame_index: u64)
        requires
            old(self).wf(),
        ensures
            final(self).wf(),
            final(self)@ == frame_opened(old(self)@, window_id, now),
            frame_index == old(self)@.next_frame_index,
    {
        let frame_index: u64 = self.next_frame_index;
        let frame_start_ns: u64 = self.now_ns(now);
        self.next_frame_index = if frame_index == u64::MAX {
            0
        } else {
            frame_index + 1
        };
        self.last_opened_frame_index = frame_index;
        self.open_frames.insert(frame_index, OpenFrame { window_id, frame_start_ns });
        assert(self@ == frame_opened(old(self)@, window_id, now));
        frame_index
    }

    /// Take the pending background spans that started in
    /// `start_ns..end_ns`, and leave the others pending.
    fn claim_background_spans(&mut self, start_ns: u64, end_ns: u64) -> (claimed: Vec<CpuSpan>)
        ensures
            claimed@ == spans_within(old(self)@.pending_background_spans, start_ns, end_ns),
            final(self)@ == (SessionModel {
                pending_background_spans: spans_outside(
                    old(self)@.pending_background_spans,
                    start_ns,
                    end_ns,
                ),
                ..old(self)@
            }),
    {
        let ghost all = self.pending_background_spans@;
        let mut claimed: Vec<CpuSpan> = Vec::new();
        let mut remaining: Vec<CpuSpan> = Vec::new();
        let mut i: usize = 0;
        proof {
            reveal(Seq::filter);
            assert(all.take(0) == Seq::<CpuSpan>::empty());
        }
        while i < self.pending_background_spans.len()
            invariant
                *self == *old(self),
                all == self.pending_background_spans@,
                i <= all.len(),
                claimed@ == spans_within(all.take(i as int), start_ns, end_ns),
                remaining@ == spans_outside(all.take(i as int), start_ns, end_ns),
            decreases all.len() - i,
        {
            let span: CpuSpan = self.pending_background_spans[i];
            proof {
                reveal(Seq::filter);
                assert(all.take(i + 1).drop_last() == all.take(i as int));
                assert(all.take(i + 1).last() == span);
            }
            if span.start_ns >= start_ns && span.start_ns < end_ns {
                claimed.push(span);
            } else {
                remaining.push(span);
            }
            i = i + 1;
        }
        assert(all.take(all.len() as int) == all);
        self.pending_background_spans = remaining;
        claimed
    }

    /// Put a closed frame behind the finished ones, and evict the oldest
    /// frames beyond the bound.
    fn keep_finished(&mut self, frame: FrameCapture)
        ensures
            final(self)@ == (SessionModel {
                finished_frames: newest(
                    old(self)@.finished_frames.push(frame@),
                    old(self)@.max_frames as nat,
                ),
                ..old(self)@
            }),
    {
        let ghost all = self@.finished_frames.push(frame@);
        let max_frames: usize = self.max_frames;
        self.finished_frames.push_back(frame);
        assert(self@.finished_frames == all);
        assert(all == all.skip(0));
        while self.finished_frames.len() > max_frames
            invariant
                max_frames == old(self)@.max_frames,
                self@ == (SessionModel { finished_frames: self@.finished_frames, ..old(self)@ }),
                self@.finished_frames.len() <= all.len(),
                self@.finished_frames == all.skip(all.len() - self@.finished_frames.len()),
                newest(all, max_frames as nat).len() <= self@.finished_frames.len(),
            decreases self.finished_frames.len(),
        {
            let ghost earlier = self@.finished_frames;
            self.finished_frames.pop_front();
            assert(self@.finished_frames == earlier.skip(1));
        }
        assert(self@.finished_frames == newest(all, max_frames as nat));
    }

    /// Close the frame `frame_index` on the thread `thread_id` at `now`: the
    /// thread's own completed spans become the frame's `cpu_spans`, spans of
    /// other threads that started in the frame's window become its
    /// `background_spans`, and the frame joins the ring of finished frames.
    /// An index that is not open is ignored.
    pub fn close_frame(
        &mut self,
        frame_index: u64,
        now: Moment,
        registry: &mut ThreadRegistry,
        thread_id: u64,
    )
        requires
            old(self).wf(),
            old(registry).wf(),
        ensures
            final(self).wf(),
            final(registry).wf(),
            final(self)@ == frame_closed(
                old(self)@,
                frame_index,
                now,
                old(registry)@,
                thread_id,
            ),
            final(registry)@ == recorders_after_close(
                old(self)@,
                frame_index,
                old(registry)@,
                thread_id,
            ),
    {
        let opened = match self.open_frames.remove(&frame_index) {
            Some(opened) => opened,
            None => {
                assert(self.open_frames@ == old(self).open_frames@);
                return;
            },
        };
        let frame_end_ns: u64 = self.now_ns(now);
        let cpu_spans = drain_current_thread_spans(registry, thread_id);
        proof {
            lemma_others_unaffected(old(registry)@, thread_id);
        }
        collect_other_thread_spans_into(
            registry,
            thread_id,
            &mut self.pending_background_spans,
        );
        let background_spans = self.claim_background_spans(opened.frame_start_ns, frame_end_ns);
        let frame = FrameCapture {
            frame_index,
            window_id: opened.window_id,
            cpu_spans,
            background_spans,
            gpu_spans: Vec::new(),
            gpu_spans_finalized: !self.capture_gpu,
            gpu_spans_truncated: false,
            frame_start_ns: opened.frame_start_ns,
            frame_end_ns,
        };
        assert(frame@ == closed_frame(old(self)@, frame_index, now, old(registry)@, thread_id));
        self.keep_finished(frame);
    }

    /// Close every frame that is still open, the oldest first, all at `now`.
    pub fn finalize_open_frames(
        &mut self,
        now: Moment,
        registry: &mut ThreadRegistry,
        thread_id: u64,
    )
        requires
            old(self).wf(),
            old(registry).wf(),
        ensures
            final(self).wf(),
            final(registry).wf(),
            lists_open_frames(old(self)@, open_order(old(self)@)),
            final(self)@ == frames_closed(
                old(self)@,
                open_order(old(self)@),
                now,
                old(registry)@,
                thread_id,
            ),
            final(registry)@ == recorders_after_closes(
                old(self)@,
                open_order(old(self)@),
                now,
                old(registry)@,
                thread_id,
            ),
            final(self)@.open_frames == Map::<u64, OpenFrame>::empty(),
            final(self)@.anchor == old(self)@.anchor,
            final(self)@.max_frames == old(self)@.max_frames,
    {
        let mut keys_found: Vec<u64> = Vec::new();
        for key in keys: self.open_frames.keys()
            invariant
                keys_found@.len() == keys.index(),
                forall|j: int| 0 <= j < keys_found@.len() ==> keys_found@[j] == *keys.seq()[j],
        {
            keys_found.push(*key);
        }
        proof {
            assert(keys_found@ == vstd::std_specs::hash::spec_keys_iter(
                &self.open_frames,
            ).remaining().unref());
        }
        let order: Vec<u64> = in_ascending_order(&keys_found);
        proof {
            assert(lists_open_frames(old(self)@, order@));
            lemma_ascending_unique(order@, open_order(old(self)@));
        }
        let mut i: usize = 0;
        while i < order.len()
            invariant
                i <= order@.len(),
                self.wf(),
                registry.wf(),
                self@ == frames_closed(
                    old(self)@,
                    order@.take(i as int),
                    now,
                    old(registry)@,
                    thread_id,
                ),
                registry@ == recorders_after_closes(
                    old(self)@,
                    order@.take(i as int),
                    now,
                    old(registry)@,
                    thread_id,
                ),
            decreases order@.len() - i,
        {
            proof {
                assert(order@.take(i + 1).drop_last() == order@.take(i as int));
            }
            self.close_frame(order[i], now, registry, thread_id);
            i = i + 1;
        }
        proof {
            assert(order@.take(order@.len() as int) == order@);
            lemma_closes_empty(old(self)@, order@, now, old(registry)@, thread_id);
        }
    }

    /// The moment that the session's `_ns` values count from.
    pub fn anchor(&self) -> (anchor: Moment)
        ensures
            anchor == self@.anchor,
    {
        self.anchor
    }

    /// How many finished frames the session keeps.
    pub fn max_frames(&self) -> (count: usize)
        ensures
            count == self@.max_frames,
    {
        self.max_frames
    }

    /// Whether the session wants GPU spans.
    pub fn capture_gpu(&self) -> (wanted: bool)
        ensures
            wanted == self@.capture_gpu,
    {
        self.capture_gpu
    }

    /// The index of the frame opened last, if there was one.
    pub fn last_opened_frame_index(&self) -> (index: Option<u64>)
        ensures
            index == last_opened(self@),
    {
        if self.last_opened_frame_index != u64::MAX {
            Some(self.last_opened_frame_index)
        } else {
            None
        }
    }

    /// Attach GPU spans to the finished frame `frame_index`, if it is still
    /// held.
    pub fn attach_gpu_spans(&mut self, frame_index: u64, spans: Vec<GpuSpan>, truncated: bool)
        requires
            old(self).wf(),
        ensures
            final(self).wf(),
            final(self)@ == (SessionModel {
                finished_frames: gpu_spans_attached(
                    old(self)@.finished_frames,
                    frame_index,
                    spans@,
                    truncated,
                ),
                ..old(self)@
            }),
    {
        let ghost frames = self@.finished_frames;
        let mut i: usize = 0;
        while i < self.finished_frames.len()
            invariant
                *self == *old(self),
                self.wf(),
                frames == self@.finished_frames,
                i <= frames.len(),
                forall|j: int| 0 <= j < i ==> (#[trigger] frames[j]).frame_index != frame_index,
            decreases frames.len() - i,
        {
            assert(frames[i as int] == self.finished_frames@[i as int]@);
            if self.finished_frames[i].frame_index == frame_index {
                assert(is_first_with_index(frames, frame_index, i as int));
                let ghost spans_model = spans@;
                if let Some(mut frame) = self.finished_frames.remove(i) {
                    frame.gpu_spans = spans;
                    frame.gpu_spans_finalized = true;
                    frame.gpu_spans_truncated = truncated;
                    self.finished_frames.insert(i, frame);
                    proof {
                        let first = choose|j: int| is_first_with_index(frames, frame_index, j);
                        assert(is_first_with_index(frames, frame_index, first));
                        assert(first == i);
                        assert(frame@ == with_gpu_spans(frames[first], spans_model, truncated));
                        assert(self@.finished_frames == frames.update(first, frame@));
                    }
                }
                return;
            }
            i = i + 1;
        }
    }

    /// The finished frames, oldest first.
    pub fn into_finished_frames(self) -> (frames: VecDeque<FrameCapture>)
        ensures
            frame_models(frames@) == self@.finished_frames,
    {
        self.finished_frames
    }
}

/// Distinct indices, in ascending order.
fn in_ascending_order(indices: &Vec<u64>) -> (sorted: Vec<u64>)
    requires
        indices@.no_duplicates(),
    ensures
        ascending(sorted@),
        sorted@.to_set() == indices@.to_set(),
{
    let mut sorted: Vec<u64> = Vec::new();
    let mut i: usize = 0;
    while i < indices.len()
        invariant
            indices@.no_duplicates(),
            i <= indices@.len(),
            ascending(sorted@),
            forall|index: u64| #[trigger]
                sorted@.contains(index) <==> indices@.take(i as int).contains(index),
        decreases indices@.len() - i,
    {
        let index: u64 = indices[i];
        let ghost before = sorted@;
        let mut position: usize = 0;
        while position < sorted.len() && sorted[position] < index
            invariant
                sorted@ == before,
                position <= before.len(),
                forall|j: int| 0 <= j < position ==> before[j] < index,
            decreases before.len() - position,
        {
            position = position + 1;
        }
        proof {
            let taken = indices@.take(i as int);
            assert(!taken.contains(index));
            assert forall|j: int| position <= j < before.len() implies index < before[j] by {
                assert(before.contains(before[j]));
                assert(before[position as int] <= before[j]);
            }
        }
        sorted.insert(position, index);
        proof {
            let taken = indices@.take(i as int);
            let longer = indices@.take(i + 1);
            assert(longer == taken.push(index));
            assert forall|other: u64| #[trigger]
                sorted@.contains(other) <==> longer.contains(other) by {
                assert(sorted@[position as int] == index);
                assert(longer[i as int] == index);
                if sorted@.contains(other) && other != index {
                    let j = sorted@.index_of(other);
                    let k = if j < position {
                        j
                    } else {
                        j - 1
                    };
                    assert(before[k] == other);
                    assert(before.contains(other));
                    let t = taken.index_of(other);
                    assert(longer[t] == other);
                }
                if longer.contains(other) && other != index {
                    let t = longer.index_of(other);
                    assert(taken[t] == other);
                    assert(taken.contains(other));
                    assert(before.contains(other));
                    let j = before.index_of(other);
                    let k = if j < position {
                        j
                    } else {
                        j + 1
                    };
                    assert(sorted@[k] == other);
                }
            }
        }
        i = i + 1;
    }
    assert(indices@.take(indices@.len() as int) == indices@);
    assert(sorted@.to_set() == indices@.to_set());
    sorted
}

/// A set of indices has one ascending order.
pub proof fn lemma_ascending_unique(first: Seq<u64>, second: Seq<u64>)
    requires
        ascending(first),
        ascending(second),
        first.to_set() == second.to_set(),
    ensures
        first == second,
    decreases first.len(),
{
    assert forall|index: u64|
        #![trigger first.contains(index)]
        #![trigger second.contains(index)]
        first.contains(index) <==> second.contains(index) by {
        assert(first.to_set().contains(index) <==> first.contains(index));
        assert(second.to_set().contains(index) <==> second.contains(index));
    }
    if first.len() == 0 {
        if second.len() > 0 {
            assert(second.contains(second[0]));
        }
    } else {
        assert(first.contains(first[0]));
        let in_first = first.len() - 1;
        let in_second = second.len() - 1;
        assert(first.contains(first[in_first]));
        assert(second.contains(second[in_second]));
        let i = second.index_of(first[in_first]);
        let j = first.index_of(second[in_second]);
        assert(first[in_first] == second[in_second]);
        let shorter_first = first.drop_last();
        let shorter_second = second.drop_last();
        assert forall|index: u64| #[trigger]
            shorter_first.contains(index) <==> shorter_second.contains(index) by {
            if shorter_first.contains(index) {
                let k = shorter_first.index_of(index);
                assert(first[k] == index);
                assert(first.contains(index));
                let l = second.index_of(index);
                assert(shorter_second[l] == index);
            }
            if shorter_second.contains(index) {
                let k = shorter_second.index_of(index);
                assert(second[k] == index);
                assert(second.contains(index));
                let l = first.index_of(index);
                assert(shorter_first[l] == index);
            }
        }
        assert(shorter_first.to_set() == shorter_second.to_set());
        lemma_ascending_unique(shorter_first, shorter_second);
        assert(first == shorter_first.push(first[in_first]));
        assert(second == shorter_second.push(second[in_second]));
    }
}

/// Closing frames one after the other leaves those that were not listed open,
/// and keeps the session's settings.
pub proof fn lemma_closes_empty(
    session: SessionModel,
    order: Seq<u64>,
    now: Moment,
    recorders: Seq<RecorderModel>,
    thread_id: u64,
)
    ensures
        frames_closed(session, order, now, recorders, thread_id).open_frames
            == session.open_frames.remove_keys(order.to_set()),
        frames_closed(session, order, now, recorders, thread_id).anchor == session.anchor,
        frames_closed(session, order, now, recorders, thread_id).max_frames == session.max_frames,
    decreases order.len(),
{
    if order.len() == 0 {
        assert(session.open_frames.remove_keys(order.to_set()) == session.open_frames);
    } else {
        let rest = order.drop_last();
        lemma_closes_empty(session, rest, now, recorders, thread_id);
        let before = session.open_frames.remove_keys(rest.to_set());
        assert forall|index: u64| order.to_set().contains(index) == (rest.to_set().contains(index)
            || index == order.last()) by {
            if order.contains(index) && index != order.last() {
                let i = order.index_of(index);
                assert(rest[i] == index);
            }
            if rest.contains(index) {
                let i = rest.index_of(index);
                assert(order[i] == index);
            }
            assert(order[order.len() - 1] == order.last());
        }
        assert(before.remove(order.last()) == session.open_frames.remove_keys(order.to_set()));
        if !before.contains_key(order.last()) {
            assert(before.remove(order.last()) == before);
        }
    }
}

/// Emptying a thread's recorder leaves what the other threads have completed.
proof fn lemma_others_kept(recorders: Seq<RecorderModel>, thread_id: u64)
    ensures
        other_spans(own_emptied(recorders, thread_id), thread_id) == other_spans(
            recorders,
            thread_id,
        ),
    decreases recorders.len(),
{
    if recorders.len() > 0 {
        lemma_others_kept(recorders.drop_last(), thread_id);
        assert(own_emptied(recorders, thread_id).drop_last() == own_emptied(
            recorders.drop_last(),
            thread_id,
        ));
    }
}

/// Registering a thread and emptying its recorder leaves what the other
/// threads have completed.
pub proof fn lemma_others_unaffected(recorders: Seq<RecorderModel>, thread_id: u64)
    ensures
        other_spans(own_emptied(with_recorder(recorders, thread_id), thread_id), thread_id)
            == other_spans(recorders, thread_id),
{
    lemma_others_kept(with_recorder(recorders, thread_id), thread_id);
    if !has_recorder(recorders, thread_id) {
        assert(with_recorder(recorders, thread_id).drop_last() == recorders);
    }
}

} // verus!
