//! One query set's way through a frame: recording, resolving, readback.

use crate::byte_order::ByteOrder;
use crate::flamegraph::model::{GpuPassKind, SpanName};
use crate::flamegraph_gpu::ticks::{read_u64, timestamp_at, PendingSpanLabel, SpanTicks};
use vstd::prelude::*;

verus! {

/// Timestamp-pair budget per frame. A frame that exceeds it is marked as
/// truncated.
pub const MAX_GPU_SPANS_PER_FRAME: usize = 16;

/// Number of queries in one frame's query set.
pub const QUERIES_PER_FRAME: u32 = 32;

/// Size of the buffers that one frame's queries are resolved into.
pub const QUERY_BUFFER_BYTES: u64 = 256;

/// How far a generation has come.
#[derive(Debug, Clone, Copy, PartialEq, Eq, Structural)]
pub enum GenerationState {
    /// Nothing to do.
    Idle,
    /// A frame is reserving queries.
    Recording,
    /// The queries are being resolved.
    Resolving,
    /// The readback was started.
    MapPending,
}

/// The bookkeeping of one query set.
pub struct QueryGeneration {
    pending_labels: Vec<PendingSpanLabel>,
    frame_index: u64,
    state: GenerationState,
    truncated: bool,
    epoch: u64,
    map_ready: bool,
}

/// What a [`QueryGeneration`] holds.
#[verifier::ext_equal]
pub struct GenerationModel {
    /// The pairs reserved in this frame.
    pub labels: Seq<PendingSpanLabel>,
    /// The frame that the pairs belong to.
    pub frame_index: u64,
    /// How far the generation has come.
    pub state: GenerationState,
    /// Whether the frame asked for more pairs than there are.
    pub truncated: bool,
    /// How many frames this generation was used for.
    pub epoch: u64,
    /// Whether the readback has completed.
    pub map_ready: bool,
}

impl View for QueryGeneration {
    type V = GenerationModel;

    closed spec fn view(&self) -> GenerationModel {
        GenerationModel {
            labels: self.pending_labels@,
            frame_index: self.frame_index,
            state: self.state,
            truncated: self.truncated,
            epoch: self.epoch,
            map_ready: self.map_ready,
        }
    }
}

/// The label of the `n`-th pair reserved in a frame: it has the queries `2n`
/// and `2n + 1`.
pub open spec fn nth_label(name: SpanName, pass_kind: GpuPassKind, n: int) -> PendingSpanLabel {
    PendingSpanLabel {
        name,
        pass_kind,
        begin_query: (2 * n) as u32,
        end_query: (2 * n + 1) as u32,
    }
}

/// At most [`MAX_GPU_SPANS_PER_FRAME`] pairs are reserved, the `n`-th with the
/// queries `2n` and `2n + 1`.
pub open spec fn generation_wf(generation: GenerationModel) -> bool {
    &&& generation.labels.len() <= MAX_GPU_SPANS_PER_FRAME
    &&& forall|n: int|
        0 <= n < generation.labels.len() ==> {
            &&& (#[trigger] generation.labels[n]).begin_query == 2 * n
            &&& generation.labels[n].end_query == 2 * n + 1
        }
}

/// A generation that was never used.
pub open spec fn idle_generation() -> GenerationModel {
    GenerationModel {
        labels: Seq::empty(),
        frame_index: 0,
        state: GenerationState::Idle,
        truncated: false,
        epoch: 0,
        map_ready: false,
    }
}

/// A generation that begins to record the frame `frame_index`. What it still
/// held of an earlier frame is dropped.
pub open spec fn recording_for(generation: GenerationModel, frame_index: u64) -> GenerationModel {
    GenerationModel {
        labels: Seq::empty(),
        frame_index,
        state: GenerationState::Recording,
        truncated: false,
        epoch: (generation.epoch + 1) as u64,
        map_ready: false,
    }
}

/// A generation after a pair was asked for.
pub open spec fn pair_reserved(
    generation: GenerationModel,
    name: SpanName,
    pass_kind: GpuPassKind,
) -> GenerationModel {
    if generation.state != GenerationState::Recording {
        generation
    } else if generation.labels.len() >= MAX_GPU_SPANS_PER_FRAME {
        GenerationModel { truncated: true, ..generation }
    } else {
        GenerationModel {
            labels: generation.labels.push(
                nth_label(name, pass_kind, generation.labels.len() as int),
            ),
            ..generation
        }
    }
}

/// The pair that asking for one yields.
pub open spec fn pair_offered(generation: GenerationModel) -> Option<(u32, u32)> {
    if generation.state == GenerationState::Recording && generation.labels.len()
        < MAX_GPU_SPANS_PER_FRAME {
        Some(
            (
                (2 * generation.labels.len()) as u32,
                (2 * generation.labels.len() + 1) as u32,
            ),
        )
    } else {
        None
    }
}

/// A generation after its frame was recorded.
pub open spec fn resolved(generation: GenerationModel) -> GenerationModel {
    if generation.state != GenerationState::Recording {
        generation
    } else if generation.labels.len() == 0 {
        GenerationModel { state: GenerationState::Idle, ..generation }
    } else {
        GenerationModel { state: GenerationState::Resolving, ..generation }
    }
}

/// A generation after its frame was submitted.
pub open spec fn readback_begun(generation: GenerationModel) -> GenerationModel {
    if generation.state == GenerationState::Resolving {
        GenerationModel { state: GenerationState::MapPending, ..generation }
    } else {
        generation
    }
}

/// Whether a generation's timestamps can be read.
pub open spec fn is_harvestable(generation: GenerationModel) -> bool {
    generation.state == GenerationState::MapPending && generation.map_ready
}

/// The timestamps of a label, if the mapped buffer holds both.
pub open spec fn label_ticks(
    view: Seq<u8>,
    order: ByteOrder,
    label: PendingSpanLabel,
) -> Option<SpanTicks> {
    match (
        timestamp_at(view, label.begin_query as int, order),
        timestamp_at(view, label.end_query as int, order),
    ) {
        (Some(begin_ticks), Some(end_ticks)) => Some(SpanTicks { label, begin_ticks, end_ticks }),
        _ => None,
    }
}

/// The timestamps of all labels, as far as the mapped buffer holds them.
pub open spec fn harvested_ticks(
    labels: Seq<PendingSpanLabel>,
    view: Option<Seq<u8>>,
    order: ByteOrder,
) -> Seq<SpanTicks> {
    match view {
        Some(bytes) => labels.filter_map(|label: PendingSpanLabel| label_ticks(bytes, order, label)),
        None => Seq::empty(),
    }
}

/// What a completed readback yields.
pub struct Harvest {
    /// The frame that the timestamps belong to.
    pub frame_index: u64,
    /// Whether the frame asked for more pairs than there were.
    pub truncated: bool,
    /// The generation's use count, for the spans to carry.
    pub epoch: u64,
    /// The timestamps, in the order the pairs were reserved.
    pub ticks: Vec<SpanTicks>,
}

/// What a [`Harvest`] holds.
#[verifier::ext_equal]
pub struct HarvestModel {
    /// The frame that the timestamps belong to.
    pub frame_index: u64,
    /// Whether the frame asked for more pairs than there were.
    pub truncated: bool,
    /// The generation's use count.
    pub epoch: u64,
    /// The timestamps.
    pub ticks: Seq<SpanTicks>,
}

impl View for Harvest {
    type V = HarvestModel;

    open spec fn view(&self) -> HarvestModel {
        HarvestModel {
            frame_index: self.frame_index,
            truncated: self.truncated,
            epoch: self.epoch,
            ticks: self.ticks@,
        }
    }
}

/// What a generation yields whose mapped buffer holds `view`, or whose buffer
/// could not be read.
pub open spec fn harvest_of(
    generation: GenerationModel,
    view: Option<Seq<u8>>,
    order: ByteOrder,
) -> Option<HarvestModel> {
    if is_harvestable(generation) {
        Some(
            HarvestModel {
                frame_index: generation.frame_index,
                truncated: generation.truncated,
                epoch: generation.epoch,
                ticks: harvested_ticks(generation.labels, view, order),
            },
        )
    } else {
        None
    }
}

/// A generation after its timestamps were read, if they could be.
pub open spec fn harvested(generation: GenerationModel) -> GenerationModel {
    if is_harvestable(generation) {
        GenerationModel { state: GenerationState::Idle, ..generation }
    } else {
        generation
    }
}

/// The bytes of a mapped buffer.
pub open spec fn mapped_bytes(view: Option<&[u8]>) -> Option<Seq<u8>> {
    match view {
        Some(bytes) => Some(bytes@),
        None => None,
    }
}

impl QueryGeneration {
    /// At most [`MAX_GPU_SPANS_PER_FRAME`] pairs are reserved, the `n`-th with
    /// the queries `2n` and `2n + 1`.
    pub open spec fn wf(&self) -> bool {
        generation_wf(self@)
    }

    /// A generation that was never used.
    pub fn new() -> (generation: Self)
        ensures
            generation.wf(),
            generation@ == idle_generation(),
    {
        QueryGeneration {
            pending_labels: Vec::new(),
            frame_index: 0,
            state: GenerationState::Idle,
            truncated: false,
            epoch: 0,
            map_ready: false,
        }
    }

    /// The number of queries in use.
    fn next_query_index(&self) -> (count: u32)
        requires
            self.wf(),
        ensures
            count == 2 * self@.labels.len(),
            count <= QUERIES_PER_FRAME,
    {
        (self.pending_labels.len() * 2) as u32
    }

    /// How many frames this generation was used for.
    pub fn epoch(&self) -> (epoch: u64)
        ensures
            epoch == self@.epoch,
    {
        self.epoch
    }

    /// Reset this generation for a new frame. If it was still awaiting the
    /// readback of an earlier frame, that frame's spans are dropped.
    pub fn reset_for_frame(&mut self, frame_index: u64)
        requires
            old(self)@.epoch < u64::MAX,
        ensures
            final(self).wf(),
            final(self)@ == recording_for(old(self)@, frame_index),
    {
        self.pending_labels.clear();
        self.frame_index = frame_index;
        self.state = GenerationState::Recording;
        self.truncated = false;
        self.epoch = self.epoch + 1;
        self.map_ready = false;
    }

    /// Reserve a begin/end query pair. Returns `None` when this generation is
    /// not recording, or when its budget is used up; the latter marks the frame
    /// as truncated.
    pub fn reserve_pair(&mut self, name: SpanName, pass_kind: GpuPassKind) -> (pair: Option<
        (u32, u32),
    >)
        requires
            old(self).wf(),
        ensures
            final(self).wf(),
            final(self)@ == pair_reserved(old(self)@, name, pass_kind),
            pair == pair_offered(old(self)@),
    {
        if self.state != GenerationState::Recording {
            return None;
        }
        if self.pending_labels.len() >= MAX_GPU_SPANS_PER_FRAME {
            self.truncated = true;
            return None;
        }
        let begin_query: u32 = self.next_query_index();
        let end_query: u32 = begin_query + 1;
        self.pending_labels.push(PendingSpanLabel { name, pass_kind, begin_query, end_query });
        Some((begin_query, end_query))
    }

    /// End the recording of a frame. Returns how many queries to resolve and
    /// copy, or `None` when there is nothing to do.
    pub fn resolve(&mut self) -> (query_count: Option<u32>)
        requires
            old(self).wf(),
        ensures
            final(self).wf(),
            final(self)@ == resolved(old(self)@),
            query_count == if old(self)@.state == GenerationState::Recording
                && old(self)@.labels.len() > 0 {
                Some((2 * old(self)@.labels.len()) as u32)
            } else {
                None
            },
    {
        if self.state != GenerationState::Recording {
            return None;
        }
        let query_count: u32 = self.next_query_index();
        if query_count == 0 {
            self.state = GenerationState::Idle;
            return None;
        }
        self.state = GenerationState::Resolving;
        Some(query_count)
    }

    /// Start the readback, once the frame was submitted. Returns how many
    /// bytes to map, or `None` when there is nothing to read back.
    pub fn begin_readback(&mut self) -> (size: Option<u64>)
        requires
            old(self).wf(),
        ensures
            final(self).wf(),
            final(self)@ == readback_begun(old(self)@),
            size == if old(self)@.state == GenerationState::Resolving {
                Some((16 * old(self)@.labels.len()) as u64)
            } else {
                None
            },
    {
        if self.state != GenerationState::Resolving {
            return None;
        }
        self.state = GenerationState::MapPending;
        Some(self.next_query_index() as u64 * 8)
    }

    /// Note that a readback ended, and whether it succeeded.
    pub fn map_completed(&mut self, succeeded: bool)
        requires
            old(self).wf(),
        ensures
            final(self).wf(),
            final(self)@ == (GenerationModel { map_ready: succeeded, ..old(self)@ }),
    {
        self.map_ready = succeeded;
    }

    /// How many bytes of the mapped buffer to read, once the readback has
    /// completed.
    pub fn harvest_size(&self) -> (size: Option<u64>)
        requires
            self.wf(),
        ensures
            size == if is_harvestable(self@) {
                Some((16 * self@.labels.len()) as u64)
            } else {
                None
            },
    {
        if self.state != GenerationState::MapPending || !self.map_ready {
            return None;
        }
        Some(self.next_query_index() as u64 * 8)
    }

    /// If the readback has completed, read the timestamps out of the mapped
    /// buffer, in the byte order `order`, and return to `Idle`. A buffer that could not be read yields no
    /// timestamps.
    pub fn try_harvest(&mut self, view: Option<&[u8]>, order: ByteOrder) -> (harvest: Option<
        Harvest,
    >)
        requires
            old(self).wf(),
        ensures
            final(self).wf(),
            final(self)@ == harvested(old(self)@),
            match harvest {
                Some(harvest) => harvest_of(old(self)@, mapped_bytes(view), order) == Some(harvest@),
                None => harvest_of(old(self)@, mapped_bytes(view), order) is None,
            },
    {
        if self.state != GenerationState::MapPending || !self.map_ready {
            return None;
        }
        let ticks: Vec<SpanTicks> = match view {
            Some(bytes) => self.read_ticks(bytes, order),
            None => Vec::new(),
        };
        self.state = GenerationState::Idle;
        Some(
            Harvest {
                frame_index: self.frame_index,
                truncated: self.truncated,
                epoch: self.epoch,
                ticks,
            },
        )
    }

    /// The timestamps of all labels, as far as the mapped buffer holds them.
    fn read_ticks(&self, view: &[u8], order: ByteOrder) -> (ticks: Vec<SpanTicks>)
        requires
            self.wf(),
        ensures
            ticks@ == harvested_ticks(self@.labels, Some(view@), order),
    {
        let ghost labels = self@.labels;
        let ghost read = |label: PendingSpanLabel| label_ticks(view@, order, label);
        let mut ticks: Vec<SpanTicks> = Vec::new();
        let mut i: usize = 0;
        while i < self.pending_labels.len()
            invariant
                self.wf(),
                labels == self.pending_labels@,
                labels == self@.labels,
                read == (|label: PendingSpanLabel| label_ticks(view@, order, label)),
                i <= labels.len(),
                ticks@ == labels.take(i as int).filter_map(read),
            decreases labels.len() - i,
        {
            let label: PendingSpanLabel = self.pending_labels[i];
            proof {
                assert(labels[i as int].begin_query == 2 * i);
                labels.lemma_filter_map_take_succ(read, i as int);
            }
            if let Some(begin_ticks) = read_u64(view, label.begin_query, order) {
                if let Some(end_ticks) = read_u64(view, label.end_query, order) {
                    ticks.push(SpanTicks { label, begin_ticks, end_ticks });
                }
            }
            i = i + 1;
        }
        assert(labels.take(labels.len() as int) == labels);
        ticks
    }
}

/// A generation after several pairs were asked for, one after the other.
pub open spec fn pairs_reserved(
    generation: GenerationModel,
    requests: Seq<(SpanName, GpuPassKind)>,
) -> GenerationModel
    decreases requests.len(),
{
    if requests.len() == 0 {
        generation
    } else {
        let before = pairs_reserved(generation, requests.drop_last());
        pair_reserved(before, requests.last().0, requests.last().1)
    }
}

/// How many of `count` requested pairs a frame is given.
pub open spec fn granted(count: nat) -> nat {
    if count <= MAX_GPU_SPANS_PER_FRAME {
        count
    } else {
        MAX_GPU_SPANS_PER_FRAME as nat
    }
}

/// Asking for pairs in a fresh recording grants the first ones, and marks the
/// frame as truncated exactly when there were more.
proof fn lemma_pairs_reserved(
    generation: GenerationModel,
    frame_index: u64,
    requests: Seq<(SpanName, GpuPassKind)>,
)
    ensures
        ({
            let before = recording_for(generation, frame_index);
            let recorded = pairs_reserved(before, requests);
            &&& recorded.labels == Seq::new(
                granted(requests.len()),
                |n: int| nth_label(requests[n].0, requests[n].1, n),
            )
            &&& recorded == (GenerationModel {
                labels: recorded.labels,
                truncated: requests.len() > MAX_GPU_SPANS_PER_FRAME,
                ..before
            })
        }),
    decreases requests.len(),
{
    let recorded = pairs_reserved(recording_for(generation, frame_index), requests);
    if requests.len() > 0 {
        lemma_pairs_reserved(generation, frame_index, requests.drop_last());
    }
    assert(recorded.labels == Seq::new(
        granted(requests.len()),
        |n: int| nth_label(requests[n].0, requests[n].1, n),
    ));
}

/// Where every label's timestamps are there, each label yields them, in order.
proof fn lemma_all_harvested(
    labels: Seq<PendingSpanLabel>,
    view: Seq<u8>,
    order: ByteOrder,
    count: int,
)
    requires
        0 <= count <= labels.len(),
        forall|n: int| 0 <= n < labels.len() ==> label_ticks(view, order, #[trigger] labels[n]) is Some,
    ensures
        harvested_ticks(labels.take(count), Some(view), order) == Seq::new(
            count as nat,
            |n: int| label_ticks(view, order, labels[n])->0,
        ),
    decreases count,
{
    let read = |label: PendingSpanLabel| label_ticks(view, order, label);
    if count > 0 {
        lemma_all_harvested(labels, view, order, count - 1);
        labels.lemma_filter_map_take_succ(read, count - 1);
        assert(label_ticks(view, order, labels[count - 1]) is Some);
    } else {
        assert(labels.take(0) == Seq::<PendingSpanLabel>::empty());
        reveal(Seq::filter_map);
    }
}

/// No two pairs of a frame share a query, and every query is in the query set.
pub proof fn law_pairs_disjoint(generation: GenerationModel, n: int, m: int)
    requires
        generation_wf(generation),
        0 <= n < m < generation.labels.len(),
    ensures
        ({
            let first = generation.labels[n];
            let second = generation.labels[m];
            &&& first.begin_query < first.end_query < second.begin_query < second.end_query
            &&& second.end_query < QUERIES_PER_FRAME
        }),
{
}

/// A frame that asks for pairs, is resolved and read back yields the
/// timestamps of the pairs it was granted, in the order it asked for them,
/// tagged with its own index. It is truncated exactly when it asked for more
/// than [`MAX_GPU_SPANS_PER_FRAME`].
pub proof fn law_frame_lifecycle(
    generation: GenerationModel,
    frame_index: u64,
    requests: Seq<(SpanName, GpuPassKind)>,
    view: Seq<u8>,
    order: ByteOrder,
)
    requires
        requests.len() > 0,
        view.len() >= 16 * granted(requests.len()),
    ensures
        ({
            let recorded = pairs_reserved(recording_for(generation, frame_index), requests);
            let read_back = GenerationModel {
                map_ready: true,
                ..readback_begun(resolved(recorded))
            };
            &&& harvest_of(read_back, Some(view), order) == Some(
                HarvestModel {
                    frame_index,
                    truncated: requests.len() > MAX_GPU_SPANS_PER_FRAME,
                    epoch: recording_for(generation, frame_index).epoch,
                    ticks: Seq::new(
                        granted(requests.len()),
                        |n: int|
                            SpanTicks {
                                label: nth_label(requests[n].0, requests[n].1, n),
                                begin_ticks: timestamp_at(view, 2 * n, order)->0,
                                end_ticks: timestamp_at(view, 2 * n + 1, order)->0,
                            },
                    ),
                },
            )
            &&& harvested(read_back).state == GenerationState::Idle
        }),
{
    let recorded = pairs_reserved(recording_for(generation, frame_index), requests);
    let labels = recorded.labels;
    lemma_pairs_reserved(generation, frame_index, requests);
    assert forall|n: int| 0 <= n < labels.len() implies label_ticks(
        view,
        order,
        #[trigger] labels[n],
    ) is Some by {
        assert(labels[n] == nth_label(requests[n].0, requests[n].1, n));
    }
    lemma_all_harvested(labels, view, order, labels.len() as int);
    assert(labels.take(labels.len() as int) == labels);
    assert(harvested_ticks(labels, Some(view), order) == Seq::new(
        granted(requests.len()),
        |n: int|
            SpanTicks {
                label: nth_label(requests[n].0, requests[n].1, n),
                begin_ticks: timestamp_at(view, 2 * n, order)->0,
                end_ticks: timestamp_at(view, 2 * n + 1, order)->0,
            },
    ));
}

/// A frame that asks for no pairs is not read back.
pub proof fn law_empty_frame_skips_readback(generation: GenerationModel, frame_index: u64)
    ensures
        ({
            let recorded = recording_for(generation, frame_index);
            readback_begun(resolved(recorded)) == (GenerationModel {
                state: GenerationState::Idle,
                ..recorded
            })
        }),
{
}

} // verus!
