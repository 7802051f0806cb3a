//! What GPU timestamp capture promises: which queries a frame is given, when its
//! timestamps are read, and where its spans go.

use crate::byte_order::ByteOrder;
use crate::flamegraph::capture::{attach_gpu_spans, Profiler};
use crate::flamegraph::model::{GpuClockCalibration, GpuPassKind, GpuSpan, Moment, SpanName};
use crate::flamegraph_gpu::generation::{
    generation_wf, harvested_ticks, GenerationModel, GenerationState, Harvest, QueryGeneration,
    QUERIES_PER_FRAME, QUERY_BUFFER_BYTES,
};
use crate::flamegraph_gpu::manager::{
    attach_harvest, harvests_of, spans_of, sync_with_active_capture, views_of, GpuQueryManager,
    ReservedTimestamps,
};
use crate::flamegraph_gpu::ticks::{
    begin_calibration, finish_calibration, read_u64, tick_deltas, ticks_to_span, timestamp_at,
    PendingSpanLabel, ScaledDeltas, SpanTicks, TickDeltas,
};
use vstd::bytes::spec_u64_to_le_bytes;
use vstd::prelude::*;

verus! {

/// Whether the bytes of `value` are the eight at `index` in `view`: the least
/// significant first in little-endian order, and last in big-endian order.
pub open spec fn stands_at(view: Seq<u8>, index: int, order: ByteOrder, value: u64) -> bool {
    &&& index * 8 + 8 <= view.len()
    &&& forall|i: int|
        0 <= i < 8 ==> #[trigger] spec_u64_to_le_bytes(value)[i] == view[index * 8 + if order
            == ByteOrder::Little {
            i
        } else {
            7 - i
        }]
}

proof fn lemma_timestamp(view: Seq<u8>, index: int, order: ByteOrder)
    requires
        0 <= index,
    ensures
        timestamp_at(view, index, order) is Some <==> index * 8 + 8 <= view.len(),
        timestamp_at(view, index, order) matches Some(value) ==> stands_at(
            view,
            index,
            order,
            value,
        ),
{
    vstd::bytes::lemma_auto_spec_u64_to_from_le_bytes();
    if timestamp_at(view, index, order) is Some {
        let there = view.subrange(index * 8, index * 8 + 8);
        let value = timestamp_at(view, index, order)->0;
        let bytes = crate::byte_order::ordered(there, order);
        assert(spec_u64_to_le_bytes(value) == bytes);
        assert forall|i: int| 0 <= i < 8 implies #[trigger] spec_u64_to_le_bytes(value)[i]
            == view[index * 8 + if order == ByteOrder::Little {
            i
        } else {
            7 - i
        }] by {
            assert(bytes[i] == there[if order == ByteOrder::Little {
                i
            } else {
                7 - i
            }]);
        }
    }
}

/// A timestamp is read exactly when the buffer holds all of it, and its bytes
/// are those in the buffer.
pub proof fn law_read(view: &[u8], index: u32, order: ByteOrder, value: Option<u64>)
    requires
        call_ensures(read_u64, (view, index, order), value),
    ensures
        value is Some <==> index * 8 + 8 <= view@.len(),
        value matches Some(value) ==> stands_at(view@, index as int, order, value),
{
    lemma_timestamp(view@, index as int, order);
}

/// Tick counts are differences: added to where they count from, they give where
/// they count to. Ticks that run backwards count as none.
pub proof fn law_deltas(ticks: &SpanTicks, calibration: &GpuClockCalibration, deltas: TickDeltas)
    requires
        call_ensures(tick_deltas, (ticks, calibration), deltas),
    ensures
        ticks.begin_ticks <= ticks.end_ticks ==> ticks.begin_ticks + deltas.duration_ticks
            == ticks.end_ticks,
        ticks.end_ticks <= ticks.begin_ticks ==> deltas.duration_ticks == 0,
        calibration.gpu_anchor_ticks <= ticks.begin_ticks ==> calibration.gpu_anchor_ticks
            + deltas.ticks_from_anchor == ticks.begin_ticks,
        ticks.begin_ticks <= calibration.gpu_anchor_ticks ==> deltas.ticks_from_anchor == 0,
{
}

/// A span is named after its label. On a calibrated clock it starts as long
/// after the CPU anchor as its pass did after the GPU anchor, and lasts as long
/// as its pass; without one it has no time.
pub proof fn law_span(
    label: &PendingSpanLabel,
    scaled: ScaledDeltas,
    calibration: &GpuClockCalibration,
    epoch: u64,
    span: GpuSpan,
)
    requires
        call_ensures(ticks_to_span, (label, scaled, calibration, epoch), span),
    ensures
        span.name == label.name,
        span.pass_kind == label.pass_kind,
        span.query_set_generation == epoch,
        calibration.calibrated && calibration.cpu_anchor_ns + scaled.offset_ns <= u64::MAX
            ==> span.start_ns - calibration.cpu_anchor_ns == scaled.offset_ns,
        calibration.calibrated && calibration.cpu_anchor_ns + scaled.offset_ns >= u64::MAX
            ==> span.start_ns == u64::MAX,
        calibration.calibrated ==> span.duration_ns == scaled.duration_ns,
        !calibration.calibrated ==> span.start_ns == 0 && span.duration_ns == 0,
{
}

/// A calibration is begun exactly while a capture records, at the time since the
/// capture's anchor.
pub proof fn law_begin_calibration(profiler: &Profiler, now: Moment, cpu_anchor_ns: Option<u64>)
    requires
        call_ensures(begin_calibration, (profiler, now), cpu_anchor_ns),
    ensures
        cpu_anchor_ns is Some <==> profiler@.active is Some,
        cpu_anchor_ns matches Some(nanos) ==> {
            let anchor = profiler@.active->0.anchor;
            &&& anchor.nanos <= now.nanos <= anchor.nanos + u64::MAX ==> anchor.nanos + nanos
                == now.nanos
            &&& now.nanos <= anchor.nanos ==> nanos == 0
            &&& anchor.nanos + u64::MAX <= now.nanos ==> nanos == u64::MAX
        },
{
}

/// A calibration takes the first timestamp that was read back. Without one it
/// stays what it was. The capture is not touched.
pub proof fn law_finish_calibration(
    profiler: &mut Profiler,
    cpu_anchor_ns: u64,
    view: Option<&[u8]>,
    order: ByteOrder,
    ns_per_tick_bits: u32,
)
    requires
        call_ensures(
            finish_calibration,
            (profiler, cpu_anchor_ns, view, order, ns_per_tick_bits),
            (),
        ),
    ensures
        final(profiler)@.active == old(profiler)@.active,
        view matches Some(bytes) && bytes@.len() >= 8 ==> {
            let calibration = final(profiler)@.calibration;
            &&& calibration.calibrated
            &&& calibration.cpu_anchor_ns == cpu_anchor_ns
            &&& calibration.ns_per_tick_bits == ns_per_tick_bits
            &&& stands_at(view->0@, 0, order, calibration.gpu_anchor_ticks)
        },
        view is None || view->0@.len() < 8 ==> final(profiler)@.calibration == old(
            profiler,
        )@.calibration,
{
    if view is Some {
        lemma_timestamp(view->0@, 0, order);
    }
}

/// A generation that was never used has nothing.
pub proof fn law_new_generation(generation: QueryGeneration, epoch: u64)
    requires
        call_ensures(QueryGeneration::new, (), generation),
        call_ensures(QueryGeneration::epoch, (&generation,), epoch),
    ensures
        generation@.labels.len() == 0,
        generation@.state == GenerationState::Idle,
        !generation@.truncated,
        !generation@.map_ready,
        generation@.frame_index == 0,
        generation@.epoch == 0,
        epoch == 0,
{
}

/// A new frame starts recording with no pairs and counts as one more use.
pub proof fn law_reset(generation: &mut QueryGeneration, frame_index: u64)
    requires
        call_ensures(QueryGeneration::reset_for_frame, (generation, frame_index), ()),
        old(generation)@.epoch < u64::MAX,
    ensures
        final(generation)@.labels.len() == 0,
        final(generation)@.frame_index == frame_index,
        final(generation)@.state == GenerationState::Recording,
        !final(generation)@.truncated,
        !final(generation)@.map_ready,
        final(generation)@.epoch == old(generation)@.epoch + 1,
{
}

/// A frame is given sixteen pairs, the next two queries each time. Asking for
/// more marks it as truncated; asking outside a recording does nothing.
pub proof fn law_reserve(
    generation: &mut QueryGeneration,
    name: SpanName,
    pass_kind: GpuPassKind,
    pair: Option<(u32, u32)>,
)
    requires
        call_ensures(QueryGeneration::reserve_pair, (generation, name, pass_kind), pair),
    ensures
        is_reservation(old(generation)@, final(generation)@, name, pass_kind, pair),
{
    lemma_reservation(old(generation)@, final(generation)@);
}

proof fn lemma_reservation(before: GenerationModel, after: GenerationModel)
    ensures
        after.labels.len() == before.labels.len() + 1 && (forall|i: int|
            0 <= i < before.labels.len() ==> #[trigger] after.labels[i] == before.labels[i])
            ==> after.labels.drop_last() == before.labels,
{
    if after.labels.len() == before.labels.len() + 1 && (forall|i: int|
        0 <= i < before.labels.len() ==> #[trigger] after.labels[i] == before.labels[i]) {
        assert(after.labels.drop_last() == before.labels);
    }
}

/// Whether `after` is `before` after a pair was asked for, and `pair` is the one
/// that was given.
pub open spec fn is_reservation(
    before: GenerationModel,
    after: GenerationModel,
    name: SpanName,
    pass_kind: GpuPassKind,
    pair: Option<(u32, u32)>,
) -> bool {
    let count = before.labels.len();
    &&& before.state != GenerationState::Recording ==> pair is None && after == before
    &&& before.state == GenerationState::Recording && count >= 16 ==> pair is None
        && after.truncated && after.labels == before.labels
    &&& before.state == GenerationState::Recording && count < 16 ==> {
        &&& pair matches Some((begin, end))
        &&& begin == 2 * count
        &&& end == begin + 1
        &&& after.labels.len() == count + 1
        &&& after.labels.drop_last() == before.labels
        &&& after.labels.last().name == name
        &&& after.labels.last().pass_kind == pass_kind
        &&& after.labels.last().begin_query == begin
        &&& after.labels.last().end_query == end
        &&& after.truncated == before.truncated
    }
    &&& after.frame_index == before.frame_index
    &&& after.state == before.state
    &&& after.epoch == before.epoch
    &&& after.map_ready == before.map_ready
}

/// Whether `after` is `before` but for how far it has come.
pub open spec fn only_moves(before: GenerationModel, after: GenerationModel) -> bool {
    &&& after.labels == before.labels
    &&& after.frame_index == before.frame_index
    &&& after.truncated == before.truncated
    &&& after.epoch == before.epoch
    &&& after.map_ready == before.map_ready
}

/// Whether `after` is `before` after its recording ended: with pairs it goes on
/// to be resolved, two queries for each pair, and without it is done.
pub open spec fn is_resolving(
    before: GenerationModel,
    after: GenerationModel,
    query_count: Option<u32>,
) -> bool {
    &&& only_moves(before, after)
    &&& before.state != GenerationState::Recording ==> after.state == before.state
        && query_count is None
    &&& before.state == GenerationState::Recording && before.labels.len() == 0 ==> after.state
        == GenerationState::Idle && query_count is None
    &&& before.state == GenerationState::Recording && before.labels.len() > 0 ==> after.state
        == GenerationState::Resolving && (query_count matches Some(count) && count == 2
        * before.labels.len())
}

/// Whether `after` is `before` after its frame was submitted: what was resolved
/// is mapped, eight bytes for each query.
pub open spec fn is_reading_back(
    before: GenerationModel,
    after: GenerationModel,
    size: Option<u64>,
) -> bool {
    &&& only_moves(before, after)
    &&& before.state == GenerationState::Resolving ==> after.state == GenerationState::MapPending
        && (size matches Some(size) && size == 8 * (2 * before.labels.len()))
    &&& before.state != GenerationState::Resolving ==> after.state == before.state && size is None
}

/// Ending a recording.
pub proof fn law_resolve(generation: &mut QueryGeneration, query_count: Option<u32>)
    requires
        call_ensures(QueryGeneration::resolve, (generation,), query_count),
        old(generation).wf(),
    ensures
        is_resolving(old(generation)@, final(generation)@, query_count),
{
}

/// Starting a readback.
pub proof fn law_begin_readback(generation: &mut QueryGeneration, size: Option<u64>)
    requires
        call_ensures(QueryGeneration::begin_readback, (generation,), size),
        old(generation).wf(),
    ensures
        is_reading_back(old(generation)@, final(generation)@, size),
{
}

/// A frame's queries fit the query set and its buffers, and a frame that was
/// given all its pairs fills them.
pub proof fn law_queries_fit(
    resolving: &mut QueryGeneration,
    query_count: Option<u32>,
    reading: &mut QueryGeneration,
    size: Option<u64>,
)
    requires
        call_ensures(QueryGeneration::resolve, (resolving,), query_count),
        call_ensures(QueryGeneration::begin_readback, (reading,), size),
        old(resolving).wf(),
        old(reading).wf(),
    ensures
        query_count matches Some(count) ==> count <= QUERIES_PER_FRAME && (
        old(resolving)@.labels.len() == 16 <==> count == QUERIES_PER_FRAME),
        size matches Some(size) ==> size <= QUERY_BUFFER_BYTES && (old(reading)@.labels.len() == 16
            <==> size == QUERY_BUFFER_BYTES),
{
}

/// A readback that ended is noted, and nothing else.
pub proof fn law_map_completed(generation: &mut QueryGeneration, succeeded: bool)
    requires
        call_ensures(QueryGeneration::map_completed, (generation, succeeded), ()),
    ensures
        final(generation)@.map_ready == succeeded,
        final(generation)@.labels == old(generation)@.labels,
        final(generation)@.frame_index == old(generation)@.frame_index,
        final(generation)@.state == old(generation)@.state,
        final(generation)@.truncated == old(generation)@.truncated,
        final(generation)@.epoch == old(generation)@.epoch,
{
}

/// There are bytes to read exactly when a readback was started and succeeded:
/// eight for each query.
pub proof fn law_harvest_size(generation: &QueryGeneration, size: Option<u64>)
    requires
        call_ensures(QueryGeneration::harvest_size, (generation,), size),
        generation.wf(),
    ensures
        size is Some <==> generation@.state == GenerationState::MapPending && generation@.map_ready,
        size matches Some(size) ==> size == 8 * (2 * generation@.labels.len()),
{
}

/// A generation is harvested exactly when its readback was started and
/// succeeded. It is then idle, and the harvest is tagged with its frame. A
/// buffer that could not be read yields no timestamps.
pub proof fn law_harvest(
    generation: &mut QueryGeneration,
    view: Option<&[u8]>,
    order: ByteOrder,
    harvest: Option<Harvest>,
)
    requires
        call_ensures(QueryGeneration::try_harvest, (generation, view, order), harvest),
    ensures
        harvest is Some <==> old(generation)@.state == GenerationState::MapPending && old(
            generation,
        )@.map_ready,
        harvest is None ==> final(generation)@ == old(generation)@,
        harvest matches Some(harvest) ==> {
            &&& harvest.frame_index == old(generation)@.frame_index
            &&& harvest.truncated == old(generation)@.truncated
            &&& harvest.epoch == old(generation)@.epoch
            &&& view is None ==> harvest.ticks@.len() == 0
            &&& view matches Some(bytes) ==> harvest.ticks@ == harvested_ticks(
                old(generation)@.labels,
                Some(bytes@),
                order,
            )
            &&& only_moves(old(generation)@, final(generation)@)
            &&& final(generation)@.state == GenerationState::Idle
        },
{
}

/// One more label yields its timestamps exactly when the buffer holds both of
/// its queries, behind those of the labels before it.
pub proof fn law_harvested_ticks(
    labels: Seq<PendingSpanLabel>,
    label: PendingSpanLabel,
    view: Seq<u8>,
    order: ByteOrder,
)
    ensures
        harvested_ticks(Seq::empty(), Some(view), order).len() == 0,
        ({
            let before = harvested_ticks(labels, Some(view), order);
            let after = harvested_ticks(labels.push(label), Some(view), order);
            if label.begin_query * 8 + 8 <= view.len() && label.end_query * 8 + 8 <= view.len() {
                &&& after.len() == before.len() + 1
                &&& after.drop_last() == before
                &&& after.last().label == label
                &&& stands_at(view, label.begin_query as int, order, after.last().begin_ticks)
                &&& stands_at(view, label.end_query as int, order, after.last().end_ticks)
            } else {
                after == before
            }
        }),
{
    reveal(Seq::filter_map);
    lemma_timestamp(view, label.begin_query as int, order);
    lemma_timestamp(view, label.end_query as int, order);
    assert(labels.push(label).drop_last() == labels);
    let before = harvested_ticks(labels, Some(view), order);
    let after = harvested_ticks(labels.push(label), Some(view), order);
    if after.len() > before.len() {
        assert(after.drop_last() == before);
    }
}

/// Where the mapped buffer holds every query of a frame, the harvest has the
/// timestamps of every pair, in the order they were reserved.
pub proof fn law_harvest_is_complete(
    generation: &mut QueryGeneration,
    view: Option<&[u8]>,
    order: ByteOrder,
    harvest: Option<Harvest>,
    n: int,
)
    requires
        call_ensures(QueryGeneration::try_harvest, (generation, view, order), harvest),
        generation_wf(old(generation)@),
        old(generation)@.state == GenerationState::MapPending,
        old(generation)@.map_ready,
        view is Some,
        view->0@.len() >= 16 * old(generation)@.labels.len(),
        0 <= n < old(generation)@.labels.len(),
    ensures
        harvest is Some,
        harvest->0.ticks@.len() == old(generation)@.labels.len(),
        harvest->0.ticks@[n].label == old(generation)@.labels[n],
        stands_at(view->0@, 2 * n, order, harvest->0.ticks@[n].begin_ticks),
        stands_at(view->0@, 2 * n + 1, order, harvest->0.ticks@[n].end_ticks),
{
    lemma_complete(old(generation)@, view->0@, order, old(generation)@.labels.len() as int, n);
    assert(old(generation)@.labels.take(old(generation)@.labels.len() as int) == old(
        generation,
    )@.labels);
}

proof fn lemma_complete(
    generation: GenerationModel,
    view: Seq<u8>,
    order: ByteOrder,
    count: int,
    n: int,
)
    requires
        generation_wf(generation),
        0 <= count <= generation.labels.len(),
        view.len() >= 16 * generation.labels.len(),
    ensures
        ({
            let ticks = harvested_ticks(generation.labels.take(count), Some(view), order);
            &&& ticks.len() == count
            &&& 0 <= n < count ==> {
                &&& ticks[n].label == generation.labels[n]
                &&& stands_at(view, 2 * n, order, ticks[n].begin_ticks)
                &&& stands_at(view, 2 * n + 1, order, ticks[n].end_ticks)
            }
        }),
    decreases count,
{
    let labels = generation.labels;
    if count == 0 {
        assert(labels.take(0) == Seq::<PendingSpanLabel>::empty());
        law_harvested_ticks(labels, arbitrary(), view, order);
    } else {
        let last = labels[count - 1];
        lemma_complete(generation, view, order, count - 1, n);
        law_harvested_ticks(labels.take(count - 1), last, view, order);
        assert(labels.take(count) == labels.take(count - 1).push(last));
        assert(last.begin_query == 2 * (count - 1));
        assert(last.end_query == 2 * (count - 1) + 1);
        let before = harvested_ticks(labels.take(count - 1), Some(view), order);
        let after = harvested_ticks(labels.take(count), Some(view), order);
        if 0 <= n < count - 1 {
            assert(after.drop_last()[n] == after[n]);
        }
    }
}

/// A reserved pair tells its two queries.
pub proof fn law_reserved_indices(reserved: &ReservedTimestamps, begin: u32, end: u32)
    requires
        call_ensures(ReservedTimestamps::begin_index, (reserved,), begin),
        call_ensures(ReservedTimestamps::end_index, (reserved,), end),
    ensures
        begin == reserved.begin,
        end == reserved.end,
{
}

/// A new manager has three idle generations that were never used.
pub proof fn law_new_manager(manager: GpuQueryManager, current: usize, i: int)
    requires
        call_ensures(GpuQueryManager::new, (), manager),
        call_ensures(GpuQueryManager::current, (&manager,), current),
    ensures
        manager.wf(),
        manager@.generations.len() == 3,
        current == 0,
        0 <= i < 3 ==> {
            let generation = manager@.generations[i];
            &&& generation.labels.len() == 0
            &&& generation.state == GenerationState::Idle
            &&& generation.epoch == 0
            &&& !generation.truncated
            &&& !generation.map_ready
        },
{
}

/// Whether `after` is `before` but for its element `changed`.
pub open spec fn only_generation(
    before: Seq<GenerationModel>,
    after: Seq<GenerationModel>,
    changed: int,
) -> bool {
    &&& after.len() == before.len()
    &&& forall|i: int| 0 <= i < before.len() && i != changed ==> #[trigger] after[i] == before[i]
}

/// Frames take the three generations in turn, and begin to record there. The
/// others are left alone.
pub proof fn law_begin_frame(manager: &mut GpuQueryManager, frame_index: u64, possible: bool)
    requires
        call_ensures(GpuQueryManager::begin_frame, (manager, frame_index), ()),
        call_ensures(GpuQueryManager::can_begin_frame, (old(manager),), possible),
        possible,
        old(manager).wf(),
    ensures
        old(manager)@.current < 2 ==> final(manager)@.current == old(manager)@.current + 1,
        old(manager)@.current == 2 ==> final(manager)@.current == 0,
        only_generation(
            old(manager)@.generations,
            final(manager)@.generations,
            final(manager)@.current,
        ),
        ({
            let before = old(manager)@.generations[final(manager)@.current];
            let after = final(manager)@.generations[final(manager)@.current];
            &&& after.labels.len() == 0
            &&& after.frame_index == frame_index
            &&& after.state == GenerationState::Recording
            &&& !after.truncated
            &&& !after.map_ready
            &&& after.epoch == before.epoch + 1
        }),
{
}

/// A frame can begin exactly when the next generation's use count has room.
pub proof fn law_can_begin_frame(manager: &GpuQueryManager, possible: bool)
    requires
        call_ensures(GpuQueryManager::can_begin_frame, (manager,), possible),
        manager.wf(),
    ensures
        manager@.current < 2 ==> possible == (manager@.generations[manager@.current + 1].epoch
            < u64::MAX),
        manager@.current == 2 ==> possible == (manager@.generations[0].epoch < u64::MAX),
{
}

/// A pair is reserved in the generation of the current frame.
pub proof fn law_manager_reserves(
    manager: &mut GpuQueryManager,
    name: SpanName,
    pass_kind: GpuPassKind,
    reserved: Option<ReservedTimestamps>,
)
    requires
        call_ensures(GpuQueryManager::reserve_pair, (manager, name, pass_kind), reserved),
        old(manager).wf(),
    ensures
        final(manager)@.current == old(manager)@.current,
        only_generation(
            old(manager)@.generations,
            final(manager)@.generations,
            old(manager)@.current,
        ),
        is_reservation(
            old(manager)@.generations[old(manager)@.current],
            final(manager)@.generations[old(manager)@.current],
            name,
            pass_kind,
            match reserved {
                Some(reserved) => Some((reserved.begin, reserved.end)),
                None => None,
            },
        ),
        reserved matches Some(reserved) ==> reserved.generation == old(manager)@.current,
{
    lemma_reservation(
        old(manager)@.generations[old(manager)@.current],
        final(manager)@.generations[old(manager)@.current],
    );
}

/// The current frame's recording ends.
pub proof fn law_finish_frame(manager: &mut GpuQueryManager, query_count: Option<u32>)
    requires
        call_ensures(GpuQueryManager::finish_frame, (manager,), query_count),
        old(manager).wf(),
    ensures
        final(manager)@.current == old(manager)@.current,
        only_generation(
            old(manager)@.generations,
            final(manager)@.generations,
            old(manager)@.current,
        ),
        is_resolving(
            old(manager)@.generations[old(manager)@.current],
            final(manager)@.generations[old(manager)@.current],
            query_count,
        ),
{
    assert(generation_wf(old(manager)@.generations[old(manager)@.current]));
}

/// The current frame's readback starts.
pub proof fn law_manager_begins_readback(manager: &mut GpuQueryManager, size: Option<u64>)
    requires
        call_ensures(GpuQueryManager::begin_readback, (manager,), size),
        old(manager).wf(),
    ensures
        final(manager)@.current == old(manager)@.current,
        only_generation(
            old(manager)@.generations,
            final(manager)@.generations,
            old(manager)@.current,
        ),
        is_reading_back(
            old(manager)@.generations[old(manager)@.current],
            final(manager)@.generations[old(manager)@.current],
            size,
        ),
{
    assert(generation_wf(old(manager)@.generations[old(manager)@.current]));
}

/// The end of a generation's readback is noted there, and nothing else is
/// touched.
pub proof fn law_manager_map_completed(
    manager: &mut GpuQueryManager,
    generation: usize,
    succeeded: bool,
)
    requires
        call_ensures(GpuQueryManager::map_completed, (manager, generation, succeeded), ()),
        old(manager).wf(),
        generation < 3,
    ensures
        final(manager)@.current == old(manager)@.current,
        only_generation(
            old(manager)@.generations,
            final(manager)@.generations,
            generation as int,
        ),
        ({
            let before = old(manager)@.generations[generation as int];
            let after = final(manager)@.generations[generation as int];
            &&& after.map_ready == succeeded
            &&& after.labels == before.labels
            &&& after.frame_index == before.frame_index
            &&& after.state == before.state
            &&& after.truncated == before.truncated
            &&& after.epoch == before.epoch
        }),
{
}

/// There are bytes to read of a generation exactly when its readback was started
/// and succeeded.
pub proof fn law_manager_harvest_size(
    manager: &GpuQueryManager,
    generation: usize,
    size: Option<u64>,
)
    requires
        call_ensures(GpuQueryManager::harvest_size, (manager, generation), size),
        manager.wf(),
        generation < 3,
    ensures
        ({
            let model = manager@.generations[generation as int];
            &&& size is Some <==> model.state == GenerationState::MapPending && model.map_ready
            &&& size matches Some(size) ==> size == 8 * (2 * model.labels.len())
        }),
{
    assert(generation_wf(manager@.generations[generation as int]));
}

/// Polling makes every generation idle whose readback was started and succeeded,
/// and leaves the others alone.
pub proof fn law_poll(
    manager: &mut GpuQueryManager,
    views: &Vec<Option<Vec<u8>>>,
    order: ByteOrder,
    harvests: Vec<Harvest>,
    i: int,
)
    requires
        call_ensures(GpuQueryManager::poll_readback, (manager, views, order), harvests),
        old(manager).wf(),
        0 <= i < 3,
    ensures
        final(manager)@.current == old(manager)@.current,
        final(manager)@.generations.len() == 3,
        ({
            let before = old(manager)@.generations[i];
            let after = final(manager)@.generations[i];
            if before.state == GenerationState::MapPending && before.map_ready {
                after.state == GenerationState::Idle && only_moves(before, after)
            } else {
                after == before
            }
        }),
        harvests@.map_values(|harvest: Harvest| harvest@) == harvests_of(
            old(manager)@.generations,
            views_of(views@),
            order,
        ),
        forall|k: int|
            0 <= k < views@.len() ==> #[trigger] views_of(views@)[k] == match views@[k] {
                Some(bytes) => Some(bytes@),
                None => None,
            },
{
}

/// One more generation yields a harvest exactly when its readback was started
/// and succeeded, behind those of the generations before it.
pub proof fn law_harvests(
    generations: Seq<GenerationModel>,
    generation: GenerationModel,
    views: Seq<Option<Seq<u8>>>,
    order: ByteOrder,
)
    ensures
        harvests_of(Seq::empty(), views, order).len() == 0,
        ({
            let before = harvests_of(generations, views, order);
            let after = harvests_of(generations.push(generation), views, order);
            if generation.state == GenerationState::MapPending && generation.map_ready {
                &&& after.len() == before.len() + 1
                &&& after.drop_last() == before
                &&& after.last().frame_index == generation.frame_index
                &&& after.last().truncated == generation.truncated
                &&& after.last().epoch == generation.epoch
                &&& views[generations.len() as int] is None ==> after.last().ticks.len() == 0
                &&& views[generations.len() as int] matches Some(bytes) ==> after.last().ticks
                    == harvested_ticks(generation.labels, Some(bytes), order)
            } else {
                after == before
            }
        }),
{
    assert(generations.push(generation).drop_last() == generations);
    let before = harvests_of(generations, views, order);
    let after = harvests_of(generations.push(generation), views, order);
    if after.len() > before.len() {
        assert(after.drop_last() == before);
    }
}

/// Attaching a harvest attaches the spans that its timestamps give, one for
/// each and in their order, to the harvest's frame.
pub proof fn law_attach_harvest(
    profiler: &mut Profiler,
    harvest: &Harvest,
    scaled: &Vec<ScaledDeltas>,
    calibration: &GpuClockCalibration,
    spans: Vec<GpuSpan>,
    other: &mut Profiler,
)
    requires
        call_ensures(attach_harvest, (profiler, harvest, scaled), ()),
        *calibration == old(profiler)@.calibration,
        spans@.len() == harvest.ticks@.len(),
        forall|i: int|
            0 <= i < spans@.len() ==> call_ensures(
                ticks_to_span,
                (&harvest.ticks@[i].label, scaled@[i], calibration, harvest.epoch),
                #[trigger] spans@[i],
            ),
        call_ensures(
            attach_gpu_spans,
            (other, harvest.frame_index, spans, harvest.truncated),
            (),
        ),
        old(other)@ == old(profiler)@,
    ensures
        final(profiler)@ == final(other)@,
{
    let expected = spans_of(harvest.ticks@, scaled@, *calibration, harvest.epoch);
    assert forall|i: int| 0 <= i < spans@.len() implies #[trigger] spans@[i] == expected[i] by {
        assert(call_ensures(
            ticks_to_span,
            (&harvest.ticks@[i].label, scaled@[i], calibration, harvest.epoch),
            spans@[i],
        ));
    }
    assert(spans@ == expected);
}

/// There is a manager exactly while a capture that wants GPU spans records. One
/// that is there stays as it is; one that is made is new, and only then is there
/// a clock to calibrate.
pub proof fn law_sync(slot: &mut Option<GpuQueryManager>, profiler: &Profiler, created: bool)
    requires
        call_ensures(sync_with_active_capture, (slot, profiler), created),
    ensures
        ({
            let wanted = profiler@.active is Some && profiler@.active->0.capture_gpu;
            &&& !wanted ==> *final(slot) is None && !created
            &&& wanted && *old(slot) is Some ==> *final(slot) == *old(slot) && !created
            &&& wanted && *old(slot) is None ==> {
                &&& created
                &&& *final(slot) matches Some(manager)
                &&& manager@.current == 0
                &&& manager@.generations.len() == 3
                &&& forall|i: int|
                    0 <= i < 3 ==> (#[trigger] manager@.generations[i]).state
                        == GenerationState::Idle && manager@.generations[i].epoch == 0
                        && manager@.generations[i].labels.len() == 0
            }
        }),
{
}

} // verus!
