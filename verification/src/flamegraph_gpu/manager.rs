//! The query generations of a GPU-capturing session, used in turn.

use crate::byte_order::ByteOrder;
use crate::flamegraph::capture::{
    active_capture_wants_gpu, attach_gpu_spans, capture_enabled, Profiler, ProfilerModel,
};
use crate::flamegraph::model::{GpuClockCalibration, GpuPassKind, GpuSpan, SpanName};
use crate::flamegraph::session::{gpu_spans_attached, SessionModel};
use crate::flamegraph_gpu::generation::{
    generation_wf, harvest_of, harvested, idle_generation, is_harvestable, pair_offered,
    pair_reserved, readback_begun, recording_for, resolved, GenerationModel, GenerationState,
    Harvest, HarvestModel, QueryGeneration,
};
use crate::flamegraph_gpu::ticks::{span_of, ticks_to_span, ScaledDeltas, SpanTicks};
use vstd::prelude::*;

verus! {

/// How many frames may be in flight at once.
pub const GENERATION_COUNT: usize = 3;

/// A reserved pair of timestamp queries.
#[derive(Debug, Clone, Copy, PartialEq, Eq, Structural)]
pub struct ReservedTimestamps {
    /// Whose query set the pair belongs to.
    pub generation: usize,
    /// The query to write at the beginning.
    pub begin: u32,
    /// The query to write at the end.
    pub end: u32,
}

impl ReservedTimestamps {
    /// The query to write at the beginning.
    pub fn begin_index(&self) -> (index: u32)
        ensures
            index == self.begin,
    {
        self.begin
    }

    /// The query to write at the end.
    pub fn end_index(&self) -> (index: u32)
        ensures
            index == self.end,
    {
        self.end
    }
}

/// The query generations of a session, and which of them the current frame
/// records into. Exists only while a capture that wants GPU spans is active.
pub struct GpuQueryManager {
    generations: Vec<QueryGeneration>,
    current: usize,
}

/// What a [`GpuQueryManager`] holds.
#[verifier::ext_equal]
pub struct ManagerModel {
    /// The generations.
    pub generations: Seq<GenerationModel>,
    /// Which of them the current frame records into.
    pub current: int,
}

/// The models of a sequence of generations.
pub open spec fn generation_models(generations: Seq<QueryGeneration>) -> Seq<GenerationModel> {
    generations.map_values(|generation: QueryGeneration| generation@)
}

impl View for GpuQueryManager {
    type V = ManagerModel;

    closed spec fn view(&self) -> ManagerModel {
        ManagerModel {
            generations: generation_models(self.generations@),
            current: self.current as int,
        }
    }
}

/// There are [`GENERATION_COUNT`] generations, all well formed.
pub open spec fn manager_wf(manager: ManagerModel) -> bool {
    &&& manager.generations.len() == GENERATION_COUNT
    &&& 0 <= manager.current < GENERATION_COUNT
    &&& forall|i: int|
        0 <= i < GENERATION_COUNT ==> generation_wf(#[trigger] manager.generations[i])
}

/// A manager that has seen no frame.
pub open spec fn fresh_manager() -> ManagerModel {
    ManagerModel {
        generations: Seq::new(GENERATION_COUNT as nat, |i: int| idle_generation()),
        current: 0,
    }
}

/// The generation that the current frame records into.
pub open spec fn current_generation(manager: ManagerModel) -> GenerationModel {
    manager.generations[manager.current]
}

/// A manager whose current generation is `generation`.
pub open spec fn with_current(manager: ManagerModel, generation: GenerationModel) -> ManagerModel {
    ManagerModel {
        generations: manager.generations.update(manager.current, generation),
        ..manager
    }
}

/// Which generation the next frame records into.
pub open spec fn next_generation(manager: ManagerModel) -> int {
    (manager.current + 1) % (GENERATION_COUNT as int)
}

/// A manager after a frame began.
pub open spec fn frame_begun(manager: ManagerModel, frame_index: u64) -> ManagerModel {
    ManagerModel {
        generations: manager.generations.update(
            next_generation(manager),
            recording_for(manager.generations[next_generation(manager)], frame_index),
        ),
        current: next_generation(manager),
    }
}

/// What the generations yield, in order. `views` holds the mapped bytes of
/// each.
pub open spec fn harvests_of(
    generations: Seq<GenerationModel>,
    views: Seq<Option<Seq<u8>>>,
    order: ByteOrder,
) -> Seq<HarvestModel>
    decreases generations.len(),
{
    if generations.len() == 0 {
        Seq::empty()
    } else {
        let rest = harvests_of(generations.drop_last(), views, order);
        match harvest_of(generations.last(), views[generations.len() - 1], order) {
            Some(harvest) => rest.push(harvest),
            None => rest,
        }
    }
}

/// The bytes of mapped buffers.
pub open spec fn views_of(views: Seq<Option<Vec<u8>>>) -> Seq<Option<Seq<u8>>> {
    views.map_values(
        |view: Option<Vec<u8>>|
            match view {
                Some(bytes) => Some(bytes@),
                None => None,
            },
    )
}

impl GpuQueryManager {
    /// There are [`GENERATION_COUNT`] generations, all well formed.
    pub open spec fn wf(&self) -> bool {
        manager_wf(self@)
    }

    /// A manager that has seen no frame.
    pub fn new() -> (manager: Self)
        ensures
            manager.wf(),
            manager@ == fresh_manager(),
    {
        let mut generations: Vec<QueryGeneration> = Vec::new();
        while generations.len() < GENERATION_COUNT
            invariant
                generations@.len() <= GENERATION_COUNT,
                forall|i: int|
                    0 <= i < generations@.len() ==> (#[trigger] generations@[i])@
                        == idle_generation(),
            decreases GENERATION_COUNT - generations@.len(),
        {
            generations.push(QueryGeneration::new());
        }
        let manager = GpuQueryManager { generations, current: 0 };
        assert(manager@ == fresh_manager());
        manager
    }

    /// Which generation the current frame records into.
    pub fn current(&self) -> (current: usize)
        ensures
            current == self@.current,
    {
        self.current
    }

    /// Whether the use count of the next generation has room for another frame.
    pub fn can_begin_frame(&self) -> (possible: bool)
        requires
            self.wf(),
        ensures
            possible == (self@.generations[next_generation(self@)].epoch < u64::MAX),
    {
        let next: usize = (self.current + 1) % GENERATION_COUNT;
        assert(self@.generations[next as int] == self.generations@[next as int]@);
        self.generations[next].epoch() < u64::MAX
    }

    /// Select and reset the next generation for a new frame.
    pub fn begin_frame(&mut self, frame_index: u64)
        requires
            old(self).wf(),
            old(self)@.generations[next_generation(old(self)@)].epoch < u64::MAX,
        ensures
            final(self).wf(),
            final(self)@ == frame_begun(old(self)@, frame_index),
    {
        let next: usize = (self.current + 1) % GENERATION_COUNT;
        assert(next == next_generation(old(self)@));
        assert(self@.generations[next as int] == self.generations@[next as int]@);
        self.current = next;
        self.generations[next].reset_for_frame(frame_index);
        assert(self@ == frame_begun(old(self)@, frame_index));
    }

    /// Reserve a pair of queries for the current frame. Returns `None` when no
    /// frame is being recorded, or when the frame's budget is used up.
    pub fn reserve_pair(&mut self, name: SpanName, pass_kind: GpuPassKind) -> (reserved: Option<
        ReservedTimestamps,
    >)
        requires
            old(self).wf(),
        ensures
            final(self).wf(),
            final(self)@ == with_current(
                old(self)@,
                pair_reserved(current_generation(old(self)@), name, pass_kind),
            ),
            match reserved {
                Some(reserved) => {
                    &&& reserved.generation == old(self)@.current
                    &&& pair_offered(current_generation(old(self)@)) == Some(
                        (reserved.begin, reserved.end),
                    )
                },
                None => pair_offered(current_generation(old(self)@)) is None,
            },
    {
        let generation: usize = self.current;
        assert(self@.generations[generation as int] == self.generations@[generation as int]@);
        let pair = self.generations[generation].reserve_pair(name, pass_kind);
        assert(self@ == with_current(
            old(self)@,
            pair_reserved(current_generation(old(self)@), name, pass_kind),
        ));
        match pair {
            Some((begin, end)) => Some(ReservedTimestamps { generation, begin, end }),
            None => None,
        }
    }

    /// End the recording of the current frame, before its commands are
    /// submitted. Returns how many queries to resolve and copy, or `None` when
    /// there is nothing to do.
    pub fn finish_frame(&mut self) -> (query_count: Option<u32>)
        requires
            old(self).wf(),
        ensures
            final(self).wf(),
            final(self)@ == with_current(old(self)@, resolved(current_generation(old(self)@))),
            query_count == if current_generation(old(self)@).state == GenerationState::Recording
                && current_generation(old(self)@).labels.len() > 0 {
                Some((2 * current_generation(old(self)@).labels.len()) as u32)
            } else {
                None
            },
    {
        assert(self@.generations[self.current as int] == self.generations@[self.current as int]@);
        let query_count = self.generations[self.current].resolve();
        assert(self@ == with_current(old(self)@, resolved(current_generation(old(self)@))));
        query_count
    }

    /// Start the readback of the current frame, once its commands were
    /// submitted. Returns how many bytes to map, or `None` when there is
    /// nothing to read back.
    pub fn begin_readback(&mut self) -> (size: Option<u64>)
        requires
            old(self).wf(),
        ensures
            final(self).wf(),
            final(self)@ == with_current(old(self)@, readback_begun(current_generation(old(self)@))),
            size == if current_generation(old(self)@).state == GenerationState::Resolving {
                Some((16 * current_generation(old(self)@).labels.len()) as u64)
            } else {
                None
            },
    {
        assert(self@.generations[self.current as int] == self.generations@[self.current as int]@);
        let size = self.generations[self.current].begin_readback();
        assert(self@ == with_current(old(self)@, readback_begun(current_generation(old(self)@))));
        size
    }

    /// Note that the readback of `generation` ended, and whether it succeeded.
    pub fn map_completed(&mut self, generation: usize, succeeded: bool)
        requires
            old(self).wf(),
            generation < GENERATION_COUNT,
        ensures
            final(self).wf(),
            final(self)@ == (ManagerModel {
                generations: old(self)@.generations.update(
                    generation as int,
                    GenerationModel {
                        map_ready: succeeded,
                        ..old(self)@.generations[generation as int]
                    },
                ),
                ..old(self)@
            }),
    {
        assert(self@.generations[generation as int] == self.generations@[generation as int]@);
        self.generations[generation].map_completed(succeeded);
        assert(self@.generations == old(self)@.generations.update(
            generation as int,
            GenerationModel {
                map_ready: succeeded,
                ..old(self)@.generations[generation as int]
            },
        ));
    }

    /// How many bytes to read of the mapped buffer of `generation`, once its
    /// readback has completed.
    pub fn harvest_size(&self, generation: usize) -> (size: Option<u64>)
        requires
            self.wf(),
            generation < GENERATION_COUNT,
        ensures
            size == if is_harvestable(self@.generations[generation as int]) {
                Some((16 * self@.generations[generation as int].labels.len()) as u64)
            } else {
                None
            },
    {
        assert(self@.generations[generation as int] == self.generations@[generation as int]@);
        self.generations[generation].harvest_size()
    }

    /// Harvest every generation whose readback has completed. `views` holds
    /// the mapped bytes of each generation, or `None` where they could not be
    /// read, in the byte order `order`.
    pub fn poll_readback(&mut self, views: &Vec<Option<Vec<u8>>>, order: ByteOrder) -> (harvests:
        Vec<Harvest>)
        requires
            old(self).wf(),
            views@.len() == GENERATION_COUNT,
        ensures
            final(self).wf(),
            final(self)@ == (ManagerModel {
                generations: old(self)@.generations.map_values(
                    |generation: GenerationModel| harvested(generation),
                ),
                ..old(self)@
            }),
            harvests@.map_values(|harvest: Harvest| harvest@) == harvests_of(
                old(self)@.generations,
                views_of(views@),
                order,
            ),
    {
        let ghost before = self@.generations;
        let mut harvests: Vec<Harvest> = Vec::new();
        let mut i: usize = 0;
        while i < self.generations.len()
            invariant
                manager_wf(old(self)@),
                views@.len() == GENERATION_COUNT,
                before == old(self)@.generations,
                self@.current == old(self)@.current,
                self@.generations.len() == GENERATION_COUNT,
                i <= GENERATION_COUNT,
                forall|j: int|
                    0 <= j < i ==> (#[trigger] self@.generations[j]) == harvested(before[j]),
                forall|j: int|
                    i <= j < GENERATION_COUNT ==> (#[trigger] self@.generations[j]) == before[j],
                harvests@.map_values(|harvest: Harvest| harvest@) == harvests_of(
                    before.take(i as int),
                    views_of(views@),
                    order,
                ),
            decreases GENERATION_COUNT - i,
        {
            proof {
                assert(self@.generations[i as int] == self.generations@[i as int]@);
                assert(before.take(i + 1).drop_last() == before.take(i as int));
                assert(before.take(i + 1).last() == before[i as int]);
            }
            let ghost earlier = self@.generations;
            let ghost taken = harvests@.map_values(|harvest: Harvest| harvest@);
            let view: Option<&[u8]> = match &views[i] {
                Some(bytes) => Some(bytes.as_slice()),
                None => None,
            };
            if let Some(harvest) = self.generations[i].try_harvest(view, order) {
                harvests.push(harvest);
                assert(harvests@.map_values(|harvest: Harvest| harvest@) == taken.push(harvest@));
            }
            assert(self@.generations == earlier.update(i as int, harvested(before[i as int])));
            i = i + 1;
        }
        assert(before.take(GENERATION_COUNT as int) == before);
        assert(self@.generations == before.map_values(
            |generation: GenerationModel| harvested(generation),
        ));
        harvests
    }
}

/// The spans of harvested timestamps whose tick counts were scaled to
/// nanoseconds.
pub open spec fn spans_of(
    ticks: Seq<SpanTicks>,
    scaled: Seq<ScaledDeltas>,
    calibration: GpuClockCalibration,
    epoch: u64,
) -> Seq<GpuSpan> {
    Seq::new(ticks.len(), |i: int| span_of(ticks[i].label, scaled[i], calibration, epoch))
}

/// Attach the spans of a harvest to the frame they belong to, if the active
/// capture still holds it. `scaled` holds the tick counts of each pair of
/// timestamps in nanoseconds.
pub fn attach_harvest(profiler: &mut Profiler, harvest: &Harvest, scaled: &Vec<ScaledDeltas>)
    requires
        old(profiler).wf(),
        scaled@.len() == harvest.ticks@.len(),
    ensures
        final(profiler).wf(),
        final(profiler)@ == (ProfilerModel {
            active: match old(profiler)@.active {
                Some(session) => Some(
                    SessionModel {
                        finished_frames: gpu_spans_attached(
                            session.finished_frames,
                            harvest.frame_index,
                            spans_of(
                                harvest.ticks@,
                                scaled@,
                                old(profiler)@.calibration,
                                harvest.epoch,
                            ),
                            harvest.truncated,
                        ),
                        ..session
                    },
                ),
                None => None,
            },
            ..old(profiler)@
        }),
{
    let calibration = crate::flamegraph::capture::gpu_calibration(profiler);
    let mut spans: Vec<GpuSpan> = Vec::new();
    let mut i: usize = 0;
    while i < harvest.ticks.len()
        invariant
            scaled@.len() == harvest.ticks@.len(),
            i <= harvest.ticks@.len(),
            spans@ == spans_of(harvest.ticks@, scaled@, calibration, harvest.epoch).take(i as int),
        decreases harvest.ticks@.len() - i,
    {
        spans.push(ticks_to_span(&harvest.ticks[i].label, scaled[i], &calibration, harvest.epoch));
        i = i + 1;
    }
    assert(spans@ == spans_of(harvest.ticks@, scaled@, calibration, harvest.epoch));
    attach_gpu_spans(profiler, harvest.frame_index, spans, harvest.truncated);
}

/// Create or drop the query manager so that there is one exactly while a
/// capture that wants GPU spans is active. Returns whether it was created, and
/// its clock is therefore to be calibrated.
pub fn sync_with_active_capture(slot: &mut Option<GpuQueryManager>, profiler: &Profiler) -> (created:
    bool)
    ensures
        *final(slot) is Some <==> (profiler@.active matches Some(session) && session.capture_gpu),
        created == (*final(slot) is Some && *old(slot) is None),
        created ==> (*final(slot))->0.wf() && (*final(slot))->0@ == fresh_manager(),
        *final(slot) is Some && !created ==> *final(slot) == *old(slot),
{
    let wants_gpu: bool = capture_enabled(profiler) && active_capture_wants_gpu(profiler);
    if wants_gpu && slot.is_none() {
        *slot = Some(GpuQueryManager::new());
        return true;
    }
    if !wants_gpu && slot.is_some() {
        *slot = None;
    }
    false
}

/// A frame's readback has two more frames to complete in: they record into the
/// other generations and leave its own alone.
pub proof fn law_readback_outlives_two_frames(manager: ManagerModel, second: u64, third: u64)
    requires
        manager_wf(manager),
    ensures
        ({
            let after_one = frame_begun(manager, second);
            let after_two = frame_begun(after_one, third);
            &&& manager_wf(after_one)
            &&& manager_wf(after_two)
            &&& after_one.generations[manager.current] == current_generation(manager)
            &&& after_two.generations[manager.current] == current_generation(manager)
            &&& after_two.generations[after_one.current] == current_generation(after_one)
        }),
{
}

/// The third frame after a frame takes over its generation. A readback that
/// had not completed by then is dropped.
pub proof fn law_late_readback_is_dropped(
    manager: ManagerModel,
    second: u64,
    third: u64,
    fourth: u64,
    view: Option<Seq<u8>>,
    order: ByteOrder,
)
    requires
        manager_wf(manager),
    ensures
        ({
            let after_three = frame_begun(
                frame_begun(frame_begun(manager, second), third),
                fourth,
            );
            &&& after_three.current == manager.current
            &&& current_generation(after_three) == recording_for(
                current_generation(manager),
                fourth,
            )
            &&& harvest_of(current_generation(after_three), view, order) is None
        }),
{
}

} // verus!
