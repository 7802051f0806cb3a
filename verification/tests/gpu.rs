//! GPU timestamp queries.

use wgpui::byte_order::ByteOrder;
use wgpui::flamegraph::capture::{
    close_frame_cpu_side, gpu_calibration, open_frame_cpu_side, start_capture, CaptureHandle,
    Profiler,
};
use wgpui::flamegraph::model::{GpuClockCalibration, GpuPassKind, GpuSpan, Moment, SpanName};
use wgpui::flamegraph::recorder::ThreadRegistry;
use wgpui::flamegraph::session::CaptureOptions;
use wgpui::flamegraph_gpu::generation::{
    QueryGeneration, MAX_GPU_SPANS_PER_FRAME, QUERIES_PER_FRAME, QUERY_BUFFER_BYTES,
};
use wgpui::flamegraph_gpu::manager::{
    attach_harvest, sync_with_active_capture, GpuQueryManager, GENERATION_COUNT,
};
use wgpui::flamegraph_gpu::ticks::{
    begin_calibration, finish_calibration, read_u64, tick_deltas, ticks_to_span, PendingSpanLabel,
    ScaledDeltas, SpanTicks, TickDeltas,
};

const LITTLE: ByteOrder = ByteOrder::Little;

fn at(nanos: u128) -> Moment {
    Moment { nanos }
}

fn timestamps(values: &[u64]) -> Vec<u8> {
    values.iter().flat_map(|value| value.to_le_bytes()).collect()
}

fn recording(capture_gpu: bool) -> (Profiler, CaptureHandle) {
    let mut profiler = Profiler::new();
    let options = CaptureOptions { max_frames: 8, capture_gpu };
    let handle = start_capture(&mut profiler, options, at(1000)).ok().unwrap();
    (profiler, handle)
}

const CALIBRATION: GpuClockCalibration = GpuClockCalibration {
    cpu_anchor_ns: 100,
    gpu_anchor_ticks: 50,
    ns_per_tick_bits: 0x3f80_0000,
    calibrated: true,
};

const LABEL: PendingSpanLabel = PendingSpanLabel {
    name: SpanName::Static("main"),
    pass_kind: GpuPassKind::Main,
    begin_query: 0,
    end_query: 1,
};

#[test]
fn sizes_agree() {
    assert_eq!(QUERIES_PER_FRAME as usize, 2 * MAX_GPU_SPANS_PER_FRAME);
    assert_eq!(QUERY_BUFFER_BYTES, QUERIES_PER_FRAME as u64 * 8);
    assert_eq!(GENERATION_COUNT, 3);
}

#[test]
fn timestamps_are_read_where_the_buffer_reaches() {
    let view = timestamps(&[1, 0x0102_0304_0506_0708]);
    assert_eq!(read_u64(&view, 0, LITTLE), Some(1));
    assert_eq!(read_u64(&view, 1, LITTLE), Some(0x0102_0304_0506_0708));
    assert_eq!(read_u64(&view, 2, LITTLE), None);
    assert_eq!(read_u64(&view[..15], 1, LITTLE), None);
    assert_eq!(read_u64(&view[1..], 0, LITTLE), Some(0x0800_0000_0000_0000));
    assert_eq!(read_u64(&view, u32::MAX, LITTLE), None);
}

#[test]
fn timestamps_are_in_the_byte_order_of_the_machine() {
    let view = timestamps(&[0x0102_0304_0506_0708]);
    assert_eq!(read_u64(&view, 0, ByteOrder::Big), Some(0x0807_0605_0403_0201));
    let native = 77u64.to_ne_bytes();
    let machine = if 1u16.to_ne_bytes() == [1, 0] { LITTLE } else { ByteOrder::Big };
    assert_eq!(read_u64(&native, 0, machine), Some(77));
}

#[test]
fn ticks_that_run_backwards_count_as_none() {
    let ticks = SpanTicks { label: LABEL, begin_ticks: 70, end_ticks: 95 };
    assert_eq!(
        tick_deltas(&ticks, &CALIBRATION),
        TickDeltas { duration_ticks: 25, ticks_from_anchor: 20 }
    );
    let backwards = SpanTicks { label: LABEL, begin_ticks: 30, end_ticks: 10 };
    assert_eq!(
        tick_deltas(&backwards, &CALIBRATION),
        TickDeltas { duration_ticks: 0, ticks_from_anchor: 0 }
    );
}

#[test]
fn spans_start_after_the_anchor() {
    let scaled = ScaledDeltas { duration_ns: 25, offset_ns: 20 };
    assert_eq!(
        ticks_to_span(&LABEL, scaled, &CALIBRATION, 6),
        GpuSpan {
            name: SpanName::Static("main"),
            start_ns: 120,
            duration_ns: 25,
            pass_kind: GpuPassKind::Main,
            query_set_generation: 6,
        }
    );
    let at_anchor = ScaledDeltas { duration_ns: 1, offset_ns: 0 };
    assert_eq!(ticks_to_span(&LABEL, at_anchor, &CALIBRATION, 6).start_ns, 100);
    let far = ScaledDeltas { duration_ns: 1, offset_ns: u64::MAX };
    assert_eq!(ticks_to_span(&LABEL, far, &CALIBRATION, 6).start_ns, u64::MAX);
    let uncalibrated = ticks_to_span(&LABEL, scaled, &GpuClockCalibration::default(), 6);
    assert_eq!((uncalibrated.start_ns, uncalibrated.duration_ns), (0, 0));
    assert_eq!(uncalibrated.query_set_generation, 6);
}

#[test]
fn a_generation_grants_pairs_until_its_budget_is_used_up() {
    let mut generation = QueryGeneration::new();
    assert_eq!(generation.reserve_pair(LABEL.name, LABEL.pass_kind), None, "not recording");
    generation.reset_for_frame(4);
    for number in 0..MAX_GPU_SPANS_PER_FRAME as u32 {
        assert_eq!(
            generation.reserve_pair(LABEL.name, LABEL.pass_kind),
            Some((2 * number, 2 * number + 1))
        );
    }
    assert_eq!(generation.reserve_pair(LABEL.name, LABEL.pass_kind), None, "no more pairs");
    assert_eq!(generation.resolve(), Some(QUERIES_PER_FRAME));
    assert_eq!(generation.resolve(), None, "already resolved");
    assert_eq!(generation.begin_readback(), Some(QUERY_BUFFER_BYTES));
    assert_eq!(generation.begin_readback(), None, "already begun");
    assert!(generation.try_harvest(None, LITTLE).is_none(), "not mapped yet");
    generation.map_completed(true);
    assert_eq!(generation.harvest_size(), Some(QUERY_BUFFER_BYTES));
    let view = timestamps(&(0..32).collect::<Vec<u64>>());
    let harvest = generation.try_harvest(Some(&view), LITTLE).unwrap();
    assert_eq!((harvest.frame_index, harvest.epoch, harvest.truncated), (4, 1, true));
    assert_eq!(harvest.ticks.len(), 16);
    assert_eq!((harvest.ticks[15].begin_ticks, harvest.ticks[15].end_ticks), (30, 31));
    assert!(generation.try_harvest(Some(&view), LITTLE).is_none(), "idle again");
    assert_eq!(generation.harvest_size(), None);
}

#[test]
fn a_frame_without_pairs_is_not_read_back() {
    let mut generation = QueryGeneration::new();
    generation.reset_for_frame(0);
    assert_eq!(generation.resolve(), None);
    assert_eq!(generation.begin_readback(), None);
}

#[test]
fn a_short_or_unreadable_buffer_yields_fewer_spans() {
    let mut generation = QueryGeneration::new();
    for view in [Some(timestamps(&[5, 6, 7])), None] {
        generation.reset_for_frame(0);
        generation.reserve_pair(LABEL.name, LABEL.pass_kind);
        generation.reserve_pair(SpanName::Interned(2), GpuPassKind::FilterGroup);
        generation.resolve();
        generation.begin_readback();
        generation.map_completed(true);
        let harvest = generation.try_harvest(view.as_deref(), LITTLE).unwrap();
        assert_eq!(harvest.ticks.len(), if view.is_some() { 1 } else { 0 });
        assert!(!harvest.truncated);
    }
}

#[test]
fn a_failed_readback_waits_for_the_next_frame() {
    let mut generation = QueryGeneration::new();
    generation.reset_for_frame(0);
    generation.reserve_pair(LABEL.name, LABEL.pass_kind);
    generation.resolve();
    generation.begin_readback();
    generation.map_completed(false);
    assert_eq!(generation.harvest_size(), None);
    assert!(generation.try_harvest(None, LITTLE).is_none());
    generation.reset_for_frame(1);
    assert_eq!(generation.reserve_pair(LABEL.name, LABEL.pass_kind), Some((0, 1)));
}

fn read_back_one_pair(manager: &mut GpuQueryManager, frame_index: u64) -> usize {
    assert!(manager.can_begin_frame());
    manager.begin_frame(frame_index);
    let reserved = manager.reserve_pair(LABEL.name, LABEL.pass_kind).unwrap();
    assert_eq!((reserved.begin_index(), reserved.end_index()), (0, 1));
    assert_eq!(reserved.generation, manager.current());
    assert_eq!(manager.finish_frame(), Some(2));
    assert_eq!(manager.begin_readback(), Some(16));
    reserved.generation
}

#[test]
fn generations_are_used_in_turn() {
    let mut manager = GpuQueryManager::new();
    assert!(manager.reserve_pair(LABEL.name, LABEL.pass_kind).is_none());
    let used: Vec<usize> = (0..4).map(|frame| read_back_one_pair(&mut manager, frame)).collect();
    assert_eq!(used, vec![1, 2, 0, 1]);
    for generation in 0..GENERATION_COUNT {
        manager.map_completed(generation, true);
        assert_eq!(manager.harvest_size(generation), Some(16));
    }
    let views = vec![
        Some(timestamps(&[20, 21])),
        Some(timestamps(&[30, 31])),
        Some(timestamps(&[10, 11])),
    ];
    let harvests = manager.poll_readback(&views, LITTLE);
    let frames: Vec<(u64, u64)> =
        harvests.iter().map(|harvest| (harvest.frame_index, harvest.ticks[0].begin_ticks)).collect();
    assert_eq!(frames, vec![(2, 20), (3, 30), (1, 10)], "the first frame was taken over");
    assert!(manager.poll_readback(&views, LITTLE).is_empty());
}

#[test]
fn a_readback_outlives_the_two_frames_after_it() {
    let mut manager = GpuQueryManager::new();
    let generation = read_back_one_pair(&mut manager, 7);
    manager.begin_frame(8);
    manager.begin_frame(9);
    manager.map_completed(generation, true);
    let harvests = manager.poll_readback(&vec![None, Some(timestamps(&[1, 2])), None], LITTLE);
    assert_eq!(harvests.len(), 1);
    assert_eq!(harvests[0].frame_index, 7);
}

#[test]
fn harvests_reach_their_frame() {
    let (mut profiler, handle) = recording(true);
    let mut registry = ThreadRegistry::new();
    let frame = open_frame_cpu_side(&mut profiler, 1, at(1010));
    close_frame_cpu_side(&mut profiler, frame, at(1020), &mut registry, 1);
    finish_calibration(&mut profiler, 100, Some(&timestamps(&[50])), LITTLE, 0x3f80_0000);
    assert_eq!(gpu_calibration(&profiler), CALIBRATION);

    let mut manager = GpuQueryManager::new();
    let generation = read_back_one_pair(&mut manager, frame.unwrap());
    manager.map_completed(generation, true);
    let harvests = manager.poll_readback(&vec![None, Some(timestamps(&[70, 95])), None], LITTLE);
    let scaled = vec![ScaledDeltas { duration_ns: 25, offset_ns: 20 }];
    attach_harvest(&mut profiler, &harvests[0], &scaled);
    let capture = handle.stop(&mut profiler, at(1100), &mut registry, 1);
    let frame = capture.frames().next().unwrap();
    assert!(frame.gpu_spans_finalized);
    assert_eq!(frame.gpu_spans, vec![ticks_to_span(&LABEL, scaled[0], &CALIBRATION, 1)]);
}

#[test]
fn calibration_needs_a_capture_and_a_timestamp() {
    let mut profiler = Profiler::new();
    assert_eq!(begin_calibration(&profiler, at(5)), None);
    finish_calibration(&mut profiler, 1, None, LITTLE, 2);
    finish_calibration(&mut profiler, 1, Some(&[1, 2, 3]), LITTLE, 2);
    assert_eq!(gpu_calibration(&profiler), GpuClockCalibration::default());
    let (profiler, _handle) = recording(true);
    assert_eq!(begin_calibration(&profiler, at(1234)), Some(234));
}

#[test]
fn there_is_a_manager_exactly_while_gpu_spans_are_wanted() {
    let mut slot = None;
    let idle = Profiler::new();
    assert!(!sync_with_active_capture(&mut slot, &idle));
    assert!(slot.is_none());
    let (profiler, _handle) = recording(true);
    assert!(sync_with_active_capture(&mut slot, &profiler));
    slot.as_mut().unwrap().begin_frame(3);
    assert!(!sync_with_active_capture(&mut slot, &profiler));
    assert_eq!(slot.as_ref().unwrap().current(), 1, "the manager stays");
    let (cpu_only, _handle) = recording(false);
    assert!(!sync_with_active_capture(&mut slot, &cpu_only));
    assert!(slot.is_none());
}
