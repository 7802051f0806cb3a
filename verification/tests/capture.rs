//! Capture sessions: frames, spans, recorders.

use wgpui::flamegraph::capture::{
    active_capture_anchor, active_capture_wants_gpu, attach_gpu_spans, capture_anchor,
    capture_enabled, close_frame_cpu_side, current_gpu_correlation_frame_index, gpu_calibration,
    open_frame_cpu_side, set_gpu_calibration, start_capture, Capture, CaptureHandle, Profiler,
};
use wgpui::flamegraph::model::{
    CpuSpan, ElementAttribution, FrameCapture, GpuClockCalibration, GpuPassKind, GpuSpan, Moment,
    SpanCategory, SpanName, ThreadKey,
};
use wgpui::flamegraph::recorder::{
    collect_other_thread_spans_into, drain_current_thread_spans, ThreadRecorder, ThreadRegistry,
    CPU_SPAN_BYTES, MAX_THREAD_SPANS,
};
use wgpui::flamegraph::session::{AlreadyCapturingError, CaptureOptions, CaptureState};
use wgpui::flamegraph::spans::{enter_span, CurrentThread, PendingSpan, SpanGuard, SpanStack};

const MAIN: CurrentThread = CurrentThread { thread_id: 1, key: ThreadKey(101) };

fn at(nanos: u128) -> Moment {
    Moment { nanos }
}

fn options(max_frames: usize, capture_gpu: bool) -> CaptureOptions {
    CaptureOptions { max_frames, capture_gpu }
}

fn started(max_frames: usize, capture_gpu: bool) -> (Profiler, CaptureHandle) {
    let mut profiler = Profiler::new();
    let handle = start_capture(&mut profiler, options(max_frames, capture_gpu), at(1000))
        .expect("nothing is recording yet");
    (profiler, handle)
}

fn span(number: u32, start_ns: u64) -> CpuSpan {
    CpuSpan {
        name: SpanName::Interned(number),
        category: SpanCategory::BackgroundTask,
        depth: 0,
        start_ns,
        duration_ns: 1,
        thread_id: ThreadKey(7),
        element: None,
    }
}

fn numbers(spans: &[CpuSpan]) -> Vec<u32> {
    spans
        .iter()
        .map(|span| match span.name {
            SpanName::Interned(number) => number,
            SpanName::Static(_) => unreachable!("these spans are numbered"),
        })
        .collect()
}

fn frames(capture: &Capture) -> Vec<&FrameCapture> {
    capture.frames().collect()
}

fn enter(profiler: &Profiler, stack: &mut SpanStack, name: &'static str, now: u128) -> SpanGuard {
    enter_span(profiler, stack, SpanName::Static(name), SpanCategory::WindowFrame, None, at(now))
}

#[test]
fn moments_saturate() {
    assert_eq!(at(5).nanos_since(at(2)), 3);
    assert_eq!(at(2).nanos_since(at(5)), 0);
    assert_eq!(at(u128::MAX).nanos_since(at(0)), u64::MAX);
    assert_eq!(at(u64::MAX as u128 + 7).nanos_since(at(7)), u64::MAX);
    assert_eq!(at(1 << 40).short_nanos_since(at(0)), u32::MAX);
    assert_eq!(at(90).short_nanos_since(at(20)), 70);
    assert_eq!(at(20).short_nanos_since(at(90)), 0);
}

#[test]
fn options_default_to_gpu_and_six_hundred_frames() {
    let options = CaptureOptions::default();
    assert_eq!(options.max_frames, 600);
    assert!(options.capture_gpu);
}

#[test]
fn only_one_capture_at_a_time() {
    let (mut profiler, handle) = started(4, false);
    assert!(capture_enabled(&profiler));
    assert!(handle.is_recording(&profiler));
    assert_eq!(
        start_capture(&mut profiler, options(9, true), at(5)).err(),
        Some(AlreadyCapturingError)
    );
    assert!(!active_capture_wants_gpu(&profiler), "the first capture goes on");
    assert_eq!(active_capture_anchor(&profiler), Some(at(1000)));

    let mut registry = ThreadRegistry::new();
    let capture = handle.stop(&mut profiler, at(2000), &mut registry, 1);
    assert_eq!(capture.max_frames, 4);
    assert_eq!(capture.anchor(), at(1000));
    assert!(!capture_enabled(&profiler));
    assert_eq!(capture_anchor(&profiler), None);
    assert!(start_capture(&mut profiler, options(9, true), at(3000)).is_ok());
    assert!(active_capture_wants_gpu(&profiler));
    assert_eq!(capture_anchor(&profiler), Some(at(3000)));
}

#[test]
fn nothing_is_recorded_without_a_capture() {
    let mut profiler = Profiler::new();
    let mut registry = ThreadRegistry::new();
    let mut stack = SpanStack::new();
    assert_eq!(open_frame_cpu_side(&mut profiler, 1, at(1)), None);
    close_frame_cpu_side(&mut profiler, None, at(2), &mut registry, 1);
    close_frame_cpu_side(&mut profiler, Some(0), at(2), &mut registry, 1);
    let guard = enter(&profiler, &mut stack, "idle", 3);
    assert_eq!(stack.depth(), 0);
    guard.close(&profiler, &mut stack, &mut registry, MAIN, at(4));
    assert_eq!(registry.len(), 0);
    assert_eq!(current_gpu_correlation_frame_index(&profiler), None);
    assert!(!active_capture_wants_gpu(&profiler));
}

#[test]
fn frames_are_numbered_and_timed() {
    let (mut profiler, handle) = started(8, true);
    let mut registry = ThreadRegistry::new();
    assert_eq!(current_gpu_correlation_frame_index(&profiler), None);
    let first = open_frame_cpu_side(&mut profiler, 11, at(1010));
    let second = open_frame_cpu_side(&mut profiler, 22, at(1020));
    assert_eq!((first, second), (Some(0), Some(1)));
    assert_eq!(current_gpu_correlation_frame_index(&profiler), Some(1));
    close_frame_cpu_side(&mut profiler, second, at(1050), &mut registry, 1);
    close_frame_cpu_side(&mut profiler, first, at(1090), &mut registry, 1);
    close_frame_cpu_side(&mut profiler, first, at(1999), &mut registry, 1);
    let capture = handle.stop(&mut profiler, at(2000), &mut registry, 1);
    let frames = frames(&capture);
    assert_eq!(capture.frame_count(), 2);
    assert_eq!((frames[0].frame_index, frames[0].window_id), (1, 22));
    assert_eq!((frames[0].frame_start_ns, frames[0].frame_end_ns), (20, 50));
    assert_eq!((frames[1].frame_index, frames[1].window_id), (0, 11));
    assert_eq!((frames[1].frame_start_ns, frames[1].frame_end_ns), (10, 90));
    assert!(!frames[0].gpu_spans_finalized);
    assert!(!frames[0].gpu_spans_truncated);
}

#[test]
fn the_ring_keeps_the_newest_frames() {
    let (mut profiler, handle) = started(2, false);
    let mut registry = ThreadRegistry::new();
    for number in 0..5 {
        let frame = open_frame_cpu_side(&mut profiler, number, at(1000));
        close_frame_cpu_side(&mut profiler, frame, at(1001), &mut registry, 1);
    }
    let capture = handle.stop(&mut profiler, at(2000), &mut registry, 1);
    let indices: Vec<u64> = capture.frames().map(|frame| frame.frame_index).collect();
    assert_eq!(indices, vec![3, 4]);
    assert!(capture.frames().all(|frame| frame.gpu_spans_finalized), "no GPU spans are awaited");
}

#[test]
fn a_bound_of_zero_keeps_one_frame() {
    let (mut profiler, handle) = started(0, false);
    let mut registry = ThreadRegistry::new();
    for _ in 0..2 {
        let frame = open_frame_cpu_side(&mut profiler, 1, at(1000));
        close_frame_cpu_side(&mut profiler, frame, at(1001), &mut registry, 1);
    }
    let capture = handle.stop(&mut profiler, at(2000), &mut registry, 1);
    assert_eq!(capture.max_frames, 1);
    assert_eq!(capture.frames().map(|frame| frame.frame_index).collect::<Vec<_>>(), vec![1]);
}

#[test]
fn stopping_closes_open_frames() {
    let (mut profiler, handle) = started(8, false);
    let mut registry = ThreadRegistry::new();
    for window in 0..3 {
        open_frame_cpu_side(&mut profiler, window, at(1000 + window as u128));
    }
    let capture = handle.stop(&mut profiler, at(1500), &mut registry, 1);
    let indices: Vec<u64> = capture.frames().map(|frame| frame.frame_index).collect();
    assert_eq!(indices, vec![0, 1, 2], "oldest first");
    assert!(capture.frames().all(|frame| frame.frame_end_ns == 500));
}

#[test]
fn stopping_evicts_the_oldest_open_frames() {
    let (mut profiler, handle) = started(3, false);
    let mut registry = ThreadRegistry::new();
    for window in 0..20 {
        open_frame_cpu_side(&mut profiler, window, at(1000));
    }
    close_frame_cpu_side(&mut profiler, Some(19), at(1100), &mut registry, 1);
    let capture = handle.stop(&mut profiler, at(1500), &mut registry, 1);
    let indices: Vec<u64> = capture.frames().map(|frame| frame.frame_index).collect();
    assert_eq!(indices, vec![16, 17, 18]);
}

#[test]
fn spans_nest_and_carry_their_times() {
    let (mut profiler, handle) = started(8, false);
    let mut registry = ThreadRegistry::new();
    let mut stack = SpanStack::new();
    let frame = open_frame_cpu_side(&mut profiler, 1, at(1000));
    let element = ElementAttribution {
        element_type: "Div",
        global_id_hash: 5,
        source_location: Some(("view.rs", 12)),
    };
    let outer = enter(&profiler, &mut stack, "outer", 1100);
    let inner = enter_span(
        &profiler,
        &mut stack,
        SpanName::Static("inner"),
        SpanCategory::ElementPaint,
        Some(element),
        at(1150),
    );
    assert_eq!(stack.depth(), 2);
    inner.close(&profiler, &mut stack, &mut registry, MAIN, at(1180));
    outer.close(&profiler, &mut stack, &mut registry, MAIN, at(1300));
    assert_eq!(stack.depth(), 0);
    close_frame_cpu_side(&mut profiler, frame, at(1400), &mut registry, MAIN.thread_id);
    let capture = handle.stop(&mut profiler, at(1400), &mut registry, 1);
    let spans = &frames(&capture)[0].cpu_spans;
    assert_eq!(
        spans[0],
        CpuSpan {
            name: SpanName::Static("inner"),
            category: SpanCategory::ElementPaint,
            depth: 1,
            start_ns: 150,
            duration_ns: 30,
            thread_id: ThreadKey(101),
            element: Some(element),
        }
    );
    assert_eq!((spans[1].depth, spans[1].start_ns, spans[1].duration_ns), (0, 100, 200));
    assert!(spans[1].start_ns <= spans[0].start_ns);
    assert!(
        spans[0].start_ns + spans[0].duration_ns as u64
            <= spans[1].start_ns + spans[1].duration_ns as u64
    );
}

#[test]
fn deep_stacks_leave_the_inline_storage() {
    let (profiler, _handle) = started(8, false);
    let mut registry = ThreadRegistry::new();
    let mut stack = SpanStack::new();
    let guards: Vec<SpanGuard> =
        (0..100).map(|i| enter(&profiler, &mut stack, "deep", 1000 + i)).collect();
    assert_eq!(stack.depth(), 100);
    for guard in guards {
        guard.close(&profiler, &mut stack, &mut registry, MAIN, at(2000));
    }
    assert_eq!(stack.depth(), 0);
    let spans = drain_current_thread_spans(&mut registry, MAIN.thread_id);
    let depths: Vec<u16> = spans.iter().map(|span| span.depth).collect();
    assert_eq!(depths, (0..100).rev().collect::<Vec<u16>>());
    assert_eq!(spans[0].start_ns, 99);
}

#[test]
fn a_span_that_outlives_the_capture_is_dropped() {
    let (mut profiler, handle) = started(8, false);
    let mut registry = ThreadRegistry::new();
    let mut stack = SpanStack::new();
    let guard = enter(&profiler, &mut stack, "late", 1100);
    handle.stop(&mut profiler, at(1200), &mut registry, 1);
    guard.close(&profiler, &mut stack, &mut registry, MAIN, at(1300));
    assert_eq!(stack.depth(), 0);
    assert!(drain_current_thread_spans(&mut registry, MAIN.thread_id).is_empty());
}

#[test]
fn a_guard_on_an_empty_stack_closes_nothing() {
    let (profiler, _handle) = started(8, false);
    let mut registry = ThreadRegistry::new();
    let mut stack = SpanStack::new();
    let guard = enter(&profiler, &mut stack, "gone", 1100);
    let mut other = SpanStack::new();
    guard.close(&profiler, &mut other, &mut registry, MAIN, at(1300));
    assert_eq!(stack.depth(), 1);
    assert_eq!(registry.len(), 0);
}

#[test]
fn background_spans_go_to_the_frame_they_started_in() {
    let (mut profiler, handle) = started(8, false);
    let mut registry = ThreadRegistry::new();
    let first = open_frame_cpu_side(&mut profiler, 1, at(1100));
    registry.record(1, span(1, 0));
    registry.record(2, span(2, 99));
    registry.record(2, span(3, 100));
    registry.record(3, span(4, 199));
    registry.record(3, span(5, 200));
    close_frame_cpu_side(&mut profiler, first, at(1200), &mut registry, 1);
    let second = open_frame_cpu_side(&mut profiler, 1, at(1200));
    registry.record(2, span(6, 210));
    close_frame_cpu_side(&mut profiler, second, at(1300), &mut registry, 1);
    let capture = handle.stop(&mut profiler, at(2000), &mut registry, 1);
    let frames = frames(&capture);
    assert_eq!(numbers(&frames[0].cpu_spans), vec![1]);
    assert_eq!(numbers(&frames[0].background_spans), vec![3, 4]);
    assert!(frames[1].cpu_spans.is_empty());
    assert_eq!(numbers(&frames[1].background_spans), vec![5, 6]);
    assert!(drain_current_thread_spans(&mut registry, 2).is_empty());
}

#[test]
fn spans_of_one_close_are_in_the_frame_or_pending() {
    let mut state = CaptureState::new(options(8, false), at(0));
    let mut registry = ThreadRegistry::new();
    for number in 0..6 {
        registry.record(2 + number as u64 % 3, span(number, number as u64 * 10));
    }
    let frame = state.open_frame(1, at(20));
    state.close_frame(frame, at(40), &mut registry, 1);
    let wide = state.open_frame(1, at(0));
    state.close_frame(wide, at(1000), &mut registry, 1);
    let finished = state.into_finished_frames();
    let mut claimed = numbers(&finished[0].background_spans);
    assert_eq!(claimed, vec![3, 2], "thread by thread");
    claimed.extend(numbers(&finished[1].background_spans));
    claimed.sort();
    assert_eq!(claimed, vec![0, 1, 2, 3, 4, 5]);
}

#[test]
fn gpu_spans_reach_their_frame_only() {
    let (mut profiler, handle) = started(2, true);
    let mut registry = ThreadRegistry::new();
    for _ in 0..3 {
        let frame = open_frame_cpu_side(&mut profiler, 1, at(1000));
        close_frame_cpu_side(&mut profiler, frame, at(1001), &mut registry, 1);
    }
    let gpu_span = GpuSpan {
        name: SpanName::Static("main"),
        start_ns: 3,
        duration_ns: 4,
        pass_kind: GpuPassKind::Main,
        query_set_generation: 1,
    };
    attach_gpu_spans(&mut profiler, 2, vec![gpu_span], true);
    attach_gpu_spans(&mut profiler, 0, vec![gpu_span], true);
    let capture = handle.stop(&mut profiler, at(2000), &mut registry, 1);
    let frames = frames(&capture);
    assert_eq!(frames[0].frame_index, 1);
    assert!(frames[0].gpu_spans.is_empty());
    assert!(!frames[0].gpu_spans_finalized);
    assert_eq!(frames[1].gpu_spans, vec![gpu_span]);
    assert!(frames[1].gpu_spans_finalized);
    assert!(frames[1].gpu_spans_truncated);
}

#[test]
fn attaching_without_a_capture_changes_nothing() {
    let mut profiler = Profiler::new();
    attach_gpu_spans(&mut profiler, 0, Vec::new(), false);
    assert!(!capture_enabled(&profiler));
}

#[test]
fn the_calibration_is_kept() {
    let mut profiler = Profiler::new();
    assert_eq!(gpu_calibration(&profiler), GpuClockCalibration::default());
    assert!(!gpu_calibration(&profiler).calibrated);
    let calibration = GpuClockCalibration {
        cpu_anchor_ns: 1,
        gpu_anchor_ticks: 2,
        ns_per_tick_bits: 1.5f32.to_bits(),
        calibrated: true,
    };
    set_gpu_calibration(&mut profiler, calibration);
    assert_eq!(gpu_calibration(&profiler), calibration);
}

#[test]
fn a_full_thread_buffer_drops_its_oldest_spans() {
    let mut recorder = ThreadRecorder::new(4);
    assert_eq!(recorder.thread_id(), 4);
    let total = MAX_THREAD_SPANS as u32 + 3;
    for number in 0..total {
        recorder.record(span(number, 0));
    }
    let mut spans = vec![span(u32::MAX, 0)];
    recorder.drain_into(&mut spans);
    assert_eq!(spans.len(), MAX_THREAD_SPANS + 1);
    assert_eq!(numbers(&spans[..2]), vec![u32::MAX, 3]);
    assert_eq!(numbers(&spans[MAX_THREAD_SPANS..]), vec![total - 1]);
    let mut again = Vec::new();
    recorder.drain_into(&mut again);
    assert!(again.is_empty());
}

#[test]
fn buffer_sizes_follow_from_the_span_sizes() {
    assert_eq!(std::mem::size_of::<CpuSpan>(), CPU_SPAN_BYTES);
    assert_eq!(MAX_THREAD_SPANS, 2 * 1024 * 1024 / std::mem::size_of::<CpuSpan>());
    assert!(std::mem::size_of::<PendingSpan>() < 128);
}

#[test]
fn threads_have_one_recorder_each() {
    let mut registry = ThreadRegistry::new();
    assert_eq!(registry.register_thread_recorder(5), 0);
    assert_eq!(registry.register_thread_recorder(6), 1);
    assert_eq!(registry.register_thread_recorder(5), 0);
    registry.record(5, span(1, 0));
    registry.record(6, span(2, 0));
    registry.record(7, span(3, 0));
    assert_eq!(registry.len(), 3);
    registry.unregister_thread_recorder(5);
    registry.unregister_thread_recorder(8);
    assert_eq!(registry.len(), 2);
    assert_eq!(registry.register_thread_recorder(7), 0, "the last recorder took its place");
    let mut pending = vec![span(9, 0)];
    collect_other_thread_spans_into(&mut registry, 6, &mut pending);
    assert_eq!(numbers(&pending), vec![9, 3]);
    assert_eq!(numbers(&drain_current_thread_spans(&mut registry, 6)), vec![2]);
    assert!(drain_current_thread_spans(&mut registry, 6).is_empty());
}

#[test]
fn a_session_numbers_its_frames() {
    let mut state = CaptureState::new(options(3, true), at(10));
    assert_eq!(state.last_opened_frame_index(), None);
    assert_eq!(state.now_ns(at(25)), 15);
    assert_eq!(state.open_frame(1, at(20)), 0);
    assert_eq!(state.open_frame(1, at(20)), 1);
    assert_eq!(state.last_opened_frame_index(), Some(1));
    assert_eq!((state.anchor(), state.max_frames(), state.capture_gpu()), (at(10), 3, true));
    let mut registry = ThreadRegistry::new();
    state.finalize_open_frames(at(30), &mut registry, 1);
    assert_eq!(state.into_finished_frames().len(), 2);
}
