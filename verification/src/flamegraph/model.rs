//! Data model of a capture: spans, frames, clock readings.

use vstd::prelude::*;

verus! {

/// Coarse-grained category of a span, used to color and group spans without
/// parsing their names.
#[derive(Debug, Clone, Copy, PartialEq, Eq, Structural)]
pub enum SpanCategory {
    /// A whole-window draw.
    WindowFrame,
    /// An element's layout request.
    ElementRequestLayout,
    /// An element's prepaint.
    ElementPrepaint,
    /// An element's paint.
    ElementPaint,
    /// A background-executor task.
    BackgroundTask,
    /// A GPU render pass bracketed by timestamp writes.
    GpuRenderPass,
    /// The whole-encoder submit-to-present bracket.
    GpuSubmitPresent,
    /// A span opened by an embedding application.
    UserDefined,
}

/// The name of a span. Every instrumentation site names its span with
/// `Static`; `Interned` leaves room in the trace format for names built at
/// run time.
#[derive(Debug, Clone, Copy, PartialEq, Eq)]
pub enum SpanName {
    /// A name known at compile time.
    Static(&'static str),
    /// An index into a string-interning table.
    Interned(u32),
}

/// Attribution of a [`CpuSpan`] to the element that produced it.
#[derive(Debug, Clone, Copy, PartialEq)]
pub struct ElementAttribution {
    /// Rust type of the element.
    pub element_type: &'static str,
    /// Hash of the element's global id; zero when it has no stable id.
    pub global_id_hash: u64,
    /// Source file and line, when available.
    pub source_location: Option<(&'static str, u32)>,
}

/// A hash that stands for a thread's id in recorded spans.
#[derive(Debug, Clone, Copy, PartialEq, Eq, Hash)]
pub struct ThreadKey(pub u64);

/// A single completed CPU-side span.
#[derive(Debug, Clone, Copy, PartialEq)]
pub struct CpuSpan {
    /// Span name.
    pub name: SpanName,
    /// Span category.
    pub category: SpanCategory,
    /// Nesting depth: the number of spans that were open on the thread when
    /// this one was opened, at most `u16::MAX`.
    pub depth: u16,
    /// Start time in nanoseconds relative to the capture's anchor.
    pub start_ns: u64,
    /// Duration in nanoseconds, saturating at `u32::MAX`.
    pub duration_ns: u32,
    /// Which thread recorded this span.
    pub thread_id: ThreadKey,
    /// Element attribution, when this span was produced by element drawing.
    pub element: Option<ElementAttribution>,
}

/// Which of the renderer's timestamp-bracketed GPU passes a [`GpuSpan`]
/// covers.
#[derive(Debug, Clone, Copy, PartialEq, Eq, Structural)]
pub enum GpuPassKind {
    /// The main render pass.
    Main,
    /// The main render pass, resumed after a filter-group interruption.
    MainResumed,
    /// An offscreen filter-group render pass.
    FilterGroup,
    /// A filter-group pass, resumed after nested filter groups.
    FilterGroupResumed,
    /// The fast surface blit pass.
    FastSurfaceBlit,
    /// The whole-encoder submit-to-present bracket.
    SubmitPresent,
}

/// A single completed GPU-side span, resolved from a timestamp query pair.
#[derive(Debug, Clone, Copy, PartialEq)]
pub struct GpuSpan {
    /// Span name.
    pub name: SpanName,
    /// Start time in nanoseconds relative to the capture's anchor.
    pub start_ns: u64,
    /// Duration in nanoseconds.
    pub duration_ns: u32,
    /// Which pass this span covers.
    pub pass_kind: GpuPassKind,
    /// The query generation this span's query pair came from.
    pub query_set_generation: u64,
}

/// CPU/GPU clock calibration of a capture session.
#[derive(Debug, Clone, Copy, PartialEq, Eq, Structural)]
pub struct GpuClockCalibration {
    /// CPU-side anchor, in nanoseconds since the capture's anchor.
    pub cpu_anchor_ns: u64,
    /// GPU-side anchor, in raw timestamp ticks.
    pub gpu_anchor_ticks: u64,
    /// Nanoseconds per GPU timestamp tick, as the bit pattern of an IEEE 754
    /// single-precision number.
    pub ns_per_tick_bits: u32,
    /// Whether calibration actually ran.
    pub calibrated: bool,
}

impl Default for GpuClockCalibration {
    /// The calibration of a process in which no GPU capture has run.
    fn default() -> (calibration: Self)
        ensures
            calibration == uncalibrated(),
    {
        GpuClockCalibration {
            cpu_anchor_ns: 0,
            gpu_anchor_ticks: 0,
            ns_per_tick_bits: 0,
            calibrated: false,
        }
    }
}

/// The calibration before any GPU-capturing session has run: all zero.
pub open spec fn uncalibrated() -> GpuClockCalibration {
    GpuClockCalibration {
        cpu_anchor_ns: 0,
        gpu_anchor_ticks: 0,
        ns_per_tick_bits: 0,
        calibrated: false,
    }
}

/// All spans captured for one window draw cycle.
#[derive(Debug, Clone, PartialEq)]
pub struct FrameCapture {
    /// Index of the frame, unique within a capture session.
    pub frame_index: u64,
    /// Hashed id of the window this frame belongs to.
    pub window_id: u64,
    /// Spans recorded on the thread that drew this frame, in completion
    /// order.
    pub cpu_spans: Vec<CpuSpan>,
    /// Spans recorded on other threads whose `start_ns` fell within this
    /// frame's window.
    pub background_spans: Vec<CpuSpan>,
    /// GPU spans, attached after query readback.
    pub gpu_spans: Vec<GpuSpan>,
    /// Whether `gpu_spans` is done being populated.
    pub gpu_spans_finalized: bool,
    /// Set when this frame recorded more GPU passes than its query set could
    /// hold, so `gpu_spans` is incomplete.
    pub gpu_spans_truncated: bool,
    /// Frame start, in nanoseconds relative to the capture's anchor.
    pub frame_start_ns: u64,
    /// Frame end, in nanoseconds relative to the capture's anchor.
    pub frame_end_ns: u64,
}

/// What a [`FrameCapture`] holds.
#[verifier::ext_equal]
pub struct FrameModel {
    pub frame_index: u64,
    pub window_id: u64,
    pub cpu_spans: Seq<CpuSpan>,
    pub background_spans: Seq<CpuSpan>,
    pub gpu_spans: Seq<GpuSpan>,
    pub gpu_spans_finalized: bool,
    pub gpu_spans_truncated: bool,
    pub frame_start_ns: u64,
    pub frame_end_ns: u64,
}

impl View for FrameCapture {
    type V = FrameModel;

    open spec fn view(&self) -> FrameModel {
        FrameModel {
            frame_index: self.frame_index,
            window_id: self.window_id,
            cpu_spans: self.cpu_spans@,
            background_spans: self.background_spans@,
            gpu_spans: self.gpu_spans@,
            gpu_spans_finalized: self.gpu_spans_finalized,
            gpu_spans_truncated: self.gpu_spans_truncated,
            frame_start_ns: self.frame_start_ns,
            frame_end_ns: self.frame_end_ns,
        }
    }
}

/// The models of a sequence of frames.
pub open spec fn frame_models(frames: Seq<FrameCapture>) -> Seq<FrameModel> {
    frames.map_values(|frame: FrameCapture| frame@)
}

/// A reading of the process's monotonic clock, in nanoseconds since an
/// arbitrary origin that stays fixed while the process runs.
#[derive(Debug, Clone, Copy, PartialEq, Eq, Structural)]
pub struct Moment {
    /// Nanoseconds since the clock's origin.
    pub nanos: u128,
}

/// `value`, moved into `0..=limit`.
pub open spec fn clamped(value: int, limit: int) -> int {
    if value < 0 {
        0
    } else if value > limit {
        limit
    } else {
        value
    }
}

impl Moment {
    /// Nanoseconds from `earlier` to `self`: zero when `self` is not later,
    /// and at most `u64::MAX`.
    pub fn nanos_since(self, earlier: Moment) -> (ns: u64)
        ensures
            ns == clamped(self.nanos - earlier.nanos, u64::MAX as int),
    {
        let elapsed: u128 = if self.nanos > earlier.nanos {
            self.nanos - earlier.nanos
        } else {
            0
        };
        if elapsed > u64::MAX as u128 {
            u64::MAX
        } else {
            elapsed as u64
        }
    }

    /// Nanoseconds from `earlier` to `self`: zero when `self` is not later,
    /// and at most `u32::MAX`.
    pub fn short_nanos_since(self, earlier: Moment) -> (ns: u32)
        ensures
            ns == clamped(self.nanos - earlier.nanos, u32::MAX as int),
    {
        let elapsed: u64 = self.nanos_since(earlier);
        if elapsed > u32::MAX as u64 {
            u32::MAX
        } else {
            elapsed as u32
        }
    }
}

} // verus!
