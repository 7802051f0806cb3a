//! Timestamp ticks: reading them out of a mapped buffer, and turning them into
//! spans.

use crate::byte_order::{in_order, ordered, ByteOrder};
use crate::flamegraph::capture::{capture_anchor, set_gpu_calibration, Profiler, ProfilerModel};
use crate::flamegraph::model::{
    clamped, GpuClockCalibration, GpuPassKind, GpuSpan, Moment, SpanName,
};
use crate::flamegraph::session::session_ns;
use vstd::bytes::spec_u64_from_le_bytes;
use vstd::prelude::*;
use vstd::slice::slice_subrange;

verus! {

/// `bytemuck::pod_read_unaligned` copies eight bytes into a `u64`, in the
/// machine's byte order; read as little-endian, that is the number whose
/// little-endian bytes they are. It panics on any other length.
#[verifier::external_body]
fn pod_read_u64(bytes: &[u8]) -> (value: u64)
    requires
        bytes@.len() == 8,
    ensures
        value == spec_u64_from_le_bytes(bytes@),
{
    u64::from_le(bytemuck::pod_read_unaligned(bytes))
}

/// The timestamp at `index` in a buffer of timestamps, if the buffer reaches
/// that far. The device wrote it in the byte order `order`.
pub open spec fn timestamp_at(view: Seq<u8>, index: int, order: ByteOrder) -> Option<u64> {
    if index * 8 + 8 <= view.len() {
        Some(spec_u64_from_le_bytes(ordered(view.subrange(index * 8, index * 8 + 8), order)))
    } else {
        None
    }
}

/// The timestamp at `index` in a mapped buffer of timestamps, if the buffer
/// reaches that far. The device wrote it in the byte order `order`.
pub fn read_u64(view: &[u8], index: u32, order: ByteOrder) -> (value: Option<u64>)
    requires
        index * 8 > usize::MAX || index * 8 + 8 <= usize::MAX,
    ensures
        value == timestamp_at(view@, index as int, order),
{
    let length: usize = view.len();
    match (index as usize).checked_mul(8) {
        Some(offset) => {
            if offset + 8 <= length {
                let bytes = slice_subrange(view, offset, offset + 8);
                Some(pod_read_u64(in_order(bytes, order).as_slice()))
            } else {
                None
            }
        },
        None => None,
    }
}

/// A reserved query pair, and what it measures.
#[derive(Debug, Clone, Copy)]
pub struct PendingSpanLabel {
    /// Span name.
    pub name: SpanName,
    /// Which pass the pair brackets.
    pub pass_kind: GpuPassKind,
    /// Query written at the beginning of the pass.
    pub begin_query: u32,
    /// Query written at the end of the pass.
    pub end_query: u32,
}

/// The timestamps read back for a label.
#[derive(Debug, Clone, Copy)]
pub struct SpanTicks {
    /// The label.
    pub label: PendingSpanLabel,
    /// Timestamp at the beginning of the pass.
    pub begin_ticks: u64,
    /// Timestamp at the end of the pass.
    pub end_ticks: u64,
}

/// Tick counts to scale by the clock's period.
#[derive(Debug, Clone, Copy, PartialEq, Eq, Structural)]
pub struct TickDeltas {
    /// Ticks from the beginning to the end of the pass.
    pub duration_ticks: u64,
    /// Ticks from the calibration's anchor to the beginning of the pass.
    pub ticks_from_anchor: u64,
}

/// Tick counts in nanoseconds.
#[derive(Debug, Clone, Copy, PartialEq, Eq, Structural)]
pub struct ScaledDeltas {
    /// The pass's duration.
    pub duration_ns: u32,
    /// Nanoseconds from the calibration's anchor to the beginning of the pass.
    pub offset_ns: u64,
}

/// The tick counts that a span's times are computed from. Ticks that run
/// backwards count as none.
pub fn tick_deltas(ticks: &SpanTicks, calibration: &GpuClockCalibration) -> (deltas: TickDeltas)
    ensures
        deltas.duration_ticks == clamped(ticks.end_ticks - ticks.begin_ticks, u64::MAX as int),
        deltas.ticks_from_anchor == clamped(
            ticks.begin_ticks - calibration.gpu_anchor_ticks,
            u64::MAX as int,
        ),
{
    TickDeltas {
        duration_ticks: ticks.end_ticks.saturating_sub(ticks.begin_ticks),
        ticks_from_anchor: ticks.begin_ticks.saturating_sub(calibration.gpu_anchor_ticks),
    }
}

/// The span of a label whose tick counts were scaled to nanoseconds. Without a
/// calibrated clock the span has neither a start nor a duration.
pub open spec fn span_of(
    label: PendingSpanLabel,
    scaled: ScaledDeltas,
    calibration: GpuClockCalibration,
    epoch: u64,
) -> GpuSpan {
    GpuSpan {
        name: label.name,
        start_ns: if calibration.calibrated {
            clamped(calibration.cpu_anchor_ns + scaled.offset_ns, u64::MAX as int) as u64
        } else {
            0
        },
        duration_ns: if calibration.calibrated {
            scaled.duration_ns
        } else {
            0
        },
        pass_kind: label.pass_kind,
        query_set_generation: epoch,
    }
}

/// The span of a label whose tick counts were scaled to nanoseconds.
pub fn ticks_to_span(
    label: &PendingSpanLabel,
    scaled: ScaledDeltas,
    calibration: &GpuClockCalibration,
    epoch: u64,
) -> (span: GpuSpan)
    ensures
        span == span_of(*label, scaled, *calibration, epoch),
{
    if !calibration.calibrated {
        return GpuSpan {
            name: label.name,
            start_ns: 0,
            duration_ns: 0,
            pass_kind: label.pass_kind,
            query_set_generation: epoch,
        };
    }
    GpuSpan {
        name: label.name,
        start_ns: calibration.cpu_anchor_ns.saturating_add(scaled.offset_ns),
        duration_ns: scaled.duration_ns,
        pass_kind: label.pass_kind,
        query_set_generation: epoch,
    }
}

/// Calibrated spans lie on the timeline of the CPU spans: none starts before
/// the calibration's CPU anchor, one at the GPU anchor starts right there, and
/// one that begins later does not start earlier.
pub proof fn law_gpu_spans_follow_the_anchor(
    label: PendingSpanLabel,
    first: ScaledDeltas,
    second: ScaledDeltas,
    calibration: GpuClockCalibration,
    epoch: u64,
)
    requires
        calibration.calibrated,
        first.offset_ns <= second.offset_ns,
    ensures
        ({
            let first_start = span_of(label, first, calibration, epoch).start_ns;
            let second_start = span_of(label, second, calibration, epoch).start_ns;
            &&& calibration.cpu_anchor_ns <= first_start <= second_start
            &&& first.offset_ns == 0 ==> first_start == calibration.cpu_anchor_ns
        }),
{
}

/// Begin a CPU/GPU clock calibration at `now`: the CPU-side anchor, or `None`
/// when there is no capture to calibrate for.
pub fn begin_calibration(profiler: &Profiler, now: Moment) -> (cpu_anchor_ns: Option<u64>)
    ensures
        cpu_anchor_ns == match profiler@.active {
            Some(session) => Some(session_ns(session, now)),
            None => None,
        },
{
    match capture_anchor(profiler) {
        Some(anchor) => Some(now.nanos_since(anchor)),
        None => None,
    }
}

/// The calibration that a readback yields, if it holds a timestamp.
pub open spec fn calibration_of(
    cpu_anchor_ns: u64,
    view: Option<Seq<u8>>,
    order: ByteOrder,
    ns_per_tick_bits: u32,
) -> Option<GpuClockCalibration> {
    match view {
        Some(bytes) => match timestamp_at(bytes, 0, order) {
            Some(gpu_anchor_ticks) => Some(
                GpuClockCalibration {
                    cpu_anchor_ns,
                    gpu_anchor_ticks,
                    ns_per_tick_bits,
                    calibrated: true,
                },
            ),
            None => None,
        },
        None => None,
    }
}

/// Finish a calibration with the timestamps that were read back, or with
/// `None` when the readback failed. Without a timestamp the calibration stays
/// what it was.
pub fn finish_calibration(
    profiler: &mut Profiler,
    cpu_anchor_ns: u64,
    view: Option<&[u8]>,
    order: ByteOrder,
    ns_per_tick_bits: u32,
)
    requires
        old(profiler).wf(),
    ensures
        final(profiler).wf(),
        final(profiler)@ == (ProfilerModel {
            calibration: match calibration_of(
                cpu_anchor_ns,
                match view {
                    Some(bytes) => Some(bytes@),
                    None => None,
                },
                order,
                ns_per_tick_bits,
            ) {
                Some(calibration) => calibration,
                None => old(profiler)@.calibration,
            },
            ..old(profiler)@
        }),
{
    let ticks: Option<u64> = match view {
        Some(bytes) => read_u64(bytes, 0, order),
        None => None,
    };
    if let Some(gpu_anchor_ticks) = ticks {
        set_gpu_calibration(
            profiler,
            GpuClockCalibration {
                cpu_anchor_ns,
                gpu_anchor_ticks,
                ns_per_tick_bits,
                calibrated: true,
            },
        );
    }
}

} // verus!
