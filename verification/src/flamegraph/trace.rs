//! Binary trace format of a capture: an 8-byte magic, a format version, a
//! fixed header, then one length-prefixed chunk per frame. The header is in the
//! byte order of the machine that writes it; the version and the length
//! prefixes are little-endian.

use crate::byte_order::{in_order, law_ordering_undoes_itself, ordered, ByteOrder};
use crate::flamegraph::capture::Capture;
use crate::flamegraph::model::{
    clamped, CpuSpan, ElementAttribution, FrameCapture, FrameModel, GpuClockCalibration,
    GpuPassKind, GpuSpan, Moment, SpanCategory, SpanName,
};
use vstd::bytes::{
    spec_u32_from_le_bytes, spec_u32_to_le_bytes, spec_u64_from_le_bytes, spec_u64_to_le_bytes,
    u32_to_le_bytes, u64_to_le_bytes,
};
use vstd::prelude::*;

verus! {

/// The bytes every trace begins with: `WGPUIFLG`.
pub const TRACE_MAGIC: [u8; 8] = [0x57, 0x47, 0x50, 0x55, 0x49, 0x46, 0x4c, 0x47];

/// Version of the trace format.
pub const TRACE_FORMAT_VERSION: u32 = 1;

/// Clock source of CPU timestamps: the process's monotonic clock.
pub const CPU_CLOCK_SOURCE_STD_INSTANT: u32 = 0;

/// Fixed-size trace header, 56 bytes once the sixteen reserved ones are
/// added.
#[derive(Debug, Clone, Copy, PartialEq, Eq, Structural)]
pub struct TraceHeader {
    /// Wall-clock time of the capture's anchor, in nanoseconds since the Unix
    /// epoch.
    pub anchor_unix_nanos: u64,
    /// CPU anchor of the GPU clock calibration.
    pub gpu_cpu_anchor_ns: u64,
    /// GPU anchor of the GPU clock calibration.
    pub gpu_anchor_ticks: u64,
    /// Number of frame chunks that follow.
    pub frame_count: u32,
    /// Clock source of CPU timestamps.
    pub cpu_clock_source: u32,
    /// Nanoseconds per GPU tick, as the bit pattern of a single-precision
    /// number.
    pub gpu_ns_per_tick_bits: u32,
    /// One when the GPU clock was calibrated, else zero.
    pub gpu_calibrated: u32,
}

/// Why a capture could not be exported.
#[derive(Debug)]
pub enum TraceError {
    /// The encoder reported an error, which it does not do for frames.
    Encode(bincode::error::EncodeError),
    /// A frame's encoding does not fit its 32-bit length prefix.
    FrameTooLarge,
}

/// The encoding error of the `bincode` crate.
#[verifier::external_type_specification]
#[verifier::external_body]
pub struct ExEncodeError(bincode::error::EncodeError);

/// A span name as it is serialized: a variant number, then the payload.
pub type WireName = Result<&'static str, u32>;

/// An element attribution as it is serialized.
pub type WireElement = (&'static str, u64, Option<(&'static str, u32)>);

/// A CPU span as it is serialized: name, category, depth, start, duration,
/// thread, element.
pub type WireSpan = (WireName, u32, u16, u64, u32, u64, Option<WireElement>);

/// A GPU span as it is serialized: name, start, duration, pass kind,
/// generation.
pub type WireGpuSpan = (WireName, u64, u32, u32, u64);

/// A frame as it is serialized, field by field.
pub type WireFrame = (
    u64,
    u64,
    Vec<WireSpan>,
    Vec<WireSpan>,
    Vec<WireGpuSpan>,
    bool,
    bool,
    u64,
    u64,
);

/// What a [`WireFrame`] holds.
pub type WireFrameModel = (
    u64,
    u64,
    Seq<WireSpan>,
    Seq<WireSpan>,
    Seq<WireGpuSpan>,
    bool,
    bool,
    u64,
    u64,
);

/// What a [`WireFrame`] holds.
pub open spec fn wire_frame_view(frame: WireFrame) -> WireFrameModel {
    (
        frame.0,
        frame.1,
        frame.2@,
        frame.3@,
        frame.4@,
        frame.5,
        frame.6,
        frame.7,
        frame.8,
    )
}

/// The bytes that `bincode` encodes a frame to in its standard configuration.
pub uninterp spec fn bincode_frame_bytes(frame: WireFrameModel) -> Seq<u8>;

/// The frame that `bincode` decodes from bytes in its standard configuration,
/// or `None` where it reports an error.
pub uninterp spec fn bincode_frame_value(bytes: Seq<u8>) -> Option<WireFrameModel>;

/// `bincode::serde::encode_to_vec` in the standard configuration is a function
/// of the value it encodes; its bytes are [`bincode_frame_bytes`]. It reports
/// no error here: a vector takes every write, and each sequence in a frame says
/// how long it is. `bincode::serde::decode_from_slice` in the same configuration
/// reads the value back from the bytes.
#[verifier::external_body]
fn bincode_encode_to_vec(frame: &WireFrame) -> (encoded: Result<
    Vec<u8>,
    bincode::error::EncodeError,
>)
    ensures
        encoded is Ok,
        encoded->Ok_0@ == bincode_frame_bytes(wire_frame_view(*frame)),
        bincode_frame_value(encoded->Ok_0@) == Some(wire_frame_view(*frame)),
{
    bincode::serde::encode_to_vec(frame, bincode::config::standard())
}

/// A category's variant number.
pub open spec fn category_number(category: SpanCategory) -> u32 {
    match category {
        SpanCategory::WindowFrame => 0,
        SpanCategory::ElementRequestLayout => 1,
        SpanCategory::ElementPrepaint => 2,
        SpanCategory::ElementPaint => 3,
        SpanCategory::BackgroundTask => 4,
        SpanCategory::GpuRenderPass => 5,
        SpanCategory::GpuSubmitPresent => 6,
        SpanCategory::UserDefined => 7,
    }
}

/// A pass kind's variant number.
pub open spec fn pass_kind_number(kind: GpuPassKind) -> u32 {
    match kind {
        GpuPassKind::Main => 0,
        GpuPassKind::MainResumed => 1,
        GpuPassKind::FilterGroup => 2,
        GpuPassKind::FilterGroupResumed => 3,
        GpuPassKind::FastSurfaceBlit => 4,
        GpuPassKind::SubmitPresent => 5,
    }
}

/// A span name in its serialized form.
pub open spec fn name_to_wire(name: SpanName) -> WireName {
    match name {
        SpanName::Static(text) => Ok(text),
        SpanName::Interned(index) => Err(index),
    }
}

/// An element attribution in its serialized form.
pub open spec fn element_to_wire(element: Option<ElementAttribution>) -> Option<WireElement> {
    match element {
        Some(element) => Some(
            (element.element_type, element.global_id_hash, element.source_location),
        ),
        None => None,
    }
}

/// A CPU span in its serialized form.
pub open spec fn span_to_wire(span: CpuSpan) -> WireSpan {
    (
        name_to_wire(span.name),
        category_number(span.category),
        span.depth,
        span.start_ns,
        span.duration_ns,
        span.thread_id.0,
        element_to_wire(span.element),
    )
}

/// A GPU span in its serialized form.
pub open spec fn gpu_span_to_wire(span: GpuSpan) -> WireGpuSpan {
    (
        name_to_wire(span.name),
        span.start_ns,
        span.duration_ns,
        pass_kind_number(span.pass_kind),
        span.query_set_generation,
    )
}

/// A frame in its serialized form.
pub open spec fn frame_to_wire(frame: FrameModel) -> WireFrameModel {
    (
        frame.frame_index,
        frame.window_id,
        frame.cpu_spans.map_values(|span: CpuSpan| span_to_wire(span)),
        frame.background_spans.map_values(|span: CpuSpan| span_to_wire(span)),
        frame.gpu_spans.map_values(|span: GpuSpan| gpu_span_to_wire(span)),
        frame.gpu_spans_finalized,
        frame.gpu_spans_truncated,
        frame.frame_start_ns,
        frame.frame_end_ns,
    )
}

/// The bytes a frame is encoded to.
pub open spec fn frame_bytes(frame: FrameModel) -> Seq<u8> {
    bincode_frame_bytes(frame_to_wire(frame))
}

/// Whether decoding a frame's bytes gives the frame back.
pub open spec fn decodes_back(frame: FrameModel) -> bool {
    bincode_frame_value(frame_bytes(frame)) == Some(frame_to_wire(frame))
}

fn wire_name(name: SpanName) -> (wire: WireName)
    ensures
        wire == name_to_wire(name),
{
    match name {
        SpanName::Static(text) => Ok(text),
        SpanName::Interned(index) => Err(index),
    }
}

fn wire_category(category: SpanCategory) -> (number: u32)
    ensures
        number == category_number(category),
{
    match category {
        SpanCategory::WindowFrame => 0,
        SpanCategory::ElementRequestLayout => 1,
        SpanCategory::ElementPrepaint => 2,
        SpanCategory::ElementPaint => 3,
        SpanCategory::BackgroundTask => 4,
        SpanCategory::GpuRenderPass => 5,
        SpanCategory::GpuSubmitPresent => 6,
        SpanCategory::UserDefined => 7,
    }
}

fn wire_pass_kind(kind: GpuPassKind) -> (number: u32)
    ensures
        number == pass_kind_number(kind),
{
    match kind {
        GpuPassKind::Main => 0,
        GpuPassKind::MainResumed => 1,
        GpuPassKind::FilterGroup => 2,
        GpuPassKind::FilterGroupResumed => 3,
        GpuPassKind::FastSurfaceBlit => 4,
        GpuPassKind::SubmitPresent => 5,
    }
}

fn wire_spans(spans: &Vec<CpuSpan>) -> (wire: Vec<WireSpan>)
    ensures
        wire@ == spans@.map_values(|span: CpuSpan| span_to_wire(span)),
{
    let mut wire: Vec<WireSpan> = Vec::new();
    let mut i: usize = 0;
    while i < spans.len()
        invariant
            i <= spans@.len(),
            wire@ == spans@.take(i as int).map_values(|span: CpuSpan| span_to_wire(span)),
        decreases spans@.len() - i,
    {
        let span: CpuSpan = spans[i];
        let element: Option<WireElement> = match span.element {
            Some(element) => Some(
                (element.element_type, element.global_id_hash, element.source_location),
            ),
            None => None,
        };
        wire.push(
            (
                wire_name(span.name),
                wire_category(span.category),
                span.depth,
                span.start_ns,
                span.duration_ns,
                span.thread_id.0,
                element,
            ),
        );
        i = i + 1;
    }
    wire
}

fn wire_gpu_spans(spans: &Vec<GpuSpan>) -> (wire: Vec<WireGpuSpan>)
    ensures
        wire@ == spans@.map_values(|span: GpuSpan| gpu_span_to_wire(span)),
{
    let mut wire: Vec<WireGpuSpan> = Vec::new();
    let mut i: usize = 0;
    while i < spans.len()
        invariant
            i <= spans@.len(),
            wire@ == spans@.take(i as int).map_values(|span: GpuSpan| gpu_span_to_wire(span)),
        decreases spans@.len() - i,
    {
        let span: GpuSpan = spans[i];
        wire.push(
            (
                wire_name(span.name),
                span.start_ns,
                span.duration_ns,
                wire_pass_kind(span.pass_kind),
                span.query_set_generation,
            ),
        );
        i = i + 1;
    }
    wire
}

/// Encode one frame. Every frame can be encoded.
pub fn encode_frame(frame: &FrameCapture) -> (encoded: Result<Vec<u8>, TraceError>)
    ensures
        encoded matches Ok(bytes) && bytes@ == frame_bytes(frame@),
        decodes_back(frame@),
{
    let wire: WireFrame = (
        frame.frame_index,
        frame.window_id,
        wire_spans(&frame.cpu_spans),
        wire_spans(&frame.background_spans),
        wire_gpu_spans(&frame.gpu_spans),
        frame.gpu_spans_finalized,
        frame.gpu_spans_truncated,
        frame.frame_start_ns,
        frame.frame_end_ns,
    );
    match bincode_encode_to_vec(&wire) {
        Ok(bytes) => Ok(bytes),
        Err(error) => Err(TraceError::Encode(error)),
    }
}

/// Wall-clock time of a capture's anchor, in nanoseconds since the Unix epoch:
/// zero when that is before the epoch, and at most `u64::MAX`.
pub fn anchor_unix_nanos(anchor: Moment, now: Moment, now_unix_nanos: u128) -> (nanos: u64)
    ensures
        nanos == anchor_unix_nanos_of(anchor, now, now_unix_nanos as int),
{
    let elapsed: u128 = if now.nanos > anchor.nanos {
        now.nanos - anchor.nanos
    } else {
        0
    };
    let since_epoch: u128 = if now_unix_nanos > elapsed {
        now_unix_nanos - elapsed
    } else {
        0
    };
    if since_epoch > u64::MAX as u128 {
        u64::MAX
    } else {
        since_epoch as u64
    }
}

/// The wall-clock time `now_unix_nanos`, moved back by the time that passed
/// from `anchor` to `now`, within what a `u64` holds.
pub open spec fn anchor_unix_nanos_of(anchor: Moment, now: Moment, now_unix_nanos: int) -> u64 {
    let elapsed = if now.nanos > anchor.nanos {
        now.nanos - anchor.nanos
    } else {
        0
    };
    clamped(now_unix_nanos - elapsed, u64::MAX as int) as u64
}

/// The header of a trace with `frame_count` frames. The count is kept modulo
/// two to the 32nd.
pub open spec fn header_for(
    anchor_unix_nanos: u64,
    calibration: GpuClockCalibration,
    frame_count: nat,
) -> TraceHeader {
    TraceHeader {
        anchor_unix_nanos,
        gpu_cpu_anchor_ns: calibration.cpu_anchor_ns,
        gpu_anchor_ticks: calibration.gpu_anchor_ticks,
        frame_count: (frame_count % 0x1_0000_0000) as u32,
        cpu_clock_source: CPU_CLOCK_SOURCE_STD_INSTANT,
        gpu_ns_per_tick_bits: calibration.ns_per_tick_bits,
        gpu_calibrated: if calibration.calibrated {
            1
        } else {
            0
        },
    }
}

/// A header's bytes: its fields, one after the other and each in the byte order
/// `order`, then sixteen reserved zeros.
pub open spec fn header_bytes(header: TraceHeader, order: ByteOrder) -> Seq<u8> {
    ordered(spec_u64_to_le_bytes(header.anchor_unix_nanos), order) + ordered(
        spec_u64_to_le_bytes(header.gpu_cpu_anchor_ns),
        order,
    ) + ordered(spec_u64_to_le_bytes(header.gpu_anchor_ticks), order) + ordered(
        spec_u32_to_le_bytes(header.frame_count),
        order,
    ) + ordered(spec_u32_to_le_bytes(header.cpu_clock_source), order) + ordered(
        spec_u32_to_le_bytes(header.gpu_ns_per_tick_bits),
        order,
    ) + ordered(spec_u32_to_le_bytes(header.gpu_calibrated), order) + Seq::new(16, |i: int| 0u8)
}

/// What stands before a trace's first chunk.
pub open spec fn preamble_bytes(header: TraceHeader, order: ByteOrder) -> Seq<u8> {
    TRACE_MAGIC@ + spec_u32_to_le_bytes(TRACE_FORMAT_VERSION) + header_bytes(header, order)
}

/// A chunk: the payload's length, then the payload.
pub open spec fn chunk_bytes(payload: Seq<u8>) -> Seq<u8> {
    spec_u32_to_le_bytes(payload.len() as u32) + payload
}

/// Chunk after chunk.
pub open spec fn chunks_bytes(payloads: Seq<Seq<u8>>) -> Seq<u8>
    decreases payloads.len(),
{
    if payloads.len() == 0 {
        Seq::empty()
    } else {
        chunks_bytes(payloads.drop_last()) + chunk_bytes(payloads.last())
    }
}

/// Whether a payload's length fits its prefix.
pub open spec fn fits_prefix(payload: Seq<u8>) -> bool {
    payload.len() <= u32::MAX
}

/// Whether a frame can be written as a chunk.
pub open spec fn writable(frame: FrameModel) -> bool {
    fits_prefix(frame_bytes(frame))
}

/// The payloads of frames that can be written.
pub open spec fn payloads_of(frames: Seq<FrameModel>) -> Seq<Seq<u8>> {
    frames.map_values(|frame: FrameModel| frame_bytes(frame))
}

/// The trace of `frames` under `header`, written in the byte order `order`.
pub open spec fn trace_bytes(
    header: TraceHeader,
    order: ByteOrder,
    frames: Seq<FrameModel>,
) -> Seq<u8> {
    preamble_bytes(header, order) + chunks_bytes(payloads_of(frames))
}

/// Append a trace's magic, version and header to `writer`.
pub fn write_preamble(header: &TraceHeader, order: ByteOrder, writer: &mut Vec<u8>)
    ensures
        final(writer)@ == old(writer)@ + preamble_bytes(*header, order),
{
    let magic: [u8; 8] = TRACE_MAGIC;
    writer.extend_from_slice(magic.as_slice());
    writer.extend_from_slice(u32_to_le_bytes(TRACE_FORMAT_VERSION).as_slice());
    write_u64(header.anchor_unix_nanos, order, writer);
    write_u64(header.gpu_cpu_anchor_ns, order, writer);
    write_u64(header.gpu_anchor_ticks, order, writer);
    write_u32(header.frame_count, order, writer);
    write_u32(header.cpu_clock_source, order, writer);
    write_u32(header.gpu_ns_per_tick_bits, order, writer);
    write_u32(header.gpu_calibrated, order, writer);
    let reserved: [u8; 16] = [0u8; 16];
    writer.extend_from_slice(reserved.as_slice());
    assert(writer@ == old(writer)@ + preamble_bytes(*header, order));
}

fn write_u64(value: u64, order: ByteOrder, writer: &mut Vec<u8>)
    ensures
        final(writer)@ == old(writer)@ + ordered(spec_u64_to_le_bytes(value), order),
{
    writer.extend_from_slice(in_order(u64_to_le_bytes(value).as_slice(), order).as_slice());
}

fn write_u32(value: u32, order: ByteOrder, writer: &mut Vec<u8>)
    ensures
        final(writer)@ == old(writer)@ + ordered(spec_u32_to_le_bytes(value), order),
{
    writer.extend_from_slice(in_order(u32_to_le_bytes(value).as_slice(), order).as_slice());
}

/// The prefix of a payload of `length` bytes, if one can hold it.
pub fn length_prefix(length: usize) -> (prefix: Result<u32, TraceError>)
    ensures
        match prefix {
            Ok(prefix) => prefix == length,
            Err(error) => length > u32::MAX && error is FrameTooLarge,
        },
{
    if length as u64 > u32::MAX as u64 {
        return Err(TraceError::FrameTooLarge);
    }
    Ok(length as u32)
}

/// Append one encoded frame to `writer`, behind its length. A payload whose
/// length does not fit the prefix is refused and nothing is appended.
pub fn write_chunk(payload: &Vec<u8>, writer: &mut Vec<u8>) -> (result: Result<(), TraceError>)
    ensures
        match result {
            Ok(_) => fits_prefix(payload@) && final(writer)@ == old(writer)@ + chunk_bytes(
                payload@,
            ),
            Err(error) => !fits_prefix(payload@) && error is FrameTooLarge && final(writer)@
                == old(writer)@,
        },
{
    let prefix: u32 = match length_prefix(payload.len()) {
        Ok(prefix) => prefix,
        Err(error) => {
            return Err(error);
        },
    };
    writer.extend_from_slice(u32_to_le_bytes(prefix).as_slice());
    writer.extend_from_slice(payload.as_slice());
    assert(writer@ == old(writer)@ + chunk_bytes(payload@));
    Ok(())
}

impl Capture {
    /// The header of this capture's trace.
    pub fn trace_header(
        &self,
        now: Moment,
        now_unix_nanos: u128,
        calibration: &GpuClockCalibration,
    ) -> (header: TraceHeader)
        ensures
            header == header_for(
                anchor_unix_nanos_of(self@.anchor, now, now_unix_nanos as int),
                *calibration,
                self@.frames.len(),
            ),
    {
        let count: usize = self.frame_count();
        let frame_count: u32 = (count as u64 % 0x1_0000_0000) as u32;
        TraceHeader {
            anchor_unix_nanos: anchor_unix_nanos(self.anchor(), now, now_unix_nanos),
            gpu_cpu_anchor_ns: calibration.cpu_anchor_ns,
            gpu_anchor_ticks: calibration.gpu_anchor_ticks,
            frame_count,
            cpu_clock_source: CPU_CLOCK_SOURCE_STD_INSTANT,
            gpu_ns_per_tick_bits: calibration.ns_per_tick_bits,
            gpu_calibrated: if calibration.calibrated {
                1
            } else {
                0
            },
        }
    }

    /// Append this capture's trace to `writer`. `now` and `now_unix_nanos` are
    /// the same moment on the monotonic and on the wall clock, `order` is the
    /// machine's byte order. Only a frame whose encoding is too long for its
    /// prefix cannot be written; the trace then ends in front of it.
    pub fn export_trace(
        &self,
        now: Moment,
        now_unix_nanos: u128,
        calibration: &GpuClockCalibration,
        order: ByteOrder,
        writer: &mut Vec<u8>,
    ) -> (result: Result<(), TraceError>)
        ensures
            result is Ok <==> forall|i: int|
                0 <= i < self@.frames.len() ==> writable(#[trigger] self@.frames[i]),
            result is Ok ==> forall|i: int|
                0 <= i < self@.frames.len() ==> decodes_back(#[trigger] self@.frames[i]),
            ({
                let header = header_for(
                    anchor_unix_nanos_of(self@.anchor, now, now_unix_nanos as int),
                    *calibration,
                    self@.frames.len(),
                );
                match result {
                    Ok(_) => final(writer)@ == old(writer)@ + trace_bytes(
                        header,
                        order,
                        self@.frames,
                    ),
                    Err(error) => error is FrameTooLarge && exists|n: int| #[trigger]
                        stops_at(self@.frames, n) && final(writer)@ == old(writer)@ + trace_bytes(
                            header,
                            order,
                            self@.frames.take(n),
                        ),
                }
            }),
    {
        let header = self.trace_header(now, now_unix_nanos, calibration);
        write_preamble(&header, order, writer);
        let ghost frames = self@.frames;
        let count: usize = self.frame_count();
        let mut i: usize = 0;
        assert(frames.take(0) == Seq::<FrameModel>::empty());
        while i < count
            invariant
                frames == self@.frames,
                count == frames.len(),
                i <= count,
                forall|j: int| 0 <= j < i ==> writable(#[trigger] frames[j]),
                forall|j: int| 0 <= j < i ==> decodes_back(#[trigger] frames[j]),
                writer@ == old(writer)@ + trace_bytes(header, order, frames.take(i as int)),
                header == header_for(
                    anchor_unix_nanos_of(self@.anchor, now, now_unix_nanos as int),
                    *calibration,
                    self@.frames.len(),
                ),
            decreases count - i,
        {
            let encoded = match encode_frame(self.frame_at(i)) {
                Ok(encoded) => encoded,
                Err(error) => {
                    return Err(error);
                },
            };
            match write_chunk(&encoded, writer) {
                Ok(_) => {},
                Err(error) => {
                    assert(stops_at(frames, i as int));
                    return Err(error);
                },
            }
            proof {
                let payloads = payloads_of(frames.take(i + 1));
                assert(payloads.drop_last() == payloads_of(frames.take(i as int)));
                assert(payloads.last() == encoded@);
                assert(writer@ == old(writer)@ + trace_bytes(header, order, frames.take(i + 1)));
            }
            i = i + 1;
        }
        assert(frames.take(count as int) == frames);
        Ok(())
    }
}

/// Whether exporting `frames` fails at frame `n`: it is the first that cannot be
/// written.
pub open spec fn stops_at(frames: Seq<FrameModel>, n: int) -> bool {
    &&& 0 <= n < frames.len()
    &&& forall|j: int| 0 <= j < n ==> writable(#[trigger] frames[j])
    &&& !writable(frames[n])
}

/// The header that 56 bytes hold in the byte order `order`.
pub open spec fn parsed_header(bytes: Seq<u8>, order: ByteOrder) -> TraceHeader {
    TraceHeader {
        anchor_unix_nanos: spec_u64_from_le_bytes(ordered(bytes.subrange(0, 8), order)),
        gpu_cpu_anchor_ns: spec_u64_from_le_bytes(ordered(bytes.subrange(8, 16), order)),
        gpu_anchor_ticks: spec_u64_from_le_bytes(ordered(bytes.subrange(16, 24), order)),
        frame_count: spec_u32_from_le_bytes(ordered(bytes.subrange(24, 28), order)),
        cpu_clock_source: spec_u32_from_le_bytes(ordered(bytes.subrange(28, 32), order)),
        gpu_ns_per_tick_bits: spec_u32_from_le_bytes(ordered(bytes.subrange(32, 36), order)),
        gpu_calibrated: spec_u32_from_le_bytes(ordered(bytes.subrange(36, 40), order)),
    }
}

/// The payloads of the first `count` chunks, or `None` where the bytes end
/// before them.
pub open spec fn parsed_chunks(bytes: Seq<u8>, count: nat) -> Option<Seq<Seq<u8>>>
    decreases count,
{
    if count == 0 {
        Some(Seq::empty())
    } else if bytes.len() < 4 {
        None
    } else {
        let length = spec_u32_from_le_bytes(bytes.take(4)) as int;
        if bytes.len() < 4 + length {
            None
        } else {
            match parsed_chunks(bytes.skip(4 + length), (count - 1) as nat) {
                Some(rest) => Some(seq![bytes.subrange(4, 4 + length)] + rest),
                None => None,
            }
        }
    }
}

/// What a reader finds in a trace: its header, and the payloads of as many
/// chunks as the header announces. `None` where the magic or the version is
/// another, or the bytes end too early.
pub open spec fn parsed_trace(bytes: Seq<u8>, order: ByteOrder) -> Option<
    (TraceHeader, Seq<Seq<u8>>),
> {
    if bytes.len() < 68 || bytes.take(8) != TRACE_MAGIC@ || spec_u32_from_le_bytes(
        bytes.subrange(8, 12),
    ) != TRACE_FORMAT_VERSION {
        None
    } else {
        let header = parsed_header(bytes.subrange(12, 68), order);
        match parsed_chunks(bytes.skip(68), header.frame_count as nat) {
            Some(payloads) => Some((header, payloads)),
            None => None,
        }
    }
}

/// The first chunk comes first.
proof fn lemma_chunks_front(payloads: Seq<Seq<u8>>)
    requires
        payloads.len() > 0,
    ensures
        chunks_bytes(payloads) == chunk_bytes(payloads[0]) + chunks_bytes(payloads.skip(1)),
    decreases payloads.len(),
{
    if payloads.len() == 1 {
        assert(payloads.drop_last().len() == 0);
        assert(payloads.skip(1).len() == 0);
        assert(chunks_bytes(payloads.drop_last()) == Seq::<u8>::empty());
        assert(chunks_bytes(payloads.skip(1)) == Seq::<u8>::empty());
    } else {
        lemma_chunks_front(payloads.drop_last());
        assert(payloads.drop_last().skip(1) == payloads.skip(1).drop_last());
        assert(payloads.skip(1).last() == payloads.last());
    }
}

/// Parsing chunks gives back their payloads.
proof fn lemma_chunks_round_trip(payloads: Seq<Seq<u8>>)
    requires
        forall|i: int| 0 <= i < payloads.len() ==> fits_prefix(#[trigger] payloads[i]),
    ensures
        parsed_chunks(chunks_bytes(payloads), payloads.len()) == Some(payloads),
    decreases payloads.len(),
{
    if payloads.len() == 0 {
        assert(payloads == Seq::<Seq<u8>>::empty());
    } else {
        let first = payloads[0];
        let rest = payloads.skip(1);
        let bytes = chunks_bytes(payloads);
        vstd::bytes::lemma_auto_spec_u32_to_from_le_bytes();
        lemma_chunks_front(payloads);
        assert forall|i: int| 0 <= i < rest.len() implies fits_prefix(#[trigger] rest[i]) by {
            assert(rest[i] == payloads[i + 1]);
        }
        lemma_chunks_round_trip(rest);
        assert(fits_prefix(first));
        assert(bytes.take(4) == spec_u32_to_le_bytes(first.len() as u32));
        assert(bytes.skip(4int + first.len()) == chunks_bytes(rest));
        assert(bytes.subrange(4, 4int + first.len()) == first);
        assert(seq![first] + rest == payloads);
    }
}

/// Parsing a header gives back its fields.
proof fn lemma_header_round_trip(header: TraceHeader, order: ByteOrder)
    ensures
        header_bytes(header, order).len() == 56,
        parsed_header(header_bytes(header, order), order) == header,
{
    vstd::bytes::lemma_auto_spec_u32_to_from_le_bytes();
    vstd::bytes::lemma_auto_spec_u64_to_from_le_bytes();
    let bytes = header_bytes(header, order);
    law_ordering_undoes_itself(spec_u64_to_le_bytes(header.anchor_unix_nanos), order);
    law_ordering_undoes_itself(spec_u64_to_le_bytes(header.gpu_cpu_anchor_ns), order);
    law_ordering_undoes_itself(spec_u64_to_le_bytes(header.gpu_anchor_ticks), order);
    law_ordering_undoes_itself(spec_u32_to_le_bytes(header.frame_count), order);
    law_ordering_undoes_itself(spec_u32_to_le_bytes(header.cpu_clock_source), order);
    law_ordering_undoes_itself(spec_u32_to_le_bytes(header.gpu_ns_per_tick_bits), order);
    law_ordering_undoes_itself(spec_u32_to_le_bytes(header.gpu_calibrated), order);
    assert(bytes.subrange(0, 8) == ordered(
        spec_u64_to_le_bytes(header.anchor_unix_nanos),
        order,
    ));
    assert(bytes.subrange(8, 16) == ordered(
        spec_u64_to_le_bytes(header.gpu_cpu_anchor_ns),
        order,
    ));
    assert(bytes.subrange(16, 24) == ordered(
        spec_u64_to_le_bytes(header.gpu_anchor_ticks),
        order,
    ));
    assert(bytes.subrange(24, 28) == ordered(
        spec_u32_to_le_bytes(header.frame_count),
        order,
    ));
    assert(bytes.subrange(28, 32) == ordered(
        spec_u32_to_le_bytes(header.cpu_clock_source),
        order,
    ));
    assert(bytes.subrange(32, 36) == ordered(
        spec_u32_to_le_bytes(header.gpu_ns_per_tick_bits),
        order,
    ));
    assert(bytes.subrange(36, 40) == ordered(
        spec_u32_to_le_bytes(header.gpu_calibrated),
        order,
    ));
}

/// Reading a trace gives back what was written: the header, and every frame's
/// encoding in order. This holds of every trace whose frame count fits the
/// header.
pub proof fn law_trace_round_trip(
    anchor_unix_nanos: u64,
    calibration: GpuClockCalibration,
    order: ByteOrder,
    frames: Seq<FrameModel>,
)
    requires
        forall|i: int| 0 <= i < frames.len() ==> writable(#[trigger] frames[i]),
        frames.len() <= u32::MAX,
    ensures
        ({
            let header = header_for(anchor_unix_nanos, calibration, frames.len());
            parsed_trace(trace_bytes(header, order, frames), order) == Some((header, payloads_of(frames)))
        }),
{
    let header = header_for(anchor_unix_nanos, calibration, frames.len());
    let bytes = trace_bytes(header, order, frames);
    let payloads = payloads_of(frames);
    vstd::bytes::lemma_auto_spec_u32_to_from_le_bytes();
    lemma_header_round_trip(header, order);
    assert(header.frame_count == frames.len());
    assert(bytes.take(8) == TRACE_MAGIC@);
    assert(bytes.subrange(8, 12) == spec_u32_to_le_bytes(TRACE_FORMAT_VERSION));
    assert(bytes.subrange(12, 68) == header_bytes(header, order));
    assert(bytes.skip(68) == chunks_bytes(payloads));
    assert forall|i: int| 0 <= i < payloads.len() implies fits_prefix(#[trigger] payloads[i]) by {
        assert(writable(frames[i]));
    }
    lemma_chunks_round_trip(payloads);
}

/// A trace is streaming-friendly: the bytes of the frames written so far do
/// not change when more frames follow them.
pub proof fn law_trace_streams(
    header: TraceHeader,
    order: ByteOrder,
    frames: Seq<FrameModel>,
    n: int,
)
    requires
        0 <= n <= frames.len(),
    ensures
        trace_bytes(header, order, frames.take(n)).is_prefix_of(trace_bytes(header, order, frames)),
    decreases frames.len() - n,
{
    if n == frames.len() {
        assert(frames.take(n) == frames);
    } else {
        law_trace_streams(header, order, frames, n + 1);
        let longer = payloads_of(frames.take(n + 1));
        assert(longer.drop_last() == payloads_of(frames.take(n)));
        let shorter_bytes = trace_bytes(header, order, frames.take(n));
        assert(trace_bytes(header, order, frames.take(n + 1)) == shorter_bytes + chunk_bytes(
            longer.last(),
        ));
    }
}

/// Frames decoded from payloads, or `None` where one cannot be decoded.
pub open spec fn decoded_frames(payloads: Seq<Seq<u8>>) -> Option<Seq<WireFrameModel>> {
    if forall|i: int|
        0 <= i < payloads.len() ==> bincode_frame_value(#[trigger] payloads[i]) is Some {
        Some(payloads.map_values(|payload: Seq<u8>| bincode_frame_value(payload)->0))
    } else {
        None
    }
}

/// What a reader that decodes the chunks finds in a trace.
pub open spec fn read_trace(bytes: Seq<u8>, order: ByteOrder) -> Option<
    (TraceHeader, Seq<WireFrameModel>),
> {
    match parsed_trace(bytes, order) {
        Some((header, payloads)) => match decoded_frames(payloads) {
            Some(frames) => Some((header, frames)),
            None => None,
        },
        None => None,
    }
}

/// Reading and decoding a trace gives back the header and every frame, in its
/// serialized form. [`Capture::export_trace`] promises what this asks of the
/// frames whenever it succeeds.
pub proof fn law_trace_gives_back_frames(
    anchor_unix_nanos: u64,
    calibration: GpuClockCalibration,
    order: ByteOrder,
    frames: Seq<FrameModel>,
)
    requires
        forall|i: int| 0 <= i < frames.len() ==> writable(#[trigger] frames[i]),
        forall|i: int| 0 <= i < frames.len() ==> decodes_back(#[trigger] frames[i]),
        frames.len() <= u32::MAX,
    ensures
        ({
            let header = header_for(anchor_unix_nanos, calibration, frames.len());
            read_trace(trace_bytes(header, order, frames), order) == Some(
                (header, frames.map_values(|frame: FrameModel| frame_to_wire(frame))),
            )
        }),
{
    law_trace_round_trip(anchor_unix_nanos, calibration, order, frames);
    let payloads = payloads_of(frames);
    assert forall|i: int| 0 <= i < payloads.len() implies bincode_frame_value(
        #[trigger] payloads[i],
    ) == Some(frame_to_wire(frames[i])) by {
        assert(decodes_back(frames[i]));
    }
    assert(payloads.map_values(|payload: Seq<u8>| bincode_frame_value(payload)->0)
        == frames.map_values(|frame: FrameModel| frame_to_wire(frame)));
}

/// The serialized form leaves nothing out: frames with the same serialized form
/// are the same.
pub proof fn law_wire_form_is_faithful(first: FrameModel, second: FrameModel)
    requires
        frame_to_wire(first) == frame_to_wire(second),
    ensures
        first == second,
{
    lemma_wire_spans_faithful(first.cpu_spans, second.cpu_spans);
    lemma_wire_spans_faithful(first.background_spans, second.background_spans);
    let wire = |span: GpuSpan| gpu_span_to_wire(span);
    assert(first.gpu_spans.map_values(wire) == second.gpu_spans.map_values(wire));
    assert(first.gpu_spans.len() == first.gpu_spans.map_values(wire).len());
    assert(second.gpu_spans.len() == second.gpu_spans.map_values(wire).len());
    assert forall|i: int| 0 <= i < first.gpu_spans.len() implies first.gpu_spans[i]
        == second.gpu_spans[i] by {
        assert(first.gpu_spans.map_values(wire)[i] == gpu_span_to_wire(first.gpu_spans[i]));
        assert(second.gpu_spans.map_values(wire)[i] == gpu_span_to_wire(second.gpu_spans[i]));
    }
    assert(first.gpu_spans == second.gpu_spans);
}

/// CPU spans with the same serialized form are the same.
proof fn lemma_wire_spans_faithful(first: Seq<CpuSpan>, second: Seq<CpuSpan>)
    requires
        first.map_values(|span: CpuSpan| span_to_wire(span)) == second.map_values(
            |span: CpuSpan| span_to_wire(span),
        ),
    ensures
        first == second,
{
    let wire = |span: CpuSpan| span_to_wire(span);
    assert(first.len() == first.map_values(wire).len());
    assert(second.len() == second.map_values(wire).len());
    assert forall|i: int| 0 <= i < first.len() implies first[i] == second[i] by {
        assert(first.map_values(wire)[i] == span_to_wire(first[i]));
        assert(second.map_values(wire)[i] == span_to_wire(second[i]));
    }
    assert(first == second);
}

} // verus!
