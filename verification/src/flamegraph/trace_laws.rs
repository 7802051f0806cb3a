//! What exporting a trace promises, byte by byte and field by field.

use crate::byte_order::{in_order, law_ordering_undoes_itself, ByteOrder};
use crate::flamegraph::capture::Capture;
use crate::flamegraph::model::{
    CpuSpan, FrameCapture, FrameModel, GpuClockCalibration, GpuPassKind, GpuSpan, Moment,
    SpanCategory, SpanName,
};
use crate::flamegraph::trace::{
    anchor_unix_nanos, bincode_frame_bytes, category_number, chunk_bytes, chunks_bytes,
    element_to_wire, encode_frame, frame_bytes, frame_to_wire, gpu_span_to_wire, length_prefix,
    name_to_wire, pass_kind_number, payloads_of, preamble_bytes, span_to_wire, stops_at,
    trace_bytes, writable, write_chunk, write_preamble, TraceError, TraceHeader,
};
use vstd::bytes::{spec_u32_to_le_bytes, spec_u64_to_le_bytes};
use vstd::prelude::*;

verus! {

/// The wall-clock time of a capture's anchor, moved on by the time that passed
/// since, is the wall-clock time now. Times before the epoch count as the
/// epoch, and times beyond 64 bits as the last that they hold.
pub proof fn law_anchor_on_the_wall_clock(
    anchor: Moment,
    now: Moment,
    now_unix_nanos: u128,
    nanos: u64,
)
    requires
        call_ensures(anchor_unix_nanos, (anchor, now, now_unix_nanos), nanos),
        anchor.nanos <= now.nanos,
    ensures
        0 <= now_unix_nanos - (now.nanos - anchor.nanos) <= u64::MAX ==> nanos + (now.nanos
            - anchor.nanos) == now_unix_nanos,
        now_unix_nanos <= now.nanos - anchor.nanos ==> nanos == 0,
        now_unix_nanos - (now.nanos - anchor.nanos) >= u64::MAX ==> nanos == u64::MAX,
{
}

/// A capture's anchor does not depend on when the capture is exported.
pub proof fn law_anchor_does_not_move(
    anchor: Moment,
    now: Moment,
    now_unix_nanos: u128,
    nanos: u64,
    later: Moment,
    later_unix_nanos: u128,
    later_nanos: u64,
)
    requires
        call_ensures(anchor_unix_nanos, (anchor, now, now_unix_nanos), nanos),
        call_ensures(anchor_unix_nanos, (anchor, later, later_unix_nanos), later_nanos),
        anchor.nanos <= now.nanos <= later.nanos,
        later_unix_nanos - now_unix_nanos == later.nanos - now.nanos,
    ensures
        nanos == later_nanos,
{
}

/// A moment that is not after the anchor is taken for the anchor.
pub proof fn law_anchor_in_the_future(
    anchor: Moment,
    now: Moment,
    now_unix_nanos: u128,
    nanos: u64,
)
    requires
        call_ensures(anchor_unix_nanos, (anchor, now, now_unix_nanos), nanos),
        now.nanos <= anchor.nanos,
    ensures
        now_unix_nanos <= u64::MAX ==> nanos == now_unix_nanos,
        now_unix_nanos >= u64::MAX ==> nanos == u64::MAX,
{
}

/// A trace's header tells the anchor on the wall clock, the calibration, and how
/// many frames follow, as far as 32 bits hold that.
pub proof fn law_header(
    capture: &Capture,
    now: Moment,
    now_unix_nanos: u128,
    calibration: &GpuClockCalibration,
    header: TraceHeader,
)
    requires
        call_ensures(
            Capture::trace_header,
            (capture, now, now_unix_nanos, calibration),
            header,
        ),
    ensures
        capture@.anchor.nanos <= now.nanos && 0 <= now_unix_nanos - (now.nanos
            - capture@.anchor.nanos) <= u64::MAX ==> header.anchor_unix_nanos + (now.nanos
            - capture@.anchor.nanos) == now_unix_nanos,
        header.gpu_cpu_anchor_ns == calibration.cpu_anchor_ns,
        header.gpu_anchor_ticks == calibration.gpu_anchor_ticks,
        header.gpu_ns_per_tick_bits == calibration.ns_per_tick_bits,
        header.gpu_calibrated == 1 <==> calibration.calibrated,
        header.gpu_calibrated == 0 <==> !calibration.calibrated,
        header.cpu_clock_source == 0,
        capture@.frames.len() <= u32::MAX ==> header.frame_count == capture@.frames.len(),
        exists|wraps: int|
            #![trigger wraps * 0x1_0000_0000]
            header.frame_count + wraps * 0x1_0000_0000 == capture@.frames.len(),
{
    let count = capture@.frames.len() as int;
    assert(header.frame_count + (count / 0x1_0000_0000) * 0x1_0000_0000 == count);
}

/// Where a preamble's parts stand: eight bytes of magic, the version, then the
/// header's fields in the machine's byte order, and reserved zeros.
pub proof fn law_preamble_layout(header: &TraceHeader, order: ByteOrder, writer: &mut Vec<u8>)
    requires
        call_ensures(write_preamble, (header, order, writer), ()),
    ensures
        final(writer)@.len() == old(writer)@.len() + 68,
        final(writer)@.take(old(writer)@.len() as int) == old(writer)@,
        ({
            let bytes = final(writer)@.skip(old(writer)@.len() as int);
            &&& bytes.subrange(0, 8) == seq![0x57u8, 0x47, 0x50, 0x55, 0x49, 0x46, 0x4c, 0x47]
            &&& bytes.subrange(8, 12) == spec_u32_to_le_bytes(1)
            &&& holds_u64(bytes.subrange(12, 20), header.anchor_unix_nanos, order)
            &&& holds_u64(bytes.subrange(20, 28), header.gpu_cpu_anchor_ns, order)
            &&& holds_u64(bytes.subrange(28, 36), header.gpu_anchor_ticks, order)
            &&& holds_u32(bytes.subrange(36, 40), header.frame_count, order)
            &&& holds_u32(bytes.subrange(40, 44), header.cpu_clock_source, order)
            &&& holds_u32(bytes.subrange(44, 48), header.gpu_ns_per_tick_bits, order)
            &&& holds_u32(bytes.subrange(48, 52), header.gpu_calibrated, order)
            &&& forall|i: int| 52 <= i < 68 ==> #[trigger] bytes[i] == 0
        }),
{
    lemma_preamble(*header, order);
    let preamble = preamble_bytes(*header, order);
    assert(final(writer)@.skip(old(writer)@.len() as int) == preamble);
    assert(final(writer)@.take(old(writer)@.len() as int) == old(writer)@);
}

/// Whether `bytes` are those of `value`: the least significant first on a
/// little-endian machine, and last on a big-endian one.
pub open spec fn holds_u64(bytes: Seq<u8>, value: u64, order: ByteOrder) -> bool {
    &&& bytes.len() == 8
    &&& forall|i: int|
        0 <= i < 8 ==> #[trigger] bytes[i] == spec_u64_to_le_bytes(value)[if order
            == ByteOrder::Little {
            i
        } else {
            7 - i
        }]
}

/// Whether `bytes` are those of `value`: the least significant first on a
/// little-endian machine, and last on a big-endian one.
pub open spec fn holds_u32(bytes: Seq<u8>, value: u32, order: ByteOrder) -> bool {
    &&& bytes.len() == 4
    &&& forall|i: int|
        0 <= i < 4 ==> #[trigger] bytes[i] == spec_u32_to_le_bytes(value)[if order
            == ByteOrder::Little {
            i
        } else {
            3 - i
        }]
}

proof fn lemma_preamble(header: TraceHeader, order: ByteOrder)
    ensures
        ({
            let bytes = preamble_bytes(header, order);
            &&& bytes.len() == 68
            &&& bytes.subrange(0, 8) == seq![0x57u8, 0x47, 0x50, 0x55, 0x49, 0x46, 0x4c, 0x47]
            &&& bytes.subrange(8, 12) == spec_u32_to_le_bytes(1)
            &&& holds_u64(bytes.subrange(12, 20), header.anchor_unix_nanos, order)
            &&& holds_u64(bytes.subrange(20, 28), header.gpu_cpu_anchor_ns, order)
            &&& holds_u64(bytes.subrange(28, 36), header.gpu_anchor_ticks, order)
            &&& holds_u32(bytes.subrange(36, 40), header.frame_count, order)
            &&& holds_u32(bytes.subrange(40, 44), header.cpu_clock_source, order)
            &&& holds_u32(bytes.subrange(44, 48), header.gpu_ns_per_tick_bits, order)
            &&& holds_u32(bytes.subrange(48, 52), header.gpu_calibrated, order)
            &&& forall|i: int| 52 <= i < 68 ==> #[trigger] bytes[i] == 0
        }),
{
    vstd::bytes::lemma_auto_spec_u32_to_from_le_bytes();
    vstd::bytes::lemma_auto_spec_u64_to_from_le_bytes();
    let bytes = preamble_bytes(header, order);
    assert(bytes.subrange(0, 8) == seq![0x57u8, 0x47, 0x50, 0x55, 0x49, 0x46, 0x4c, 0x47]);
    assert(bytes.subrange(8, 12) == spec_u32_to_le_bytes(1));
}

/// Bytes are put in order by leaving them as they are, or by turning them round.
pub proof fn law_bytes_in_order(le_bytes: &[u8], order: ByteOrder, bytes: Vec<u8>)
    requires
        call_ensures(in_order, (le_bytes, order), bytes),
    ensures
        bytes@.len() == le_bytes@.len(),
        forall|i: int|
            0 <= i < bytes@.len() ==> #[trigger] bytes@[i] == le_bytes@[if order
                == ByteOrder::Little {
                i
            } else {
                bytes@.len() - 1 - i
            }],
{
    law_ordering_undoes_itself(le_bytes@, order);
}

/// A chunk is four bytes with the payload's length, little-endian on every
/// machine, then the payload. A payload that is too long for that is refused,
/// and nothing is written.
pub proof fn law_chunk(payload: &Vec<u8>, writer: &mut Vec<u8>, result: Result<(), TraceError>)
    requires
        call_ensures(write_chunk, (payload, writer), result),
    ensures
        result is Ok <==> payload@.len() <= u32::MAX,
        result is Err ==> result->Err_0 is FrameTooLarge && final(writer)@ == old(writer)@,
        result is Ok ==> {
            let start = old(writer)@.len() as int;
            &&& final(writer)@.len() == start + 4 + payload@.len()
            &&& final(writer)@.take(start) == old(writer)@
            &&& final(writer)@.subrange(start, start + 4) == spec_u32_to_le_bytes(
                payload@.len() as u32,
            )
            &&& final(writer)@.skip(start + 4) == payload@
        },
{
    vstd::bytes::lemma_auto_spec_u32_to_from_le_bytes();
    let start = old(writer)@.len() as int;
    if result is Ok {
        assert(final(writer)@.take(start) == old(writer)@);
        assert(final(writer)@.subrange(start, start + 4) == spec_u32_to_le_bytes(
            payload@.len() as u32,
        ));
        assert(final(writer)@.skip(start + 4) == payload@);
    }
}

/// A length has a prefix exactly when 32 bits hold it, and the prefix is the
/// length.
pub proof fn law_length_prefix(length: usize, prefix: Result<u32, TraceError>)
    requires
        call_ensures(length_prefix, (length,), prefix),
    ensures
        prefix is Ok <==> length <= u32::MAX,
        prefix is Ok ==> prefix->Ok_0 == length,
        prefix is Err ==> prefix->Err_0 is FrameTooLarge,
{
}

/// Chunks stand one behind the other.
pub proof fn law_chunks(payloads: Seq<Seq<u8>>, next: Seq<u8>)
    requires
        next.len() <= u32::MAX,
    ensures
        chunks_bytes(Seq::empty()).len() == 0,
        ({
            let before = chunks_bytes(payloads);
            let after = chunks_bytes(payloads.push(next));
            let start = before.len() as int;
            &&& after.len() == start + 4 + next.len()
            &&& after.take(start) == before
            &&& after.subrange(start, start + 4) == spec_u32_to_le_bytes(next.len() as u32)
            &&& after.skip(start + 4) == next
        }),
{
    vstd::bytes::lemma_auto_spec_u32_to_from_le_bytes();
    assert(payloads.push(next).drop_last() == payloads);
    let before = chunks_bytes(payloads);
    let after = chunks_bytes(payloads.push(next));
    let start = before.len() as int;
    assert(after == before + chunk_bytes(next));
    assert(after.take(start) == before);
    assert(after.subrange(start, start + 4) == spec_u32_to_le_bytes(next.len() as u32));
    assert(after.skip(start + 4) == next);
}

/// Exporting fails exactly when some frame's encoding is too long for its
/// prefix. It appends the preamble that the header would be written as, and then
/// a chunk with the encoding of each frame, oldest first, up to the frame that
/// cannot be written.
pub proof fn law_export(
    capture: &Capture,
    now: Moment,
    now_unix_nanos: u128,
    calibration: &GpuClockCalibration,
    order: ByteOrder,
    writer: &mut Vec<u8>,
    result: Result<(), TraceError>,
    header: TraceHeader,
    preamble: &mut Vec<u8>,
)
    requires
        call_ensures(
            Capture::export_trace,
            (capture, now, now_unix_nanos, calibration, order, writer),
            result,
        ),
        call_ensures(
            Capture::trace_header,
            (capture, now, now_unix_nanos, calibration),
            header,
        ),
        call_ensures(write_preamble, (&header, order, preamble), ()),
        old(preamble)@ == old(writer)@,
    ensures
        result is Ok <==> forall|i: int|
            0 <= i < capture@.frames.len() ==> bincode_frame_bytes(
                frame_to_wire(#[trigger] capture@.frames[i]),
            ).len() <= u32::MAX,
        result is Err ==> result->Err_0 is FrameTooLarge,
        result is Ok ==> final(writer)@ == final(preamble)@ + chunks_bytes(
            capture@.frames.map_values(
                |frame: FrameModel| bincode_frame_bytes(frame_to_wire(frame)),
            ),
        ),
        result is Err ==> exists|n: int|
            0 <= n < capture@.frames.len() && bincode_frame_bytes(
                frame_to_wire(#[trigger] capture@.frames[n]),
            ).len() > u32::MAX && (forall|i: int|
                0 <= i < n ==> bincode_frame_bytes(
                    frame_to_wire(#[trigger] capture@.frames[i]),
                ).len() <= u32::MAX) && final(writer)@ == final(preamble)@ + chunks_bytes(
                capture@.frames.take(n).map_values(
                    |frame: FrameModel| bincode_frame_bytes(frame_to_wire(frame)),
                ),
            ),
{
    let frames = capture@.frames;
    let encoding = |frame: FrameModel| bincode_frame_bytes(frame_to_wire(frame));
    assert forall|some: Seq<FrameModel>| #[trigger] payloads_of(some) == some.map_values(
        encoding,
    ) by {
        assert(payloads_of(some) =~= some.map_values(encoding));
    }
    if result is Ok {
        assert(final(writer)@ == old(writer)@ + trace_bytes(header, order, frames));
        assert(final(writer)@ == final(preamble)@ + chunks_bytes(payloads_of(frames)));
    } else {
        let n = choose|n: int| #[trigger]
            stops_at(frames, n) && final(writer)@ == old(writer)@
                + trace_bytes(header, order, frames.take(n));
        assert(final(writer)@ == final(preamble)@ + chunks_bytes(payloads_of(frames.take(n))));
        assert(payloads_of(frames.take(n)) == frames.take(n).map_values(encoding));
        assert(bincode_frame_bytes(frame_to_wire(frames[n])).len() > u32::MAX);
        assert forall|i: int| 0 <= i < n implies bincode_frame_bytes(
            frame_to_wire(#[trigger] frames[i]),
        ).len() <= u32::MAX by {
            assert(writable(frames[i]));
        }
    }
}

/// Encoding a frame succeeds, and encodes what the frame holds.
pub proof fn law_encode(frame: &FrameCapture, encoded: Result<Vec<u8>, TraceError>)
    requires
        call_ensures(encode_frame, (frame,), encoded),
    ensures
        encoded is Ok,
        encoded->Ok_0@ == bincode_frame_bytes(frame_to_wire(frame@)),
        encoded->Ok_0@ == frame_bytes(frame@),
{
}

/// A frame is serialized field by field.
pub proof fn law_frame_fields(frame: FrameModel)
    ensures
        ({
            let wire = frame_to_wire(frame);
            &&& wire.0 == frame.frame_index
            &&& wire.1 == frame.window_id
            &&& wire.2.len() == frame.cpu_spans.len()
            &&& forall|i: int|
                0 <= i < frame.cpu_spans.len() ==> #[trigger] wire.2[i] == span_to_wire(
                    frame.cpu_spans[i],
                )
            &&& wire.3.len() == frame.background_spans.len()
            &&& forall|i: int|
                0 <= i < frame.background_spans.len() ==> #[trigger] wire.3[i] == span_to_wire(
                    frame.background_spans[i],
                )
            &&& wire.4.len() == frame.gpu_spans.len()
            &&& forall|i: int|
                0 <= i < frame.gpu_spans.len() ==> #[trigger] wire.4[i] == gpu_span_to_wire(
                    frame.gpu_spans[i],
                )
            &&& wire.5 == frame.gpu_spans_finalized
            &&& wire.6 == frame.gpu_spans_truncated
            &&& wire.7 == frame.frame_start_ns
            &&& wire.8 == frame.frame_end_ns
        }),
{
}

/// A CPU span is serialized field by field.
pub proof fn law_span_fields(span: CpuSpan)
    ensures
        ({
            let wire = span_to_wire(span);
            &&& wire.0 == name_to_wire(span.name)
            &&& wire.1 == category_number(span.category)
            &&& wire.2 == span.depth
            &&& wire.3 == span.start_ns
            &&& wire.4 == span.duration_ns
            &&& wire.5 == span.thread_id.0
            &&& wire.6 == element_to_wire(span.element)
            &&& wire.6 is Some <==> span.element is Some
            &&& span.element matches Some(element) ==> {
                &&& wire.6 matches Some(parts)
                &&& parts.0 == element.element_type
                &&& parts.1 == element.global_id_hash
                &&& parts.2 == element.source_location
            }
        }),
{
}

/// A GPU span is serialized field by field.
pub proof fn law_gpu_span_fields(span: GpuSpan)
    ensures
        ({
            let wire = gpu_span_to_wire(span);
            &&& wire.0 == name_to_wire(span.name)
            &&& wire.1 == span.start_ns
            &&& wire.2 == span.duration_ns
            &&& wire.3 == pass_kind_number(span.pass_kind)
            &&& wire.4 == span.query_set_generation
        }),
{
}

/// A name is serialized as its text, or as its index where it is interned.
pub proof fn law_name_forms(text: &'static str, index: u32)
    ensures
        name_to_wire(SpanName::Static(text)) == Ok::<&'static str, u32>(text),
        name_to_wire(SpanName::Interned(index)) == Err::<&'static str, u32>(index),
{
}

/// Categories are numbered in the order they are declared in.
pub proof fn law_category_numbers()
    ensures
        category_number(SpanCategory::WindowFrame) == 0,
        category_number(SpanCategory::ElementRequestLayout) == 1,
        category_number(SpanCategory::ElementPrepaint) == 2,
        category_number(SpanCategory::ElementPaint) == 3,
        category_number(SpanCategory::BackgroundTask) == 4,
        category_number(SpanCategory::GpuRenderPass) == 5,
        category_number(SpanCategory::GpuSubmitPresent) == 6,
        category_number(SpanCategory::UserDefined) == 7,
{
}

/// Pass kinds are numbered in the order they are declared in.
pub proof fn law_pass_kind_numbers()
    ensures
        pass_kind_number(GpuPassKind::Main) == 0,
        pass_kind_number(GpuPassKind::MainResumed) == 1,
        pass_kind_number(GpuPassKind::FilterGroup) == 2,
        pass_kind_number(GpuPassKind::FilterGroupResumed) == 3,
        pass_kind_number(GpuPassKind::FastSurfaceBlit) == 4,
        pass_kind_number(GpuPassKind::SubmitPresent) == 5,
{
}

} // verus!
