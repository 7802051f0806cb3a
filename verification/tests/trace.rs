//! The binary trace format.

use serde::ser::{SerializeStruct, Serializer};
use wgpui::byte_order::{in_order, ByteOrder};
use wgpui::flamegraph::capture::{
    attach_gpu_spans, close_frame_cpu_side, open_frame_cpu_side, start_capture, Capture, Profiler,
};
use wgpui::flamegraph::model::{
    CpuSpan, ElementAttribution, FrameCapture, GpuClockCalibration, GpuPassKind, GpuSpan, Moment,
    SpanCategory, SpanName, ThreadKey,
};
use wgpui::flamegraph::recorder::ThreadRegistry;
use wgpui::flamegraph::session::CaptureOptions;
use wgpui::flamegraph::spans::{enter_span, CurrentThread, SpanStack};
use wgpui::flamegraph::trace::{
    anchor_unix_nanos, encode_frame, length_prefix, write_chunk, write_preamble, TraceError,
    TraceHeader, TRACE_MAGIC,
};

type DecodedName = Result<String, u32>;
type DecodedElement = (String, u64, Option<(String, u32)>);
type DecodedSpan = (DecodedName, u32, u16, u64, u32, u64, Option<DecodedElement>);
type DecodedGpuSpan = (DecodedName, u64, u32, u32, u64);
type DecodedFrame = (
    u64,
    u64,
    Vec<DecodedSpan>,
    Vec<DecodedSpan>,
    Vec<DecodedGpuSpan>,
    bool,
    bool,
    u64,
    u64,
);

fn u32_at(bytes: &[u8], offset: usize) -> u32 {
    u32::from_le_bytes(bytes[offset..offset + 4].try_into().unwrap())
}

fn machine_order() -> ByteOrder {
    if 1u16.to_ne_bytes() == [1, 0] {
        ByteOrder::Little
    } else {
        ByteOrder::Big
    }
}

fn native_u32(bytes: &[u8], offset: usize) -> u32 {
    u32::from_ne_bytes(bytes[offset..offset + 4].try_into().unwrap())
}

fn native_u64(bytes: &[u8], offset: usize) -> u64 {
    u64::from_ne_bytes(bytes[offset..offset + 8].try_into().unwrap())
}

fn read_trace(bytes: &[u8]) -> (TraceHeader, Vec<DecodedFrame>) {
    assert!(bytes.len() >= 68, "trace too short");
    assert_eq!(&bytes[..8], b"WGPUIFLG", "bad magic");
    assert_eq!(u32_at(bytes, 8), 1, "unsupported trace version");
    let header = TraceHeader {
        anchor_unix_nanos: native_u64(bytes, 12),
        gpu_cpu_anchor_ns: native_u64(bytes, 20),
        gpu_anchor_ticks: native_u64(bytes, 28),
        frame_count: native_u32(bytes, 36),
        cpu_clock_source: native_u32(bytes, 40),
        gpu_ns_per_tick_bits: native_u32(bytes, 44),
        gpu_calibrated: native_u32(bytes, 48),
    };
    assert_eq!(&bytes[52..68], &[0; 16], "reserved bytes");
    let mut offset = 68;
    let mut frames = Vec::new();
    for _ in 0..header.frame_count {
        assert!(bytes.len() >= offset + 4, "truncated frame length prefix");
        let length = u32_at(bytes, offset) as usize;
        offset += 4;
        assert!(bytes.len() >= offset + length, "truncated frame body");
        let (frame, used): (DecodedFrame, usize) = bincode::serde::decode_from_slice(
            &bytes[offset..offset + length],
            bincode::config::standard(),
        )
        .expect("round trip decode should succeed");
        assert_eq!(used, length);
        offset += length;
        frames.push(frame);
    }
    assert_eq!(offset, bytes.len());
    (header, frames)
}

fn decode_name(name: SpanName) -> DecodedName {
    match name {
        SpanName::Static(name) => Ok(name.to_string()),
        SpanName::Interned(index) => Err(index),
    }
}

fn decode_category(category: SpanCategory) -> u32 {
    match category {
        SpanCategory::WindowFrame => 0,
        SpanCategory::ElementRequestLayout => 1,
        SpanCategory::ElementPrepaint => 2,
        SpanCategory::ElementPaint => 3,
        SpanCategory::BackgroundTask => 4,
        SpanCategory::GpuRenderPass => 5,
        SpanCategory::GpuSubmitPresent => 6,
        SpanCategory::UserDefined => 7,
    }
}

fn decode_pass_kind(kind: GpuPassKind) -> u32 {
    match kind {
        GpuPassKind::Main => 0,
        GpuPassKind::MainResumed => 1,
        GpuPassKind::FilterGroup => 2,
        GpuPassKind::FilterGroupResumed => 3,
        GpuPassKind::FastSurfaceBlit => 4,
        GpuPassKind::SubmitPresent => 5,
    }
}

fn decode(span: &CpuSpan) -> DecodedSpan {
    (
        decode_name(span.name),
        decode_category(span.category),
        span.depth,
        span.start_ns,
        span.duration_ns,
        span.thread_id.0,
        span.element.map(|element| {
            (
                element.element_type.to_string(),
                element.global_id_hash,
                element.source_location.map(|(file, line)| (file.to_string(), line)),
            )
        }),
    )
}

fn decode_gpu(span: &GpuSpan) -> DecodedGpuSpan {
    (
        decode_name(span.name),
        span.start_ns,
        span.duration_ns,
        decode_pass_kind(span.pass_kind),
        span.query_set_generation,
    )
}

fn decode_frame(frame: &FrameCapture) -> DecodedFrame {
    (
        frame.frame_index,
        frame.window_id,
        frame.cpu_spans.iter().map(decode).collect(),
        frame.background_spans.iter().map(decode).collect(),
        frame.gpu_spans.iter().map(decode_gpu).collect(),
        frame.gpu_spans_finalized,
        frame.gpu_spans_truncated,
        frame.frame_start_ns,
        frame.frame_end_ns,
    )
}

fn at(nanos: u128) -> Moment {
    Moment { nanos }
}

#[test]
fn nesting_and_trace_round_trip() {
    let mut profiler = Profiler::new();
    let mut registry = ThreadRegistry::new();
    let mut stack = SpanStack::new();
    let thread = CurrentThread { thread_id: 1, key: ThreadKey(42) };
    let mut clock = 0;
    let mut now = move || {
        clock += 1;
        at(clock)
    };
    let handle =
        start_capture(&mut profiler, CaptureOptions { max_frames: 8, capture_gpu: false }, now())
            .ok()
            .expect("no other capture should be active in this test process at this point");

    for _ in 0..3 {
        let frame_index = open_frame_cpu_side(&mut profiler, 1, now());
        let draw = enter_span(
            &profiler,
            &mut stack,
            SpanName::Static("Window::draw"),
            SpanCategory::WindowFrame,
            None,
            now(),
        );
        let draw_roots = enter_span(
            &profiler,
            &mut stack,
            SpanName::Static("Window::draw_roots"),
            SpanCategory::WindowFrame,
            None,
            now(),
        );
        draw_roots.close(&profiler, &mut stack, &mut registry, thread, now());
        draw.close(&profiler, &mut stack, &mut registry, thread, now());
        close_frame_cpu_side(&mut profiler, frame_index, now(), &mut registry, 1);
    }

    let capture = handle.stop(&mut profiler, now(), &mut registry, 1);
    assert_eq!(capture.frame_count(), 3);

    let frame = capture.frames().next().expect("at least one frame");
    let draw = frame
        .cpu_spans
        .iter()
        .find(|span| span.name == SpanName::Static("Window::draw"))
        .expect("Window::draw span recorded");
    let draw_roots = frame
        .cpu_spans
        .iter()
        .find(|span| span.name == SpanName::Static("Window::draw_roots"))
        .expect("Window::draw_roots span recorded");
    assert_eq!(draw.depth, 0, "Window::draw should be the outermost span");
    assert_eq!(draw_roots.depth, 1, "Window::draw_roots should nest one level under Window::draw");

    let mut buffer = Vec::new();
    capture
        .export_trace(now(), 1_000_000, &GpuClockCalibration::default(), machine_order(), &mut buffer)
        .ok()
        .expect("export_trace should succeed");

    let (header, frames) = read_trace(&buffer);
    assert_eq!(header.frame_count, 3);
    assert_eq!(frames.len(), 3);
    let expected: Vec<DecodedFrame> = capture.frames().map(decode_frame).collect();
    assert_eq!(frames, expected);
}

fn rich_frame() -> FrameCapture {
    FrameCapture {
        frame_index: 300,
        window_id: u64::MAX,
        cpu_spans: vec![CpuSpan {
            name: SpanName::Static("Window::draw"),
            category: SpanCategory::UserDefined,
            depth: 1000,
            start_ns: 1 << 40,
            duration_ns: u32::MAX,
            thread_id: ThreadKey(0xdead_beef_0000_0001),
            element: Some(ElementAttribution {
                element_type: "Div",
                global_id_hash: 77,
                source_location: Some(("src/view.rs", 70_000)),
            }),
        }],
        background_spans: vec![CpuSpan {
            name: SpanName::Interned(9),
            category: SpanCategory::ElementPrepaint,
            depth: 0,
            start_ns: 250,
            duration_ns: 251,
            thread_id: ThreadKey(0),
            element: Some(ElementAttribution {
                element_type: "",
                global_id_hash: 0,
                source_location: None,
            }),
        }],
        gpu_spans: vec![GpuSpan {
            name: SpanName::Static("fast_surface_blit"),
            start_ns: 5,
            duration_ns: 6,
            pass_kind: GpuPassKind::FastSurfaceBlit,
            query_set_generation: 7,
        }],
        gpu_spans_finalized: true,
        gpu_spans_truncated: false,
        frame_start_ns: 100,
        frame_end_ns: 65_536,
    }
}

#[test]
fn a_frame_is_encoded_field_by_field() {
    let frame = rich_frame();
    let bytes = encode_frame(&frame).expect("every frame can be encoded");
    let (decoded, used): (DecodedFrame, usize) =
        bincode::serde::decode_from_slice(&bytes, bincode::config::standard()).unwrap();
    assert_eq!(used, bytes.len());
    assert_eq!(decoded, decode_frame(&frame));
    assert_ne!(bytes, encode_frame(&FrameCapture { window_id: 1, ..rich_frame() }).unwrap());
}

#[test]
fn an_empty_frame_takes_nine_bytes() {
    let frame = FrameCapture {
        frame_index: 1,
        window_id: 2,
        cpu_spans: Vec::new(),
        background_spans: Vec::new(),
        gpu_spans: Vec::new(),
        gpu_spans_finalized: true,
        gpu_spans_truncated: false,
        frame_start_ns: 3,
        frame_end_ns: 4,
    };
    assert_eq!(encode_frame(&frame).unwrap(), vec![1, 2, 0, 0, 0, 1, 0, 3, 4]);
}

// The same frames, serialized as structs and enums.

struct Named(SpanName);

impl serde::Serialize for Named {
    fn serialize<S: Serializer>(&self, serializer: S) -> Result<S::Ok, S::Error> {
        match self.0 {
            SpanName::Static(text) => {
                serializer.serialize_newtype_variant("SpanName", 0, "Static", text)
            }
            SpanName::Interned(index) => {
                serializer.serialize_newtype_variant("SpanName", 1, "Interned", &index)
            }
        }
    }
}

struct Category(SpanCategory);

impl serde::Serialize for Category {
    fn serialize<S: Serializer>(&self, serializer: S) -> Result<S::Ok, S::Error> {
        serializer.serialize_unit_variant("SpanCategory", decode_category(self.0), "")
    }
}

struct PassKind(GpuPassKind);

impl serde::Serialize for PassKind {
    fn serialize<S: Serializer>(&self, serializer: S) -> Result<S::Ok, S::Error> {
        serializer.serialize_unit_variant("GpuPassKind", decode_pass_kind(self.0), "")
    }
}

struct Key(u64);

impl serde::Serialize for Key {
    fn serialize<S: Serializer>(&self, serializer: S) -> Result<S::Ok, S::Error> {
        serializer.serialize_newtype_struct("ThreadKey", &self.0)
    }
}

struct Element(ElementAttribution);

impl serde::Serialize for Element {
    fn serialize<S: Serializer>(&self, serializer: S) -> Result<S::Ok, S::Error> {
        let mut state = serializer.serialize_struct("ElementAttribution", 3)?;
        state.serialize_field("element_type", self.0.element_type)?;
        state.serialize_field("global_id_hash", &self.0.global_id_hash)?;
        state.serialize_field("source_location", &self.0.source_location)?;
        state.end()
    }
}

struct Span(CpuSpan);

impl serde::Serialize for Span {
    fn serialize<S: Serializer>(&self, serializer: S) -> Result<S::Ok, S::Error> {
        let mut state = serializer.serialize_struct("CpuSpan", 7)?;
        state.serialize_field("name", &Named(self.0.name))?;
        state.serialize_field("category", &Category(self.0.category))?;
        state.serialize_field("depth", &self.0.depth)?;
        state.serialize_field("start_ns", &self.0.start_ns)?;
        state.serialize_field("duration_ns", &self.0.duration_ns)?;
        state.serialize_field("thread_id", &Key(self.0.thread_id.0))?;
        state.serialize_field("element", &self.0.element.map(Element))?;
        state.end()
    }
}

struct PassSpan(GpuSpan);

impl serde::Serialize for PassSpan {
    fn serialize<S: Serializer>(&self, serializer: S) -> Result<S::Ok, S::Error> {
        let mut state = serializer.serialize_struct("GpuSpan", 5)?;
        state.serialize_field("name", &Named(self.0.name))?;
        state.serialize_field("start_ns", &self.0.start_ns)?;
        state.serialize_field("duration_ns", &self.0.duration_ns)?;
        state.serialize_field("pass_kind", &PassKind(self.0.pass_kind))?;
        state.serialize_field("query_set_generation", &self.0.query_set_generation)?;
        state.end()
    }
}

struct Frame(FrameCapture);

impl serde::Serialize for Frame {
    fn serialize<S: Serializer>(&self, serializer: S) -> Result<S::Ok, S::Error> {
        let frame = &self.0;
        let cpu: Vec<Span> = frame.cpu_spans.iter().copied().map(Span).collect();
        let background: Vec<Span> = frame.background_spans.iter().copied().map(Span).collect();
        let gpu: Vec<PassSpan> = frame.gpu_spans.iter().copied().map(PassSpan).collect();
        let mut state = serializer.serialize_struct("FrameCapture", 9)?;
        state.serialize_field("frame_index", &frame.frame_index)?;
        state.serialize_field("window_id", &frame.window_id)?;
        state.serialize_field("cpu_spans", &cpu)?;
        state.serialize_field("background_spans", &background)?;
        state.serialize_field("gpu_spans", &gpu)?;
        state.serialize_field("gpu_spans_finalized", &frame.gpu_spans_finalized)?;
        state.serialize_field("gpu_spans_truncated", &frame.gpu_spans_truncated)?;
        state.serialize_field("frame_start_ns", &frame.frame_start_ns)?;
        state.serialize_field("frame_end_ns", &frame.frame_end_ns)?;
        state.end()
    }
}

#[test]
fn frames_are_encoded_like_serialized_structs() {
    let frame = rich_frame();
    let bytes = encode_frame(&frame).unwrap();
    let serialized =
        bincode::serde::encode_to_vec(Frame(frame), bincode::config::standard()).unwrap();
    assert_eq!(bytes, serialized);
}

fn stopped_capture(window_id: u64) -> Capture {
    let mut profiler = Profiler::new();
    let mut registry = ThreadRegistry::new();
    let handle =
        start_capture(&mut profiler, CaptureOptions { max_frames: 4, capture_gpu: true }, at(500))
            .ok()
            .unwrap();
    let frame = open_frame_cpu_side(&mut profiler, window_id, at(510));
    close_frame_cpu_side(&mut profiler, frame, at(530), &mut registry, 1);
    attach_gpu_spans(&mut profiler, 0, Vec::new(), true);
    handle.stop(&mut profiler, at(600), &mut registry, 1)
}

#[test]
fn the_header_tells_the_calibration_and_the_anchor() {
    let calibration = GpuClockCalibration {
        cpu_anchor_ns: 11,
        gpu_anchor_ticks: 22,
        ns_per_tick_bits: 2.5f32.to_bits(),
        calibrated: true,
    };
    let capture = stopped_capture(3);
    let mut buffer = vec![9, 9];
    assert!(capture.export_trace(at(700), 10_000, &calibration, machine_order(), &mut buffer).is_ok());
    assert_eq!(&buffer[..2], &[9, 9], "the trace is appended");
    let (header, frames) = read_trace(&buffer[2..]);
    assert_eq!(
        header,
        TraceHeader {
            anchor_unix_nanos: 9_800,
            gpu_cpu_anchor_ns: 11,
            gpu_anchor_ticks: 22,
            frame_count: 1,
            cpu_clock_source: 0,
            gpu_ns_per_tick_bits: 2.5f32.to_bits(),
            gpu_calibrated: 1,
        }
    );
    assert_eq!(header, capture.trace_header(at(700), 10_000, &calibration));
    assert_eq!(
        frames,
        vec![(0, 3, Vec::new(), Vec::new(), Vec::new(), true, true, 10, 30)]
    );
}

#[test]
fn anchors_before_the_epoch_count_as_the_epoch() {
    assert_eq!(anchor_unix_nanos(at(0), at(50), 40), 0);
    assert_eq!(anchor_unix_nanos(at(0), at(50), 60), 10);
    assert_eq!(anchor_unix_nanos(at(50), at(0), 60), 60);
    assert_eq!(anchor_unix_nanos(at(0), at(0), u128::MAX), u64::MAX);
}

#[test]
fn traces_of_equal_captures_are_equal() {
    let calibration = GpuClockCalibration::default();
    let mut traces = Vec::new();
    for window_id in [3, 3, 4] {
        let mut trace = Vec::new();
        assert!(stopped_capture(window_id)
            .export_trace(at(700), 10_000, &calibration, machine_order(), &mut trace)
            .is_ok());
        traces.push(trace);
    }
    assert_eq!(traces[0], traces[1]);
    assert_ne!(traces[0], traces[2]);
}

#[test]
fn a_trace_begins_with_its_preamble() {
    let header = TraceHeader {
        anchor_unix_nanos: 0x0807_0605_0403_0201,
        gpu_cpu_anchor_ns: 0,
        gpu_anchor_ticks: 0,
        frame_count: 2,
        cpu_clock_source: 0,
        gpu_ns_per_tick_bits: 0,
        gpu_calibrated: 0,
    };
    let mut bytes = Vec::new();
    write_preamble(&header, ByteOrder::Little, &mut bytes);
    assert_eq!(bytes.len(), 68);
    assert_eq!(bytes[..8], TRACE_MAGIC);
    assert_eq!(bytes[8..12], [1, 0, 0, 0]);
    assert_eq!(bytes[12..20], [1, 2, 3, 4, 5, 6, 7, 8]);
    assert_eq!(bytes[36..40], [2, 0, 0, 0]);
    let preamble = bytes.clone();
    let mut big = Vec::new();
    write_preamble(&header, ByteOrder::Big, &mut big);
    assert_eq!(big[8..12], [1, 0, 0, 0], "the version is little-endian everywhere");
    assert_eq!(big[12..20], [8, 7, 6, 5, 4, 3, 2, 1]);
    assert_eq!(big[36..40], [0, 0, 0, 2]);
    assert!(write_chunk(&vec![7, 8, 9], &mut bytes).is_ok());
    assert!(bytes.starts_with(&preamble), "earlier bytes do not change");
    assert_eq!(bytes[68..], [3, 0, 0, 0, 7, 8, 9]);
}

#[test]
fn a_payload_beyond_its_prefix_is_refused() {
    assert_eq!(length_prefix(3).ok(), Some(3));
    assert_eq!(length_prefix(u32::MAX as usize).ok(), Some(u32::MAX));
    assert!(matches!(length_prefix(u32::MAX as usize + 1), Err(TraceError::FrameTooLarge)));
}

#[test]
fn ordering_bytes_twice_gives_them_back() {
    let bytes = [1, 2, 3];
    assert_eq!(in_order(&bytes, ByteOrder::Little), bytes);
    assert_eq!(in_order(&bytes, ByteOrder::Big), [3, 2, 1]);
    assert_eq!(in_order(&in_order(&bytes, ByteOrder::Big), ByteOrder::Big), bytes);
}
