//! What replaying a captured frame promises: which draw calls are drawn and
//! from what, where the cursor goes, and how elements are linked.

use crate::flamegraph::deep_capture::{
    contents_of, is_first_of_kind, DeepCapture, DeepCaptureBufferContents, DeepCaptureBufferKind,
    DeepCaptureDrawCall, DeepCapturePendingReadback, DeepCaptureRecorder, DrawCallKind,
};
use crate::flamegraph_replay::command_stream::{DeepCaptureReplay, DrawCallResourceStatus};
use crate::flamegraph_replay::pixels::{
    checker_color, is_checkerboard, pixel_bytes, placeholder_checkerboard_rgba, rounded_up,
    row_in, rows_unpacked, ReadbackLayout, ReplayRenderOutput,
};
use crate::flamegraph_replay::render::{
    check_staging_map, render_deep_capture_step, rendered_output, ReplayError, ReplayStep,
};
use crate::flamegraph_replay::ui_tree::{
    is_parent, is_root, law_children_invert_parents, law_one_parent, law_roots_have_no_parent,
    UiTreeReplay,
};
use crate::flamegraph_ui_capture::{
    node_depths, ScenePrimitive, SceneSnapshot, UiBounds, UiElementNode, UiTreeCapture,
};
use vstd::prelude::*;

verus! {

/// Whether some buffer of `kind` was read back.
pub open spec fn was_captured(
    buffers: Seq<DeepCaptureBufferContents>,
    kind: DeepCaptureBufferKind,
) -> bool {
    exists|i: int| 0 <= i < buffers.len() && (#[trigger] buffers[i]).kind == kind
}

/// Whether `bytes` are those of the first buffer of `kind`.
pub open spec fn are_first_bytes(
    buffers: Seq<DeepCaptureBufferContents>,
    kind: DeepCaptureBufferKind,
    bytes: Seq<u8>,
) -> bool {
    exists|i: int|
        0 <= i < buffers.len() && (#[trigger] buffers[i]).kind == kind && buffers[i].bytes@ == bytes
            && (forall|j: int| 0 <= j < i ==> (#[trigger] buffers[j]).kind != kind)
}

proof fn lemma_contents(buffers: Seq<DeepCaptureBufferContents>, kind: DeepCaptureBufferKind)
    ensures
        contents_of(buffers, kind) is Some <==> was_captured(buffers, kind),
        contents_of(buffers, kind) matches Some(found) ==> found.kind == kind && are_first_bytes(
            buffers,
            kind,
            found.bytes@,
        ),
{
    if was_captured(buffers, kind) {
        let i = choose|i: int| 0 <= i < buffers.len() && (#[trigger] buffers[i]).kind == kind;
        lemma_first(buffers, kind, i);
    }
    if contents_of(buffers, kind) is Some {
        let i = choose|i: int| is_first_of_kind(buffers, kind, i);
        assert(is_first_of_kind(buffers, kind, i));
        assert(buffers[i].kind == kind);
    }
}

proof fn lemma_first(
    buffers: Seq<DeepCaptureBufferContents>,
    kind: DeepCaptureBufferKind,
    found: int,
)
    requires
        0 <= found < buffers.len(),
        buffers[found].kind == kind,
    ensures
        exists|i: int| is_first_of_kind(buffers, kind, i),
    decreases found,
{
    if exists|j: int| 0 <= j < found && (#[trigger] buffers[j]).kind == kind {
        let j = choose|j: int| 0 <= j < found && (#[trigger] buffers[j]).kind == kind;
        lemma_first(buffers, kind, j);
    } else {
        assert(is_first_of_kind(buffers, kind, found));
    }
}

/// A buffer is found exactly when one of its kind was read back, and the first
/// of that kind is the one.
pub proof fn law_buffer_contents(
    capture: &DeepCapture,
    kind: DeepCaptureBufferKind,
    contents: Option<&DeepCaptureBufferContents>,
)
    requires
        call_ensures(DeepCapture::buffer_contents, (capture, kind), contents),
    ensures
        contents is Some <==> was_captured(capture.buffer_contents@, kind),
        contents matches Some(found) ==> found.kind == kind && are_first_bytes(
            capture.buffer_contents@,
            kind,
            found.bytes@,
        ),
{
    lemma_contents(capture.buffer_contents@, kind);
}

/// Only quads are drawn, and only from the first captured buffer that they
/// read. Whether a buffer was captured or not, shadows, underlines, backdrop
/// filters and paths are refused by their kind.
pub proof fn law_only_quads_are_drawn(
    replay: &DeepCaptureReplay,
    step: usize,
    viewport_width: u32,
    viewport_height: u32,
    result: Result<ReplayStep, ReplayError>,
)
    requires
        call_ensures(
            render_deep_capture_step,
            (replay, step, viewport_width, viewport_height),
            result,
        ),
        viewport_width > 0,
        viewport_height > 0,
        step < replay.calls().len(),
    ensures
        ({
            let call = replay.calls()[step as int];
            let buffers = replay.source().buffer_contents@;
            &&& (result matches Ok(ReplayStep::DrawQuads(draw)) ==> {
                &&& call.kind == DrawCallKind::Quads
                &&& call.buffer_kind matches Some(kind)
                &&& are_first_bytes(buffers, kind, draw.quads_bytes@)
                &&& draw.vertex_range == call.vertex_range
                &&& draw.instance_range == call.instance_range
                &&& draw.buffer_size >= 1
                &&& draw.quads_bytes@.len() > 0 ==> draw.buffer_size == draw.quads_bytes@.len()
                &&& draw.quads_bytes@.len() == 0 ==> draw.buffer_size == 1
            })
            &&& call.kind == DrawCallKind::Quads ==> match call.buffer_kind {
                Some(kind) => if was_captured(buffers, kind) {
                    result matches Ok(step) && step is DrawQuads
                } else {
                    result matches Err(error) && error == ReplayError::MissingBufferContents(kind)
                },
                None => result matches Err(error) && error == ReplayError::UnsupportedDrawCallKind(
                    DrawCallKind::Quads,
                ),
            }
            &&& call.kind == DrawCallKind::Shadows || call.kind == DrawCallKind::Underlines
                || call.kind == DrawCallKind::BackdropFilters || call.kind == DrawCallKind::Paths
                ==> (result matches Err(error) && error == ReplayError::UnsupportedDrawCallKind(
                call.kind,
            ))
        }),
{
    let call = replay.calls()[step as int];
    if call.buffer_kind is Some {
        lemma_contents(replay.source().buffer_contents@, call.buffer_kind->0);
    }
}

/// A placeholder comes exactly for the kinds that read texture content: an image
/// of the viewport's size whose squares of sixteen by sixteen pixels alternate
/// between two grays.
pub proof fn law_textures_become_placeholders(
    replay: &DeepCaptureReplay,
    step: usize,
    viewport_width: u32,
    viewport_height: u32,
    result: Result<ReplayStep, ReplayError>,
)
    requires
        call_ensures(
            render_deep_capture_step,
            (replay, step, viewport_width, viewport_height),
            result,
        ),
        viewport_width > 0,
        viewport_height > 0,
        step < replay.calls().len(),
    ensures
        ({
            let kind = replay.calls()[step as int].kind;
            kind == DrawCallKind::MonoSprites || kind == DrawCallKind::PolySprites || kind
                == DrawCallKind::Surfaces <==> (result matches Ok(step) && step is Placeholder)
        }),
        result matches Ok(ReplayStep::Placeholder(output)) ==> {
            &&& output.width == viewport_width
            &&& output.height == viewport_height
            &&& output.texture_unavailable
            &&& output.rgba8@.len() == viewport_width * viewport_height * 4
            &&& forall|x: int, y: int|
                0 <= x < viewport_width && 0 <= y < viewport_height
                    ==> #[trigger] is_placeholder_pixel(
                    output.rgba8@,
                    viewport_width as int,
                    x,
                    y,
                    16,
                )
        },
{
    match result {
        Ok(ReplayStep::Placeholder(output)) => {
            lemma_placeholder_pixels(
                output.rgba8@,
                viewport_width as int,
                viewport_height as int,
                16,
            );
        },
        _ => {},
    }
}

/// Whether the pixel at `(x, y)` is opaque and of the light gray, where the
/// squares to the left and above are even in number, and of the dark gray
/// elsewhere.
pub open spec fn is_placeholder_pixel(
    rgba8: Seq<u8>,
    width: int,
    x: int,
    y: int,
    side: int,
) -> bool {
    let start = y * width * 4 + x * 4;
    let gray: u8 = if (x / side + y / side) % 2 == 0 {
        200
    } else {
        120
    };
    &&& rgba8[start] == gray
    &&& rgba8[start + 1] == gray
    &&& rgba8[start + 2] == gray
    &&& rgba8[start + 3] == 255
}

proof fn lemma_placeholder_pixels(pixels: Seq<u8>, width: int, height: int, cell: int)
    requires
        is_checkerboard(pixels, width, height, cell),
        0 < cell,
    ensures
        forall|x: int, y: int|
            0 <= x < width && 0 <= y < height ==> #[trigger] is_placeholder_pixel(
                pixels,
                width,
                x,
                y,
                cell,
            ),
{
    assert forall|x: int, y: int| 0 <= x < width && 0 <= y < height implies #[trigger]
        is_placeholder_pixel(pixels, width, x, y, cell) by {
        let start = y * width * 4 + x * 4;
        let bytes = pixel_bytes(pixels, width, x, y);
        assert(start == (y * width + x) * 4) by (nonlinear_arith)
            requires
                start == y * width * 4 + x * 4,
        ;
        assert(0 <= start && start + 4 <= width * height * 4) by (nonlinear_arith)
            requires
                start == (y * width + x) * 4,
                0 <= x < width,
                0 <= y < height,
        ;
        assert(bytes[0] == pixels[start]);
        assert(bytes[1] == pixels[start + 1]);
        assert(bytes[2] == pixels[start + 2]);
        assert(bytes[3] == pixels[start + 3]);
    }
}

/// An empty viewport is refused before anything else, then a step that is not
/// on the stream.
pub proof fn law_replay_refusals(
    replay: &DeepCaptureReplay,
    step: usize,
    viewport_width: u32,
    viewport_height: u32,
    result: Result<ReplayStep, ReplayError>,
)
    requires
        call_ensures(
            render_deep_capture_step,
            (replay, step, viewport_width, viewport_height),
            result,
        ),
    ensures
        (result matches Err(error) && error is EmptyViewport) <==> viewport_width == 0
            || viewport_height == 0,
        viewport_width > 0 && viewport_height > 0 && step >= replay.calls().len() ==> (
        result matches Err(error) && error == ReplayError::StepOutOfRange(step)),
        (result matches Err(error) && error is StepOutOfRange) ==> step >= replay.calls().len(),
        !(result matches Err(error) && error is Device),
{
}

/// A placeholder's pixels, for a side of any length; none counts as one.
pub proof fn law_placeholder(width: u32, height: u32, cell: u32, pixels: Vec<u8>, x: int, y: int)
    requires
        call_ensures(placeholder_checkerboard_rgba, (width, height, cell), pixels),
    ensures
        pixels@.len() == width * height * 4,
        0 <= x < width && 0 <= y < height && cell > 0 ==> is_placeholder_pixel(
            pixels@,
            width as int,
            x,
            y,
            cell as int,
        ),
        0 <= x < width && 0 <= y < height && cell == 0 ==> is_placeholder_pixel(
            pixels@,
            width as int,
            x,
            y,
            1,
        ),
{
    let side: int = if cell == 0 {
        1
    } else {
        cell as int
    };
    assert forall|u: int, v: int| 0 <= u < width && 0 <= v < height implies #[trigger] pixel_bytes(
        pixels@,
        width as int,
        u,
        v,
    ) == checker_color(u, v, side) by {
        assert(pixel_bytes(pixels@, width as int, u, v) == checker_color(u, v, cell as int));
    }
    lemma_placeholder_pixels(pixels@, width as int, height as int, side);
}

/// A pixel is there exactly when it is in bounds and its four bytes are in the
/// data, and those bytes are the pixel.
pub proof fn law_pixel(output: &ReplayRenderOutput, x: u32, y: u32, pixel: Option<[u8; 4]>)
    requires
        call_ensures(ReplayRenderOutput::pixel, (output, x, y), pixel),
    ensures
        pixel is Some <==> x < output.width && y < output.height && y * output.width * 4 + x * 4 + 4
            <= output.rgba8@.len(),
        pixel matches Some(rgba) ==> forall|i: int|
            0 <= i < 4 ==> #[trigger] rgba@[i] == output.rgba8@[y * output.width * 4 + x * 4 + i],
{
    let start = y * output.width * 4 + x * 4;
    assert(start == (y * output.width + x) * 4) by (nonlinear_arith)
        requires
            start == y * output.width * 4 + x * 4,
    ;
    assert(0 <= start) by (nonlinear_arith)
        requires
            start == y * output.width * 4 + x * 4,
            0 <= x,
            0 <= y,
            0 <= output.width,
    ;
}

/// Rows begin at multiples of the alignment, the first such that a row fits.
pub proof fn law_layout(width: u32, height: u32, align: u32, layout: ReadbackLayout)
    requires
        call_ensures(ReadbackLayout::new, (width, height, align), layout),
        align > 0,
    ensures
        layout.unpadded_bytes_per_row == width * 4,
        layout.rows == height,
        layout.staging_size == layout.padded_bytes_per_row * height,
        width * 4 <= layout.padded_bytes_per_row,
        layout.padded_bytes_per_row < width * 4 + align,
        exists|groups: int|
            #![trigger groups * align]
            layout.padded_bytes_per_row == groups * align,
{
    let groups = (width * 4 + align - 1) / (align as int);
    assert(rounded_up(width * 4, align as int) == groups * align);
}

/// Unpacking moves byte `b` of row `row` to where rows follow each other without
/// padding, and leaves nothing else.
pub proof fn law_unpack(layout: &ReadbackLayout, view: &[u8], packed: Vec<u8>, row: int, b: int)
    requires
        call_ensures(ReadbackLayout::unpack, (layout, view), packed),
        layout.wf(),
        view@.len() >= layout.staging_size,
    ensures
        packed@.len() == layout.unpadded_bytes_per_row * layout.rows,
        0 <= row < layout.rows && 0 <= b < layout.unpadded_bytes_per_row ==> packed@[row
            * layout.unpadded_bytes_per_row + b] == view@[row * layout.padded_bytes_per_row + b],
{
    if 0 <= row < layout.rows && 0 <= b < layout.unpadded_bytes_per_row {
        lemma_unpacked_byte(*layout, view@, packed@, row, b);
    }
}

proof fn lemma_unpacked_byte(
    layout: ReadbackLayout,
    view: Seq<u8>,
    packed: Seq<u8>,
    row: int,
    b: int,
)
    requires
        layout.wf(),
        view.len() >= layout.staging_size,
        rows_unpacked(layout, view, packed),
        0 <= row < layout.rows,
        0 <= b < layout.unpadded_bytes_per_row,
    ensures
        packed[row * layout.unpadded_bytes_per_row + b] == view[row * layout.padded_bytes_per_row
            + b],
{
    let length = layout.unpadded_bytes_per_row as int;
    let stride = layout.padded_bytes_per_row as int;
    assert(0 <= row * length && row * length + length <= length * layout.rows) by (nonlinear_arith)
        requires
            0 <= row < layout.rows,
            0 <= length,
    ;
    assert(0 <= row * stride && row * stride + stride <= stride * layout.rows) by (nonlinear_arith)
        requires
            0 <= row < layout.rows,
            0 <= stride,
    ;
    let taken = packed.subrange(row * length, row * length + length);
    let there = row_in(layout, view, row);
    assert(taken == there);
    assert(taken[b] == packed[row * length + b]);
    assert(there[b] == view[row * stride + b]);
}

/// A rendered output has the viewport's size and the bytes that were read back.
pub proof fn law_rendered(
    viewport_width: u32,
    viewport_height: u32,
    layout: &ReadbackLayout,
    view: &[u8],
    output: ReplayRenderOutput,
    row: int,
    b: int,
)
    requires
        call_ensures(
            rendered_output,
            (viewport_width, viewport_height, layout, view),
            output,
        ),
        layout.wf(),
        view@.len() >= layout.staging_size,
    ensures
        output.width == viewport_width,
        output.height == viewport_height,
        !output.texture_unavailable,
        output.rgba8@.len() == layout.unpadded_bytes_per_row * layout.rows,
        0 <= row < layout.rows && 0 <= b < layout.unpadded_bytes_per_row ==> output.rgba8@[row
            * layout.unpadded_bytes_per_row + b] == view@[row * layout.padded_bytes_per_row + b],
{
    if 0 <= row < layout.rows && 0 <= b < layout.unpadded_bytes_per_row {
        lemma_unpacked_byte(*layout, view@, output.rgba8@, row, b);
    }
}

/// A staging buffer counts as mapped only when its callback ran and reported
/// success.
pub proof fn law_staging_map(ready: bool, succeeded: bool, result: Result<(), ReplayError>)
    requires
        call_ensures(check_staging_map, (ready, succeeded), result),
    ensures
        ready && succeeded ==> result is Ok,
        !ready || !succeeded ==> (result matches Err(ReplayError::Device(message)) && message@
            == "staging buffer map_async did not complete successfully"@),
{
}

/// A draw call's status follows from its kind and the captured buffers.
pub proof fn law_resource_status(
    replay: &DeepCaptureReplay,
    step: usize,
    status: DrawCallResourceStatus,
)
    requires
        call_ensures(DeepCaptureReplay::resource_status, (replay, step), status),
    ensures
        step >= replay.calls().len() ==> status == DrawCallResourceStatus::NoResource,
        step < replay.calls().len() ==> {
            let call = replay.calls()[step as int];
            if call.kind == DrawCallKind::MonoSprites || call.kind == DrawCallKind::PolySprites
                || call.kind == DrawCallKind::Surfaces {
                status == DrawCallResourceStatus::TextureContentUnavailable
            } else {
                match call.buffer_kind {
                    Some(kind) => {
                        &&& was_captured(replay.source().buffer_contents@, kind) ==> status
                            == DrawCallResourceStatus::Available
                        &&& !was_captured(replay.source().buffer_contents@, kind) ==> status
                            == DrawCallResourceStatus::BufferReadbackMissing
                    },
                    None => status == DrawCallResourceStatus::NoResource,
                }
            }
        },
{
    if step < replay.calls().len() && replay.calls()[step as int].buffer_kind is Some {
        lemma_contents(
            replay.source().buffer_contents@,
            replay.calls()[step as int].buffer_kind->0,
        );
    }
}

/// A new replay stands on the first draw call of its capture.
pub proof fn law_new_replay(capture: DeepCapture, replay: DeepCaptureReplay)
    requires
        call_ensures(DeepCaptureReplay::new, (capture,), replay),
    ensures
        replay.source() == capture,
        replay.calls() == capture.draw_calls@,
        replay.position() == 0,
        replay.wf(),
{
}

/// What a replay says of itself.
pub proof fn law_replay_questions(
    replay: &DeepCaptureReplay,
    capture: &DeepCapture,
    count: usize,
    step: usize,
    call: Option<&DeepCaptureDrawCall>,
)
    requires
        call_ensures(DeepCaptureReplay::capture, (replay,), capture),
        call_ensures(DeepCaptureReplay::draw_call_count, (replay,), count),
        call_ensures(DeepCaptureReplay::current_step, (replay,), step),
        call_ensures(DeepCaptureReplay::current_draw_call, (replay,), call),
        replay.wf(),
    ensures
        *capture == replay.source(),
        count == capture.draw_calls@.len(),
        count == 0 ==> step == 0 && call is None,
        count > 0 ==> step < count,
        count > 0 ==> (call matches Some(call) && *call == capture.draw_calls@[step as int]),
{
}

/// A step forward moves to the next draw call and gives it. At the last one it
/// gives nothing, and nothing moves.
pub proof fn law_step_forward<'a>(
    replay: &'a mut DeepCaptureReplay,
    call: Option<&'a DeepCaptureDrawCall>,
)
    requires
        call_ensures(DeepCaptureReplay::step_to_next_draw_call, (replay,), call),
        old(replay).wf(),
    ensures
        final(replay).source() == old(replay).source(),
        old(replay).position() + 1 < old(replay).calls().len() ==> final(replay).position() == old(
            replay,
        ).position() + 1 && (call matches Some(call) && *call == old(replay).calls()[old(
            replay,
        ).position() + 1]),
        old(replay).position() + 1 >= old(replay).calls().len() ==> final(replay).position() == old(
            replay,
        ).position() && call is None,
{
}

/// A step back moves to the previous draw call and gives it. At the first one it
/// gives nothing, and nothing moves.
pub proof fn law_step_back<'a>(
    replay: &'a mut DeepCaptureReplay,
    call: Option<&'a DeepCaptureDrawCall>,
)
    requires
        call_ensures(DeepCaptureReplay::step_to_previous_draw_call, (replay,), call),
        old(replay).wf(),
    ensures
        final(replay).source() == old(replay).source(),
        old(replay).position() > 0 ==> final(replay).position() == old(replay).position() - 1 && (
        call matches Some(call) && *call == old(replay).calls()[old(replay).position() - 1]),
        old(replay).position() == 0 ==> final(replay).position() == 0 && call is None,
{
}

/// Seeking moves to the step that is asked for and gives its draw call. A step
/// that is not on the stream gives nothing, and nothing moves.
pub proof fn law_seek<'a>(
    replay: &'a mut DeepCaptureReplay,
    step: usize,
    call: Option<&'a DeepCaptureDrawCall>,
)
    requires
        call_ensures(DeepCaptureReplay::seek, (replay, step), call),
    ensures
        final(replay).source() == old(replay).source(),
        step < old(replay).calls().len() ==> final(replay).position() == step && (
        call matches Some(call) && *call == old(replay).calls()[step as int]),
        step >= old(replay).calls().len() ==> final(replay).position() == old(replay).position()
            && call is None,
{
}

/// Resetting moves to the first draw call.
pub proof fn law_reset(replay: &mut DeepCaptureReplay)
    requires
        call_ensures(DeepCaptureReplay::reset, (replay,), ()),
    ensures
        final(replay).source() == old(replay).source(),
        final(replay).position() == 0,
{
}

/// A finished recording hands out its draw calls once, without buffers and
/// complete.
pub proof fn law_recording(
    empty: DeepCaptureRecorder,
    recorder: DeepCaptureRecorder,
    pending: DeepCapturePendingReadback,
)
    requires
        call_ensures(DeepCaptureRecorder::new, (), empty),
        call_ensures(DeepCaptureRecorder::finish, (recorder,), pending),
    ensures
        empty.calls().len() == 0,
        pending.calls() == recorder.calls(),
        pending.finalized(),
{
}

/// Starting the readback leaves everything as it is.
pub proof fn law_begin_readback(pending: &mut DeepCapturePendingReadback)
    requires
        call_ensures(DeepCapturePendingReadback::begin_readback, (pending,), ()),
    ensures
        final(pending).calls() == old(pending).calls(),
        final(pending).finalized() == old(pending).finalized(),
{
}

/// A poll hands out the draw calls that are left, and leaves none.
pub proof fn law_poll(pending: &mut DeepCapturePendingReadback, capture: Option<DeepCapture>)
    requires
        call_ensures(DeepCapturePendingReadback::poll, (pending,), capture),
    ensures
        capture matches Some(capture) && capture.draw_calls@ == old(pending).calls()
            && capture.buffer_contents@.len() == 0 && capture.resources_finalized == old(
            pending,
        ).finalized(),
        final(pending).calls().len() == 0,
        final(pending).finalized() == old(pending).finalized(),
{
}

/// An element's parent is the nearest one before it that is less deep. It has
/// none exactly when nothing before it is less deep.
pub proof fn law_parent(replay: &UiTreeReplay, index: usize, parent: Option<usize>)
    requires
        call_ensures(UiTreeReplay::parent, (replay, index), parent),
    ensures
        ({
            let nodes = replay.source().nodes@;
            &&& index >= nodes.len() ==> parent is None
            &&& index < nodes.len() ==> (parent is None <==> forall|before: int|
                0 <= before < index ==> (#[trigger] nodes[before]).depth >= nodes[index as int].depth)
            &&& (parent matches Some(parent) ==> {
                &&& parent < index
                &&& index < nodes.len()
                &&& nodes[parent as int].depth < nodes[index as int].depth
                &&& forall|between: int|
                    parent < between < index ==> (#[trigger] nodes[between]).depth >= nodes[
                    index as int].depth
            })
        }),
{
    let nodes = replay.source().nodes@;
    let depths = replay.depths();
    if index < nodes.len() {
        lemma_depths(nodes, index as int);
        law_one_parent(depths, index as int);
        assert(depths[index as int] == nodes[index as int].depth);
    }
}

/// What parents and roots are, in terms of the elements' depths.
proof fn lemma_depths(nodes: Seq<UiElementNode>, index: int)
    requires
        0 <= index < nodes.len(),
    ensures
        ({
            let depths = node_depths(nodes);
            &&& depths.len() == nodes.len()
            &&& is_root(depths, index) <==> forall|before: int|
                0 <= before < index ==> (#[trigger] nodes[before]).depth >= nodes[index].depth
            &&& forall|parent: int| #[trigger]
                is_parent(depths, parent, index) <==> 0 <= parent < index && nodes[parent].depth
                    < nodes[index].depth && (forall|between: int|
                    parent < between < index ==> (#[trigger] nodes[between]).depth
                        >= nodes[index].depth)
        }),
{
    let depths = node_depths(nodes);
    assert forall|before: int| 0 <= before < nodes.len() implies #[trigger] nodes[before].depth
        == depths[before] by {}
    assert forall|parent: int| #[trigger] is_parent(depths, parent, index) implies (forall|
        between: int,
    |
        parent < between < index ==> (#[trigger] nodes[between]).depth >= nodes[index].depth) by {
        assert forall|between: int| parent < between < index implies (#[trigger] nodes[between]).depth
            >= nodes[index].depth by {
            assert(depths[between] >= depths[index]);
        }
    }
    if is_root(depths, index) {
        assert forall|before: int| 0 <= before < index implies (#[trigger] nodes[before]).depth
            >= nodes[index].depth by {
            assert(depths[before] >= depths[index]);
        }
    }
}

/// The children of an element are those whose parent it is, in order and each
/// once.
pub proof fn law_children(
    replay: &UiTreeReplay,
    index: usize,
    children: &[usize],
    child: usize,
    parent: Option<usize>,
)
    requires
        call_ensures(UiTreeReplay::children, (replay, index), children),
        call_ensures(UiTreeReplay::parent, (replay, child), parent),
        replay.source().nodes@.len() <= usize::MAX,
    ensures
        children@.contains(child) <==> parent == Some(index),
        forall|i: int, j: int| 0 <= i < j < children@.len() ==> children@[i] < children@[j],
{
    let nodes = replay.source().nodes@;
    let depths = replay.depths();
    law_children_invert_parents(depths, index as int, child);
    if child < nodes.len() {
        law_one_parent(depths, child as int);
    }
}

/// The roots are the elements without a parent, in order and each once.
pub proof fn law_roots(
    replay: &UiTreeReplay,
    roots: &[usize],
    node: usize,
    parent: Option<usize>,
)
    requires
        call_ensures(UiTreeReplay::roots, (replay,), roots),
        call_ensures(UiTreeReplay::parent, (replay, node), parent),
        replay.source().nodes@.len() <= usize::MAX,
    ensures
        roots@.contains(node) <==> node < replay.source().nodes@.len() && parent is None,
        forall|i: int, j: int| 0 <= i < j < roots@.len() ==> roots@[i] < roots@[j],
{
    let nodes = replay.source().nodes@;
    let depths = replay.depths();
    law_roots_have_no_parent(depths, node);
    if node < nodes.len() {
        law_one_parent(depths, node as int);
    }
}

/// What a tree replay says of its capture.
pub proof fn law_tree_questions(
    capture: UiTreeCapture,
    replay: UiTreeReplay,
    same: &UiTreeCapture,
    count: usize,
    index: usize,
    node: Option<&UiElementNode>,
    indices: std::ops::Range<usize>,
    scene: &SceneSnapshot,
)
    requires
        call_ensures(UiTreeReplay::new, (capture,), replay),
        call_ensures(UiTreeReplay::capture, (&replay,), same),
        call_ensures(UiTreeReplay::node_count, (&replay,), count),
        call_ensures(UiTreeReplay::node, (&replay, index), node),
        call_ensures(UiTreeReplay::depth_first_indices, (&replay,), indices),
        call_ensures(UiTreeReplay::scene, (&replay,), scene),
    ensures
        replay.source() == capture,
        *same == capture,
        count == capture.nodes@.len(),
        index < count ==> (node matches Some(node) && *node == capture.nodes@[index as int]),
        index >= count ==> node is None,
        indices.start == 0,
        indices.end == count,
        *scene == capture.scene,
{
}

/// A clone of a tree replay links its elements as the replay does.
pub proof fn law_clone_links_alike(
    replay: &UiTreeReplay,
    copy: UiTreeReplay,
    index: usize,
    parent: Option<usize>,
    copied_parent: Option<usize>,
)
    requires
        call_ensures(UiTreeReplay::clone, (replay,), copy),
        call_ensures(UiTreeReplay::parent, (replay, index), parent),
        call_ensures(UiTreeReplay::parent, (&copy, index), copied_parent),
    ensures
        copy.source().window_id == replay.source().window_id,
        copy.source().nodes@ == replay.source().nodes@,
        copy.source().scene.primitives@ == replay.source().scene.primitives@,
        parent == copied_parent,
{
    if index < replay.source().nodes@.len() {
        law_one_parent(replay.depths(), index as int);
    }
}

/// Clones hold what they were cloned from.
pub proof fn law_clones(
    node: &UiElementNode,
    copied_node: UiElementNode,
    scene: &SceneSnapshot,
    copied_scene: SceneSnapshot,
    capture: &UiTreeCapture,
    copied_capture: UiTreeCapture,
)
    requires
        call_ensures(UiElementNode::clone, (node,), copied_node),
        call_ensures(SceneSnapshot::clone, (scene,), copied_scene),
        call_ensures(UiTreeCapture::clone, (capture,), copied_capture),
    ensures
        copied_node == *node,
        copied_scene.primitives@ == scene.primitives@,
        copied_capture.window_id == capture.window_id,
        copied_capture.nodes@ == capture.nodes@,
        copied_capture.scene.primitives@ == capture.scene.primitives@,
{
}

/// Defaults are empty.
pub proof fn law_defaults(bounds: UiBounds, scene: SceneSnapshot, capture: UiTreeCapture)
    requires
        call_ensures(UiBounds::default, (), bounds),
        call_ensures(SceneSnapshot::default, (), scene),
        call_ensures(UiTreeCapture::default, (), capture),
    ensures
        bounds.x_bits == 0 && bounds.y_bits == 0,
        bounds.width_bits == 0 && bounds.height_bits == 0,
        scene.primitives@ == Seq::<ScenePrimitive>::empty(),
        capture.window_id == 0,
        capture.nodes@.len() == 0,
        capture.scene.primitives@.len() == 0,
{
}

} // verus!
