//! Which draw calls can be replayed, and what to submit for them.

use crate::flamegraph::deep_capture::{
    contents_of, DeepCapture, DeepCaptureBufferKind, DeepCaptureDrawCall, DrawCallKind,
};
use crate::flamegraph_replay::command_stream::{
    reads_texture, status_of, DeepCaptureReplay, DrawCallResourceStatus,
};
use crate::flamegraph_replay::pixels::{
    is_checkerboard, pixel_bytes, pixel_offset, placeholder_checkerboard_rgba, row_in,
    rows_unpacked, ReadbackLayout, ReplayRenderOutput,
};
use vstd::prelude::*;

verus! {

/// Side of a placeholder checkerboard square, in pixels.
pub const PLACEHOLDER_CELL: u32 = 16;

/// Errors from [`render_deep_capture_step`] and from the device that carries
/// its work out.
#[derive(Debug)]
pub enum ReplayError {
    /// The step is not a valid index into the capture's command stream.
    StepOutOfRange(usize),
    /// Draw calls of this kind cannot be replayed.
    UnsupportedDrawCallKind(DrawCallKind),
    /// The draw call reads a fixed buffer that was not captured.
    MissingBufferContents(DeepCaptureBufferKind),
    /// The viewport was zero in one dimension.
    EmptyViewport,
    /// A device-side operation failed.
    Device(String),
}

/// A quad draw call to submit: the captured buffer, and which part of it to
/// draw.
pub struct QuadsDraw<'a> {
    /// The captured quad buffer.
    pub quads_bytes: &'a [u8],
    /// Size of the buffer to create for it: at least one byte.
    pub buffer_size: usize,
    /// First and past-the-last vertex.
    pub vertex_range: (u32, u32),
    /// First and past-the-last instance.
    pub instance_range: (u32, u32),
}

/// What replaying a draw call comes to.
pub enum ReplayStep<'a> {
    /// Texture content is unavailable: a finished placeholder image.
    Placeholder(ReplayRenderOutput),
    /// A draw call to submit to a device.
    DrawQuads(QuadsDraw<'a>),
}

/// Why the draw call at `step` cannot be replayed into a viewport of the given
/// size, if it cannot.
pub open spec fn replay_error(
    capture: DeepCapture,
    step: usize,
    viewport_width: u32,
    viewport_height: u32,
) -> Option<ReplayError> {
    if viewport_width == 0 || viewport_height == 0 {
        Some(ReplayError::EmptyViewport)
    } else if step >= capture.draw_calls@.len() {
        Some(ReplayError::StepOutOfRange(step))
    } else {
        let call = capture.draw_calls@[step as int];
        if reads_texture(call.kind) {
            None
        } else if call.kind != DrawCallKind::Quads {
            Some(ReplayError::UnsupportedDrawCallKind(call.kind))
        } else {
            match call.buffer_kind {
                Some(kind) => if contents_of(capture.buffer_contents@, kind) is Some {
                    None
                } else {
                    Some(ReplayError::MissingBufferContents(kind))
                },
                None => Some(ReplayError::UnsupportedDrawCallKind(call.kind)),
            }
        }
    }
}

/// Whether replaying the draw call at `step` yields a placeholder image.
pub open spec fn needs_placeholder(capture: DeepCapture, step: usize) -> bool {
    step < capture.draw_calls@.len() && reads_texture(capture.draw_calls@[step as int].kind)
}

/// Decide how to replay the draw call at `step` into a viewport of the given
/// size. Quads are drawn from their captured buffer; draw calls that read
/// texture content degrade to a placeholder; other kinds are refused.
pub fn render_deep_capture_step<'a>(
    replay: &'a DeepCaptureReplay,
    step: usize,
    viewport_width: u32,
    viewport_height: u32,
) -> (result: Result<ReplayStep<'a>, ReplayError>)
    requires
        needs_placeholder(replay.source(), step) ==> viewport_width * viewport_height * 4
            <= u32::MAX,
    ensures
        ({
            let error = replay_error(replay.source(), step, viewport_width, viewport_height);
            match result {
                Err(actual) => error == Some(actual),
                Ok(ReplayStep::Placeholder(output)) => {
                    &&& error is None
                    &&& needs_placeholder(replay.source(), step)
                    &&& output.width == viewport_width
                    &&& output.height == viewport_height
                    &&& output.texture_unavailable
                    &&& is_checkerboard(
                        output.rgba8@,
                        viewport_width as int,
                        viewport_height as int,
                        PLACEHOLDER_CELL as int,
                    )
                },
                Ok(ReplayStep::DrawQuads(draw)) => {
                    let call = replay.calls()[step as int];
                    let contents = contents_of(
                        replay.source().buffer_contents@,
                        call.buffer_kind->0,
                    )->0;
                    &&& error is None
                    &&& !needs_placeholder(replay.source(), step)
                    &&& draw.quads_bytes@ == contents.bytes@
                    &&& draw.buffer_size == if contents.bytes@.len() == 0 {
                        1
                    } else {
                        contents.bytes@.len()
                    }
                    &&& draw.vertex_range == call.vertex_range
                    &&& draw.instance_range == call.instance_range
                },
            }
        }),
{
    if viewport_width == 0 || viewport_height == 0 {
        return Err(ReplayError::EmptyViewport);
    }
    let capture = replay.capture();
    if step >= capture.draw_calls.len() {
        return Err(ReplayError::StepOutOfRange(step));
    }
    let call: DeepCaptureDrawCall = capture.draw_calls[step];
    match call.kind {
        DrawCallKind::MonoSprites | DrawCallKind::PolySprites | DrawCallKind::Surfaces => {
            return Ok(
                ReplayStep::Placeholder(
                    ReplayRenderOutput {
                        width: viewport_width,
                        height: viewport_height,
                        rgba8: placeholder_checkerboard_rgba(
                            viewport_width,
                            viewport_height,
                            PLACEHOLDER_CELL,
                        ),
                        texture_unavailable: true,
                    },
                ),
            );
        },
        DrawCallKind::Quads => {},
        other => {
            return Err(ReplayError::UnsupportedDrawCallKind(other));
        },
    }
    let buffer_kind = match call.buffer_kind {
        Some(kind) => kind,
        None => {
            return Err(ReplayError::UnsupportedDrawCallKind(call.kind));
        },
    };
    match capture.buffer_contents(buffer_kind) {
        Some(contents) => Ok(
            ReplayStep::DrawQuads(
                QuadsDraw {
                    quads_bytes: contents.bytes.as_slice(),
                    buffer_size: if contents.bytes.len() == 0 {
                        1
                    } else {
                        contents.bytes.len()
                    },
                    vertex_range: call.vertex_range,
                    instance_range: call.instance_range,
                },
            ),
        ),
        None => Err(ReplayError::MissingBufferContents(buffer_kind)),
    }
}

/// Whether the staging buffer was mapped: its callback ran, and reported
/// success.
pub fn check_staging_map(ready: bool, succeeded: bool) -> (result: Result<(), ReplayError>)
    ensures
        result is Ok <==> ready && succeeded,
        result matches Err(error) ==> error matches ReplayError::Device(message) && message@
            == "staging buffer map_async did not complete successfully"@,
{
    if !ready || !succeeded {
        return Err(
            ReplayError::Device(
                String::from_str("staging buffer map_async did not complete successfully"),
            ),
        );
    }
    Ok(())
}

/// The output of a replayed draw call, from the mapped staging buffer.
pub fn rendered_output(
    viewport_width: u32,
    viewport_height: u32,
    layout: &ReadbackLayout,
    view: &[u8],
) -> (output: ReplayRenderOutput)
    requires
        layout.wf(),
        view@.len() >= layout.staging_size,
    ensures
        output.width == viewport_width,
        output.height == viewport_height,
        !output.texture_unavailable,
        rows_unpacked(*layout, view@, output.rgba8@),
{
    ReplayRenderOutput {
        width: viewport_width,
        height: viewport_height,
        rgba8: layout.unpack(view),
        texture_unavailable: false,
    }
}

/// What a draw call's resource status says of its replay, in a viewport that
/// is not empty: texture content is replaced by a placeholder; a buffer that is
/// missing cannot be replayed; a quad draw call can exactly when its buffer is
/// available.
pub proof fn law_status_predicts_replay(
    capture: DeepCapture,
    step: usize,
    viewport_width: u32,
    viewport_height: u32,
)
    requires
        viewport_width > 0,
        viewport_height > 0,
    ensures
        ({
            let status = status_of(capture, step as int);
            let error = replay_error(capture, step, viewport_width, viewport_height);
            &&& status == DrawCallResourceStatus::TextureContentUnavailable ==> error is None
                && needs_placeholder(capture, step)
            &&& status == DrawCallResourceStatus::BufferReadbackMissing ==> error is Some
            &&& status == DrawCallResourceStatus::NoResource ==> error is Some
            &&& step < capture.draw_calls@.len() && capture.draw_calls@[step as int].kind
                == DrawCallKind::Quads ==> (error is None <==> status
                == DrawCallResourceStatus::Available)
        }),
{
}

/// A rendered pixel is the one that was read back: row after row, without the
/// padding between them.
pub proof fn law_rendered_pixels_are_those_read_back(
    layout: ReadbackLayout,
    view: Seq<u8>,
    rgba8: Seq<u8>,
    width: int,
    x: int,
    y: int,
)
    requires
        layout.wf(),
        layout.unpadded_bytes_per_row == width * 4,
        view.len() >= layout.staging_size,
        rows_unpacked(layout, view, rgba8),
        0 <= x < width,
        0 <= y < layout.rows,
    ensures
        pixel_bytes(rgba8, width, x, y) == view.subrange(
            y * layout.padded_bytes_per_row + x * 4,
            y * layout.padded_bytes_per_row + x * 4 + 4,
        ),
{
    let length = layout.unpadded_bytes_per_row as int;
    let stride = layout.padded_bytes_per_row as int;
    let row = rgba8.subrange(y * length, y * length + length);
    assert(row == row_in(layout, view, y));
    assert(pixel_offset(width, x, y) == y * length + x * 4) by (nonlinear_arith)
        requires
            length == width * 4,
            pixel_offset(width, x, y) == (y * width + x) * 4,
    ;
    assert(0 <= y * length && y * length + length <= length * layout.rows) by (nonlinear_arith)
        requires
            0 <= y < layout.rows,
            0 <= length,
    ;
    assert(0 <= y * stride && y * stride + stride <= stride * layout.rows) by (nonlinear_arith)
        requires
            0 <= y < layout.rows,
            0 <= stride,
    ;
    assert(pixel_bytes(rgba8, width, x, y) == row.subrange(x * 4, x * 4 + 4));
    assert(row_in(layout, view, y).subrange(x * 4, x * 4 + 4) == view.subrange(
        y * stride + x * 4,
        y * stride + x * 4 + 4,
    ));
}

} // verus!
