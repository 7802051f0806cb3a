//! Stepping cursor over a deep capture's draw calls.

use crate::flamegraph::deep_capture::{
    contents_of, DeepCapture, DeepCaptureDrawCall, DrawCallKind,
};
use vstd::prelude::*;

verus! {

/// Whether the resource a draw call depends on is available to replay
/// against.
#[derive(Debug, Clone, Copy, PartialEq, Eq, Structural)]
pub enum DrawCallResourceStatus {
    /// The fixed buffer this draw call reads was captured.
    Available,
    /// The fixed buffer this draw call reads was not read back.
    BufferReadbackMissing,
    /// This draw call reads texture content, which is never read back.
    TextureContentUnavailable,
    /// There is no such draw call, or it reads no fixed buffer.
    NoResource,
}

/// Whether draw calls of this kind read texture content.
pub open spec fn reads_texture(kind: DrawCallKind) -> bool {
    kind == DrawCallKind::MonoSprites || kind == DrawCallKind::PolySprites || kind
        == DrawCallKind::Surfaces
}

/// Resource availability for the draw call at `step`.
pub open spec fn status_of(capture: DeepCapture, step: int) -> DrawCallResourceStatus {
    if !(0 <= step < capture.draw_calls@.len()) {
        DrawCallResourceStatus::NoResource
    } else if reads_texture(capture.draw_calls@[step].kind) {
        DrawCallResourceStatus::TextureContentUnavailable
    } else {
        match capture.draw_calls@[step].buffer_kind {
            Some(kind) => if contents_of(capture.buffer_contents@, kind) is Some {
                DrawCallResourceStatus::Available
            } else {
                DrawCallResourceStatus::BufferReadbackMissing
            },
            None => DrawCallResourceStatus::NoResource,
        }
    }
}

/// Where a step forward takes a cursor over `count` draw calls.
pub open spec fn next_position(position: int, count: int) -> int {
    if position + 1 < count {
        position + 1
    } else {
        position
    }
}

/// Where a step back takes a cursor.
pub open spec fn previous_position(position: int) -> int {
    if position > 0 {
        position - 1
    } else {
        0
    }
}

/// Where seeking `step` takes a cursor over `count` draw calls.
pub open spec fn seek_position(position: int, count: int, step: int) -> int {
    if step < count {
        step
    } else {
        position
    }
}

/// Where `steps` steps forward take a cursor.
pub open spec fn position_after(position: int, count: int, steps: nat) -> int
    decreases steps,
{
    if steps == 0 {
        position
    } else {
        next_position(position_after(position, count, (steps - 1) as nat), count)
    }
}

/// The cursor never runs off the command stream: from a position on a draw
/// call, or from zero, every movement leads to such a position.
pub proof fn law_cursor_stays_on_stream(position: int, count: int, step: int)
    requires
        0 <= position,
        0 <= count,
        0 <= step,
        position < count || position == 0,
    ensures
        0 <= next_position(position, count),
        next_position(position, count) < count || next_position(position, count) == 0,
        0 <= previous_position(position),
        previous_position(position) < count || previous_position(position) == 0,
        0 <= seek_position(position, count, step),
        seek_position(position, count, step) < count || seek_position(position, count, step) == 0,
{
}

/// A step back undoes a step forward that moved, and the other way round.
pub proof fn law_steps_undo(position: int, count: int)
    requires
        0 <= position < count,
    ensures
        position + 1 < count ==> previous_position(next_position(position, count)) == position,
        0 < position ==> next_position(previous_position(position), count) == position,
{
}

/// Stepping forward from the first draw call visits the stream in order, and
/// parks at the last one: as many steps lead where seeking leads directly.
pub proof fn law_steps_reach_every_call(count: int, steps: nat)
    requires
        0 < count,
    ensures
        steps < count ==> position_after(0, count, steps) == seek_position(0, count, steps as int),
        steps >= count ==> position_after(0, count, steps) == count - 1,
    decreases steps,
{
    if steps > 0 {
        law_steps_reach_every_call(count, (steps - 1) as nat);
    }
}

/// Stepping cursor over one capture's command stream. The cursor always
/// stands on a draw call, unless there is none.
#[derive(Debug, Clone)]
pub struct DeepCaptureReplay {
    capture: DeepCapture,
    cursor: usize,
}

impl DeepCaptureReplay {
    /// The capture this replay was built from.
    pub closed spec fn source(&self) -> DeepCapture {
        self.capture
    }

    /// Where the cursor stands.
    pub closed spec fn position(&self) -> usize {
        self.cursor
    }

    /// The captured draw calls.
    pub open spec fn calls(&self) -> Seq<DeepCaptureDrawCall> {
        self.source().draw_calls@
    }

    /// The cursor stands on a draw call, or at zero when there is none.
    pub open spec fn wf(&self) -> bool {
        self.position() < self.calls().len() || self.position() == 0
    }

    /// Whether `self` is `before` with the cursor at `position`.
    pub open spec fn moved_to(&self, before: DeepCaptureReplay, position: int) -> bool {
        self.source() == before.source() && self.position() == position
    }

    /// A replay positioned at the first draw call.
    pub fn new(capture: DeepCapture) -> (replay: Self)
        ensures
            replay.wf(),
            replay.source() == capture,
            replay.position() == 0,
    {
        DeepCaptureReplay { capture, cursor: 0 }
    }

    /// The underlying capture this replay was built from.
    pub fn capture(&self) -> (capture: &DeepCapture)
        ensures
            *capture == self.source(),
    {
        &self.capture
    }

    /// Number of draw calls in the captured command stream.
    pub fn draw_call_count(&self) -> (count: usize)
        ensures
            count == self.calls().len(),
    {
        self.capture.draw_calls.len()
    }

    /// The cursor's current position. Always `0` when the capture has no draw
    /// calls.
    pub fn current_step(&self) -> (step: usize)
        requires
            self.wf(),
        ensures
            step == self.position(),
            self.calls().len() == 0 ==> step == 0,
    {
        self.cursor
    }

    /// The draw call at the cursor's current position: `None` only when the
    /// capture has no draw calls at all.
    pub fn current_draw_call(&self) -> (call: Option<&DeepCaptureDrawCall>)
        requires
            self.wf(),
        ensures
            call == if self.calls().len() > 0 {
                Some(&self.calls()[self.position() as int])
            } else {
                None
            },
    {
        if self.cursor < self.capture.draw_calls.len() {
            Some(&self.capture.draw_calls[self.cursor])
        } else {
            None
        }
    }

    /// Move the cursor back to the first draw call.
    pub fn reset(&mut self)
        ensures
            final(self).wf(),
            final(self).moved_to(*old(self), 0),
    {
        self.cursor = 0;
    }

    /// Move the cursor to the next draw call and return it. Returns `None`
    /// without moving the cursor at the last draw call, or when there is none.
    pub fn step_to_next_draw_call(&mut self) -> (call: Option<&DeepCaptureDrawCall>)
        requires
            old(self).wf(),
        ensures
            final(self).wf(),
            final(self).moved_to(
                *old(self),
                next_position(old(self).position() as int, old(self).calls().len() as int),
            ),
            call == if old(self).position() + 1 < old(self).calls().len() {
                Some(&old(self).calls()[old(self).position() + 1])
            } else {
                None
            },
    {
        let count: usize = self.capture.draw_calls.len();
        if count == 0 || self.cursor >= count - 1 {
            return None;
        }
        self.cursor = self.cursor + 1;
        Some(&self.capture.draw_calls[self.cursor])
    }

    /// Move the cursor to the previous draw call and return it. Returns
    /// `None` without moving the cursor at the first draw call, or when there
    /// is none.
    pub fn step_to_previous_draw_call(&mut self) -> (call: Option<&DeepCaptureDrawCall>)
        requires
            old(self).wf(),
        ensures
            final(self).wf(),
            final(self).moved_to(*old(self), previous_position(old(self).position() as int)),
            call == if old(self).position() > 0 {
                Some(&old(self).calls()[old(self).position() - 1])
            } else {
                None
            },
    {
        if self.cursor == 0 {
            return None;
        }
        self.cursor = self.cursor - 1;
        Some(&self.capture.draw_calls[self.cursor])
    }

    /// Move the cursor directly to `step` and return the draw call there. Does
    /// nothing and returns `None` if `step` is out of range.
    pub fn seek(&mut self, step: usize) -> (call: Option<&DeepCaptureDrawCall>)
        requires
            old(self).wf(),
        ensures
            final(self).wf(),
            final(self).moved_to(
                *old(self),
                seek_position(
                    old(self).position() as int,
                    old(self).calls().len() as int,
                    step as int,
                ),
            ),
            call == if step < old(self).calls().len() {
                Some(&old(self).calls()[step as int])
            } else {
                None
            },
    {
        if step >= self.capture.draw_calls.len() {
            return None;
        }
        self.cursor = step;
        Some(&self.capture.draw_calls[step])
    }

    /// Resource availability for the draw call at `step`, independent of the
    /// cursor's position.
    pub fn resource_status(&self, step: usize) -> (status: DrawCallResourceStatus)
        ensures
            status == status_of(self.source(), step as int),
    {
        if step >= self.capture.draw_calls.len() {
            return DrawCallResourceStatus::NoResource;
        }
        let call: DeepCaptureDrawCall = self.capture.draw_calls[step];
        match call.kind {
            DrawCallKind::MonoSprites | DrawCallKind::PolySprites | DrawCallKind::Surfaces => {
                DrawCallResourceStatus::TextureContentUnavailable
            },
            _ => match call.buffer_kind {
                Some(kind) => {
                    if self.capture.buffer_contents(kind).is_some() {
                        DrawCallResourceStatus::Available
                    } else {
                        DrawCallResourceStatus::BufferReadbackMissing
                    }
                },
                None => DrawCallResourceStatus::NoResource,
            },
        }
    }
}

} // verus!
