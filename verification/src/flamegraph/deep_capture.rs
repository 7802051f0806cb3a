//! On-demand GPU deep capture: one frame's command stream and the buffer
//! contents it read.

use vstd::prelude::*;

verus! {

/// What a draw call draws.
#[derive(Debug, Clone, Copy, PartialEq, Eq, Structural)]
pub enum DrawCallKind {
    /// Solid, bordered and rounded rectangles.
    Quads,
    /// Box shadows.
    Shadows,
    /// Text underlines.
    Underlines,
    /// Backdrop filters.
    BackdropFilters,
    /// Vector paths.
    Paths,
    /// Single-channel atlas sprites.
    MonoSprites,
    /// Colored atlas sprites.
    PolySprites,
    /// Embedded surfaces.
    Surfaces,
}

/// The fixed buffer that a draw call reads.
#[derive(Debug, Clone, Copy, PartialEq, Eq, Structural)]
pub enum DeepCaptureBufferKind {
    /// Quad instances.
    Quads,
    /// Shadow instances.
    Shadows,
    /// Underline instances.
    Underlines,
    /// Backdrop-filter instances.
    BackdropFilters,
    /// Path vertices.
    Paths,
    /// Single-channel sprite instances.
    MonoSprites,
    /// Colored sprite instances.
    PolySprites,
}

/// One recorded draw call.
#[derive(Debug, Clone, Copy)]
pub struct DeepCaptureDrawCall {
    /// Position in the command stream.
    pub sequence: u32,
    /// What is drawn.
    pub kind: DrawCallKind,
    /// Label of the pipeline.
    pub pipeline_label: &'static str,
    /// Label of the render pass.
    pub pass_label: &'static str,
    /// First and past-the-last vertex.
    pub vertex_range: (u32, u32),
    /// First and past-the-last instance.
    pub instance_range: (u32, u32),
    /// Number of bind groups set.
    pub bind_group_count: u32,
    /// The fixed buffer the call reads, if any.
    pub buffer_kind: Option<DeepCaptureBufferKind>,
    /// The atlas texture the call reads, if any.
    pub atlas_texture_id: Option<u32>,
}

/// The bytes of one fixed buffer.
#[derive(Debug, Clone)]
pub struct DeepCaptureBufferContents {
    /// Which buffer.
    pub kind: DeepCaptureBufferKind,
    /// Its bytes.
    pub bytes: Vec<u8>,
}

/// One frame's captured command stream.
#[derive(Debug, Clone)]
pub struct DeepCapture {
    /// The draw calls, in submission order.
    pub draw_calls: Vec<DeepCaptureDrawCall>,
    /// The buffers whose readback completed.
    pub buffer_contents: Vec<DeepCaptureBufferContents>,
    /// Whether every touched buffer was read back.
    pub resources_finalized: bool,
}

/// Whether `i` is the first entry for the buffer `kind`.
pub open spec fn is_first_of_kind(
    contents: Seq<DeepCaptureBufferContents>,
    kind: DeepCaptureBufferKind,
    i: int,
) -> bool {
    &&& 0 <= i < contents.len()
    &&& contents[i].kind == kind
    &&& forall|j: int| 0 <= j < i ==> (#[trigger] contents[j]).kind != kind
}

/// The captured contents of the buffer `kind`, if it was read back.
pub open spec fn contents_of(
    contents: Seq<DeepCaptureBufferContents>,
    kind: DeepCaptureBufferKind,
) -> Option<DeepCaptureBufferContents> {
    if exists|i: int| is_first_of_kind(contents, kind, i) {
        Some(contents[choose|i: int| is_first_of_kind(contents, kind, i)])
    } else {
        None
    }
}

impl DeepCapture {
    /// The captured contents of the buffer `kind`, if it was read back.
    pub fn buffer_contents(&self, kind: DeepCaptureBufferKind) -> (contents: Option<
        &DeepCaptureBufferContents,
    >)
        ensures
            contents == match contents_of(self.buffer_contents@, kind) {
                Some(found) => Some(&found),
                None => None,
            },
    {
        let ghost all = self.buffer_contents@;
        let mut i: usize = 0;
        while i < self.buffer_contents.len()
            invariant
                all == self.buffer_contents@,
                i <= all.len(),
                forall|j: int| 0 <= j < i ==> (#[trigger] all[j]).kind != kind,
            decreases all.len() - i,
        {
            if self.buffer_contents[i].kind == kind {
                proof {
                    assert(is_first_of_kind(all, kind, i as int));
                    let first = choose|j: int| is_first_of_kind(all, kind, j);
                    assert(is_first_of_kind(all, kind, first));
                    assert(first == i);
                }
                return Some(&self.buffer_contents[i]);
            }
            i = i + 1;
        }
        None
    }
}

/// Accumulates one triggered frame's command stream.
pub struct DeepCaptureRecorder {
    draw_calls: Vec<DeepCaptureDrawCall>,
}

impl DeepCaptureRecorder {
    /// The draw calls recorded so far.
    pub closed spec fn calls(&self) -> Seq<DeepCaptureDrawCall> {
        self.draw_calls@
    }

    /// A recorder without draw calls.
    pub fn new() -> (recorder: Self)
        ensures
            recorder.calls() == Seq::<DeepCaptureDrawCall>::empty(),
    {
        DeepCaptureRecorder { draw_calls: Vec::new() }
    }

    /// Finish recording and hand off to the readback phase. No buffers are
    /// read back, so the resources count as final.
    pub fn finish(self) -> (pending: DeepCapturePendingReadback)
        ensures
            pending.calls() == self.calls(),
            pending.finalized(),
    {
        DeepCapturePendingReadback { draw_calls: self.draw_calls, resources_finalized: true }
    }
}

/// A deep capture's command stream, waiting for readback.
pub struct DeepCapturePendingReadback {
    draw_calls: Vec<DeepCaptureDrawCall>,
    resources_finalized: bool,
}

impl DeepCapturePendingReadback {
    /// The draw calls not handed out yet.
    pub closed spec fn calls(&self) -> Seq<DeepCaptureDrawCall> {
        self.draw_calls@
    }

    /// Whether every touched buffer counts as read back.
    pub closed spec fn finalized(&self) -> bool {
        self.resources_finalized
    }

    /// Start the readback of touched buffers. There are none.
    pub fn begin_readback(&mut self)
        ensures
            final(self).calls() == old(self).calls(),
            final(self).finalized() == old(self).finalized(),
    {
    }

    /// Hand out the finished capture. With nothing to read back it is ready at
    /// once; the draw calls move into it, so a later poll yields an empty one.
    pub fn poll(&mut self) -> (capture: Option<DeepCapture>)
        ensures
            final(self).calls() == Seq::<DeepCaptureDrawCall>::empty(),
            final(self).finalized() == old(self).finalized(),
            capture matches Some(capture) && capture.draw_calls@ == old(self).calls()
                && capture.buffer_contents@ == Seq::<DeepCaptureBufferContents>::empty()
                && capture.resources_finalized == old(self).finalized(),
    {
        let mut draw_calls: Vec<DeepCaptureDrawCall> = Vec::new();
        std::mem::swap(&mut draw_calls, &mut self.draw_calls);
        Some(
            DeepCapture {
                draw_calls,
                buffer_contents: Vec::new(),
                resources_finalized: self.resources_finalized,
            },
        )
    }
}

} // verus!
