//! The profiler: which capture session is active, and what call sites ask of
//! it.

use crate::flamegraph::model::{
    frame_models, uncalibrated, FrameCapture, FrameModel, GpuClockCalibration, GpuSpan, Moment,
};
use crate::flamegraph::recorder::{RecorderModel, ThreadRegistry};
use crate::flamegraph::session::{
    frame_closed, frame_opened, frames_closed, fresh_session, gpu_spans_attached, last_opened,
    lists_open_frames, open_order, recorders_after_close, recorders_after_closes, session_wf,
    AlreadyCapturingError, CaptureOptions, CaptureState, SessionModel,
};
use std::collections::VecDeque;
use vstd::prelude::*;
use vstd::std_specs::iter::IteratorSpec;
use vstd::std_specs::vecdeque::into_iter_elts;

verus! {

/// The process-wide profiler state: at most one active capture session, and
/// the GPU clock calibration of the latest GPU-capturing session.
pub struct Profiler {
    active: Option<CaptureState>,
    calibration: GpuClockCalibration,
}

/// What a [`Profiler`] holds.
#[verifier::ext_equal]
pub struct ProfilerModel {
    /// The active session, if a capture is recording.
    pub active: Option<SessionModel>,
    /// The GPU clock calibration.
    pub calibration: GpuClockCalibration,
}

impl View for Profiler {
    type V = ProfilerModel;

    closed spec fn view(&self) -> ProfilerModel {
        ProfilerModel {
            active: match self.active {
                Some(state) => Some(state@),
                None => None,
            },
            calibration: self.calibration,
        }
    }
}

impl Profiler {
    /// The active session, if any, is well formed.
    pub open spec fn wf(&self) -> bool {
        self@.active matches Some(session) ==> session_wf(session)
    }

    /// A profiler that is not recording.
    pub fn new() -> (profiler: Self)
        ensures
            profiler.wf(),
            profiler@ == (ProfilerModel { active: None, calibration: uncalibrated() }),
    {
        Profiler { active: None, calibration: GpuClockCalibration::default() }
    }
}

/// A handle to the capture session in progress. Dropping it without calling
/// [`CaptureHandle::stop`] leaves the capture running.
pub struct CaptureHandle {
    _session: (),
}

/// A stopped capture session: the frames it kept, ready to be inspected or
/// exported.
#[derive(Debug)]
pub struct Capture {
    anchor: Moment,
    frames: VecDeque<FrameCapture>,
    /// Frame-count bound this capture was configured with.
    pub max_frames: usize,
}

/// What a [`Capture`] holds.
#[verifier::ext_equal]
pub struct CaptureModel {
    /// The moment that every `_ns` value of the capture counts from.
    pub anchor: Moment,
    /// The frames, oldest first.
    pub frames: Seq<FrameModel>,
    /// Frame-count bound this capture was configured with.
    pub max_frames: usize,
}

impl View for Capture {
    type V = CaptureModel;

    closed spec fn view(&self) -> CaptureModel {
        CaptureModel {
            anchor: self.anchor,
            frames: frame_models(self.frames@),
            max_frames: self.max_frames,
        }
    }
}

impl Capture {
    /// Iterate over captured frames, oldest first.
    pub fn frames(&self) -> (frames: std::collections::vec_deque::Iter<'_, FrameCapture>)
        ensures
            into_iter_elts(frames).len() == self@.frames.len(),
            forall|i: int|
                0 <= i < self@.frames.len() ==> (#[trigger] into_iter_elts(frames)[i])@
                    == self@.frames[i],
            frames.initial_value_relation(&frames),
            frames.decrease() is Some,
    {
        let frames = self.frames.iter();
        assert(into_iter_elts(frames) == self.frames@.as_ref());
        frames
    }

    /// Number of frames currently held.
    pub fn frame_count(&self) -> (count: usize)
        ensures
            count == self@.frames.len(),
    {
        self.frames.len()
    }

    /// The moment that the capture's `_ns` values count from.
    pub fn anchor(&self) -> (anchor: Moment)
        ensures
            anchor == self@.anchor,
    {
        self.anchor
    }

    /// The frame at position `index`, oldest first.
    pub(crate) fn frame_at(&self, index: usize) -> (frame: &FrameCapture)
        requires
            index < self@.frames.len(),
        ensures
            frame@ == self@.frames[index as int],
    {
        &self.frames[index]
    }
}

/// Start a new capture session at `now`. Only one session may be active at a
/// time; starting a second one is an error that leaves the first running.
pub fn start_capture(profiler: &mut Profiler, options: CaptureOptions, now: Moment) -> (result:
    Result<CaptureHandle, AlreadyCapturingError>)
    requires
        old(profiler).wf(),
    ensures
        final(profiler).wf(),
        result is Err <==> old(profiler)@.active is Some,
        result is Err ==> final(profiler)@ == old(profiler)@,
        result is Ok ==> final(profiler)@ == (ProfilerModel {
            active: Some(fresh_session(options, now)),
            ..old(profiler)@
        }),
{
    if profiler.active.is_some() {
        return Err(AlreadyCapturingError);
    }
    profiler.active = Some(CaptureState::new(options, now));
    Ok(CaptureHandle { _session: () })
}

/// Whether a capture is currently recording.
pub fn capture_enabled(profiler: &Profiler) -> (enabled: bool)
    ensures
        enabled == (profiler@.active is Some),
{
    profiler.active.is_some()
}

/// The session's GPU clock calibration, or an all-zero one if no
/// GPU-capturing session has ever run.
pub fn gpu_calibration(profiler: &Profiler) -> (calibration: GpuClockCalibration)
    ensures
        calibration == profiler@.calibration,
{
    profiler.calibration
}

/// Replace the GPU clock calibration.
pub fn set_gpu_calibration(profiler: &mut Profiler, calibration: GpuClockCalibration)
    requires
        old(profiler).wf(),
    ensures
        final(profiler).wf(),
        final(profiler)@ == (ProfilerModel { calibration, ..old(profiler)@ }),
{
    profiler.calibration = calibration;
}

/// Whether the active capture, if any, wants GPU spans.
pub fn active_capture_wants_gpu(profiler: &Profiler) -> (wanted: bool)
    ensures
        wanted == (profiler@.active matches Some(session) && session.capture_gpu),
{
    match &profiler.active {
        Some(state) => state.capture_gpu(),
        None => false,
    }
}

/// The frame opened last in the active capture, to tag GPU work with the
/// frame it belongs to.
pub fn current_gpu_correlation_frame_index(profiler: &Profiler) -> (index: Option<u64>)
    ensures
        index == match profiler@.active {
            Some(session) => last_opened(session),
            None => None,
        },
{
    match &profiler.active {
        Some(state) => state.last_opened_frame_index(),
        None => None,
    }
}

/// Attach resolved GPU spans to the frame they belong to, if the active
/// capture still holds that frame.
pub fn attach_gpu_spans(
    profiler: &mut Profiler,
    frame_index: u64,
    spans: Vec<GpuSpan>,
    truncated: bool,
)
    requires
        old(profiler).wf(),
    ensures
        final(profiler).wf(),
        final(profiler)@ == (ProfilerModel {
            active: match old(profiler)@.active {
                Some(session) => Some(
                    SessionModel {
                        finished_frames: gpu_spans_attached(
                            session.finished_frames,
                            frame_index,
                            spans@,
                            truncated,
                        ),
                        ..session
                    },
                ),
                None => None,
            },
            ..old(profiler)@
        }),
{
    match &mut profiler.active {
        Some(state) => state.attach_gpu_spans(frame_index, spans, truncated),
        None => {},
    }
}

/// Open a frame of `window_id` at `now`. Returns its index, or `None` when no
/// capture is active.
pub fn open_frame_cpu_side(profiler: &mut Profiler, window_id: u64, now: Moment) -> (index: Option<
    u64,
>)
    requires
        old(profiler).wf(),
    ensures
        final(profiler).wf(),
        match old(profiler)@.active {
            Some(session) => {
                &&& index == Some(session.next_frame_index)
                &&& final(profiler)@ == (ProfilerModel {
                    active: Some(frame_opened(session, window_id, now)),
                    ..old(profiler)@
                })
            },
            None => index is None && final(profiler)@ == old(profiler)@,
        },
{
    match &mut profiler.active {
        Some(state) => Some(state.open_frame(window_id, now)),
        None => None,
    }
}

/// Close a frame that [`open_frame_cpu_side`] opened on the thread
/// `thread_id`. `None`, and an index that is not open, change nothing.
pub fn close_frame_cpu_side(
    profiler: &mut Profiler,
    frame_index: Option<u64>,
    now: Moment,
    registry: &mut ThreadRegistry,
    thread_id: u64,
)
    requires
        old(profiler).wf(),
        old(registry).wf(),
    ensures
        final(profiler).wf(),
        final(registry).wf(),
        match (old(profiler)@.active, frame_index) {
            (Some(session), Some(index)) => {
                &&& final(profiler)@ == (ProfilerModel {
                    active: Some(
                        frame_closed(session, index, now, old(registry)@, thread_id),
                    ),
                    ..old(profiler)@
                })
                &&& final(registry)@ == recorders_after_close(
                    session,
                    index,
                    old(registry)@,
                    thread_id,
                )
            },
            _ => final(profiler)@ == old(profiler)@ && final(registry)@ == old(registry)@,
        },
{
    match frame_index {
        Some(index) => match &mut profiler.active {
            Some(state) => state.close_frame(index, now, registry, thread_id),
            None => {},
        },
        None => {},
    }
}

/// The active capture's CPU clock anchor, which every `_ns` value of the
/// capture counts from.
pub fn active_capture_anchor(profiler: &Profiler) -> (anchor: Option<Moment>)
    ensures
        anchor == match profiler@.active {
            Some(session) => Some(session.anchor),
            None => None,
        },
{
    match &profiler.active {
        Some(state) => Some(state.anchor()),
        None => None,
    }
}

/// The active capture's CPU clock anchor, for calibrating the GPU clock
/// against it.
pub fn capture_anchor(profiler: &Profiler) -> (anchor: Option<Moment>)
    ensures
        anchor == match profiler@.active {
            Some(session) => Some(session.anchor),
            None => None,
        },
{
    active_capture_anchor(profiler)
}

impl CaptureHandle {
    /// Stop the capture session on the thread `thread_id` at `now`: frames
    /// that are still open are closed, the oldest first, and the finished
    /// frames are returned.
    pub fn stop(
        self,
        profiler: &mut Profiler,
        now: Moment,
        registry: &mut ThreadRegistry,
        thread_id: u64,
    ) -> (capture: Capture)
        requires
            old(profiler).wf(),
            old(registry).wf(),
            old(profiler)@.active is Some,
        ensures
            final(profiler).wf(),
            final(registry).wf(),
            final(profiler)@ == (ProfilerModel { active: None, ..old(profiler)@ }),
            lists_open_frames(
                old(profiler)@.active->0,
                open_order(old(profiler)@.active->0),
            ),
            capture@ == stopped_capture(
                old(profiler)@.active->0,
                now,
                old(registry)@,
                thread_id,
            ),
            final(registry)@ == recorders_after_closes(
                old(profiler)@.active->0,
                open_order(old(profiler)@.active->0),
                now,
                old(registry)@,
                thread_id,
            ),
    {
        let mut state = profiler.active.take().unwrap();
        state.finalize_open_frames(now, registry, thread_id);
        Capture {
            anchor: state.anchor(),
            max_frames: state.max_frames(),
            frames: state.into_finished_frames(),
        }
    }

    /// Whether a capture session is still active. Always true until `stop`.
    pub fn is_recording(&self, profiler: &Profiler) -> (recording: bool)
        ensures
            recording == (profiler@.active is Some),
    {
        capture_enabled(profiler)
    }
}

/// What stopping `session` on `thread_id` at `now` yields: the open frames are
/// closed, the oldest first.
pub open spec fn stopped_capture(
    session: SessionModel,
    now: Moment,
    recorders: Seq<RecorderModel>,
    thread_id: u64,
) -> CaptureModel {
    CaptureModel {
        anchor: session.anchor,
        frames: frames_closed(
            session,
            open_order(session),
            now,
            recorders,
            thread_id,
        ).finished_frames,
        max_frames: session.max_frames,
    }
}

} // verus!
