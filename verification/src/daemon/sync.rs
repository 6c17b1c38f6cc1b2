//! Starting, running and stopping the synchronization.
use crate::capture::frame::{CaptureError, CaptureErrorView, FrameFormat, OwnedFrame};
use crate::capture::frame;
use crate::daemon::bridge::find_area;
use crate::daemon::bridge;
use crate::daemon::errors::{
    classify_capture, classify_hue, conflict, invalid_configuration, validate_supported_config,
};
use crate::daemon::errors;
use crate::daemon::state::{is_at_rest, DaemonState, DaemonStateView};
use crate::daemon::state as service;
use crate::domain::config::{
    AppConfig, AppConfigView, CaptureBackend, EntertainmentArea, EntertainmentAreaView,
};
use crate::domain::state::{
    ActionableError, ActionableErrorView, BridgeState, CaptureState, ErrorCode, ServiceState,
    StatusSnapshotView, SyncState,
};
use crate::domain::state;
use crate::engine::frame::{FrameView, PixelFormat};
use crate::engine::frame as sampler;
use crate::engine::processor::{ChannelColor, ColorProcessor};
use crate::engine::processor;
use crate::hue::bridge::{BridgeCandidate, BridgeCandidateView};
use crate::hue::stream;
use crate::number::Single;
use vstd::prelude::*;

verus! {

/// The frames per second that are aimed at.
pub const TARGET_FPS: u64 = 30;

/// How long the first frame may take, in seconds.
pub const FIRST_FRAME_TIMEOUT_SECONDS: u64 = 10;

/// How long a capture or a stream may take to end, in seconds.
pub const RESOURCE_CLEANUP_TIMEOUT_SECONDS: u64 = 35;

/// How long the synchronization may take to end, in seconds.
pub const STOP_TIMEOUT_SECONDS: u64 = 75;

/// The time over which frames are counted, in nanoseconds.
pub const MEASURE_NANOS: u128 = 1_000_000_000;

/// What a synchronization is started with.
#[derive(Debug)]
pub struct StartPlan {
    pub config: AppConfig,
    pub client: BridgeCandidate,
    pub area: EntertainmentArea,
}

/// The mathematical value of [`StartPlan`].
#[verifier::ext_equal]
pub struct StartPlanView {
    pub config: AppConfigView,
    pub client: BridgeCandidateView,
    pub area: EntertainmentAreaView,
}

impl DeepView for StartPlan {
    type V = StartPlanView;

    open spec fn deep_view(&self) -> StartPlanView {
        StartPlanView {
            config: self.config.deep_view(),
            client: self.client.deep_view(),
            area: self.area.deep_view(),
        }
    }
}

/// What stands against a start.
pub open spec fn start_problem(state: DaemonStateView) -> Option<ActionableErrorView> {
    if !service::at_rest(state.status.sync) {
        Some(
            errors::conflict_error("Synchronization is already active or changing state"@),
        )
    } else if state.hue is None {
        Some(bridge::not_connected())
    } else if errors::support_problem(state.config) is Some {
        errors::support_problem(state.config)
    } else {
        match state.config.selected_area {
            None => Some(
                ActionableErrorView {
                    action: Some("Select an Entertainment area"@),
                    ..state::plain_error(
                        ErrorCode::AreaNotFound,
                        "No Entertainment area is selected"@,
                    )
                },
            ),
            Some(id) => if !bridge::known_area(state.areas, id) {
                Some(
                    state::plain_error(
                        ErrorCode::AreaNotFound,
                        "Refresh and select an Entertainment area"@,
                    ),
                )
            } else {
                None
            },
        }
    }
}

/// A service that is starting to synchronize.
pub open spec fn starting_state(state: DaemonStateView) -> DaemonStateView {
    DaemonStateView {
        starting: true,
        status: StatusSnapshotView {
            sync: SyncState::Starting,
            capture: if state.config.capture_backend == CaptureBackend::PortalPipewire {
                CaptureState::RequestingPermission
            } else {
                CaptureState::Idle
            },
            error: None,
            ..state.status
        },
        ..state
    }
}

/// Whether an area is the first one with an identifier.
pub open spec fn is_first_area(
    areas: Seq<EntertainmentAreaView>,
    id: Seq<char>,
    area: EntertainmentAreaView,
) -> bool {
    exists|i: int|
        0 <= i < areas.len() && areas[i].id == id && areas[i] == area && (forall|j: int|
            0 <= j < i ==> (#[trigger] areas[j]).id != id) && #[trigger] areas[i].id == id
}

/// A service whose start failed.
pub open spec fn start_failed_state(
    state: DaemonStateView,
    error: ActionableErrorView,
) -> DaemonStateView {
    DaemonStateView {
        starting: false,
        status: StatusSnapshotView {
            capture: CaptureState::Failed,
            sync: SyncState::Failed,
            error: Some(error),
            ..state.status
        },
        ..state
    }
}

/// A service whose start was cancelled.
pub open spec fn start_cancelled_state(state: DaemonStateView) -> DaemonStateView {
    DaemonStateView {
        starting: false,
        status: StatusSnapshotView {
            capture: CaptureState::Idle,
            sync: SyncState::Stopped,
            error: None,
            ..state.status
        },
        ..state
    }
}

/// A service that synchronizes.
pub open spec fn running_state(state: DaemonStateView) -> DaemonStateView {
    DaemonStateView {
        starting: false,
        syncing: true,
        status: StatusSnapshotView {
            capture: CaptureState::Capturing,
            sync: SyncState::Running,
            active_area: state.config.selected_area,
            frames_per_second: Some((Single { bits: 0 })),
            ..state.status
        },
        ..state
    }
}

/// A service whose synchronization ended, by a failure or without one.
pub open spec fn finished_state(
    state: DaemonStateView,
    failure: Option<ActionableErrorView>,
) -> DaemonStateView {
    DaemonStateView {
        syncing: false,
        status: StatusSnapshotView {
            capture: CaptureState::Idle,
            active_area: None,
            frames_per_second: None,
            sync: if failure is Some {
                SyncState::Failed
            } else {
                SyncState::Stopped
            },
            error: failure,
            ..state.status
        },
        ..state
    }
}

/// What follows a step of a start.
#[derive(Debug)]
pub enum StartStep {
    /// The next step.
    Continue,
    /// The start was cancelled.
    Cancelled,
    /// The start failed, as reported.
    Failed(ActionableError),
}

/// Goes on after the capture was opened, or could not be. A capture that was
/// closed because the start was cancelled is no failure.
pub fn after_capture(error: Option<&CaptureError>, cancelled: bool) -> (r: StartStep)
    ensures
        error is None ==> r is Continue,
        error matches Some(error) ==> if *error is Closed && cancelled {
            r is Cancelled
        } else {
            r is Failed && r->Failed_0.deep_view() == errors::capture_failure(error.deep_view())
        },
{
    match error {
        None => StartStep::Continue,
        Some(error) => match error {
            CaptureError::Closed => if cancelled {
                StartStep::Cancelled
            } else {
                StartStep::Failed(classify_capture(error))
            },
            _ => StartStep::Failed(classify_capture(error)),
        },
    }
}

/// Goes on after the first frame came, or did not.
pub fn after_first_frame(error: Option<&CaptureError>, cancelled: bool) -> (r: StartStep)
    ensures
        error is None ==> r is Continue,
        error matches Some(error) ==> if cancelled {
            r is Cancelled
        } else {
            r is Failed && r->Failed_0.deep_view() == errors::capture_failure(error.deep_view())
        },
{
    match error {
        None => StartStep::Continue,
        Some(error) => if cancelled {
            StartStep::Cancelled
        } else {
            StartStep::Failed(classify_capture(error))
        },
    }
}

/// The error of a first frame that did not come in time.
pub fn first_frame_timeout() -> (r: CaptureError)
    ensures
        r.deep_view() == CaptureErrorView::Backend(
            "screen capture timed out waiting for its first frame"@,
        ),
{
    CaptureError::Backend("screen capture timed out waiting for its first frame".to_owned())
}

/// Goes on after the stream was opened, or could not be.
pub fn after_stream(opened: bool, cancelled: bool) -> (r: StartStep)
    ensures
        !opened ==> r is Failed && r->Failed_0.deep_view() == errors::bridge_error(
            "Could not start Hue Entertainment streaming"@,
        ),
        opened && cancelled ==> r is Cancelled,
        opened && !cancelled ==> r is Continue,
{
    if !opened {
        StartStep::Failed(classify_hue("Could not start Hue Entertainment streaming"))
    } else if cancelled {
        StartStep::Cancelled
    } else {
        StartStep::Continue
    }
}

/// The first of three failures at the end of a synchronization: of the frames,
/// of ending the capture, of ending the stream.
pub open spec fn sync_failure(
    frames: Option<ActionableErrorView>,
    capture: Option<CaptureErrorView>,
    stream_failed: bool,
) -> Option<ActionableErrorView> {
    if frames is Some {
        frames
    } else if capture is Some {
        Some(errors::capture_failure(capture->Some_0))
    } else if stream_failed {
        Some(
            ActionableErrorView {
                retryable: true,
                ..state::plain_error(
                    ErrorCode::SyncUnavailable,
                    "Hue cleanup or light restoration failed"@,
                )
            },
        )
    } else {
        None
    }
}

/// What stopping comes to first.
#[derive(Clone, Copy, Debug, PartialEq, Eq, Structural)]
pub enum StopStep {
    /// Nothing synchronizes.
    AlreadyStopped,
    /// Another stop is in progress, whose end is to be awaited.
    AwaitCleanup,
    /// Nothing can be stopped.
    Refused,
    /// The task is to be told to stop, and its end awaited.
    StopTask,
}

/// What stopping comes to first.
pub open spec fn stop_step(state: DaemonStateView) -> StopStep {
    if state.syncing {
        StopStep::StopTask
    } else if state.status.sync == SyncState::Stopped {
        StopStep::AlreadyStopped
    } else if state.status.sync == SyncState::Stopping {
        StopStep::AwaitCleanup
    } else {
        StopStep::Refused
    }
}

/// What the end of the synchronization task came to.
#[derive(Clone, Copy, Debug, PartialEq, Eq, Structural)]
pub enum TaskEnd {
    Finished,
    Failed,
    TimedOut,
}

/// What is done next about a synchronization that ended.
#[derive(Clone, Copy, Debug, PartialEq, Eq, Structural)]
pub enum EndStep {
    /// Shut the capture down.
    ShutDownCapture,
    /// Stop the stream.
    StopStream,
    /// Take what the synchronization came to.
    Finish,
}

/// A synchronization that ended, and what became of the capture and the stream that
/// it held.
#[derive(Debug)]
pub struct SyncEnding {
    frames: Result<(), ActionableError>,
    captured: Option<Option<CaptureError>>,
    stream_failed: Option<bool>,
}

/// The mathematical value of [`SyncEnding`].
#[verifier::ext_equal]
pub struct SyncEndingView {
    /// Why no more frames came, unless that was asked for.
    pub failure: Option<ActionableErrorView>,
    /// Once the capture is shut down: how that failed, if it did.
    pub captured: Option<Option<CaptureErrorView>>,
    /// Once the stream is stopped: whether that failed.
    pub stream_failed: Option<bool>,
}

/// A synchronization that just ended.
pub open spec fn begun_ending(failure: Option<ActionableErrorView>) -> SyncEndingView {
    SyncEndingView { failure, captured: None, stream_failed: None }
}

/// What is done next about a synchronization that ended.
pub open spec fn end_step(ending: SyncEndingView) -> EndStep {
    if ending.captured is None {
        EndStep::ShutDownCapture
    } else if ending.stream_failed is None {
        EndStep::StopStream
    } else {
        EndStep::Finish
    }
}

impl SyncEnding {
    /// The mathematical value of the ending.
    pub closed spec fn state(&self) -> SyncEndingView {
        SyncEndingView {
            failure: match self.frames {
                Ok(()) => None,
                Err(error) => Some(error.deep_view()),
            },
            captured: self.captured.deep_view(),
            stream_failed: self.stream_failed,
        }
    }

    /// Begins the ending, with what the frames came to.
    pub fn new(frames: Result<(), ActionableError>) -> (r: Self)
        ensures
            r.state() == begun_ending(
                match frames {
                    Ok(()) => None,
                    Err(error) => Some(error.deep_view()),
                },
            ),
    {
        SyncEnding { frames, captured: None, stream_failed: None }
    }

    /// What is done next.
    pub fn step(&self) -> (r: EndStep)
        ensures
            r == end_step(self.state()),
    {
        if self.captured.is_none() {
            EndStep::ShutDownCapture
        } else if self.stream_failed.is_none() {
            EndStep::StopStream
        } else {
            EndStep::Finish
        }
    }

    /// Notes that the capture was shut down.
    pub fn capture_ended(&mut self, problem: Option<CaptureError>)
        ensures
            final(self).state() == (SyncEndingView {
                captured: Some(problem.deep_view()),
                ..old(self).state()
            }),
    {
        self.captured = Some(problem);
    }

    /// Notes that the stream was stopped.
    pub fn stream_ended(&mut self, failed: bool)
        ensures
            final(self).state() == (SyncEndingView {
                stream_failed: Some(failed),
                ..old(self).state()
            }),
    {
        self.stream_failed = Some(failed);
    }
}

impl DaemonState {
    /// Takes what a synchronization came to once its capture and its stream ended,
    /// and tells whether they have.
    pub fn end_sync(&mut self, ending: SyncEnding) -> (r: bool)
        ensures
            r == (end_step(ending.state()) == EndStep::Finish),
            r ==> final(self).deep_view() == finished_state(
                old(self).deep_view(),
                sync_failure(
                    ending.state().failure,
                    ending.state().captured->Some_0,
                    ending.state().stream_failed->Some_0,
                ),
            ),
            !r ==> *final(self) == *old(self),
    {
        match (ending.captured, ending.stream_failed) {
            (Some(capture), Some(stream_failed)) => {
                self.finish_sync(ending.frames, capture, stream_failed);
                true
            },
            _ => false,
        }
    }
}

impl DaemonState {
    /// Begins to start, if nothing stands against it.
    pub fn begin_start(&mut self) -> (r: Result<StartPlan, ActionableError>)
        ensures
            r is Ok <==> start_problem(old(self).deep_view()) is None,
            r matches Ok(plan) ==> {
                &&& final(self).deep_view() == starting_state(old(self).deep_view())
                &&& plan.deep_view().config == old(self).deep_view().config
                &&& Some(plan.deep_view().client) == old(self).deep_view().hue
                &&& is_first_area(
                    old(self).deep_view().areas,
                    old(self).deep_view().config.selected_area->Some_0,
                    plan.deep_view().area,
                )
            },
            r matches Err(error) ==> Some(error.deep_view()) == start_problem(
                old(self).deep_view(),
            ) && *final(self) == *old(self),
    {
        if !is_at_rest(self.status.sync) {
            return Err(conflict("Synchronization is already active or changing state"));
        }
        let client: BridgeCandidate = match self.hue_client() {
            Ok(client) => client,
            Err(error) => return Err(error),
        };
        match validate_supported_config(&self.config) {
            Ok(()) => {},
            Err(error) => return Err(error),
        }
        let index: usize = match &self.config.selected_area {
            None => return Err(
                ActionableError::new(
                    ErrorCode::AreaNotFound,
                    "No Entertainment area is selected",
                ).with_action("Select an Entertainment area"),
            ),
            Some(id) => match find_area(&self.areas, id) {
                None => return Err(
                    ActionableError::new(
                        ErrorCode::AreaNotFound,
                        "Refresh and select an Entertainment area",
                    ),
                ),
                Some(index) => index,
            },
        };
        let area: EntertainmentArea = self.areas[index].clone();
        let ghost areas = self.deep_view().areas;
        assert(areas[index as int] == area.deep_view());
        assert(areas[index as int].id == self.deep_view().config.selected_area->Some_0);
        let config: AppConfig = self.config.clone();
        self.status.sync = SyncState::Starting;
        self.status.capture = if self.config.capture_backend == CaptureBackend::PortalPipewire {
            CaptureState::RequestingPermission
        } else {
            CaptureState::Idle
        };
        self.status.error = None;
        self.starting = true;
        Ok(StartPlan { config, client, area })
    }

    /// Ends a start that failed.
    pub fn start_failed(&mut self, error: ActionableError) -> (r: ActionableError)
        ensures
            r == error,
            final(self).deep_view() == start_failed_state(
                old(self).deep_view(),
                error.deep_view(),
            ),
    {
        self.starting = false;
        self.status.capture = CaptureState::Failed;
        self.status.sync = SyncState::Failed;
        self.status.error = Some(error.clone());
        error
    }

    /// Ends a start that was cancelled.
    pub fn start_cancelled(&mut self) -> (r: ActionableError)
        ensures
            r.deep_view() == errors::conflict_error("Synchronization startup was cancelled"@),
            final(self).deep_view() == start_cancelled_state(old(self).deep_view()),
    {
        self.starting = false;
        self.status.capture = CaptureState::Idle;
        self.status.sync = SyncState::Stopped;
        self.status.error = None;
        conflict("Synchronization startup was cancelled")
    }

    /// Ends a start that succeeded: the task runs.
    pub fn started(&mut self)
        ensures
            final(self).deep_view() == running_state(old(self).deep_view()),
    {
        self.starting = false;
        self.syncing = true;
        self.status.capture = CaptureState::Capturing;
        self.status.sync = SyncState::Running;
        self.status.active_area = self.config.selected_area.clone();
        self.status.frames_per_second = Some(Single { bits: 0 });
    }

    /// Publishes the frame rate, a single-precision bit pattern.
    pub fn measured(&mut self, frames_per_second: u32)
        ensures
            final(self).deep_view() == (DaemonStateView {
                status: StatusSnapshotView {
                    frames_per_second: Some((Single { bits: frames_per_second })),
                    ..old(self).deep_view().status
                },
                ..old(self).deep_view()
            }),
    {
        self.status.frames_per_second = Some(Single { bits: frames_per_second });
    }

    /// Takes what a synchronization came to at its end.
    pub fn finish_sync(
        &mut self,
        frames: Result<(), ActionableError>,
        capture: Option<CaptureError>,
        stream_failed: bool,
    )
        ensures
            final(self).deep_view() == finished_state(
                old(self).deep_view(),
                sync_failure(
                    match frames {
                        Ok(()) => None,
                        Err(error) => Some(error.deep_view()),
                    },
                    capture.deep_view(),
                    stream_failed,
                ),
            ),
    {
        let failure: Option<ActionableError> = match frames {
            Err(error) => Some(error),
            Ok(()) => match &capture {
                Some(error) => Some(classify_capture(error)),
                None => if stream_failed {
                    Some(
                        ActionableError::new(
                            ErrorCode::SyncUnavailable,
                            "Hue cleanup or light restoration failed",
                        ).retryable(true),
                    )
                } else {
                    None
                },
            },
        };
        self.syncing = false;
        self.status.capture = CaptureState::Idle;
        self.status.active_area = None;
        self.status.frames_per_second = None;
        self.status.sync = if failure.is_some() {
            SyncState::Failed
        } else {
            SyncState::Stopped
        };
        self.status.error = failure;
    }

    /// Whether a start is to be cancelled before anything is stopped.
    pub fn has_start_to_cancel(&self) -> (r: bool)
        ensures
            r == self.deep_view().starting,
    {
        self.starting
    }

    /// Whether a start that was cancelled has ended.
    pub fn start_has_ended(&self) -> (r: bool)
        ensures
            r == (self.deep_view().status.sync != SyncState::Starting),
    {
        self.status.sync != SyncState::Starting
    }

    /// Begins to stop. The first stop takes the task; another one meanwhile
    /// awaits its end.
    pub fn begin_stop(&mut self) -> (r: StopStep)
        ensures
            r == stop_step(old(self).deep_view()),
            r != StopStep::StopTask ==> *final(self) == *old(self),
            r == StopStep::StopTask ==> final(self).deep_view() == stopping_state(
                old(self).deep_view(),
            ),
    {
        if self.syncing {
            self.syncing = false;
            self.status.sync = SyncState::Stopping;
            StopStep::StopTask
        } else if self.status.sync == SyncState::Stopped {
            StopStep::AlreadyStopped
        } else if self.status.sync == SyncState::Stopping {
            StopStep::AwaitCleanup
        } else {
            StopStep::Refused
        }
    }

    /// Begins to shut down.
    pub fn begin_shutdown(&mut self)
        ensures
            final(self).deep_view() == (DaemonStateView {
                status: StatusSnapshotView {
                    service: ServiceState::Stopping,
                    ..old(self).deep_view().status
                },
                ..old(self).deep_view()
            }),
    {
        self.status.service = ServiceState::Stopping;
    }
}

/// What a request to stop is answered when nothing can be stopped.
pub fn stop_refused() -> (r: ActionableError)
    ensures
        r.deep_view() == errors::conflict_error("Synchronization is not in a stoppable state"@),
{
    conflict("Synchronization is not in a stoppable state")
}

/// What a request to stop is answered when a start does not end in time.
pub fn cancel_timed_out() -> (r: ActionableError)
    ensures
        r.deep_view() == errors::conflict_error("Synchronization startup did not cancel in time"@),
{
    conflict("Synchronization startup did not cancel in time")
}

/// What a request to stop is answered when another stop does not end in time.
pub fn cleanup_timed_out() -> (r: ActionableError)
    ensures
        r.deep_view() == errors::conflict_error("Synchronization cleanup did not finish in time"@),
{
    conflict("Synchronization cleanup did not finish in time")
}

/// What a request to stop is answered, given how the task ended.
pub fn stop_answer(end: TaskEnd) -> (r: Result<(), ActionableError>)
    ensures
        end is Finished ==> r is Ok,
        end is Failed ==> r is Err && r->Err_0.deep_view() == state::plain_error(
            ErrorCode::Internal,
            "Synchronization task failed"@,
        ),
        end is TimedOut ==> r is Err && r->Err_0.deep_view() == state::plain_error(
            ErrorCode::Internal,
            "Synchronization did not stop within the cleanup deadline"@,
        ),
{
    match end {
        TaskEnd::Finished => Ok(()),
        TaskEnd::Failed => Err(
            ActionableError::new(ErrorCode::Internal, "Synchronization task failed"),
        ),
        TaskEnd::TimedOut => Err(
            ActionableError::new(
                ErrorCode::Internal,
                "Synchronization did not stop within the cleanup deadline",
            ),
        ),
    }
}

/// The sampler's name of a captured pixel layout.
pub open spec fn sampled_format(format: frame::PixelFormat) -> PixelFormat {
    match format {
        frame::PixelFormat::Rgb => PixelFormat::Rgb8,
        frame::PixelFormat::Rgba => PixelFormat::Rgba8,
        frame::PixelFormat::Rgbx => PixelFormat::Rgbx8,
        frame::PixelFormat::Bgra => PixelFormat::Bgra8,
        frame::PixelFormat::Bgrx => PixelFormat::Bgrx8,
    }
}

/// The sampler's name of a captured pixel layout.
pub fn map_pixel_format(format: frame::PixelFormat) -> (r: PixelFormat)
    ensures
        r == sampled_format(format),
{
    match format {
        frame::PixelFormat::Rgb => PixelFormat::Rgb8,
        frame::PixelFormat::Rgba => PixelFormat::Rgba8,
        frame::PixelFormat::Rgbx => PixelFormat::Rgbx8,
        frame::PixelFormat::Bgra => PixelFormat::Bgra8,
        frame::PixelFormat::Bgrx => PixelFormat::Bgrx8,
    }
}

/// The stride that the sampler is told: an implicit one is spelled out.
pub open spec fn sampled_stride(format: FrameFormat) -> int {
    if format.stride == 0 {
        frame::row_size(format) as int
    } else {
        format.stride as int
    }
}

/// Why a captured frame cannot be sampled, if it cannot.
pub open spec fn sampling_problem(format: FrameFormat, len: nat) -> Option<Seq<char>> {
    if sampled_stride(format) > i32::MAX {
        Some("Capture frame is too wide"@)
    } else if sampler::frame_problem(
        len,
        format.width as nat,
        format.height as nat,
        sampled_stride(format) as i32,
        sampled_format(format.pixel_format),
    ) is Some {
        Some("Capture returned an invalid frame"@)
    } else {
        None
    }
}

/// Hands a captured frame to the sampler.
pub fn sampled_view<'a>(captured: &'a OwnedFrame) -> (r: Result<FrameView<'a>, ActionableError>)
    ensures
        ({
            let format = captured.deep_view().format;
            let data = captured.deep_view().data;
            &&& r is Ok <==> sampling_problem(format, data.len()) is None
            &&& r matches Ok(view) ==> {
                &&& view.bytes() == data
                &&& view.columns() == format.width
                &&& view.rows() == format.height
                &&& view.row_step() == sampled_stride(format)
                &&& view.layout() == sampled_format(format.pixel_format)
            }
            &&& r matches Err(error) ==> error.deep_view() == state::plain_error(
                ErrorCode::CaptureUnavailable,
                sampling_problem(format, data.len())->Some_0,
            )
        }),
{
    let format: FrameFormat = captured.format();
    let stride: i32 = if format.stride == 0 {
        let row: u64 = format.width as u64 * format.pixel_format.bytes_per_pixel() as u64;
        if row > i32::MAX as u64 {
            return Err(
                ActionableError::new(ErrorCode::CaptureUnavailable, "Capture frame is too wide"),
            );
        }
        row as i32
    } else {
        format.stride
    };
    match FrameView::new(
        captured.data(),
        format.width as usize,
        format.height as usize,
        stride,
        map_pixel_format(format.pixel_format),
    ) {
        Ok(view) => Ok(view),
        Err(_) => Err(
            ActionableError::new(
                ErrorCode::CaptureUnavailable,
                "Capture returned an invalid frame",
            ),
        ),
    }
}

/// A captured frame is sampled as it is: the sampler reads the same color at
/// every pixel, whichever way the rows are stored.
pub proof fn law_sampler_reads_captured_colors(
    captured: frame::OwnedFrameView,
    view: FrameView<'_>,
    x: int,
    y: int,
)
    requires
        frame::frame_problem(captured.format, captured.data.len()) is None,
        view.bytes() == captured.data,
        view.columns() == captured.format.width,
        view.rows() == captured.format.height,
        view.row_step() == sampled_stride(captured.format),
        view.layout() == sampled_format(captured.format.pixel_format),
        0 <= x < captured.format.width,
        0 <= y < captured.format.height,
    ensures
        ({
            let color = view.color(x, y);
            seq![color.red, color.green, color.blue] == frame::color_at(
                captured.format.pixel_format,
                captured.data,
                frame::pixel_offset(captured.format, x, y),
            )
        }),
{
    assert(view.pixel_offset(x, y) == frame::pixel_offset(captured.format, x, y));
}

/// A valid captured frame can be sampled, but for one that is too wide for its
/// stride to be told or whose rows are as far apart as a stride can express.
pub proof fn law_valid_frame_can_be_sampled(captured: frame::OwnedFrameView)
    requires
        frame::frame_problem(captured.format, captured.data.len()) is None,
        sampled_stride(captured.format) <= i32::MAX,
        captured.format.stride != i32::MIN,
    ensures
        sampling_problem(captured.format, captured.data.len()) is None,
{
    assert(frame::stride_size(captured.format) == sampler::stride_size(
        sampled_stride(captured.format) as i32,
    ));
}

/// The processor for the channels of an area.
pub fn area_processor(area: &EntertainmentArea) -> (r: Result<ColorProcessor, ActionableError>)
    ensures
        r is Ok <==> processor::distinct_channels(area.deep_view().channels),
        r matches Ok(ready) ==> ready.area() == area.deep_view().channels && ready.previous()
            == Map::<u16, processor::LinearRgb>::empty(),
        r matches Err(error) ==> error.deep_view() == errors::configuration_error(
            "The selected area has invalid channels"@,
        ),
{
    let channels: Vec<crate::domain::config::EntertainmentChannel> = area.channels.clone();
    assert(channels.deep_view() =~= area.deep_view().channels);
    match ColorProcessor::new(channels) {
        Ok(ready) => Ok(ready),
        Err(_) => Err(invalid_configuration("The selected area has invalid channels")),
    }
}

/// The error of colors that could not be processed.
pub fn processing_failed() -> (r: ActionableError)
    ensures
        r.deep_view() == state::plain_error(
            ErrorCode::SyncUnavailable,
            "Color processing failed"@,
        ),
{
    ActionableError::new(ErrorCode::SyncUnavailable, "Color processing failed")
}

/// The error of colors that could not be sent.
pub fn delivery_failed() -> (r: ActionableError)
    ensures
        r.deep_view() == (ActionableErrorView {
            retryable: true,
            ..state::plain_error(ErrorCode::SyncUnavailable, "Hue Entertainment stream stopped"@)
        }),
{
    ActionableError::new(
        ErrorCode::SyncUnavailable,
        "Hue Entertainment stream stopped",
    ).retryable(true)
}

/// A channel's color as it is streamed.
pub open spec fn streamed_color(color: ChannelColor) -> stream::ChannelColor {
    stream::ChannelColor {
        channel_id: if color.channel_id > u8::MAX {
            u8::MAX
        } else {
            color.channel_id as u8
        },
        red: color.color.red,
        green: color.color.green,
        blue: color.color.blue,
    }
}

/// The colors of channels as they are streamed.
pub fn streamed_colors(colors: &Vec<ChannelColor>) -> (r: Vec<stream::ChannelColor>)
    ensures
        r@ == colors@.map_values(|color: ChannelColor| streamed_color(color)),
{
    let mut r: Vec<stream::ChannelColor> = Vec::new();
    let mut i: usize = 0;
    while i < colors.len()
        invariant
            i <= colors.len(),
            r@.len() == i,
            forall|j: int| 0 <= j < i ==> #[trigger] r@[j] == streamed_color(colors@[j]),
        decreases colors.len() - i,
    {
        let color: ChannelColor = colors[i];
        r.push(
            stream::ChannelColor {
                channel_id: if color.channel_id > 255 {
                    255
                } else {
                    color.channel_id as u8
                },
                red: color.color.red,
                green: color.color.green,
                blue: color.color.blue,
            },
        );
        i += 1;
    }
    assert(r@ =~= colors@.map_values(|color: ChannelColor| streamed_color(color)));
    r
}

/// Counts frames, and tells their number about once a second.
#[derive(Clone, Copy, Debug, PartialEq, Eq, Structural)]
pub struct FrameMeter {
    pub frames: u32,
}

impl FrameMeter {
    /// A meter that has not counted anything.
    pub fn new() -> (r: Self)
        ensures
            r.frames == 0,
    {
        FrameMeter { frames: 0 }
    }

    /// Counts a frame. After a second the count is told, and begins anew with
    /// the time.
    pub fn count(&mut self, elapsed_nanos: u128) -> (r: Option<u32>)
        ensures
            ({
                let counted = if old(self).frames == u32::MAX {
                    u32::MAX
                } else {
                    (old(self).frames + 1) as u32
                };
                if elapsed_nanos >= MEASURE_NANOS {
                    r == Some(counted) && final(self).frames == 0
                } else {
                    r is None && final(self).frames == counted
                }
            }),
    {
        self.frames = self.frames.saturating_add(1);
        if elapsed_nanos >= MEASURE_NANOS {
            let frames: u32 = self.frames;
            self.frames = 0;
            Some(frames)
        } else {
            None
        }
    }
}

/// A start that does not succeed leaves the service at rest and free to start
/// again.
pub proof fn law_failed_start_can_be_repeated(state: DaemonStateView, error: ActionableErrorView)
    requires
        start_problem(state) is None,
    ensures
        start_problem(start_failed_state(starting_state(state), error)) is None,
        start_problem(start_cancelled_state(starting_state(state))) is None,
        !start_failed_state(starting_state(state), error).starting,
        !start_cancelled_state(starting_state(state)).starting,
{
}

/// A synchronization that ends leaves the service at rest, with no task, no
/// active area and no frame rate; without a failure there is no error either.
pub proof fn law_finished_sync_is_at_rest(
    state: DaemonStateView,
    failure: Option<ActionableErrorView>,
)
    ensures
        ({
            let after = finished_state(state, failure);
            &&& service::at_rest(after.status.sync)
            &&& !after.syncing
            &&& after.status.active_area is None
            &&& after.status.frames_per_second is None
            &&& failure is None ==> stop_step(after) == StopStep::AlreadyStopped
                && after.status.error is None
            &&& failure is Some ==> after.status.error == failure
        }),
{
}

/// Of two stops in a row one takes the task, and the other awaits its end.
pub proof fn law_second_stop_awaits_the_first(state: DaemonStateView)
    requires
        state.syncing,
    ensures
        ({
            &&& stop_step(state) == StopStep::StopTask
            &&& stop_step(stopping_state(state)) == StopStep::AwaitCleanup
        }),
{
}

/// Whether what the service does about synchronizing is what its status tells: a
/// start is under way while it is starting, and there is a task while it runs.
pub open spec fn in_step(state: DaemonStateView) -> bool {
    &&& state.starting <==> state.status.sync == SyncState::Starting
    &&& state.syncing <==> state.status.sync == SyncState::Running
}

/// The state once a stop took the task.
pub open spec fn stopping_state(state: DaemonStateView) -> DaemonStateView {
    DaemonStateView {
        syncing: false,
        status: StatusSnapshotView { sync: SyncState::Stopping, ..state.status },
        ..state
    }
}

/// The status tells what the service does about synchronizing from its beginning
/// on, and through every start, end and failure of it.
pub proof fn law_status_tells_what_is_done(
    state: DaemonStateView,
    error: ActionableErrorView,
    failure: Option<ActionableErrorView>,
    config: AppConfigView,
    pairing: bool,
    candidate: Option<BridgeCandidateView>,
)
    requires
        in_step(state),
    ensures
        in_step(service::initial_state(config, pairing, candidate)),
        start_problem(state) is None ==> in_step(starting_state(state)),
        state.starting ==> in_step(running_state(state)) && in_step(
            start_failed_state(state, error),
        ) && in_step(start_cancelled_state(state)),
        stop_step(state) == StopStep::StopTask ==> in_step(stopping_state(state)),
        !state.starting ==> in_step(finished_state(state, failure)),
{
}

/// What is done with the bridge and with the configuration does not change what is
/// done about synchronizing.
pub proof fn law_bridge_does_not_change_synchronizing(
    state: DaemonStateView,
    bridge: BridgeState,
    error: Option<ActionableErrorView>,
    candidate: BridgeCandidateView,
    config: AppConfigView,
)
    requires
        in_step(state),
    ensures
        in_step(service::with_bridge_state(state, bridge, error)),
        in_step(bridge::connected_state(state, candidate)),
        in_step(bridge::forgotten_state(state)),
        in_step(bridge::changed_bridge_state(state)),
        in_step(DaemonStateView { config, ..state }),
        in_step(DaemonStateView { busy: true, ..state }),
        in_step(DaemonStateView { busy: false, ..state }),
{
}

/// However a synchronization ended, and whatever comes of it, first its capture is
/// shut down and its stream stopped.
pub proof fn law_capture_and_stream_are_stopped(
    failure: Option<ActionableErrorView>,
    capture: Option<CaptureErrorView>,
    stream_failed: bool,
)
    ensures
        ({
            let begun = begun_ending(failure);
            let shut = SyncEndingView { captured: Some(capture), ..begun };
            let stopped = SyncEndingView { stream_failed: Some(stream_failed), ..shut };
            &&& end_step(begun) == EndStep::ShutDownCapture
            &&& end_step(shut) == EndStep::StopStream
            &&& end_step(stopped) == EndStep::Finish
        }),
        forall|ending: SyncEndingView|
            #[trigger] end_step(ending) == EndStep::Finish ==> ending.captured is Some
                && ending.stream_failed is Some,
{
}

} // verus!
