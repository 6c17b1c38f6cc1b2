//! The course of a capture session through the desktop portal.
use crate::capture::frame::{
    state_for_error, CaptureError, CaptureErrorView, CaptureState, CaptureStateView,
};
use crate::capture::frame;
use crate::text;
use vstd::prelude::*;

verus! {

/// How long a session may take to stop, in seconds.
pub const SHUTDOWN_TIMEOUT_SECONDS: u64 = 3;

/// Portal capabilities that can be queried without opening a capture session.
#[derive(Clone, Copy, Debug, PartialEq, Eq, Structural)]
pub struct PortalCapabilities {
    pub monitor: bool,
    pub window: bool,
    pub virtual_source: bool,
    pub hidden_cursor: bool,
    pub embedded_cursor: bool,
    pub metadata_cursor: bool,
}

impl Default for PortalCapabilities {
    fn default() -> (r: Self)
        ensures
            !r.monitor && !r.window && !r.virtual_source,
            !r.hidden_cursor && !r.embedded_cursor && !r.metadata_cursor,
    {
        PortalCapabilities {
            monitor: false,
            window: false,
            virtual_source: false,
            hidden_cursor: false,
            embedded_cursor: false,
            metadata_cursor: false,
        }
    }
}

/// Metadata the portal exposes for the selected monitor.
#[derive(Debug, PartialEq, Eq)]
pub struct SelectedSource {
    pub id: Option<String>,
    pub mapping_id: Option<String>,
    pub position: Option<(i32, i32)>,
    pub size: Option<(i32, i32)>,
}

/// The mathematical value of [`SelectedSource`].
#[verifier::ext_equal]
pub struct SelectedSourceView {
    pub id: Option<Seq<char>>,
    pub mapping_id: Option<Seq<char>>,
    pub position: Option<(i32, i32)>,
    pub size: Option<(i32, i32)>,
}

impl DeepView for SelectedSource {
    type V = SelectedSourceView;

    open spec fn deep_view(&self) -> SelectedSourceView {
        SelectedSourceView {
            id: self.id.deep_view(),
            mapping_id: self.mapping_id.deep_view(),
            position: self.position,
            size: self.size,
        }
    }
}

impl Clone for SelectedSource {
    fn clone(&self) -> (r: Self)
        ensures
            r.deep_view() == self.deep_view(),
    {
        SelectedSource {
            id: self.id.clone(),
            mapping_id: self.mapping_id.clone(),
            position: self.position,
            size: self.size,
        }
    }
}

/// How a portal session is opened.
#[derive(Debug, PartialEq)]
pub struct PortalOptions {
    /// When false, a missing restore token fails with `ConsentRequired` without opening a chooser.
    pub interactive: bool,
    /// A token that the portal returned earlier. It is opaque and must not be parsed.
    pub restore_token: Option<String>,
    /// Optional private file, as the bytes of its path, for loading and saving the token.
    pub restore_token_path: Option<Vec<u8>>,
}

/// The mathematical value of [`PortalOptions`].
#[verifier::ext_equal]
pub struct PortalOptionsView {
    pub interactive: bool,
    pub restore_token: Option<Seq<char>>,
    pub restore_token_path: Option<Seq<u8>>,
}

impl DeepView for PortalOptions {
    type V = PortalOptionsView;

    open spec fn deep_view(&self) -> PortalOptionsView {
        PortalOptionsView {
            interactive: self.interactive,
            restore_token: self.restore_token.deep_view(),
            restore_token_path: self.restore_token_path.deep_view(),
        }
    }
}

impl Clone for PortalOptions {
    fn clone(&self) -> (r: Self)
        ensures
            r.deep_view() == self.deep_view(),
    {
        PortalOptions {
            interactive: self.interactive,
            restore_token: self.restore_token.clone(),
            restore_token_path: self.restore_token_path.clone(),
        }
    }
}

impl Default for PortalOptions {
    fn default() -> (r: Self)
        ensures
            r.deep_view() == (PortalOptionsView {
                interactive: true,
                restore_token: None,
                restore_token_path: None,
            }),
    {
        PortalOptions { interactive: true, restore_token: None, restore_token_path: None }
    }
}

/// Configuration for the default portal-first capture path.
#[derive(Debug, PartialEq)]
pub struct CaptureOptions {
    pub portal: PortalOptions,
    /// Use grim only when the portal or PipeWire is unavailable or fails. Cancellation and explicit consent requirements are never bypassed.
    pub grim_fallback: bool,
    pub grim_output: Option<String>,
}

/// The mathematical value of [`CaptureOptions`].
#[verifier::ext_equal]
pub struct CaptureOptionsView {
    pub portal: PortalOptionsView,
    pub grim_fallback: bool,
    pub grim_output: Option<Seq<char>>,
}

impl DeepView for CaptureOptions {
    type V = CaptureOptionsView;

    open spec fn deep_view(&self) -> CaptureOptionsView {
        CaptureOptionsView {
            portal: self.portal.deep_view(),
            grim_fallback: self.grim_fallback,
            grim_output: self.grim_output.deep_view(),
        }
    }
}

impl Clone for CaptureOptions {
    fn clone(&self) -> (r: Self)
        ensures
            r.deep_view() == self.deep_view(),
    {
        CaptureOptions {
            portal: self.portal.clone(),
            grim_fallback: self.grim_fallback,
            grim_output: self.grim_output.clone(),
        }
    }
}

impl Default for CaptureOptions {
    fn default() -> (r: Self)
        ensures
            r.deep_view().portal == (PortalOptionsView {
                interactive: true,
                restore_token: None,
                restore_token_path: None,
            }),
            r.grim_fallback,
            r.grim_output is None,
    {
        CaptureOptions { portal: PortalOptions::default(), grim_fallback: true, grim_output: None }
    }
}

/// The capture path that a session uses.
#[derive(Clone, Copy, Debug, PartialEq, Eq, Structural)]
pub enum ActiveBackend {
    PortalPipeWire,
    Grim,
}

/// The capture path after an attempt at the portal: only a failure of the
/// backend itself leads to grim, and only where that is allowed.
pub fn choose_backend(attempt: Result<(), CaptureError>, grim_fallback: bool) -> (r: Result<
    ActiveBackend,
    CaptureError,
>)
    ensures
        attempt is Ok ==> r == Ok::<ActiveBackend, CaptureError>(ActiveBackend::PortalPipeWire),
        attempt matches Err(error) ==> if error is Backend && grim_fallback {
            r == Ok::<ActiveBackend, CaptureError>(ActiveBackend::Grim)
        } else {
            r == Err::<ActiveBackend, CaptureError>(error)
        },
{
    match attempt {
        Ok(()) => Ok(ActiveBackend::PortalPipeWire),
        Err(CaptureError::Backend(reason)) => if grim_fallback {
            Ok(ActiveBackend::Grim)
        } else {
            Err(CaptureError::Backend(reason))
        },
        Err(error) => Err(error),
    }
}

/// Whether a token has to be read from the token file before a session starts.
pub fn needs_stored_token(options: &PortalOptions) -> (r: bool)
    ensures
        r == (options.restore_token is None && options.restore_token_path is Some),
{
    options.restore_token.is_none() && options.restore_token_path.is_some()
}

/// The token in the text of a token file: the text without the white space
/// around it, if anything is left.
pub fn stored_token(content: &str) -> (r: Option<String>)
    ensures
        r is None <==> text::blank(content@),
        r matches Some(token) ==> token@ == text::trimmed(content@),
{
    proof {
        text::lemma_trimmed(content@);
    }
    let token: &str = text::trim(content);
    if token.is_empty() {
        None
    } else {
        Some(token.to_owned())
    }
}

/// The token that a session starts with. Without one, a session that may not
/// ask the user does not start.
pub fn starting_token(options: &PortalOptions, stored: Option<String>) -> (r: Result<
    Option<String>,
    CaptureError,
>)
    ensures
        r is Err <==> !options.interactive && options.restore_token is None && stored is None,
        r matches Err(error) ==> error == CaptureError::ConsentRequired,
        r matches Ok(token) ==> token.deep_view() == if options.restore_token is Some {
            options.restore_token.deep_view()
        } else {
            stored.deep_view()
        },
{
    let token: Option<String> = if options.restore_token.is_some() {
        options.restore_token.clone()
    } else {
        stored
    };
    if !options.interactive && token.is_none() {
        return Err(CaptureError::ConsentRequired);
    }
    Ok(token)
}

/// The error of a token file that cannot be read.
pub fn token_unreadable(reason: &str) -> (r: CaptureError)
    ensures
        r.deep_view() == CaptureErrorView::Backend(
            "failed to read portal restore token: "@ + reason@,
        ),
{
    CaptureError::Backend(text::concat("failed to read portal restore token: ", reason))
}

/// The error of a session that ended before its caller was told anything.
pub fn unanswered_start() -> (r: CaptureError)
    ensures
        r.deep_view() == CaptureErrorView::Backend("portal capture task stopped during startup"@),
{
    CaptureError::Backend("portal capture task stopped during startup".to_owned())
}

/// How the portal refused or failed.
#[derive(Debug, PartialEq, Eq)]
pub enum PortalFailure {
    Cancelled,
    NotAllowed,
    Other(String),
}

/// The capture error of a portal failure.
pub fn portal_backend_error(failure: PortalFailure) -> (r: CaptureError)
    ensures
        failure is Cancelled ==> r == CaptureError::UserCancelled,
        failure is NotAllowed ==> r == CaptureError::ConsentRequired,
        failure matches PortalFailure::Other(reason) ==> r.deep_view() == CaptureErrorView::Backend(
            "screen capture portal failed: "@ + reason@,
        ),
{
    match failure {
        PortalFailure::Cancelled => CaptureError::UserCancelled,
        PortalFailure::NotAllowed => CaptureError::ConsentRequired,
        PortalFailure::Other(reason) => CaptureError::Backend(
            text::concat("screen capture portal failed: ", reason.as_str()),
        ),
    }
}

/// What the reader of frames finds: a frame, an error, or the end.
#[derive(Debug, PartialEq, Eq)]
pub enum FrameEvent<F> {
    Frame(F),
    Error(CaptureError),
    Closed,
}

/// What a reader makes of what it found; nothing yet means that it waits on.
pub fn received<F>(event: Option<FrameEvent<F>>) -> (r: Option<Result<F, CaptureError>>)
    ensures
        event is None ==> r is None,
        event matches Some(FrameEvent::Frame(image)) ==> r == Some(Ok::<F, CaptureError>(image)),
        event matches Some(FrameEvent::Error(error)) ==> r == Some(Err::<F, CaptureError>(error)),
        event matches Some(FrameEvent::Closed) ==> r == Some(
            Err::<F, CaptureError>(CaptureError::Closed),
        ),
{
    match event {
        Some(FrameEvent::Frame(image)) => Some(Ok(image)),
        Some(FrameEvent::Error(error)) => Some(Err(error)),
        Some(FrameEvent::Closed) => Some(Err(CaptureError::Closed)),
        None => None,
    }
}

/// A stream that the portal granted.
#[derive(Debug, PartialEq, Eq)]
pub struct MonitorStream {
    pub node_id: u32,
    pub source: SelectedSource,
}

/// The mathematical value of [`MonitorStream`].
#[verifier::ext_equal]
pub struct MonitorStreamView {
    pub node_id: u32,
    pub source: SelectedSourceView,
}

impl DeepView for MonitorStream {
    type V = MonitorStreamView;

    open spec fn deep_view(&self) -> MonitorStreamView {
        MonitorStreamView {
            node_id: self.node_id,
            source: self.source.deep_view(),
        }
    }
}

impl Clone for MonitorStream {
    fn clone(&self) -> (r: Self)
        ensures
            r.deep_view() == self.deep_view(),
    {
        MonitorStream {
            node_id: self.node_id,
            source: self.source.clone(),
        }
    }
}

/// How far a portal session has come.
#[derive(Debug, PartialEq, Eq)]
pub enum PortalPhase {
    /// Waiting for the portal and the user.
    Requesting,
    /// A monitor is granted; its PipeWire remote is being opened.
    Granted { source: SelectedSource, restore_token: Option<String> },
    /// The remote is open; the worker is being started.
    Connecting { source: SelectedSource, restore_token: Option<String> },
    /// The worker runs.
    Streaming,
    /// The worker is ending, on request or by itself.
    Joining { requested: bool },
    Ended,
}

/// The mathematical value of [`PortalPhase`].
#[verifier::ext_equal]
pub enum PortalPhaseView {
    Requesting,
    Granted { source: SelectedSourceView, restore_token: Option<Seq<char>> },
    Connecting { source: SelectedSourceView, restore_token: Option<Seq<char>> },
    Streaming,
    Joining { requested: bool },
    Ended,
}

impl DeepView for PortalPhase {
    type V = PortalPhaseView;

    open spec fn deep_view(&self) -> PortalPhaseView {
        match self {
            PortalPhase::Requesting => PortalPhaseView::Requesting,
            PortalPhase::Granted { source, restore_token } => PortalPhaseView::Granted { source: source.deep_view(), restore_token: restore_token.deep_view() },
            PortalPhase::Connecting { source, restore_token } => PortalPhaseView::Connecting { source: source.deep_view(), restore_token: restore_token.deep_view() },
            PortalPhase::Streaming => PortalPhaseView::Streaming,
            PortalPhase::Joining { requested } => PortalPhaseView::Joining { requested: *requested },
            PortalPhase::Ended => PortalPhaseView::Ended,
        }
    }
}

impl Clone for PortalPhase {
    fn clone(&self) -> (r: Self)
        ensures
            r.deep_view() == self.deep_view(),
    {
        match self {
            PortalPhase::Requesting => PortalPhase::Requesting,
            PortalPhase::Granted { source, restore_token } => PortalPhase::Granted { source: source.clone(), restore_token: restore_token.clone() },
            PortalPhase::Connecting { source, restore_token } => PortalPhase::Connecting { source: source.clone(), restore_token: restore_token.clone() },
            PortalPhase::Streaming => PortalPhase::Streaming,
            PortalPhase::Joining { requested } => PortalPhase::Joining { requested: *requested },
            PortalPhase::Ended => PortalPhase::Ended,
        }
    }
}

/// What happens to a portal session.
#[derive(Debug, PartialEq, Eq)]
pub enum PortalEvent {
    /// The portal could not be asked.
    SetupFailed(CaptureError),
    StopRequested,
    /// The portal answered with a failure.
    ConsentFailed(CaptureError),
    ConsentGranted { streams: Vec<MonitorStream>, restore_token: Option<String> },
    RemoteFailed(CaptureError),
    RemoteOpened,
    WorkerNotStarted(String),
    WorkerStarted,
    WorkerFinished,
    WorkerFailed(String),
    /// The worker went away without a word.
    WorkerLost,
    Joined,
    JoinPanicked,
    JoinFailed(String),
}

/// The mathematical value of [`PortalEvent`].
#[verifier::ext_equal]
pub enum PortalEventView {
    SetupFailed(CaptureErrorView),
    StopRequested,
    ConsentFailed(CaptureErrorView),
    ConsentGranted { streams: Seq<MonitorStreamView>, restore_token: Option<Seq<char>> },
    RemoteFailed(CaptureErrorView),
    RemoteOpened,
    WorkerNotStarted(Seq<char>),
    WorkerStarted,
    WorkerFinished,
    WorkerFailed(Seq<char>),
    WorkerLost,
    Joined,
    JoinPanicked,
    JoinFailed(Seq<char>),
}

impl DeepView for PortalEvent {
    type V = PortalEventView;

    open spec fn deep_view(&self) -> PortalEventView {
        match self {
            PortalEvent::SetupFailed(value) => PortalEventView::SetupFailed(value.deep_view()),
            PortalEvent::StopRequested => PortalEventView::StopRequested,
            PortalEvent::ConsentFailed(value) => PortalEventView::ConsentFailed(value.deep_view()),
            PortalEvent::ConsentGranted { streams, restore_token } => PortalEventView::ConsentGranted { streams: streams.deep_view(), restore_token: restore_token.deep_view() },
            PortalEvent::RemoteFailed(value) => PortalEventView::RemoteFailed(value.deep_view()),
            PortalEvent::RemoteOpened => PortalEventView::RemoteOpened,
            PortalEvent::WorkerNotStarted(value) => PortalEventView::WorkerNotStarted(value.deep_view()),
            PortalEvent::WorkerStarted => PortalEventView::WorkerStarted,
            PortalEvent::WorkerFinished => PortalEventView::WorkerFinished,
            PortalEvent::WorkerFailed(value) => PortalEventView::WorkerFailed(value.deep_view()),
            PortalEvent::WorkerLost => PortalEventView::WorkerLost,
            PortalEvent::Joined => PortalEventView::Joined,
            PortalEvent::JoinPanicked => PortalEventView::JoinPanicked,
            PortalEvent::JoinFailed(value) => PortalEventView::JoinFailed(value.deep_view()),
        }
    }
}

impl Clone for PortalEvent {
    fn clone(&self) -> (r: Self)
        ensures
            r.deep_view() == self.deep_view(),
    {
        match self {
            PortalEvent::SetupFailed(value) => PortalEvent::SetupFailed(value.clone()),
            PortalEvent::StopRequested => PortalEvent::StopRequested,
            PortalEvent::ConsentFailed(value) => PortalEvent::ConsentFailed(value.clone()),
            PortalEvent::ConsentGranted { streams, restore_token } => PortalEvent::ConsentGranted { streams: streams.clone(), restore_token: restore_token.clone() },
            PortalEvent::RemoteFailed(value) => PortalEvent::RemoteFailed(value.clone()),
            PortalEvent::RemoteOpened => PortalEvent::RemoteOpened,
            PortalEvent::WorkerNotStarted(value) => PortalEvent::WorkerNotStarted(value.clone()),
            PortalEvent::WorkerStarted => PortalEvent::WorkerStarted,
            PortalEvent::WorkerFinished => PortalEvent::WorkerFinished,
            PortalEvent::WorkerFailed(value) => PortalEvent::WorkerFailed(value.clone()),
            PortalEvent::WorkerLost => PortalEvent::WorkerLost,
            PortalEvent::Joined => PortalEvent::Joined,
            PortalEvent::JoinPanicked => PortalEvent::JoinPanicked,
            PortalEvent::JoinFailed(value) => PortalEvent::JoinFailed(value.clone()),
        }
    }
}

/// What the caller that started a session is told.
#[derive(Debug, PartialEq, Eq)]
pub enum StartAnswer {
    Failed(CaptureError),
    Ready { source: SelectedSource, restore_token: Option<String> },
}

/// The mathematical value of [`StartAnswer`].
#[verifier::ext_equal]
pub enum StartAnswerView {
    Failed(CaptureErrorView),
    Ready { source: SelectedSourceView, restore_token: Option<Seq<char>> },
}

impl DeepView for StartAnswer {
    type V = StartAnswerView;

    open spec fn deep_view(&self) -> StartAnswerView {
        match self {
            StartAnswer::Failed(value) => StartAnswerView::Failed(value.deep_view()),
            StartAnswer::Ready { source, restore_token } => StartAnswerView::Ready { source: source.deep_view(), restore_token: restore_token.deep_view() },
        }
    }
}

impl Clone for StartAnswer {
    fn clone(&self) -> (r: Self)
        ensures
            r.deep_view() == self.deep_view(),
    {
        match self {
            StartAnswer::Failed(value) => StartAnswer::Failed(value.clone()),
            StartAnswer::Ready { source, restore_token } => StartAnswer::Ready { source: source.clone(), restore_token: restore_token.clone() },
        }
    }
}

/// What the reader of frames is told at the end.
#[derive(Debug, PartialEq, Eq)]
pub enum LastEvent {
    Error(CaptureError),
    Closed,
}

/// The mathematical value of [`LastEvent`].
#[verifier::ext_equal]
pub enum LastEventView {
    Error(CaptureErrorView),
    Closed,
}

impl DeepView for LastEvent {
    type V = LastEventView;

    open spec fn deep_view(&self) -> LastEventView {
        match self {
            LastEvent::Error(value) => LastEventView::Error(value.deep_view()),
            LastEvent::Closed => LastEventView::Closed,
        }
    }
}

impl Clone for LastEvent {
    fn clone(&self) -> (r: Self)
        ensures
            r.deep_view() == self.deep_view(),
    {
        match self {
            LastEvent::Error(value) => LastEvent::Error(value.clone()),
            LastEvent::Closed => LastEvent::Closed,
        }
    }
}

/// What follows an event: the next phase, and what is done on the way.
#[derive(Debug, PartialEq, Eq)]
pub struct PortalStep {
    pub phase: PortalPhase,
    /// What the caller is told.
    pub answer: Option<StartAnswer>,
    /// The state to publish.
    pub state: Option<CaptureState>,
    /// What the reader of frames is told.
    pub last: Option<LastEvent>,
    /// The node whose remote is to be opened.
    pub open_node: Option<u32>,
    /// Whether the new token goes to the token file.
    pub save_token: bool,
    pub stop_worker: bool,
    pub close_session: bool,
}

/// The mathematical value of [`PortalStep`].
#[verifier::ext_equal]
pub struct PortalStepView {
    pub phase: PortalPhaseView,
    pub answer: Option<StartAnswerView>,
    pub state: Option<CaptureStateView>,
    pub last: Option<LastEventView>,
    pub open_node: Option<u32>,
    pub save_token: bool,
    pub stop_worker: bool,
    pub close_session: bool,
}

impl DeepView for PortalStep {
    type V = PortalStepView;

    open spec fn deep_view(&self) -> PortalStepView {
        PortalStepView {
            phase: self.phase.deep_view(),
            answer: self.answer.deep_view(),
            state: self.state.deep_view(),
            last: self.last.deep_view(),
            open_node: self.open_node,
            save_token: self.save_token,
            stop_worker: self.stop_worker,
            close_session: self.close_session,
        }
    }
}

impl Clone for PortalStep {
    fn clone(&self) -> (r: Self)
        ensures
            r.deep_view() == self.deep_view(),
    {
        PortalStep {
            phase: self.phase.clone(),
            answer: self.answer.clone(),
            state: self.state.clone(),
            last: self.last.clone(),
            open_node: self.open_node,
            save_token: self.save_token,
            stop_worker: self.stop_worker,
            close_session: self.close_session,
        }
    }
}

/// A step to a phase that does nothing else.
pub open spec fn quiet_step(phase: PortalPhaseView) -> PortalStepView {
    PortalStepView {
        phase,
        answer: None,
        state: None,
        last: None,
        open_node: None,
        save_token: false,
        stop_worker: false,
        close_session: false,
    }
}

/// The end of a session by an error, which becomes the state and the last
/// thing that the reader of frames is told.
pub open spec fn failed_step(error: CaptureErrorView) -> PortalStepView {
    PortalStepView {
        state: Some(frame::error_state(error)),
        last: Some(LastEventView::Error(error)),
        ..quiet_step(PortalPhaseView::Ended)
    }
}

/// The end of a session by an error that the caller is told too.
pub open spec fn refused_step(error: CaptureErrorView) -> PortalStepView {
    PortalStepView {
        answer: Some(StartAnswerView::Failed(error)),
        close_session: true,
        ..failed_step(error)
    }
}

/// What follows an event in a phase; an event that a phase does not expect
/// changes nothing.
pub open spec fn portal_step(
    phase: PortalPhaseView,
    event: PortalEventView,
    keeps_tokens: bool,
) -> PortalStepView {
    match (phase, event) {
        (PortalPhaseView::Requesting, PortalEventView::SetupFailed(error)) => failed_step(error),
        (PortalPhaseView::Requesting, PortalEventView::StopRequested) => PortalStepView {
            answer: Some(StartAnswerView::Failed(CaptureErrorView::Closed)),
            state: Some(CaptureStateView::Stopped),
            close_session: true,
            ..quiet_step(PortalPhaseView::Ended)
        },
        (PortalPhaseView::Requesting, PortalEventView::ConsentFailed(error)) => refused_step(error),
        (
            PortalPhaseView::Requesting,
            PortalEventView::ConsentGranted { streams, restore_token },
        ) => if streams.len() == 0 {
            refused_step(CaptureErrorView::Backend("the portal returned no monitor stream"@))
        } else {
            PortalStepView {
                open_node: Some(streams[0].node_id),
                save_token: keeps_tokens && restore_token is Some,
                ..quiet_step(
                    PortalPhaseView::Granted { source: streams[0].source, restore_token },
                )
            }
        },
        (PortalPhaseView::Granted { .. }, PortalEventView::RemoteFailed(error)) => failed_step(
            error,
        ),
        (PortalPhaseView::Granted { source, restore_token }, PortalEventView::RemoteOpened) => {
            PortalStepView {
                state: Some(CaptureStateView::Connecting),
                ..quiet_step(PortalPhaseView::Connecting { source, restore_token })
            }
        },
        (PortalPhaseView::Connecting { .. }, PortalEventView::WorkerNotStarted(reason)) => {
            failed_step(
                CaptureErrorView::Backend("failed to start PipeWire thread: "@ + reason),
            )
        },
        (PortalPhaseView::Connecting { source, restore_token }, PortalEventView::WorkerStarted) => {
            PortalStepView {
                answer: Some(StartAnswerView::Ready { source, restore_token }),
                ..quiet_step(PortalPhaseView::Streaming)
            }
        },
        (PortalPhaseView::Streaming, PortalEventView::StopRequested) => PortalStepView {
            state: Some(CaptureStateView::Stopping),
            stop_worker: true,
            close_session: true,
            ..quiet_step(PortalPhaseView::Joining { requested: true })
        },
        (PortalPhaseView::Streaming, PortalEventView::WorkerFinished) => PortalStepView {
            close_session: true,
            ..quiet_step(PortalPhaseView::Joining { requested: false })
        },
        (PortalPhaseView::Streaming, PortalEventView::WorkerFailed(reason)) => PortalStepView {
            close_session: true,
            ..failed_step(CaptureErrorView::Backend("PipeWire capture failed: "@ + reason))
        },
        (PortalPhaseView::Streaming, PortalEventView::WorkerLost) => failed_step(
            CaptureErrorView::Backend("PipeWire completion signal was lost"@),
        ),
        (PortalPhaseView::Joining { requested }, PortalEventView::Joined) => if requested {
            PortalStepView {
                state: Some(CaptureStateView::Stopped),
                last: Some(LastEventView::Closed),
                ..quiet_step(PortalPhaseView::Ended)
            }
        } else {
            failed_step(
                CaptureErrorView::Backend("PipeWire capture worker stopped unexpectedly"@),
            )
        },
        (PortalPhaseView::Joining { .. }, PortalEventView::JoinPanicked) => failed_step(
            CaptureErrorView::Backend("PipeWire capture thread panicked"@),
        ),
        (PortalPhaseView::Joining { .. }, PortalEventView::JoinFailed(reason)) => failed_step(
            CaptureErrorView::Backend("PipeWire join failed: "@ + reason),
        ),
        _ => quiet_step(phase),
    }
}

fn quiet(phase: PortalPhase) -> (r: PortalStep)
    ensures
        r.deep_view() == quiet_step(phase.deep_view()),
{
    PortalStep {
        phase,
        answer: None,
        state: None,
        last: None,
        open_node: None,
        save_token: false,
        stop_worker: false,
        close_session: false,
    }
}

fn failed(error: CaptureError) -> (r: PortalStep)
    ensures
        r.deep_view() == failed_step(error.deep_view()),
{
    let state: CaptureState = state_for_error(&error);
    PortalStep {
        state: Some(state),
        last: Some(LastEvent::Error(error)),
        ..quiet(PortalPhase::Ended)
    }
}

fn refused(error: CaptureError) -> (r: PortalStep)
    ensures
        r.deep_view() == refused_step(error.deep_view()),
{
    let told: CaptureError = error.clone();
    PortalStep {
        answer: Some(StartAnswer::Failed(told)),
        close_session: true,
        ..failed(error)
    }
}

fn backend_failed(message: String) -> (r: PortalStep)
    ensures
        r.deep_view() == failed_step(CaptureErrorView::Backend(message@)),
{
    failed(CaptureError::Backend(message))
}

fn granted(streams: Vec<MonitorStream>, restore_token: Option<String>, keeps_tokens: bool) -> (r:
    PortalStep)
    ensures
        r.deep_view() == portal_step(
            PortalPhaseView::Requesting,
            PortalEventView::ConsentGranted {
                streams: streams.deep_view(),
                restore_token: restore_token.deep_view(),
            },
            keeps_tokens,
        ),
{
    if streams.len() == 0 {
        return refused(CaptureError::Backend("the portal returned no monitor stream".to_owned()));
    }
    let node_id: u32 = streams[0].node_id;
    let source: SelectedSource = streams[0].source.clone();
    assert(streams.deep_view()[0] == streams[0].deep_view());
    let save_token: bool = keeps_tokens && restore_token.is_some();
    PortalStep {
        open_node: Some(node_id),
        save_token,
        ..quiet(PortalPhase::Granted { source, restore_token })
    }
}

/// Follows an event of a portal session.
pub fn advance(phase: PortalPhase, event: PortalEvent, keeps_tokens: bool) -> (r: PortalStep)
    ensures
        r.deep_view() == portal_step(phase.deep_view(), event.deep_view(), keeps_tokens),
{
    match (phase, event) {
        (PortalPhase::Requesting, PortalEvent::SetupFailed(error)) => failed(error),
        (PortalPhase::Requesting, PortalEvent::StopRequested) => PortalStep {
            answer: Some(StartAnswer::Failed(CaptureError::Closed)),
            state: Some(CaptureState::Stopped),
            close_session: true,
            ..quiet(PortalPhase::Ended)
        },
        (PortalPhase::Requesting, PortalEvent::ConsentFailed(error)) => refused(error),
        (
            PortalPhase::Requesting,
            PortalEvent::ConsentGranted { streams, restore_token },
        ) => granted(streams, restore_token, keeps_tokens),
        (PortalPhase::Granted { .. }, PortalEvent::RemoteFailed(error)) => failed(error),
        (PortalPhase::Granted { source, restore_token }, PortalEvent::RemoteOpened) => PortalStep {
            state: Some(CaptureState::Connecting),
            ..quiet(PortalPhase::Connecting { source, restore_token })
        },
        (PortalPhase::Connecting { .. }, PortalEvent::WorkerNotStarted(reason)) => backend_failed(
            text::concat("failed to start PipeWire thread: ", reason.as_str()),
        ),
        (PortalPhase::Connecting { source, restore_token }, PortalEvent::WorkerStarted) => {
            PortalStep {
                answer: Some(StartAnswer::Ready { source, restore_token }),
                ..quiet(PortalPhase::Streaming)
            }
        },
        (PortalPhase::Streaming, PortalEvent::StopRequested) => PortalStep {
            state: Some(CaptureState::Stopping),
            stop_worker: true,
            close_session: true,
            ..quiet(PortalPhase::Joining { requested: true })
        },
        (PortalPhase::Streaming, PortalEvent::WorkerFinished) => PortalStep {
            close_session: true,
            ..quiet(PortalPhase::Joining { requested: false })
        },
        (PortalPhase::Streaming, PortalEvent::WorkerFailed(reason)) => PortalStep {
            close_session: true,
            ..backend_failed(text::concat("PipeWire capture failed: ", reason.as_str()))
        },
        (PortalPhase::Streaming, PortalEvent::WorkerLost) => backend_failed(
            "PipeWire completion signal was lost".to_owned(),
        ),
        (PortalPhase::Joining { requested }, PortalEvent::Joined) => if requested {
            PortalStep {
                state: Some(CaptureState::Stopped),
                last: Some(LastEvent::Closed),
                ..quiet(PortalPhase::Ended)
            }
        } else {
            backend_failed("PipeWire capture worker stopped unexpectedly".to_owned())
        },
        (PortalPhase::Joining { .. }, PortalEvent::JoinPanicked) => backend_failed(
            "PipeWire capture thread panicked".to_owned(),
        ),
        (PortalPhase::Joining { .. }, PortalEvent::JoinFailed(reason)) => backend_failed(
            text::concat("PipeWire join failed: ", reason.as_str()),
        ),
        (phase, _) => quiet(phase),
    }
}

/// Whether the caller that started the session has not been told anything yet.
pub open spec fn answer_pending(phase: PortalPhaseView) -> bool {
    phase is Requesting || phase is Granted || phase is Connecting
}

/// The caller is told at most once: only while nothing has been told, and after
/// an answer there is none to come.
pub proof fn law_caller_is_told_at_most_once(
    phase: PortalPhaseView,
    event: PortalEventView,
    keeps_tokens: bool,
)
    ensures
        ({
            let step = portal_step(phase, event, keeps_tokens);
            &&& step.answer is Some ==> answer_pending(phase) && !answer_pending(step.phase)
            &&& !answer_pending(phase) ==> !answer_pending(step.phase)
            &&& step.answer matches Some(StartAnswerView::Ready { .. }) ==> step.phase is Streaming
            &&& step.phase is Streaming && phase !is Streaming ==> step.answer matches Some(
                StartAnswerView::Ready { .. },
            )
        }),
{
}

/// A session that ends publishes how: it stopped, or an error that the reader
/// of frames is told as well. Nothing follows the end.
pub proof fn law_end_is_published(
    phase: PortalPhaseView,
    event: PortalEventView,
    keeps_tokens: bool,
)
    ensures
        ({
            let step = portal_step(phase, event, keeps_tokens);
            &&& step.phase is Ended && phase !is Ended ==> {
                ||| step.state == Some(CaptureStateView::Stopped)
                ||| exists|error: CaptureErrorView|
                    step.state == Some(#[trigger] frame::error_state(error)) && step.last == Some(
                        LastEventView::Error(error),
                    )
            }
            &&& step.last is Some ==> step.phase is Ended && phase !is Ended
            &&& phase is Ended ==> step == quiet_step(phase)
        }),
{
}

/// A session ends as stopped exactly when stopping was asked for.
pub proof fn law_stopped_means_requested(
    phase: PortalPhaseView,
    event: PortalEventView,
    keeps_tokens: bool,
)
    ensures
        ({
            let step = portal_step(phase, event, keeps_tokens);
            &&& step.state == Some(CaptureStateView::Stopped) ==> {
                ||| event is StopRequested
                ||| phase == (PortalPhaseView::Joining { requested: true })
            }
            &&& step.phase == (PortalPhaseView::Joining { requested: true }) && phase
                !is Joining ==> event is StopRequested
        }),
{
}

} // verus!
