//! Observable state of the service and the errors that it reports.
use crate::domain::config::{AreaId, CaptureBackend, SyncMode};
use crate::domain::ipc::PROTOCOL_VERSION;
use crate::number::Single;
use std::collections::BTreeMap;
use vstd::prelude::*;

verus! {

/// The life of the service.
#[derive(Clone, Copy, Debug, PartialEq, Eq, Structural)]
pub enum ServiceState {
    Starting,
    Ready,
    Stopping,
    Failed,
}

impl DeepView for ServiceState {
    type V = ServiceState;

    open spec fn deep_view(&self) -> ServiceState {
        *self
    }
}

impl Default for ServiceState {
    fn default() -> (r: Self)
        ensures
            r == ServiceState::Ready,
    {
        ServiceState::Ready
    }
}

/// How far the bridge is reachable.
#[derive(Clone, Copy, Debug, PartialEq, Eq, Structural)]
pub enum BridgeState {
    Unconfigured,
    Disconnected,
    Discovering,
    Pairing,
    Connecting,
    Connected,
}

impl DeepView for BridgeState {
    type V = BridgeState;

    open spec fn deep_view(&self) -> BridgeState {
        *self
    }
}

impl Default for BridgeState {
    fn default() -> (r: Self)
        ensures
            r == BridgeState::Unconfigured,
    {
        BridgeState::Unconfigured
    }
}

/// What the screen capture is doing.
#[derive(Clone, Copy, Debug, PartialEq, Eq, Structural)]
pub enum CaptureState {
    Idle,
    RequestingPermission,
    Capturing,
    Failed,
}

impl DeepView for CaptureState {
    type V = CaptureState;

    open spec fn deep_view(&self) -> CaptureState {
        *self
    }
}

impl Default for CaptureState {
    fn default() -> (r: Self)
        ensures
            r == CaptureState::Idle,
    {
        CaptureState::Idle
    }
}

/// What the synchronization is doing.
#[derive(Clone, Copy, Debug, PartialEq, Eq, Structural)]
pub enum SyncState {
    Stopped,
    Starting,
    Running,
    Stopping,
    Failed,
}

impl DeepView for SyncState {
    type V = SyncState;

    open spec fn deep_view(&self) -> SyncState {
        *self
    }
}

impl Default for SyncState {
    fn default() -> (r: Self)
        ensures
            r == SyncState::Stopped,
    {
        SyncState::Stopped
    }
}

/// What kind of problem an error reports.
#[derive(Clone, Copy, Debug, PartialEq, Eq, Structural)]
pub enum ErrorCode {
    InvalidRequest,
    InvalidConfiguration,
    VersionMismatch,
    BridgeNotFound,
    BridgeUnavailable,
    LinkButtonRequired,
    AreaNotFound,
    DisplayNotFound,
    CapturePermissionDenied,
    CaptureUnavailable,
    SyncUnavailable,
    Conflict,
    Internal,
}

impl DeepView for ErrorCode {
    type V = ErrorCode;

    open spec fn deep_view(&self) -> ErrorCode {
        *self
    }
}

/// A problem, with what can be done about it.
#[derive(Debug, PartialEq, Eq)]
pub struct ActionableError {
    pub code: ErrorCode,
    pub message: String,
    pub action: Option<String>,
    pub retryable: bool,
    pub details: BTreeMap<String, String>,
}

/// The mathematical value of [`ActionableError`].
#[verifier::ext_equal]
pub struct ActionableErrorView {
    pub code: ErrorCode,
    pub message: Seq<char>,
    pub action: Option<Seq<char>>,
    pub retryable: bool,
    pub details: Map<Seq<char>, Seq<char>>,
}

impl DeepView for ActionableError {
    type V = ActionableErrorView;

    open spec fn deep_view(&self) -> ActionableErrorView {
        ActionableErrorView {
            code: self.code,
            message: self.message.deep_view(),
            action: self.action.deep_view(),
            retryable: self.retryable,
            details: self.details.deep_view(),
        }
    }
}

impl Clone for ActionableError {
    fn clone(&self) -> (r: Self)
        ensures
            r.deep_view() == self.deep_view(),
    {
        let details: BTreeMap<String, String> = self.details.clone();
        assert(details.deep_view() =~= self.details.deep_view()) by {
            reveal(vstd::std_specs::btree::btree_map_deep_view_impl);
        }
        ActionableError {
            code: self.code,
            message: self.message.clone(),
            action: self.action.clone(),
            retryable: self.retryable,
            details,
        }
    }
}

/// An error with a code and a message and nothing else.
pub open spec fn plain_error(code: ErrorCode, message: Seq<char>) -> ActionableErrorView {
    ActionableErrorView { code, message, action: None, retryable: false, details: Map::empty() }
}

impl ActionableError {
    /// An error with a code and a message, without an action, not retryable.
    pub fn new(code: ErrorCode, message: &str) -> (r: Self)
        ensures
            r.deep_view() == plain_error(code, message@),
    {
        let details: BTreeMap<String, String> = BTreeMap::new();
        assert(details.deep_view() =~= Map::<Seq<char>, Seq<char>>::empty()) by {
            reveal(vstd::std_specs::btree::btree_map_deep_view_impl);
        }
        ActionableError {
            code,
            message: message.to_owned(),
            action: None,
            retryable: false,
            details,
        }
    }

    /// The same error with an action to take.
    pub fn with_action(self, action: &str) -> (r: Self)
        ensures
            r.deep_view() == (ActionableErrorView { action: Some(action@), ..self.deep_view() }),
    {
        ActionableError { action: Some(action.to_owned()), ..self }
    }

    /// The same error, marked as worth a retry or not.
    pub fn retryable(self, retryable: bool) -> (r: Self)
        ensures
            r.deep_view() == (ActionableErrorView { retryable, ..self.deep_view() }),
    {
        ActionableError { retryable, ..self }
    }
}

/// What the service is doing.
#[derive(Debug, PartialEq)]
pub struct StatusSnapshot {
    pub service: ServiceState,
    pub bridge: BridgeState,
    pub capture: CaptureState,
    pub sync: SyncState,
    pub active_area: Option<AreaId>,
    pub frames_per_second: Option<Single>,
    pub error: Option<ActionableError>,
}

/// The mathematical value of [`StatusSnapshot`].
#[verifier::ext_equal]
pub struct StatusSnapshotView {
    pub service: ServiceState,
    pub bridge: BridgeState,
    pub capture: CaptureState,
    pub sync: SyncState,
    pub active_area: Option<Seq<char>>,
    pub frames_per_second: Option<Single>,
    pub error: Option<ActionableErrorView>,
}

impl DeepView for StatusSnapshot {
    type V = StatusSnapshotView;

    open spec fn deep_view(&self) -> StatusSnapshotView {
        StatusSnapshotView {
            service: self.service,
            bridge: self.bridge,
            capture: self.capture,
            sync: self.sync,
            active_area: self.active_area.deep_view(),
            frames_per_second: self.frames_per_second,
            error: self.error.deep_view(),
        }
    }
}

impl Clone for StatusSnapshot {
    fn clone(&self) -> (r: Self)
        ensures
            r.deep_view() == self.deep_view(),
    {
        StatusSnapshot {
            service: self.service,
            bridge: self.bridge,
            capture: self.capture,
            sync: self.sync,
            active_area: self.active_area.clone(),
            frames_per_second: self.frames_per_second,
            error: self.error.clone(),
        }
    }
}

/// The status of a service that has not done anything yet.
pub open spec fn default_status() -> StatusSnapshotView {
    StatusSnapshotView {
        service: ServiceState::Ready,
        bridge: BridgeState::Unconfigured,
        capture: CaptureState::Idle,
        sync: SyncState::Stopped,
        active_area: None,
        frames_per_second: None,
        error: None,
    }
}

impl Default for StatusSnapshot {
    fn default() -> (r: Self)
        ensures
            r.deep_view() == default_status(),
    {
        StatusSnapshot {
            service: ServiceState::Ready,
            bridge: BridgeState::Unconfigured,
            capture: CaptureState::Idle,
            sync: SyncState::Stopped,
            active_area: None,
            frames_per_second: None,
            error: None,
        }
    }
}

/// What the service can do.
#[derive(Debug, PartialEq, Eq)]
pub struct Capabilities {
    pub protocol_versions: Vec<u32>,
    pub capture_backends: Vec<CaptureBackend>,
    pub sync_modes: Vec<SyncMode>,
    pub audio_reactive: bool,
    pub discovery: bool,
    /// The portal chooser selects a monitor; it cannot target `selected_display` by ID.
    pub portal_display_selection: bool,
}

/// The mathematical value of [`Capabilities`].
#[verifier::ext_equal]
pub struct CapabilitiesView {
    pub protocol_versions: Seq<u32>,
    pub capture_backends: Seq<CaptureBackend>,
    pub sync_modes: Seq<SyncMode>,
    pub audio_reactive: bool,
    pub discovery: bool,
    pub portal_display_selection: bool,
}

impl DeepView for Capabilities {
    type V = CapabilitiesView;

    open spec fn deep_view(&self) -> CapabilitiesView {
        CapabilitiesView {
            protocol_versions: self.protocol_versions.deep_view(),
            capture_backends: self.capture_backends.deep_view(),
            sync_modes: self.sync_modes.deep_view(),
            audio_reactive: self.audio_reactive,
            discovery: self.discovery,
            portal_display_selection: self.portal_display_selection,
        }
    }
}

impl Clone for Capabilities {
    fn clone(&self) -> (r: Self)
        ensures
            r.deep_view() == self.deep_view(),
    {
        Capabilities {
            protocol_versions: self.protocol_versions.clone(),
            capture_backends: self.capture_backends.clone(),
            sync_modes: self.sync_modes.clone(),
            audio_reactive: self.audio_reactive,
            discovery: self.discovery,
            portal_display_selection: self.portal_display_selection,
        }
    }
}

/// What the service can do.
pub open spec fn default_capabilities() -> CapabilitiesView {
    CapabilitiesView {
        protocol_versions: seq![PROTOCOL_VERSION],
        capture_backends: seq![CaptureBackend::PortalPipewire, CaptureBackend::Grim],
        sync_modes: seq![SyncMode::Video, SyncMode::Game],
        audio_reactive: false,
        discovery: true,
        portal_display_selection: false,
    }
}

impl Default for Capabilities {
    fn default() -> (r: Self)
        ensures
            r.deep_view() == default_capabilities(),
    {
        let r: Capabilities = Capabilities {
            protocol_versions: vec![PROTOCOL_VERSION],
            capture_backends: vec![CaptureBackend::PortalPipewire, CaptureBackend::Grim],
            sync_modes: vec![SyncMode::Video, SyncMode::Game],
            audio_reactive: false,
            discovery: true,
            portal_display_selection: false,
        };
        assert(r.deep_view().protocol_versions =~= default_capabilities().protocol_versions);
        assert(r.deep_view().capture_backends =~= default_capabilities().capture_backends);
        assert(r.deep_view().sync_modes =~= default_capabilities().sync_modes);
        r
    }
}

} // verus!
