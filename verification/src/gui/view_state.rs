//! What the dashboard shows of the service, as message identifiers.
use crate::domain::state::{
    BridgeState, CaptureState, ErrorCode, ServiceState, StatusSnapshot, StatusSnapshotView,
    SyncState,
};
use vstd::prelude::*;

verus! {

/// What the dashboard shows of the service, as message identifiers.
#[derive(Clone, Copy, Debug, PartialEq, Eq)]
pub struct DashboardState {
    pub service_id: &'static str,
    pub bridge_id: &'static str,
    pub capture_id: &'static str,
    pub sync_id: &'static str,
    pub action_id: &'static str,
    pub action_enabled: bool,
    pub action_is_stop: bool,
    pub error_id: Option<&'static str>,
}

/// The mathematical value of [`DashboardState`].
#[verifier::ext_equal]
pub struct DashboardStateView {
    pub service_id: Seq<char>,
    pub bridge_id: Seq<char>,
    pub capture_id: Seq<char>,
    pub sync_id: Seq<char>,
    pub action_id: Seq<char>,
    pub action_enabled: bool,
    pub action_is_stop: bool,
    pub error_id: Option<Seq<char>>,
}

impl DeepView for DashboardState {
    type V = DashboardStateView;

    open spec fn deep_view(&self) -> DashboardStateView {
        DashboardStateView {
            service_id: self.service_id@,
            bridge_id: self.bridge_id@,
            capture_id: self.capture_id@,
            sync_id: self.sync_id@,
            action_id: self.action_id@,
            action_enabled: self.action_enabled,
            action_is_stop: self.action_is_stop,
            error_id: match self.error_id {
                Some(id) => Some(id@),
                None => None,
            },
        }
    }
}

/// The message of a state of the service.
pub open spec fn service_id_text(value: ServiceState) -> Seq<char> {
    match value {
        ServiceState::Starting => "state-starting"@,
        ServiceState::Ready => "state-ready"@,
        ServiceState::Stopping => "state-stopping"@,
        ServiceState::Failed => "state-failed"@,
    }
}

/// The message of a state of the service.
pub fn service_id(value: ServiceState) -> (r: &'static str)
    ensures
        r@ == service_id_text(value),
{
    match value {
        ServiceState::Starting => "state-starting",
        ServiceState::Ready => "state-ready",
        ServiceState::Stopping => "state-stopping",
        ServiceState::Failed => "state-failed",
    }
}

/// The message of a state of the bridge.
pub open spec fn bridge_id_text(value: BridgeState) -> Seq<char> {
    match value {
        BridgeState::Unconfigured => "state-unconfigured"@,
        BridgeState::Disconnected => "state-disconnected"@,
        BridgeState::Discovering => "state-discovering"@,
        BridgeState::Pairing => "state-pairing"@,
        BridgeState::Connecting => "state-connecting"@,
        BridgeState::Connected => "state-connected"@,
    }
}

/// The message of a state of the bridge.
pub fn bridge_id(value: BridgeState) -> (r: &'static str)
    ensures
        r@ == bridge_id_text(value),
{
    match value {
        BridgeState::Unconfigured => "state-unconfigured",
        BridgeState::Disconnected => "state-disconnected",
        BridgeState::Discovering => "state-discovering",
        BridgeState::Pairing => "state-pairing",
        BridgeState::Connecting => "state-connecting",
        BridgeState::Connected => "state-connected",
    }
}

/// The message of a state of the capture.
pub open spec fn capture_id_text(value: CaptureState) -> Seq<char> {
    match value {
        CaptureState::Idle => "state-idle"@,
        CaptureState::RequestingPermission => "state-requesting-permission"@,
        CaptureState::Capturing => "state-capturing"@,
        CaptureState::Failed => "state-failed"@,
    }
}

/// The message of a state of the capture.
pub fn capture_id(value: CaptureState) -> (r: &'static str)
    ensures
        r@ == capture_id_text(value),
{
    match value {
        CaptureState::Idle => "state-idle",
        CaptureState::RequestingPermission => "state-requesting-permission",
        CaptureState::Capturing => "state-capturing",
        CaptureState::Failed => "state-failed",
    }
}

/// The message of a state of the synchronization.
pub open spec fn sync_id_text(value: SyncState) -> Seq<char> {
    match value {
        SyncState::Stopped => "state-stopped"@,
        SyncState::Starting => "state-starting"@,
        SyncState::Running => "state-running"@,
        SyncState::Stopping => "state-stopping"@,
        SyncState::Failed => "state-failed"@,
    }
}

/// The message of a state of the synchronization.
pub fn sync_id(value: SyncState) -> (r: &'static str)
    ensures
        r@ == sync_id_text(value),
{
    match value {
        SyncState::Stopped => "state-stopped",
        SyncState::Starting => "state-starting",
        SyncState::Running => "state-running",
        SyncState::Stopping => "state-stopping",
        SyncState::Failed => "state-failed",
    }
}

/// The message of an error.
pub open spec fn error_id_text(value: ErrorCode) -> Seq<char> {
    match value {
        ErrorCode::BridgeNotFound | ErrorCode::BridgeUnavailable => "error-bridge-unavailable"@,
        ErrorCode::LinkButtonRequired => "error-link-button"@,
        ErrorCode::AreaNotFound => "error-area"@,
        ErrorCode::DisplayNotFound => "error-display"@,
        ErrorCode::CapturePermissionDenied => "error-capture-permission"@,
        ErrorCode::CaptureUnavailable => "error-capture-unavailable"@,
        ErrorCode::SyncUnavailable => "error-sync-unavailable"@,
        ErrorCode::InvalidRequest | ErrorCode::InvalidConfiguration | ErrorCode::VersionMismatch | ErrorCode::Conflict | ErrorCode::Internal => "error-generic"@,
    }
}

/// The message of an error.
pub fn error_id(value: ErrorCode) -> (r: &'static str)
    ensures
        r@ == error_id_text(value),
{
    match value {
        ErrorCode::BridgeNotFound | ErrorCode::BridgeUnavailable => "error-bridge-unavailable",
        ErrorCode::LinkButtonRequired => "error-link-button",
        ErrorCode::AreaNotFound => "error-area",
        ErrorCode::DisplayNotFound => "error-display",
        ErrorCode::CapturePermissionDenied => "error-capture-permission",
        ErrorCode::CaptureUnavailable => "error-capture-unavailable",
        ErrorCode::SyncUnavailable => "error-sync-unavailable",
        ErrorCode::InvalidRequest | ErrorCode::InvalidConfiguration | ErrorCode::VersionMismatch | ErrorCode::Conflict | ErrorCode::Internal => "error-generic",
    }
}

/// What the dashboard shows without a connection.
pub open spec fn reconnecting() -> DashboardStateView {
    DashboardStateView {
        service_id: "state-reconnecting"@,
        bridge_id: "state-unknown"@,
        capture_id: "state-unknown"@,
        sync_id: "state-unknown"@,
        action_id: "action-start"@,
        action_enabled: false,
        action_is_stop: false,
        error_id: Some("error-daemon-unavailable"@),
    }
}

/// What the dashboard shows of a status.
pub open spec fn dashboard_of(status: StatusSnapshotView) -> DashboardStateView {
    let stops = status.sync == SyncState::Starting || status.sync == SyncState::Running;
    DashboardStateView {
        service_id: service_id_text(status.service),
        bridge_id: bridge_id_text(status.bridge),
        capture_id: capture_id_text(status.capture),
        sync_id: sync_id_text(status.sync),
        action_id: if stops {
            "action-stop"@
        } else {
            "action-start"@
        },
        action_enabled: status.sync != SyncState::Starting && status.sync != SyncState::Stopping,
        action_is_stop: stops,
        error_id: match status.error {
            Some(error) => Some(error_id_text(error.code)),
            None => None,
        },
    }
}

/// What the dashboard shows, given whether the service is reached and its status.
pub open spec fn dashboard(connected: bool, status: Option<StatusSnapshotView>) -> DashboardStateView {
    if connected && status is Some {
        dashboard_of(status->Some_0)
    } else {
        reconnecting()
    }
}

/// The view of a status that may be missing.
pub open spec fn view_of(status: Option<&StatusSnapshot>) -> Option<StatusSnapshotView> {
    match status {
        Some(status) => Some(status.deep_view()),
        None => None,
    }
}

/// What the dashboard shows, given whether the service is reached and its status.
pub fn dashboard_state(connected: bool, status: Option<&StatusSnapshot>) -> (r: DashboardState)
    ensures
        r.deep_view() == dashboard(connected, view_of(status)),
{
    if connected {
        if let Some(status) = status {
            let stops: bool = status.sync == SyncState::Starting || status.sync
                == SyncState::Running;
            return DashboardState {
                service_id: service_id(status.service),
                bridge_id: bridge_id(status.bridge),
                capture_id: capture_id(status.capture),
                sync_id: sync_id(status.sync),
                action_id: if stops {
                    "action-stop"
                } else {
                    "action-start"
                },
                action_enabled: status.sync != SyncState::Starting && status.sync
                    != SyncState::Stopping,
                action_is_stop: stops,
                error_id: match &status.error {
                    Some(error) => Some(error_id(error.code)),
                    None => None,
                },
            };
        }
    }
    DashboardState {
        service_id: "state-reconnecting",
        bridge_id: "state-unknown",
        capture_id: "state-unknown",
        sync_id: "state-unknown",
        action_id: "action-start",
        action_enabled: false,
        action_is_stop: false,
        error_id: Some("error-daemon-unavailable"),
    }
}

/// While the synchronization is changing, or the service is not reached, the
/// action cannot be used.
pub proof fn law_action_waits_for_changes(connected: bool, status: Option<StatusSnapshotView>)
    ensures
        dashboard(connected, status).action_enabled <==> connected && status is Some
            && status->Some_0.sync != SyncState::Starting && status->Some_0.sync
            != SyncState::Stopping,
{
}

} // verus!
