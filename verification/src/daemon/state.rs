//! What the service knows and does, and how its operations are kept apart.
use crate::daemon::errors::conflict;
use crate::daemon::errors;
use crate::domain::config::{
    AppConfig, AppConfigView, CaptureBackend, EntertainmentArea, EntertainmentAreaView,
};
use crate::domain::config;
use crate::domain::ipc::{Event, EventView};
use crate::domain::state::{
    ActionableError, ActionableErrorView, BridgeState, CaptureState, ErrorCode, ServiceState,
    StatusSnapshot, StatusSnapshotView, SyncState,
};
use crate::domain::state;
use crate::hue::bridge::{BridgeCandidate, BridgeCandidateView};
use crate::text;
use vstd::prelude::*;

verus! {

/// What the service knows and does.
#[derive(Debug)]
pub struct DaemonState {
    pub config: AppConfig,
    pub status: StatusSnapshot,
    /// The areas that were read last.
    pub areas: Vec<EntertainmentArea>,
    /// The bridge that the service is connected to.
    pub hue: Option<BridgeCandidate>,
    /// The bridge that is being paired.
    pub pending_pairing: Option<BridgeCandidate>,
    /// Whether a start can be cancelled.
    pub starting: bool,
    /// Whether a task synchronizes.
    pub syncing: bool,
    /// Whether an operation is in progress.
    pub busy: bool,
}

/// The mathematical value of [`DaemonState`].
#[verifier::ext_equal]
pub struct DaemonStateView {
    pub config: AppConfigView,
    pub status: StatusSnapshotView,
    pub areas: Seq<EntertainmentAreaView>,
    pub hue: Option<BridgeCandidateView>,
    pub pending_pairing: Option<BridgeCandidateView>,
    pub starting: bool,
    pub syncing: bool,
    pub busy: bool,
}

impl DeepView for DaemonState {
    type V = DaemonStateView;

    open spec fn deep_view(&self) -> DaemonStateView {
        DaemonStateView {
            config: self.config.deep_view(),
            status: self.status.deep_view(),
            areas: self.areas.deep_view(),
            hue: self.hue.deep_view(),
            pending_pairing: self.pending_pairing.deep_view(),
            starting: self.starting,
            syncing: self.syncing,
            busy: self.busy,
        }
    }
}

/// What holds of the service at all times: its configuration is acceptable.
pub open spec fn sound(state: DaemonStateView) -> bool {
    config::valid_config(state.config)
}

/// The state of the bridge of a service that just started.
pub open spec fn initial_bridge_state(configured: bool, pairing: bool) -> BridgeState {
    if configured {
        BridgeState::Disconnected
    } else if pairing {
        BridgeState::Pairing
    } else {
        BridgeState::Unconfigured
    }
}

/// A service that just started.
pub open spec fn initial_state(
    config: AppConfigView,
    pairing: bool,
    candidate: Option<BridgeCandidateView>,
) -> DaemonStateView {
    DaemonStateView {
        config,
        status: StatusSnapshotView {
            bridge: initial_bridge_state(config.bridge is Some, pairing),
            ..state::default_status()
        },
        areas: Seq::empty(),
        hue: None,
        pending_pairing: candidate,
        starting: false,
        syncing: false,
        busy: false,
    }
}

impl DaemonState {
    /// Starts with a configuration, and with a pairing that was in progress if
    /// one was: then `pending` says so, and holds its bridge where that can
    /// still be used. The status is `Ready`; what is published first is the
    /// same status as `Starting`.
    pub fn load(config: AppConfig, pending: Option<Option<BridgeCandidate>>) -> (r: Self)
        ensures
            r.deep_view() == initial_state(
                config.deep_view(),
                pending is Some,
                match pending {
                    Some(Some(candidate)) => Some(candidate.deep_view()),
                    _ => None,
                },
            ),
    {
        let bridge: BridgeState = if config.bridge.is_some() {
            BridgeState::Disconnected
        } else if pending.is_some() {
            BridgeState::Pairing
        } else {
            BridgeState::Unconfigured
        };
        let pending_pairing: Option<BridgeCandidate> = match pending {
            Some(candidate) => candidate,
            None => None,
        };
        let r: DaemonState = DaemonState {
            config,
            status: StatusSnapshot {
                service: ServiceState::Ready,
                bridge,
                capture: CaptureState::Idle,
                sync: SyncState::Stopped,
                active_area: None,
                frames_per_second: None,
                error: None,
            },
            areas: Vec::new(),
            hue: None,
            pending_pairing,
            starting: false,
            syncing: false,
            busy: false,
        };
        assert(r.areas.deep_view() =~= Seq::<EntertainmentAreaView>::empty());
        r
    }

    /// The event that tells watchers the status.
    pub fn status_event(&self) -> (r: Event)
        ensures
            r.deep_view() == EventView::StatusChanged(self.deep_view().status),
    {
        Event::StatusChanged(self.status.clone())
    }

    /// Sets the state of the bridge, and an error with it or none.
    pub fn set_bridge_state(&mut self, bridge: BridgeState, error: Option<ActionableError>)
        ensures
            final(self).deep_view() == with_bridge_state(
                old(self).deep_view(),
                bridge,
                error.deep_view(),
            ),
    {
        self.status.bridge = bridge;
        self.status.error = error;
    }

    /// Whether the service starts to synchronize by itself: only where that
    /// needs no answer from the user.
    pub fn should_auto_start(&self) -> (r: bool)
        ensures
            r == (self.deep_view().config.auto_start_sync
                && self.deep_view().config.capture_backend == CaptureBackend::PortalPipewire),
    {
        self.config.auto_start_sync && self.config.capture_backend == CaptureBackend::PortalPipewire
    }

    /// Reserves the service for an operation that needs it idle.
    pub fn reserve_idle(&mut self, operation: &str) -> (r: Result<(), ActionableError>)
        ensures
            reservation(
                old(self).deep_view(),
                final(self).deep_view(),
                idle_problem(old(self).deep_view(), operation@),
                r,
            ),
    {
        if self.busy {
            return Err(conflict("Another operation is already in progress"));
        }
        if !is_at_rest(self.status.sync) {
            return Err(conflict(active_message(operation).as_str()));
        }
        if self.status.bridge == BridgeState::Discovering || self.status.bridge
            == BridgeState::Pairing {
            return Err(conflict("Another bridge operation is in progress"));
        }
        self.busy = true;
        Ok(())
    }

    /// Reserves the service for an operation that needs it not to synchronize.
    pub fn reserve_sync_idle(&mut self, operation: &str) -> (r: Result<(), ActionableError>)
        ensures
            reservation(
                old(self).deep_view(),
                final(self).deep_view(),
                sync_idle_problem(old(self).deep_view(), operation@),
                r,
            ),
    {
        if self.busy {
            return Err(conflict("Another operation is already in progress"));
        }
        if !is_at_rest(self.status.sync) {
            return Err(conflict(active_message(operation).as_str()));
        }
        self.busy = true;
        Ok(())
    }

    /// Reserves the service for a change of its synchronization settings, which
    /// may also happen while it synchronizes.
    pub fn reserve_sync_settings_update(&mut self) -> (r: Result<(), ActionableError>)
        ensures
            reservation(
                old(self).deep_view(),
                final(self).deep_view(),
                settings_update_problem(old(self).deep_view()),
                r,
            ),
    {
        if self.busy {
            return Err(conflict("Another operation is already in progress"));
        }
        if !is_at_rest(self.status.sync) && self.status.sync != SyncState::Running {
            return Err(
                conflict(
                    "Cannot update synchronization settings while synchronization is changing state",
                ),
            );
        }
        self.busy = true;
        Ok(())
    }

    /// Ends a reservation.
    pub fn release(&mut self)
        ensures
            final(self).deep_view() == (DaemonStateView { busy: false, ..old(self).deep_view() }),
    {
        self.busy = false;
    }

    /// Takes over a configuration that was written to disk. One that is not
    /// acceptable is never taken over, and neither is one that was not written.
    pub fn persist(&mut self, next: AppConfig, saved: bool) -> (r: Result<
        (AppConfig, Event),
        ActionableError,
    >)
        ensures
            r is Ok <==> config::valid_config(next.deep_view()) && saved,
            r matches Ok((config, event)) ==> {
                &&& config.deep_view() == next.deep_view()
                &&& event.deep_view() == (EventView::ConfigChanged {
                    revision: next.deep_view().revision,
                })
                &&& final(self).deep_view() == (DaemonStateView {
                    config: next.deep_view(),
                    ..old(self).deep_view()
                })
            },
            r matches Err(error) ==> error.deep_view() == save_error() && *final(self) == *old(
                self,
            ),
    {
        if next.validate().is_err() || !saved {
            return Err(
                ActionableError::new(
                    ErrorCode::Internal,
                    "Could not save configuration",
                ).retryable(true),
            );
        }
        let revision: u64 = next.revision;
        self.config = next.clone();
        Ok((next, Event::ConfigChanged { revision }))
    }
}

/// A service with another state of its bridge, and an error or none.
pub open spec fn with_bridge_state(
    state: DaemonStateView,
    bridge: BridgeState,
    error: Option<ActionableErrorView>,
) -> DaemonStateView {
    DaemonStateView { status: StatusSnapshotView { bridge, error, ..state.status }, ..state }
}

/// The error of a configuration that could not be written.
pub open spec fn save_error() -> ActionableErrorView {
    ActionableErrorView {
        retryable: true,
        ..state::plain_error(ErrorCode::Internal, "Could not save configuration"@)
    }
}

/// Whether nothing synchronizes or is about to.
pub open spec fn at_rest(sync: SyncState) -> bool {
    sync == SyncState::Stopped || sync == SyncState::Failed
}

pub(crate) fn is_at_rest(sync: SyncState) -> (r: bool)
    ensures
        r == at_rest(sync),
{
    sync == SyncState::Stopped || sync == SyncState::Failed
}

/// What an operation is told while the service synchronizes.
pub open spec fn active_text(operation: Seq<char>) -> Seq<char> {
    "Cannot "@ + operation + " while synchronization is active"@
}

fn active_message(operation: &str) -> (r: String)
    ensures
        r@ == active_text(operation@),
{
    text::concat3("Cannot ", operation, " while synchronization is active")
}

/// What stands against an operation at all.
pub open spec fn busy_problem(state: DaemonStateView) -> Option<ActionableErrorView> {
    if state.busy {
        Some(errors::conflict_error("Another operation is already in progress"@))
    } else {
        None
    }
}

/// What stands against an operation that needs the service not to synchronize.
pub open spec fn sync_idle_problem(state: DaemonStateView, operation: Seq<char>) -> Option<
    ActionableErrorView,
> {
    if busy_problem(state) is Some {
        busy_problem(state)
    } else if !at_rest(state.status.sync) {
        Some(errors::conflict_error(active_text(operation)))
    } else {
        None
    }
}

/// What stands against an operation that needs the service idle.
pub open spec fn idle_problem(state: DaemonStateView, operation: Seq<char>) -> Option<
    ActionableErrorView,
> {
    if sync_idle_problem(state, operation) is Some {
        sync_idle_problem(state, operation)
    } else if state.status.bridge == BridgeState::Discovering || state.status.bridge
        == BridgeState::Pairing {
        Some(errors::conflict_error("Another bridge operation is in progress"@))
    } else {
        None
    }
}

/// What stands against a change of the synchronization settings.
pub open spec fn settings_update_problem(state: DaemonStateView) -> Option<ActionableErrorView> {
    if busy_problem(state) is Some {
        busy_problem(state)
    } else if !at_rest(state.status.sync) && state.status.sync != SyncState::Running {
        Some(
            errors::conflict_error(
                "Cannot update synchronization settings while synchronization is changing state"@,
            ),
        )
    } else {
        None
    }
}

/// A reservation: granted where nothing stands against it, and then the service
/// is busy; otherwise nothing changes.
pub open spec fn reservation(
    before: DaemonStateView,
    after: DaemonStateView,
    problem: Option<ActionableErrorView>,
    r: Result<(), ActionableError>,
) -> bool {
    match problem {
        None => r is Ok && after == (DaemonStateView { busy: true, ..before }),
        Some(error) => r is Err && r->Err_0.deep_view() == error && after == before,
    }
}

/// While an operation is reserved no other can be.
pub proof fn law_reservations_exclude_each_other(state: DaemonStateView, operation: Seq<char>)
    requires
        state.busy,
    ensures
        idle_problem(state, operation) is Some,
        sync_idle_problem(state, operation) is Some,
        settings_update_problem(state) is Some,
{
}

/// Whatever needs the service idle also needs it not to synchronize, and that
/// also allows a change of its settings.
pub proof fn law_idle_is_the_strictest_reservation(state: DaemonStateView, operation: Seq<char>)
    ensures
        idle_problem(state, operation) is None ==> sync_idle_problem(state, operation) is None,
        sync_idle_problem(state, operation) is None ==> settings_update_problem(state) is None,
{
}

} // verus!
