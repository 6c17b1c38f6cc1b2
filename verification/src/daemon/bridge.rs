//! The bridge of the service: connecting, discovering, pairing and forgetting it,
//! its areas, and the changes of the configuration that concern it.
use crate::daemon::errors::{
    classify_hue, conflict, invalid_configuration, validate_supported_config,
};
use crate::daemon::errors;
use crate::daemon::profiles;
use crate::daemon::state::{DaemonState, DaemonStateView};
use crate::daemon::state as service;
use crate::domain::config::{
    AppConfig, AppConfigView, AreaId, BridgeConfiguration, BridgeConfigurationView, BridgeId,
    ConfigUpdate, ConfigUpdateView, EntertainmentArea, EntertainmentAreaView, EntertainmentChannel,
    EntertainmentChannelView, NormalizedPoint, ProfileId, ProfileView,
};
use crate::domain::config;
use crate::domain::ipc::{
    DiscoveredBridge, DiscoveredBridgeView, Event, EventView, ResponsePayload, ResponsePayloadView,
};
use crate::domain::state::{
    ActionableError, ActionableErrorView, BridgeState, ErrorCode, StatusSnapshotView,
};
use crate::domain::state;
use crate::hue::bridge::{normalize_candidate, BridgeCandidate, BridgeCandidateView, IpAddress};
use crate::hue::bridge;
use crate::text;
use vstd::prelude::*;

verus! {

/// A bridge as it was configured or discovered, before its identifier is checked.
pub open spec fn raw_candidate(id: Seq<char>, address: IpAddress, name: Option<Seq<char>>) ->
    BridgeCandidateView {
    BridgeCandidateView {
        id,
        address,
        name: match name {
            Some(name) => name,
            None => "Hue Bridge"@,
        },
    }
}

/// A bridge with its identifier in lower case.
pub open spec fn normal_candidate(candidate: BridgeCandidateView) -> BridgeCandidateView {
    BridgeCandidateView { id: text::ascii_lower_text(candidate.id), ..candidate }
}

fn make_candidate(id: &BridgeId, address: IpAddress, name: &Option<String>) -> (r: BridgeCandidate)
    ensures
        r.deep_view() == raw_candidate(id@, address, name.deep_view()),
{
    BridgeCandidate {
        id: id.as_str().to_owned(),
        address,
        name: match name {
            Some(name) => name.clone(),
            None => "Hue Bridge".to_owned(),
        },
    }
}

/// The bridge of a configuration, given the address that its host stands for.
pub fn candidate_from_config(bridge: &BridgeConfiguration, address: Option<IpAddress>) -> (r: Option<
    BridgeCandidate,
>)
    ensures
        ({
            let view = bridge.deep_view();
            let usable = address is Some && bridge::candidate_problem(
                raw_candidate(view.id, address->Some_0, view.name),
            ) is None;
            &&& r is Some <==> usable
            &&& r matches Some(candidate) ==> candidate.deep_view() == normal_candidate(
                raw_candidate(view.id, address->Some_0, view.name),
            )
        }),
{
    match address {
        None => None,
        Some(address) => match normalize_candidate(
            make_candidate(&bridge.id, address, &bridge.name),
        ) {
            Ok(candidate) => Some(candidate),
            Err(_) => None,
        },
    }
}

/// What stands against pairing a bridge that was discovered or entered.
pub open spec fn pairing_problem(bridge: DiscoveredBridgeView, address: Option<IpAddress>) -> Option<
    ActionableErrorView,
> {
    match address {
        None => Some(
            errors::configuration_error(
                "The Hue bridge host must be an IPv4 or IPv6 address"@,
            ),
        ),
        Some(address) => if bridge::candidate_problem(
            raw_candidate(bridge.id, address, bridge.name),
        ) is Some {
            Some(errors::configuration_error("Invalid Hue bridge"@))
        } else {
            None
        },
    }
}

/// The bridge to pair, given the address that its host stands for.
pub fn candidate_from_discovered(bridge: &DiscoveredBridge, address: Option<IpAddress>) -> (r:
    Result<BridgeCandidate, ActionableError>)
    ensures
        r is Ok <==> pairing_problem(bridge.deep_view(), address) is None,
        r matches Ok(candidate) ==> candidate.deep_view() == normal_candidate(
            raw_candidate(bridge.deep_view().id, address->Some_0, bridge.deep_view().name),
        ),
        r matches Err(error) ==> Some(error.deep_view()) == pairing_problem(
            bridge.deep_view(),
            address,
        ),
{
    match address {
        None => Err(invalid_configuration("The Hue bridge host must be an IPv4 or IPv6 address")),
        Some(address) => match normalize_candidate(
            make_candidate(&bridge.id, address, &bridge.name),
        ) {
            Ok(candidate) => Ok(candidate),
            Err(_) => Err(invalid_configuration("Invalid Hue bridge")),
        },
    }
}

/// What checking the configured bridge came to.
pub enum BridgeCheck {
    /// Its address or identifier cannot be used.
    Invalid,
    /// It does not answer, or does not accept the keys.
    Refused,
    Authorized(BridgeCandidate),
}

/// What the bridge counts as while nothing is going on with it.
pub open spec fn resting_bridge_state(state: DaemonStateView) -> BridgeState {
    if state.hue is Some {
        BridgeState::Connected
    } else if state.config.bridge is Some {
        BridgeState::Disconnected
    } else {
        BridgeState::Unconfigured
    }
}

/// A bridge that was found, with its address as text.
#[derive(Debug, PartialEq)]
pub struct FoundBridge {
    pub id: String,
    pub host: String,
    pub name: String,
}

/// The mathematical value of [`FoundBridge`].
#[verifier::ext_equal]
pub struct FoundBridgeView {
    pub id: Seq<char>,
    pub host: Seq<char>,
    pub name: Seq<char>,
}

impl DeepView for FoundBridge {
    type V = FoundBridgeView;

    open spec fn deep_view(&self) -> FoundBridgeView {
        FoundBridgeView {
            id: self.id.deep_view(),
            host: self.host.deep_view(),
            name: self.name.deep_view(),
        }
    }
}

/// The bridges that are reported of those that were found: all with an
/// identifier that is not blank.
pub open spec fn reported_bridges(found: Seq<FoundBridgeView>) -> Seq<DiscoveredBridgeView>
    decreases found.len(),
{
    if found.len() == 0 {
        Seq::empty()
    } else {
        let before = reported_bridges(found.drop_last());
        let last = found.last();
        if text::blank(last.id) {
            before
        } else {
            before.push(
                DiscoveredBridgeView { id: last.id, host: last.host, name: Some(last.name) },
            )
        }
    }
}

/// The answer to a request for discovery; nothing means that discovery failed.
pub fn discovery_answer(found: Option<Vec<FoundBridge>>) -> (r: Result<
    ResponsePayload,
    ActionableError,
>)
    ensures
        r is Ok <==> found is Some,
        r matches Ok(payload) ==> payload.deep_view() == ResponsePayloadView::Bridges(
            reported_bridges(found->Some_0.deep_view()),
        ),
        r matches Err(error) ==> error.deep_view() == (ActionableErrorView {
            action: Some("Enter the bridge address manually or check the network"@),
            retryable: true,
            ..state::plain_error(ErrorCode::BridgeNotFound, "No Hue bridge could be discovered"@)
        }),
{
    let found: Vec<FoundBridge> = match found {
        Some(found) => found,
        None => return Err(
            ActionableError::new(
                ErrorCode::BridgeNotFound,
                "No Hue bridge could be discovered",
            ).with_action("Enter the bridge address manually or check the network").retryable(true),
        ),
    };
    let ghost all = found.deep_view();
    let mut bridges: Vec<DiscoveredBridge> = Vec::new();
    assert(bridges.deep_view() =~= reported_bridges(all.take(0)));
    let mut i: usize = 0;
    while i < found.len()
        invariant
            i <= found.len(),
            all == found.deep_view(),
            bridges.deep_view() == reported_bridges(all.take(i as int)),
        decreases found.len() - i,
    {
        let ghost before = bridges.deep_view();
        proof {
            let seen = all.take(i + 1);
            assert(seen.drop_last() =~= all.take(i as int));
            assert(seen.last() == found[i as int].deep_view());
        }
        match BridgeId::new(found[i].id.clone()) {
            Ok(id) => {
                bridges.push(
                    DiscoveredBridge {
                        id,
                        host: found[i].host.clone(),
                        name: Some(found[i].name.clone()),
                    },
                );
                assert(bridges.deep_view() =~= before.push(bridges@.last().deep_view()));
            },
            Err(_) => {},
        }
        i += 1;
    }
    assert(all.take(all.len() as int) =~= all);
    Ok(ResponsePayload::Bridges(bridges))
}

/// The configuration that is kept of a pairing in progress.
pub fn pending_configuration(bridge: &DiscoveredBridge) -> (r: BridgeConfiguration)
    ensures
        r.deep_view() == (BridgeConfigurationView {
            id: bridge.deep_view().id,
            host: bridge.deep_view().host,
            name: bridge.deep_view().name,
        }),
{
    BridgeConfiguration {
        id: bridge.id.clone(),
        host: bridge.host.clone(),
        name: bridge.name.clone(),
    }
}

/// The error of a pairing whose progress could not be written.
pub fn pairing_not_saved() -> (r: ActionableError)
    ensures
        r.deep_view() == (ActionableErrorView {
            retryable: true,
            ..state::plain_error(ErrorCode::Internal, "Could not save pairing progress"@)
        }),
{
    ActionableError::new(ErrorCode::Internal, "Could not save pairing progress").retryable(true)
}

/// The error of a pairing whose progress could not be cleared at its end.
pub fn pairing_not_finalized() -> (r: ActionableError)
    ensures
        r.deep_view() == state::plain_error(
            ErrorCode::Internal,
            "Could not finalize pairing progress"@,
        ),
{
    ActionableError::new(ErrorCode::Internal, "Could not finalize pairing progress")
}

/// The error of a pairing whose progress could not be cleared with its bridge.
pub fn pairing_not_cleared() -> (r: ActionableError)
    ensures
        r.deep_view() == state::plain_error(
            ErrorCode::Internal,
            "Could not clear pairing progress"@,
        ),
{
    ActionableError::new(ErrorCode::Internal, "Could not clear pairing progress")
}

/// The error of keys that could not be deleted.
pub fn credentials_not_deleted() -> (r: ActionableError)
    ensures
        r.deep_view() == (ActionableErrorView {
            retryable: true,
            ..state::plain_error(ErrorCode::BridgeUnavailable, "Could not delete Hue credentials"@)
        }),
{
    ActionableError::new(
        ErrorCode::BridgeUnavailable,
        "Could not delete Hue credentials",
    ).retryable(true)
}

/// The error of a pairing attempt that failed.
pub fn pairing_failed() -> (r: ActionableError)
    ensures
        r.deep_view() == errors::bridge_error("Could not pair with the Hue bridge"@),
{
    classify_hue("Could not pair with the Hue bridge")
}

/// The event that tells whether pairing waits for the link button.
pub fn pairing_event(bridge_id: BridgeId, waiting: bool) -> (r: Event)
    ensures
        r.deep_view() == (EventView::PairingProgress {
            bridge_id: bridge_id@,
            waiting_for_link_button: waiting,
        }),
{
    Event::PairingProgress { bridge_id, waiting_for_link_button: waiting }
}

/// What stands against completing a pairing.
pub open spec fn completion_problem(state: DaemonStateView, bridge_id: Seq<char>) -> Option<
    ActionableErrorView,
> {
    match state.pending_pairing {
        None => Some(errors::conflict_error("No bridge pairing is in progress"@)),
        Some(candidate) => if candidate.id != bridge_id {
            Some(
                state::plain_error(
                    ErrorCode::InvalidRequest,
                    "The pairing bridge ID does not match"@,
                ),
            )
        } else {
            None
        },
    }
}

/// Whose keys are to be deleted when the bridge is forgotten.
pub enum ForgetTarget {
    /// Nobody's.
    Nothing,
    /// Those of a bridge that is connected or being paired.
    Client(BridgeCandidate),
    /// Those of the configured bridge, if its configuration can be used.
    Configured(BridgeConfiguration),
}

/// A configuration without its bridge and the area selected there.
pub open spec fn forgotten_config(config: AppConfigView) -> AppConfigView {
    AppConfigView {
        bridge: None,
        selected_area: None,
        revision: config::next_revision(config.revision),
        ..config
    }
}

/// A service whose bridge was forgotten.
pub open spec fn forgotten_state(state: DaemonStateView) -> DaemonStateView {
    DaemonStateView {
        hue: None,
        pending_pairing: None,
        areas: Seq::empty(),
        status: StatusSnapshotView {
            bridge: BridgeState::Unconfigured,
            active_area: None,
            error: None,
            ..state.status
        },
        ..state
    }
}

/// A configuration with a bridge that was paired.
pub open spec fn paired_config(config: AppConfigView, bridge: BridgeConfigurationView) -> AppConfigView {
    AppConfigView {
        bridge: Some(bridge),
        revision: config::next_revision(config.revision),
        ..config
    }
}

/// A service that just connected to a bridge.
pub open spec fn connected_state(
    state: DaemonStateView,
    candidate: BridgeCandidateView,
) -> DaemonStateView {
    DaemonStateView {
        hue: Some(candidate),
        pending_pairing: None,
        status: StatusSnapshotView {
            bridge: BridgeState::Connected,
            error: None,
            ..state.status
        },
        ..state
    }
}

/// A service whose configured bridge was changed.
pub open spec fn changed_bridge_state(state: DaemonStateView) -> DaemonStateView {
    DaemonStateView {
        hue: None,
        areas: Seq::empty(),
        status: StatusSnapshotView {
            bridge: if state.config.bridge is Some {
                BridgeState::Disconnected
            } else {
                BridgeState::Unconfigured
            },
            ..state.status
        },
        ..state
    }
}

/// The error of a service that is not connected to a bridge.
pub open spec fn not_connected() -> ActionableErrorView {
    ActionableErrorView {
        action: Some("Pair or reconnect the bridge"@),
        ..state::plain_error(ErrorCode::BridgeUnavailable, "The Hue bridge is not connected"@)
    }
}

/// Whether an area is among those that were read last.
pub open spec fn known_area(areas: Seq<EntertainmentAreaView>, id: Seq<char>) -> bool {
    exists|i: int| 0 <= i < areas.len() && (#[trigger] areas[i]).id == id
}

pub(crate) fn find_area(areas: &Vec<EntertainmentArea>, id: &AreaId) -> (r: Option<usize>)
    ensures
        r is Some <==> known_area(areas.deep_view(), id@),
        r matches Some(i) ==> i < areas@.len() && areas.deep_view()[i as int].id == id@ && (forall|
            j: int,
        |
            0 <= j < i ==> (#[trigger] areas.deep_view()[j]).id != id@),
{
    let ghost all = areas.deep_view();
    let mut i: usize = 0;
    while i < areas.len()
        invariant
            i <= areas.len(),
            all == areas.deep_view(),
            forall|j: int| 0 <= j < i ==> (#[trigger] all[j]).id != id@,
        decreases areas.len() - i,
    {
        assert(all[i as int].id == areas[i as int].id@);
        if areas[i].id.same(id) {
            return Some(i);
        }
        i += 1;
    }
    None
}

/// What stands against a change of the configuration.
pub open spec fn update_problem(state: DaemonStateView, update: ConfigUpdateView) -> Option<
    ActionableErrorView,
> {
    let next = config::updated_config(state.config, update);
    if update.selected_area matches Some(Some(id)) && !known_area(state.areas, id) {
        Some(state::plain_error(ErrorCode::AreaNotFound, "The selected area was not found"@))
    } else if profiles::config_problem(next) is Some {
        profiles::config_problem(next)
    } else {
        errors::support_problem(next)
    }
}

/// The update that selects an area, or none.
pub open spec fn area_update(area_id: Option<Seq<char>>) -> ConfigUpdateView {
    ConfigUpdateView { selected_area: Some(area_id), ..config::empty_update() }
}

/// Whether an update changes the synchronization settings and nothing else.
pub open spec fn settings_only(update: ConfigUpdateView) -> bool {
    update.sync is Some && update == (ConfigUpdateView {
        sync: update.sync,
        ..config::empty_update()
    })
}

/// Whether an update changes the synchronization settings and nothing else.
pub fn is_settings_only(update: &ConfigUpdate) -> (r: bool)
    ensures
        r == settings_only(update.deep_view()),
{
    update.sync.is_some() && update.language.is_none() && update.capture_backend.is_none()
        && update.restore_on_stop.is_none() && update.launch_at_login.is_none()
        && update.auto_start_sync.is_none() && update.selected_display.is_none()
        && update.selected_area.is_none() && update.bridge.is_none()
}

impl DaemonState {
    /// Begins to check the configured bridge, if there is one.
    pub fn begin_initialize(&mut self) -> (r: Option<BridgeConfiguration>)
        ensures
            r.deep_view() == old(self).deep_view().config.bridge,
            r is None ==> *final(self) == *old(self),
            r is Some ==> final(self).deep_view() == service::with_bridge_state(
                old(self).deep_view(),
                BridgeState::Connecting,
                None,
            ),
    {
        let bridge: Option<BridgeConfiguration> = self.config.bridge.clone();
        if bridge.is_some() {
            self.set_bridge_state(BridgeState::Connecting, None);
        }
        bridge
    }

    /// Takes what the check of the configured bridge came to.
    pub fn finish_initialize(&mut self, check: BridgeCheck)
        ensures
            final(self).deep_view() == match check {
                BridgeCheck::Invalid => service::with_bridge_state(
                    old(self).deep_view(),
                    BridgeState::Disconnected,
                    Some(
                        errors::configuration_error(
                            "The configured Hue bridge address is invalid"@,
                        ),
                    ),
                ),
                BridgeCheck::Refused => service::with_bridge_state(
                    old(self).deep_view(),
                    BridgeState::Disconnected,
                    Some(
                        errors::bridge_error(
                            "Could not authorize with the configured Hue bridge"@,
                        ),
                    ),
                ),
                BridgeCheck::Authorized(candidate) => DaemonStateView {
                    hue: Some(candidate.deep_view()),
                    ..service::with_bridge_state(
                        old(self).deep_view(),
                        BridgeState::Connected,
                        None,
                    )
                },
            },
    {
        match check {
            BridgeCheck::Invalid => self.set_bridge_state(
                BridgeState::Disconnected,
                Some(invalid_configuration("The configured Hue bridge address is invalid")),
            ),
            BridgeCheck::Refused => self.set_bridge_state(
                BridgeState::Disconnected,
                Some(classify_hue("Could not authorize with the configured Hue bridge")),
            ),
            BridgeCheck::Authorized(candidate) => {
                self.hue = Some(candidate);
                self.set_bridge_state(BridgeState::Connected, None);
            },
        }
    }

    /// Begins a discovery.
    pub fn begin_discovery(&mut self)
        ensures
            final(self).deep_view() == service::with_bridge_state(
                old(self).deep_view(),
                BridgeState::Discovering,
                None,
            ),
    {
        self.set_bridge_state(BridgeState::Discovering, None);
    }

    /// Ends a discovery; the bridge counts as what it was.
    pub fn finish_discovery(&mut self)
        ensures
            final(self).deep_view() == service::with_bridge_state(
                old(self).deep_view(),
                resting_bridge_state(old(self).deep_view()),
                None,
            ),
    {
        let bridge: BridgeState = if self.hue.is_some() {
            BridgeState::Connected
        } else if self.config.bridge.is_some() {
            BridgeState::Disconnected
        } else {
            BridgeState::Unconfigured
        };
        self.set_bridge_state(bridge, None);
    }

    /// Begins to pair a bridge.
    pub fn begin_pairing(&mut self, candidate: BridgeCandidate)
        ensures
            final(self).deep_view() == (DaemonStateView {
                pending_pairing: Some(candidate.deep_view()),
                ..service::with_bridge_state(old(self).deep_view(), BridgeState::Pairing, None)
            }),
    {
        self.pending_pairing = Some(candidate);
        self.set_bridge_state(BridgeState::Pairing, None);
    }

    /// The bridge whose pairing is to be completed: the one in progress, named
    /// by its identifier.
    pub fn pairing_to_complete(&self, bridge_id: &BridgeId) -> (r: Result<
        BridgeCandidate,
        ActionableError,
    >)
        ensures
            r is Ok <==> completion_problem(self.deep_view(), bridge_id@) is None,
            r matches Ok(candidate) ==> Some(candidate.deep_view())
                == self.deep_view().pending_pairing,
            r matches Err(error) ==> Some(error.deep_view()) == completion_problem(
                self.deep_view(),
                bridge_id@,
            ),
    {
        match &self.pending_pairing {
            None => Err(conflict("No bridge pairing is in progress")),
            Some(candidate) => if !text::str_eq(candidate.id.as_str(), bridge_id.as_str()) {
                Err(
                    ActionableError::new(
                        ErrorCode::InvalidRequest,
                        "The pairing bridge ID does not match",
                    ),
                )
            } else {
                Ok(candidate.clone())
            },
        }
    }

    /// Plans the configuration with a bridge that was paired, given its address
    /// as text.
    pub fn plan_paired(&self, candidate: &BridgeCandidate, host: String) -> (r: Result<
        AppConfig,
        ActionableError,
    >)
        ensures
            profiles::planned(
                r,
                if text::blank(candidate.deep_view().id) {
                    Some(errors::configuration_error("Invalid Hue bridge ID"@))
                } else {
                    None
                },
                paired_config(
                    self.deep_view().config,
                    BridgeConfigurationView {
                        id: candidate.deep_view().id,
                        host: host@,
                        name: Some(candidate.deep_view().name),
                    },
                ),
            ),
    {
        match BridgeId::new(candidate.id.clone()) {
            Err(_) => Err(invalid_configuration("Invalid Hue bridge ID")),
            Ok(id) => {
                let current: AppConfig = self.config.clone();
                Ok(
                    AppConfig {
                        bridge: Some(
                            BridgeConfiguration { id, host, name: Some(candidate.name.clone()) },
                        ),
                        revision: current.revision.saturating_add(1),
                        ..current
                    },
                )
            },
        }
    }

    /// Counts a bridge as connected once its pairing is persisted.
    pub fn finish_pairing(&mut self, candidate: BridgeCandidate)
        ensures
            final(self).deep_view() == connected_state(
                old(self).deep_view(),
                candidate.deep_view(),
            ),
    {
        self.hue = Some(candidate);
        self.pending_pairing = None;
        self.set_bridge_state(BridgeState::Connected, None);
    }

    /// Whose keys are to be deleted when the bridge is forgotten.
    pub fn forget_target(&self) -> (r: ForgetTarget)
        ensures
            ({
                let state = self.deep_view();
                match r {
                    ForgetTarget::Client(candidate) => {
                        Some(candidate.deep_view()) == if state.hue is Some {
                            state.hue
                        } else {
                            state.pending_pairing
                        }
                    },
                    ForgetTarget::Configured(bridge) => state.hue is None && state.pending_pairing
                        is None && Some(bridge.deep_view()) == state.config.bridge,
                    ForgetTarget::Nothing => state.hue is None && state.pending_pairing is None
                        && state.config.bridge is None,
                }
            }),
    {
        match &self.hue {
            Some(candidate) => return ForgetTarget::Client(candidate.clone()),
            None => {},
        }
        match &self.pending_pairing {
            Some(candidate) => return ForgetTarget::Client(candidate.clone()),
            None => {},
        }
        match &self.config.bridge {
            Some(bridge) => ForgetTarget::Configured(bridge.clone()),
            None => ForgetTarget::Nothing,
        }
    }

    /// The configured bridge whose keys are to be deleted, given the address
    /// that its host stands for.
    pub fn forget_candidate(bridge: &BridgeConfiguration, address: Option<IpAddress>) -> (r: Result<
        BridgeCandidate,
        ActionableError,
    >)
        ensures
            ({
                let view = bridge.deep_view();
                let usable = address is Some && bridge::candidate_problem(
                    raw_candidate(view.id, address->Some_0, view.name),
                ) is None;
                &&& r is Ok <==> usable
                &&& r matches Ok(candidate) ==> candidate.deep_view() == normal_candidate(
                    raw_candidate(view.id, address->Some_0, view.name),
                )
                &&& r matches Err(error) ==> error.deep_view() == errors::configuration_error(
                    "The configured Hue bridge is invalid"@,
                )
            }),
    {
        match candidate_from_config(bridge, address) {
            Some(candidate) => Ok(candidate),
            None => Err(invalid_configuration("The configured Hue bridge is invalid")),
        }
    }

    /// Plans the configuration without the bridge.
    pub fn plan_forgotten(&self) -> (r: AppConfig)
        ensures
            r.deep_view() == forgotten_config(self.deep_view().config),
    {
        let current: AppConfig = self.config.clone();
        AppConfig {
            bridge: None,
            selected_area: None,
            revision: current.revision.saturating_add(1),
            ..current
        }
    }

    /// Forgets everything about the bridge once that is persisted.
    pub fn finish_forgetting(&mut self) -> (r: Event)
        ensures
            final(self).deep_view() == forgotten_state(old(self).deep_view()),
            r.deep_view() == EventView::AreasChanged(Seq::empty()),
    {
        self.hue = None;
        self.pending_pairing = None;
        self.areas = Vec::new();
        self.status.bridge = BridgeState::Unconfigured;
        self.status.active_area = None;
        self.status.error = None;
        assert(self.areas.deep_view() =~= Seq::<EntertainmentAreaView>::empty());
        no_areas_event()
    }

    /// The bridge that the service is connected to.
    pub fn hue_client(&self) -> (r: Result<BridgeCandidate, ActionableError>)
        ensures
            r is Ok <==> self.deep_view().hue is Some,
            r matches Ok(candidate) ==> Some(candidate.deep_view()) == self.deep_view().hue,
            r matches Err(error) ==> error.deep_view() == not_connected(),
    {
        match &self.hue {
            Some(candidate) => Ok(candidate.clone()),
            None => Err(
                ActionableError::new(
                    ErrorCode::BridgeUnavailable,
                    "The Hue bridge is not connected",
                ).with_action("Pair or reconnect the bridge"),
            ),
        }
    }

    /// Takes the areas that were read.
    pub fn set_areas(&mut self, areas: Vec<EntertainmentArea>) -> (r: Event)
        ensures
            final(self).deep_view() == (DaemonStateView {
                areas: areas.deep_view(),
                ..old(self).deep_view()
            }),
            r.deep_view() == EventView::AreasChanged(areas.deep_view()),
    {
        let told: Vec<EntertainmentArea> = areas.clone();
        assert(told.deep_view() =~= areas.deep_view());
        self.areas = areas;
        Event::AreasChanged(told)
    }

    /// The update that selects an area which was read, or none.
    pub fn select_area(&self, area_id: Option<AreaId>) -> (r: Result<ConfigUpdate, ActionableError>)
        ensures
            r is Err <==> area_id is Some && !known_area(
                self.deep_view().areas,
                area_id->Some_0@,
            ),
            r matches Ok(update) ==> update.deep_view() == area_update(area_id.deep_view()),
            r matches Err(error) ==> error.deep_view() == (ActionableErrorView {
                action: Some("Refresh the Entertainment area list"@),
                ..state::plain_error(ErrorCode::AreaNotFound, "The selected area was not found"@)
            }),
    {
        if let Some(id) = &area_id {
            if find_area(&self.areas, id).is_none() {
                return Err(
                    ActionableError::new(
                        ErrorCode::AreaNotFound,
                        "The selected area was not found",
                    ).with_action("Refresh the Entertainment area list"),
                );
            }
        }
        Ok(ConfigUpdate { selected_area: Some(area_id), ..ConfigUpdate::default() })
    }

    /// Plans a change of the configuration.
    pub fn plan_update(&self, update: ConfigUpdate) -> (r: Result<AppConfig, ActionableError>)
        ensures
            profiles::planned(
                r,
                update_problem(self.deep_view(), update.deep_view()),
                config::updated_config(self.deep_view().config, update.deep_view()),
            ),
    {
        if let Some(Some(id)) = &update.selected_area {
            if find_area(&self.areas, id).is_none() {
                return Err(
                    ActionableError::new(
                        ErrorCode::AreaNotFound,
                        "The selected area was not found",
                    ),
                );
            }
        }
        let mut next: AppConfig = self.config.clone();
        match next.apply_update(update) {
            Ok(()) => {},
            Err(error) => return Err(invalid_configuration(error.message().as_str())),
        }
        match validate_supported_config(&next) {
            Ok(()) => Ok(next),
            Err(error) => Err(error),
        }
    }

    /// Drops what is known of the bridge once a change of it is persisted.
    pub fn bridge_changed(&mut self) -> (r: Event)
        ensures
            final(self).deep_view() == changed_bridge_state(old(self).deep_view()),
            r.deep_view() == EventView::AreasChanged(Seq::empty()),
    {
        self.hue = None;
        self.areas = Vec::new();
        self.status.bridge = if self.config.bridge.is_some() {
            BridgeState::Disconnected
        } else {
            BridgeState::Unconfigured
        };
        assert(self.areas.deep_view() =~= Seq::<EntertainmentAreaView>::empty());
        no_areas_event()
    }
}

fn no_areas_event() -> (r: Event)
    ensures
        r.deep_view() == EventView::AreasChanged(Seq::empty()),
{
    let none: Vec<EntertainmentArea> = Vec::new();
    assert(none.deep_view() =~= Seq::<EntertainmentAreaView>::empty());
    Event::AreasChanged(none)
}

/// A channel as it was read: its place on the screen as single-precision bit
/// patterns.
#[derive(Clone, Copy, Debug)]
pub struct ScreenChannel {
    pub channel_id: u8,
    pub x: u32,
    pub y: u32,
}

/// Whether the first `n` channels have places on the screen.
pub open spec fn on_screen(channels: Seq<ScreenChannel>, n: int) -> bool {
    forall|i: int|
        0 <= i < n ==> config::is_unit((#[trigger] channels[i]).x) && config::is_unit(channels[i].y)
}

/// Whether channels are those that were read, in their order and without names.
pub open spec fn same_channels(
    channels: Seq<EntertainmentChannelView>,
    read: Seq<ScreenChannel>,
) -> bool {
    &&& channels.len() == read.len()
    &&& forall|i: int|
        #![trigger channels[i]]
        0 <= i < channels.len() ==> {
            &&& channels[i].id == read[i].channel_id
            &&& channels[i].name is None
            &&& channels[i].position.x_bits() == read[i].x
            &&& channels[i].position.y_bits() == read[i].y
        }
}

/// An area as the service reports it, out of what was read of it.
pub fn area_from_bridge(id: String, name: String, channels: &Vec<ScreenChannel>) -> (r: Result<
    EntertainmentArea,
    ActionableError,
>)
    ensures
        r is Ok <==> on_screen(channels@, channels@.len() as int) && !text::blank(id@),
        r matches Ok(area) ==> {
            &&& area.deep_view().id == id@
            &&& area.deep_view().name == name@
            &&& same_channels(area.deep_view().channels, channels@)
        },
        r matches Err(error) ==> error.deep_view() == errors::configuration_error(
            if !on_screen(channels@, channels@.len() as int) {
                "Hue returned an invalid channel position"@
            } else {
                "Hue returned an invalid area ID"@
            },
        ),
{
    let mut placed: Vec<EntertainmentChannel> = Vec::new();
    assert(same_channels(placed.deep_view(), channels@.take(0)));
    let mut i: usize = 0;
    while i < channels.len()
        invariant
            i <= channels.len(),
            on_screen(channels@, i as int),
            same_channels(placed.deep_view(), channels@.take(i as int)),
        decreases channels.len() - i,
    {
        let ghost before = placed.deep_view();
        match NormalizedPoint::new(channels[i].x, channels[i].y) {
            Err(_) => return Err(invalid_configuration("Hue returned an invalid channel position")),
            Ok(position) => {
                placed.push(
                    EntertainmentChannel { id: channels[i].channel_id as u16, name: None, position },
                );
            },
        }
        proof {
            assert(placed.deep_view() =~= before.push(placed@.last().deep_view()));
            let read = channels@.take(i + 1);
            assert forall|j: int| 0 <= j < read.len() implies {
                let channel = #[trigger] placed.deep_view()[j];
                &&& channel.id == read[j].channel_id
                &&& channel.name is None
                &&& channel.position.x_bits() == read[j].x
                &&& channel.position.y_bits() == read[j].y
            } by {
                if j < i {
                    assert(placed.deep_view()[j] == before[j]);
                    assert(channels@.take(i as int)[j] == read[j]);
                }
            }
        }
        i += 1;
    }
    assert(channels@.take(channels@.len() as int) =~= channels@);
    match AreaId::new(id) {
        Ok(id) => Ok(EntertainmentArea { id, name, channels: placed }),
        Err(_) => Err(invalid_configuration("Hue returned an invalid area ID")),
    }
}

/// Forgetting the bridge leaves nothing of it behind, and keeps the
/// configuration acceptable.
pub proof fn law_forgetting_leaves_nothing(state: DaemonStateView)
    requires
        service::sound(state),
    ensures
        ({
            let after = forgotten_state(
                DaemonStateView { config: forgotten_config(state.config), ..state },
            );
            &&& service::sound(after)
            &&& after.config.bridge is None
            &&& after.config.selected_area is None
            &&& after.hue is None
            &&& after.pending_pairing is None
            &&& after.areas.len() == 0
            &&& after.status.bridge == BridgeState::Unconfigured
            &&& after.status.active_area is None
        }),
{
}

/// A bridge that was paired becomes the configured one, and a configuration
/// with it is acceptable where its address is not blank.
pub proof fn law_paired_bridge_is_configured(
    state: DaemonStateView,
    candidate: BridgeCandidateView,
    host: Seq<char>,
)
    requires
        service::sound(state),
        !text::blank(host),
    ensures
        ({
            let bridge = BridgeConfigurationView {
                id: candidate.id,
                host,
                name: Some(candidate.name),
            };
            let after = connected_state(
                DaemonStateView { config: paired_config(state.config, bridge), ..state },
                candidate,
            );
            &&& service::sound(after)
            &&& after.config.bridge == Some(bridge)
            &&& after.hue == Some(candidate)
            &&& after.pending_pairing is None
            &&& resting_bridge_state(after) == after.status.bridge
        }),
{
}

/// A change that is planned for an acceptable configuration leaves it
/// acceptable and supported.
pub proof fn law_planned_update_is_valid(state: DaemonStateView, update: ConfigUpdateView)
    requires
        update_problem(state, update) is None,
    ensures
        config::valid_config(config::updated_config(state.config, update)),
        errors::support_problem(config::updated_config(state.config, update)) is None,
{
    config::law_validation_passes_iff_valid(config::updated_config(state.config, update));
}

/// Every change of the configuration makes its revision the next one.
pub proof fn law_every_change_raises_the_revision(
    config: AppConfigView,
    update: ConfigUpdateView,
    profile: ProfileView,
    id: ProfileId,
    active: Option<ProfileId>,
    bridge: BridgeConfigurationView,
)
    ensures
        ({
            let next = config::next_revision(config.revision);
            &&& config::updated_config(config, update).revision == next
            &&& profiles::with_profile(config, profile).revision == next
            &&& profiles::with_changed_profile(config, profile).revision == next
            &&& profiles::with_deleted_profile(config, id).revision == next
            &&& profiles::with_active_profile(config, active).revision == next
            &&& paired_config(config, bridge).revision == next
            &&& forgotten_config(config).revision == next
        }),
{
}

} // verus!
