//! What each request asks of the service, and what its watchers are sent.
use crate::daemon::bridge::is_settings_only;
use crate::daemon::bridge;
use crate::daemon::state::{DaemonState, DaemonStateView};
use crate::daemon::state as service;
use crate::domain::config::{
    AreaId, ConfigUpdate, ConfigUpdateView, BridgeId, Profile, ProfileId, ProfileView,
};
use crate::domain::ipc::{
    DiscoveredBridge, DiscoveredBridgeView, Event, Request, RequestView, Response, ResponsePayload,
    ResponsePayloadView,
};
use crate::domain::state::{ActionableError, ActionableErrorView, Capabilities, SyncState};
use crate::domain::state;
use vstd::prelude::*;

verus! {

/// What is done about a request.
#[derive(Debug, PartialEq)]
pub enum Plan {
    /// Answer at once.
    Answer(ResponsePayload),
    Discover,
    BeginPairing(DiscoveredBridge),
    CompletePairing(BridgeId),
    Forget,
    RefreshAreas,
    SelectArea(Option<AreaId>),
    Update(ConfigUpdate),
    CreateProfile(Profile),
    UpdateProfile(Profile),
    DeleteProfile(ProfileId),
    ActivateProfile(Option<ProfileId>),
    Start,
    Stop,
}

/// The mathematical value of [`Plan`].
#[verifier::ext_equal]
pub enum PlanView {
    Answer(ResponsePayloadView),
    Discover,
    BeginPairing(DiscoveredBridgeView),
    CompletePairing(Seq<char>),
    Forget,
    RefreshAreas,
    SelectArea(Option<Seq<char>>),
    Update(ConfigUpdateView),
    CreateProfile(ProfileView),
    UpdateProfile(ProfileView),
    DeleteProfile(ProfileId),
    ActivateProfile(Option<ProfileId>),
    Start,
    Stop,
}

impl DeepView for Plan {
    type V = PlanView;

    open spec fn deep_view(&self) -> PlanView {
        match self {
            Plan::Answer(value) => PlanView::Answer(value.deep_view()),
            Plan::Discover => PlanView::Discover,
            Plan::BeginPairing(value) => PlanView::BeginPairing(value.deep_view()),
            Plan::CompletePairing(value) => PlanView::CompletePairing(value.deep_view()),
            Plan::Forget => PlanView::Forget,
            Plan::RefreshAreas => PlanView::RefreshAreas,
            Plan::SelectArea(value) => PlanView::SelectArea(value.deep_view()),
            Plan::Update(value) => PlanView::Update(value.deep_view()),
            Plan::CreateProfile(value) => PlanView::CreateProfile(value.deep_view()),
            Plan::UpdateProfile(value) => PlanView::UpdateProfile(value.deep_view()),
            Plan::DeleteProfile(value) => PlanView::DeleteProfile(*value),
            Plan::ActivateProfile(value) => PlanView::ActivateProfile(*value),
            Plan::Start => PlanView::Start,
            Plan::Stop => PlanView::Stop,
        }
    }
}

/// What is done about a request. Toggling stops a service that synchronizes and
/// starts any other, and taking the bridge out of the configuration forgets it.
pub open spec fn plan_for(state: DaemonStateView, request: RequestView) -> PlanView {
    match request {
        RequestView::GetStatus => PlanView::Answer(ResponsePayloadView::Status(state.status)),
        RequestView::GetConfig => PlanView::Answer(ResponsePayloadView::Config(state.config)),
        RequestView::GetCapabilities => PlanView::Answer(
            ResponsePayloadView::Capabilities(state::default_capabilities()),
        ),
        RequestView::DiscoverBridges => PlanView::Discover,
        RequestView::BeginPairing { bridge } => PlanView::BeginPairing(bridge),
        RequestView::CompletePairing { bridge_id } => PlanView::CompletePairing(bridge_id),
        RequestView::ForgetBridge => PlanView::Forget,
        RequestView::RefreshAreas => PlanView::RefreshAreas,
        RequestView::SelectArea { area_id } => PlanView::SelectArea(area_id),
        RequestView::UpdateConfig { update } => if update.bridge == Some(
            None::<crate::domain::config::BridgeConfigurationView>,
        ) {
            PlanView::Forget
        } else {
            PlanView::Update(update)
        },
        RequestView::CreateProfile { profile } => PlanView::CreateProfile(profile),
        RequestView::UpdateProfile { profile } => PlanView::UpdateProfile(profile),
        RequestView::DeleteProfile { profile_id } => PlanView::DeleteProfile(profile_id),
        RequestView::ActivateProfile { profile_id } => PlanView::ActivateProfile(profile_id),
        RequestView::Start => PlanView::Start,
        RequestView::Stop => PlanView::Stop,
        RequestView::Toggle => if state.status.sync == SyncState::Running {
            PlanView::Stop
        } else {
            PlanView::Start
        },
        RequestView::WatchStatus { .. } => PlanView::Answer(ResponsePayloadView::Acknowledged),
    }
}

impl DaemonState {
    /// What is done about a request.
    pub fn dispatch(&self, request: Request) -> (r: Plan)
        ensures
            r.deep_view() == plan_for(self.deep_view(), request.deep_view()),
    {
        match request {
            Request::GetStatus => Plan::Answer(ResponsePayload::Status(self.status.clone())),
            Request::GetConfig => Plan::Answer(ResponsePayload::Config(self.config.clone())),
            Request::GetCapabilities => Plan::Answer(
                ResponsePayload::Capabilities(Capabilities::default()),
            ),
            Request::DiscoverBridges => Plan::Discover,
            Request::BeginPairing { bridge } => Plan::BeginPairing(bridge),
            Request::CompletePairing { bridge_id } => Plan::CompletePairing(bridge_id),
            Request::ForgetBridge => Plan::Forget,
            Request::RefreshAreas => Plan::RefreshAreas,
            Request::SelectArea { area_id } => Plan::SelectArea(area_id),
            Request::UpdateConfig { update } => {
                let forgets: bool = match &update.bridge {
                    Some(None) => true,
                    _ => false,
                };
                if forgets {
                    Plan::Forget
                } else {
                    Plan::Update(update)
                }
            },
            Request::CreateProfile { profile } => Plan::CreateProfile(profile),
            Request::UpdateProfile { profile } => Plan::UpdateProfile(profile),
            Request::DeleteProfile { profile_id } => Plan::DeleteProfile(profile_id),
            Request::ActivateProfile { profile_id } => Plan::ActivateProfile(profile_id),
            Request::Start => Plan::Start,
            Request::Stop => Plan::Stop,
            Request::Toggle => if self.status.sync == SyncState::Running {
                Plan::Stop
            } else {
                Plan::Start
            },
            Request::WatchStatus { .. } => Plan::Answer(ResponsePayload::Acknowledged),
        }
    }
}

/// Whether the service is reserved for a plan. Answers are given and stops are
/// tried at any time.
pub open spec fn reserves(plan: PlanView) -> bool {
    !(plan is Answer || plan is Stop)
}

/// What stands against a plan. All need the service idle, but completing a pairing
/// and starting may happen while a bridge is paired, and the synchronization
/// settings may also change while the service synchronizes.
pub open spec fn plan_problem(state: DaemonStateView, plan: PlanView) -> Option<
    ActionableErrorView,
> {
    match plan {
        PlanView::Answer(_) => None,
        PlanView::Stop => None,
        PlanView::Discover => service::idle_problem(state, "discover bridges"@),
        PlanView::BeginPairing(_) => service::idle_problem(state, "pair a bridge"@),
        PlanView::CompletePairing(_) => service::sync_idle_problem(state, "complete pairing"@),
        PlanView::Forget => service::idle_problem(state, "forget the bridge"@),
        PlanView::RefreshAreas => service::idle_problem(state, "refresh areas"@),
        PlanView::SelectArea(_) => service::idle_problem(state, "select an area"@),
        PlanView::Update(update) => if bridge::settings_only(update) {
            service::settings_update_problem(state)
        } else {
            service::idle_problem(state, "update configuration"@)
        },
        PlanView::CreateProfile(_) => service::idle_problem(state, "create a profile"@),
        PlanView::UpdateProfile(_) => service::idle_problem(state, "update a profile"@),
        PlanView::DeleteProfile(_) => service::idle_problem(state, "delete a profile"@),
        PlanView::ActivateProfile(_) => service::idle_problem(state, "activate a profile"@),
        PlanView::Start => service::sync_idle_problem(state, "start synchronization"@),
    }
}

impl Plan {
    /// Whether the service is reserved for this plan.
    pub fn reserves(&self) -> (r: bool)
        ensures
            r == reserves(self.deep_view()),
    {
        match self {
            Plan::Answer(_) => false,
            Plan::Stop => false,
            _ => true,
        }
    }
}

impl DaemonState {
    /// Reserves the service for a plan that needs it.
    pub fn reserve(&mut self, plan: &Plan) -> (r: Result<(), ActionableError>)
        ensures
            reserves(plan.deep_view()) ==> service::reservation(
                old(self).deep_view(),
                final(self).deep_view(),
                plan_problem(old(self).deep_view(), plan.deep_view()),
                r,
            ),
            !reserves(plan.deep_view()) ==> r is Ok && *final(self) == *old(self),
    {
        match plan {
            Plan::Answer(_) => Ok(()),
            Plan::Stop => Ok(()),
            Plan::Discover => self.reserve_idle("discover bridges"),
            Plan::BeginPairing(_) => self.reserve_idle("pair a bridge"),
            Plan::CompletePairing(_) => self.reserve_sync_idle("complete pairing"),
            Plan::Forget => self.reserve_idle("forget the bridge"),
            Plan::RefreshAreas => self.reserve_idle("refresh areas"),
            Plan::SelectArea(_) => self.reserve_idle("select an area"),
            Plan::Update(update) => if is_settings_only(update) {
                self.reserve_sync_settings_update()
            } else {
                self.reserve_idle("update configuration")
            },
            Plan::CreateProfile(_) => self.reserve_idle("create a profile"),
            Plan::UpdateProfile(_) => self.reserve_idle("update a profile"),
            Plan::DeleteProfile(_) => self.reserve_idle("delete a profile"),
            Plan::ActivateProfile(_) => self.reserve_idle("activate a profile"),
            Plan::Start => self.reserve_sync_idle("start synchronization"),
        }
    }
}

/// Whether a request asks for watching, so that a connection stays open after a
/// successful response.
pub fn asks_to_watch(request: &Request) -> (r: bool)
    ensures
        r == (request.deep_view() == (RequestView::WatchStatus { enabled: true })),
{
    match request {
        Request::WatchStatus { enabled } => *enabled,
        _ => false,
    }
}

/// Whether a connection stays open after its response.
pub fn keeps_watching(watch: bool, response: &Response) -> (r: bool)
    ensures
        r == (watch && response.deep_view() is Success),
{
    match response {
        Response::Success { .. } => watch,
        Response::Error { .. } => false,
    }
}

/// Whether a watcher is sent an event as it is published. Statuses are not:
/// they are sent from the latest one, which may skip older ones.
pub fn forwards(event: &Event) -> (r: bool)
    ensures
        r == !(event.deep_view() is StatusChanged),
{
    match event {
        Event::StatusChanged(_) => false,
        _ => true,
    }
}

/// While the service works on a plan, no other plan that needs it is taken up.
pub proof fn law_plans_exclude_each_other(state: DaemonStateView, plan: PlanView)
    requires
        state.busy,
        reserves(plan),
    ensures
        plan_problem(state, plan) is Some,
{
}

/// While the service synchronizes, nothing of it but its synchronization settings
/// is changed: it answers, stops and takes up such an update, and refuses all else.
pub proof fn law_running_service_changes_only_its_settings(state: DaemonStateView, plan: PlanView)
    requires
        state.status.sync == SyncState::Running,
        !state.busy,
    ensures
        plan_problem(state, plan) is None <==> !reserves(plan) || (plan matches PlanView::Update(
            update,
        ) && bridge::settings_only(update)),
{
}

} // verus!
