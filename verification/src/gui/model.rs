//! What the interface knows, and what it asks of the service.
use crate::domain::config::{
    AppConfig, AppConfigView, BridgeId, ConfigUpdate, ConfigUpdateView, EntertainmentArea,
    EntertainmentAreaView, Profile, ProfileId, ProfileView, SyncSettings,
};
use crate::domain::config;
use crate::domain::ipc::{
    DiscoveredBridge, DiscoveredBridgeView, Request, RequestView, ResponsePayload,
    ResponsePayloadView,
};
use crate::domain::state::{
    ActionableError, ActionableErrorView, BridgeState, Capabilities, CapabilitiesView,
    StatusSnapshot, StatusSnapshotView,
};
use crate::encoding;
use crate::gui::equality;
use crate::gui::view_state;
use crate::ipc::error::{Error, ErrorView};
use crate::text;
use vstd::prelude::*;

verus! {

/// What the interface asks of the service at most once at a time.
#[derive(Clone, Copy, Debug, PartialEq, Eq, Structural)]
pub enum Operation {
    GetConfig,
    GetCapabilities,
    Discover,
    BeginPairing,
    CompletePairing,
    RefreshAreas,
    SelectArea,
    UpdateSync,
    UpdateConfig,
    CreateProfile,
    DeleteProfile,
    ActivateProfile,
    Start,
    Stop,
}

impl DeepView for Operation {
    type V = Operation;

    open spec fn deep_view(&self) -> Operation {
        *self
    }
}

/// The operation that a request is, for one that is asked at most once at a time.
pub open spec fn operation_of(request: RequestView) -> Option<Operation> {
    match request {
        RequestView::GetConfig => Some(Operation::GetConfig),
        RequestView::GetCapabilities => Some(Operation::GetCapabilities),
        RequestView::DiscoverBridges => Some(Operation::Discover),
        RequestView::BeginPairing { .. } => Some(Operation::BeginPairing),
        RequestView::CompletePairing { .. } => Some(Operation::CompletePairing),
        RequestView::RefreshAreas => Some(Operation::RefreshAreas),
        RequestView::SelectArea { .. } => Some(Operation::SelectArea),
        RequestView::UpdateConfig { update } => if update.sync is Some {
            Some(Operation::UpdateSync)
        } else {
            Some(Operation::UpdateConfig)
        },
        RequestView::CreateProfile { .. } => Some(Operation::CreateProfile),
        RequestView::DeleteProfile { .. } => Some(Operation::DeleteProfile),
        RequestView::ActivateProfile { .. } => Some(Operation::ActivateProfile),
        RequestView::Start => Some(Operation::Start),
        RequestView::Stop => Some(Operation::Stop),
        RequestView::GetStatus
        | RequestView::ForgetBridge
        | RequestView::UpdateProfile { .. }
        | RequestView::Toggle
        | RequestView::WatchStatus { .. } => None,
    }
}

/// The operation that a request is, for one that is asked at most once at a time.
pub fn operation(request: &Request) -> (r: Option<Operation>)
    ensures
        r == operation_of(request.deep_view()),
{
    match request {
        Request::GetConfig => Some(Operation::GetConfig),
        Request::GetCapabilities => Some(Operation::GetCapabilities),
        Request::DiscoverBridges => Some(Operation::Discover),
        Request::BeginPairing { .. } => Some(Operation::BeginPairing),
        Request::CompletePairing { .. } => Some(Operation::CompletePairing),
        Request::RefreshAreas => Some(Operation::RefreshAreas),
        Request::SelectArea { .. } => Some(Operation::SelectArea),
        Request::UpdateConfig { update } => if update.sync.is_some() {
            Some(Operation::UpdateSync)
        } else {
            Some(Operation::UpdateConfig)
        },
        Request::CreateProfile { .. } => Some(Operation::CreateProfile),
        Request::DeleteProfile { .. } => Some(Operation::DeleteProfile),
        Request::ActivateProfile { .. } => Some(Operation::ActivateProfile),
        Request::Start => Some(Operation::Start),
        Request::Stop => Some(Operation::Stop),
        Request::GetStatus
        | Request::ForgetBridge
        | Request::UpdateProfile { .. }
        | Request::Toggle
        | Request::WatchStatus { .. } => None,
    }
}

/// Whether areas can be read: the bridge is connected.
pub fn should_refresh_areas(status: &StatusSnapshot) -> (r: bool)
    ensures
        r == (status.deep_view().bridge == BridgeState::Connected),
{
    status.bridge == BridgeState::Connected
}

/// Whether an error means that the service was not reached.
pub fn is_transport_failure(error: &Error) -> (r: bool)
    ensures
        r == !(error.deep_view() is Remote),
{
    match error {
        Error::Remote(_) => false,
        _ => true,
    }
}

/// A request that waits for its answer.
#[derive(Clone, Copy, Debug, PartialEq, Eq, Structural)]
struct PendingEntry {
    operation: Operation,
    id: u64,
}

/// The requests that wait for their answers, at most one of each operation.
#[derive(Debug)]
pub struct PendingRequests {
    entries: Vec<PendingEntry>,
}

spec fn position(entries: Seq<PendingEntry>, operation: Operation) -> Option<u64>
    decreases entries.len(),
{
    if entries.len() == 0 {
        None
    } else if entries.last().operation == operation {
        Some(entries.last().id)
    } else {
        position(entries.drop_last(), operation)
    }
}

impl DeepView for PendingRequests {
    type V = Map<Operation, u64>;

    closed spec fn deep_view(&self) -> Map<Operation, u64> {
        let entries = self.entries@;
        Map::new(
            |operation: Operation| position(entries, operation) is Some,
            |operation: Operation| position(entries, operation)->Some_0,
        )
    }
}

impl PendingRequests {
    /// Nothing waits.
    pub fn new() -> (r: Self)
        ensures
            r.deep_view() == Map::<Operation, u64>::empty(),
    {
        let r = PendingRequests { entries: Vec::new() };
        assert(r.deep_view() =~= Map::empty());
        r
    }

    /// The number of the request of an operation that waits.
    pub fn get(&self, operation: Operation) -> (r: Option<u64>)
        ensures
            r is Some <==> self.deep_view().contains_key(operation),
            r is Some ==> r->Some_0 == self.deep_view()[operation],
    {
        let ghost all = self.entries@;
        let mut i: usize = self.entries.len();
        assert(all.take(i as int) =~= all);
        while i > 0
            invariant
                i <= self.entries.len(),
                all == self.entries@,
                position(all, operation) == position(all.take(i as int), operation),
            decreases i,
        {
            let ghost shown = all.take(i as int);
            assert(shown.last() == all[i - 1]);
            assert(shown.drop_last() =~= all.take(i - 1));
            i -= 1;
            if self.entries[i].operation == operation {
                return Some(self.entries[i].id);
            }
        }
        None
    }

    /// Whether a request of an operation waits.
    pub fn contains(&self, operation: Operation) -> (r: bool)
        ensures
            r == self.deep_view().contains_key(operation),
    {
        self.get(operation).is_some()
    }

    /// Notes that a request of an operation waits.
    pub fn insert(&mut self, operation: Operation, id: u64)
        ensures
            final(self).deep_view() == old(self).deep_view().insert(operation, id),
    {
        let ghost before = self.entries@;
        self.entries.push(PendingEntry { operation, id });
        proof {
            assert(self.entries@.drop_last() =~= before);
            assert(self.deep_view() =~= old(self).deep_view().insert(operation, id));
        }
    }

    /// Notes that no request of an operation waits any more.
    pub fn remove(&mut self, operation: Operation)
        ensures
            final(self).deep_view() == old(self).deep_view().remove(operation),
    {
        let ghost before = self.entries@;
        let mut kept: Vec<PendingEntry> = Vec::new();
        let mut i: usize = 0;
        while i < self.entries.len()
            invariant
                i <= self.entries.len(),
                before == self.entries@,
                forall|other: Operation| #[trigger]
                    position(kept@, other) == if other == operation {
                        None
                    } else {
                        position(before.take(i as int), other)
                    },
            decreases self.entries.len() - i,
        {
            let ghost shown = before.take(i + 1);
            let ghost earlier = kept@;
            assert(shown.drop_last() =~= before.take(i as int));
            assert(shown.last() == before[i as int]);
            if self.entries[i].operation != operation {
                kept.push(self.entries[i]);
                assert(kept@.drop_last() =~= earlier);
            }
            proof {
                assert forall|other: Operation| #[trigger]
                    position(kept@, other) == if other == operation {
                        None
                    } else {
                        position(shown, other)
                    } by {
                    assert(position(earlier, other) == if other == operation {
                        None
                    } else {
                        position(before.take(i as int), other)
                    });
                }
            }
            i += 1;
        }
        assert(before.take(i as int) =~= before);
        self.entries = kept;
        assert(self.deep_view() =~= old(self).deep_view().remove(operation));
    }
}

/// A request with the number by which its answer is known.
#[derive(Debug, PartialEq)]
pub struct Command {
    pub id: u64,
    pub request: Request,
}

/// The mathematical value of [`Command`].
#[verifier::ext_equal]
pub struct CommandView {
    pub id: u64,
    pub request: RequestView,
}

impl DeepView for Command {
    type V = CommandView;

    open spec fn deep_view(&self) -> CommandView {
        CommandView {
            id: self.id,
            request: self.request.deep_view(),
        }
    }
}

/// What the interface knows of the service, and what it has asked.
#[derive(Debug)]
pub struct Model {
    pub connected: bool,
    pub status: Option<StatusSnapshot>,
    pub config: Option<AppConfig>,
    pub capabilities: Option<Capabilities>,
    pub bridges: Vec<DiscoveredBridge>,
    pub areas: Vec<EntertainmentArea>,
    pub operation_error: Option<ActionableError>,
    pub pending: PendingRequests,
    pub pairing_bridge: Option<BridgeId>,
    /// The settings that the user chose and that the service may not have yet.
    pub optimistic_sync: Option<SyncSettings>,
    pub bridges_revision: u64,
    pub areas_revision: u64,
    pub profiles_revision: u64,
    /// The number of the next request.
    pub next_id: u64,
}

/// The mathematical value of [`Model`].
#[verifier::ext_equal]
pub struct ModelView {
    pub connected: bool,
    pub status: Option<StatusSnapshotView>,
    pub config: Option<AppConfigView>,
    pub capabilities: Option<CapabilitiesView>,
    pub bridges: Seq<DiscoveredBridgeView>,
    pub areas: Seq<EntertainmentAreaView>,
    pub operation_error: Option<ActionableErrorView>,
    pub pending: Map<Operation, u64>,
    pub pairing_bridge: Option<Seq<char>>,
    pub optimistic_sync: Option<SyncSettings>,
    pub bridges_revision: u64,
    pub areas_revision: u64,
    pub profiles_revision: u64,
    pub next_id: u64,
}

impl DeepView for Model {
    type V = ModelView;

    open spec fn deep_view(&self) -> ModelView {
        ModelView {
            connected: self.connected,
            status: self.status.deep_view(),
            config: self.config.deep_view(),
            capabilities: self.capabilities.deep_view(),
            bridges: self.bridges.deep_view(),
            areas: self.areas.deep_view(),
            operation_error: self.operation_error.deep_view(),
            pending: self.pending.deep_view(),
            pairing_bridge: self.pairing_bridge.deep_view(),
            optimistic_sync: self.optimistic_sync,
            bridges_revision: self.bridges_revision,
            areas_revision: self.areas_revision,
            profiles_revision: self.profiles_revision,
            next_id: self.next_id,
        }
    }
}

/// The view of the outcome of a request.
pub open spec fn result_view(result: Result<ResponsePayload, Error>) -> Result<
    ResponsePayloadView,
    ErrorView,
> {
    match result {
        Ok(payload) => Ok(payload.deep_view()),
        Err(error) => Err(error.deep_view()),
    }
}

/// What the connection to the service reports.
#[derive(Debug)]
pub enum WorkerEvent {
    Status(StatusSnapshot),
    Disconnected,
    Response { id: u64, request: Request, result: Result<ResponsePayload, Error> },
}

/// The mathematical value of [`WorkerEvent`].
#[verifier::ext_equal]
pub enum WorkerEventView {
    Status(StatusSnapshotView),
    Disconnected,
    Response { id: u64, request: RequestView, result: Result<ResponsePayloadView, ErrorView> },
}

impl DeepView for WorkerEvent {
    type V = WorkerEventView;

    open spec fn deep_view(&self) -> WorkerEventView {
        match self {
            WorkerEvent::Status(value) => WorkerEventView::Status(value.deep_view()),
            WorkerEvent::Disconnected => WorkerEventView::Disconnected,
            WorkerEvent::Response { id, request, result } => WorkerEventView::Response { id: *id, request: request.deep_view(), result: result_view(*result) },
        }
    }
}

/// What has to be drawn anew.
#[derive(Clone, Copy, Debug, PartialEq, Eq, Structural)]
pub enum Redraw {
    Nothing,
    Contents,
    Everything,
}

impl DeepView for Redraw {
    type V = Redraw;

    open spec fn deep_view(&self) -> Redraw {
        *self
    }
}

/// The number after another; the last is followed by zero.
pub open spec fn next_number(value: u64) -> u64 {
    if value == u64::MAX {
        0
    } else {
        (value + 1) as u64
    }
}

fn following(value: u64) -> (r: u64)
    ensures
        r == next_number(value),
{
    if value == u64::MAX {
        0
    } else {
        value + 1
    }
}

/// Whether a request is sent: one that is asked at most once at a time is sent
/// only with a connection, and only where none of its operation waits.
pub open spec fn may_send(model: ModelView, request: RequestView) -> bool {
    match operation_of(request) {
        Some(kind) => model.connected && !model.pending.contains_key(kind),
        None => true,
    }
}

/// The model after a request was given to be sent, and what is sent.
pub open spec fn sent(model: ModelView, request: RequestView) -> (ModelView, Option<CommandView>) {
    if !may_send(model, request) {
        (model, None)
    } else {
        let command = CommandView { id: model.next_id, request };
        let numbered = ModelView { next_id: next_number(model.next_id), ..model };
        match operation_of(request) {
            Some(kind) => (
                ModelView {
                    operation_error: None,
                    pending: model.pending.insert(kind, model.next_id),
                    ..numbered
                },
                Some(command),
            ),
            None => (numbered, Some(command)),
        }
    }
}

/// The model after requests were given to be sent one after another, and what is sent.
pub open spec fn sent_all(model: ModelView, requests: Seq<RequestView>) -> (
    ModelView,
    Seq<CommandView>,
)
    decreases requests.len(),
{
    if requests.len() == 0 {
        (model, Seq::empty())
    } else {
        let (before, commands) = sent_all(model, requests.drop_last());
        let (after, command) = sent(before, requests.last());
        (
            after,
            match command {
                Some(command) => commands.push(command),
                None => commands,
            },
        )
    }
}

/// The request that makes settings those of the service.
pub open spec fn sync_request(settings: SyncSettings) -> RequestView {
    RequestView::UpdateConfig {
        update: ConfigUpdateView { sync: Some(settings), ..config::empty_update() },
    }
}

/// The requests that make the chosen settings those of the service.
pub open spec fn flush_requests(model: ModelView) -> Seq<RequestView> {
    match model.optimistic_sync {
        Some(settings) => seq![sync_request(settings)],
        None => Seq::empty(),
    }
}

/// The settings that the interface shows: those chosen last, else those of the service.
pub open spec fn shown_settings(model: ModelView) -> Option<SyncSettings> {
    match model.optimistic_sync {
        Some(settings) => Some(settings),
        None => match model.config {
            Some(config) => Some(config.sync),
            None => None,
        },
    }
}

/// The model with what an answer tells, and whether everything is drawn anew.
pub open spec fn with_payload(model: ModelView, payload: ResponsePayloadView) -> (ModelView, bool) {
    match payload {
        ResponsePayloadView::Status(status) => (
            ModelView { status: Some(status), ..model },
            false,
        ),
        ResponsePayloadView::Config(config) => (
            ModelView {
                profiles_revision: if model.config is None || model.config->Some_0.profiles
                    != config.profiles || model.config->Some_0.active_profile
                    != config.active_profile {
                    next_number(model.profiles_revision)
                } else {
                    model.profiles_revision
                },
                areas_revision: if model.config is None || model.config->Some_0.selected_area
                    != config.selected_area {
                    next_number(model.areas_revision)
                } else {
                    model.areas_revision
                },
                config: Some(config),
                ..model
            },
            model.config is Some && model.config->Some_0.language != config.language,
        ),
        ResponsePayloadView::Capabilities(capabilities) => (
            ModelView { capabilities: Some(capabilities), ..model },
            model.capabilities != Some(capabilities),
        ),
        ResponsePayloadView::Bridges(bridges) => (
            if model.bridges == bridges {
                model
            } else {
                ModelView {
                    bridges,
                    bridges_revision: next_number(model.bridges_revision),
                    ..model
                }
            },
            false,
        ),
        ResponsePayloadView::Areas(areas) => (
            if equality::same_area_list(model.areas, areas) {
                model
            } else {
                ModelView { areas, areas_revision: next_number(model.areas_revision), ..model }
            },
            false,
        ),
        ResponsePayloadView::Profile(_) | ResponsePayloadView::Acknowledged => (model, false),
    }
}

/// The model with what the success of a request means.
pub open spec fn with_success(model: ModelView, request: RequestView) -> ModelView {
    match request {
        RequestView::BeginPairing { bridge } => ModelView {
            pairing_bridge: Some(bridge.id),
            ..model
        },
        RequestView::CompletePairing { .. } => ModelView { pairing_bridge: None, ..model },
        RequestView::UpdateConfig { update } => match (update.sync, model.config) {
            (Some(sync), Some(config)) => ModelView {
                config: Some(AppConfigView { sync, ..config }),
                ..model
            },
            _ => model,
        },
        _ => model,
    }
}

/// Whether the configuration is read again after the success of a request.
pub open spec fn changes_config(request: RequestView) -> bool {
    match request {
        RequestView::UpdateConfig { update } => update.sync is None,
        RequestView::CreateProfile { .. }
        | RequestView::UpdateProfile { .. }
        | RequestView::DeleteProfile { .. }
        | RequestView::ActivateProfile { .. }
        | RequestView::SelectArea { .. }
        | RequestView::CompletePairing { .. } => true,
        _ => false,
    }
}

/// The requests that follow the success of a request. Settings that changed
/// while others were sent are sent next.
pub open spec fn follow_up(model: ModelView, request: RequestView) -> Seq<RequestView> {
    match request {
        RequestView::UpdateConfig { update } => if update.sync is None {
            seq![RequestView::GetConfig]
        } else if model.optimistic_sync != update.sync {
            flush_requests(model)
        } else {
            Seq::empty()
        },
        RequestView::CompletePairing { .. } => seq![
            RequestView::GetConfig,
            RequestView::RefreshAreas,
        ],
        _ => if changes_config(request) {
            seq![RequestView::GetConfig]
        } else {
            Seq::empty()
        },
    }
}

/// The model without a connection.
pub open spec fn disconnected(model: ModelView) -> ModelView {
    ModelView { connected: false, status: None, ..model }
}

/// Whether an answer is not the one that is waited for.
pub open spec fn is_stale(model: ModelView, id: u64, request: RequestView) -> bool {
    match operation_of(request) {
        Some(kind) => !model.pending.contains_key(kind) || model.pending[kind] != id,
        None => false,
    }
}

/// The model once a request no longer waits.
pub open spec fn answered(model: ModelView, request: RequestView) -> ModelView {
    match operation_of(request) {
        Some(kind) => ModelView { pending: model.pending.remove(kind), ..model },
        None => model,
    }
}

/// How the model changes with an event, which requests follow, and what is drawn.
pub open spec fn reaction(model: ModelView, event: WorkerEventView) -> (
    ModelView,
    Seq<RequestView>,
    Redraw,
) {
    match event {
        WorkerEventView::Status(status) => (
            ModelView { connected: true, status: Some(status), ..model },
            if model.connected {
                Seq::empty()
            } else if status.bridge == BridgeState::Connected {
                seq![
                    RequestView::GetConfig,
                    RequestView::GetCapabilities,
                    RequestView::RefreshAreas,
                ]
            } else {
                seq![RequestView::GetConfig, RequestView::GetCapabilities]
            },
            Redraw::Contents,
        ),
        WorkerEventView::Disconnected => (disconnected(model), Seq::empty(), Redraw::Contents),
        WorkerEventView::Response { id, request, result } => if is_stale(model, id, request) {
            (model, Seq::empty(), Redraw::Nothing)
        } else {
            let waiting = answered(model, request);
            match result {
                Ok(payload) => {
                    let (told, rebuild) = with_payload(
                        ModelView { connected: true, operation_error: None, ..waiting },
                        payload,
                    );
                    let done = with_success(told, request);
                    (
                        done,
                        follow_up(done, request),
                        if rebuild {
                            Redraw::Everything
                        } else {
                            Redraw::Contents
                        },
                    )
                },
                Err(ErrorView::Remote(error)) => (
                    ModelView { operation_error: Some(error), ..waiting },
                    Seq::empty(),
                    Redraw::Contents,
                ),
                Err(_) => (disconnected(waiting), Seq::empty(), Redraw::Contents),
            }
        },
    }
}

/// What follows from an event: what is sent, and what is drawn.
#[derive(Debug)]
pub struct Handled {
    pub commands: Vec<Command>,
    pub redraw: Redraw,
}

/// The mathematical value of [`Handled`].
#[verifier::ext_equal]
pub struct HandledView {
    pub commands: Seq<CommandView>,
    pub redraw: Redraw,
}

impl DeepView for Handled {
    type V = HandledView;

    open spec fn deep_view(&self) -> HandledView {
        HandledView {
            commands: self.commands.deep_view(),
            redraw: self.redraw,
        }
    }
}

/// An update of the settings alone.
fn sync_update(settings: SyncSettings) -> (r: Request)
    ensures
        r.deep_view() == sync_request(settings),
{
    let mut update = ConfigUpdate::default();
    update.sync = Some(settings);
    Request::UpdateConfig { update }
}

/// The model that knows nothing.
pub open spec fn initial() -> ModelView {
    ModelView {
        connected: false,
        status: None,
        config: None,
        capabilities: None,
        bridges: Seq::empty(),
        areas: Seq::empty(),
        operation_error: None,
        pending: Map::empty(),
        pairing_bridge: None,
        optimistic_sync: None,
        bridges_revision: 0,
        areas_revision: 0,
        profiles_revision: 0,
        next_id: 1,
    }
}

impl Default for Model {
    fn default() -> (r: Self)
        ensures
            r.deep_view() == initial(),
    {
        let r = Model {
            connected: false,
            status: None,
            config: None,
            capabilities: None,
            bridges: Vec::new(),
            areas: Vec::new(),
            operation_error: None,
            pending: PendingRequests::new(),
            pairing_bridge: None,
            optimistic_sync: None,
            bridges_revision: 0,
            areas_revision: 0,
            profiles_revision: 0,
            next_id: 1,
        };
        assert(r.deep_view() =~= initial());
        r
    }
}

impl Model {
    /// Gives a request to be sent; what it returns goes to the service.
    pub fn send(&mut self, request: Request) -> (r: Option<Command>)
        ensures
            (final(self).deep_view(), r.deep_view()) == sent(
                old(self).deep_view(),
                request.deep_view(),
            ),
    {
        match operation(&request) {
            Some(kind) => {
                if !self.connected || self.pending.contains(kind) {
                    return None;
                }
                let id: u64 = self.next_id;
                self.operation_error = None;
                self.next_id = following(id);
                self.pending.insert(kind, id);
                Some(Command { id, request })
            },
            None => {
                let id: u64 = self.next_id;
                self.next_id = following(id);
                Some(Command { id, request })
            },
        }
    }

    fn send_all(&mut self, requests: Vec<Request>) -> (r: Vec<Command>)
        ensures
            (final(self).deep_view(), r.deep_view()) == sent_all(
                old(self).deep_view(),
                requests.deep_view(),
            ),
    {
        let ghost all = requests.deep_view();
        let ghost start = self.deep_view();
        let mut commands: Vec<Command> = Vec::new();
        let mut i: usize = 0;
        assert(all.take(0) =~= Seq::empty());
        assert(commands.deep_view() =~= Seq::empty());
        while i < requests.len()
            invariant
                i <= requests.len(),
                all == requests.deep_view(),
                (self.deep_view(), commands.deep_view()) == sent_all(start, all.take(i as int)),
            decreases requests.len() - i,
        {
            let ghost shown = all.take(i + 1);
            let ghost earlier = commands.deep_view();
            assert(shown.drop_last() =~= all.take(i as int));
            assert(shown.last() == requests[i as int].deep_view());
            if let Some(command) = self.send(requests[i].clone()) {
                let ghost view = command.deep_view();
                commands.push(command);
                assert(commands.deep_view() =~= earlier.push(view));
            }
            i += 1;
        }
        assert(all.take(i as int) =~= all);
        commands
    }

    /// The settings that the interface shows.
    pub fn settings(&self) -> (r: Option<SyncSettings>)
        ensures
            r == shown_settings(self.deep_view()),
    {
        match self.optimistic_sync {
            Some(settings) => Some(settings),
            None => match &self.config {
                Some(config) => Some(config.sync),
                None => None,
            },
        }
    }

    /// Notes the settings that the user chose. Nothing is noted before settings
    /// are known; the result tells whether they were.
    pub fn choose_settings(&mut self, settings: SyncSettings) -> (r: bool)
        ensures
            r == (shown_settings(old(self).deep_view()) is Some),
            final(self).deep_view() == if r {
                ModelView { optimistic_sync: Some(settings), ..old(self).deep_view() }
            } else {
                old(self).deep_view()
            },
    {
        if self.settings().is_none() {
            return false;
        }
        self.optimistic_sync = Some(settings);
        true
    }

    /// Sends the settings that the user chose.
    pub fn flush_sync(&mut self) -> (r: Option<Command>)
        ensures
            (final(self).deep_view(), r.deep_view()) == match old(self).deep_view().optimistic_sync {
                Some(settings) => sent(old(self).deep_view(), sync_request(settings)),
                None => (old(self).deep_view(), None),
            },
    {
        match self.optimistic_sync {
            Some(settings) => self.send(sync_update(settings)),
            None => None,
        }
    }

    fn apply_payload(&mut self, payload: ResponsePayload) -> (r: bool)
        ensures
            (final(self).deep_view(), r) == with_payload(
                old(self).deep_view(),
                payload.deep_view(),
            ),
    {
        match payload {
            ResponsePayload::Status(status) => {
                self.status = Some(status);
                false
            },
            ResponsePayload::Config(config) => {
                let mut rebuild: bool = false;
                let mut profiles_changed: bool = true;
                let mut area_changed: bool = true;
                if let Some(known) = &self.config {
                    rebuild = known.language != config.language;
                    profiles_changed = !equality::profiles_equal(&known.profiles, &config.profiles)
                        || known.active_profile != config.active_profile;
                    area_changed = !equality::optional_area_equal(
                        &known.selected_area,
                        &config.selected_area,
                    );
                }
                if profiles_changed {
                    self.profiles_revision = following(self.profiles_revision);
                }
                if area_changed {
                    self.areas_revision = following(self.areas_revision);
                }
                self.config = Some(config);
                rebuild
            },
            ResponsePayload::Capabilities(capabilities) => {
                let rebuild: bool = match &self.capabilities {
                    Some(known) => !equality::capabilities_equal(known, &capabilities),
                    None => true,
                };
                self.capabilities = Some(capabilities);
                rebuild
            },
            ResponsePayload::Bridges(bridges) => {
                if !equality::bridges_equal(&self.bridges, &bridges) {
                    self.bridges = bridges;
                    self.bridges_revision = following(self.bridges_revision);
                }
                false
            },
            ResponsePayload::Areas(areas) => {
                if !equality::areas_equal(&self.areas, &areas) {
                    self.areas = areas;
                    self.areas_revision = following(self.areas_revision);
                }
                false
            },
            ResponsePayload::Profile(_) | ResponsePayload::Acknowledged => false,
        }
    }

    fn apply_success(&mut self, request: &Request)
        ensures
            final(self).deep_view() == with_success(old(self).deep_view(), request.deep_view()),
    {
        match request {
            Request::BeginPairing { bridge } => {
                self.pairing_bridge = Some(bridge.id.clone());
            },
            Request::CompletePairing { .. } => {
                self.pairing_bridge = None;
            },
            Request::UpdateConfig { update } => {
                if let Some(sync) = update.sync {
                    if let Some(mut config) = self.config.take() {
                        config.sync = sync;
                        self.config = Some(config);
                    }
                }
            },
            _ => {},
        }
    }

    fn requests_after(&self, request: &Request) -> (r: Vec<Request>)
        ensures
            r.deep_view() == follow_up(self.deep_view(), request.deep_view()),
    {
        let mut requests: Vec<Request> = Vec::new();
        match request {
            Request::UpdateConfig { update } => {
                if update.sync.is_none() {
                    requests.push(Request::GetConfig);
                } else if self.optimistic_sync != update.sync {
                    if let Some(settings) = self.optimistic_sync {
                        requests.push(sync_update(settings));
                    }
                }
            },
            Request::CompletePairing { .. } => {
                requests.push(Request::GetConfig);
                requests.push(Request::RefreshAreas);
            },
            Request::CreateProfile { .. }
            | Request::UpdateProfile { .. }
            | Request::DeleteProfile { .. }
            | Request::ActivateProfile { .. }
            | Request::SelectArea { .. } => {
                requests.push(Request::GetConfig);
            },
            _ => {},
        }
        assert(requests.deep_view() =~= follow_up(self.deep_view(), request.deep_view()));
        requests
    }

    fn react(&mut self, event: WorkerEvent) -> (r: (Vec<Request>, Redraw))
        ensures
            (final(self).deep_view(), r.0.deep_view(), r.1) == reaction(
                old(self).deep_view(),
                event.deep_view(),
            ),
    {
        let mut requests: Vec<Request> = Vec::new();
        assert(requests.deep_view() =~= Seq::empty());
        match event {
            WorkerEvent::Status(status) => {
                if !self.connected {
                    requests.push(Request::GetConfig);
                    requests.push(Request::GetCapabilities);
                    if should_refresh_areas(&status) {
                        requests.push(Request::RefreshAreas);
                    }
                }
                self.connected = true;
                self.status = Some(status);
                proof {
                    assert(requests.deep_view() =~= reaction(
                        old(self).deep_view(),
                        event.deep_view(),
                    ).1);
                }
                (requests, Redraw::Contents)
            },
            WorkerEvent::Disconnected => {
                self.connected = false;
                self.status = None;
                (requests, Redraw::Contents)
            },
            WorkerEvent::Response { id, request, result } => {
                if let Some(kind) = operation(&request) {
                    let awaited: bool = match self.pending.get(kind) {
                        Some(waiting) => waiting == id,
                        None => false,
                    };
                    if !awaited {
                        return (requests, Redraw::Nothing);
                    }
                    self.pending.remove(kind);
                }
                match result {
                    Ok(payload) => {
                        self.connected = true;
                        self.operation_error = None;
                        let rebuild: bool = self.apply_payload(payload);
                        self.apply_success(&request);
                        let follow_up: Vec<Request> = self.requests_after(&request);
                        (
                            follow_up,
                            if rebuild {
                                Redraw::Everything
                            } else {
                                Redraw::Contents
                            },
                        )
                    },
                    Err(Error::Remote(error)) => {
                        self.operation_error = Some(error);
                        (requests, Redraw::Contents)
                    },
                    Err(_) => {
                        self.connected = false;
                        self.status = None;
                        (requests, Redraw::Contents)
                    },
                }
            },
        }
    }

    /// Takes in what the connection reports.
    pub fn handle(&mut self, event: WorkerEvent) -> (r: Handled)
        ensures
            ({
                let (model, requests, redraw) = reaction(
                    old(self).deep_view(),
                    event.deep_view(),
                );
                &&& (final(self).deep_view(), r.deep_view().commands) == sent_all(model, requests)
                &&& r.redraw == redraw
            }),
    {
        let (requests, redraw) = self.react(event);
        let commands: Vec<Command> = self.send_all(requests);
        Handled { commands, redraw }
    }

    /// The request that the action of the dashboard makes.
    pub fn action_request(&self) -> (r: Request)
        ensures
            r.deep_view() == if view_state::dashboard(
                self.deep_view().connected,
                self.deep_view().status,
            ).action_is_stop {
                RequestView::Stop
            } else {
                RequestView::Start
            },
    {
        if view_state::dashboard_state(self.connected, self.status.as_ref()).action_is_stop {
            Request::Stop
        } else {
            Request::Start
        }
    }

    /// The request that completes the pairing that was begun.
    pub fn pairing_request(&self) -> (r: Option<Request>)
        ensures
            r.deep_view() == match self.deep_view().pairing_bridge {
                Some(bridge_id) => Some(RequestView::CompletePairing { bridge_id }),
                None => None,
            },
    {
        match &self.pairing_bridge {
            Some(bridge_id) => Some(Request::CompletePairing { bridge_id: bridge_id.clone() }),
            None => None,
        }
    }

    /// A profile with a name, without the white space around it, and an
    /// identifier, that holds what is chosen now. There is none with an empty name
    /// or before a configuration is known.
    pub fn profile_named(&self, id: ProfileId, name: &str) -> (r: Option<Profile>)
        ensures
            r.deep_view() == profile_of(self.deep_view(), id, name@),
    {
        match &self.config {
            Some(config) if !text::is_blank(name) => Some(
                Profile {
                    id,
                    name: text::trim(name).to_owned(),
                    settings: match self.optimistic_sync {
                        Some(settings) => settings,
                        None => config.sync,
                    },
                    display: config.selected_display.clone(),
                    area: config.selected_area.clone(),
                },
            ),
            _ => None,
        }
    }

    /// A new profile with a name, and an identifier of chance.
    pub fn new_profile(&self, name: &str) -> (r: Option<Profile>)
        ensures
            exists|id: ProfileId|
                encoding::is_random_uuid(id.uuid()) && r.deep_view() == #[trigger] profile_of(
                    self.deep_view(),
                    id,
                    name@,
                ),
    {
        self.profile_named(ProfileId::new(), name)
    }
}

/// The profile with a name, without the white space around it, that holds what is
/// chosen now.
pub open spec fn profile_of(model: ModelView, id: ProfileId, name: Seq<char>) -> Option<ProfileView> {
    match model.config {
        Some(config) => if text::blank(name) {
            None
        } else {
            Some(
                ProfileView {
                    id,
                    name: text::trimmed(name),
                    settings: match model.optimistic_sync {
                        Some(settings) => settings,
                        None => config.sync,
                    },
                    display: config.selected_display,
                    area: config.selected_area,
                },
            )
        },
        None => None,
    }
}

/// While a request of an operation waits, no other of that operation is sent.
pub proof fn law_one_request_at_a_time(model: ModelView, first: RequestView, second: RequestView)
    requires
        operation_of(first) is Some,
        operation_of(second) == operation_of(first),
    ensures
        sent(sent(model, first).0, second) == (sent(model, first).0, None::<CommandView>),
{
}

/// Without a connection nothing of what is asked at most once at a time is sent.
pub proof fn law_nothing_is_sent_without_connection(model: ModelView, request: RequestView)
    requires
        operation_of(request) is Some,
    ensures
        sent(disconnected(model), request) == (disconnected(model), None::<CommandView>),
{
}

/// An answer that is not waited for changes nothing, sends nothing and draws nothing.
pub proof fn law_stale_answer_is_ignored(
    model: ModelView,
    id: u64,
    request: RequestView,
    result: Result<ResponsePayloadView, ErrorView>,
)
    requires
        operation_of(request) is Some,
        !model.pending.contains_key(operation_of(request)->Some_0)
            || model.pending[operation_of(request)->Some_0] != id,
    ensures
        reaction(model, WorkerEventView::Response { id, request, result }) == (
            model,
            Seq::<RequestView>::empty(),
            Redraw::Nothing,
        ),
{
}

/// The answer to a request that was sent is never stale, whatever else is sent
/// in between that is of another operation.
pub proof fn law_answer_is_awaited(model: ModelView, request: RequestView, other: RequestView)
    requires
        may_send(model, request),
        operation_of(other) != operation_of(request),
    ensures
        !is_stale(sent(model, request).0, model.next_id, request),
        !is_stale(sent(sent(model, request).0, other).0, model.next_id, request),
{
}

/// Once it is answered, an operation can be asked again, as soon as there is a
/// connection.
pub proof fn law_answered_operation_can_be_asked_again(
    model: ModelView,
    id: u64,
    request: RequestView,
    result: Result<ResponsePayloadView, ErrorView>,
)
    requires
        !is_stale(model, id, request),
    ensures
        ({
            let after = reaction(model, WorkerEventView::Response { id, request, result }).0;
            may_send(ModelView { connected: true, ..after }, request)
        }),
{
}

/// Settings that were chosen while others were on their way are sent once those
/// were accepted.
pub proof fn law_last_settings_are_sent(
    model: ModelView,
    id: u64,
    sent_settings: SyncSettings,
    chosen: SyncSettings,
    payload: ResponsePayloadView,
)
    requires
        model.optimistic_sync == Some(chosen),
        chosen != sent_settings,
        !is_stale(model, id, sync_request(sent_settings)),
    ensures
        ({
            let (after, requests, _) = reaction(
                model,
                WorkerEventView::Response {
                    id,
                    request: sync_request(sent_settings),
                    result: Ok(payload),
                },
            );
            &&& requests == seq![sync_request(chosen)]
            &&& sent(after, sync_request(chosen)).1 == Some(
                CommandView { id: model.next_id, request: sync_request(chosen) },
            )
        }),
{
}

/// Areas that are read again and have not changed are not drawn again.
pub proof fn law_unchanged_areas_are_kept(model: ModelView)
    ensures
        with_payload(model, ResponsePayloadView::Areas(model.areas)) == (model, false),
{
    equality::lemma_same_area_list_reflexive(model.areas);
}

} // verus!
