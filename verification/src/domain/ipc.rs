//! Requests, responses and events, and the records that carry them.
use crate::domain::config::{
    AppConfig, AppConfigView, AreaId, BridgeId, ConfigUpdate, ConfigUpdateView, EntertainmentArea,
    EntertainmentAreaView, Profile, ProfileId, ProfileView,
};
use crate::domain::state::{
    ActionableError, ActionableErrorView, Capabilities, CapabilitiesView, StatusSnapshot,
    StatusSnapshotView,
};
use crate::encoding;
use crate::text;
use vstd::prelude::*;

verus! {

/// The protocol version that this library speaks.
pub const PROTOCOL_VERSION: u32 = 1;

/// A bridge that was found on the network.
#[derive(Debug, PartialEq, Eq)]
pub struct DiscoveredBridge {
    pub id: BridgeId,
    pub host: String,
    pub name: Option<String>,
}

/// The mathematical value of [`DiscoveredBridge`].
#[verifier::ext_equal]
pub struct DiscoveredBridgeView {
    pub id: Seq<char>,
    pub host: Seq<char>,
    pub name: Option<Seq<char>>,
}

impl DeepView for DiscoveredBridge {
    type V = DiscoveredBridgeView;

    open spec fn deep_view(&self) -> DiscoveredBridgeView {
        DiscoveredBridgeView {
            id: self.id.deep_view(),
            host: self.host.deep_view(),
            name: self.name.deep_view(),
        }
    }
}

impl Clone for DiscoveredBridge {
    fn clone(&self) -> (r: Self)
        ensures
            r.deep_view() == self.deep_view(),
    {
        DiscoveredBridge {
            id: self.id.clone(),
            host: self.host.clone(),
            name: self.name.clone(),
        }
    }
}

/// What a client asks of the service.
#[derive(Debug, PartialEq)]
#[allow(inconsistent_fields)]
pub enum Request {
    GetStatus,
    GetConfig,
    GetCapabilities,
    DiscoverBridges,
    BeginPairing { bridge: DiscoveredBridge },
    CompletePairing { bridge_id: BridgeId },
    ForgetBridge,
    RefreshAreas,
    SelectArea { area_id: Option<AreaId> },
    UpdateConfig { update: ConfigUpdate },
    CreateProfile { profile: Profile },
    UpdateProfile { profile: Profile },
    DeleteProfile { profile_id: ProfileId },
    ActivateProfile { profile_id: Option<ProfileId> },
    Start,
    Stop,
    Toggle,
    WatchStatus { enabled: bool },
}

/// The mathematical value of [`Request`].
#[verifier::ext_equal]
#[allow(inconsistent_fields)]
pub enum RequestView {
    GetStatus,
    GetConfig,
    GetCapabilities,
    DiscoverBridges,
    BeginPairing { bridge: DiscoveredBridgeView },
    CompletePairing { bridge_id: Seq<char> },
    ForgetBridge,
    RefreshAreas,
    SelectArea { area_id: Option<Seq<char>> },
    UpdateConfig { update: ConfigUpdateView },
    CreateProfile { profile: ProfileView },
    UpdateProfile { profile: ProfileView },
    DeleteProfile { profile_id: ProfileId },
    ActivateProfile { profile_id: Option<ProfileId> },
    Start,
    Stop,
    Toggle,
    WatchStatus { enabled: bool },
}

impl DeepView for Request {
    type V = RequestView;

    open spec fn deep_view(&self) -> RequestView {
        match self {
            Request::GetStatus => RequestView::GetStatus,
            Request::GetConfig => RequestView::GetConfig,
            Request::GetCapabilities => RequestView::GetCapabilities,
            Request::DiscoverBridges => RequestView::DiscoverBridges,
            Request::BeginPairing { bridge } => RequestView::BeginPairing { bridge: bridge.deep_view() },
            Request::CompletePairing { bridge_id } => RequestView::CompletePairing { bridge_id: bridge_id.deep_view() },
            Request::ForgetBridge => RequestView::ForgetBridge,
            Request::RefreshAreas => RequestView::RefreshAreas,
            Request::SelectArea { area_id } => RequestView::SelectArea { area_id: area_id.deep_view() },
            Request::UpdateConfig { update } => RequestView::UpdateConfig { update: update.deep_view() },
            Request::CreateProfile { profile } => RequestView::CreateProfile { profile: profile.deep_view() },
            Request::UpdateProfile { profile } => RequestView::UpdateProfile { profile: profile.deep_view() },
            Request::DeleteProfile { profile_id } => RequestView::DeleteProfile { profile_id: *profile_id },
            Request::ActivateProfile { profile_id } => RequestView::ActivateProfile { profile_id: *profile_id },
            Request::Start => RequestView::Start,
            Request::Stop => RequestView::Stop,
            Request::Toggle => RequestView::Toggle,
            Request::WatchStatus { enabled } => RequestView::WatchStatus { enabled: *enabled },
        }
    }
}

impl Clone for Request {
    fn clone(&self) -> (r: Self)
        ensures
            r.deep_view() == self.deep_view(),
    {
        match self {
            Request::GetStatus => Request::GetStatus,
            Request::GetConfig => Request::GetConfig,
            Request::GetCapabilities => Request::GetCapabilities,
            Request::DiscoverBridges => Request::DiscoverBridges,
            Request::BeginPairing { bridge } => Request::BeginPairing { bridge: bridge.clone() },
            Request::CompletePairing { bridge_id } => Request::CompletePairing { bridge_id: bridge_id.clone() },
            Request::ForgetBridge => Request::ForgetBridge,
            Request::RefreshAreas => Request::RefreshAreas,
            Request::SelectArea { area_id } => Request::SelectArea { area_id: area_id.clone() },
            Request::UpdateConfig { update } => Request::UpdateConfig { update: update.clone() },
            Request::CreateProfile { profile } => Request::CreateProfile { profile: profile.clone() },
            Request::UpdateProfile { profile } => Request::UpdateProfile { profile: profile.clone() },
            Request::DeleteProfile { profile_id } => Request::DeleteProfile { profile_id: *profile_id },
            Request::ActivateProfile { profile_id } => Request::ActivateProfile { profile_id: *profile_id },
            Request::Start => Request::Start,
            Request::Stop => Request::Stop,
            Request::Toggle => Request::Toggle,
            Request::WatchStatus { enabled } => Request::WatchStatus { enabled: *enabled },
        }
    }
}

/// A request with its protocol version and identifier.
#[derive(Debug, PartialEq)]
pub struct RequestEnvelope {
    pub version: u32,
    pub id: u128,
    pub request: Request,
}

/// The mathematical value of [`RequestEnvelope`].
#[verifier::ext_equal]
pub struct RequestEnvelopeView {
    pub version: u32,
    pub id: u128,
    pub request: RequestView,
}

impl DeepView for RequestEnvelope {
    type V = RequestEnvelopeView;

    open spec fn deep_view(&self) -> RequestEnvelopeView {
        RequestEnvelopeView {
            version: self.version,
            id: self.id,
            request: self.request.deep_view(),
        }
    }
}

impl Clone for RequestEnvelope {
    fn clone(&self) -> (r: Self)
        ensures
            r.deep_view() == self.deep_view(),
    {
        RequestEnvelope {
            version: self.version,
            id: self.id,
            request: self.request.clone(),
        }
    }
}

/// What a successful request gives.
#[derive(Debug, PartialEq)]
pub enum ResponsePayload {
    Acknowledged,
    Status(StatusSnapshot),
    Config(AppConfig),
    Capabilities(Capabilities),
    Bridges(Vec<DiscoveredBridge>),
    Areas(Vec<EntertainmentArea>),
    Profile(Profile),
}

/// The mathematical value of [`ResponsePayload`].
#[verifier::ext_equal]
pub enum ResponsePayloadView {
    Acknowledged,
    Status(StatusSnapshotView),
    Config(AppConfigView),
    Capabilities(CapabilitiesView),
    Bridges(Seq<DiscoveredBridgeView>),
    Areas(Seq<EntertainmentAreaView>),
    Profile(ProfileView),
}

impl DeepView for ResponsePayload {
    type V = ResponsePayloadView;

    open spec fn deep_view(&self) -> ResponsePayloadView {
        match self {
            ResponsePayload::Acknowledged => ResponsePayloadView::Acknowledged,
            ResponsePayload::Status(value) => ResponsePayloadView::Status(value.deep_view()),
            ResponsePayload::Config(value) => ResponsePayloadView::Config(value.deep_view()),
            ResponsePayload::Capabilities(value) => ResponsePayloadView::Capabilities(value.deep_view()),
            ResponsePayload::Bridges(value) => ResponsePayloadView::Bridges(value.deep_view()),
            ResponsePayload::Areas(value) => ResponsePayloadView::Areas(value.deep_view()),
            ResponsePayload::Profile(value) => ResponsePayloadView::Profile(value.deep_view()),
        }
    }
}

impl Clone for ResponsePayload {
    fn clone(&self) -> (r: Self)
        ensures
            r.deep_view() == self.deep_view(),
    {
        match self {
            ResponsePayload::Acknowledged => ResponsePayload::Acknowledged,
            ResponsePayload::Status(value) => ResponsePayload::Status(value.clone()),
            ResponsePayload::Config(value) => ResponsePayload::Config(value.clone()),
            ResponsePayload::Capabilities(value) => ResponsePayload::Capabilities(value.clone()),
            ResponsePayload::Bridges(value) => ResponsePayload::Bridges(value.clone()),
            ResponsePayload::Areas(value) => ResponsePayload::Areas(value.clone()),
            ResponsePayload::Profile(value) => ResponsePayload::Profile(value.clone()),
        }
    }
}

/// What a request comes to.
#[derive(Debug, PartialEq)]
pub enum Response {
    Success { payload: ResponsePayload },
    Error { error: ActionableError },
}

/// The mathematical value of [`Response`].
#[verifier::ext_equal]
pub enum ResponseView {
    Success { payload: ResponsePayloadView },
    Error { error: ActionableErrorView },
}

impl DeepView for Response {
    type V = ResponseView;

    open spec fn deep_view(&self) -> ResponseView {
        match self {
            Response::Success { payload } => ResponseView::Success { payload: payload.deep_view() },
            Response::Error { error } => ResponseView::Error { error: error.deep_view() },
        }
    }
}

impl Clone for Response {
    fn clone(&self) -> (r: Self)
        ensures
            r.deep_view() == self.deep_view(),
    {
        match self {
            Response::Success { payload } => Response::Success { payload: payload.clone() },
            Response::Error { error } => Response::Error { error: error.clone() },
        }
    }
}

/// A response with its protocol version and the identifier of its request.
#[derive(Debug, PartialEq)]
pub struct ResponseEnvelope {
    pub version: u32,
    pub id: u128,
    pub response: Response,
}

/// The mathematical value of [`ResponseEnvelope`].
#[verifier::ext_equal]
pub struct ResponseEnvelopeView {
    pub version: u32,
    pub id: u128,
    pub response: ResponseView,
}

impl DeepView for ResponseEnvelope {
    type V = ResponseEnvelopeView;

    open spec fn deep_view(&self) -> ResponseEnvelopeView {
        ResponseEnvelopeView {
            version: self.version,
            id: self.id,
            response: self.response.deep_view(),
        }
    }
}

impl Clone for ResponseEnvelope {
    fn clone(&self) -> (r: Self)
        ensures
            r.deep_view() == self.deep_view(),
    {
        ResponseEnvelope {
            version: self.version,
            id: self.id,
            response: self.response.clone(),
        }
    }
}

/// What the service tells its watchers.
#[derive(Debug, PartialEq)]
pub enum Event {
    StatusChanged(StatusSnapshot),
    ConfigChanged { revision: u64 },
    AreasChanged(Vec<EntertainmentArea>),
    PairingProgress { bridge_id: BridgeId, waiting_for_link_button: bool },
}

/// The mathematical value of [`Event`].
#[verifier::ext_equal]
pub enum EventView {
    StatusChanged(StatusSnapshotView),
    ConfigChanged { revision: u64 },
    AreasChanged(Seq<EntertainmentAreaView>),
    PairingProgress { bridge_id: Seq<char>, waiting_for_link_button: bool },
}

impl DeepView for Event {
    type V = EventView;

    open spec fn deep_view(&self) -> EventView {
        match self {
            Event::StatusChanged(value) => EventView::StatusChanged(value.deep_view()),
            Event::ConfigChanged { revision } => EventView::ConfigChanged { revision: *revision },
            Event::AreasChanged(value) => EventView::AreasChanged(value.deep_view()),
            Event::PairingProgress { bridge_id, waiting_for_link_button } => EventView::PairingProgress { bridge_id: bridge_id.deep_view(), waiting_for_link_button: *waiting_for_link_button },
        }
    }
}

impl Clone for Event {
    fn clone(&self) -> (r: Self)
        ensures
            r.deep_view() == self.deep_view(),
    {
        match self {
            Event::StatusChanged(value) => Event::StatusChanged(value.clone()),
            Event::ConfigChanged { revision } => Event::ConfigChanged { revision: *revision },
            Event::AreasChanged(value) => Event::AreasChanged(value.clone()),
            Event::PairingProgress { bridge_id, waiting_for_link_button } => Event::PairingProgress { bridge_id: bridge_id.clone(), waiting_for_link_button: *waiting_for_link_button },
        }
    }
}

/// An event with its protocol version.
#[derive(Debug, PartialEq)]
pub struct EventEnvelope {
    pub version: u32,
    pub event: Event,
}

/// The mathematical value of [`EventEnvelope`].
#[verifier::ext_equal]
pub struct EventEnvelopeView {
    pub version: u32,
    pub event: EventView,
}

impl DeepView for EventEnvelope {
    type V = EventEnvelopeView;

    open spec fn deep_view(&self) -> EventEnvelopeView {
        EventEnvelopeView {
            version: self.version,
            event: self.event.deep_view(),
        }
    }
}

impl Clone for EventEnvelope {
    fn clone(&self) -> (r: Self)
        ensures
            r.deep_view() == self.deep_view(),
    {
        EventEnvelope {
            version: self.version,
            event: self.event.clone(),
        }
    }
}

/// Why a record cannot be used.
#[derive(Debug, PartialEq, Eq)]
pub enum ProtocolError {
    /// The JSON text could not be written or read; holds what the codec says.
    Json(String),
    /// The record holds more than one line.
    MultipleRecords,
    /// The other side speaks another protocol version.
    VersionMismatch { expected: u32, received: u32 },
}

/// The mathematical value of [`ProtocolError`].
#[verifier::ext_equal]
pub enum ProtocolErrorView {
    Json(Seq<char>),
    MultipleRecords,
    VersionMismatch { expected: u32, received: u32 },
}

impl DeepView for ProtocolError {
    type V = ProtocolErrorView;

    open spec fn deep_view(&self) -> ProtocolErrorView {
        match self {
            ProtocolError::Json(reason) => ProtocolErrorView::Json(reason@),
            ProtocolError::MultipleRecords => ProtocolErrorView::MultipleRecords,
            ProtocolError::VersionMismatch { expected, received } => {
                ProtocolErrorView::VersionMismatch { expected: *expected, received: *received }
            },
        }
    }
}

/// The text that describes a protocol error.
pub open spec fn protocol_error_text(error: ProtocolErrorView) -> Seq<char> {
    match error {
        ProtocolErrorView::Json(reason) => "JSON codec error: "@ + reason,
        ProtocolErrorView::MultipleRecords => {
            "an NDJSON record must contain exactly one JSON value"@
        },
        ProtocolErrorView::VersionMismatch { expected, received } => {
            "unsupported protocol version "@ + text::decimal_text(received as nat) + "; expected "@
                + text::decimal_text(expected as nat)
        },
    }
}

impl ProtocolError {
    /// Describes the error.
    pub fn message(&self) -> (r: String)
        ensures
            r@ == protocol_error_text(self.deep_view()),
    {
        match self {
            ProtocolError::Json(reason) => text::concat("JSON codec error: ", reason.as_str()),
            ProtocolError::MultipleRecords => {
                "an NDJSON record must contain exactly one JSON value".to_owned()
            },
            ProtocolError::VersionMismatch { expected, received } => {
                let mut r: String = text::concat(
                    "unsupported protocol version ",
                    text::decimal(*received as u64).as_str(),
                );
                r.append("; expected ");
                r.append(text::decimal(*expected as u64).as_str());
                r
            },
        }
    }
}

/// What checking a protocol version gives.
pub open spec fn version_check(version: u32) -> Result<(), ProtocolError> {
    if version == PROTOCOL_VERSION {
        Ok(())
    } else {
        Err(ProtocolError::VersionMismatch { expected: PROTOCOL_VERSION, received: version })
    }
}

fn check_version(version: u32) -> (r: Result<(), ProtocolError>)
    ensures
        r == version_check(version),
{
    if version != PROTOCOL_VERSION {
        return Err(
            ProtocolError::VersionMismatch { expected: PROTOCOL_VERSION, received: version },
        );
    }
    Ok(())
}

impl RequestEnvelope {
    /// Wraps a request for this protocol version under a random identifier.
    pub fn new(request: Request) -> (r: Self)
        ensures
            r.version == PROTOCOL_VERSION,
            encoding::is_random_uuid(r.id),
            r.request == request,
    {
        RequestEnvelope { version: PROTOCOL_VERSION, id: encoding::random_uuid(), request }
    }

    /// Whether the request is of this protocol version.
    pub fn validate_version(&self) -> (r: Result<(), ProtocolError>)
        ensures
            r == version_check(self.version),
    {
        check_version(self.version)
    }
}

impl ResponseEnvelope {
    /// The response to a request that succeeded.
    pub fn success(id: u128, payload: ResponsePayload) -> (r: Self)
        ensures
            r.deep_view() == (ResponseEnvelopeView {
                version: PROTOCOL_VERSION,
                id,
                response: ResponseView::Success { payload: payload.deep_view() },
            }),
    {
        ResponseEnvelope { version: PROTOCOL_VERSION, id, response: Response::Success { payload } }
    }

    /// The response to a request that failed.
    pub fn error(id: u128, error: ActionableError) -> (r: Self)
        ensures
            r.deep_view() == (ResponseEnvelopeView {
                version: PROTOCOL_VERSION,
                id,
                response: ResponseView::Error { error: error.deep_view() },
            }),
    {
        ResponseEnvelope { version: PROTOCOL_VERSION, id, response: Response::Error { error } }
    }

    /// Whether the response is of this protocol version.
    pub fn validate_version(&self) -> (r: Result<(), ProtocolError>)
        ensures
            r == version_check(self.version),
    {
        check_version(self.version)
    }
}

impl EventEnvelope {
    /// Wraps an event for this protocol version.
    pub fn new(event: Event) -> (r: Self)
        ensures
            r.version == PROTOCOL_VERSION,
            r.event == event,
    {
        EventEnvelope { version: PROTOCOL_VERSION, event }
    }

    /// Whether the event is of this protocol version.
    pub fn validate_version(&self) -> (r: Result<(), ProtocolError>)
        ensures
            r == version_check(self.version),
    {
        check_version(self.version)
    }
}

/// A text without one given character at its end.
pub open spec fn without_suffix(s: Seq<char>, c: char) -> Seq<char> {
    if s.len() > 0 && s.last() == c {
        s.drop_last()
    } else {
        s
    }
}

/// The JSON text of a record: what is left without its line end.
pub open spec fn record_body(record: Seq<char>) -> Seq<char> {
    without_suffix(without_suffix(record, '\n'), '\r')
}

/// Whether a text holds a line break.
pub open spec fn has_line_break(s: Seq<char>) -> bool {
    s.contains('\n') || s.contains('\r')
}

/// Writes JSON text as one record: the text and a line feed.
pub fn to_ndjson(json: &str) -> (r: String)
    ensures
        r@ == json@.push('\n'),
{
    proof {
        reveal_strlit("\n");
    }
    let r: String = text::concat(json, "\n");
    assert(r@ =~= json@.push('\n'));
    r
}

/// Reads the JSON text of one record, which may end in a line feed, or in a
/// carriage return and a line feed, and holds no other line break.
pub fn from_ndjson(record: &str) -> (r: Result<&str, ProtocolError>)
    ensures
        has_line_break(record_body(record@)) ==> r == Err::<&str, ProtocolError>(
            ProtocolError::MultipleRecords,
        ),
        !has_line_break(record_body(record@)) ==> r is Ok && r->Ok_0@ == record_body(record@),
{
    let line: &str = strip_suffix(record, '\n');
    let body: &str = strip_suffix(line, '\r');
    let chars: Vec<char> = text::chars_of(body);
    let mut i: usize = 0;
    while i < chars.len()
        invariant
            i <= chars.len(),
            chars@ == record_body(record@),
            forall|j: int| 0 <= j < i ==> #[trigger] chars@[j] != '\n' && chars@[j] != '\r',
        decreases chars.len() - i,
    {
        if chars[i] == '\n' || chars[i] == '\r' {
            assert(chars@.contains(chars@[i as int]));
            return Err(ProtocolError::MultipleRecords);
        }
        i += 1;
    }
    Ok(body)
}

fn strip_suffix(s: &str, c: char) -> (r: &str)
    ensures
        r@ == without_suffix(s@, c),
{
    let n: usize = s.unicode_len();
    if n > 0 && s.get_char(n - 1) == c {
        proof {
            assert(s@.subrange(0, n - 1) =~= s@.drop_last());
        }
        s.substring_char(0, n - 1)
    } else {
        s
    }
}

/// A record gives back the JSON text that it was written from, also without its
/// final line feed and with a carriage return before it.
pub proof fn law_record_round_trip(json: Seq<char>)
    requires
        !has_line_break(json),
    ensures
        record_body(json.push('\n')) == json,
        record_body(json) == json,
        record_body(json.push('\r').push('\n')) == json,
{
    assert(json.push('\n').drop_last() =~= json);
    assert(json.push('\r').drop_last() =~= json);
    assert(json.push('\r').push('\n').drop_last() =~= json.push('\r'));
    if json.len() > 0 {
        assert(json.contains(json.last()));
    }
}

/// A record holds no line break but the one at its end.
pub proof fn law_record_is_one_line(json: Seq<char>, i: int)
    requires
        !has_line_break(json),
        0 <= i < json.push('\n').len(),
    ensures
        json.push('\n')[i] == '\n' || json.push('\n')[i] == '\r' <==> i == json.len(),
{
    if i < json.len() {
        assert(json.contains(json[i]));
    }
}

/// Two records in one text, with or without an end of the second, are refused.
pub proof fn law_two_records_are_refused(first: Seq<char>, second: Seq<char>)
    requires
        second.len() > 0,
        !has_line_break(second),
    ensures
        has_line_break(record_body(first.push('\n') + second)),
        has_line_break(record_body(first.push('\n') + second.push('\n'))),
{
    let both = first.push('\n') + second;
    assert(both.last() == second.last());
    assert(second.contains(second.last()));
    assert((first.push('\n') + second.push('\n')).drop_last() =~= both);
    assert(both[first.len() as int] == '\n');
    assert(both.contains('\n'));
}

} // verus!
