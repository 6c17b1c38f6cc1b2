//! Requests to a bridge, what their responses mean, and when they are tried again.
use crate::encoding;
use crate::hue::bridge::{hue_error, HueError};
use crate::hue::light::{LightRestore, LightRestoreView, LightState, LightStateView};
use crate::text;
use vstd::prelude::*;

verus! {

/// How often a request that may be repeated is tried.
pub const SAFE_ATTEMPTS: usize = 3;

/// How long a request may take, in seconds.
pub const REQUEST_TIMEOUT_SECONDS: u64 = 10;

/// The name under which this application registers.
pub const DEVICE_TYPE: &'static str = "omarchy-lightsync#desktop";

/// What a request does.
#[derive(Clone, Copy, Debug, PartialEq, Eq, Structural)]
pub enum ControlMethod {
    Get,
    Post,
    Put,
}

/// What a request carries.
#[derive(Debug, PartialEq)]
pub enum RequestBody {
    /// Registers this application.
    Register { device_type: String, generate_client_key: bool },
    /// Starts or stops an area.
    Action(String),
    /// Sets a light.
    Light(LightState),
}

/// The mathematical value of [`RequestBody`].
#[verifier::ext_equal]
pub enum RequestBodyView {
    Register { device_type: Seq<char>, generate_client_key: bool },
    Action(Seq<char>),
    Light(LightStateView),
}

impl DeepView for RequestBody {
    type V = RequestBodyView;

    open spec fn deep_view(&self) -> RequestBodyView {
        match self {
            RequestBody::Register { device_type, generate_client_key } => RequestBodyView::Register { device_type: device_type.deep_view(), generate_client_key: *generate_client_key },
            RequestBody::Action(value) => RequestBodyView::Action(value.deep_view()),
            RequestBody::Light(value) => RequestBodyView::Light(value.deep_view()),
        }
    }
}

impl Clone for RequestBody {
    fn clone(&self) -> (r: Self)
        ensures
            r.deep_view() == self.deep_view(),
    {
        match self {
            RequestBody::Register { device_type, generate_client_key } => RequestBody::Register { device_type: device_type.clone(), generate_client_key: *generate_client_key },
            RequestBody::Action(value) => RequestBody::Action(value.clone()),
            RequestBody::Light(value) => RequestBody::Light(value.clone()),
        }
    }
}

/// The key that a request carries, if it carries one. The type has no `Debug`.
#[derive(PartialEq, Eq)]
pub struct RequestKey {
    value: Option<String>,
}

impl DeepView for RequestKey {
    type V = Option<Seq<char>>;

    closed spec fn deep_view(&self) -> Option<Seq<char>> {
        self.value.deep_view()
    }
}

impl Clone for RequestKey {
    fn clone(&self) -> (r: Self)
        ensures
            r.deep_view() == self.deep_view(),
    {
        RequestKey { value: self.value.clone() }
    }
}

impl RequestKey {
    fn none() -> (r: Self)
        ensures
            r.deep_view() == None::<Seq<char>>,
    {
        RequestKey { value: None }
    }

    fn of(key: &str) -> (r: Self)
        ensures
            r.deep_view() == Some(key@),
    {
        RequestKey { value: Some(key.to_owned()) }
    }
}

/// A request to a bridge. The type has no `Debug`, since it carries a key.
#[derive(PartialEq)]
pub struct ControlRequest {
    pub method: ControlMethod,
    pub path: String,
    pub key: RequestKey,
    pub body: Option<RequestBody>,
}

/// The mathematical value of [`ControlRequest`].
#[verifier::ext_equal]
pub struct ControlRequestView {
    pub method: ControlMethod,
    pub path: Seq<char>,
    pub application_key: Option<Seq<char>>,
    pub body: Option<RequestBodyView>,
}

impl DeepView for ControlRequest {
    type V = ControlRequestView;

    open spec fn deep_view(&self) -> ControlRequestView {
        ControlRequestView {
            method: self.method,
            path: self.path@,
            application_key: self.key.deep_view(),
            body: self.body.deep_view(),
        }
    }
}

impl Clone for ControlRequest {
    fn clone(&self) -> (r: Self)
        ensures
            r.deep_view() == self.deep_view(),
    {
        ControlRequest {
            method: self.method,
            path: self.path.clone(),
            key: self.key.clone(),
            body: self.body.clone(),
        }
    }
}

/// The path of the resources of a kind.
pub open spec fn resources_path(kind: Seq<char>) -> Seq<char> {
    "/clip/v2/resource/"@ + kind
}

/// The path of one resource.
pub open spec fn resource_path(kind: Seq<char>, id: Seq<char>) -> Seq<char> {
    "/clip/v2/resource/"@ + kind + "/"@ + id
}

/// A request that reads a path.
pub open spec fn get_view(path: Seq<char>, key: Seq<char>) -> ControlRequestView {
    ControlRequestView {
        method: ControlMethod::Get,
        path,
        application_key: Some(key),
        body: None,
    }
}

/// A request that puts a light back.
pub open spec fn restore_view(light: LightRestoreView, key: Seq<char>) -> ControlRequestView {
    ControlRequestView {
        method: ControlMethod::Put,
        path: resource_path("light"@, light.id),
        application_key: Some(key),
        body: Some(RequestBodyView::Light(light.state)),
    }
}

impl ControlRequest {
    /// The key that the request carries.
    pub fn application_key(&self) -> (r: Option<&str>)
        ensures
            match (r, self.deep_view().application_key) {
                (Some(key), Some(expected)) => key@ == expected,
                (None, None) => true,
                _ => false,
            },
    {
        match &self.key.value {
            Some(key) => Some(key.as_str()),
            None => None,
        }
    }

    /// Registers this application. The request is never repeated by itself: each
    /// registration can hand out keys.
    pub fn pairing() -> (r: Self)
        ensures
            r.deep_view() == (ControlRequestView {
                method: ControlMethod::Post,
                path: "/api"@,
                application_key: None,
                body: Some(
                    RequestBodyView::Register {
                        device_type: DEVICE_TYPE@,
                        generate_client_key: true,
                    },
                ),
            }),
    {
        ControlRequest {
            method: ControlMethod::Post,
            path: "/api".to_owned(),
            key: RequestKey::none(),
            body: Some(
                RequestBody::Register {
                    device_type: DEVICE_TYPE.to_owned(),
                    generate_client_key: true,
                },
            ),
        }
    }

    /// Reads the resources of a kind.
    pub fn resources(kind: &str, key: &str) -> (r: Self)
        ensures
            r.deep_view() == get_view(resources_path(kind@), key@),
    {
        ControlRequest {
            method: ControlMethod::Get,
            path: text::concat("/clip/v2/resource/", kind),
            key: RequestKey::of(key),
            body: None,
        }
    }

    /// Reads an area.
    pub fn area(area_id: &str, key: &str) -> (r: Result<Self, HueError>)
        ensures
            r is Ok <==> encoding::uuid_value(area_id@) is Some,
            r matches Ok(request) ==> request.deep_view() == get_view(
                resource_path("entertainment_configuration"@, area_id@),
                key@,
            ),
            r matches Err(error) ==> error@ == "Hue resource ID is not a UUID"@,
    {
        match validate_resource_id(area_id) {
            Ok(()) => Ok(
                ControlRequest {
                    method: ControlMethod::Get,
                    path: one_resource("entertainment_configuration", area_id),
                    key: RequestKey::of(key),
                    body: None,
                },
            ),
            Err(error) => Err(error),
        }
    }

    /// Starts or stops an area.
    pub fn area_action(area_id: &str, key: &str, action: &str) -> (r: Result<Self, HueError>)
        ensures
            r is Ok <==> encoding::uuid_value(area_id@) is Some,
            r matches Ok(request) ==> request.deep_view() == (ControlRequestView {
                method: ControlMethod::Put,
                path: resource_path("entertainment_configuration"@, area_id@),
                application_key: Some(key@),
                body: Some(RequestBodyView::Action(action@)),
            }),
            r matches Err(error) ==> error@ == "Hue resource ID is not a UUID"@,
    {
        match validate_resource_id(area_id) {
            Ok(()) => Ok(
                ControlRequest {
                    method: ControlMethod::Put,
                    path: one_resource("entertainment_configuration", area_id),
                    key: RequestKey::of(key),
                    body: Some(RequestBody::Action(action.to_owned())),
                },
            ),
            Err(error) => Err(error),
        }
    }

    /// Puts a light back.
    pub fn restore_light(light: LightRestore, key: &str) -> (r: Self)
        ensures
            r.deep_view() == restore_view(light.deep_view(), key@),
    {
        ControlRequest {
            method: ControlMethod::Put,
            path: one_resource("light", light.id.as_str()),
            key: RequestKey::of(key),
            body: Some(RequestBody::Light(light.state)),
        }
    }
}

fn one_resource(kind: &str, id: &str) -> (r: String)
    ensures
        r@ == resource_path(kind@, id@),
{
    let mut r: String = text::concat3("/clip/v2/resource/", kind, "/");
    r.append(id);
    r
}

fn validate_resource_id(id: &str) -> (r: Result<(), HueError>)
    ensures
        r is Ok <==> encoding::uuid_value(id@) is Some,
        r matches Err(error) ==> error@ == "Hue resource ID is not a UUID"@,
{
    match encoding::parse_uuid(id) {
        Ok(_) => Ok(()),
        Err(_) => Err(hue_error("Hue resource ID is not a UUID")),
    }
}

/// Whether a path may be sent to a bridge: it begins with a slash and holds no
/// two dots in a row.
pub open spec fn valid_path(path: Seq<char>) -> bool {
    &&& path.len() > 0
    &&& path[0] == '/'
    &&& forall|i: int| 0 <= i < path.len() - 1 ==> !double_dot(path, i)
}

/// Whether two dots stand at a place of a text.
pub open spec fn double_dot(path: Seq<char>, i: int) -> bool {
    path[i] == '.' && path[i + 1] == '.'
}

/// Refuses a path that may not be sent to a bridge.
pub fn check_path(path: &str) -> (r: Result<(), HueError>)
    ensures
        r is Ok <==> valid_path(path@),
        r matches Err(error) ==> error@ == "invalid Hue API path"@,
{
    let chars: Vec<char> = text::chars_of(path);
    if chars.len() == 0 || chars[0] != '/' {
        return Err(hue_error("invalid Hue API path"));
    }
    let mut i: usize = 0;
    while i < chars.len() - 1
        invariant
            i <= chars.len() - 1,
            chars@ == path@,
            chars@.len() > 0,
            chars@[0] == '/',
            forall|j: int| 0 <= j < i ==> !double_dot(path@, j),
        decreases chars.len() - i,
    {
        if chars[i] == '.' && chars[i + 1] == '.' {
            assert(double_dot(path@, i as int));
            return Err(hue_error("invalid Hue API path"));
        }
        i += 1;
    }
    Ok(())
}

/// A response of a bridge.
#[derive(Debug, PartialEq, Eq)]
pub struct ControlResponse<B> {
    pub status: u16,
    pub body: B,
}

/// The text of a response with a status that is not a success.
pub open spec fn http_problem(operation: Seq<char>, status: u16) -> Seq<char> {
    "Hue "@ + operation + " failed with HTTP status "@ + text::decimal_text(status as nat)
}

/// Refuses a response whose status is not a success.
pub fn ensure_http_success(status: u16, operation: &str) -> (r: Result<(), HueError>)
    ensures
        r is Ok <==> 200 <= status < 300,
        r matches Err(error) ==> error@ == http_problem(operation@, status),
{
    if 200 <= status && status < 300 {
        return Ok(());
    }
    let mut message: String = text::concat3("Hue ", operation, " failed with HTTP status ");
    message.append(text::decimal(status as u64).as_str());
    Err(HueError::new(message))
}

/// Refuses a response to a read: a revoked authorization is told apart.
pub fn check_read(status: u16) -> (r: Result<(), HueError>)
    ensures
        r is Ok <==> 200 <= status < 300,
        r matches Err(error) ==> error@ == if status == 403 {
            "Hue authorization was revoked; pair the bridge again"@
        } else {
            http_problem("resource request"@, status)
        },
{
    if status == 403 {
        return Err(hue_error("Hue authorization was revoked; pair the bridge again"));
    }
    ensure_http_success(status, "resource request")
}

/// The resources of a response, if the bridge reports no errors with them.
pub fn clip_data<T>(errors: usize, data: Vec<T>, operation: &str) -> (r: Result<Vec<T>, HueError>)
    ensures
        errors == 0 ==> r == Ok::<Vec<T>, HueError>(data),
        errors > 0 ==> r is Err && r->Err_0@ == operation@ + " failed with "@ + text::decimal_text(
            errors as nat,
        ) + " Hue API error(s)"@,
{
    if errors > 0 {
        let mut message: String = text::concat(operation, " failed with ");
        message.append(text::decimal(errors as u64).as_str());
        message.append(" Hue API error(s)");
        return Err(HueError::new(message));
    }
    Ok(data)
}

/// Whether a status asks for another try.
pub open spec fn is_transient(status: u16) -> bool {
    status == 429 || status == 502 || status == 503 || status == 504
}

/// What follows a try.
pub enum SafeStep<B> {
    /// Wait this many milliseconds and try again.
    Retry { delay: u64 },
    /// It is settled.
    Done(Result<ControlResponse<B>, HueError>),
}

/// What a request comes to after its tries: the first response that does not
/// ask for another try; else the last response, else the last error.
pub open spec fn settled<B>(tries: Seq<Result<ControlResponse<B>, HueError>>) -> Result<
    ControlResponse<B>,
    HueError,
> {
    if final_try(tries) {
        tries.last()
    } else {
        match last_response(tries) {
            Some(response) => Ok(response),
            None => tries.last(),
        }
    }
}

/// Whether the last try was answered with a status that needs no other.
pub open spec fn final_try<B>(tries: Seq<Result<ControlResponse<B>, HueError>>) -> bool {
    &&& tries.len() > 0
    &&& tries.last() matches Ok(response)
    &&& !is_transient(response.status)
}

/// The last response among the tries.
pub open spec fn last_response<B>(tries: Seq<Result<ControlResponse<B>, HueError>>) -> Option<
    ControlResponse<B>,
>
    decreases tries.len(),
{
    if tries.len() == 0 {
        None
    } else {
        match tries.last() {
            Ok(response) => Some(response),
            Err(_) => last_response(tries.drop_last()),
        }
    }
}

/// A request that may be repeated, and what its tries came to so far.
pub struct SafeRequest<B> {
    tries: Vec<Result<ControlResponse<B>, HueError>>,
}

impl<B> SafeRequest<B> {
    /// What the tries came to so far.
    pub closed spec fn tries(&self) -> Seq<Result<ControlResponse<B>, HueError>> {
        self.tries@
    }

    #[verifier::type_invariant]
    spec fn unsettled(&self) -> bool {
        self.tries@.len() < SAFE_ATTEMPTS
    }

    /// A request before its first try.
    pub fn new() -> (r: Self)
        ensures
            r.tries() == Seq::<Result<ControlResponse<B>, HueError>>::empty(),
    {
        SafeRequest { tries: Vec::new() }
    }

    /// Takes what a try came to. A response that does not ask for another try
    /// settles the request at once, and the third try does in any case; after
    /// that it stands as before its first try.
    pub fn record(&mut self, outcome: Result<ControlResponse<B>, HueError>) -> (r: SafeStep<B>)
        ensures
            ({
                let all = old(self).tries().push(outcome);
                if final_try(all) || all.len() == SAFE_ATTEMPTS {
                    &&& r == SafeStep::Done(settled(all))
                    &&& final(self).tries().len() == 0
                } else {
                    &&& r == (SafeStep::<B>::Retry { delay: (150 * all.len()) as u64 })
                    &&& final(self).tries() == all
                    &&& all.len() < SAFE_ATTEMPTS
                }
            }),
    {
        proof {
            use_type_invariant(&*self);
        }
        let mut tries: Vec<Result<ControlResponse<B>, HueError>> = Vec::new();
        std::mem::swap(&mut tries, &mut self.tries);
        let settles: bool = match &outcome {
            Ok(response) => !(response.status == 429 || response.status == 502 || response.status
                == 503 || response.status == 504),
            Err(_) => false,
        };
        let ghost all = tries@.push(outcome);
        if settles {
            return SafeStep::Done(outcome);
        }
        tries.push(outcome);
        let attempts: usize = tries.len();
        if attempts < SAFE_ATTEMPTS {
            self.tries = tries;
            SafeStep::Retry { delay: 150 * (attempts as u64) }
        } else {
            SafeStep::Done(settle(tries))
        }
    }
}

fn settle<B>(tries: Vec<Result<ControlResponse<B>, HueError>>) -> (r: Result<
    ControlResponse<B>,
    HueError,
>)
    requires
        tries@.len() > 0,
        !final_try(tries@),
    ensures
        r == settled(tries@),
{
    let mut rest: Vec<Result<ControlResponse<B>, HueError>> = tries;
    let ghost all = rest@;
    let last: Result<ControlResponse<B>, HueError> = rest.pop().unwrap();
    if last.is_ok() {
        return last;
    }
    while rest.len() > 0
        invariant
            all == tries@,
            !final_try(all),
            last_response(all) == last_response(rest@),
        decreases rest.len(),
    {
        match rest.pop() {
            Some(Ok(response)) => {
                return Ok(response);
            },
            _ => {},
        }
    }
    last
}

/// A response is preferred to an error: where any try was answered, the request
/// comes to a response.
pub proof fn law_response_wins_over_error<B>(
    tries: Seq<Result<ControlResponse<B>, HueError>>,
    i: int,
)
    requires
        0 <= i < tries.len(),
        tries[i] is Ok,
    ensures
        settled(tries) is Ok,
    decreases tries.len(),
{
    if tries.last() is Err {
        let shorter = tries.drop_last();
        assert(shorter[i] is Ok);
        law_response_wins_over_error(shorter, i);
    }
}

} // verus!
