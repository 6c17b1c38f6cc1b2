//! What a client makes of responses and events, and how it watches.
use crate::domain::ipc::{
    Event, EventEnvelope, ProtocolErrorView, RequestEnvelope, Response, ResponseEnvelope,
    ResponseEnvelopeView, ResponsePayload, ResponsePayloadView, ResponseView, PROTOCOL_VERSION,
};
use crate::domain::state::{StatusSnapshot, StatusSnapshotView};
use crate::encoding;
use crate::ipc::error::{Error, ErrorView};
use crate::ipc::record::DEFAULT_MAX_RECORD_SIZE;
use crate::ipc::socket::require_absolute;
use crate::ipc::socket;
use vstd::prelude::*;

verus! {

/// How long a read, a write or a connection may take, in nanoseconds.
pub const DEFAULT_IO_TIMEOUT: u64 = 10_000_000_000;

/// How a client reaches the service. Times are in nanoseconds.
#[derive(Debug, PartialEq, Eq)]
pub struct Client {
    socket_path: Vec<u8>,
    max_record_size: usize,
    io_timeout: u64,
}

/// The mathematical value of [`Client`].
#[verifier::ext_equal]
pub struct ClientView {
    pub socket_path: Seq<u8>,
    pub max_record_size: usize,
    pub io_timeout: u64,
}

impl DeepView for Client {
    type V = ClientView;

    closed spec fn deep_view(&self) -> ClientView {
        ClientView {
            socket_path: self.socket_path@,
            max_record_size: self.max_record_size,
            io_timeout: self.io_timeout,
        }
    }
}

impl Client {
    /// A client for an absolute path, with the usual limits.
    pub fn with_socket_path(path: Vec<u8>) -> (r: Result<Self, Error>)
        ensures
            r is Ok <==> socket::is_absolute(path@),
            r matches Ok(client) ==> client.deep_view() == (ClientView {
                socket_path: path@,
                max_record_size: DEFAULT_MAX_RECORD_SIZE,
                io_timeout: DEFAULT_IO_TIMEOUT,
            }),
            r matches Err(error) ==> error.deep_view() == ErrorView::RelativePath(path@),
    {
        match require_absolute(path.as_slice()) {
            Ok(()) => Ok(
                Client {
                    socket_path: path,
                    max_record_size: DEFAULT_MAX_RECORD_SIZE,
                    io_timeout: DEFAULT_IO_TIMEOUT,
                },
            ),
            Err(error) => Err(error),
        }
    }

    /// The path of the socket.
    pub fn socket_path(&self) -> (r: &[u8])
        ensures
            r@ == self.deep_view().socket_path,
    {
        self.socket_path.as_slice()
    }

    /// The longest record that is accepted.
    pub fn max_record_size(&self) -> (r: usize)
        ensures
            r == self.deep_view().max_record_size,
    {
        self.max_record_size
    }

    /// How long an operation may take.
    pub fn io_timeout(&self) -> (r: u64)
        ensures
            r == self.deep_view().io_timeout,
    {
        self.io_timeout
    }

    /// Sets the longest record that is accepted.
    pub fn set_max_record_size(&mut self, max_record_size: usize)
        ensures
            final(self).deep_view() == (ClientView { max_record_size, ..old(self).deep_view() }),
    {
        self.max_record_size = max_record_size;
    }

    /// Sets how long an operation may take.
    pub fn set_io_timeout(&mut self, io_timeout: u64)
        ensures
            final(self).deep_view() == (ClientView { io_timeout, ..old(self).deep_view() }),
    {
        self.io_timeout = io_timeout;
    }
}

/// A request that the service accepts is of its protocol version.
pub fn check_request(request: RequestEnvelope) -> (r: Result<RequestEnvelope, Error>)
    ensures
        r is Ok <==> request.version == PROTOCOL_VERSION,
        r matches Ok(accepted) ==> accepted == request,
        r matches Err(error) ==> error.deep_view() == version_mismatch(request.version),
{
    match request.validate_version() {
        Ok(()) => Ok(request),
        Err(error) => Err(Error::Protocol(error)),
    }
}

/// The error of another protocol version.
pub open spec fn version_mismatch(version: u32) -> ErrorView {
    ErrorView::Protocol(
        ProtocolErrorView::VersionMismatch { expected: PROTOCOL_VERSION, received: version },
    )
}

/// What is wrong with a response to a request, if anything is: the version
/// first, then the identifier.
pub open spec fn response_problem(request_id: u128, response: ResponseEnvelopeView) -> Option<
    ErrorView,
> {
    if response.version != PROTOCOL_VERSION {
        Some(version_mismatch(response.version))
    } else if response.id != request_id {
        Some(
            ErrorView::IdMismatch {
                expected: encoding::uuid_text(request_id),
                received: encoding::uuid_text(response.id),
            },
        )
    } else {
        None
    }
}

/// A response counts only for the request that it names.
pub fn check_response(request_id: u128, response: ResponseEnvelope) -> (r: Result<
    ResponseEnvelope,
    Error,
>)
    ensures
        r is Ok <==> response_problem(request_id, response.deep_view()) is None,
        r matches Ok(accepted) ==> accepted == response,
        r matches Err(error) ==> Some(error.deep_view()) == response_problem(
            request_id,
            response.deep_view(),
        ),
{
    match response.validate_version() {
        Ok(()) => {},
        Err(error) => return Err(Error::Protocol(error)),
    }
    if response.id != request_id {
        return Err(
            Error::IdMismatch {
                expected: encoding::format_uuid(request_id),
                received: encoding::format_uuid(response.id),
            },
        );
    }
    Ok(response)
}

/// The payload of a response, or the error that the service reports.
pub fn response_payload(response: ResponseEnvelope) -> (r: Result<ResponsePayload, Error>)
    ensures
        response.response matches Response::Success { payload } ==> r == Ok::<
            ResponsePayload,
            Error,
        >(payload),
        response.response matches Response::Error { error } ==> r == Err::<ResponsePayload, Error>(
            Error::Remote(error),
        ),
{
    match response.response {
        Response::Success { payload } => Ok(payload),
        Response::Error { error } => Err(Error::Remote(error)),
    }
}

/// What the response to a request to watch comes to: a first status, none yet,
/// or an error.
pub open spec fn watch_start(request_id: u128, response: ResponseEnvelopeView) -> Result<
    Option<StatusSnapshotView>,
    ErrorView,
> {
    match response_problem(request_id, response) {
        Some(error) => Err(error),
        None => match response.response {
            ResponseView::Success { payload: ResponsePayloadView::Acknowledged } => Ok(None),
            ResponseView::Success { payload: ResponsePayloadView::Status(status) } => Ok(
                Some(status),
            ),
            ResponseView::Success { .. } => Err(ErrorView::UnexpectedWatchResponse),
            ResponseView::Error { error } => Err(ErrorView::Remote(error)),
        },
    }
}

/// Reads the response to a request to watch.
pub fn accept_watch(request_id: u128, response: ResponseEnvelope) -> (r: Result<
    Option<StatusSnapshot>,
    Error,
>)
    ensures
        r is Ok <==> watch_start(request_id, response.deep_view()) is Ok,
        r matches Ok(status) ==> status.deep_view() == watch_start(
            request_id,
            response.deep_view(),
        )->Ok_0,
        r matches Err(error) ==> error.deep_view() == watch_start(
            request_id,
            response.deep_view(),
        )->Err_0,
{
    let response: ResponseEnvelope = match check_response(request_id, response) {
        Ok(response) => response,
        Err(error) => return Err(error),
    };
    match response.response {
        Response::Success { payload: ResponsePayload::Acknowledged } => Ok(None),
        Response::Success { payload: ResponsePayload::Status(status) } => Ok(Some(status)),
        Response::Success { .. } => Err(Error::UnexpectedWatchResponse),
        Response::Error { error } => Err(Error::Remote(error)),
    }
}

/// The status that an event brings to a watcher, if it brings one.
pub fn accept_event(event: EventEnvelope) -> (r: Result<Option<StatusSnapshot>, Error>)
    ensures
        r is Ok <==> event.version == PROTOCOL_VERSION,
        r matches Ok(status) ==> status == match event.event {
            Event::StatusChanged(status) => Some(status),
            _ => None,
        },
        r matches Err(error) ==> error.deep_view() == version_mismatch(event.version),
{
    match event.validate_version() {
        Ok(()) => {},
        Err(error) => return Err(Error::Protocol(error)),
    }
    match event.event {
        Event::StatusChanged(status) => Ok(Some(status)),
        _ => Ok(None),
    }
}

/// How a watcher reconnects. Times are in nanoseconds.
#[derive(Clone, Copy, Debug, PartialEq, Eq, Structural)]
pub struct WatchOptions {
    pub initial_backoff: u64,
    pub max_backoff: u64,
    pub channel_capacity: usize,
}

impl Default for WatchOptions {
    fn default() -> (r: Self)
        ensures
            r == (WatchOptions {
                initial_backoff: 100_000_000,
                max_backoff: 5_000_000_000,
                channel_capacity: 16,
            }),
    {
        WatchOptions {
            initial_backoff: 100_000_000,
            max_backoff: 5_000_000_000,
            channel_capacity: 16,
        }
    }
}

/// The shortest time between two connections.
pub const MIN_BACKOFF: u64 = 1_000_000;

/// The larger of two numbers.
pub open spec fn larger(a: u64, b: u64) -> u64 {
    if a < b {
        b
    } else {
        a
    }
}

/// The time before the first reconnection.
pub open spec fn first_delay(options: WatchOptions) -> u64 {
    larger(options.initial_backoff, MIN_BACKOFF)
}

/// The longest time before a reconnection.
pub open spec fn longest_delay(options: WatchOptions) -> u64 {
    larger(options.max_backoff, first_delay(options))
}

/// What a watcher does after a session ended.
#[derive(Debug)]
pub enum WatchStep {
    /// Ends.
    Stop,
    /// Reports an error if there is one, waits, and connects again.
    Reconnect { report: Option<Error>, delay: u64 },
}

/// The reconnecting of a watcher.
#[derive(Clone, Copy, Debug)]
pub struct Watcher {
    delay: u64,
    maximum: u64,
}

impl Watcher {
    /// The time before the next reconnection.
    pub closed spec fn delay(self) -> u64 {
        self.delay
    }

    /// The longest time before a reconnection.
    pub closed spec fn maximum(self) -> u64 {
        self.maximum
    }

    #[verifier::type_invariant]
    spec fn ordered(self) -> bool {
        0 < self.delay <= self.maximum
    }

    /// A watcher that has not reconnected yet.
    pub fn new(options: WatchOptions) -> (r: Self)
        ensures
            r.delay() == first_delay(options),
            r.maximum() == longest_delay(options),
    {
        let initial: u64 = if options.initial_backoff < MIN_BACKOFF {
            MIN_BACKOFF
        } else {
            options.initial_backoff
        };
        let maximum: u64 = if options.max_backoff < initial {
            initial
        } else {
            options.max_backoff
        };
        Watcher { delay: initial, maximum }
    }

    /// How many errors may wait to be read.
    pub fn error_capacity(options: &WatchOptions) -> (r: usize)
        ensures
            r == if options.channel_capacity == 0 {
                1
            } else {
                options.channel_capacity
            },
    {
        if options.channel_capacity == 0 {
            1
        } else {
            options.channel_capacity
        }
    }

    /// Goes on after a session; the delay doubles up to its maximum.
    pub fn after_session(&mut self, result: Result<(), Error>, stopped: bool) -> (r: WatchStep)
        ensures
            stopped ==> r == WatchStep::Stop && *final(self) == *old(self),
            !stopped ==> {
                &&& r == (WatchStep::Reconnect {
                    report: match result {
                        Ok(()) => None,
                        Err(error) => Some(error),
                    },
                    delay: old(self).delay(),
                })
                &&& final(self).delay() == doubled(old(self).delay(), old(self).maximum())
                &&& final(self).maximum() == old(self).maximum()
            },
    {
        proof {
            use_type_invariant(&*self);
        }
        if stopped {
            return WatchStep::Stop;
        }
        let delay: u64 = self.delay;
        let maximum: u64 = self.maximum;
        let next: u64 = if delay > maximum / 2 {
            maximum
        } else {
            delay * 2
        };
        *self = Watcher { delay: next, maximum };
        match result {
            Ok(()) => WatchStep::Reconnect { report: None, delay },
            Err(error) => WatchStep::Reconnect { report: Some(error), delay },
        }
    }
}

/// Twice a delay, but not more than the maximum.
pub open spec fn doubled(delay: u64, maximum: u64) -> u64 {
    if 2 * delay > maximum {
        maximum
    } else {
        (2 * delay) as u64
    }
}

/// The delay after `n` sessions.
pub open spec fn delay_after(delay: u64, maximum: u64, n: nat) -> u64
    decreases n,
{
    if n == 0 {
        delay
    } else {
        doubled(delay_after(delay, maximum, (n - 1) as nat), maximum)
    }
}

/// After `n` sessions the delay is the first one times two to the `n`, but
/// never more than the maximum.
pub proof fn law_delay_grows_to_its_maximum(delay: u64, maximum: u64, n: nat)
    requires
        0 < delay <= maximum,
    ensures
        ({
            let grown = delay * vstd::arithmetic::power2::pow2(n);
            delay_after(delay, maximum, n) == if grown > maximum {
                maximum as int
            } else {
                grown
            }
        }),
        delay <= delay_after(delay, maximum, n) <= maximum,
    decreases n,
{
    if n == 0 {
        vstd::arithmetic::power2::lemma2_to64();
    } else {
        let m = (n - 1) as nat;
        law_delay_grows_to_its_maximum(delay, maximum, m);
        vstd::arithmetic::power2::lemma_pow2_unfold(n);
        let p = vstd::arithmetic::power2::pow2(m);
        assert(delay * (2 * p) == 2 * (delay * p)) by (nonlinear_arith);
        vstd::arithmetic::power2::lemma_pow2_pos(n);
        assert(delay * vstd::arithmetic::power2::pow2(n) >= delay) by (nonlinear_arith)
            requires
                delay > 0,
                vstd::arithmetic::power2::pow2(n) >= 1,
        ;
    }
}

} // verus!
