//! What can go wrong between a client and the service.
use crate::domain::ipc::{ProtocolError, ProtocolErrorView};
use crate::domain::ipc;
use crate::domain::state::{ActionableError, ActionableErrorView};
use crate::encoding;
use crate::text;
use vstd::prelude::*;

verus! {

/// What kind of input or output error happened.
#[derive(Clone, Copy, Debug, PartialEq, Eq, Structural)]
pub enum IoKind {
    NotFound,
    AddrInUse,
    InvalidData,
    Other,
}

impl DeepView for IoKind {
    type V = IoKind;

    open spec fn deep_view(&self) -> IoKind {
        *self
    }
}

/// An input or output error.
#[derive(Debug, PartialEq, Eq)]
pub struct IoFailure {
    pub kind: IoKind,
    pub message: String,
}

/// The mathematical value of [`IoFailure`].
#[verifier::ext_equal]
pub struct IoFailureView {
    pub kind: IoKind,
    pub message: Seq<char>,
}

impl DeepView for IoFailure {
    type V = IoFailureView;

    open spec fn deep_view(&self) -> IoFailureView {
        IoFailureView {
            kind: self.kind,
            message: self.message.deep_view(),
        }
    }
}

impl Clone for IoFailure {
    fn clone(&self) -> (r: Self)
        ensures
            r.deep_view() == self.deep_view(),
    {
        IoFailure {
            kind: self.kind,
            message: self.message.clone(),
        }
    }
}

/// What can go wrong between a client and the service; paths are held as their bytes.
#[derive(Debug, PartialEq, Eq)]
pub enum Error {
    RuntimeDirMissing,
    RelativePath(Vec<u8>),
    Symlink(Vec<u8>),
    NotDirectory(Vec<u8>),
    NotSocket(Vec<u8>),
    /// Holds the time in nanoseconds.
    Timeout(u64),
    UnexpectedEof,
    RecordTooLarge { limit: usize },
    IdMismatch { expected: String, received: String },
    UnexpectedWatchResponse,
    Remote(ActionableError),
    Protocol(ProtocolError),
    Io(IoFailure),
}

/// The mathematical value of [`Error`].
#[verifier::ext_equal]
pub enum ErrorView {
    RuntimeDirMissing,
    RelativePath(Seq<u8>),
    Symlink(Seq<u8>),
    NotDirectory(Seq<u8>),
    NotSocket(Seq<u8>),
    Timeout(u64),
    UnexpectedEof,
    RecordTooLarge { limit: usize },
    IdMismatch { expected: Seq<char>, received: Seq<char> },
    UnexpectedWatchResponse,
    Remote(ActionableErrorView),
    Protocol(ProtocolErrorView),
    Io(IoFailureView),
}

impl DeepView for Error {
    type V = ErrorView;

    open spec fn deep_view(&self) -> ErrorView {
        match self {
            Error::RuntimeDirMissing => ErrorView::RuntimeDirMissing,
            Error::RelativePath(value) => ErrorView::RelativePath(value.deep_view()),
            Error::Symlink(value) => ErrorView::Symlink(value.deep_view()),
            Error::NotDirectory(value) => ErrorView::NotDirectory(value.deep_view()),
            Error::NotSocket(value) => ErrorView::NotSocket(value.deep_view()),
            Error::Timeout(value) => ErrorView::Timeout(*value),
            Error::UnexpectedEof => ErrorView::UnexpectedEof,
            Error::RecordTooLarge { limit } => ErrorView::RecordTooLarge { limit: *limit },
            Error::IdMismatch { expected, received } => ErrorView::IdMismatch { expected: expected.deep_view(), received: received.deep_view() },
            Error::UnexpectedWatchResponse => ErrorView::UnexpectedWatchResponse,
            Error::Remote(value) => ErrorView::Remote(value.deep_view()),
            Error::Protocol(value) => ErrorView::Protocol(value.deep_view()),
            Error::Io(value) => ErrorView::Io(value.deep_view()),
        }
    }
}

/// The text that describes an error.
pub open spec fn error_text(error: ErrorView) -> Seq<char> {
    match error {
        ErrorView::RuntimeDirMissing => "XDG_RUNTIME_DIR is not set"@,
        ErrorView::RelativePath(path) => "runtime or socket path must be absolute: "@
            + encoding::lossy_text(path),
        ErrorView::Symlink(path) => "refusing symlink path: "@ + encoding::lossy_text(path),
        ErrorView::NotDirectory(path) => "path is not a directory: "@ + encoding::lossy_text(path),
        ErrorView::NotSocket(path) => "path is not a Unix socket: "@ + encoding::lossy_text(path),
        ErrorView::Timeout(nanos) => "I/O timed out after "@ + encoding::duration_text(nanos),
        ErrorView::UnexpectedEof => "peer closed the connection before completing a record"@,
        ErrorView::RecordTooLarge { limit } => "record exceeds the "@ + text::decimal_text(
            limit as nat,
        ) + "-byte limit"@,
        ErrorView::IdMismatch { expected, received } => "response ID mismatch: expected "@
            + expected + ", received "@ + received,
        ErrorView::UnexpectedWatchResponse => "unexpected watch response payload"@,
        ErrorView::Remote(error) => "daemon error: "@ + error.message,
        ErrorView::Protocol(error) => ipc::protocol_error_text(error),
        ErrorView::Io(failure) => failure.message,
    }
}

impl Error {
    /// Describes the error.
    pub fn message(&self) -> (r: String)
        ensures
            r@ == error_text(self.deep_view()),
    {
        match self {
            Error::RuntimeDirMissing => "XDG_RUNTIME_DIR is not set".to_owned(),
            Error::RelativePath(path) => with_path(
                "runtime or socket path must be absolute: ",
                path,
            ),
            Error::Symlink(path) => with_path("refusing symlink path: ", path),
            Error::NotDirectory(path) => with_path("path is not a directory: ", path),
            Error::NotSocket(path) => with_path("path is not a Unix socket: ", path),
            Error::Timeout(nanos) => text::concat(
                "I/O timed out after ",
                encoding::format_duration(*nanos).as_str(),
            ),
            Error::UnexpectedEof => {
                "peer closed the connection before completing a record".to_owned()
            },
            Error::RecordTooLarge { limit } => text::concat3(
                "record exceeds the ",
                text::decimal(*limit as u64).as_str(),
                "-byte limit",
            ),
            Error::IdMismatch { expected, received } => {
                let mut r: String = text::concat3(
                    "response ID mismatch: expected ",
                    expected.as_str(),
                    ", received ",
                );
                r.append(received.as_str());
                r
            },
            Error::UnexpectedWatchResponse => "unexpected watch response payload".to_owned(),
            Error::Remote(error) => text::concat("daemon error: ", error.message.as_str()),
            Error::Protocol(error) => error.message(),
            Error::Io(failure) => failure.message.clone(),
        }
    }
}

fn with_path(prefix: &str, path: &Vec<u8>) -> (r: String)
    ensures
        r@ == prefix@ + encoding::lossy_text(path.deep_view()),
{
    assert(path.deep_view() =~= path@);
    text::concat(prefix, encoding::decode_lossy(path.as_slice()).as_str())
}

} // verus!
