use lightsync::domain::ipc::{
    Event, EventEnvelope, ProtocolError, Request, RequestEnvelope, ResponseEnvelope,
    ResponsePayload,
};
use lightsync::domain::state::{ActionableError, ErrorCode, StatusSnapshot, SyncState};
use lightsync::ipc::client::{
    accept_event, accept_watch, check_request, check_response, response_payload, Client,
    WatchOptions, WatchStep, Watcher, DEFAULT_IO_TIMEOUT,
};
use lightsync::ipc::error::{Error, IoFailure, IoKind};
use lightsync::ipc::record::{encode_record, Fed, RecordReader, DEFAULT_MAX_RECORD_SIZE};
use lightsync::ipc::socket::{
    may_remove, needs_probe, owns_socket, secure_directory, socket_path_for_runtime_dir,
    validate_existing_socket, FileIdentity, FileKind, Probe,
};

fn read_record(limit: usize, chunks: &[&[u8]]) -> Result<String, Error> {
    let mut reader = RecordReader::new(limit);
    for chunk in chunks {
        if let Fed::Complete { .. } = reader.feed(chunk)? {
            return reader.finish();
        }
    }
    Err(Error::UnexpectedEof)
}

#[test]
fn runtime_paths_require_a_present_absolute_directory() {
    assert!(matches!(
        socket_path_for_runtime_dir(None),
        Err(Error::RuntimeDirMissing)
    ));
    assert!(matches!(
        socket_path_for_runtime_dir(Some(b"relative")),
        Err(Error::RelativePath(_))
    ));
    assert_eq!(
        socket_path_for_runtime_dir(Some(b"/run/user/1000")).expect("path"),
        b"/run/user/1000/omarchy-lightsync/control.sock".to_vec()
    );
}

#[test]
fn repeated_one_shot_calls_use_typed_envelopes() {
    for _ in 0..2 {
        let request = RequestEnvelope::new(Request::GetStatus);
        let id = request.id;
        let received = check_request(request).expect("request");
        assert_eq!(received.request, Request::GetStatus);
        let answer = ResponseEnvelope::success(
            received.id,
            ResponsePayload::Status(StatusSnapshot::default()),
        );
        let response = check_response(id, answer).expect("response");
        assert!(matches!(
            response_payload(response).expect("status"),
            ResponsePayload::Status(_)
        ));
    }
}

#[test]
fn watch_accepts_response_then_status_events() {
    assert_eq!(
        accept_watch(1, ResponseEnvelope::success(1, ResponsePayload::Acknowledged))
            .expect("watch response"),
        None
    );
    let status = StatusSnapshot {
        sync: SyncState::Running,
        ..StatusSnapshot::default()
    };
    let event = EventEnvelope::new(Event::StatusChanged(status.clone()));
    assert_eq!(accept_event(event).expect("status event"), Some(status));
    let other = EventEnvelope::new(Event::ConfigChanged { revision: 3 });
    assert_eq!(accept_event(other).expect("other event"), None);
}

#[test]
fn watch_reconnects_after_connection_loss() {
    let mut watcher = Watcher::new(WatchOptions {
        initial_backoff: 10_000_000,
        max_backoff: 35_000_000,
        channel_capacity: 4,
    });
    let mut delays = Vec::new();
    for _ in 0..4 {
        match watcher.after_session(Err(Error::UnexpectedEof), false) {
            WatchStep::Reconnect { report, delay } => {
                assert_eq!(report, Some(Error::UnexpectedEof));
                delays.push(delay);
            }
            WatchStep::Stop => panic!("the watch goes on"),
        }
    }
    assert_eq!(delays, vec![10_000_000, 20_000_000, 35_000_000, 35_000_000]);
    assert!(matches!(
        watcher.after_session(Err(Error::UnexpectedEof), true),
        WatchStep::Stop
    ));
}

#[test]
fn second_server_never_unlinks_a_live_socket() {
    let identity = FileIdentity {
        device: 1,
        inode: 2,
    };
    assert_eq!(
        needs_probe(b"/run/control.sock", FileKind::Socket).expect("probe"),
        true
    );
    assert!(matches!(
        may_remove(identity, Probe::Connected),
        Err(Error::Io(IoFailure {
            kind: IoKind::AddrInUse,
            ..
        }))
    ));
    assert!(may_remove(
        identity,
        Probe::Refused {
            kind: FileKind::Socket,
            identity
        }
    )
    .is_ok());
    assert!(may_remove(
        identity,
        Probe::Refused {
            kind: FileKind::Socket,
            identity: FileIdentity {
                device: 1,
                inode: 3
            }
        }
    )
    .is_err());
}

#[test]
fn oversized_records_are_rejected_before_newline() {
    let mut reader = RecordReader::new(8);
    assert!(matches!(
        reader.feed(b"123456789"),
        Err(Error::RecordTooLarge { limit: 8 })
    ));
}

#[test]
fn client_rejects_response_id_mismatch() {
    let response = ResponseEnvelope::success(2, ResponsePayload::Acknowledged);
    match check_response(1, response) {
        Err(Error::IdMismatch { expected, received }) => {
            assert_eq!(expected, "00000000-0000-0000-0000-000000000001");
            assert_eq!(received, "00000000-0000-0000-0000-000000000002");
        }
        other => panic!("unexpected result: {other:?}"),
    }
}

#[test]
fn client_rejects_response_version_mismatch() {
    let mut response = ResponseEnvelope::success(1, ResponsePayload::Acknowledged);
    response.version = 99;
    assert!(matches!(
        check_response(1, response),
        Err(Error::Protocol(ProtocolError::VersionMismatch { .. }))
    ));
}

#[test]
fn request_versions_are_checked() {
    let mut request = RequestEnvelope::new(Request::GetStatus);
    request.version = 99;
    assert!(matches!(
        check_request(request),
        Err(Error::Protocol(ProtocolError::VersionMismatch { .. }))
    ));
}

#[test]
fn clients_reject_symlink_socket_paths() {
    assert!(matches!(
        validate_existing_socket(b"/run/linked.sock", FileKind::Symlink),
        Err(Error::Symlink(_))
    ));
    assert!(matches!(
        validate_existing_socket(b"/run/file", FileKind::Other),
        Err(Error::NotSocket(_))
    ));
    assert!(validate_existing_socket(b"/run/control.sock", FileKind::Socket).is_ok());
}

#[test]
fn records_are_read_back_however_they_are_cut() {
    let written = encode_record("{\"a\":1}", DEFAULT_MAX_RECORD_SIZE).expect("record");
    assert_eq!(written, "{\"a\":1}\n");
    let bytes = written.as_bytes();
    for cut in 1..bytes.len() {
        assert_eq!(
            read_record(64, &[&bytes[..cut], &bytes[cut..]]).expect("record"),
            "{\"a\":1}"
        );
    }
    let mut reader = RecordReader::new(64);
    assert!(matches!(
        reader.feed(b"{}\nrest"),
        Ok(Fed::Complete { consumed: 3 })
    ));
    assert!(matches!(
        encode_record("1234567", 6),
        Err(Error::RecordTooLarge { limit: 6 })
    ));
    assert!(encode_record("123456", 6).is_ok());
}

#[test]
fn records_end_early_or_hold_bad_text() {
    assert!(matches!(
        RecordReader::new(8).feed(b""),
        Err(Error::UnexpectedEof)
    ));
    let mut reader = RecordReader::new(8);
    assert!(reader.feed(b"\xff\n").is_ok());
    match reader.finish() {
        Err(Error::Io(failure)) => {
            assert_eq!(failure.kind, IoKind::InvalidData);
            assert!(failure.message.contains("invalid utf-8"));
        }
        other => panic!("unexpected result: {other:?}"),
    }
}

#[test]
fn remote_errors_are_passed_on() {
    let error = ActionableError::new(ErrorCode::Conflict, "busy");
    let response = ResponseEnvelope::error(1, error);
    assert!(matches!(
        response_payload(response),
        Err(Error::Remote(ActionableError {
            code: ErrorCode::Conflict,
            ..
        }))
    ));
    let unexpected = ResponseEnvelope::success(1, ResponsePayload::Areas(Vec::new()));
    assert!(matches!(
        accept_watch(1, unexpected),
        Err(Error::UnexpectedWatchResponse)
    ));
}

#[test]
fn client_holds_its_limits() {
    assert!(matches!(
        Client::with_socket_path(b"control.sock".to_vec()),
        Err(Error::RelativePath(_))
    ));
    let mut client = Client::with_socket_path(b"/run/control.sock".to_vec()).expect("client");
    assert_eq!(client.socket_path(), b"/run/control.sock");
    assert_eq!(client.max_record_size(), DEFAULT_MAX_RECORD_SIZE);
    assert_eq!(client.io_timeout(), DEFAULT_IO_TIMEOUT);
    client.set_max_record_size(12);
    client.set_io_timeout(34);
    assert_eq!((client.max_record_size(), client.io_timeout()), (12, 34));
}

#[test]
fn error_messages_tell_the_cause() {
    assert!(Error::Timeout(1_500_000_000).message().contains("1.5s"));
    assert!(Error::Timeout(10_000_000_000).message().contains("10s"));
    assert!(Error::RelativePath(b"a\xffb".to_vec())
        .message()
        .contains("a\u{fffd}b"));
    assert!(Error::RecordTooLarge { limit: 77 }.message().contains("77"));
    for error in [
        Error::RuntimeDirMissing,
        Error::Symlink(b"/x".to_vec()),
        Error::NotDirectory(b"/x".to_vec()),
        Error::NotSocket(b"/x".to_vec()),
        Error::UnexpectedEof,
        Error::UnexpectedWatchResponse,
    ] {
        assert!(!error.message().is_empty());
    }
}

#[test]
fn directories_are_secured() {
    assert!(secure_directory(b"/run/a", FileKind::Missing).expect("created"));
    assert!(!secure_directory(b"/run/a", FileKind::Directory).expect("kept"));
    assert!(matches!(
        secure_directory(b"/run/a", FileKind::Symlink),
        Err(Error::Symlink(_))
    ));
    assert!(matches!(
        secure_directory(b"/run/a", FileKind::Other),
        Err(Error::NotDirectory(_))
    ));
    let mine = FileIdentity {
        device: 1,
        inode: 2,
    };
    assert!(owns_socket(mine, FileKind::Socket, mine));
    assert!(!owns_socket(mine, FileKind::Other, mine));
}
