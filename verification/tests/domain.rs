use lightsync::domain::config::{
    AppConfig, AreaId, BridgeConfiguration, BridgeId, Brightness, CaptureBackend, ConfigUpdate,
    DisplayId, EntertainmentArea, EntertainmentChannel, Intensity, Language, NormalizedPoint,
    Profile, ProfileId, SyncMode, SyncSettings, ValidationError, CURRENT_SCHEMA_VERSION,
};
use lightsync::domain::ipc::{
    from_ndjson, to_ndjson, Event, EventEnvelope, ProtocolError, Request, RequestEnvelope,
    Response, ResponseEnvelope, ResponsePayload, PROTOCOL_VERSION,
};
use lightsync::domain::state::{
    ActionableError, Capabilities, CaptureState, ErrorCode, ServiceState, StatusSnapshot,
    SyncState,
};
use lightsync::number::Single;

fn brightness_from_json(text: &str) -> Result<Brightness, String> {
    let value: u8 = serde_json::from_str(text).map_err(|error| error.to_string())?;
    Brightness::new(value).map_err(|error| error.message())
}

fn point_from_json(text: &str) -> Result<NormalizedPoint, String> {
    let value: serde_json::Value = serde_json::from_str(text).map_err(|error| error.to_string())?;
    let number = |key: &str| {
        value[key]
            .as_f64()
            .map(|number| number as f32)
            .ok_or_else(|| format!("{key} is not a number"))
    };
    NormalizedPoint::new(number("x")?.to_bits(), number("y")?.to_bits())
        .map_err(|error| error.message())
}

fn profile(name: &str) -> Profile {
    Profile {
        id: ProfileId::new(),
        name: name.to_owned(),
        settings: SyncSettings::default(),
        display: None,
        area: None,
    }
}

#[test]
fn bounded_values_reject_invalid_json() {
    assert!(brightness_from_json("101").is_err());
    assert!(point_from_json(r#"{"x":-0.1,"y":0.5}"#).is_err());
    assert!(point_from_json(r#"{"x":null,"y":0.5}"#).is_err());
    assert!(brightness_from_json("100").is_ok());
    assert!(point_from_json(r#"{"x":0.1,"y":0.5}"#).is_ok());
}

#[test]
fn defaults_are_stable_and_valid() {
    let config = AppConfig::default();
    assert_eq!(config.schema_version, CURRENT_SCHEMA_VERSION);
    assert_eq!(config.sync.brightness.get(), 80);
    assert!(config.restore_on_stop);
    assert_eq!(config.validate(), Ok(()));
}

#[test]
fn update_is_atomic_when_invalid() {
    let mut config = AppConfig::default();
    let missing = ProfileId::new();
    config.active_profile = Some(missing);
    let original = config.clone();
    let mut update = ConfigUpdate::default();
    update.language = Some(Language::De);
    let result = config.apply_update(update);
    assert_eq!(result, Err(ValidationError::UnknownActiveProfile(missing)));
    assert_eq!(config, original);
}

#[test]
fn update_distinguishes_missing_and_explicit_null() {
    let mut config = AppConfig::default();
    config.selected_area = Some(AreaId::new("desk".to_owned()).expect("area ID"));
    let untouched = ConfigUpdate::default();
    let mut cleared = ConfigUpdate::default();
    cleared.selected_area = Some(None);
    assert_eq!(untouched.selected_area, None);
    assert_eq!(cleared.selected_area, Some(None));
    config.apply_update(untouched).expect("update without a field");
    assert!(config.selected_area.is_some());
    config.apply_update(cleared).expect("update with a null field");
    assert!(config.selected_area.is_none());
}

#[test]
fn updates_change_what_they_name_and_the_revision() {
    let mut config = AppConfig::default();
    let mut update = ConfigUpdate::default();
    update.capture_backend = Some(CaptureBackend::Grim);
    update.auto_start_sync = Some(true);
    update.selected_display = Some(Some(DisplayId::new("DP-1".to_owned()).expect("display ID")));
    config.apply_update(update).expect("valid update");
    assert_eq!(config.capture_backend, CaptureBackend::Grim);
    assert!(config.auto_start_sync);
    assert!(config.selected_display.is_some());
    assert_eq!(config.language, AppConfig::default().language);
    assert_eq!(config.revision, 1);
}

#[test]
fn every_validation_error_is_reached() {
    assert!(matches!(
        BridgeId::new(" ".to_owned()),
        Err(ValidationError::Empty { .. })
    ));
    assert!(matches!(
        AreaId::new(String::new()),
        Err(ValidationError::Empty { .. })
    ));
    assert!(matches!(
        DisplayId::new("\t".to_owned()),
        Err(ValidationError::Empty { .. })
    ));
    assert!(matches!(
        Brightness::new(101),
        Err(ValidationError::OutOfRange {
            min: 0,
            max: 100,
            value: 101,
            ..
        })
    ));

    let mut config = AppConfig::default();
    config.schema_version = 9;
    assert_eq!(
        config.validate(),
        Err(ValidationError::UnsupportedSchema(9))
    );

    let twice = profile("Movies");
    let mut config = AppConfig::default();
    config.profiles = vec![twice.clone(), twice.clone()];
    assert_eq!(
        config.validate(),
        Err(ValidationError::DuplicateProfile(twice.id))
    );

    let mut config = AppConfig::default();
    config.profiles = vec![profile(" ")];
    assert!(matches!(
        config.validate(),
        Err(ValidationError::Empty { .. })
    ));

    let channel = EntertainmentChannel {
        id: 4,
        name: None,
        position: NormalizedPoint::new(0.5_f32.to_bits(), 1.0_f32.to_bits()).expect("point"),
    };
    let area = EntertainmentArea {
        id: AreaId::new("area".to_owned()).expect("area ID"),
        name: "Area".to_owned(),
        channels: vec![channel.clone(), channel],
    };
    assert_eq!(area.validate(), Err(ValidationError::DuplicateChannel(4)));

    let bridge = BridgeConfiguration {
        id: BridgeId::new("id".to_owned()).expect("bridge ID"),
        host: " ".to_owned(),
        name: None,
    };
    assert!(bridge.validate().is_err());
}

#[test]
fn validation_messages_name_the_values() {
    assert_eq!(
        ValidationError::Empty { field: "host" }.message(),
        "host must not be empty"
    );
    assert!(ValidationError::UnsupportedSchema(7).message().contains('7'));
    let id = ProfileId::from_uuid(0x0123_4567_89ab_cdef_0123_4567_89ab_cdef);
    assert!(ValidationError::DuplicateProfile(id)
        .message()
        .contains("01234567-89ab-cdef-0123-456789abcdef"));
}

#[test]
fn unit_interval_is_exact() {
    for value in [0.0_f32, -0.0, 1.0, 0.5, f32::MIN_POSITIVE] {
        let point = NormalizedPoint::new(value.to_bits(), value.to_bits()).expect("in range");
        assert_eq!(f32::from_bits(point.x()), value);
        assert_eq!(f32::from_bits(point.y()), value);
    }
    for value in [
        -0.1_f32,
        1.000_001,
        f32::NAN,
        f32::INFINITY,
        f32::NEG_INFINITY,
        -f32::MIN_POSITIVE,
    ] {
        assert!(NormalizedPoint::new(value.to_bits(), 0).is_err());
        assert!(NormalizedPoint::new(0, value.to_bits()).is_err());
    }
}

#[test]
fn profile_identifiers_are_read_as_they_are_written() {
    let id = ProfileId::from_uuid(0xffee_ddcc_bbaa_9988_7766_5544_3322_1100);
    assert_eq!(id.to_text(), "ffeeddcc-bbaa-9988-7766-554433221100");
    assert_eq!(ProfileId::parse(&id.to_text()), Ok(id));
    assert_eq!(
        ProfileId::parse("FFEEDDCC-BBAA-9988-7766-554433221100"),
        Ok(id)
    );
    assert_eq!(
        ProfileId::parse("{ffeeddcc-bbaa-9988-7766-554433221100}"),
        Ok(id)
    );
    assert_eq!(
        ProfileId::parse("urn:uuid:ffeeddcc-bbaa-9988-7766-554433221100"),
        Ok(id)
    );
    assert_eq!(ProfileId::parse("ffeeddccbbaa99887766554433221100"), Ok(id));
    assert_eq!(
        ProfileId::parse("ffeeddcc"),
        Err("invalid length: found 8".to_owned())
    );
    assert!(ProfileId::parse("").is_err());
    assert_eq!(
        ProfileId::parse("ffeeddcc-bbaa-9988-7766-55443322110g"),
        Err("invalid character: found `g` at 35".to_owned())
    );
}

#[test]
fn new_identifiers_are_random_uuids() {
    let id = ProfileId::new().as_uuid();
    assert_eq!((id >> 76) & 0xf, 4);
    assert_eq!((id >> 62) & 0x3, 2);
}

#[test]
fn request_round_trips_as_one_ndjson_record() {
    let request = RequestEnvelope::new(Request::WatchStatus { enabled: true });
    assert_eq!(request.version, PROTOCOL_VERSION);
    let json = format!(
        "{{\"version\":{},\"id\":{},\"method\":\"watch_status\",\"params\":{{\"enabled\":true}}}}",
        request.version, request.id
    );
    let encoded = to_ndjson(&json);
    assert!(encoded.ends_with('\n'));
    assert_eq!(encoded.lines().count(), 1);
    assert_eq!(from_ndjson(&encoded).expect("decode request"), json);
    assert_eq!(from_ndjson(&json).expect("without its end"), json);
    assert_eq!(
        from_ndjson(&format!("{json}\r\n")).expect("with a carriage return"),
        json
    );
}

#[test]
fn response_and_event_are_typed() {
    let status = StatusSnapshot {
        service: ServiceState::Ready,
        capture: CaptureState::Capturing,
        sync: SyncState::Running,
        ..StatusSnapshot::default()
    };
    let response = ResponseEnvelope::success(0, ResponsePayload::Status(status.clone()));
    let event = EventEnvelope::new(Event::StatusChanged(status));
    assert!(matches!(response.response, Response::Success { .. }));
    assert!(matches!(event.event, Event::StatusChanged(_)));
    assert_eq!(response.version, PROTOCOL_VERSION);
    assert_eq!(event.version, PROTOCOL_VERSION);
    let failed = ResponseEnvelope::error(7, ActionableError::new(ErrorCode::Conflict, "busy"));
    assert_eq!(failed.id, 7);
    assert!(matches!(failed.response, Response::Error { .. }));
}

#[test]
fn version_and_record_count_are_validated() {
    let mut request = RequestEnvelope::new(Request::GetStatus);
    request.version = 2;
    assert!(matches!(
        request.validate_version(),
        Err(ProtocolError::VersionMismatch { .. })
    ));
    assert!(matches!(
        from_ndjson("{}\n{}\n"),
        Err(ProtocolError::MultipleRecords)
    ));
    assert!(matches!(
        from_ndjson("{}\n{}"),
        Err(ProtocolError::MultipleRecords)
    ));
}

#[test]
fn protocol_errors_have_messages() {
    assert!(ProtocolError::Json("bad token".to_owned())
        .message()
        .contains("bad token"));
    let mismatch = ProtocolError::VersionMismatch {
        expected: 1,
        received: 2,
    };
    assert!(mismatch.message().contains('1') && mismatch.message().contains('2'));
    assert!(!ProtocolError::MultipleRecords.message().is_empty());
}

#[test]
fn errors_are_built_step_by_step() {
    let error = ActionableError::new(ErrorCode::Internal, "broken")
        .with_action("try again")
        .retryable(true);
    assert_eq!(error.message, "broken");
    assert_eq!(error.action.as_deref(), Some("try again"));
    assert!(error.retryable);
    assert!(error.details.is_empty());
}

#[test]
fn capabilities_default_to_what_works() {
    let capabilities = Capabilities::default();
    assert_eq!(capabilities.protocol_versions, vec![PROTOCOL_VERSION]);
    assert!(!capabilities.audio_reactive);
    assert!(capabilities.sync_modes.contains(&SyncMode::Video));
    assert!(!capabilities.sync_modes.contains(&SyncMode::Music));
    assert_eq!(SyncSettings::default().intensity, Intensity::Moderate);
}

#[test]
fn statuses_and_errors_are_compared_by_value() {
    let status = |rate: f32| StatusSnapshot {
        frames_per_second: Some(Single {
            bits: rate.to_bits(),
        }),
        ..StatusSnapshot::default()
    };
    assert_eq!(status(0.0), status(-0.0));
    assert_eq!(status(29.5), status(29.5));
    assert_ne!(status(29.5), status(30.0));
    assert_ne!(status(f32::NAN), status(f32::NAN));
    let error = |keys: [&str; 2]| {
        let mut error = ActionableError::new(ErrorCode::Internal, "failed");
        for key in keys {
            error.details.insert(key.to_owned(), "value".to_owned());
        }
        error
    };
    assert_eq!(error(["a", "b"]), error(["b", "a"]));
    assert_ne!(error(["a", "a"]), error(["b", "a"]));
}
