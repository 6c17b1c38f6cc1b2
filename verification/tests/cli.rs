use lightsync::cli::commands::{
    area_argument, bridge_argument, check_profile_name, expect_acknowledged, expect_config,
    expect_profile, expect_status, parse_profile_id, profile_argument, profile_from_config,
    sync_request, ArgumentError, SyncCommand,
};
use lightsync::cli::report::{
    area_line, bridge_line, capabilities_text, config_text, created_text, human_status,
    pairing_text, profile_line, remote_error_text, status_document,
};
use lightsync::cli::values::{
    bridge_state, capture_state, config_update, intensity_name, language_name, parse_backend,
    parse_bool, parse_brightness, parse_intensity, parse_language, parse_mode, sync_state, yes_no,
    ConfigKey, ValueError,
};
use lightsync::domain::config::{
    AppConfig, AreaId, BridgeId, CaptureBackend, EntertainmentArea, Intensity, Language, Profile,
    ProfileId, SyncMode, SyncSettings,
};
use lightsync::domain::ipc::{DiscoveredBridge, Request, ResponsePayload, PROTOCOL_VERSION};
use lightsync::domain::state::{
    ActionableError, BridgeState, Capabilities, CaptureState, ErrorCode, StatusSnapshot,
    SyncState,
};
use lightsync::text::NumberProblem;

fn profile(name: &str, area: Option<AreaId>) -> Profile {
    Profile {
        id: ProfileId::new(),
        name: name.to_owned(),
        settings: SyncSettings::default(),
        display: None,
        area,
    }
}

fn with_profile(area: &AreaId, profile: Profile) -> AppConfig {
    AppConfig {
        selected_area: Some(area.clone()),
        active_profile: Some(profile.id),
        profiles: vec![profile],
        ..AppConfig::default()
    }
}

#[test]
fn domain_states_map_to_model_vocabulary() {
    assert_eq!(bridge_state(BridgeState::Connected), "ready");
    assert_eq!(bridge_state(BridgeState::Unconfigured), "needs_setup");
    assert_eq!(bridge_state(BridgeState::Disconnected), "unreachable");
    assert_eq!(capture_state(CaptureState::Capturing), "active");
    assert_eq!(sync_state(SyncState::Stopped), "idle");
    assert_eq!(sync_state(SyncState::Running), "active");
}

#[test]
fn status_json_matches_model_contract_and_omits_absent_context() {
    let value = status_document(&StatusSnapshot::default(), None);
    assert_eq!(value.protocol_version, PROTOCOL_VERSION);
    assert_eq!(value.service.state, "ready");
    assert_eq!(value.bridge.state, "needs_setup");
    assert_eq!(value.capture.state, "idle");
    assert_eq!(value.sync.state, "idle");
    assert!(value.area.is_none());
    assert!(value.profile.is_none());
}

#[test]
fn status_json_includes_safe_area_profile_and_error_detail() {
    let area = AreaId::new("area-1".to_owned()).expect("area ID");
    let profile = profile("Movies", Some(area.clone()));
    let config = with_profile(&area, profile);
    let mut error = ActionableError::new(ErrorCode::SyncUnavailable, "stream unavailable");
    error.details.insert("username".into(), "hue-secret".into());
    error
        .details
        .insert("client_key".into(), "dtls-secret".into());
    let status = StatusSnapshot {
        bridge: BridgeState::Connected,
        sync: SyncState::Failed,
        active_area: Some(area),
        error: Some(error),
        ..StatusSnapshot::default()
    };
    let value = status_document(&status, Some(&config));
    assert_eq!(value.area.as_deref(), Some("area-1"));
    assert_eq!(
        value.profile.as_ref().map(|profile| profile.name.as_str()),
        Some("Movies")
    );
    assert_eq!(value.sync.detail.as_deref(), Some("stream unavailable"));
    let encoded = format!("{value:?}");
    assert!(!encoded.contains("hue-secret"));
    assert!(!encoded.contains("dtls-secret"));
}

#[test]
fn status_json_exposes_configured_area_and_profile_while_idle() {
    let area = AreaId::new("desk".to_owned()).expect("area ID");
    let config = with_profile(&area, profile("Evening", Some(area.clone())));

    let value = status_document(&StatusSnapshot::default(), Some(&config));

    assert_eq!(value.area.as_deref(), Some("desk"));
    assert_eq!(
        value.profile.as_ref().map(|profile| profile.name.as_str()),
        Some("Evening")
    );
}

#[test]
fn mutation_response_types_match_the_daemon_contract() {
    let config = AppConfig::default();
    let profile = profile("Movies", None);

    // UpdateConfig, SelectArea, ActivateProfile, and ForgetBridge.
    for _ in 0..4 {
        assert_eq!(
            expect_config(ResponsePayload::Config(config.clone())).expect("config response"),
            config
        );
    }
    // CreateProfile and UpdateProfile.
    for _ in 0..2 {
        assert_eq!(
            expect_profile(ResponsePayload::Profile(profile.clone())).expect("profile response"),
            profile
        );
    }
    // BeginPairing, CompletePairing, DeleteProfile, Start, Stop, and Toggle.
    for _ in 0..6 {
        expect_acknowledged(ResponsePayload::Acknowledged).expect("acknowledged response");
    }
}

#[test]
fn pairing_status_uses_the_public_model_vocabulary() {
    let status = StatusSnapshot {
        bridge: BridgeState::Pairing,
        ..StatusSnapshot::default()
    };
    let value = status_document(&status, None);
    assert_eq!(value.bridge.state, "pairing");
    assert_eq!(value.sync.state, "idle");
}

#[test]
fn config_updates_preserve_other_sync_settings() {
    let config = AppConfig::default();
    let update = config_update(&config, ConfigKey::Brightness, "42").expect("valid update");
    let sync = update.sync.expect("sync update");
    assert_eq!(sync.brightness.get(), 42);
    assert_eq!(sync.mode, config.sync.mode);
    assert_eq!(sync.intensity, config.sync.intensity);
    assert!(config_update(&config, ConfigKey::Brightness, "101").is_err());
}

#[test]
fn every_key_updates_its_value() {
    let config = AppConfig::default();
    let update = |key, value| config_update(&config, key, value).expect("valid update");
    assert_eq!(
        update(ConfigKey::Language, "de").language,
        Some(Language::De)
    );
    assert_eq!(
        update(ConfigKey::Backend, "grim").capture_backend,
        Some(CaptureBackend::Grim)
    );
    assert_eq!(
        update(ConfigKey::Mode, "game").sync.map(|sync| sync.mode),
        Some(SyncMode::Game)
    );
    assert_eq!(
        update(ConfigKey::Intensity, "high")
            .sync
            .map(|sync| sync.intensity),
        Some(Intensity::High)
    );
    assert_eq!(
        update(ConfigKey::AudioReactive, "true")
            .sync
            .map(|sync| sync.audio_reactive),
        Some(true)
    );
    assert_eq!(
        update(ConfigKey::RestoreOnStop, "false").restore_on_stop,
        Some(false)
    );
    assert_eq!(
        update(ConfigKey::AutoStart, "yes").auto_start_sync,
        Some(true)
    );
}

#[test]
fn values_are_read_as_they_are_named() {
    for language in [Language::System, Language::En, Language::De] {
        assert_eq!(parse_language(language_name(language)), Ok(language));
    }
    for intensity in [
        Intensity::Subtle,
        Intensity::Moderate,
        Intensity::High,
        Intensity::Extreme,
    ] {
        assert_eq!(parse_intensity(intensity_name(intensity)), Ok(intensity));
    }
    assert_eq!(parse_language("fr"), Err(ValueError::Language));
    assert_eq!(parse_backend("x11"), Err(ValueError::Backend));
    assert_eq!(parse_mode("party"), Err(ValueError::Mode));
    assert_eq!(parse_intensity("mild"), Err(ValueError::Intensity));
    for value in ["bright", "256", "", "+", "-5", "2567a", "99a", "+300", "1 ", "\u{e9}"] {
        let error = parse_brightness(value).expect_err("no brightness");
        let cause = value.parse::<u8>().expect_err("no byte");
        assert_eq!(
            error.message(),
            format!("brightness must be an integer from 0 to 100: {cause}")
        );
    }
    assert_eq!(
        parse_brightness("2567a"),
        Err(ValueError::NotANumber(NumberProblem::TooLarge))
    );
    assert_eq!(
        parse_brightness("99a"),
        Err(ValueError::NotANumber(NumberProblem::InvalidDigit))
    );
    assert_eq!(
        parse_brightness(""),
        Err(ValueError::NotANumber(NumberProblem::Empty))
    );
    assert_eq!(parse_brightness("+42").expect("brightness").get(), 42);
    assert!(matches!(
        parse_brightness("101"),
        Err(ValueError::Brightness(_))
    ));
    assert_eq!(
        parse_bool("maybe"),
        Err(ValueError::NotABool("maybe".to_owned()))
    );
    assert_eq!(yes_no(true), "yes");
    assert_eq!(yes_no(false), "no");
    for error in [
        ValueError::Language,
        ValueError::Backend,
        ValueError::Mode,
        ValueError::Intensity,
        ValueError::NotANumber(NumberProblem::Empty),
        ValueError::NotABool("maybe".to_owned()),
    ] {
        assert!(!error.message().is_empty());
    }
}

#[test]
fn arguments_are_checked() {
    let bridge = bridge_argument("id".to_owned(), "192.0.2.1".to_owned(), None).expect("bridge");
    assert_eq!(bridge.host, "192.0.2.1");
    assert_eq!(
        bridge_argument("id".to_owned(), " ".to_owned(), None),
        Err(ArgumentError::EmptyHost)
    );
    assert!(matches!(
        bridge_argument(" ".to_owned(), "host".to_owned(), None),
        Err(ArgumentError::Invalid(_))
    ));
    assert_eq!(area_argument("none".to_owned()), Ok(None));
    assert!(area_argument("desk".to_owned()).expect("area").is_some());
    assert_eq!(profile_argument("none"), Ok(None));
    assert_eq!(
        parse_profile_id("x").expect_err("no identifier").message(),
        "profile ID must be a UUID: UUID parsing failed: invalid character: found `x` at 0"
    );
    assert!(matches!(
        profile_argument("x"),
        Err(ArgumentError::NotAProfileId(_))
    ));
    assert_eq!(
        parse_profile_id("00000000-0000-0000-0000-000000000007"),
        Ok(ProfileId::from_uuid(7))
    );
    assert_eq!(check_profile_name(" "), Err(ArgumentError::EmptyProfileName));
    assert_eq!(check_profile_name("Movies"), Ok(()));
    for error in [
        ArgumentError::EmptyHost,
        ArgumentError::EmptyProfileName,
        ArgumentError::NotAProfileId("no identifier".to_owned()),
    ] {
        assert!(!error.message().is_empty());
    }
}

#[test]
fn profiles_take_over_the_configuration() {
    let area = AreaId::new("desk".to_owned()).expect("area ID");
    let mut config = AppConfig::default();
    config.selected_area = Some(area.clone());
    config.sync.mode = SyncMode::Game;
    let profile = profile_from_config(&config, "Games".to_owned());
    assert_eq!(profile.name, "Games");
    assert_eq!(profile.settings, config.sync);
    assert_eq!(profile.area, Some(area));
}

#[test]
fn sync_commands_become_requests() {
    assert_eq!(sync_request(SyncCommand::Start).0, Request::Start);
    assert_eq!(sync_request(SyncCommand::Stop).0, Request::Stop);
    assert_eq!(sync_request(SyncCommand::Toggle).0, Request::Toggle);
    assert!(expect_status(ResponsePayload::Acknowledged).is_err());
}

#[test]
fn reports_are_readable() {
    let status = StatusSnapshot::default();
    let text = human_status(&status, None);
    assert!(text.contains("ready") && text.contains("needs_setup"));
    assert!(capabilities_text(&Capabilities::default()).contains("video"));
    assert!(config_text(&AppConfig::default()).contains("80"));
    let bridge = DiscoveredBridge {
        id: BridgeId::new("001788fffe123456".to_owned()).expect("bridge ID"),
        host: "192.0.2.1".to_owned(),
        name: Some("Desk".to_owned()),
    };
    let line = bridge_line(&bridge);
    assert!(line.contains("001788fffe123456") && line.contains("192.0.2.1"));
    let area = EntertainmentArea {
        id: AreaId::new("desk".to_owned()).expect("area ID"),
        name: "Desk".to_owned(),
        channels: Vec::new(),
    };
    assert_ne!(area_line(&area, None), area_line(&area, Some(&area.id)));
    let profile = profile("Movies", None);
    assert_ne!(
        profile_line(&profile, None),
        profile_line(&profile, Some(profile.id))
    );
    assert!(created_text(&profile).contains("Movies"));
    assert!(pairing_text(None, "001788fffe123456", true).contains("001788fffe123456"));
    let error = ActionableError::new(ErrorCode::Conflict, "busy").with_action("wait");
    let text = remote_error_text(&error);
    assert!(text.contains("busy") && text.contains("wait"));
}
