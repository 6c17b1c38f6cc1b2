use lightsync::capture::frame::{
    CaptureError, FrameFormat, OwnedFrame, PixelFormat as CapturePixelFormat,
};
use lightsync::daemon::bridge::{
    area_from_bridge, candidate_from_config, candidate_from_discovered, discovery_answer,
    is_settings_only, pending_configuration, BridgeCheck, ForgetTarget, FoundBridge,
    ScreenChannel,
};
use lightsync::daemon::dispatch::{asks_to_watch, forwards, keeps_watching, Plan};
use lightsync::daemon::errors::{classify_capture, classify_hue, validate_supported_settings};
use lightsync::daemon::pairing::{pairing_step, PairingOutcome, PairingStep};
use lightsync::daemon::profiles::{
    activate_profile, create_profile, delete_profile, update_profile,
};
use lightsync::daemon::state::DaemonState;
use lightsync::daemon::store::{
    config_path, loaded_config, loaded_pairing, temporary_name, token_temporary_name, FileRead,
    LoadError, PathError,
};
use lightsync::daemon::sync::{
    after_capture, after_first_frame, after_stream, area_processor, first_frame_timeout,
    map_pixel_format, sampled_view, stop_answer, streamed_colors, EndStep, FrameMeter, StartStep,
    StopStep, SyncEnding, TaskEnd,
};
use lightsync::domain::config::{
    AppConfig, AreaId, BridgeConfiguration, BridgeId, Brightness, ConfigUpdate, DisplayId,
    EntertainmentArea, Intensity, NormalizedPoint, Profile, ProfileId, SyncMode, SyncSettings,
};
use lightsync::domain::ipc::{DiscoveredBridge, Event, Request, Response, ResponsePayload};
use lightsync::domain::state::{
    ActionableError, BridgeState, CaptureState, ErrorCode, StatusSnapshot, SyncState,
};
use lightsync::engine::frame::{PixelFormat, Rgb8};
use lightsync::engine::processor::{ChannelColor, Rgb16};
use lightsync::hue::bridge::{BridgeCandidate, IpAddress};
use lightsync::hue::control::{ControlRequest, ControlResponse};
use lightsync::hue::credentials::{
    registration, BridgeCredentials, PairAttempt, RegisterResponse, Registration, LINK_BUTTON_ERROR,
};
use lightsync::hue::fake::{MemoryCredentialStore, ScriptedControlTransport};
use lightsync::number::Single;

const ID: &str = "001788fffe123456";
const ADDRESS: IpAddress = IpAddress::V4([192, 0, 2, 1]);

fn daemon() -> DaemonState {
    DaemonState::load(AppConfig::default(), None)
}

fn profile(name: &str) -> Profile {
    Profile {
        id: ProfileId::new(),
        name: name.to_owned(),
        settings: SyncSettings {
            mode: SyncMode::Game,
            ..SyncSettings::default()
        },
        display: None,
        area: None,
    }
}

fn candidate() -> BridgeCandidate {
    BridgeCandidate {
        id: ID.to_owned(),
        address: ADDRESS,
        name: "Desk".to_owned(),
    }
}

fn bridge() -> BridgeConfiguration {
    BridgeConfiguration {
        id: BridgeId::new(ID.to_owned()).expect("bridge ID"),
        host: "192.0.2.1".to_owned(),
        name: Some("Desk".to_owned()),
    }
}

fn area() -> EntertainmentArea {
    area_from_bridge(
        "area".to_owned(),
        "Area".to_owned(),
        &vec![ScreenChannel {
            channel_id: 3,
            x: 0.5_f32.to_bits(),
            y: 0.5_f32.to_bits(),
        }],
    )
    .expect("area")
}

fn ready() -> DaemonState {
    let mut state = daemon();
    state.config.bridge = Some(bridge());
    state.config.selected_area = Some(AreaId::new("area".to_owned()).expect("area ID"));
    state.hue = Some(candidate());
    state.areas = vec![area()];
    state.status.bridge = BridgeState::Connected;
    state
}

fn save(state: &mut DaemonState, next: AppConfig) -> AppConfig {
    state.persist(next, true).expect("saved").0
}

#[test]
fn dispatch_and_profile_crud_update_revisions() {
    let mut state = daemon();
    assert!(matches!(
        state.dispatch(Request::GetStatus),
        Plan::Answer(ResponsePayload::Status(_))
    ));
    let profile = profile("Games");
    let next = create_profile(&state.config, &profile).expect("create");
    save(&mut state, next);
    let next = activate_profile(&state.config, Some(profile.id)).expect("activate");
    save(&mut state, next);
    let config = match state.dispatch(Request::GetConfig) {
        Plan::Answer(ResponsePayload::Config(config)) => config,
        other => panic!("unexpected plan: {other:?}"),
    };
    assert_eq!(config.revision, 2);
    assert_eq!(config.sync, profile.settings);
    let next = delete_profile(&state.config, profile.id).expect("delete");
    save(&mut state, next);
    assert!(state.config.profiles.is_empty());
    assert_eq!(state.config.active_profile, None);
    assert_eq!(state.config.revision, 3);
}

#[test]
fn invalid_profile_is_atomic_and_status_notifications_are_broadcast() {
    let mut state = daemon();
    assert!(create_profile(&state.config, &profile("   ")).is_err());
    assert_eq!(state.config.revision, 0);
    state.set_bridge_state(BridgeState::Connecting, None);
    assert!(matches!(
        state.status_event(),
        Event::StatusChanged(StatusSnapshot {
            bridge: BridgeState::Connecting,
            ..
        })
    ));
}

#[test]
fn failed_preconditions_do_not_enter_starting_state() {
    let mut state = daemon();
    let plan = state.dispatch(Request::Start);
    assert!(matches!(plan, Plan::Start));
    state.reserve(&plan).expect("reserved");
    let error = match state.begin_start() {
        Ok(_) => panic!("start fails"),
        Err(error) => error,
    };
    state.release();
    assert_eq!(error.code, ErrorCode::BridgeUnavailable);
    assert_eq!(state.status.sync, SyncState::Stopped);
    assert_eq!(state.status.capture, CaptureState::Idle);
}

#[test]
fn waiting_for_link_button_is_successful_pairing_progress() {
    let mut control = ScriptedControlTransport::default();
    control.push_response(ControlResponse {
        status: 200,
        body: LINK_BUTTON_ERROR,
    });
    let response = control
        .execute(ControlRequest::pairing())
        .expect("response");
    let outcome = registration(vec![RegisterResponse::Error {
        error_type: response.body,
    }])
    .expect("waiting is progress, not an error");
    assert!(matches!(outcome, Registration::WaitingForLinkButton));
}

#[test]
fn idle_operations_are_reserved_atomically() {
    let mut state = daemon();
    state.reserve_idle("first").expect("first reservation");
    let second = match state.reserve_idle("second") {
        Ok(_) => panic!("second operation must conflict"),
        Err(error) => error,
    };
    assert_eq!(second.code, ErrorCode::Conflict);
    state.release();
    state.reserve_idle("third").expect("reservation after release");
}

#[test]
fn unsupported_modes_and_portal_display_ids_are_rejected_atomically() {
    let state = daemon();
    let settings = SyncSettings {
        mode: SyncMode::Music,
        ..SyncSettings::default()
    };
    let mut update = ConfigUpdate::default();
    update.sync = Some(settings);
    let error = state
        .plan_update(update)
        .expect_err("music mode is unsupported");
    assert_eq!(error.code, ErrorCode::InvalidConfiguration);
    assert_eq!(state.config.revision, 0);

    let mut update = ConfigUpdate::default();
    update.selected_display = Some(Some(
        DisplayId::new("display-1".to_owned()).expect("display ID"),
    ));
    let error = state
        .plan_update(update)
        .expect_err("portal display targeting is unsupported");
    assert_eq!(error.code, ErrorCode::InvalidConfiguration);
    assert_eq!(state.config.revision, 0);
    assert!(validate_supported_settings(&settings).is_err());
}

#[test]
fn sync_settings_can_change_while_streaming() {
    let mut state = daemon();
    state.status.sync = SyncState::Running;
    let settings = SyncSettings {
        mode: SyncMode::Game,
        intensity: Intensity::Extreme,
        brightness: Brightness::new(42).expect("brightness"),
        audio_reactive: false,
    };
    let mut update = ConfigUpdate::default();
    update.sync = Some(settings);
    assert!(is_settings_only(&update));
    state
        .reserve_sync_settings_update()
        .expect("live settings update");
    let next = state.plan_update(update).expect("live settings update");
    save(&mut state, next);
    assert_eq!(state.config.sync, settings);
    state.release();
    assert!(state.reserve_sync_idle("change").is_err());
}

#[test]
fn concurrent_shutdown_waits_for_the_active_cleanup() {
    let mut state = ready();
    state.begin_start().expect("plan");
    state.started();
    state.status.capture = CaptureState::Capturing;
    assert_eq!(state.begin_stop(), StopStep::StopTask);
    assert_eq!(state.begin_stop(), StopStep::AwaitCleanup);
    state.finish_sync(Ok(()), None, false);
    assert_eq!(state.status.sync, SyncState::Stopped);
    assert_eq!(state.begin_stop(), StopStep::AlreadyStopped);
    assert!(stop_answer(TaskEnd::Finished).is_ok());
    assert!(stop_answer(TaskEnd::Failed).is_err());
    assert!(stop_answer(TaskEnd::TimedOut).is_err());
}

#[test]
fn pending_pairing_candidate_survives_reload_without_credentials() {
    let pending = loaded_pairing(FileRead::Found(bridge()))
        .expect("reload")
        .expect("pending pairing");
    let state = DaemonState::load(
        AppConfig::default(),
        Some(candidate_from_config(&pending, Some(ADDRESS))),
    );
    assert!(state.pending_pairing.is_some());
    assert_eq!(state.status.bridge, BridgeState::Pairing);
}

#[test]
fn forget_bridge_deletes_credentials_and_clears_area_configuration() {
    let mut credentials = MemoryCredentialStore::default();
    credentials.store(
        ID,
        &BridgeCredentials::new("application-key".into(), "0011".into()).expect("credentials"),
    );
    let mut state = ready();
    let plan = state.dispatch(Request::ForgetBridge);
    assert!(matches!(plan, Plan::Forget));
    state.reserve(&plan).expect("reserved");
    match state.forget_target() {
        ForgetTarget::Client(client) => credentials.forget(&client.id),
        _ => panic!("the connected bridge is forgotten"),
    }
    let next = state.plan_forgotten();
    save(&mut state, next);
    state.finish_forgetting();
    state.release();
    assert!(credentials.load(ID).is_err());
    assert!(state.config.bridge.is_none());
    assert!(state.config.selected_area.is_none());
    assert_eq!(state.status.bridge, BridgeState::Unconfigured);
}

#[test]
fn capture_failure_stops_both_owned_resources() {
    let mut state = ready();
    state.begin_start().expect("plan");
    state.started();
    let failure = CaptureError::Backend("injected capture failure".into());
    let mut capture_stopped = false;
    let mut stream_stopped = false;
    let mut ending = SyncEnding::new(Err(classify_capture(&failure)));
    loop {
        match ending.step() {
            EndStep::ShutDownCapture => {
                capture_stopped = true;
                ending.capture_ended(None);
            }
            EndStep::StopStream => {
                stream_stopped = true;
                ending.stream_ended(false);
            }
            EndStep::Finish => break,
        }
    }
    assert!(state.end_sync(ending));
    assert!(capture_stopped);
    assert!(stream_stopped);
    assert_eq!(state.status.sync, SyncState::Failed);
    assert!(!state.syncing);
}

#[test]
fn synchronization_does_not_end_before_its_resources() {
    let mut state = ready();
    state.begin_start().expect("plan");
    state.started();
    assert!(!state.end_sync(SyncEnding::new(Ok(()))));
    assert_eq!(state.status.sync, SyncState::Running);
    let mut ending = SyncEnding::new(Ok(()));
    ending.capture_ended(Some(CaptureError::ShutdownTimedOut));
    assert_eq!(ending.step(), EndStep::StopStream);
    ending.stream_ended(true);
    assert!(state.end_sync(ending));
    assert_eq!(state.status.sync, SyncState::Failed);
    let error = state.status.error.expect("error");
    assert_eq!(error, classify_capture(&CaptureError::ShutdownTimedOut));
}

#[test]
fn maps_hue_coordinates_and_all_capture_formats() {
    let point = NormalizedPoint::new(
        ((-1.0_f32 + 1.0) / 2.0).clamp(0.0, 1.0).to_bits(),
        ((1.0_f32 - 1.0) / 2.0).clamp(0.0, 1.0).to_bits(),
    )
    .expect("point");
    assert_eq!(
        (f32::from_bits(point.x()), f32::from_bits(point.y())),
        (0.0, 0.0)
    );
    assert_eq!(map_pixel_format(CapturePixelFormat::Rgb), PixelFormat::Rgb8);
    assert_eq!(
        map_pixel_format(CapturePixelFormat::Bgrx),
        PixelFormat::Bgrx8
    );
    assert_eq!(
        map_pixel_format(CapturePixelFormat::Bgra),
        PixelFormat::Bgra8
    );
    assert_eq!(
        map_pixel_format(CapturePixelFormat::Rgbx),
        PixelFormat::Rgbx8
    );
    assert_eq!(
        map_pixel_format(CapturePixelFormat::Rgba),
        PixelFormat::Rgba8
    );
}

#[test]
fn status_snapshot_consumes_all_older_watch_versions() {
    assert!(asks_to_watch(&Request::WatchStatus { enabled: true }));
    assert!(!asks_to_watch(&Request::WatchStatus { enabled: false }));
    let success = Response::Success {
        payload: ResponsePayload::Status(StatusSnapshot::default()),
    };
    assert!(keeps_watching(true, &success));
    assert!(!keeps_watching(false, &success));
    let error = Response::Error {
        error: ActionableError::new(ErrorCode::Internal, "broken"),
    };
    assert!(!keeps_watching(true, &error));
    assert!(!forwards(&Event::StatusChanged(StatusSnapshot::default())));
    assert!(forwards(&Event::ConfigChanged { revision: 1 }));
}

#[test]
fn requests_become_plans() {
    let state = daemon();
    assert!(matches!(state.dispatch(Request::Start), Plan::Start));
    assert!(matches!(state.dispatch(Request::Stop), Plan::Stop));
    assert!(matches!(state.dispatch(Request::Toggle), Plan::Start));
    let mut running = ready();
    running.status.sync = SyncState::Running;
    assert!(matches!(running.dispatch(Request::Toggle), Plan::Stop));
    assert!(matches!(
        state.dispatch(Request::DiscoverBridges),
        Plan::Discover
    ));
    assert!(matches!(state.dispatch(Request::ForgetBridge), Plan::Forget));
    assert!(matches!(
        state.dispatch(Request::GetCapabilities),
        Plan::Answer(ResponsePayload::Capabilities(_))
    ));
}

#[test]
fn profiles_are_changed_by_identifier() {
    let mut config = AppConfig::default();
    let mut first = profile("Games");
    config = create_profile(&config, &first).expect("create");
    assert_eq!(
        create_profile(&config, &first).expect_err("twice").code,
        ErrorCode::Conflict
    );
    first.name = "Films".to_owned();
    config = update_profile(&config, &first).expect("update");
    assert_eq!(config.profiles[0].name, "Films");
    assert!(update_profile(&config, &profile("Other")).is_err());
    assert!(delete_profile(&config, ProfileId::from_uuid(1)).is_err());
    assert!(activate_profile(&config, Some(ProfileId::from_uuid(1))).is_err());
    let active = activate_profile(&config, Some(first.id)).expect("activate");
    assert_eq!(active.active_profile, Some(first.id));
    assert_eq!(
        activate_profile(&active, None).expect("none").active_profile,
        None
    );
}

#[test]
fn unsaved_changes_are_not_kept() {
    let mut state = daemon();
    let next = create_profile(&state.config, &profile("Games")).expect("create");
    assert!(state.persist(next, false).is_err());
    assert_eq!(state.config, AppConfig::default());
}

#[test]
fn starting_fails_and_can_be_repeated() {
    let mut state = ready();
    let plan = state.begin_start().expect("plan");
    assert_eq!(plan.client, candidate());
    assert_eq!(state.status.sync, SyncState::Starting);
    assert!(state.begin_start().is_err());
    assert!(state.has_start_to_cancel());
    let error = state.start_failed(ActionableError::new(ErrorCode::CaptureUnavailable, "gone"));
    assert_eq!(error.code, ErrorCode::CaptureUnavailable);
    assert_eq!(state.status.sync, SyncState::Failed);
    state.begin_start().expect("again");
    assert_eq!(state.start_cancelled().code, ErrorCode::Conflict);
    assert!(state.start_has_ended());
    state.begin_start().expect("again");
    state.started();
    assert_eq!(state.status.sync, SyncState::Running);
    state.measured(29.5_f32.to_bits());
    assert_eq!(state.status.frames_per_second, Some(Single {
            bits: 29.5_f32.to_bits()
        }));
}

#[test]
fn steps_of_a_start_are_cancelled_or_fail() {
    assert!(matches!(after_capture(None, false), StartStep::Continue));
    assert!(matches!(after_capture(None, true), StartStep::Continue));
    assert!(matches!(
        after_capture(Some(&CaptureError::Closed), true),
        StartStep::Cancelled
    ));
    assert!(matches!(
        after_capture(Some(&CaptureError::Closed), false),
        StartStep::Failed(_)
    ));
    let error = CaptureError::UserCancelled;
    match after_capture(Some(&error), false) {
        StartStep::Failed(error) => assert_eq!(error.code, ErrorCode::CapturePermissionDenied),
        _ => panic!("the capture failed"),
    }
    assert!(matches!(
        after_first_frame(Some(&first_frame_timeout()), false),
        StartStep::Failed(_)
    ));
    assert!(matches!(after_stream(true, false), StartStep::Continue));
    assert!(matches!(after_stream(true, true), StartStep::Cancelled));
    assert!(matches!(after_stream(false, false), StartStep::Failed(_)));
}

#[test]
fn captured_frames_are_sampled_in_their_colors() {
    let frame = OwnedFrame::new(
        FrameFormat {
            width: 1,
            height: 2,
            stride: -4,
            pixel_format: CapturePixelFormat::Bgrx,
        },
        vec![3, 2, 1, 0, 6, 5, 4, 0],
    )
    .expect("frame");
    let view = sampled_view(&frame).expect("view");
    for y in 0..2 {
        let captured = frame.view().rgb_at(0, y).expect("pixel");
        let Rgb8 { red, green, blue } = view.pixel(0, y as usize);
        assert_eq!(captured, [red, green, blue]);
    }
    let processor = area_processor(&area()).expect("processor");
    assert_eq!(processor.channels()[0].id, 3);
    let colors = streamed_colors(&vec![ChannelColor {
        channel_id: 3,
        color: Rgb16 {
            red: 1,
            green: 2,
            blue: 3,
        },
    }]);
    assert_eq!(
        (colors[0].channel_id, colors[0].red, colors[0].blue),
        (3, 1, 3)
    );
}

#[test]
fn frames_are_measured_each_second() {
    let mut meter = FrameMeter::new();
    assert_eq!(meter.count(100_000_000), None);
    assert_eq!(meter.count(900_000_000), None);
    assert_eq!(meter.count(1_000_000_000), Some(3));
    assert_eq!(meter.count(10), None);
}

#[test]
fn bridge_is_checked_found_and_paired() {
    let mut state = daemon();
    state.config.bridge = Some(bridge());
    assert!(state.begin_initialize().is_some());
    state.finish_initialize(BridgeCheck::Authorized(candidate()));
    assert_eq!(state.status.bridge, BridgeState::Connected);
    state.finish_initialize(BridgeCheck::Refused);
    assert_ne!(state.status.bridge, BridgeState::Connected);

    let found = vec![FoundBridge {
        id: ID.to_owned(),
        host: "192.0.2.1".to_owned(),
        name: "Desk".to_owned(),
    }];
    match discovery_answer(Some(found)).expect("bridges") {
        ResponsePayload::Bridges(bridges) => assert_eq!(bridges.len(), 1),
        other => panic!("unexpected payload: {other:?}"),
    }
    assert!(discovery_answer(None).is_err());

    let discovered = DiscoveredBridge {
        id: BridgeId::new(ID.to_owned()).expect("bridge ID"),
        host: "192.0.2.1".to_owned(),
        name: None,
    };
    assert_eq!(pending_configuration(&discovered).host, "192.0.2.1");
    let found = candidate_from_discovered(&discovered, Some(ADDRESS)).expect("candidate");
    assert!(candidate_from_discovered(&discovered, None).is_err());
    let mut state = daemon();
    state.begin_pairing(found.clone());
    assert_eq!(state.status.bridge, BridgeState::Pairing);
    assert!(state.pairing_to_complete(&discovered.id).is_ok());
    let next = state
        .plan_paired(&found, "192.0.2.1".to_owned())
        .expect("configuration");
    save(&mut state, next);
    state.finish_pairing(found);
    assert_eq!(state.status.bridge, BridgeState::Connected);
    assert!(state.config.bridge.is_some());
    assert!(state.hue_client().is_ok());
    assert!(state.pairing_to_complete(&discovered.id).is_err());
}

#[test]
fn only_known_areas_are_selected() {
    let mut state = ready();
    let unknown = AreaId::new("other".to_owned()).expect("area ID");
    assert_eq!(
        state
            .select_area(Some(unknown))
            .expect_err("unknown area")
            .code,
        ErrorCode::AreaNotFound
    );
    assert!(state.select_area(None).is_ok());
    let event = state.set_areas(vec![area()]);
    assert!(matches!(event, Event::AreasChanged(_)));
    assert!(state.should_auto_start() == state.config.auto_start_sync);
}

#[test]
fn failures_are_classified() {
    assert_eq!(
        classify_capture(&CaptureError::ConsentRequired).code,
        ErrorCode::CapturePermissionDenied
    );
    assert_eq!(
        classify_capture(&CaptureError::Closed).code,
        ErrorCode::CaptureUnavailable
    );
    assert_eq!(
        classify_hue("anything").code,
        ErrorCode::BridgeUnavailable
    );
}

#[test]
fn files_have_places_and_names() {
    assert_eq!(
        config_path(Some(b"/home/a/.config"), None).expect("path"),
        b"/home/a/.config/omarchy-lightsync/config.toml".to_vec()
    );
    assert_eq!(
        config_path(None, Some(b"/home/a")).expect("path"),
        b"/home/a/.config/omarchy-lightsync/config.toml".to_vec()
    );
    assert_eq!(config_path(Some(b""), None), Err(PathError::EmptyConfigHome));
    assert_eq!(
        config_path(Some(b"config"), None),
        Err(PathError::RelativeConfigHome)
    );
    assert_eq!(config_path(None, None), Err(PathError::MissingHome));
    assert!(temporary_name("config.toml", 42).contains("42"));
    assert!(token_temporary_name(42).contains("42"));
}

#[test]
fn loaded_files_are_checked() {
    assert_eq!(
        loaded_config(FileRead::Missing).expect("default"),
        AppConfig::default()
    );
    assert!(matches!(
        loaded_config(FileRead::Failed),
        Err(LoadError::Failed)
    ));
    assert!(matches!(
        loaded_config(FileRead::Malformed),
        Err(LoadError::Malformed)
    ));
    let broken = AppConfig {
        schema_version: 9,
        ..AppConfig::default()
    };
    assert!(matches!(
        loaded_config(FileRead::Found(broken)),
        Err(LoadError::Invalid(_))
    ));
    assert!(loaded_pairing(FileRead::Missing)
        .expect("nothing pending")
        .is_none());
}

fn in_step(state: &DaemonState) -> bool {
    state.starting == (state.status.sync == SyncState::Starting)
        && state.syncing == (state.status.sync == SyncState::Running)
}

#[test]
fn status_tells_what_is_done() {
    let mut state = ready();
    assert!(in_step(&state));
    state.begin_start().expect("plan");
    assert!(state.starting && in_step(&state));
    state.started();
    assert!(state.syncing && in_step(&state));
    state.set_bridge_state(BridgeState::Disconnected, None);
    assert!(state.syncing && in_step(&state));
    assert_eq!(state.begin_stop(), StopStep::StopTask);
    assert!(!state.syncing && in_step(&state));
    state.finish_sync(Ok(()), None, false);
    assert!(!state.syncing && in_step(&state));
    state.begin_start().expect("plan");
    state.start_cancelled();
    assert!(!state.starting && in_step(&state));
}

#[test]
fn every_change_raises_the_revision() {
    let mut state = ready();
    let games = profile("Games");
    let next = create_profile(&state.config, &games).expect("create");
    save(&mut state, next);
    assert_eq!(state.config.revision, 1);
    let next = update_profile(&state.config, &games).expect("update");
    save(&mut state, next);
    assert_eq!(state.config.revision, 2);
    let next = activate_profile(&state.config, None).expect("activate");
    save(&mut state, next);
    assert_eq!(state.config.revision, 3);
    let next = delete_profile(&state.config, games.id).expect("delete");
    save(&mut state, next);
    assert_eq!(state.config.revision, 4);
    let update = ConfigUpdate {
        launch_at_login: Some(true),
        ..ConfigUpdate::default()
    };
    let next = state.plan_update(update).expect("update");
    save(&mut state, next);
    assert_eq!(state.config.revision, 5);
    let next = state.plan_paired(&candidate(), "192.0.2.1".to_owned()).expect("paired");
    save(&mut state, next);
    assert_eq!(state.config.revision, 6);
    let next = state.plan_forgotten();
    save(&mut state, next);
    assert_eq!(state.config.revision, 7);
}

#[test]
fn plans_reserve_what_they_need() {
    let mut state = ready();
    assert!(!Plan::Stop.reserves() && Plan::Discover.reserves());
    state.reserve(&Plan::Discover).expect("reserved");
    assert!(state.busy);
    assert_eq!(
        state.reserve(&Plan::Forget).expect_err("busy").message,
        "Another operation is already in progress"
    );
    state.reserve(&Plan::Stop).expect("stops are tried at any time");
    state.release();

    state.status.bridge = BridgeState::Pairing;
    assert!(state.reserve(&Plan::RefreshAreas).is_err());
    let id = BridgeId::new(ID.to_owned()).expect("bridge ID");
    state.reserve(&Plan::CompletePairing(id)).expect("reserved");
    state.release();
    state.reserve(&Plan::Start).expect("reserved");
    state.release();
}

#[test]
fn running_service_changes_only_its_settings() {
    let mut state = ready();
    state.status.sync = SyncState::Running;
    let settings = ConfigUpdate {
        sync: Some(SyncSettings::default()),
        ..ConfigUpdate::default()
    };
    state.reserve(&Plan::Update(settings)).expect("reserved");
    state.release();
    let other = ConfigUpdate {
        restore_on_stop: Some(false),
        ..ConfigUpdate::default()
    };
    assert_eq!(
        state.reserve(&Plan::Update(other)).expect_err("active").message,
        "Cannot update configuration while synchronization is active"
    );
    assert_eq!(
        state.reserve(&Plan::Start).expect_err("active").message,
        "Cannot start synchronization while synchronization is active"
    );
    assert!(!state.busy);
}

#[test]
fn keys_stay_only_with_a_finished_pairing() {
    let step = |outcome| pairing_step(outcome);
    assert!(matches!(
        step(PairingOutcome::Attempted(Some(PairAttempt::WaitingForLinkButton))),
        PairingStep::Wait
    ));
    assert!(matches!(
        step(PairingOutcome::Attempted(Some(PairAttempt::Paired))),
        PairingStep::ClearProgress
    ));
    match step(PairingOutcome::Attempted(None)) {
        PairingStep::Refuse(error) => assert_eq!(error.code, ErrorCode::BridgeUnavailable),
        other => panic!("unexpected step: {other:?}"),
    }
    assert!(matches!(
        step(PairingOutcome::Cleared { done: true }),
        PairingStep::Save
    ));
    match step(PairingOutcome::Cleared { done: false }) {
        PairingStep::Undo(error) => {
            assert_eq!(error.message, "Could not finalize pairing progress")
        }
        other => panic!("unexpected step: {other:?}"),
    }
    assert!(matches!(step(PairingOutcome::Saved(None)), PairingStep::Finish));
    let error = ActionableError::new(ErrorCode::Internal, "Could not save configuration");
    match step(PairingOutcome::Saved(Some(error))) {
        PairingStep::Undo(error) => assert_eq!(error.message, "Could not save configuration"),
        other => panic!("unexpected step: {other:?}"),
    }
}
