use std::collections::BTreeSet;

use lightsync::domain::config::{
    AppConfig, AreaId, BridgeConfiguration, BridgeId, CaptureBackend, ConfigUpdate,
    EntertainmentArea, EntertainmentChannel, Intensity, Language, NormalizedPoint, Profile,
    ProfileId, SyncMode, SyncSettings,
};
use lightsync::domain::ipc::{DiscoveredBridge, Request, ResponsePayload};
use lightsync::domain::state::{
    ActionableError, BridgeState, Capabilities, ErrorCode, StatusSnapshot, SyncState,
};
use lightsync::gui::catalog::{DE, EN};
use lightsync::gui::i18n::{system_language_is_german, I18n};
use lightsync::gui::model::{
    is_transport_failure, operation, should_refresh_areas, Handled, Model, Operation, Redraw,
    WorkerEvent,
};
use lightsync::gui::render::{
    area_button_id, auto_start_update, backend_id, backend_update, bridge_label, intensity_at,
    intensity_index, language_at, language_index, language_update, mode_at, mode_index, page_index,
    page_name, profile_button_id, restore_update, with_intensity, with_mode,
};
use lightsync::gui::view_state::{dashboard_state, error_id};
use lightsync::ipc::error::Error;

fn message_ids(source: &str) -> BTreeSet<&str> {
    source
        .lines()
        .filter(|line| !line.starts_with([' ', '\t', '#']) && line.contains('='))
        .filter_map(|line| line.split_once('=').map(|(id, _)| id.trim()))
        .filter(|id| !id.is_empty())
        .collect()
}

fn requests(handled: &Handled) -> Vec<&Request> {
    handled
        .commands
        .iter()
        .map(|command| &command.request)
        .collect()
}

fn connected() -> Model {
    let mut model = Model::default();
    let handled = model.handle(WorkerEvent::Status(StatusSnapshot {
        bridge: BridgeState::Connected,
        ..StatusSnapshot::default()
    }));
    assert_eq!(
        requests(&handled),
        vec![
            &Request::GetConfig,
            &Request::GetCapabilities,
            &Request::RefreshAreas
        ]
    );
    model
}

fn answer(model: &mut Model, id: u64, request: Request, payload: ResponsePayload) -> Handled {
    model.handle(WorkerEvent::Response {
        id,
        request,
        result: Ok(payload),
    })
}

fn configured() -> Model {
    let mut model = connected();
    let config = AppConfig {
        bridge: Some(BridgeConfiguration {
            id: BridgeId::new("001788fffe123456".to_owned()).expect("bridge ID"),
            host: "192.0.2.1".to_owned(),
            name: None,
        }),
        selected_area: Some(AreaId::new("desk".to_owned()).expect("area ID")),
        ..AppConfig::default()
    };
    answer(
        &mut model,
        1,
        Request::GetConfig,
        ResponsePayload::Config(config),
    );
    answer(
        &mut model,
        2,
        Request::GetCapabilities,
        ResponsePayload::Capabilities(Capabilities::default()),
    );
    answer(
        &mut model,
        3,
        Request::RefreshAreas,
        ResponsePayload::Areas(vec![area(0.0)]),
    );
    model
}

fn area(x: f32) -> EntertainmentArea {
    EntertainmentArea {
        id: AreaId::new("desk".to_owned()).expect("area ID"),
        name: "Desk".to_owned(),
        channels: vec![EntertainmentChannel {
            id: 1,
            name: None,
            position: NormalizedPoint::new(x.to_bits(), 0).expect("point"),
        }],
    }
}

#[test]
fn catalogs_have_identical_message_ids() {
    assert_eq!(message_ids(EN), message_ids(DE));
}

#[test]
fn catalogs_parse_and_all_messages_format() {
    for language in [Language::En, Language::De] {
        let i18n = I18n::new(language, false);
        for id in message_ids(EN) {
            let text = i18n.text(id).expect("message");
            assert!(!text.trim().is_empty(), "empty message: {id}");
        }
    }
}

#[test]
fn contextual_action_labels_format_in_both_languages() {
    for language in [Language::En, Language::De] {
        let i18n = I18n::new(language, false);
        assert!(i18n
            .text_with_arg("action-delete-context", "name", "Movie")
            .expect("message")
            .contains("Movie"));
        assert!(i18n
            .text_with_arg("delete-profile-body", "name", "Movie")
            .expect("message")
            .contains("Movie"));
    }
}

#[test]
fn messages_follow_the_language() {
    let english = I18n::new(Language::En, true);
    let german = I18n::new(Language::De, false);
    assert_eq!(english.text("action-start").as_deref(), Some("Start"));
    assert_eq!(german.text("action-start").as_deref(), Some("Starten"));
    assert_eq!(
        I18n::new(Language::System, true).text("action-start"),
        german.text("action-start")
    );
    assert_eq!(
        I18n::new(Language::System, false).text("action-start"),
        english.text("action-start")
    );
    assert_eq!(english.text("no-such-message"), None);
}

#[test]
fn system_language_is_the_first_that_is_set() {
    let values = |texts: [Option<&str>; 3]| {
        texts
            .into_iter()
            .map(|text| text.map(str::to_owned))
            .collect::<Vec<Option<String>>>()
    };
    assert!(system_language_is_german(&values([
        None,
        Some(""),
        Some("de_DE.UTF-8")
    ])));
    assert!(system_language_is_german(&values([
        Some("DE"),
        Some("en"),
        None
    ])));
    assert!(!system_language_is_german(&values([
        Some("en_US"),
        None,
        Some("de_DE")
    ])));
    assert!(!system_language_is_german(&values([None, None, None])));
    assert!(!system_language_is_german(&values([Some("d"), None, None])));
}

#[test]
fn sync_updates_have_an_independent_pending_operation() {
    let mut update = ConfigUpdate::default();
    update.sync = Some(SyncSettings::default());
    assert_eq!(
        operation(&Request::UpdateConfig { update }),
        Some(Operation::UpdateSync)
    );
    let mut update = ConfigUpdate::default();
    update.restore_on_stop = Some(false);
    assert_eq!(
        operation(&Request::UpdateConfig { update }),
        Some(Operation::UpdateConfig)
    );
    assert_ne!(operation(&Request::Start), operation(&Request::Stop));
}

#[test]
fn areas_are_not_fetched_for_clean_unconfigured_startup() {
    assert!(!should_refresh_areas(&StatusSnapshot::default()));
    let connected = StatusSnapshot {
        bridge: BridgeState::Connected,
        ..StatusSnapshot::default()
    };
    assert!(should_refresh_areas(&connected));
}

#[test]
fn disconnected_state_is_reconnecting_and_safe() {
    let state = dashboard_state(false, None);
    assert_eq!(state.service_id, "state-reconnecting");
    assert!(!state.action_enabled);
    assert!(state.error_id.is_some());
}

#[test]
fn running_state_maps_to_stop_action() {
    let status = StatusSnapshot {
        sync: SyncState::Running,
        ..StatusSnapshot::default()
    };
    let state = dashboard_state(true, Some(&status));
    assert_eq!(state.action_id, "action-stop");
    assert!(state.action_enabled);
    assert!(state.action_is_stop);
}

#[test]
fn transitional_state_disables_action() {
    for sync in [SyncState::Starting, SyncState::Stopping] {
        let status = StatusSnapshot {
            sync,
            ..StatusSnapshot::default()
        };
        assert!(!dashboard_state(true, Some(&status)).action_enabled);
    }
}

#[test]
fn remote_errors_do_not_mark_the_transport_disconnected() {
    let remote = Error::Remote(ActionableError::new(
        ErrorCode::LinkButtonRequired,
        "press link button",
    ));
    assert!(!is_transport_failure(&remote));
    assert!(is_transport_failure(&Error::RuntimeDirMissing));
}

#[test]
fn one_request_of_an_operation_waits_at_a_time() {
    let mut model = Model::default();
    assert!(model.send(Request::Start).is_none());
    assert!(model.send(Request::GetStatus).is_some());
    let mut model = connected();
    let command = model.send(Request::Start).expect("sent");
    assert_eq!(command.id, 4);
    assert!(model.send(Request::Start).is_none());
    assert!(model.send(Request::Stop).is_some());
    let stale = answer(
        &mut model,
        99,
        Request::Start,
        ResponsePayload::Acknowledged,
    );
    assert_eq!(stale.redraw, Redraw::Nothing);
    assert!(model.send(Request::Start).is_none());
    let handled = answer(
        &mut model,
        4,
        Request::Start,
        ResponsePayload::Acknowledged,
    );
    assert_eq!(handled.redraw, Redraw::Contents);
    assert!(model.send(Request::Start).is_some());
}

#[test]
fn nothing_is_asked_after_the_connection_is_lost() {
    let mut model = configured();
    let handled = model.handle(WorkerEvent::Disconnected);
    assert!(handled.commands.is_empty());
    assert!(model.send(Request::Start).is_none());
    assert!(model.status.is_none());
    let handled = model.handle(WorkerEvent::Status(StatusSnapshot::default()));
    assert_eq!(
        requests(&handled),
        vec![&Request::GetConfig, &Request::GetCapabilities]
    );
}

#[test]
fn errors_of_requests_are_shown_or_disconnect() {
    let mut model = configured();
    let id = model.send(Request::Start).expect("sent").id;
    model.handle(WorkerEvent::Response {
        id,
        request: Request::Start,
        result: Err(Error::Remote(ActionableError::new(
            ErrorCode::AreaNotFound,
            "no area",
        ))),
    });
    assert!(model.connected);
    let shown = model.render(&model.capture_backends(), "");
    assert_eq!(shown.error_id, Some("error-area"));
    let id = model.send(Request::Start).expect("sent").id;
    model.handle(WorkerEvent::Response {
        id,
        request: Request::Start,
        result: Err(Error::UnexpectedEof),
    });
    assert!(!model.connected);
}

#[test]
fn the_settings_chosen_last_are_sent_last() {
    let mut model = configured();
    let before = model.settings().expect("settings");
    assert!(model.choose_settings(with_mode(before, SyncMode::Game)));
    let first = model.flush_sync().expect("sent");
    let settings = model.settings().expect("settings");
    assert!(model.choose_settings(with_intensity(settings, Intensity::Extreme)));
    assert!(model.flush_sync().is_none());
    let handled = answer(
        &mut model,
        first.id,
        first.request,
        ResponsePayload::Acknowledged,
    );
    assert_eq!(handled.commands.len(), 1);
    match &handled.commands[0].request {
        Request::UpdateConfig { update } => {
            let sync = update.sync.expect("settings");
            assert_eq!(sync.mode, SyncMode::Game);
            assert_eq!(sync.intensity, Intensity::Extreme);
        }
        other => panic!("unexpected request: {other:?}"),
    }
    let last = handled.commands.into_iter().next().expect("command");
    let handled = answer(
        &mut model,
        last.id,
        last.request,
        ResponsePayload::Acknowledged,
    );
    assert!(handled.commands.is_empty());
    assert!(!Model::default().choose_settings(before));
}

#[test]
fn answers_redraw_what_they_change() {
    let mut model = configured();
    let mut config = model.config.clone().expect("config");
    config.language = Language::De;
    let id = model.send(Request::GetConfig).expect("sent").id;
    let handled = answer(
        &mut model,
        id,
        Request::GetConfig,
        ResponsePayload::Config(config),
    );
    assert_eq!(handled.redraw, Redraw::Everything);
    assert_eq!(model.language(), Language::De);

    let revision = model.areas_revision;
    let id = model.send(Request::RefreshAreas).expect("sent").id;
    answer(
        &mut model,
        id,
        Request::RefreshAreas,
        ResponsePayload::Areas(vec![area(-0.0)]),
    );
    assert_eq!(model.areas_revision, revision);
    let id = model.send(Request::RefreshAreas).expect("sent").id;
    answer(
        &mut model,
        id,
        Request::RefreshAreas,
        ResponsePayload::Areas(vec![area(0.5)]),
    );
    assert_eq!(model.areas_revision, revision + 1);
}

#[test]
fn pairing_is_remembered_until_it_is_complete() {
    let mut model = configured();
    let bridge = DiscoveredBridge {
        id: BridgeId::new("001788fffe123456".to_owned()).expect("bridge ID"),
        host: "192.0.2.1".to_owned(),
        name: None,
    };
    let id = model.send(Request::DiscoverBridges).expect("sent").id;
    answer(
        &mut model,
        id,
        Request::DiscoverBridges,
        ResponsePayload::Bridges(vec![bridge.clone()]),
    );
    assert_eq!(model.bridges_revision, 1);
    assert_eq!(model.bridge_rows()[0].host, "192.0.2.1");
    assert!(model.pair_sensitive());
    assert!(model.pairing_request().is_none());
    let command = model.send(Request::BeginPairing { bridge }).expect("sent");
    answer(
        &mut model,
        command.id,
        command.request,
        ResponsePayload::Acknowledged,
    );
    let shown = model.render(&Vec::new(), "");
    assert!(shown.complete_pairing_sensitive && !shown.bridge_actions_sensitive);
    let request = model.pairing_request().expect("pairing");
    let command = model.send(request).expect("sent");
    let handled = answer(
        &mut model,
        command.id,
        command.request,
        ResponsePayload::Acknowledged,
    );
    assert_eq!(
        requests(&handled),
        vec![&Request::GetConfig, &Request::RefreshAreas]
    );
    assert!(model.pairing_request().is_none());
}

#[test]
fn start_needs_a_configuration_that_is_supported() {
    let mut model = configured();
    let backends = model.capture_backends();
    let shown = model.render(&backends, "");
    assert!(shown.action_sensitive);
    assert_eq!(shown.action_id, "action-start");
    assert_eq!(model.action_request(), Request::Start);
    let settings = model.settings().expect("settings");
    model.choose_settings(with_mode(settings, SyncMode::Music));
    let shown = model.render(&backends, "");
    assert!(!shown.action_sensitive);
    assert_eq!(shown.mode_sensitive, [true, true, false, false]);
    assert_eq!(
        shown.mode_ids,
        [
            "mode-video",
            "mode-game",
            "mode-music-unavailable",
            "mode-scene-unavailable"
        ]
    );
    assert!(!connected().render(&Vec::new(), "").action_sensitive);
}

#[test]
fn controls_show_the_configuration() {
    let mut model = configured();
    let backends = model.capture_backends();
    let shown = model.render(&backends, " Evening ");
    let controls = shown.controls.expect("controls");
    assert_eq!((controls.mode, controls.brightness), (0, 80));
    assert_eq!(controls.capture_backend, Some(0));
    assert_eq!(controls.intensity, 1);
    assert!(controls.restore && !controls.auto_start);
    assert!(shown.create_profile_sensitive);
    assert!(shown.capture_sensitive && shown.general_sensitive);
    assert_eq!(shown.discover_id, "action-discover");
    assert!(!model.render(&backends, " ").create_profile_sensitive);
    model.send(Request::UpdateConfig {
        update: restore_update(false),
    });
    let shown = model.render(&backends, "");
    assert!(!shown.general_sensitive && !shown.capture_sensitive);
    assert!(shown.controls_sensitive);
}

#[test]
fn rows_tell_what_is_chosen() {
    let mut model = configured();
    let profile = model.new_profile("  Evening ").expect("profile");
    assert_eq!(profile.name, "Evening");
    assert!(model.new_profile(" ").is_none());
    assert!(Model::default().new_profile("Evening").is_none());
    let mut config = model.config.clone().expect("config");
    config.active_profile = Some(profile.id);
    config.profiles = vec![
        profile,
        Profile {
            id: ProfileId::from_uuid(1),
            name: "Day".to_owned(),
            settings: SyncSettings::default(),
            display: None,
            area: None,
        },
    ];
    let revision = model.profiles_revision;
    let id = model.send(Request::GetConfig).expect("sent").id;
    answer(
        &mut model,
        id,
        Request::GetConfig,
        ResponsePayload::Config(config),
    );
    assert_eq!(model.profiles_revision, revision + 1);
    let rows = model.profile_rows();
    assert!(rows[0].active && !rows[1].active);
    assert!(model.area_rows()[0].selected);
    assert_eq!(bridge_label("Desk", "192.0.2.1"), "Desk - 192.0.2.1");
    assert_eq!(area_button_id(true), "selected");
    assert_eq!(profile_button_id(false), "action-activate");
}

#[test]
fn positions_lead_back() {
    for index in 0..4 {
        assert_eq!(mode_index(mode_at(index)), index);
        assert_eq!(intensity_index(intensity_at(index)), index);
    }
    for index in 0..3 {
        assert_eq!(language_index(language_at(index)), index);
    }
    assert_eq!(mode_at(9), SyncMode::Scene);
    assert_eq!(intensity_at(9), Intensity::Extreme);
    assert_eq!(language_at(9), Language::System);
    for index in 0..5 {
        assert_eq!(page_index(Some(page_name(index))), index);
    }
    assert_eq!(page_name(9), "diagnostics");
    assert_eq!(page_index(Some("unknown")), 0);
    assert_eq!(page_index(None), 0);
}

#[test]
fn updates_name_one_setting() {
    let backends = vec![CaptureBackend::PortalPipewire, CaptureBackend::Grim];
    assert_eq!(
        backend_update(&backends, 1).expect("update").capture_backend,
        Some(CaptureBackend::Grim)
    );
    assert!(backend_update(&backends, 2).is_none());
    assert_eq!(language_update(2).language, Some(Language::De));
    assert_eq!(auto_start_update(true).auto_start_sync, Some(true));
    assert_eq!(backend_id(CaptureBackend::Grim), "capture-grim");
    assert_eq!(
        error_id(ErrorCode::BridgeNotFound),
        "error-bridge-unavailable"
    );
}
