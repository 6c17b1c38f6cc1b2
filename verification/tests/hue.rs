use lightsync::hue::area::{
    channel_positions, check_openable, check_startable, selected_area, stop_result, summarize,
    ActivationGuard,
};
use lightsync::hue::bridge::{
    best_address, candidate_of, check_reported_identity, cloud_candidates, needs_cloud_discovery,
    normalize_bridge_id, validate_bridge_identity, BridgeCandidate, BridgeDirectory, CloudBridge,
    HueClient, HueError, IpAddress, ServiceRecord,
};
use lightsync::hue::control::{
    check_path, check_read, clip_data, ensure_http_success, ControlMethod, ControlRequest,
    ControlResponse, RequestBody, SafeRequest, SafeStep,
};
use lightsync::hue::credentials::{
    registration, BridgeCredentials, RegisterResponse, Registration, LINK_BUTTON_ERROR,
};
use lightsync::hue::fake::{
    MemoryCredentialStore, RecordingStreamConnector, ScriptedControlTransport,
};
use lightsync::hue::light::{
    named_lights, needs_services, participating_lights, require_lights, resolved_lights,
    restore_result, take_snapshot,
    EntertainmentConfiguration, EntertainmentResource, HueChannel, LightAppearance,
    LightColorTemperature, LightGradient, LightResource, LightRestore, LightSnapshot, LightState,
    LightXy, ZigbeeConnectivity,
};
use lightsync::hue::opening::{OpenEvent, OpenStep, Opening};
use lightsync::hue::restore::Restoration;
use lightsync::hue::stream::{
    encode_rgb_packet, psk_identity, ChannelColor, MailboxStep, StreamMailbox, StreamSequence,
};
use lightsync::number::Double;

const AREA: &str = "ac342fb3-c480-4555-8e12-3a53e5f52344";

fn color(channel_id: u8, red: u16) -> ChannelColor {
    ChannelColor {
        channel_id,
        red,
        green: 0,
        blue: 0,
    }
}

fn configuration() -> EntertainmentConfiguration {
    EntertainmentConfiguration {
        id: AREA.to_owned(),
        name: "Desk".to_owned(),
        status: "active".to_owned(),
        active_streamer: Some("streamer".to_owned()),
        channels: vec![
            HueChannel {
                channel_id: 0,
                x: (-1.0_f32).to_bits(),
                y: 0.2_f32.to_bits(),
                z: 0.5_f32.to_bits(),
                members: vec!["service-1".to_owned()],
            },
            HueChannel {
                channel_id: 7,
                x: 1.0_f32.to_bits(),
                y: 0.0_f32.to_bits(),
                z: (-0.5_f32).to_bits(),
                members: Vec::new(),
            },
        ],
        light_services: vec!["light-1".to_owned()],
    }
}

fn double(value: f64) -> Double {
    Double {
        bits: value.to_bits(),
    }
}

fn light(id: &str, owner: &str) -> LightResource {
    LightResource {
        id: id.to_owned(),
        owner: Some(owner.to_owned()),
        on: true,
        dimming: Some(double(87.5)),
        color: Some(LightXy {
            x: double(0.31),
            y: double(0.33),
        }),
        color_temperature: Some(LightColorTemperature {
            mirek: Some(250),
            mirek_valid: true,
        }),
        gradient: None,
    }
}

fn connected(owner: &str) -> ZigbeeConnectivity {
    ZigbeeConnectivity {
        owner: owner.to_owned(),
        status: "connected".to_owned(),
    }
}

#[test]
fn bridge_identity_validation_is_strict_and_case_insensitive() {
    assert!(validate_bridge_identity("001788FFFE123456", "001788fffe123456").is_ok());
    assert!(validate_bridge_identity("001788fffe123456", "001788fffe654321").is_err());
    assert!(validate_bridge_identity("001788fffe12345z", "001788fffe123456").is_err());
}

#[test]
fn clip_v2_area_parses_status_and_sparse_channels() {
    let areas = clip_data(0, vec![configuration()], "test").expect("fixture parses");
    let area = summarize(&areas[0]);
    assert!(area.active);
    assert_eq!(area.active_streamer.as_deref(), Some("streamer"));
    assert_eq!(area.channels, 2);
    assert_eq!(areas[0].channels[1].channel_id, 7);
    assert_eq!(f32::from_bits(areas[0].channels[1].y), 0.0);
}

#[test]
fn hue_stream_v2_packet_has_canonical_header_and_rgb16_data() {
    let packet = encode_rgb_packet(
        "AC342FB3-C480-4555-8E12-3A53E5F52344",
        9,
        &[ChannelColor {
            channel_id: 7,
            red: 0x1234,
            green: 0x5678,
            blue: 0x9abc,
        }],
    )
    .expect("packet encodes");
    assert_eq!(&packet[..9], b"HueStream");
    assert_eq!(&packet[9..16], &[2, 0, 9, 0, 0, 0, 0]);
    assert_eq!(&packet[16..52], b"ac342fb3-c480-4555-8e12-3a53e5f52344");
    assert_eq!(&packet[52..], &[7, 0x12, 0x34, 0x56, 0x78, 0x9a, 0xbc]);
}

#[test]
fn hue_stream_rejects_duplicate_channels() {
    let color = ChannelColor {
        channel_id: 1,
        red: 0,
        green: 0,
        blue: 0,
    };
    assert!(
        encode_rgb_packet("ac342fb3-c480-4555-8e12-3a53e5f52344", 0, &[color, color]).is_err()
    );
}

#[test]
fn restoration_payload_contains_only_writable_pre_stream_state() {
    let light = light("light-1", "device-1");
    assert_eq!(
        light.restore_state(),
        LightState {
            on: true,
            brightness: Some(double(87.5)),
            appearance: LightAppearance::Mirek(250),
        }
    );
}

#[test]
fn credential_debug_output_is_redacted() {
    let credentials = BridgeCredentials::new("application-secret".into(), "0011".into())
        .expect("credentials are valid");
    let output = credentials.debug_text();
    assert!(!output.contains("application-secret"));
    assert!(!output.contains("0011"));
}

#[test]
fn stream_mailbox_retains_only_the_latest_frame() {
    let mut mailbox = StreamMailbox::new();
    for red in [1, 2, 3] {
        mailbox
            .send(vec![ChannelColor {
                channel_id: 0,
                red,
                green: 0,
                blue: 0,
            }])
            .expect("mailbox");
    }
    let latest = match mailbox.take() {
        MailboxStep::Frame(latest) => latest,
        other => panic!("unexpected step: {other:?}"),
    };
    assert_eq!(latest[0].red, 3);
    assert!(matches!(mailbox.take(), MailboxStep::Wait));
}

#[test]
fn mailbox_ends_by_stop_or_failure() {
    let mut mailbox = StreamMailbox::new();
    assert!(!mailbox.is_stopped());
    mailbox.stop();
    assert!(mailbox.is_stopped());
    assert!(matches!(mailbox.take(), MailboxStep::Stop));
    assert!(mailbox.send(vec![color(0, 1)]).is_err());
    assert!(matches!(mailbox.take(), MailboxStep::Stop));

    let mut mailbox = StreamMailbox::new();
    mailbox.fail("handshake failed".to_owned());
    let error = mailbox.send(vec![color(0, 1)]).expect_err("failed stream");
    assert!(error.message().contains("handshake failed"));
}

#[test]
fn packets_grow_with_their_channels_and_need_a_uuid() {
    let colors: Vec<ChannelColor> = (0..20).map(|id| color(id, 0)).collect();
    assert_eq!(
        encode_rgb_packet(AREA, 0, &colors).expect("packet").len(),
        52 + 7 * 20
    );
    assert_eq!(encode_rgb_packet(AREA, 0, &[]).expect("packet").len(), 52);
    assert!(encode_rgb_packet("area", 0, &colors).is_err());
}

#[test]
fn sequence_wraps() {
    let mut sequence = StreamSequence::new();
    assert_eq!(sequence.next, 0);
    for _ in 0..256 {
        sequence.advance();
    }
    assert_eq!(sequence.next, 0);
    sequence.advance();
    assert_eq!(sequence.next, 1);
}

#[test]
fn identity_fits_its_buffer_with_a_terminator() {
    assert_eq!(psk_identity(b"key", b"secret", 4, 6), Some(b"key\0".to_vec()));
    assert_eq!(psk_identity(b"key", b"secret", 3, 6), None);
    assert_eq!(psk_identity(b"key", b"secret", 4, 5), None);
}

#[test]
fn identifiers_are_normalized_once() {
    let normal = normalize_bridge_id("001788FFFE123456").expect("valid");
    assert_eq!(normal, "001788fffe123456");
    assert_eq!(normalize_bridge_id(&normal).expect("valid"), normal);
    assert!(normalize_bridge_id("001788fffe12345").is_err());
    assert!(normalize_bridge_id("001788fffe1234567").is_err());
    assert!(check_reported_identity("001788fffe123456", &vec!["001788FFFE123456".to_owned()]).is_ok());
    assert!(check_reported_identity("001788fffe123456", &Vec::new()).is_err());
}

#[test]
fn addresses_are_chosen_and_refused() {
    let private = IpAddress::V4([192, 0, 2, 1]);
    let local6 = IpAddress::V6([0xfe80, 0, 0, 0, 0, 0, 0, 1]);
    assert_eq!(best_address(&vec![local6, private]), Some(private));
    assert_eq!(best_address(&Vec::new()), None);
    assert!(IpAddress::V4([0, 0, 0, 0]).is_unspecified());
    assert!(IpAddress::V4([239, 1, 1, 1]).is_multicast());
    assert!(IpAddress::V4([127, 0, 0, 1]).is_loopback());
    assert!(IpAddress::V6([0, 0, 0, 0, 0, 0, 0, 1]).is_loopback());
    assert!(IpAddress::V6([0xff02, 0, 0, 0, 0, 0, 0, 1]).is_multicast());
    assert!(BridgeCandidate::manual("001788FFFE123456", private).is_ok());
    assert!(BridgeCandidate::manual("id", private).is_err());
}

#[test]
fn discovered_bridges_are_sorted_and_single() {
    let mut directory = BridgeDirectory::new();
    for (id, last) in [
        ("001788fffe000002", 2),
        ("001788fffe000001", 1),
        ("001788fffe000002", 3),
    ] {
        directory.insert(
            BridgeCandidate::manual(id, IpAddress::V4([192, 0, 2, last])).expect("candidate"),
        );
    }
    let bridges = directory.into_bridges();
    let ids: Vec<&str> = bridges.iter().map(|bridge| bridge.id.as_str()).collect();
    assert_eq!(ids, vec!["001788fffe000001", "001788fffe000002"]);
    assert!(!needs_cloud_discovery(&bridges));
    assert!(needs_cloud_discovery(&Vec::new()));
}

#[test]
fn service_records_become_candidates() {
    let record = ServiceRecord {
        bridge_id: Some("001788FFFE123456".to_owned()),
        id: None,
        name: Some("Desk".to_owned()),
        addresses: vec![IpAddress::V4([192, 0, 2, 1])],
    };
    let candidate = candidate_of(record).expect("candidate");
    assert_eq!(candidate.id, "001788fffe123456");
    assert!(candidate_of(ServiceRecord {
        bridge_id: None,
        id: None,
        name: None,
        addresses: vec![IpAddress::V4([192, 0, 2, 1])],
    })
    .is_none());
    let cloud = cloud_candidates(&vec![CloudBridge {
        id: "001788fffe123456".to_owned(),
        address: IpAddress::V4([192, 0, 2, 1]),
    }])
    .expect("cloud bridges");
    assert_eq!(cloud.len(), 1);
    assert!(HueClient::new(cloud[0].clone()).is_ok());
}

#[test]
fn credentials_are_checked_and_decoded() {
    let credentials =
        BridgeCredentials::new("key".to_owned(), "00FFa1".to_owned()).expect("credentials");
    assert_eq!(credentials.key_bytes(), vec![0x00, 0xff, 0xa1]);
    assert_eq!(credentials.application_key(), "key");
    assert!(BridgeCredentials::new(String::new(), "0011".to_owned()).is_err());
    assert!(BridgeCredentials::new("key".to_owned(), "001".to_owned()).is_err());
    assert!(BridgeCredentials::new("key".to_owned(), "zz".to_owned()).is_err());
}

#[test]
fn registration_waits_for_the_button() {
    let waiting = registration(vec![RegisterResponse::Error {
        error_type: LINK_BUTTON_ERROR,
    }])
    .expect("waiting is no error");
    assert!(matches!(waiting, Registration::WaitingForLinkButton));
    let granted = registration(vec![RegisterResponse::Success {
        username: "key".to_owned(),
        clientkey: "0011".to_owned(),
    }])
    .expect("keys");
    match granted {
        Registration::Granted(credentials) => assert_eq!(credentials.client_key(), "0011"),
        Registration::WaitingForLinkButton => panic!("keys were handed out"),
    }
    assert!(registration(Vec::new()).is_err());
    assert!(registration(vec![RegisterResponse::Error { error_type: 7 }]).is_err());
}

#[test]
fn appearance_prefers_gradient_and_temperature() {
    let mut resource = light("light-1", "device-1");
    resource.color_temperature = None;
    assert!(matches!(
        resource.restore_state().appearance,
        LightAppearance::Color(_)
    ));
    resource.gradient = Some(LightGradient {
        points: vec![
            LightXy {
                x: double(0.1),
                y: double(0.2),
            },
            LightXy {
                x: double(0.3),
                y: double(0.4),
            },
        ],
        mode: None,
    });
    assert!(matches!(
        resource.restore_state().appearance,
        LightAppearance::Gradient(_)
    ));
    resource.gradient = None;
    resource.color = None;
    assert_eq!(resource.restore_state().appearance, LightAppearance::Unchanged);
}

#[test]
fn snapshot_holds_the_connected_lights_of_the_area() {
    let area = configuration();
    assert_eq!(named_lights(&area), vec!["light-1".to_owned()]);
    let services = vec![EntertainmentResource {
        id: "service-1".to_owned(),
        owner: Some("device-1".to_owned()),
        renderer_reference: None,
    }];
    let lights = vec![light("light-1", "device-1"), light("light-2", "device-2")];
    let mut unnamed = configuration();
    unnamed.light_services = Vec::new();
    assert_eq!(
        resolved_lights(&unnamed, &services, &lights),
        vec!["light-1".to_owned()]
    );
    assert!(needs_services(&unnamed) && !needs_services(&area));
    assert_eq!(
        participating_lights(&unnamed, &services, &lights),
        vec!["light-1".to_owned()]
    );
    let strangers = vec![EntertainmentResource {
        id: "service-1".to_owned(),
        owner: None,
        renderer_reference: Some("light-2".to_owned()),
    }];
    assert_eq!(
        participating_lights(&unnamed, &strangers, &lights),
        vec!["light-2".to_owned()]
    );
    let ids = participating_lights(&area, &strangers, &lights);
    assert_eq!(ids, vec!["light-1".to_owned()]);
    require_lights(&ids).expect("lights");
    assert!(require_lights(&Vec::new()).is_err());
    let snapshot =
        take_snapshot(&ids, &lights, &vec![connected("device-1")]).expect("snapshot");
    assert_eq!(snapshot.light_count(), 1);
    assert_eq!(snapshot.lights[0].id, "light-1");
    assert!(take_snapshot(&vec!["light-9".to_owned()], &lights, &Vec::new()).is_err());
    assert!(restore_result(0).is_ok());
    assert!(restore_result(1).is_err());
}

#[test]
fn requests_carry_paths_keys_and_bodies() {
    let pairing = ControlRequest::pairing();
    assert_eq!(pairing.method, ControlMethod::Post);
    assert_eq!(pairing.path, "/api");
    assert_eq!(pairing.application_key(), None);
    assert!(matches!(
        pairing.body,
        Some(RequestBody::Register {
            generate_client_key: true,
            ..
        })
    ));
    let lights = ControlRequest::resources("light", "key");
    assert_eq!(lights.path, "/clip/v2/resource/light");
    assert_eq!(lights.application_key(), Some("key"));
    let action = ControlRequest::area_action(AREA, "key", "start").expect("request");
    assert_eq!(action.method, ControlMethod::Put);
    assert_eq!(action.body, Some(RequestBody::Action("start".to_owned())));
    assert!(ControlRequest::area("../x", "key").is_err());
    let restore = ControlRequest::restore_light(
        LightRestore {
            id: "light-1".to_owned(),
            state: light("light-1", "device-1").restore_state(),
        },
        "key",
    );
    assert_eq!(restore.path, "/clip/v2/resource/light/light-1");
    assert!(check_path("/api").is_ok());
    assert!(check_path("api").is_err());
    assert!(check_path("/a/../b").is_err());
}

#[test]
fn answers_are_checked() {
    assert!(ensure_http_success(200, "read").is_ok());
    assert!(ensure_http_success(299, "read").is_ok());
    assert!(ensure_http_success(300, "read")
        .expect_err("redirect")
        .message()
        .contains("read"));
    assert!(check_read(404).is_err());
    assert!(clip_data(1, vec![1], "read").is_err());
    assert_eq!(clip_data(0, vec![1], "read").expect("data"), vec![1]);
}

#[test]
fn safe_requests_are_tried_again() {
    let mut request: SafeRequest<u8> = SafeRequest::new();
    let failed = || HueError::new("unreachable".to_owned());
    assert!(matches!(request.record(Err(failed())), SafeStep::Retry { .. }));
    assert!(matches!(
        request.record(Ok(ControlResponse {
            status: 503,
            body: 1
        })),
        SafeStep::Retry { .. }
    ));
    match request.record(Err(failed())) {
        SafeStep::Done(Ok(response)) => assert_eq!(response.status, 503),
        _ => panic!("the response is kept"),
    }
    let mut request: SafeRequest<u8> = SafeRequest::new();
    assert!(matches!(
        request.record(Ok(ControlResponse {
            status: 200,
            body: 1
        })),
        SafeStep::Done(Ok(_))
    ));
}

#[test]
fn areas_are_selected_started_and_stopped() {
    assert!(selected_area(vec![configuration()]).is_ok());
    assert!(selected_area(Vec::new()).is_err());
    assert!(check_startable(&configuration()).is_err());
    let mut idle = configuration();
    idle.status = "inactive".to_owned();
    idle.active_streamer = None;
    assert!(check_startable(&idle).is_ok());
    assert!(check_openable(&configuration()).is_err());
    assert!(check_openable(&idle).is_ok());
    let mut empty = idle;
    empty.channels = Vec::new();
    assert!(check_openable(&empty).is_err());
    let positions = channel_positions(&configuration());
    assert_eq!(positions[1].channel_id, 7);
    assert_eq!(f32::from_bits(positions[0].x), -1.0);

    let failed = || Err(HueError::new("worker".to_owned()));
    assert!(stop_result(Ok(()), Ok(()), Ok(())).is_ok());
    assert!(stop_result(failed(), Ok(()), Ok(())).is_err());
    assert!(stop_result(Ok(()), failed(), Ok(())).is_err());
    assert!(stop_result(Ok(()), Ok(()), failed()).is_err());
}

#[test]
fn activation_is_undone_once() {
    let snapshot = || LightSnapshot {
        lights: vec![LightRestore {
            id: "light-1".to_owned(),
            state: light("light-1", "device-1").restore_state(),
        }],
    };
    let mut guard = ActivationGuard::new(snapshot());
    assert!(guard.give_up().is_none());
    let mut guard = ActivationGuard::new(snapshot());
    guard.arm();
    let cleanup = guard.give_up().expect("cleanup");
    assert!(cleanup.snapshot.is_some());
    assert!(guard.give_up().is_none());
    assert!(ActivationGuard::new(snapshot()).disarm(true).is_some());
    assert!(ActivationGuard::new(snapshot()).disarm(false).is_none());
}

#[test]
fn scripted_transport_answers_in_order() {
    let mut transport = ScriptedControlTransport::new();
    transport.push_response(ControlResponse {
        status: 200,
        body: 7,
    });
    transport.push_error("offline".to_owned());
    let first = transport
        .execute(ControlRequest::pairing())
        .expect("response");
    assert_eq!((first.status, first.body), (200, 7));
    assert!(transport.execute(ControlRequest::pairing()).is_err());
    assert!(transport.execute(ControlRequest::pairing()).is_err());
    assert_eq!(transport.requests().len(), 3);
}

#[test]
fn memory_store_forgets() {
    let mut store = MemoryCredentialStore::new();
    let credentials =
        BridgeCredentials::new("key".to_owned(), "0011".to_owned()).expect("credentials");
    assert!(store.load("001788fffe123456").is_err());
    store.store("001788fffe123456", &credentials);
    assert_eq!(
        store
            .load("001788fffe123456")
            .expect("credentials")
            .application_key(),
        "key"
    );
    store.forget("001788fffe123456");
    assert!(store.load("001788fffe123456").is_err());
}

#[test]
fn recording_connector_keeps_the_bytes() {
    let mut stream = RecordingStreamConnector::default();
    assert_eq!(stream.write(b"abc"), 3);
    assert_eq!(stream.write(b"de"), 2);
    assert_eq!(stream.bytes(), b"abcde".to_vec());
}

fn snapshot_of(ids: &[&str]) -> LightSnapshot {
    LightSnapshot {
        lights: ids
            .iter()
            .map(|id| LightRestore {
                id: (*id).to_owned(),
                state: light(id, "device-1").restore_state(),
            })
            .collect(),
    }
}

fn idle_area() -> EntertainmentConfiguration {
    let mut area = configuration();
    area.status = "inactive".to_owned();
    area
}

#[test]
fn streams_are_opened_in_order() {
    let (opening, step) = Opening::new(true).advance(OpenEvent::AreaRead(idle_area()));
    assert!(matches!(step, OpenStep::TakeSnapshot));
    let (opening, step) = opening.advance(OpenEvent::Connected);
    assert!(matches!(step, OpenStep::Wait));
    let (opening, step) = opening.advance(OpenEvent::SnapshotTaken(snapshot_of(&["a"])));
    assert!(matches!(step, OpenStep::Start));
    let (opening, step) = opening.advance(OpenEvent::Started);
    assert!(matches!(step, OpenStep::Connect));
    let (opening, step) = opening.advance(OpenEvent::Connected);
    match step {
        OpenStep::Deliver(snapshot) => assert_eq!(snapshot, Some(snapshot_of(&["a"]))),
        other => panic!("unexpected step: {other:?}"),
    }
    assert!(opening.abandon().is_none());
}

#[test]
fn active_areas_are_refused_and_left_alone() {
    let (opening, step) = Opening::new(true).advance(OpenEvent::AreaRead(configuration()));
    match step {
        OpenStep::Refuse(error) => assert_eq!(
            error.message(),
            "Hue Entertainment area is already active; refusing to take it over"
        ),
        other => panic!("unexpected step: {other:?}"),
    }
    let (opening, step) = opening.advance(OpenEvent::SnapshotTaken(snapshot_of(&["a"])));
    assert!(matches!(step, OpenStep::Wait));
    assert!(opening.abandon().is_none());
}

#[test]
fn started_areas_are_cleaned_up() {
    let failure = || OpenEvent::Failed(HueError::new("gone".to_owned()));
    let starting = || {
        let (opening, _) = Opening::new(false).advance(OpenEvent::AreaRead(idle_area()));
        opening
            .advance(OpenEvent::SnapshotTaken(snapshot_of(&["a"])))
            .0
    };
    let (_, step) = starting().advance(failure());
    match step {
        OpenStep::CleanUp { cleanup, error } => {
            assert_eq!(cleanup.snapshot, Some(snapshot_of(&["a"])));
            assert_eq!(error.message(), "gone");
        }
        other => panic!("unexpected step: {other:?}"),
    }
    let (connecting, _) = starting().advance(OpenEvent::Started);
    let cleanup = connecting.abandon().expect("cleanup");
    assert_eq!(cleanup.snapshot, Some(snapshot_of(&["a"])));
    let (connecting, _) = starting().advance(OpenEvent::Started);
    let (_, step) = connecting.advance(OpenEvent::Connected);
    assert!(matches!(step, OpenStep::Deliver(None)));
    let (opening, _) = Opening::new(true).advance(OpenEvent::AreaRead(idle_area()));
    let (_, step) = opening.advance(failure());
    assert!(matches!(step, OpenStep::Refuse(_)));
}

#[test]
fn every_light_is_tried() {
    let mut restoration = Restoration::new(snapshot_of(&["a", "b", "c"]));
    let mut paths = Vec::new();
    while let Some(request) = restoration.next("key") {
        assert_eq!(request.application_key(), Some("key"));
        restoration = restoration.record(request.path.ends_with('b'));
        paths.push(request.path);
    }
    assert_eq!(
        paths,
        [
            "/clip/v2/resource/light/a",
            "/clip/v2/resource/light/b",
            "/clip/v2/resource/light/c"
        ]
    );
    assert_eq!(
        restoration.result().expect_err("failures").message(),
        "could not restore 2 Hue light(s)"
    );
    assert!(Restoration::new(snapshot_of(&[])).result().is_ok());
}

#[test]
fn numbers_of_a_bridge_are_compared() {
    assert_eq!(double(0.0), double(-0.0));
    assert_eq!(double(0.5), double(0.5));
    assert_ne!(double(0.5), double(-0.5));
    assert_ne!(double(0.5), double(f64::NAN));
    let point = |x| LightXy {
        x: double(x),
        y: double(0.2),
    };
    assert_eq!(point(0.0), point(-0.0));
    assert_ne!(point(0.1), point(0.2));
    let positions = channel_positions(&configuration());
    let mut other = positions[1];
    other.y = (-0.0_f32).to_bits();
    assert_eq!(other, positions[1]);
    other.y = f32::NAN.to_bits();
    assert_ne!(other, other);
}
