//! What the command line reads and shows, by the names of its values.
use crate::cli::report::Component;
use crate::cli::report;
use crate::cli::values;
use crate::domain::config::{
    AppConfigView, CaptureBackend, Intensity, Language, ProfileId, ProfileView, SyncMode,
    SyncSettings,
};
use crate::domain::config;
use crate::domain::state::{
    ActionableErrorView, BridgeState, CapabilitiesView, CaptureState, ErrorCode, ServiceState,
    StatusSnapshotView, SyncState,
};
use crate::encoding;
use crate::text;
use vstd::prelude::*;

verus! {

/// Every state of the service and of the bridge has a name of its own.
pub proof fn law_service_and_bridge_states_have_their_names(service: ServiceState, bridge: BridgeState)
    ensures
        values::service_state_text(service) == "starting"@ <==> service == ServiceState::Starting,
        values::service_state_text(service) == "ready"@ <==> service == ServiceState::Ready,
        values::service_state_text(service) == "stopping"@ <==> service == ServiceState::Stopping,
        values::service_state_text(service) == "failed"@ <==> service == ServiceState::Failed,
        values::bridge_state_text(bridge) == "needs_setup"@ <==> bridge
            == BridgeState::Unconfigured,
        values::bridge_state_text(bridge) == "unreachable"@ <==> bridge
            == BridgeState::Disconnected,
        values::bridge_state_text(bridge) == "discovering"@ <==> bridge
            == BridgeState::Discovering,
        values::bridge_state_text(bridge) == "pairing"@ <==> bridge == BridgeState::Pairing,
        values::bridge_state_text(bridge) == "connecting"@ <==> bridge == BridgeState::Connecting,
        values::bridge_state_text(bridge) == "ready"@ <==> bridge == BridgeState::Connected,
{
    reveal_strlit("starting");
    reveal_strlit("ready");
    reveal_strlit("stopping");
    reveal_strlit("failed");
    reveal_strlit("needs_setup");
    reveal_strlit("unreachable");
    reveal_strlit("discovering");
    reveal_strlit("pairing");
    reveal_strlit("connecting");
    assert("starting"@.len() == 8);
    assert("ready"@.len() == 5);
    assert("stopping"@.len() == 8);
    assert("failed"@.len() == 6);
    assert("needs_setup"@.len() == 11);
    assert("unreachable"@.len() == 11);
    assert("discovering"@.len() == 11);
    assert("pairing"@.len() == 7);
    assert("connecting"@.len() == 10);
    assert("starting"@[2] != "stopping"@[2]);
    assert("needs_setup"@[0] != "unreachable"@[0]);
    assert("needs_setup"@[0] != "discovering"@[0]);
    assert("unreachable"@[0] != "discovering"@[0]);
}

/// Every state of the capture and of the synchronization has a name of its own.
pub proof fn law_capture_and_sync_states_have_their_names(capture: CaptureState, sync: SyncState)
    ensures
        values::capture_state_text(capture) == "idle"@ <==> capture == CaptureState::Idle,
        values::capture_state_text(capture) == "requesting_permission"@ <==> capture
            == CaptureState::RequestingPermission,
        values::capture_state_text(capture) == "active"@ <==> capture == CaptureState::Capturing,
        values::capture_state_text(capture) == "failed"@ <==> capture == CaptureState::Failed,
        values::sync_state_text(sync) == "idle"@ <==> sync == SyncState::Stopped,
        values::sync_state_text(sync) == "starting"@ <==> sync == SyncState::Starting,
        values::sync_state_text(sync) == "active"@ <==> sync == SyncState::Running,
        values::sync_state_text(sync) == "stopping"@ <==> sync == SyncState::Stopping,
        values::sync_state_text(sync) == "failed"@ <==> sync == SyncState::Failed,
{
    reveal_strlit("idle");
    reveal_strlit("requesting_permission");
    reveal_strlit("active");
    reveal_strlit("failed");
    reveal_strlit("starting");
    reveal_strlit("stopping");
    assert("idle"@.len() == 4);
    assert("requesting_permission"@.len() == 21);
    assert("active"@.len() == 6);
    assert("failed"@.len() == 6);
    assert("starting"@.len() == 8);
    assert("stopping"@.len() == 8);
    assert("active"@[0] != "failed"@[0]);
    assert("starting"@[2] != "stopping"@[2]);
}

/// A language and a backend are read from their names, written as they are shown, and
/// from nothing else.
pub proof fn law_languages_and_backends_are_read_by_name(
    s: Seq<char>,
    language: Language,
    backend: CaptureBackend,
)
    ensures
        values::parse_language_spec(s) == Some(Language::System) <==> s == "system"@,
        values::parse_language_spec(s) == Some(Language::En) <==> s == "en"@,
        values::parse_language_spec(s) == Some(Language::De) <==> s == "de"@,
        values::parse_language_spec(s) == Some(language) <==> s == values::language_name_text(
            language,
        ),
        values::parse_backend_spec(s) == Some(CaptureBackend::PortalPipewire) <==> s
            == "portal-pipewire"@,
        values::parse_backend_spec(s) == Some(CaptureBackend::Grim) <==> s == "grim"@,
        values::parse_backend_spec(s) == Some(backend) <==> s
            == values::capture_backend_name_text(backend),
{
    reveal_strlit("system");
    reveal_strlit("en");
    reveal_strlit("de");
    reveal_strlit("portal-pipewire");
    reveal_strlit("grim");
    assert("system"@.len() == 6);
    assert("en"@.len() == 2);
    assert("de"@.len() == 2);
    assert("portal-pipewire"@.len() == 15);
    assert("grim"@.len() == 4);
    assert("en"@[0] != "de"@[0]);
}

/// A mode and an intensity are read from their names, written as they are shown, and from
/// nothing else.
pub proof fn law_modes_and_intensities_are_read_by_name(
    s: Seq<char>,
    mode: SyncMode,
    intensity: Intensity,
)
    ensures
        values::parse_mode_spec(s) == Some(SyncMode::Video) <==> s == "video"@,
        values::parse_mode_spec(s) == Some(SyncMode::Game) <==> s == "game"@,
        values::parse_mode_spec(s) == Some(SyncMode::Music) <==> s == "music"@,
        values::parse_mode_spec(s) == Some(SyncMode::Scene) <==> s == "scene"@,
        values::parse_mode_spec(s) == Some(mode) <==> s == values::sync_mode_name_text(mode),
        values::parse_intensity_spec(s) == Some(Intensity::Subtle) <==> s == "subtle"@,
        values::parse_intensity_spec(s) == Some(Intensity::Moderate) <==> s == "moderate"@,
        values::parse_intensity_spec(s) == Some(Intensity::High) <==> s == "high"@,
        values::parse_intensity_spec(s) == Some(Intensity::Extreme) <==> s == "extreme"@,
        values::parse_intensity_spec(s) == Some(intensity) <==> s
            == values::intensity_name_text(intensity),
{
    reveal_strlit("video");
    reveal_strlit("game");
    reveal_strlit("music");
    reveal_strlit("scene");
    reveal_strlit("subtle");
    reveal_strlit("moderate");
    reveal_strlit("high");
    reveal_strlit("extreme");
    assert("video"@.len() == 5);
    assert("game"@.len() == 4);
    assert("music"@.len() == 5);
    assert("scene"@.len() == 5);
    assert("subtle"@.len() == 6);
    assert("moderate"@.len() == 8);
    assert("high"@.len() == 4);
    assert("extreme"@.len() == 7);
    assert("video"@[0] != "music"@[0]);
    assert("video"@[0] != "scene"@[0]);
    assert("game"@[0] != "high"@[0]);
    assert("music"@[0] != "scene"@[0]);
}

/// Yes and no are read in each of their four forms, in whatever case, and nothing else is.
pub proof fn law_yes_and_no_are_read_in_any_case(s: Seq<char>)
    ensures
        ({
            let small = text::ascii_lower_text(s);
            &&& values::bool_value(s) == Some(true) <==> small == "true"@ || small == "yes"@
                || small == "on"@ || small == "1"@
            &&& values::bool_value(s) == Some(false) <==> small == "false"@ || small == "no"@
                || small == "off"@ || small == "0"@
            &&& values::bool_value(small) == values::bool_value(s)
        }),
{
    let small = text::ascii_lower_text(s);
    reveal_strlit("true");
    reveal_strlit("yes");
    reveal_strlit("on");
    reveal_strlit("1");
    reveal_strlit("false");
    reveal_strlit("no");
    reveal_strlit("off");
    reveal_strlit("0");
    assert(text::ascii_lower_text("true"@) =~= "true"@);
    assert(text::ascii_lower_text("yes"@) =~= "yes"@);
    assert(text::ascii_lower_text("on"@) =~= "on"@);
    assert(text::ascii_lower_text("1"@) =~= "1"@);
    assert(text::ascii_lower_text("false"@) =~= "false"@);
    assert(text::ascii_lower_text("no"@) =~= "no"@);
    assert(text::ascii_lower_text("off"@) =~= "off"@);
    assert(text::ascii_lower_text("0"@) =~= "0"@);
    assert(text::ascii_lower_text(small) =~= small);
    assert("on"@[1] == 'n' && "no"@[1] == 'o');
    assert("yes"@[0] != "off"@[0]);
    assert("1"@[0] != "0"@[0]);
}

/// A brightness is accepted exactly where it is a whole number up to a hundred.
pub proof fn law_brightness_is_a_percentage(s: Seq<char>)
    ensures
        values::brightness_problem(s) is None <==> text::unsigned_value(
            vstd::utf8::encode_utf8(s),
            100,
        ) is Some,
        values::brightness_problem(s) is None ==> values::byte_value(s) == text::unsigned_value(
            vstd::utf8::encode_utf8(s),
            100,
        ),
{
}

/// An update of the settings names them and nothing else.
pub proof fn law_settings_are_updated_alone(settings: SyncSettings, config: AppConfigView)
    ensures
        values::sync_update(settings).sync == Some(settings),
        config::updated_config(config, values::sync_update(settings)) == (AppConfigView {
            sync: settings,
            revision: config::updated_config(config, values::sync_update(settings)).revision,
            ..config
        }),
{
}

/// An error concerns the bridge, the capture or the synchronization by its code, and the
/// service where it concerns none of these.
pub proof fn law_errors_concern_their_component(code: ErrorCode)
    ensures
        report::concerned(code) == Component::Bridge <==> code == ErrorCode::BridgeNotFound || code
            == ErrorCode::BridgeUnavailable || code == ErrorCode::LinkButtonRequired,
        report::concerned(code) == Component::Capture <==> code
            == ErrorCode::CapturePermissionDenied || code == ErrorCode::CaptureUnavailable || code
            == ErrorCode::DisplayNotFound,
        report::concerned(code) == Component::Sync <==> code == ErrorCode::SyncUnavailable || code
            == ErrorCode::Conflict || code == ErrorCode::AreaNotFound,
{
}

/// The message of an error is shown with the component that it concerns, and with no
/// other; without an error none has a message.
pub proof fn law_message_is_shown_with_its_component(
    status: StatusSnapshotView,
    component: Component,
)
    ensures
        ({
            let shown = report::shown_detail(status, component);
            &&& status.error is None ==> shown is None
            &&& status.error is Some && report::concerned(status.error->Some_0.code) == component
                ==> shown == Some(status.error->Some_0.message)
            &&& status.error is Some && report::concerned(status.error->Some_0.code) != component
                ==> shown is None
        }),
{
}

/// The area that is shown is the active one, else the selected one.
pub proof fn law_active_area_is_shown_first(
    status: StatusSnapshotView,
    config: Option<AppConfigView>,
)
    ensures
        ({
            let shown = report::shown_area(status, config);
            &&& status.active_area is Some ==> shown == status.active_area
            &&& status.active_area is None && config is Some ==> shown
                == config->Some_0.selected_area
            &&& status.active_area is None && config is None ==> shown is None
        }),
{
}

proof fn lemma_first_profile(profiles: Seq<ProfileView>, i: int)
    requires
        0 <= i < profiles.len(),
        forall|j: int| 0 <= j < i ==> (#[trigger] profiles[j]).id != profiles[i].id,
    ensures
        report::first_profile(profiles, profiles[i].id) == Some(profiles[i]),
    decreases i,
{
    if i > 0 {
        let rest = profiles.drop_first();
        assert(rest[i - 1] == profiles[i]);
        assert forall|j: int| 0 <= j < i - 1 implies (#[trigger] rest[j]).id != rest[i - 1].id by {
            assert(rest[j] == profiles[j + 1]);
        }
        assert(profiles[0].id != profiles[i].id);
        lemma_first_profile(rest, i - 1);
    }
}

proof fn lemma_no_profile(profiles: Seq<ProfileView>, id: ProfileId)
    requires
        forall|j: int| 0 <= j < profiles.len() ==> (#[trigger] profiles[j]).id != id,
    ensures
        report::first_profile(profiles, id) is None,
    decreases profiles.len(),
{
    if profiles.len() > 0 {
        let rest = profiles.drop_first();
        assert forall|j: int| 0 <= j < rest.len() implies (#[trigger] rest[j]).id != id by {
            assert(rest[j] == profiles[j + 1]);
        }
        lemma_no_profile(rest, id);
    }
}

/// The profile that is shown is the active one, with its identifier and its name; none is
/// where none is active or the active one is not known.
pub proof fn law_active_profile_is_shown(status: StatusSnapshotView, config: AppConfigView, i: int)
    requires
        0 <= i < config.profiles.len(),
        forall|j: int| 0 <= j < i ==> (#[trigger] config.profiles[j]).id != config.profiles[i].id,
    ensures
        ({
            let shown = report::shown_status(status, Some(config)).profile;
            &&& config.active_profile == Some(config.profiles[i].id) ==> shown is Some
                && shown->Some_0.id == encoding::uuid_text(config.profiles[i].id.uuid())
                && shown->Some_0.name == config.profiles[i].name
            &&& config.active_profile is None ==> shown is None
        }),
        report::shown_status(status, None).profile is None,
{
    lemma_first_profile(config.profiles, i);
}

/// A profile that is active but not known is not shown.
pub proof fn law_unknown_profile_is_not_shown(status: StatusSnapshotView, config: AppConfigView)
    requires
        config.active_profile is Some,
        forall|j: int|
            0 <= j < config.profiles.len() ==> Some((#[trigger] config.profiles[j]).id)
                != config.active_profile,
    ensures
        report::shown_status(status, Some(config)).profile is None,
{
    assert forall|j: int| 0 <= j < config.profiles.len() implies (#[trigger] config.profiles[j]).id
        != config.active_profile->Some_0 by {
        assert(Some(config.profiles[j].id) != config.active_profile);
    }
    lemma_no_profile(config.profiles, config.active_profile->Some_0);
}

/// The report of a status shows each component under its own name, with the version of
/// the protocol, the area and the frames in a second.
pub proof fn law_report_shows_each_component(
    status: StatusSnapshotView,
    config: Option<AppConfigView>,
)
    ensures
        ({
            let shown = report::shown_status(status, config);
            &&& shown.protocol_version == 1
            &&& shown.service.state == values::service_state_text(status.service)
            &&& shown.bridge.state == values::bridge_state_text(status.bridge)
            &&& shown.capture.state == values::capture_state_text(status.capture)
            &&& shown.sync.state == values::sync_state_text(status.sync)
            &&& shown.service.detail == report::shown_detail(status, Component::Service)
            &&& shown.bridge.detail == report::shown_detail(status, Component::Bridge)
            &&& shown.capture.detail == report::shown_detail(status, Component::Capture)
            &&& shown.sync.detail == report::shown_detail(status, Component::Sync)
            &&& shown.frames_per_second == status.frames_per_second
            &&& status.active_area is Some ==> shown.area == status.active_area
        }),
{
}

/// An error is told at the end of the line of a status, behind what it is without it.
pub proof fn law_error_ends_the_line(
    status: StatusSnapshotView,
    config: Option<AppConfigView>,
    error: ActionableErrorView,
)
    requires
        status.error is None,
    ensures
        report::status_line(
            StatusSnapshotView { error: Some(error), ..status },
            config,
        ) == report::status_line(status, config) + ": "@ + error.message,
{
    let told = StatusSnapshotView { error: Some(error), ..status };
    assert(report::status_line(told, config) =~= report::status_line(status, config) + (": "@
        + error.message));
    assert(report::status_line(told, config) =~= report::status_line(status, config) + ": "@
        + error.message);
}

/// An area is told behind the states of the components, which are told in their order.
pub proof fn law_area_follows_the_states(status: StatusSnapshotView, area: Seq<char>)
    requires
        status.error is None,
        status.active_area is None,
    ensures
        report::status_line(
            StatusSnapshotView { active_area: Some(area), ..status },
            None,
        ) == report::status_line(status, None) + ", area "@ + area,
        report::status_line(status, None) == "Service "@ + values::service_state_text(
            status.service,
        ) + ", bridge "@ + values::bridge_state_text(status.bridge) + ", capture "@
            + values::capture_state_text(status.capture) + ", sync "@ + values::sync_state_text(
            status.sync,
        ),
{
    let told = StatusSnapshotView { active_area: Some(area), ..status };
    assert(report::status_line(told, None) =~= report::status_line(status, None) + ", area "@
        + area);
}

/// A list is its items with a comma and a space between each two.
pub proof fn law_items_are_separated_by_commas(items: Seq<Seq<char>>, item: Seq<char>)
    ensures
        report::comma_joined(Seq::empty()).len() == 0,
        report::comma_joined(seq![item]) == item,
        items.len() > 0 ==> report::comma_joined(items.push(item)) == report::comma_joined(items)
            + ", "@ + item,
{
    assert(items.push(item).drop_last() =~= items);
}

/// The value of a setting that is on or off.
pub open spec fn on_or_off(on: bool, yes: Seq<char>, no: Seq<char>) -> Seq<char> {
    if on {
        yes
    } else {
        no
    }
}

/// A configuration is shown as a line for each key, with the value that it has: what is on
/// as `true`, what is off as `false`.
pub proof fn law_configuration_is_shown_key_by_key(config: AppConfigView)
    ensures
        report::config_lines(config) == "language="@ + values::language_name_text(config.language)
            + "\nbackend="@ + values::capture_backend_name_text(config.capture_backend)
            + "\nmode="@ + values::sync_mode_name_text(config.sync.mode) + "\nintensity="@
            + values::intensity_name_text(config.sync.intensity) + "\nbrightness="@
            + text::decimal_text(config.sync.brightness.percent() as nat) + "\naudio-reactive="@
            + on_or_off(config.sync.audio_reactive, "true"@, "false"@) + "\nrestore-on-stop="@
            + on_or_off(config.restore_on_stop, "true"@, "false"@) + "\nlaunch-at-login="@
            + on_or_off(config.launch_at_login, "true"@, "false"@) + "\nauto-start="@ + on_or_off(
            config.auto_start_sync,
            "true"@,
            "false"@,
        ),
{
}

/// Whether sound and discovery are supported is told behind the modes, as yes or no.
pub proof fn law_capabilities_end_with_yes_or_no(capabilities: CapabilitiesView)
    ensures
        ({
            let quiet = CapabilitiesView {
                audio_reactive: false,
                discovery: false,
                ..capabilities
            };
            let end = "\nAudio reactive: "@ + on_or_off(
                capabilities.audio_reactive,
                "yes"@,
                "no"@,
            ) + "\nDiscovery: "@ + on_or_off(capabilities.discovery, "yes"@, "no"@);
            let lines = report::capabilities_lines(capabilities);
            let other = report::capabilities_lines(quiet);
            let least = "\nAudio reactive: no\nDiscovery: no"@.len();
            &&& lines.len() >= end.len()
            &&& lines.skip(lines.len() - end.len()) == end
            &&& other.take(other.len() - least) == lines.take(lines.len() - end.len())
        }),
{
    let quiet = CapabilitiesView { audio_reactive: false, discovery: false, ..capabilities };
    let end = "\nAudio reactive: "@ + on_or_off(capabilities.audio_reactive, "yes"@, "no"@)
        + "\nDiscovery: "@ + on_or_off(capabilities.discovery, "yes"@, "no"@);
    let none = "\nAudio reactive: "@ + "no"@ + "\nDiscovery: "@ + "no"@;
    let lines = report::capabilities_lines(capabilities);
    let other = report::capabilities_lines(quiet);
    reveal_strlit("\nAudio reactive: no\nDiscovery: no");
    reveal_strlit("\nAudio reactive: ");
    reveal_strlit("\nDiscovery: ");
    reveal_strlit("no");
    assert(none.len() == "\nAudio reactive: no\nDiscovery: no"@.len());
    let front = lines.take(lines.len() - end.len());
    assert(lines.skip(lines.len() - end.len()) =~= end);
    assert(other.take(other.len() - none.len()) =~= front);
}

/// A mark stands before what is selected and room for it before what is not.
pub proof fn law_selected_lines_are_marked(marked: bool)
    ensures
        report::marker(marked).len() == 2,
        report::marker(marked)[1] == ' ',
        marked <==> report::marker(marked)[0] == '*',
        !marked ==> report::marker(marked)[0] == ' ',
{
    reveal_strlit("* ");
    reveal_strlit("  ");
}

/// A number that is no percentage is refused with the bounds and with the number.
pub proof fn law_refused_brightness_is_told(s: Seq<char>)
    requires
        values::brightness_problem(s) is Some,
    ensures
        ({
            let problem = values::brightness_problem(s)->Some_0;
            let value = values::byte_value(s);
            &&& value is Some ==> value->Some_0 > 100 && problem == values::ValueError::Brightness(
                config::ValidationError::OutOfRange {
                    field: "brightness",
                    min: 0,
                    max: 100,
                    value: value->Some_0 as u64,
                },
            )
            &&& value is None ==> problem is NotANumber
        }),
{
}

} // verus!
