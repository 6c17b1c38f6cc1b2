//! What the interface asks, remembers and shows, in terms of what it was told.
use crate::cli::values;
use crate::daemon::profiles;
use crate::domain::config::{
    AppConfigView, CaptureBackend, EntertainmentAreaView, Intensity, Language,
    NormalizedPoint, ProfileId, ProfileView, SyncMode, SyncSettings,
};
use crate::domain::config;
use crate::domain::ipc::{DiscoveredBridgeView, RequestView, ResponsePayloadView};
use crate::domain::state::{
    BridgeState, CaptureState, ErrorCode, ServiceState, StatusSnapshotView, SyncState,
};
use crate::gui::catalog;
use crate::gui::equality;
use crate::gui::i18n;
use crate::gui::model::{ModelView, Operation, Redraw, WorkerEventView};
use crate::gui::model;
use crate::gui::render;
use crate::gui::view_state;
use crate::ipc::error::ErrorView;
use crate::text;
use vstd::prelude::*;

verus! {

/// Two requests of which only one may be awaited at a time are of one kind: each
/// operation is that of its own requests.
pub proof fn law_operations_are_of_one_kind(request: RequestView)
    ensures
        ({
            let kind = model::operation_of(request);
            &&& kind == Some(Operation::GetConfig) <==> request is GetConfig
            &&& kind == Some(Operation::GetCapabilities) <==> request is GetCapabilities
            &&& kind == Some(Operation::Discover) <==> request is DiscoverBridges
            &&& kind == Some(Operation::BeginPairing) <==> request is BeginPairing
            &&& kind == Some(Operation::CompletePairing) <==> request is CompletePairing
            &&& kind == Some(Operation::RefreshAreas) <==> request is RefreshAreas
            &&& kind == Some(Operation::SelectArea) <==> request is SelectArea
            &&& kind == Some(Operation::UpdateSync) <==> request is UpdateConfig
                && request->update.sync is Some
            &&& kind == Some(Operation::UpdateConfig) <==> request is UpdateConfig
                && request->update.sync is None
            &&& kind == Some(Operation::CreateProfile) <==> request is CreateProfile
            &&& kind == Some(Operation::DeleteProfile) <==> request is DeleteProfile
            &&& kind == Some(Operation::ActivateProfile) <==> request is ActivateProfile
            &&& kind == Some(Operation::Start) <==> request is Start
            &&& kind == Some(Operation::Stop) <==> request is Stop
        }),
{
}

/// A request that is sent goes out as it is, under the next number, is awaited under that
/// number, and clears the last error; nothing else changes. One that is not sent changes
/// nothing.
pub proof fn law_request_goes_out_under_the_next_number(before: ModelView, request: RequestView)
    ensures
        ({
            let (after, command) = model::sent(before, request);
            let kind = model::operation_of(request);
            &&& command is None <==> kind is Some && (!before.connected
                || before.pending.contains_key(kind->Some_0))
            &&& command is None ==> after == before
            &&& command is Some ==> {
                &&& command->Some_0.id == before.next_id
                &&& command->Some_0.request == request
                &&& before.next_id < u64::MAX ==> after.next_id == before.next_id + 1
                &&& before.next_id == u64::MAX ==> after.next_id == 0
                &&& kind is Some ==> after.operation_error is None && after.pending
                    == before.pending.insert(kind->Some_0, before.next_id)
                &&& kind is None ==> after.operation_error == before.operation_error
                    && after.pending == before.pending
                &&& after == (ModelView {
                    next_id: after.next_id,
                    operation_error: after.operation_error,
                    pending: after.pending,
                    ..before
                })
            }
        }),
{
}

/// Requests are sent one behind the other, in their order.
pub proof fn law_requests_are_sent_in_order(
    before: ModelView,
    requests: Seq<RequestView>,
    request: RequestView,
)
    ensures
        ({
            let (between, commands) = model::sent_all(before, requests);
            let (after, all) = model::sent_all(before, requests.push(request));
            let (next, command) = model::sent(between, request);
            &&& model::sent_all(before, Seq::empty()).0 == before
            &&& model::sent_all(before, Seq::empty()).1.len() == 0
            &&& after == next
            &&& command is Some ==> all == commands.push(command->Some_0)
            &&& command is None ==> all == commands
        }),
{
    assert(requests.push(request).drop_last() =~= requests);
}

/// A status tells that there is a connection. On the first one the configuration and the
/// capabilities are asked for, and the areas where the bridge is connected; nothing else
/// that is known changes.
pub proof fn law_first_status_asks_for_the_rest(before: ModelView, status: StatusSnapshotView)
    ensures
        ({
            let (after, requests, redraw) = model::reaction(
                before,
                WorkerEventView::Status(status),
            );
            &&& after == (ModelView { connected: true, status: Some(status), ..before })
            &&& redraw == Redraw::Contents
            &&& before.connected ==> requests.len() == 0
            &&& !before.connected ==> {
                &&& requests[0] is GetConfig && requests[1] is GetCapabilities
                &&& status.bridge == BridgeState::Connected ==> requests.len() == 3 && requests[2]
                    is RefreshAreas
                &&& status.bridge != BridgeState::Connected ==> requests.len() == 2
            }
        }),
{
}

/// Without a connection there is no status; the rest that is known is kept.
pub proof fn law_lost_connection_keeps_what_is_known(before: ModelView)
    ensures
        ({
            let (after, requests, redraw) = model::reaction(before, WorkerEventView::Disconnected);
            &&& !after.connected && after.status is None
            &&& after == (ModelView { connected: false, status: None, ..before })
            &&& requests.len() == 0
            &&& redraw == Redraw::Contents
        }),
{
}

/// An awaited request that the service refuses is told, and no longer awaited; any other
/// failure is that of the connection.
pub proof fn law_refusals_are_told(
    before: ModelView,
    id: u64,
    request: RequestView,
    error: ErrorView,
)
    requires
        model::operation_of(request) is Some,
    ensures
        ({
            let kind = model::operation_of(request)->Some_0;
            let awaited = before.pending.contains_key(kind) && before.pending[kind] == id;
            let (after, requests, redraw) = model::reaction(
                before,
                WorkerEventView::Response { id, request, result: Err(error) },
            );
            &&& requests.len() == 0
            &&& !awaited ==> after == before && redraw == Redraw::Nothing
            &&& awaited && error is Remote ==> after == (ModelView {
                operation_error: Some(error->Remote_0),
                pending: before.pending.remove(kind),
                ..before
            })
            &&& awaited && !(error is Remote) ==> after == (ModelView {
                connected: false,
                status: None,
                pending: before.pending.remove(kind),
                ..before
            })
        }),
{
}

/// An answer of the service is kept as what it tells: the status, the configuration, the
/// capabilities, the bridges or the areas. What it does not tell is kept.
pub proof fn law_answers_are_kept(
    before: ModelView,
    status: StatusSnapshotView,
    next: AppConfigView,
    bridges: Seq<DiscoveredBridgeView>,
    areas: Seq<EntertainmentAreaView>,
    profile: ProfileView,
)
    ensures
        model::with_payload(before, ResponsePayloadView::Status(status)).0 == (ModelView {
            status: Some(status),
            ..before
        }),
        ({
            let after = model::with_payload(before, ResponsePayloadView::Config(next)).0;
            after == (ModelView {
                config: Some(next),
                profiles_revision: after.profiles_revision,
                areas_revision: after.areas_revision,
                ..before
            })
        }),
        ({
            let after = model::with_payload(before, ResponsePayloadView::Bridges(bridges)).0;
            &&& after.bridges == bridges
            &&& after == (ModelView {
                bridges,
                bridges_revision: after.bridges_revision,
                ..before
            })
            &&& after.bridges_revision == before.bridges_revision <==> before.bridges == bridges
        }),
        ({
            let after = model::with_payload(before, ResponsePayloadView::Areas(areas)).0;
            &&& after == (ModelView {
                areas: after.areas,
                areas_revision: after.areas_revision,
                ..before
            })
            &&& equality::same_area_list(before.areas, areas) ==> after == before
            &&& !equality::same_area_list(before.areas, areas) ==> after.areas == areas
                && after.areas_revision != before.areas_revision
        }),
        model::with_payload(before, ResponsePayloadView::Profile(profile)) == (before, false),
        model::with_payload(before, ResponsePayloadView::Acknowledged) == (before, false),
{
}

/// The lists are drawn again exactly where a new configuration changes what they show,
/// and everything is where it changes the language.
pub proof fn law_changes_are_drawn(before: ModelView, old_config: AppConfigView, next: AppConfigView)
    requires
        before.config == Some(old_config),
    ensures
        ({
            let (after, rebuild) = model::with_payload(before, ResponsePayloadView::Config(next));
            &&& rebuild <==> old_config.language != next.language
            &&& after.profiles_revision == before.profiles_revision <==> old_config.profiles
                == next.profiles && old_config.active_profile == next.active_profile
            &&& after.areas_revision == before.areas_revision <==> old_config.selected_area
                == next.selected_area
        }),
{
}

/// A pairing is remembered from its beginning to its end, settings that were taken over
/// are those of the configuration, and no other request changes what is known by its
/// success.
pub proof fn law_success_is_remembered(before: ModelView, request: RequestView)
    ensures
        ({
            let after = model::with_success(before, request);
            let settings = request->update.sync;
            &&& request is BeginPairing ==> after == (ModelView {
                pairing_bridge: Some(request->bridge.id),
                ..before
            })
            &&& request is CompletePairing ==> after == (ModelView {
                pairing_bridge: None,
                ..before
            })
            &&& request is UpdateConfig && settings is Some && before.config is Some ==> after == (
            ModelView {
                config: Some(
                    (AppConfigView { sync: settings->Some_0, ..before.config->Some_0 }),
                ),
                ..before
            })
            &&& !(request is BeginPairing) && !(request is CompletePairing) && !(
            request is UpdateConfig && settings is Some && before.config is Some) ==> after
                == before
        }),
{
}

/// The configuration is asked for again exactly after a request that changes it, the
/// areas after a pairing, and settings are sent again where others were chosen meanwhile.
pub proof fn law_changes_are_asked_for(known: ModelView, request: RequestView)
    ensures
        ({
            let requests = model::follow_up(known, request);
            let settings = request->update.sync;
            let changes = request is CreateProfile || request is UpdateProfile
                || request is DeleteProfile || request is ActivateProfile || request is SelectArea
                || (request is UpdateConfig && settings is None);
            let sends = request is UpdateConfig && settings is Some && known.optimistic_sync is Some
                && known.optimistic_sync != settings;
            &&& changes ==> requests.len() == 1 && requests[0] is GetConfig
            &&& request is CompletePairing ==> requests.len() == 2 && requests[0] is GetConfig
                && requests[1] is RefreshAreas
            &&& sends ==> requests.len() == 1 && requests[0] is UpdateConfig
                && requests[0]->update.sync == known.optimistic_sync
            &&& !changes && !(request is CompletePairing) && !sends ==> requests.len() == 0
        }),
{
}

/// Settings that were chosen are shown, else those of the configuration.
pub proof fn law_chosen_settings_are_shown(known: ModelView)
    ensures
        ({
            let shown = model::shown_settings(known);
            &&& known.optimistic_sync is Some ==> shown == known.optimistic_sync
            &&& known.optimistic_sync is None && known.config is Some ==> shown == Some(
                known.config->Some_0.sync,
            )
            &&& known.optimistic_sync is None && known.config is None ==> shown is None
        }),
{
}

/// A profile is made where there is a configuration and a name, of the settings that are
/// shown; once any configuration holds it, activating it brings these, the display and
/// the area back.
pub proof fn law_new_profile_brings_back_what_is_shown(
    known: ModelView,
    id: ProfileId,
    name: Seq<char>,
    later: AppConfigView,
    i: int,
)
    requires
        known.config is Some,
        !text::blank(name),
        0 <= i < later.profiles.len(),
        Some(later.profiles[i]) == model::profile_of(known, id, name),
        forall|j: int| 0 <= j < i ==> (#[trigger] later.profiles[j]).id != id,
    ensures
        ({
            let next = profiles::with_active_profile(later, Some(id));
            &&& Some(next.sync) == model::shown_settings(known)
            &&& next.selected_display == known.config->Some_0.selected_display
            &&& next.selected_area == known.config->Some_0.selected_area
            &&& later.profiles[i].name == text::trimmed(name)
        }),
        model::profile_of(ModelView { config: None, ..known }, id, name) is None,
{
    crate::daemon::laws::law_activated_profile_is_in_force(later, i);
}

/// A language that is chosen decides; else that of the system does.
pub proof fn law_chosen_language_decides(system_is_german: bool)
    ensures
        i18n::is_german(Language::De, system_is_german),
        !i18n::is_german(Language::En, system_is_german),
        i18n::is_german(Language::System, system_is_german) <==> system_is_german,
{
}

/// The first variable that is set to anything decides.
pub proof fn law_first_set_variable_decides(values: Seq<Option<Seq<char>>>, i: int)
    requires
        0 <= i <= values.len(),
        forall|j: int|
            0 <= j < i ==> (#[trigger] values[j]) is None || values[j]->Some_0.len() == 0,
        i < values.len() ==> values[i] is Some && values[i]->Some_0.len() > 0,
    ensures
        i < values.len() ==> i18n::first_set(values) == values[i],
        i == values.len() ==> i18n::first_set(values) is None,
    decreases i,
{
    if i > 0 {
        let rest = values.drop_first();
        assert(values[0] is None || values[0]->Some_0.len() == 0);
        assert forall|j: int| 0 <= j < i - 1 implies (#[trigger] rest[j]) is None
            || rest[j]->Some_0.len() == 0 by {
            assert(rest[j] == values[j + 1]);
        }
        if i < values.len() {
            assert(rest[i - 1] == values[i]);
        }
        law_first_set_variable_decides(rest, i - 1);
    }
}

/// A locale is German exactly where it begins with the letters `de`, in whatever case.
pub proof fn law_german_locales_begin_with_de(value: Seq<char>)
    ensures
        i18n::begins_german(value) <==> value.len() >= 2 && (value[0] == 'd' || value[0] == 'D')
            && (value[1] == 'e' || value[1] == 'E'),
{
}

/// Areas are the same where their identifiers, names and channels are; being the same
/// goes both ways, and both zeros are one coordinate.
pub proof fn law_same_areas_show_the_same(
    a: EntertainmentAreaView,
    b: EntertainmentAreaView,
    x: u32,
    y: u32,
)
    ensures
        equality::same_area(a, a),
        equality::same_area(a, b) <==> equality::same_area(b, a),
        equality::same_area(a, b) ==> a.id == b.id && a.name == b.name && a.channels.len()
            == b.channels.len(),
        equality::same_area(a, b) ==> forall|i: int|
            #![trigger a.channels[i]]
            #![trigger b.channels[i]]
            0 <= i < a.channels.len() ==> a.channels[i].id == b.channels[i].id && a.channels[i].name
                == b.channels[i].name,
        config::same_coordinate(x, y) <==> x == y || (x == 0 && y == 0x8000_0000) || (x
            == 0x8000_0000 && y == 0),
{
    assert forall|i: int| 0 <= i < a.channels.len() implies #[trigger] equality::same_channel(
        a.channels[i],
        a.channels[i],
    ) by {}
    if equality::same_area(a, b) {
        assert forall|i: int| 0 <= i < b.channels.len() implies #[trigger] equality::same_channel(
            b.channels[i],
            a.channels[i],
        ) by {
            assert(equality::same_channel(a.channels[i], b.channels[i]));
        }
        assert forall|i: int|
            #![trigger a.channels[i]]
            #![trigger b.channels[i]]
            0 <= i < a.channels.len() implies a.channels[i].id == b.channels[i].id
            && a.channels[i].name == b.channels[i].name by {
            assert(equality::same_channel(a.channels[i], b.channels[i]));
        }
    }
    if equality::same_area(b, a) {
        assert forall|i: int| 0 <= i < a.channels.len() implies #[trigger] equality::same_channel(
            a.channels[i],
            b.channels[i],
        ) by {
            assert(equality::same_channel(b.channels[i], a.channels[i]));
        }
    }
}

/// The lists of choices are in their order.
pub proof fn law_choices_are_in_order(index: u32)
    ensures
        render::mode_position(SyncMode::Video) == 0 && render::mode_position(SyncMode::Game) == 1
            && render::mode_position(SyncMode::Music) == 2 && render::mode_position(
            SyncMode::Scene,
        ) == 3,
        render::intensity_position(Intensity::Subtle) == 0 && render::intensity_position(
            Intensity::Moderate,
        ) == 1 && render::intensity_position(Intensity::High) == 2
            && render::intensity_position(Intensity::Extreme) == 3,
        render::language_position(Language::System) == 0 && render::language_position(
            Language::En,
        ) == 1 && render::language_position(Language::De) == 2,
        index <= 3 ==> render::mode_position(render::mode_of(index)) == index,
        index <= 3 ==> render::intensity_position(render::intensity_of(index)) == index,
        index <= 2 ==> render::language_position(render::language_of(index)) == index,
        index > 3 ==> render::mode_of(index) == SyncMode::Scene && render::intensity_of(index)
            == Intensity::Extreme,
        index > 2 ==> render::language_of(index) == Language::System,
{
}

/// A mode is supported where the service has it, and music only with sound.
pub proof fn law_modes_are_supported_by_the_service(known: ModelView, mode: SyncMode)
    ensures
        render::mode_supported(known, mode) <==> known.capabilities is Some && (exists|i: int|
            0 <= i < known.capabilities->Some_0.sync_modes.len()
                && #[trigger] known.capabilities->Some_0.sync_modes[i] == mode) && (mode
            == SyncMode::Music ==> known.capabilities->Some_0.audio_reactive),
{
}

/// The button can be pressed to start where there is a connection, a bridge, an area, and
/// a mode and a backend that the service has, and to stop where something runs; never
/// while it starts or stops or its request is awaited.
pub proof fn law_button_can_be_pressed_iff_it_does_something(
    known: ModelView,
    status: StatusSnapshotView,
)
    requires
        known.status == Some(status),
    ensures
        ({
            let config = known.config->Some_0;
            let ready = known.config is Some && config.bridge is Some && config.selected_area
                is Some && known.capabilities is Some && render::mode_supported(
                known,
                model::shown_settings(known)->Some_0.mode,
            ) && known.capabilities->Some_0.capture_backends.contains(config.capture_backend);
            let starts = (status.sync == SyncState::Stopped || status.sync == SyncState::Failed)
                && ready && !known.pending.contains_key(Operation::Start);
            let stops = status.sync == SyncState::Running && !known.pending.contains_key(
                Operation::Stop,
            );
            render::action_sensitive(known) <==> known.connected && (starts || stops)
        }),
{
}

/// The area that is shown as active is the first with the identifier of the status.
pub proof fn law_active_area_is_shown_by_name(
    known: ModelView,
    status: StatusSnapshotView,
    i: int,
)
    requires
        known.status == Some(status),
        0 <= i < known.areas.len(),
        forall|j: int| 0 <= j < i ==> (#[trigger] known.areas[j]).id != known.areas[i].id,
    ensures
        status.active_area == Some(known.areas[i].id) ==> render::active_area_name(known) == Some(
            known.areas[i].name,
        ),
        status.active_area is None ==> render::active_area_name(known) is None,
{
    lemma_first_area(known.areas, i);
}

proof fn lemma_first_area(areas: Seq<EntertainmentAreaView>, i: int)
    requires
        0 <= i < areas.len(),
        forall|j: int| 0 <= j < i ==> (#[trigger] areas[j]).id != areas[i].id,
    ensures
        render::area_with(areas, areas[i].id) == Some(areas[i]),
    decreases i,
{
    if i > 0 {
        let rest = areas.drop_first();
        assert(rest[i - 1] == areas[i]);
        assert forall|j: int| 0 <= j < i - 1 implies (#[trigger] rest[j]).id != rest[i - 1].id by {
            assert(rest[j] == areas[j + 1]);
        }
        assert(areas[0].id != areas[i].id);
        lemma_first_area(rest, i - 1);
    }
}

/// The error of the last request is shown, else that of the status, else that there is no
/// connection.
pub proof fn law_last_error_is_shown_first(known: ModelView)
    ensures
        ({
            let shown = render::shown_error(known);
            let told = known.connected && known.status is Some;
            let error = known.status->Some_0.error;
            &&& known.operation_error is Some ==> shown == Some(
                view_state::error_id_text(known.operation_error->Some_0.code),
            )
            &&& known.operation_error is None && told && error is Some ==> shown == Some(
                view_state::error_id_text(error->Some_0.code),
            )
            &&& known.operation_error is None && told && error is None ==> shown is None
            &&& known.operation_error is None && !told ==> shown == Some(
                "error-daemon-unavailable"@,
            )
        }),
{
}

/// A backend is shown at its first place among those that are offered, and at none where
/// it is not offered.
pub proof fn law_backend_is_shown_at_its_place(
    backends: Seq<CaptureBackend>,
    backend: CaptureBackend,
)
    ensures
        ({
            let place = render::backend_position(backends, backend);
            &&& place is None <==> forall|i: int|
                0 <= i < backends.len() ==> #[trigger] backends[i] != backend
            &&& place is Some ==> 0 <= place->Some_0 < backends.len() && backends[place->Some_0]
                == backend
            &&& place is Some ==> forall|i: int|
                0 <= i < place->Some_0 ==> #[trigger] backends[i] != backend
        }),
    decreases backends.len(),
{
    if backends.len() > 0 && backends[0] != backend {
        let rest = backends.drop_first();
        law_backend_is_shown_at_its_place(rest, backend);
        assert forall|i: int| 0 < i < backends.len() implies #[trigger] backends[i] == rest[i
            - 1] by {}
        if render::backend_position(rest, backend) is Some {
            let place = render::backend_position(rest, backend)->Some_0;
            assert(backends[place + 1] == backend);
            assert forall|i: int| 0 <= i < place + 1 implies #[trigger] backends[i] != backend by {
                if i > 0 {
                    assert(rest[i - 1] != backend);
                }
            }
        } else {
            assert forall|i: int| 0 <= i < backends.len() implies #[trigger] backends[i]
                != backend by {
                if i > 0 {
                    assert(rest[i - 1] != backend);
                }
            }
        }
    } else if backends.len() > 0 {
        assert(backends[0] == backend);
    }
}

/// The controls show the settings that are shown, and the switches of the configuration.
pub proof fn law_controls_show_the_configuration(known: ModelView, backends: Seq<CaptureBackend>)
    ensures
        render::control_values(known, backends) is Some <==> known.config is Some,
        known.config is Some ==> {
            let shown = render::control_values(known, backends)->Some_0;
            let config = known.config->Some_0;
            let settings: SyncSettings = if known.optimistic_sync is Some {
                known.optimistic_sync->Some_0
            } else {
                config.sync
            };
            &&& render::mode_of(shown.mode) == settings.mode
            &&& render::intensity_of(shown.intensity) == settings.intensity
            &&& shown.brightness == settings.brightness.percent()
            &&& shown.restore == config.restore_on_stop
            &&& shown.auto_start == config.auto_start_sync
            &&& render::language_of(shown.language) == config.language
            &&& shown.capture_backend == render::backend_position(backends, config.capture_backend)
        },
{
}

/// A row shows the name and the host of its bridge, or the name of its area or profile and
/// whether that is the one in use.
pub proof fn law_rows_show_what_they_are_for(
    known: ModelView,
    bridge: DiscoveredBridgeView,
    area: EntertainmentAreaView,
    profile: ProfileView,
    active: Option<ProfileId>,
)
    ensures
        render::bridge_row(bridge).name == bridge.name,
        render::bridge_row(bridge).host == bridge.host,
        render::area_row(known, area).id == area.id,
        render::area_row(known, area).name == area.name,
        render::area_row(known, area).selected <==> known.config is Some
            && known.config->Some_0.selected_area is Some
            && known.config->Some_0.selected_area->Some_0 == area.id,
        render::profile_row(active, profile).id == profile.id,
        render::profile_row(active, profile).name == profile.name,
        render::profile_row(active, profile).active <==> active is Some && active->Some_0
            == profile.id,
{
}

/// There is a row for each profile of the configuration, in their order, and the active
/// one is marked.
pub proof fn law_profiles_have_their_rows(known: ModelView, i: int)
    requires
        known.config is Some,
        0 <= i < known.config->Some_0.profiles.len(),
    ensures
        ({
            let rows = render::all_profile_rows(known);
            let config = known.config->Some_0;
            &&& rows.len() == config.profiles.len()
            &&& rows[i].id == config.profiles[i].id
            &&& rows[i].name == config.profiles[i].name
            &&& rows[i].active <==> config.active_profile == Some(config.profiles[i].id)
        }),
{
}

/// The dashboard shows the states of the status, each in its place, and its error; without
/// a connection it shows that.
pub proof fn law_dashboard_shows_the_status(connected: bool, status: StatusSnapshotView)
    ensures
        ({
            let shown = view_state::dashboard(true, Some(status));
            let runs = status.sync == SyncState::Starting || status.sync == SyncState::Running;
            let changes = status.sync == SyncState::Starting || status.sync == SyncState::Stopping;
            &&& shown.service_id == view_state::service_id_text(status.service)
            &&& shown.bridge_id == view_state::bridge_id_text(status.bridge)
            &&& shown.capture_id == view_state::capture_id_text(status.capture)
            &&& shown.sync_id == view_state::sync_id_text(status.sync)
            &&& shown.action_is_stop <==> runs
            &&& runs ==> shown.action_id == "action-stop"@
            &&& !runs ==> shown.action_id == "action-start"@
            &&& shown.action_enabled <==> !changes
            &&& status.error is None ==> shown.error_id is None
            &&& status.error is Some ==> shown.error_id == Some(
                view_state::error_id_text(status.error->Some_0.code),
            )
        }),
        ({
            let shown = view_state::dashboard(false, Some(status));
            &&& shown == view_state::dashboard(connected, None)
            &&& shown.service_id == "state-reconnecting"@
            &&& !shown.action_enabled && !shown.action_is_stop
            &&& shown.error_id == Some("error-daemon-unavailable"@)
        }),
{
}

/// Every state of the service and of the bridge is shown under the message of its own.
pub proof fn law_service_and_bridge_states_have_their_messages(
    service: ServiceState,
    bridge: BridgeState,
)
    ensures
        view_state::service_id_text(service) == "state-starting"@ <==> service
            == ServiceState::Starting,
        view_state::service_id_text(service) == "state-ready"@ <==> service == ServiceState::Ready,
        view_state::service_id_text(service) == "state-stopping"@ <==> service
            == ServiceState::Stopping,
        view_state::service_id_text(service) == "state-failed"@ <==> service
            == ServiceState::Failed,
        view_state::bridge_id_text(bridge) == "state-unconfigured"@ <==> bridge
            == BridgeState::Unconfigured,
        view_state::bridge_id_text(bridge) == "state-disconnected"@ <==> bridge
            == BridgeState::Disconnected,
        view_state::bridge_id_text(bridge) == "state-discovering"@ <==> bridge
            == BridgeState::Discovering,
        view_state::bridge_id_text(bridge) == "state-pairing"@ <==> bridge == BridgeState::Pairing,
        view_state::bridge_id_text(bridge) == "state-connecting"@ <==> bridge
            == BridgeState::Connecting,
        view_state::bridge_id_text(bridge) == "state-connected"@ <==> bridge
            == BridgeState::Connected,
{
    reveal_strlit("state-starting");
    reveal_strlit("state-ready");
    reveal_strlit("state-stopping");
    reveal_strlit("state-failed");
    reveal_strlit("state-unconfigured");
    reveal_strlit("state-disconnected");
    reveal_strlit("state-discovering");
    reveal_strlit("state-pairing");
    reveal_strlit("state-connecting");
    reveal_strlit("state-connected");
    assert("state-starting"@.len() == 14);
    assert("state-ready"@.len() == 11);
    assert("state-stopping"@.len() == 14);
    assert("state-failed"@.len() == 12);
    assert("state-unconfigured"@.len() == 18);
    assert("state-disconnected"@.len() == 18);
    assert("state-discovering"@.len() == 17);
    assert("state-pairing"@.len() == 13);
    assert("state-connecting"@.len() == 16);
    assert("state-connected"@.len() == 15);
    assert("state-starting"@[8] != "state-stopping"@[8]);
    assert("state-unconfigured"@[6] != "state-disconnected"@[6]);
}

/// Every state of the capture and of the synchronization is shown under the message of
/// its own.
pub proof fn law_capture_and_sync_states_have_their_messages(
    capture: CaptureState,
    sync: SyncState,
)
    ensures
        view_state::capture_id_text(capture) == "state-idle"@ <==> capture == CaptureState::Idle,
        view_state::capture_id_text(capture) == "state-requesting-permission"@ <==> capture
            == CaptureState::RequestingPermission,
        view_state::capture_id_text(capture) == "state-capturing"@ <==> capture
            == CaptureState::Capturing,
        view_state::capture_id_text(capture) == "state-failed"@ <==> capture
            == CaptureState::Failed,
        view_state::sync_id_text(sync) == "state-stopped"@ <==> sync == SyncState::Stopped,
        view_state::sync_id_text(sync) == "state-starting"@ <==> sync == SyncState::Starting,
        view_state::sync_id_text(sync) == "state-running"@ <==> sync == SyncState::Running,
        view_state::sync_id_text(sync) == "state-stopping"@ <==> sync == SyncState::Stopping,
        view_state::sync_id_text(sync) == "state-failed"@ <==> sync == SyncState::Failed,
{
    reveal_strlit("state-idle");
    reveal_strlit("state-requesting-permission");
    reveal_strlit("state-capturing");
    reveal_strlit("state-failed");
    reveal_strlit("state-stopped");
    reveal_strlit("state-starting");
    reveal_strlit("state-running");
    reveal_strlit("state-stopping");
    assert("state-idle"@.len() == 10);
    assert("state-requesting-permission"@.len() == 27);
    assert("state-capturing"@.len() == 15);
    assert("state-failed"@.len() == 12);
    assert("state-stopped"@.len() == 13);
    assert("state-starting"@.len() == 14);
    assert("state-running"@.len() == 13);
    assert("state-stopping"@.len() == 14);
    assert("state-stopped"@[6] != "state-running"@[6]);
    assert("state-starting"@[8] != "state-stopping"@[8]);
}

/// Every error that the user can do something about is shown under the message of its own.
pub proof fn law_errors_have_their_messages(code: ErrorCode)
    ensures
        view_state::error_id_text(code) == "error-bridge-unavailable"@ <==> code
            == ErrorCode::BridgeNotFound || code == ErrorCode::BridgeUnavailable,
        view_state::error_id_text(code) == "error-link-button"@ <==> code
            == ErrorCode::LinkButtonRequired,
        view_state::error_id_text(code) == "error-area"@ <==> code == ErrorCode::AreaNotFound,
        view_state::error_id_text(code) == "error-display"@ <==> code
            == ErrorCode::DisplayNotFound,
        view_state::error_id_text(code) == "error-capture-permission"@ <==> code
            == ErrorCode::CapturePermissionDenied,
        view_state::error_id_text(code) == "error-capture-unavailable"@ <==> code
            == ErrorCode::CaptureUnavailable,
        view_state::error_id_text(code) == "error-sync-unavailable"@ <==> code
            == ErrorCode::SyncUnavailable,
        view_state::error_id_text(code) == "error-generic"@ <==> code == ErrorCode::InvalidRequest
            || code == ErrorCode::InvalidConfiguration || code == ErrorCode::VersionMismatch
            || code == ErrorCode::Conflict || code == ErrorCode::Internal,
{
    reveal_strlit("error-bridge-unavailable");
    reveal_strlit("error-link-button");
    reveal_strlit("error-area");
    reveal_strlit("error-display");
    reveal_strlit("error-capture-permission");
    reveal_strlit("error-capture-unavailable");
    reveal_strlit("error-sync-unavailable");
    reveal_strlit("error-generic");
    assert("error-bridge-unavailable"@.len() == 24);
    assert("error-link-button"@.len() == 17);
    assert("error-area"@.len() == 10);
    assert("error-display"@.len() == 13);
    assert("error-capture-permission"@.len() == 24);
    assert("error-capture-unavailable"@.len() == 25);
    assert("error-sync-unavailable"@.len() == 22);
    assert("error-generic"@.len() == 13);
    assert("error-bridge-unavailable"@[6] != "error-capture-permission"@[6]);
    assert("error-display"@[6] != "error-generic"@[6]);
}

/// A mode is shown under the message of its own, that of an unavailable mode where the
/// service lacks it.
pub proof fn law_modes_have_their_messages(mode: SyncMode)
    ensures
        render::mode_text(mode, true) == "mode-"@ + values::sync_mode_name_text(mode),
        render::mode_text(mode, false) == render::mode_text(mode, true) + "-unavailable"@,
        render::backend_text(CaptureBackend::PortalPipewire) == "capture-portal"@,
        render::backend_text(CaptureBackend::Grim) == "capture-grim"@,
{
    reveal_strlit("mode-");
    reveal_strlit("-unavailable");
    reveal_strlit("video");
    reveal_strlit("game");
    reveal_strlit("music");
    reveal_strlit("scene");
    reveal_strlit("mode-video");
    reveal_strlit("mode-game");
    reveal_strlit("mode-music");
    reveal_strlit("mode-scene");
    reveal_strlit("mode-video-unavailable");
    reveal_strlit("mode-game-unavailable");
    reveal_strlit("mode-music-unavailable");
    reveal_strlit("mode-scene-unavailable");
    assert(render::mode_text(mode, true) =~= "mode-"@ + values::sync_mode_name_text(mode));
    assert(render::mode_text(mode, false) =~= render::mode_text(mode, true) + "-unavailable"@);
}

/// Bridges can be looked for where the service says so, the bridge is connected where the
/// status says so, and the request of the button is awaited where that which it sends is.
pub proof fn law_what_can_be_done_is_told(known: ModelView)
    ensures
        render::can_discover(known) <==> known.capabilities is Some
            && known.capabilities->Some_0.discovery,
        render::bridge_connected(known) <==> known.status is Some && known.status->Some_0.bridge
            == BridgeState::Connected,
        ({
            let runs = known.connected && known.status is Some && (known.status->Some_0.sync
                == SyncState::Starting || known.status->Some_0.sync == SyncState::Running);
            &&& runs ==> (render::action_pending(known) <==> known.pending.contains_key(
                Operation::Stop,
            ))
            &&& !runs ==> (render::action_pending(known) <==> known.pending.contains_key(
                Operation::Start,
            ))
        }),
        known.capabilities is None ==> render::offered(known).len() == 0,
        known.capabilities is Some ==> render::offered(known)
            == known.capabilities->Some_0.capture_backends,
{
}

/// Each page is reached by its name, and any other name leads to the first.
pub proof fn law_pages_are_reached_by_name(name: Seq<char>)
    ensures
        ({
            let page = render::page_of(Some(name));
            &&& page == 1 <==> name == "setup"@
            &&& page == 2 <==> name == "profiles"@
            &&& page == 3 <==> name == "settings"@
            &&& page == 4 <==> name == "diagnostics"@
            &&& page <= 4
        }),
        render::page_of(None) == 0,
        render::page_name_text(0) == "sync"@,
{
    reveal_strlit("setup");
    reveal_strlit("profiles");
    reveal_strlit("settings");
    reveal_strlit("diagnostics");
    reveal_strlit("sync");
    assert("profiles"@[0] != "settings"@[0]);
    assert("setup"@.len() == 5 && "diagnostics"@.len() == 11 && "profiles"@.len() == 8
        && "settings"@.len() == 8);
}

/// Nothing is known at first, and nothing is awaited.
pub proof fn law_nothing_is_known_at_first(operation: Operation)
    ensures
        ({
            let first = model::initial();
            &&& !first.connected
            &&& first.status is None && first.config is None && first.capabilities is None
            &&& first.bridges.len() == 0 && first.areas.len() == 0
            &&& !first.pending.contains_key(operation)
            &&& first.pairing_bridge is None && first.optimistic_sync is None
            &&& first.operation_error is None
            &&& first.next_id == 1
        }),
{
}

/// Chosen settings are sent as an update that names them alone; without a choice nothing
/// is sent.
pub proof fn law_chosen_settings_are_sent(known: ModelView)
    ensures
        ({
            let requests = model::flush_requests(known);
            &&& known.optimistic_sync is None ==> requests.len() == 0
            &&& known.optimistic_sync is Some ==> {
                let update = requests[0]->update;
                &&& requests.len() == 1
                &&& requests[0] is UpdateConfig
                &&& update.sync == known.optimistic_sync
                &&& update.language is None && update.capture_backend is None
                &&& update.restore_on_stop is None && update.launch_at_login is None
                &&& update.auto_start_sync is None && update.selected_display is None
                &&& update.selected_area is None && update.bridge is None
            }
        }),
{
}

/// German is shown from the German messages under the German locale, and everything else
/// in English.
pub proof fn law_languages_have_their_messages(german: bool)
    ensures
        german ==> i18n::catalog(german) == catalog::DE@ && i18n::locale_tag(german) == "de-DE"@,
        !german ==> i18n::catalog(german) == catalog::EN@ && i18n::locale_tag(german) == "en-US"@,
{
}

/// Two lists are the same where they are as long and the same at every place.
pub proof fn law_same_lists_are_the_same_throughout<V>(
    a: Seq<V>,
    b: Seq<V>,
    same: spec_fn(V, V) -> bool,
    i: int,
)
    requires
        equality::same_list(a, b, same),
    ensures
        a.len() == b.len(),
        0 <= i < a.len() ==> same(a[i], b[i]),
{
}

/// Positions are the same where both of their coordinates are.
pub proof fn law_same_positions(a: NormalizedPoint, b: NormalizedPoint)
    ensures
        equality::same_position(a, b) <==> (a.x_bits() == b.x_bits() || a.x_bits() % 0x8000_0000
            == 0 && b.x_bits() % 0x8000_0000 == 0) && (a.y_bits() == b.y_bits() || a.y_bits()
            % 0x8000_0000 == 0 && b.y_bits() % 0x8000_0000 == 0),
{
}

/// Lists of areas are the same exactly where they are as long and the same at every place.
pub proof fn law_same_area_lists_are_as_long(
    a: Seq<EntertainmentAreaView>,
    b: Seq<EntertainmentAreaView>,
)
    ensures
        equality::same_area_list(a, b) ==> a.len() == b.len(),
        equality::same_area_list(a, b) <==> a.len() == b.len() && forall|i: int|
            0 <= i < a.len() ==> #[trigger] equality::same_area(a[i], b[i]),
{
}

/// Every page has the name by which it is reached.
pub proof fn law_pages_have_their_names(index: int)
    ensures
        render::page_name_text(1) == "setup"@,
        render::page_name_text(2) == "profiles"@,
        render::page_name_text(3) == "settings"@,
        index >= 4 ==> render::page_name_text(index) == "diagnostics"@,
        index < 0 ==> render::page_name_text(index) == "diagnostics"@,
{
}

/// The configuration is changed by what concerns profiles, the area or the pairing, and
/// by an update that does not name settings.
pub proof fn law_requests_that_change_the_configuration(request: RequestView)
    ensures
        model::changes_config(request) <==> {
            ||| request is CreateProfile
            ||| request is UpdateProfile
            ||| request is DeleteProfile
            ||| request is ActivateProfile
            ||| request is SelectArea
            ||| request is CompletePairing
            ||| request is UpdateConfig && request->update.sync is None
        },
{
}

} // verus!
