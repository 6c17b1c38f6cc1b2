//! What the operations of the service come to, in terms of the configuration, the
//! status and the colors that go in and out.
use crate::capture::frame::CaptureErrorView;
use crate::capture::frame;
use crate::daemon::bridge::{FoundBridgeView, ScreenChannel};
use crate::daemon::bridge;
use crate::daemon::dispatch::PlanView;
use crate::daemon::dispatch;
use crate::daemon::errors;
use crate::daemon::pairing::{PairingOutcomeView, PairingStepView};
use crate::daemon::pairing;
use crate::daemon::profiles;
use crate::daemon::state::DaemonStateView;
use crate::daemon::state as service;
use crate::daemon::store;
use crate::daemon::sync::{EndStep, StopStep, SyncEndingView};
use crate::daemon::sync;
use crate::domain::config::{
    AppConfig, AppConfigView, BridgeConfigurationView, CaptureBackend, ConfigUpdateView,
    EntertainmentAreaView, EntertainmentChannelView, ProfileId, ProfileView, SyncMode,
};
use crate::domain::config;
use crate::domain::ipc::{DiscoveredBridgeView, RequestView, ResponsePayloadView};
use crate::domain::state::{
    ActionableError, ActionableErrorView, BridgeState, CaptureState, ErrorCode, ServiceState, StatusSnapshotView,
    SyncState,
};
use crate::engine::processor::{ChannelColor, Rgb16};
use crate::hue::bridge::{BridgeCandidateView, IpAddress};
use crate::hue::bridge as hue;
use crate::hue::credentials::PairAttempt;
use crate::number::Single;
use crate::text;
use vstd::prelude::*;

verus! {

/// Whether a configuration differs from another in its profiles, the active one and its
/// revision at most.
pub open spec fn same_but_profiles(a: AppConfigView, b: AppConfigView) -> bool {
    &&& same_but_settings(a, b)
    &&& a.sync == b.sync
    &&& a.selected_display == b.selected_display
    &&& a.selected_area == b.selected_area
}

/// Whether a configuration differs from another in what a profile holds, in its profiles
/// and in its revision at most.
pub open spec fn same_but_settings(a: AppConfigView, b: AppConfigView) -> bool {
    &&& a.schema_version == b.schema_version
    &&& a.language == b.language
    &&& a.capture_backend == b.capture_backend
    &&& a.restore_on_stop == b.restore_on_stop
    &&& a.launch_at_login == b.launch_at_login
    &&& a.auto_start_sync == b.auto_start_sync
    &&& a.bridge == b.bridge
}

/// The profile with an identifier is the first that has it, and is found exactly where
/// there is one.
pub proof fn law_profile_is_found_by_its_identifier(profiles: Seq<ProfileView>, id: ProfileId)
    ensures
        ({
            let found = profiles::profile_index(profiles, id);
            &&& found <= profiles.len()
            &&& found < profiles.len() ==> profiles[found as int].id == id
            &&& forall|i: int| 0 <= i < found ==> (#[trigger] profiles[i]).id != id
        }),
    decreases profiles.len(),
{
    if profiles.len() > 0 && profiles[0].id != id {
        let rest = profiles.drop_first();
        law_profile_is_found_by_its_identifier(rest, id);
        let found = profiles::profile_index(profiles, id);
        assert forall|i: int| 0 <= i < found implies (#[trigger] profiles[i]).id != id by {
            if i > 0 {
                assert(rest[i - 1] == profiles[i]);
            }
        }
    }
}

/// The settings, the display and the area of the profile that is activated are those in
/// force, it is the active one, and nothing else of the configuration changes.
pub proof fn law_activated_profile_is_in_force(config: AppConfigView, i: int)
    requires
        0 <= i < config.profiles.len(),
        forall|j: int| 0 <= j < i ==> (#[trigger] config.profiles[j]).id != config.profiles[i].id,
    ensures
        ({
            let profile = config.profiles[i];
            let next = profiles::with_active_profile(config, Some(profile.id));
            &&& next.sync == profile.settings
            &&& next.selected_display == profile.display
            &&& next.selected_area == profile.area
            &&& next.active_profile == Some(profile.id)
            &&& next.profiles == config.profiles
            &&& same_but_settings(next, config)
        }),
{
    law_profile_is_found_by_its_identifier(config.profiles, config.profiles[i].id);
    let found = profiles::profile_index(config.profiles, config.profiles[i].id) as int;
    if found < i {
        assert(config.profiles[found].id != config.profiles[i].id);
    } else if i < found {
        assert(config.profiles[i].id != config.profiles[i].id);
    }
}

/// Where no profile is to be active, none is, and nothing else changes.
pub proof fn law_deactivating_keeps_the_settings(config: AppConfigView)
    ensures
        ({
            let next = profiles::with_active_profile(config, None);
            &&& next.active_profile is None
            &&& next.profiles == config.profiles
            &&& same_but_profiles(next, config)
        }),
{
}

/// A profile that was made from a configuration brings its settings, its display and its
/// area back into any configuration that holds it.
pub proof fn law_profile_brings_its_configuration_back(
    source: AppConfigView,
    id: ProfileId,
    name: Seq<char>,
    later: AppConfigView,
    i: int,
)
    requires
        0 <= i < later.profiles.len(),
        later.profiles[i] == (ProfileView {
            id,
            name,
            settings: source.sync,
            display: source.selected_display,
            area: source.selected_area,
        }),
        forall|j: int| 0 <= j < i ==> (#[trigger] later.profiles[j]).id != id,
    ensures
        ({
            let next = profiles::with_active_profile(later, Some(id));
            &&& next.sync == source.sync
            &&& next.selected_display == source.selected_display
            &&& next.selected_area == source.selected_area
        }),
{
    law_activated_profile_is_in_force(later, i);
}

/// A profile that is created comes last, as it was given, and nothing else changes.
pub proof fn law_created_profile_is_added(config: AppConfigView, profile: ProfileView)
    ensures
        ({
            let next = profiles::with_profile(config, profile);
            &&& next.profiles.len() == config.profiles.len() + 1
            &&& next.profiles[config.profiles.len() as int] == profile
            &&& forall|i: int|
                0 <= i < config.profiles.len() ==> #[trigger] next.profiles[i] == config.profiles[i]
            &&& next.active_profile == config.active_profile
            &&& same_but_profiles(next, config)
        }),
{
}

/// A profile that is changed takes the place of the one with its identifier, and nothing
/// else changes.
pub proof fn law_changed_profile_takes_its_place(config: AppConfigView, profile: ProfileView, i: int)
    requires
        0 <= i < config.profiles.len(),
        config.profiles[i].id == profile.id,
        forall|j: int| 0 <= j < i ==> (#[trigger] config.profiles[j]).id != profile.id,
    ensures
        ({
            let next = profiles::with_changed_profile(config, profile);
            &&& next.profiles.len() == config.profiles.len()
            &&& next.profiles[i] == profile
            &&& forall|j: int|
                0 <= j < config.profiles.len() && j != i ==> #[trigger] next.profiles[j]
                    == config.profiles[j]
            &&& next.active_profile == config.active_profile
            &&& same_but_profiles(next, config)
        }),
{
    law_profile_is_found_by_its_identifier(config.profiles, profile.id);
    let found = profiles::profile_index(config.profiles, profile.id) as int;
    if found < i {
        assert(config.profiles[found].id != profile.id);
    } else if i < found {
        assert(config.profiles[i].id != profile.id);
    }
}

/// A profile that is deleted is gone from its place, the others close up in their order,
/// and it is no longer active; nothing else changes.
pub proof fn law_deleted_profile_is_gone(
    config: AppConfigView,
    before: Seq<ProfileView>,
    profile: ProfileView,
    behind: Seq<ProfileView>,
)
    requires
        config.profiles == before.push(profile) + behind,
        forall|i: int| 0 <= i < before.len() ==> (#[trigger] before[i]).id != profile.id,
        forall|i: int| 0 <= i < behind.len() ==> (#[trigger] behind[i]).id != profile.id,
    ensures
        ({
            let next = profiles::with_deleted_profile(config, profile.id);
            &&& next.profiles == before + behind
            &&& config.active_profile == Some(profile.id) ==> next.active_profile is None
            &&& config.active_profile != Some(profile.id) ==> next.active_profile
                == config.active_profile
            &&& same_but_profiles(next, config)
        }),
{
    lemma_without_profile(before, profile, behind);
}

proof fn lemma_without_profile(
    before: Seq<ProfileView>,
    profile: ProfileView,
    behind: Seq<ProfileView>,
)
    requires
        forall|i: int| 0 <= i < before.len() ==> (#[trigger] before[i]).id != profile.id,
        forall|i: int| 0 <= i < behind.len() ==> (#[trigger] behind[i]).id != profile.id,
    ensures
        profiles::without_profile(before.push(profile) + behind, profile.id) == before + behind,
    decreases behind.len(),
{
    let all = before.push(profile) + behind;
    if behind.len() == 0 {
        assert(all =~= before.push(profile));
        assert(all.drop_last() =~= before);
        lemma_nothing_is_deleted(before, profile.id);
        assert(before + behind =~= before);
    } else {
        let shorter = behind.drop_last();
        assert(all.drop_last() =~= before.push(profile) + shorter);
        assert forall|i: int| 0 <= i < shorter.len() implies (#[trigger] shorter[i]).id
            != profile.id by {
            assert(shorter[i] == behind[i]);
        }
        lemma_without_profile(before, profile, shorter);
        assert(all.last() == behind[behind.len() - 1]);
        assert((before + shorter).push(behind.last()) =~= before + behind);
    }
}

proof fn lemma_nothing_is_deleted(list: Seq<ProfileView>, id: ProfileId)
    requires
        forall|i: int| 0 <= i < list.len() ==> (#[trigger] list[i]).id != id,
    ensures
        profiles::without_profile(list, id) == list,
    decreases list.len(),
{
    if list.len() > 0 {
        let shorter = list.drop_last();
        assert forall|i: int| 0 <= i < shorter.len() implies (#[trigger] shorter[i]).id != id by {
            assert(shorter[i] == list[i]);
        }
        lemma_nothing_is_deleted(shorter, id);
        assert(list.last() == list[list.len() - 1]);
        assert(shorter.push(list.last()) =~= list);
    }
}

/// Only modes that sample the screen, without sound, are supported, and a display can be
/// named only where the portal does not choose it.
pub proof fn law_supported_settings(config: AppConfigView)
    ensures
        errors::settings_problem(config.sync) is None <==> (config.sync.mode == SyncMode::Video
            || config.sync.mode == SyncMode::Game) && !config.sync.audio_reactive,
        errors::support_problem(config) is None <==> (config.sync.mode == SyncMode::Video
            || config.sync.mode == SyncMode::Game) && !config.sync.audio_reactive && (
        config.capture_backend == CaptureBackend::Grim || config.selected_display is None),
{
}

/// A profile can be created where it has a name, is supported and new; changed where it
/// is known; and activated where it is known and supported.
pub proof fn law_profile_operations_are_refused_only_for_cause(
    config: AppConfigView,
    profile: ProfileView,
)
    requires
        config::valid_config(config),
    ensures
        ({
            let usable = !text::blank(profile.name) && errors::settings_problem(profile.settings)
                is None;
            let known = exists|i: int|
                0 <= i < config.profiles.len() && (#[trigger] config.profiles[i]).id == profile.id;
            &&& profiles::create_problem(config, profile) is None <==> usable && !known
            &&& !usable || !known ==> profiles::update_problem(config, profile) is Some
            &&& !known ==> profiles::activate_problem(config, Some(profile.id)) is Some
        }),
{
    law_profile_is_found_by_its_identifier(config.profiles, profile.id);
    let found = profiles::profile_index(config.profiles, profile.id) as int;
    let known = exists|i: int|
        0 <= i < config.profiles.len() && (#[trigger] config.profiles[i]).id == profile.id;
    if found < config.profiles.len() {
        assert(config.profiles[found].id == profile.id);
    }
    if !known && profiles::profile_problem(profile) is None {
        profiles::law_new_profile_is_accepted(config, profile);
    }
}

/// Every change of the configuration is the next revision.
pub proof fn law_revision_goes_up_by_one(
    config: AppConfigView,
    profile: ProfileView,
    id: Option<ProfileId>,
    bridge: BridgeConfigurationView,
)
    requires
        config.revision < u64::MAX,
    ensures
        profiles::with_profile(config, profile).revision == config.revision + 1,
        profiles::with_changed_profile(config, profile).revision == config.revision + 1,
        profiles::with_deleted_profile(config, profile.id).revision == config.revision + 1,
        profiles::with_active_profile(config, id).revision == config.revision + 1,
        bridge::paired_config(config, bridge).revision == config.revision + 1,
        bridge::forgotten_config(config).revision == config.revision + 1,
{
}

/// A color is streamed with the red, green and blue that it has, to its own channel as
/// far as the number fits; so colors that differ are streamed as different colors.
pub proof fn law_streamed_color_is_the_processed_one(color: ChannelColor, other: ChannelColor)
    ensures
        ({
            let streamed = sync::streamed_color(color);
            &&& streamed.red == color.color.red
            &&& streamed.green == color.color.green
            &&& streamed.blue == color.color.blue
            &&& color.channel_id <= 255 ==> streamed.channel_id == color.channel_id
            &&& color.channel_id > 255 ==> streamed.channel_id == 255
        }),
        color.channel_id <= 255 && other.channel_id <= 255 && sync::streamed_color(color)
            == sync::streamed_color(other) ==> color == other,
{
}

/// The processed colors of channels up to 255 can be read back from what is streamed.
pub proof fn law_processed_colors_can_be_read_back(colors: Seq<ChannelColor>, i: int)
    requires
        0 <= i < colors.len(),
        colors[i].channel_id <= 255,
    ensures
        ({
            let streamed = colors.map_values(|color: ChannelColor| sync::streamed_color(color));
            &&& streamed.len() == colors.len()
            &&& colors[i] == (ChannelColor {
                channel_id: streamed[i].channel_id as u16,
                color: Rgb16 {
                    red: streamed[i].red,
                    green: streamed[i].green,
                    blue: streamed[i].blue,
                },
            })
        }),
{
}

/// A captured frame is sampled in the layout in which it was captured, with the rows as
/// far apart as it says, or packed where it does not say.
pub proof fn law_captured_layout_is_sampled(format: frame::FrameFormat)
    ensures
        ({
            let layout = sync::sampled_format(format.pixel_format);
            let wide: int = if format.pixel_format == frame::PixelFormat::Rgb {
                3
            } else {
                4
            };
            &&& format.pixel_format == frame::PixelFormat::Rgb <==> layout is Rgb8
            &&& format.pixel_format == frame::PixelFormat::Rgba <==> layout is Rgba8
            &&& format.pixel_format == frame::PixelFormat::Rgbx <==> layout is Rgbx8
            &&& format.pixel_format == frame::PixelFormat::Bgra <==> layout is Bgra8
            &&& format.pixel_format == frame::PixelFormat::Bgrx <==> layout is Bgrx8
            &&& format.stride != 0 ==> sync::sampled_stride(format) == format.stride
            &&& format.stride == 0 ==> sync::sampled_stride(format) == format.width * wide
        }),
{
}

/// A start is taken up exactly where nothing synchronizes, a bridge is connected, the
/// configuration is supported, and the selected area is known.
pub proof fn law_start_is_taken_up_iff_ready(state: DaemonStateView)
    ensures
        sync::start_problem(state) is None <==> {
            &&& state.status.sync == SyncState::Stopped || state.status.sync == SyncState::Failed
            &&& state.hue is Some
            &&& errors::support_problem(state.config) is None
            &&& state.config.selected_area is Some
            &&& exists|i: int|
                0 <= i < state.areas.len() && Some((#[trigger] state.areas[i]).id)
                    == state.config.selected_area
        },
{
    if state.config.selected_area is Some {
        let id = state.config.selected_area->Some_0;
        if bridge::known_area(state.areas, id) {
            let i = choose|i: int|
                0 <= i < state.areas.len() && (#[trigger] state.areas[i]).id == id;
            assert(Some(state.areas[i].id) == state.config.selected_area);
        }
        if exists|i: int|
            0 <= i < state.areas.len() && Some((#[trigger] state.areas[i]).id)
                == state.config.selected_area {
            let i = choose|i: int|
                0 <= i < state.areas.len() && Some((#[trigger] state.areas[i]).id)
                    == state.config.selected_area;
            assert(state.areas[i].id == id);
        }
    }
}

/// Whether two states differ in their status and in what is done about synchronizing at
/// most.
pub open spec fn same_but_status(a: DaemonStateView, b: DaemonStateView) -> bool {
    &&& a.config == b.config
    &&& a.areas == b.areas
    &&& a.hue == b.hue
    &&& a.pending_pairing == b.pending_pairing
    &&& a.busy == b.busy
    &&& a.status.service == b.status.service
    &&& a.status.bridge == b.status.bridge
}

/// A start says that it starts and asks for permission where the portal does; once it
/// runs, the selected area is the active one. Nothing of it changes the configuration or
/// the bridge.
pub proof fn law_start_and_run_are_told(state: DaemonStateView)
    ensures
        ({
            let starting = sync::starting_state(state);
            let running = sync::running_state(state);
            &&& same_but_status(starting, state)
            &&& starting.starting && starting.syncing == state.syncing
            &&& starting.status.sync == SyncState::Starting
            &&& starting.status.error is None
            &&& starting.status.active_area == state.status.active_area
            &&& starting.status.frames_per_second == state.status.frames_per_second
            &&& state.config.capture_backend == CaptureBackend::PortalPipewire
                ==> starting.status.capture == CaptureState::RequestingPermission
            &&& state.config.capture_backend == CaptureBackend::Grim ==> starting.status.capture
                == CaptureState::Idle
            &&& same_but_status(running, state)
            &&& !running.starting && running.syncing
            &&& running.status.sync == SyncState::Running
            &&& running.status.capture == CaptureState::Capturing
            &&& running.status.active_area == state.config.selected_area
            &&& running.status.frames_per_second == Some((Single { bits: 0 }))
            &&& running.status.error == state.status.error
        }),
{
}

/// A start that fails says why; one that is cancelled says nothing. A synchronization
/// that ends tells its failure, if it had one, and is no longer active.
pub proof fn law_ends_are_told(
    state: DaemonStateView,
    error: ActionableErrorView,
    failure: Option<ActionableErrorView>,
)
    ensures
        ({
            let failed = sync::start_failed_state(state, error);
            let cancelled = sync::start_cancelled_state(state);
            let finished = sync::finished_state(state, failure);
            let stopping = sync::stopping_state(state);
            &&& same_but_status(failed, state) && !failed.starting && failed.syncing
                == state.syncing
            &&& failed.status.sync == SyncState::Failed
            &&& failed.status.capture == CaptureState::Failed
            &&& failed.status.error == Some(error)
            &&& same_but_status(cancelled, state) && !cancelled.starting && cancelled.syncing
                == state.syncing
            &&& cancelled.status.sync == SyncState::Stopped
            &&& cancelled.status.capture == CaptureState::Idle
            &&& cancelled.status.error is None
            &&& same_but_status(finished, state) && !finished.syncing && finished.starting
                == state.starting
            &&& failure is Some ==> finished.status.sync == SyncState::Failed
            &&& failure is None ==> finished.status.sync == SyncState::Stopped
            &&& finished.status.error == failure
            &&& finished.status.capture == CaptureState::Idle
            &&& finished.status.active_area is None
            &&& finished.status.frames_per_second is None
            &&& same_but_status(stopping, state) && !stopping.syncing && stopping.starting
                == state.starting
            &&& stopping.status.sync == SyncState::Stopping
            &&& stopping.status.active_area == state.status.active_area
            &&& stopping.status.error == state.status.error
            &&& stopping.status.capture == state.status.capture
        }),
{
}

/// What went wrong first is what a synchronization failed of: its frames, else its
/// capture, else its stream. Without any of these it did not fail.
pub proof fn law_first_failure_is_told(
    frames: Option<ActionableErrorView>,
    capture: Option<CaptureErrorView>,
    stream_failed: bool,
)
    ensures
        ({
            let failure = sync::sync_failure(frames, capture, stream_failed);
            &&& failure is None <==> frames is None && capture is None && !stream_failed
            &&& frames is Some ==> failure == frames
            &&& frames is None && capture is Some ==> failure == Some(
                errors::capture_failure(capture->Some_0),
            )
            &&& frames is None && capture is None && stream_failed ==> failure->Some_0.code
                == ErrorCode::SyncUnavailable && failure->Some_0.retryable
        }),
{
}

/// A stop ends the task where there is one, waits where it is being ended, and has
/// nothing to do where nothing runs.
pub proof fn law_stop_ends_what_runs(state: DaemonStateView)
    ensures
        state.syncing <==> sync::stop_step(state) == StopStep::StopTask,
        !state.syncing && state.status.sync == SyncState::Stopped <==> sync::stop_step(state)
            == StopStep::AlreadyStopped,
        !state.syncing && state.status.sync == SyncState::Stopping <==> sync::stop_step(state)
            == StopStep::AwaitCleanup,
{
}

/// A capture that was not permitted is told so and not tried again; any other failure of
/// a capture can be.
pub proof fn law_capture_failures_are_told_apart(error: CaptureErrorView)
    ensures
        ({
            let told = errors::capture_failure(error);
            let refused = error is UserCancelled || error is ConsentRequired;
            &&& refused ==> told.code == ErrorCode::CapturePermissionDenied && !told.retryable
            &&& !refused ==> told.code == ErrorCode::CaptureUnavailable && told.retryable
            &&& told.action is Some
        }),
{
}

/// Conflicts and troubles with the bridge can be tried again, a wrong configuration
/// cannot; each is told under its own code, in the words that were given.
pub proof fn law_errors_carry_their_codes(message: Seq<char>)
    ensures
        errors::conflict_error(message).code == ErrorCode::Conflict,
        errors::conflict_error(message).retryable,
        errors::conflict_error(message).message == message,
        errors::configuration_error(message).code == ErrorCode::InvalidConfiguration,
        !errors::configuration_error(message).retryable,
        errors::configuration_error(message).message == message,
        errors::bridge_error(message).code == ErrorCode::BridgeUnavailable,
        errors::bridge_error(message).retryable,
        errors::bridge_error(message).message == message,
        errors::bridge_error(message).action is Some,
{
}

/// A pairing is completed exactly for the bridge that is being paired.
pub proof fn law_only_the_pending_pairing_is_completed(state: DaemonStateView, id: Seq<char>)
    ensures
        bridge::completion_problem(state, id) is None <==> state.pending_pairing is Some
            && state.pending_pairing->Some_0.id == id,
{
}

/// A bridge to pair needs an address, and then what every bridge needs.
pub proof fn law_pairing_needs_an_address(found: DiscoveredBridgeView, address: Option<IpAddress>)
    ensures
        bridge::pairing_problem(found, address) is None <==> address is Some
            && hue::candidate_problem(
            BridgeCandidateView { id: found.id, address: address->Some_0, name: found.id },
        ) is None,
{
}

/// A bridge keeps its address, and its name where it has one.
pub proof fn law_bridge_keeps_its_address(
    id: Seq<char>,
    address: IpAddress,
    name: Option<Seq<char>>,
)
    ensures
        ({
            let candidate = bridge::raw_candidate(id, address, name);
            let normal = bridge::normal_candidate(candidate);
            &&& candidate.id == id
            &&& candidate.address == address
            &&& name is Some ==> candidate.name == name->Some_0
            &&& name is None ==> candidate.name == "Hue Bridge"@
            &&& normal.address == address
            &&& normal.name == candidate.name
            &&& normal.id.len() == id.len()
            &&& forall|i: int|
                0 <= i < id.len() ==> (#[trigger] normal.id[i]) == if 'A' <= id[i] <= 'Z' {
                    (id[i] as u32 + 32) as char
                } else {
                    id[i]
                }
        }),
{
}

/// Every bridge that was found and has an identifier is reported, in its order, with its
/// own host and name.
pub proof fn law_found_bridges_are_reported(found: Seq<FoundBridgeView>, more: FoundBridgeView)
    ensures
        ({
            let before = bridge::reported_bridges(found);
            let after = bridge::reported_bridges(found.push(more));
            &&& bridge::reported_bridges(Seq::empty()).len() == 0
            &&& text::blank(more.id) ==> after == before
            &&& !text::blank(more.id) ==> {
                &&& after.len() == before.len() + 1
                &&& forall|i: int| 0 <= i < before.len() ==> #[trigger] after[i] == before[i]
                &&& after.last().id == more.id
                &&& after.last().host == more.host
                &&& after.last().name == Some(more.name)
            }
        }),
{
    assert(found.push(more).drop_last() =~= found);
}

/// A bridge that was paired is the configured one, and nothing else changes; one that is
/// forgotten is gone with its area, and nothing else changes.
pub proof fn law_pairing_and_forgetting_change_only_the_bridge(
    config: AppConfigView,
    paired: BridgeConfigurationView,
)
    ensures
        ({
            let with = bridge::paired_config(config, paired);
            let without = bridge::forgotten_config(config);
            &&& with.bridge == Some(paired)
            &&& with.selected_area == config.selected_area
            &&& without.bridge is None
            &&& without.selected_area is None
            &&& forall|next: AppConfigView|
                next == with || next == without ==> #[trigger] keeps_all_but_the_bridge(next, config)
        }),
{
}

/// Whether a configuration differs from another in its bridge, its area and its revision
/// at most.
pub open spec fn keeps_all_but_the_bridge(a: AppConfigView, b: AppConfigView) -> bool {
    &&& a.schema_version == b.schema_version
    &&& a.language == b.language
    &&& a.capture_backend == b.capture_backend
    &&& a.sync == b.sync
    &&& a.restore_on_stop == b.restore_on_stop
    &&& a.launch_at_login == b.launch_at_login
    &&& a.auto_start_sync == b.auto_start_sync
    &&& a.selected_display == b.selected_display
    &&& a.profiles == b.profiles
    &&& a.active_profile == b.active_profile
}

/// A connected bridge is the one that is used, and nothing is paired any more; a changed
/// or forgotten one is not used, and none of its areas is known.
pub proof fn law_bridge_states_are_told(state: DaemonStateView, candidate: BridgeCandidateView)
    ensures
        ({
            let connected = bridge::connected_state(state, candidate);
            let changed = bridge::changed_bridge_state(state);
            let forgotten = bridge::forgotten_state(state);
            &&& connected.hue == Some(candidate)
            &&& connected.pending_pairing is None
            &&& connected.status.bridge == BridgeState::Connected
            &&& connected.status.error is None
            &&& connected.areas == state.areas
            &&& connected.config == state.config
            &&& connected.status.sync == state.status.sync
            &&& changed.hue is None
            &&& changed.areas.len() == 0
            &&& changed.pending_pairing == state.pending_pairing
            &&& changed.config == state.config
            &&& changed.status.error == state.status.error
            &&& state.config.bridge is Some ==> changed.status.bridge == BridgeState::Disconnected
            &&& state.config.bridge is None ==> changed.status.bridge == BridgeState::Unconfigured
            &&& forgotten.hue is None
            &&& forgotten.pending_pairing is None
            &&& forgotten.areas.len() == 0
            &&& forgotten.status.bridge == BridgeState::Unconfigured
            &&& forgotten.status.active_area is None
            &&& forgotten.status.error is None
            &&& forgotten.config == state.config
        }),
{
}

/// After a discovery the bridge is as it was: connected where it is used, else known
/// where it is configured.
pub proof fn law_discovery_leaves_the_bridge(state: DaemonStateView)
    ensures
        ({
            let told = bridge::resting_bridge_state(state);
            &&& state.hue is Some ==> told == BridgeState::Connected
            &&& state.hue is None && state.config.bridge is Some ==> told
                == BridgeState::Disconnected
            &&& state.hue is None && state.config.bridge is None ==> told
                == BridgeState::Unconfigured
        }),
{
}

/// Telling a state of the bridge changes that state and the error, and nothing else.
pub proof fn law_bridge_state_is_told_alone(
    state: DaemonStateView,
    told: BridgeState,
    error: Option<ActionableErrorView>,
)
    ensures
        ({
            let after = service::with_bridge_state(state, told, error);
            &&& after.status.bridge == told
            &&& after.status.error == error
            &&& after == (DaemonStateView {
                status: StatusSnapshotView { bridge: told, error, ..state.status },
                ..state
            })
        }),
{
}

/// A service begins ready and at rest, with its configuration, with a bridge that is
/// known but not connected, and with a pairing that was in progress.
pub proof fn law_service_begins_at_rest(
    config: AppConfigView,
    pairing: bool,
    candidate: Option<BridgeCandidateView>,
)
    ensures
        ({
            let state = service::initial_state(config, pairing, candidate);
            &&& state.config == config
            &&& state.pending_pairing == candidate
            &&& state.hue is None
            &&& state.areas.len() == 0
            &&& !state.starting && !state.syncing && !state.busy
            &&& state.status.sync == SyncState::Stopped
            &&& state.status.service == ServiceState::Ready
            &&& state.status.error is None
            &&& config.bridge is Some ==> state.status.bridge == BridgeState::Disconnected
            &&& config.bridge is None && pairing ==> state.status.bridge == BridgeState::Pairing
            &&& config.bridge is None && !pairing ==> state.status.bridge
                == BridgeState::Unconfigured
        }),
{
}

/// An update is taken up exactly where the area that it names is known and the
/// configuration that it leads to is sound and supported.
pub proof fn law_update_is_taken_up_iff_sound(state: DaemonStateView, update: ConfigUpdateView)
    ensures
        bridge::update_problem(state, update) is None <==> {
            let next = config::updated_config(state.config, update);
            &&& update.selected_area is Some && update.selected_area->Some_0 is Some ==> exists|
                i: int,
            |
                0 <= i < state.areas.len() && Some((#[trigger] state.areas[i]).id)
                    == update.selected_area->Some_0
            &&& config::config_validation(next) is Ok
            &&& errors::support_problem(next) is None
        },
{
    if update.selected_area is Some && update.selected_area->Some_0 is Some {
        let id = update.selected_area->Some_0->Some_0;
        if bridge::known_area(state.areas, id) {
            let i = choose|i: int|
                0 <= i < state.areas.len() && (#[trigger] state.areas[i]).id == id;
            assert(Some(state.areas[i].id) == update.selected_area->Some_0);
        }
        if exists|i: int|
            0 <= i < state.areas.len() && Some((#[trigger] state.areas[i]).id)
                == update.selected_area->Some_0 {
            let i = choose|i: int|
                0 <= i < state.areas.len() && Some((#[trigger] state.areas[i]).id)
                    == update.selected_area->Some_0;
            assert(state.areas[i].id == id);
        }
    }
}

/// Selecting an area, or none, is an update of that alone.
pub proof fn law_selecting_an_area_changes_only_that(config: AppConfigView, id: Option<Seq<char>>)
    ensures
        ({
            let next = config::updated_config(config, bridge::area_update(id));
            &&& next.selected_area == id
            &&& next == (AppConfigView {
                selected_area: id,
                revision: next.revision,
                ..config
            })
        }),
{
}

/// An update concerns the settings alone exactly where it names them and nothing else.
pub proof fn law_settings_updates_name_nothing_else(update: ConfigUpdateView)
    ensures
        bridge::settings_only(update) <==> {
            &&& update.sync is Some
            &&& update.language is None
            &&& update.capture_backend is None
            &&& update.restore_on_stop is None
            &&& update.launch_at_login is None
            &&& update.auto_start_sync is None
            &&& update.selected_display is None
            &&& update.selected_area is None
            &&& update.bridge is None
        },
{
}

/// An area is read with all of its channels, each at its own place on the screen.
pub proof fn law_channels_keep_their_places(
    channels: Seq<EntertainmentChannelView>,
    read: Seq<ScreenChannel>,
    i: int,
)
    requires
        bridge::same_channels(channels, read),
        0 <= i < read.len(),
    ensures
        channels.len() == read.len(),
        channels[i].id == read[i].channel_id,
        channels[i].position.x_bits() == read[i].x,
        channels[i].position.y_bits() == read[i].y,
{
}

/// A channel is on the screen exactly where both of its coordinates are from zero to one.
pub proof fn law_channels_on_the_screen(read: Seq<ScreenChannel>)
    ensures
        bridge::on_screen(read, read.len() as int) <==> forall|i: int|
            0 <= i < read.len() ==> ((#[trigger] read[i]).x <= 0x3f80_0000 || read[i].x
                == 0x8000_0000) && (read[i].y <= 0x3f80_0000 || read[i].y == 0x8000_0000),
{
}

/// The area of a start is the first with the selected identifier.
pub proof fn law_start_uses_the_selected_area(
    areas: Seq<EntertainmentAreaView>,
    id: Seq<char>,
    area: EntertainmentAreaView,
)
    requires
        sync::is_first_area(areas, id, area),
    ensures
        area.id == id,
        exists|i: int|
            0 <= i < areas.len() && #[trigger] areas[i] == area && forall|j: int|
                0 <= j < i ==> (#[trigger] areas[j]).id != id,
{
    let i = choose|i: int|
        0 <= i < areas.len() && areas[i].id == id && areas[i] == area && (forall|j: int|
            0 <= j < i ==> (#[trigger] areas[j]).id != id) && #[trigger] areas[i].id == id;
    assert(areas[i] == area);
}

/// An operation that needs the service idle is taken up exactly where none is in
/// progress, nothing synchronizes, and no bridge is looked for or paired; the others
/// need less of this.
pub proof fn law_reservations_need_rest(state: DaemonStateView, operation: Seq<char>)
    ensures
        ({
            let rests = state.status.sync == SyncState::Stopped || state.status.sync
                == SyncState::Failed;
            let pairs = state.status.bridge == BridgeState::Discovering || state.status.bridge
                == BridgeState::Pairing;
            &&& service::idle_problem(state, operation) is None <==> !state.busy && rests && !pairs
            &&& service::sync_idle_problem(state, operation) is None <==> !state.busy && rests
            &&& service::settings_update_problem(state) is None <==> !state.busy && (rests
                || state.status.sync == SyncState::Running)
        }),
{
}

/// What each request asks for is done: its plan carries what it carries.
pub proof fn law_requests_become_their_plans(
    state: DaemonStateView,
    found: DiscoveredBridgeView,
    text: Seq<char>,
    area: Option<Seq<char>>,
    update: ConfigUpdateView,
    profile: ProfileView,
    id: ProfileId,
    active: Option<ProfileId>,
    enabled: bool,
)
    ensures
        dispatch::plan_for(state, RequestView::GetStatus) == PlanView::Answer(
            ResponsePayloadView::Status(state.status),
        ),
        dispatch::plan_for(state, RequestView::GetConfig) == PlanView::Answer(
            ResponsePayloadView::Config(state.config),
        ),
        dispatch::plan_for(state, RequestView::DiscoverBridges) is Discover,
        dispatch::plan_for(state, RequestView::BeginPairing { bridge: found })
            == PlanView::BeginPairing(found),
        dispatch::plan_for(state, RequestView::CompletePairing { bridge_id: text })
            == PlanView::CompletePairing(text),
        dispatch::plan_for(state, RequestView::ForgetBridge) is Forget,
        dispatch::plan_for(state, RequestView::RefreshAreas) is RefreshAreas,
        dispatch::plan_for(state, RequestView::SelectArea { area_id: area })
            == PlanView::SelectArea(area),
        update.bridge is Some && update.bridge->Some_0 is None ==> dispatch::plan_for(
            state,
            RequestView::UpdateConfig { update },
        ) is Forget,
        !(update.bridge is Some && update.bridge->Some_0 is None) ==> dispatch::plan_for(
            state,
            RequestView::UpdateConfig { update },
        ) == PlanView::Update(update),
        dispatch::plan_for(state, RequestView::CreateProfile { profile })
            == PlanView::CreateProfile(profile),
        dispatch::plan_for(state, RequestView::UpdateProfile { profile })
            == PlanView::UpdateProfile(profile),
        dispatch::plan_for(state, RequestView::DeleteProfile { profile_id: id })
            == PlanView::DeleteProfile(id),
        dispatch::plan_for(state, RequestView::ActivateProfile { profile_id: active })
            == PlanView::ActivateProfile(active),
        dispatch::plan_for(state, RequestView::Start) is Start,
        dispatch::plan_for(state, RequestView::Stop) is Stop,
        state.status.sync == SyncState::Running ==> dispatch::plan_for(state, RequestView::Toggle)
            is Stop,
        state.status.sync != SyncState::Running ==> dispatch::plan_for(state, RequestView::Toggle)
            is Start,
        dispatch::plan_for(state, RequestView::WatchStatus { enabled }) == PlanView::Answer(
            ResponsePayloadView::Acknowledged,
        ),
{
    assert(dispatch::plan_for(state, RequestView::ForgetBridge) is Forget);
}

/// Answers and stops wait for nothing. Starting and completing a pairing need that
/// nothing synchronizes, and every other plan but an update of the settings needs the
/// service idle.
pub proof fn law_plans_wait_for_rest(state: DaemonStateView, plan: PlanView)
    ensures
        ({
            let rests = state.status.sync == SyncState::Stopped || state.status.sync
                == SyncState::Failed;
            let pairs = state.status.bridge == BridgeState::Discovering || state.status.bridge
                == BridgeState::Pairing;
            let free = dispatch::plan_problem(state, plan) is None;
            match plan {
                PlanView::Answer(_) => free && !dispatch::reserves(plan),
                PlanView::Stop => free && !dispatch::reserves(plan),
                PlanView::CompletePairing(_) => dispatch::reserves(plan) && (free <==> !state.busy
                    && rests),
                PlanView::Start => dispatch::reserves(plan) && (free <==> !state.busy && rests),
                PlanView::Update(update) => {
                    &&& dispatch::reserves(plan)
                    &&& bridge::settings_only(update) ==> (free <==> !state.busy && (rests
                        || state.status.sync == SyncState::Running))
                    &&& !bridge::settings_only(update) ==> (free <==> !state.busy && rests
                        && !pairs)
                },
                _ => dispatch::reserves(plan) && (free <==> !state.busy && rests && !pairs),
            }
        }),
{
}

/// A pairing goes on only after what it needs has succeeded, and refuses or undoes
/// itself with the error that stopped it.
pub proof fn law_pairing_goes_on_only_after_success(
    attempt: Option<PairAttempt>,
    done: bool,
    error: Option<ActionableErrorView>,
)
    ensures
        ({
            let attempted = pairing::step_after(PairingOutcomeView::Attempted(attempt));
            let cleared = pairing::step_after(PairingOutcomeView::Cleared { done });
            let saved = pairing::step_after(PairingOutcomeView::Saved(error));
            &&& attempt is None ==> attempted is Refuse
            &&& attempt == Some(PairAttempt::WaitingForLinkButton) <==> attempted
                == PairingStepView::Wait
            &&& attempt == Some(PairAttempt::Paired) <==> attempted
                == PairingStepView::ClearProgress
            &&& done <==> cleared == PairingStepView::Save
            &&& !done ==> cleared is Undo
            &&& error is None <==> saved == PairingStepView::Finish
            &&& error is Some ==> saved == PairingStepView::Undo(error->Some_0)
        }),
{
}

/// A change of the configuration comes to the next configuration exactly where there is
/// no problem with it, and else to that problem.
pub proof fn law_changes_succeed_without_a_problem(
    r: Result<AppConfig, ActionableError>,
    problem: Option<ActionableErrorView>,
    next: AppConfigView,
)
    requires
        profiles::planned(r, problem, next),
    ensures
        r is Ok <==> problem is None,
        r is Ok ==> r->Ok_0.deep_view() == next,
        r is Err ==> Some(r->Err_0.deep_view()) == problem,
{
}

/// A configuration that is not accepted is refused with the message that says why.
pub proof fn law_refused_configuration_says_why(next: AppConfigView)
    ensures
        profiles::config_problem(next) is None <==> config::config_validation(next) is Ok,
        profiles::config_problem(next) is Some ==> profiles::config_problem(next)->Some_0.code
            == ErrorCode::InvalidConfiguration && profiles::config_problem(next)->Some_0.message
            == config::config_validation(next)->Err_0.message_text(),
{
}

/// The service is reserved exactly where there is no problem; nothing else changes, and
/// nothing at all where there is one.
pub proof fn law_reserved_service_is_busy(
    before: DaemonStateView,
    after: DaemonStateView,
    problem: Option<ActionableErrorView>,
    r: Result<(), ActionableError>,
)
    requires
        service::reservation(before, after, problem, r),
    ensures
        r is Ok <==> problem is None,
        r is Ok ==> after.busy,
        r is Err ==> after.busy == before.busy && Some(r->Err_0.deep_view()) == problem,
        after == (DaemonStateView { busy: after.busy, ..before }),
{
}

/// A configuration that cannot be saved may be saved later; without a bridge the user is
/// told to pair one; what is not known is an invalid request.
pub proof fn law_troubles_are_told_with_their_codes()
    ensures
        service::save_error().code == ErrorCode::Internal && service::save_error().retryable,
        bridge::not_connected().code == ErrorCode::BridgeUnavailable,
        bridge::not_connected().action is Some && !bridge::not_connected().retryable,
        profiles::missing_profile().code == ErrorCode::InvalidRequest,
        !profiles::missing_profile().retryable,
{
}

/// A conflict with a running synchronization names the operation that it stops.
pub proof fn law_conflicts_name_the_operation(state: DaemonStateView, operation: Seq<char>)
    requires
        !state.busy,
        state.status.sync != SyncState::Stopped,
        state.status.sync != SyncState::Failed,
    ensures
        service::sync_idle_problem(state, operation) is Some,
        service::sync_idle_problem(state, operation)->Some_0.code == ErrorCode::Conflict,
        service::sync_idle_problem(state, operation)->Some_0.message == "Cannot "@ + operation
            + " while synchronization is active"@,
        service::idle_problem(state, operation) == service::sync_idle_problem(state, operation),
{
}

/// The configuration is kept in a directory of its own below the one that is given.
pub proof fn law_configuration_has_its_directory(directory: Seq<u8>)
    requires
        directory.len() > 0,
        directory.last() != '/' as u8,
    ensures
        store::config_file(directory) == directory + vstd::utf8::encode_utf8(
            "/omarchy-lightsync/config.toml"@,
        ),
{
    let file = "/omarchy-lightsync/config.toml"@;
    let folder = store::CONFIG_DIRECTORY@;
    let name = store::CONFIG_FILE@;
    reveal_strlit("/omarchy-lightsync/config.toml");
    reveal_strlit("omarchy-lightsync");
    reveal_strlit("config.toml");
    vstd::utf8::is_ascii_chars_encode_utf8(file);
    vstd::utf8::is_ascii_chars_encode_utf8(folder);
    vstd::utf8::is_ascii_chars_encode_utf8(name);
    assert(store::config_file(directory) =~= directory + vstd::utf8::encode_utf8(file));
}

/// A captured frame can be sampled exactly where its rows fit a stride that the sampler
/// can hold and lie within its bytes.
pub proof fn law_frame_is_sampled_iff_its_rows_fit(
    format: frame::FrameFormat,
    len: nat,
    row: int,
    stride: int,
)
    requires
        len <= usize::MAX,
        format.pixel_format == frame::PixelFormat::Rgb ==> row == 3 * format.width,
        format.pixel_format != frame::PixelFormat::Rgb ==> row == 4 * format.width,
        format.stride == 0 ==> stride == row,
        format.stride > 0 ==> stride == format.stride,
        format.stride < 0 ==> stride == -format.stride,
    ensures
        sync::sampling_problem(format, len) is None <==> {
            &&& format.width > 0
            &&& format.height > 0
            &&& stride <= i32::MAX
            &&& row <= stride
            &&& (format.height - 1) * stride + row <= len
        },
{
    let sampled = sync::sampled_stride(format);
    if sampled <= i32::MAX {
        crate::engine::laws::law_frame_is_accepted_iff_its_rows_fit(
            len,
            format.width as nat,
            format.height as nat,
            sampled as i32,
            sync::sampled_format(format.pixel_format),
        );
    }
}

/// An ending shuts the capture down first, stops the stream next, and is finished only
/// after both.
pub proof fn law_ending_goes_step_by_step(
    ending: SyncEndingView,
    failure: Option<ActionableErrorView>,
)
    ensures
        sync::end_step(ending) == EndStep::ShutDownCapture <==> ending.captured is None,
        sync::end_step(ending) == EndStep::StopStream <==> ending.captured is Some
            && ending.stream_failed is None,
        sync::end_step(ending) == EndStep::Finish <==> ending.captured is Some
            && ending.stream_failed is Some,
        sync::begun_ending(failure).failure == failure,
        sync::begun_ending(failure).captured is None,
        sync::begun_ending(failure).stream_failed is None,
{
}

} // verus!
