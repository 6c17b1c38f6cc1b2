//! What updating and validating a configuration come to, field by field.
use crate::domain::config::{
    AppConfigView, CaptureBackend, ConfigUpdateView, EntertainmentChannelView, Intensity, Language,
    ProfileId, ProfileView, SyncMode, ValidationError,
};
use crate::domain::config;
use crate::domain::ipc::ProtocolErrorView;
use crate::domain::ipc;
use crate::domain::state::ErrorCode;
use crate::domain::state;
use crate::encoding;
use crate::text;
use vstd::arithmetic::power2::pow2;
use vstd::prelude::*;

verus! {

/// An update sets exactly the values that it names: every other value stays, profiles
/// stay, and the revision is the next one as long as there is one.
pub proof fn law_update_sets_what_it_names(config: AppConfigView, update: ConfigUpdateView)
    ensures
        ({
            let next = config::updated_config(config, update);
            &&& update.language is Some ==> next.language == update.language->Some_0
            &&& update.language is None ==> next.language == config.language
            &&& update.capture_backend is Some ==> next.capture_backend
                == update.capture_backend->Some_0
            &&& update.capture_backend is None ==> next.capture_backend == config.capture_backend
            &&& update.sync is Some ==> next.sync == update.sync->Some_0
            &&& update.sync is None ==> next.sync == config.sync
            &&& update.restore_on_stop is Some ==> next.restore_on_stop
                == update.restore_on_stop->Some_0
            &&& update.restore_on_stop is None ==> next.restore_on_stop == config.restore_on_stop
            &&& update.launch_at_login is Some ==> next.launch_at_login
                == update.launch_at_login->Some_0
            &&& update.launch_at_login is None ==> next.launch_at_login == config.launch_at_login
            &&& update.auto_start_sync is Some ==> next.auto_start_sync
                == update.auto_start_sync->Some_0
            &&& update.auto_start_sync is None ==> next.auto_start_sync == config.auto_start_sync
            &&& update.selected_display is Some ==> next.selected_display
                == update.selected_display->Some_0
            &&& update.selected_display is None ==> next.selected_display
                == config.selected_display
            &&& update.selected_area is Some ==> next.selected_area == update.selected_area->Some_0
            &&& update.selected_area is None ==> next.selected_area == config.selected_area
            &&& update.bridge is Some ==> next.bridge == update.bridge->Some_0
            &&& update.bridge is None ==> next.bridge == config.bridge
            &&& next.profiles == config.profiles
            &&& next.active_profile == config.active_profile
            &&& next.schema_version == config.schema_version
            &&& config.revision < u64::MAX ==> next.revision == config.revision + 1
            &&& config.revision == u64::MAX ==> next.revision == u64::MAX
        }),
{
}

/// An update that names nothing has no value in it.
pub proof fn law_empty_update_names_nothing()
    ensures
        ({
            let update = config::empty_update();
            &&& update.language is None
            &&& update.capture_backend is None
            &&& update.sync is None
            &&& update.restore_on_stop is None
            &&& update.launch_at_login is None
            &&& update.auto_start_sync is None
            &&& update.selected_display is None
            &&& update.selected_area is None
            &&& update.bridge is None
        }),
{
}

/// Whether a text holds something besides white space.
pub open spec fn says_something(s: Seq<char>) -> bool {
    exists|i: int| 0 <= i < s.len() && !text::is_white_space_spec(#[trigger] s[i])
}

/// A configuration is accepted exactly where it has the present form, its bridge has a
/// host, its profiles have names and differ, and the active profile is one of them.
pub proof fn law_configuration_is_accepted_iff_sound(config: AppConfigView)
    ensures
        config::config_validation(config) is Ok <==> {
            &&& config.schema_version == 1
            &&& config.bridge is Some ==> says_something(config.bridge->Some_0.host)
            &&& forall|i: int|
                0 <= i < config.profiles.len() ==> says_something(
                    (#[trigger] config.profiles[i]).name,
                )
            &&& forall|i: int, j: int|
                0 <= i < j < config.profiles.len() ==> (#[trigger] config.profiles[i]).id != (
                #[trigger] config.profiles[j]).id
            &&& config.active_profile is Some ==> exists|i: int|
                0 <= i < config.profiles.len() && Some((#[trigger] config.profiles[i]).id)
                    == config.active_profile
        },
{
    config::law_validation_passes_iff_valid(config);
    assert forall|s: Seq<char>| #[trigger] text::blank(s) <==> !says_something(s) by {}
    if config.active_profile is Some {
        let id = config.active_profile->Some_0;
        let n = config.profiles.len() as int;
        if config::profile_among(config.profiles, id, n) {
            let i = choose|i: int| 0 <= i < n && (#[trigger] config.profiles[i]).id == id;
            assert(Some(config.profiles[i].id) == config.active_profile);
        }
        if exists|i: int| 0 <= i < n && Some((#[trigger] config.profiles[i]).id)
            == config.active_profile {
            let i = choose|i: int|
                0 <= i < n && Some((#[trigger] config.profiles[i]).id) == config.active_profile;
            assert(config.profiles[i].id == id);
        }
    }
}

/// What is told of a configuration that is refused is so: the form, the profile that is
/// there twice, or the active profile that is not there.
pub proof fn law_refused_configuration_is_told_why(config: AppConfigView)
    ensures
        match config::config_validation(config) {
            Err(ValidationError::UnsupportedSchema(version)) => version == config.schema_version
                && version != 1,
            Err(ValidationError::UnknownActiveProfile(id)) => config.active_profile == Some(id)
                && forall|i: int|
                0 <= i < config.profiles.len() ==> (#[trigger] config.profiles[i]).id != id,
            Err(ValidationError::DuplicateProfile(id)) => exists|i: int, j: int|
                0 <= i < j < config.profiles.len() && (#[trigger] config.profiles[i]).id == id && (
                #[trigger] config.profiles[j]).id == id,
            _ => true,
        },
        config.schema_version != 1 ==> config::config_validation(config) == Err::<
            (),
            ValidationError,
        >(ValidationError::UnsupportedSchema(config.schema_version)),
{
    let n = config.profiles.len();
    if config::profiles_validation(config.profiles, n) is Err {
        lemma_reported_profile(config.profiles, n);
    }
}

proof fn lemma_reported_profile(profiles: Seq<ProfileView>, n: nat)
    requires
        n <= profiles.len(),
    ensures
        match config::profiles_validation(profiles, n) {
            Err(ValidationError::DuplicateProfile(id)) => exists|i: int, j: int|
                0 <= i < j < n && (#[trigger] profiles[i]).id == id && (#[trigger] profiles[j]).id
                    == id,
            Err(ValidationError::UnsupportedSchema(_)) => false,
            Err(ValidationError::UnknownActiveProfile(_)) => false,
            _ => true,
        },
    decreases n,
{
    if n > 0 {
        lemma_reported_profile(profiles, (n - 1) as nat);
        let last = profiles[n - 1];
        if config::profiles_validation(profiles, (n - 1) as nat) is Ok
            && config::profile_validation(last) is Ok && config::profile_among(
            profiles,
            last.id,
            n - 1,
        ) {
            let i = choose|i: int| 0 <= i < n - 1 && (#[trigger] profiles[i]).id == last.id;
            assert(profiles[i].id == last.id && profiles[n - 1].id == last.id);
        }
    }
}

/// The channels of an area are accepted exactly where no two have one identifier, and
/// the one that is told otherwise is there twice.
pub proof fn law_channels_are_checked(
    channels: Seq<EntertainmentChannelView>,
    r: Result<(), ValidationError>,
)
    requires
        config::channels_checked(channels, r),
    ensures
        r is Ok <==> forall|i: int, j: int|
            0 <= i < j < channels.len() ==> (#[trigger] channels[i]).id != (
            #[trigger] channels[j]).id,
        r matches Err(error) ==> error matches ValidationError::DuplicateChannel(id) && exists|
            i: int,
            j: int,
        |
            0 <= i < j < channels.len() && (#[trigger] channels[i]).id == id && (
            #[trigger] channels[j]).id == id,
{
    if r is Ok && forall|i: int|
        0 <= i < channels.len() ==> !#[trigger] config::repeats_channel(channels, i) {
        assert forall|i: int, j: int| 0 <= i < j < channels.len() implies (
        #[trigger] channels[i]).id != (#[trigger] channels[j]).id by {
            assert(!config::repeats_channel(channels, j));
        }
    } else {
        let j = choose|j: int|
            0 <= j < channels.len() && #[trigger] config::repeats_channel(channels, j) && (forall|
                k: int,
            |
                0 <= k < j ==> !#[trigger] config::repeats_channel(channels, k)) && r == Err::<
                (),
                ValidationError,
            >(ValidationError::DuplicateChannel(channels[j].id));
        let i = choose|i: int| 0 <= i < j && (#[trigger] channels[i]).id == channels[j].id;
        assert(channels[i].id == channels[j].id);
    }
}

/// A service that was never configured does nothing by itself: it knows no bridge,
/// starts neither with the session nor by itself, asks before it captures, and puts
/// lights back.
pub proof fn law_defaults_are_quiet(config: AppConfigView)
    requires
        config::default_config(config),
    ensures
        config.bridge is None,
        config.selected_area is None,
        config.selected_display is None,
        !config.launch_at_login,
        !config.auto_start_sync,
        config.restore_on_stop,
        config.capture_backend == CaptureBackend::PortalPipewire,
        config.sync.mode == SyncMode::Video,
        config.sync.intensity == Intensity::Moderate,
        config.sync.brightness.percent() == 80,
        !config.sync.audio_reactive,
        config.language == Language::System,
        config.profiles.len() == 0,
        config.active_profile is None,
        config.revision == 0,
{
}

/// Only numbers from zero to one lie in the unit interval, both zeros among them.
pub proof fn law_unit_interval(bits: u32)
    ensures
        config::is_unit(bits) <==> bits <= 0x3f80_0000 || bits == 0x8000_0000,
        config::same_coordinate(bits, bits),
        config::same_coordinate(0, 0x8000_0000),
        forall|other: u32|
            config::is_unit(bits) && config::is_unit(other) && #[trigger] config::same_coordinate(
                bits,
                other,
            ) ==> bits == other || (bits % 0x8000_0000 == 0 && other % 0x8000_0000 == 0),
{
}

/// The one version that is spoken is accepted, and every other one is refused by name.
pub proof fn law_only_the_spoken_version_is_accepted(version: u32)
    ensures
        version == 1 ==> ipc::version_check(version) is Ok,
        version != 1 ==> ipc::version_check(version) == Err::<(), ipc::ProtocolError>(
            (ipc::ProtocolError::VersionMismatch { expected: 1, received: version }),
        ),
{
}

/// The body of a record is what stands before its end, and holds no more of it than
/// that.
pub proof fn law_record_body_lacks_only_the_end(record: Seq<char>)
    ensures
        ({
            let body = ipc::record_body(record);
            &&& body.len() <= record.len() <= body.len() + 2
            &&& forall|i: int| 0 <= i < body.len() ==> #[trigger] body[i] == record[i]
            &&& forall|i: int|
                body.len() <= i < record.len() ==> #[trigger] record[i] == '\n' || record[i] == '\r'
            &&& ipc::has_line_break(body) <==> exists|i: int|
                0 <= i < body.len() && (#[trigger] body[i] == '\n' || body[i] == '\r')
        }),
{
    let body = ipc::record_body(record);
    if ipc::has_line_break(body) {
        if body.contains('\n') {
            let i = choose|i: int| 0 <= i < body.len() && body[i] == '\n';
            assert(body[i] == '\n');
        } else {
            let i = choose|i: int| 0 <= i < body.len() && body[i] == '\r';
            assert(body[i] == '\r');
        }
    }
    if exists|i: int| 0 <= i < body.len() && (#[trigger] body[i] == '\n' || body[i] == '\r') {
        let i = choose|i: int|
            0 <= i < body.len() && (#[trigger] body[i] == '\n' || body[i] == '\r');
        assert(body.contains(body[i]));
    }
}

/// An error with nothing but a code and a message says them, and nothing else.
pub proof fn law_plain_errors_say_only_their_message(code: ErrorCode, message: Seq<char>)
    ensures
        ({
            let error = state::plain_error(code, message);
            &&& error.code == code
            &&& error.message == message
            &&& error.action is None
            &&& !error.retryable
            &&& error.details.dom() =~= Set::empty()
        }),
{
}

/// A service that did nothing yet is ready, at rest, and without an error.
pub proof fn law_default_status_is_at_rest()
    ensures
        ({
            let status = state::default_status();
            &&& status.service == state::ServiceState::Ready
            &&& status.bridge == state::BridgeState::Unconfigured
            &&& status.capture == state::CaptureState::Idle
            &&& status.sync == state::SyncState::Stopped
            &&& status.active_area is None
            &&& status.frames_per_second is None
            &&& status.error is None
        }),
{
}

/// The profile with an identifier is among the first ones exactly where one of them has
/// it.
pub proof fn law_profile_is_among(profiles: Seq<ProfileView>, id: ProfileId, n: int)
    ensures
        config::profile_among(profiles, id, n) <==> exists|j: int|
            0 <= j < n && (#[trigger] profiles[j]).id == id,
{
}

/// The line feed that ends a record is taken off, with a carriage return before it; a
/// record that has neither at its end is its own body.
pub proof fn law_record_body_is_the_line(line: Seq<char>)
    requires
        line.len() > 0 ==> line.last() != '\n' && line.last() != '\r',
    ensures
        ipc::record_body(line) == line,
        ipc::record_body(line.push('\n')) == line,
        ipc::record_body(line.push('\r').push('\n')) == line,
        ipc::record_body(line.push('\r')) == line,
        ipc::record_body(line.push('\n').push('\n')) == line.push('\n'),
{
    assert(line.push('\n').drop_last() =~= line);
    assert(line.push('\r').drop_last() =~= line);
    assert(line.push('\r').push('\n').drop_last() =~= line.push('\r'));
    assert(line.push('\n').push('\n').drop_last() =~= line.push('\n'));
}

/// A coordinate that is out of range is reported as the whole number below it, as far as
/// that fits, and as zero where it is negative or no number.
pub proof fn law_reported_coordinate_is_rounded_down(bits: u32)
    ensures
        ({
            let value = config::reported_value(bits) as int;
            let exponent = bits as int / 0x80_0000;
            let digits = 0x80_0000 + bits as int % 0x80_0000;
            let below = pow2((150 - exponent) as nat) as int;
            &&& bits > 0x7f80_0000 ==> value == 0
            &&& bits <= 0x7f80_0000 && exponent < 150 ==> value * below <= digits < (value + 1)
                * below
            &&& bits <= 0x7f80_0000 && 150 <= exponent < 191 ==> value == digits * pow2(
                (exponent - 150) as nat,
            )
            &&& bits <= 0x7f80_0000 && exponent >= 191 ==> value == u64::MAX
        }),
{
    let exponent = bits as int / 0x80_0000;
    let digits = 0x80_0000 + bits as int % 0x80_0000;
    if bits <= 0x7f80_0000 && exponent < 150 {
        let below = pow2((150 - exponent) as nat) as int;
        vstd::arithmetic::power2::lemma_pow2_pos((150 - exponent) as nat);
        vstd::arithmetic::div_mod::lemma_fundamental_div_mod(digits, below);
        vstd::arithmetic::div_mod::lemma_mod_bound(digits, below);
        let value = digits / below;
        assert(value * below == below * value && (value + 1) * below == below * value + below)
            by (nonlinear_arith);
    }
}

/// The last revision stays the last.
pub proof fn law_last_revision_stays(revision: u64)
    ensures
        revision < u64::MAX ==> config::next_revision(revision) == revision + 1,
        revision == u64::MAX ==> config::next_revision(revision) == revision,
{
}

/// A message names the field, the bounds and the value, the version or the identifier
/// that it is about.
pub proof fn law_validation_messages_name_their_subject(
    field: &'static str,
    min: u64,
    max: u64,
    value: u64,
    version: u32,
    id: ProfileId,
    channel: u16,
)
    ensures
        (ValidationError::Empty { field }).message_text() == field@ + " must not be empty"@,
        (ValidationError::OutOfRange { field, min, max, value }).message_text() == field@
            + " must be between "@ + text::decimal_text(min as nat) + " and "@ + text::decimal_text(
            max as nat,
        ) + ", got "@ + text::decimal_text(value as nat),
        ValidationError::UnsupportedSchema(version).message_text()
            == "unsupported schema version "@ + text::decimal_text(version as nat),
        ValidationError::DuplicateProfile(id).message_text() == "duplicate profile id "@
            + encoding::uuid_text(id.uuid()),
        ValidationError::UnknownActiveProfile(id).message_text() == "active profile "@
            + encoding::uuid_text(id.uuid()) + " does not exist"@,
        ValidationError::DuplicateChannel(channel).message_text()
            == "duplicate entertainment channel id "@ + text::decimal_text(channel as nat),
{
}

/// A message of the protocol names the version that was received before the one that is
/// spoken, or the reason that it was given.
pub proof fn law_protocol_messages_name_their_subject(
    expected: u32,
    received: u32,
    reason: Seq<char>,
)
    ensures
        ipc::protocol_error_text(ProtocolErrorView::VersionMismatch { expected, received })
            == "unsupported protocol version "@ + text::decimal_text(received as nat)
            + "; expected "@ + text::decimal_text(expected as nat),
        ipc::protocol_error_text(ProtocolErrorView::Json(reason)) == "JSON codec error: "@ + reason,
{
}

/// The service offers both backends, samples the screen for video and games, without
/// sound, and finds bridges.
pub proof fn law_service_offers_what_it_supports(mode: SyncMode, backend: CaptureBackend)
    ensures
        ({
            let offered = state::default_capabilities();
            &&& offered.capture_backends.contains(backend)
            &&& offered.sync_modes.contains(mode) <==> mode == SyncMode::Video || mode
                == SyncMode::Game
            &&& offered.protocol_versions == seq![1u32]
            &&& !offered.audio_reactive
            &&& offered.discovery
            &&& !offered.portal_display_selection
        }),
{
    let offered = state::default_capabilities();
    assert(offered.capture_backends[0] == CaptureBackend::PortalPipewire);
    assert(offered.capture_backends[1] == CaptureBackend::Grim);
    assert(offered.sync_modes[0] == SyncMode::Video);
    assert(offered.sync_modes[1] == SyncMode::Game);
}

} // verus!
