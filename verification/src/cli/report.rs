//! What is shown of the service on the command line.
use crate::cli::values::{
    bridge_state, capture_backend_name, capture_state, intensity_name, language_name, service_state,
    sync_mode_name, sync_state, yes_no,
};
use crate::cli::values;
use crate::domain::config::{
    AppConfig, AppConfigView, AreaId, CaptureBackend, EntertainmentArea, Profile, ProfileId,
    ProfileView, SyncMode,
};
use crate::domain::config;
use crate::domain::ipc::{DiscoveredBridge, PROTOCOL_VERSION};
use crate::domain::state::{
    ActionableError, BridgeState, Capabilities, CapabilitiesView, ErrorCode, StatusSnapshot,
    StatusSnapshotView,
};
use crate::encoding;
use crate::number::Single;
use crate::text;
use vstd::prelude::*;

verus! {

/// A part of the service that an error can concern.
#[derive(Clone, Copy, Debug, PartialEq, Eq, Structural)]
pub enum Component {
    Service,
    Bridge,
    Capture,
    Sync,
}

/// The part of the service that an error concerns.
pub open spec fn concerned(code: ErrorCode) -> Component {
    match code {
        ErrorCode::BridgeNotFound | ErrorCode::BridgeUnavailable | ErrorCode::LinkButtonRequired => {
            Component::Bridge
        },
        ErrorCode::CapturePermissionDenied | ErrorCode::CaptureUnavailable
        | ErrorCode::DisplayNotFound => Component::Capture,
        ErrorCode::SyncUnavailable | ErrorCode::Conflict | ErrorCode::AreaNotFound => {
            Component::Sync
        },
        _ => Component::Service,
    }
}

/// The message that is shown with a part: that of an error that concerns it.
pub open spec fn shown_detail(status: StatusSnapshotView, component: Component) -> Option<Seq<char>> {
    match status.error {
        Some(error) => if concerned(error.code) == component {
            Some(error.message)
        } else {
            None
        },
        None => None,
    }
}

/// The message that is shown with a part.
pub fn detail_for(status: &StatusSnapshot, component: Component) -> (r: Option<String>)
    ensures
        r.deep_view() == shown_detail(status.deep_view(), component),
{
    match &status.error {
        None => None,
        Some(error) => {
            let target: Component = match error.code {
                ErrorCode::BridgeNotFound | ErrorCode::BridgeUnavailable
                | ErrorCode::LinkButtonRequired => Component::Bridge,
                ErrorCode::CapturePermissionDenied | ErrorCode::CaptureUnavailable
                | ErrorCode::DisplayNotFound => Component::Capture,
                ErrorCode::SyncUnavailable | ErrorCode::Conflict | ErrorCode::AreaNotFound => {
                    Component::Sync
                },
                _ => Component::Service,
            };
            if target == component {
                Some(error.message.clone())
            } else {
                None
            }
        },
    }
}

/// The state of a part, and a message where it concerns the part.
#[derive(Debug, PartialEq, Eq)]
pub struct ComponentStatus {
    pub state: String,
    pub detail: Option<String>,
}

/// The mathematical value of [`ComponentStatus`].
#[verifier::ext_equal]
pub struct ComponentStatusView {
    pub state: Seq<char>,
    pub detail: Option<Seq<char>>,
}

impl DeepView for ComponentStatus {
    type V = ComponentStatusView;

    open spec fn deep_view(&self) -> ComponentStatusView {
        ComponentStatusView {
            state: self.state.deep_view(),
            detail: self.detail.deep_view(),
        }
    }
}

/// A profile in brief.
#[derive(Debug, PartialEq, Eq)]
pub struct ProfileSummary {
    pub id: String,
    pub name: String,
}

/// The mathematical value of [`ProfileSummary`].
#[verifier::ext_equal]
pub struct ProfileSummaryView {
    pub id: Seq<char>,
    pub name: Seq<char>,
}

impl DeepView for ProfileSummary {
    type V = ProfileSummaryView;

    open spec fn deep_view(&self) -> ProfileSummaryView {
        ProfileSummaryView {
            id: self.id.deep_view(),
            name: self.name.deep_view(),
        }
    }
}

/// The status as it is shown to other programs; the frame rate is a single-precision bit pattern.
#[derive(Debug, PartialEq)]
pub struct StatusDocument {
    pub protocol_version: u32,
    pub service: ComponentStatus,
    pub bridge: ComponentStatus,
    pub capture: ComponentStatus,
    pub sync: ComponentStatus,
    /// The identifier of the area, which also serves as its name.
    pub area: Option<String>,
    pub profile: Option<ProfileSummary>,
    pub frames_per_second: Option<Single>,
}

/// The mathematical value of [`StatusDocument`].
#[verifier::ext_equal]
pub struct StatusDocumentView {
    pub protocol_version: u32,
    pub service: ComponentStatusView,
    pub bridge: ComponentStatusView,
    pub capture: ComponentStatusView,
    pub sync: ComponentStatusView,
    pub area: Option<Seq<char>>,
    pub profile: Option<ProfileSummaryView>,
    pub frames_per_second: Option<Single>,
}

impl DeepView for StatusDocument {
    type V = StatusDocumentView;

    open spec fn deep_view(&self) -> StatusDocumentView {
        StatusDocumentView {
            protocol_version: self.protocol_version,
            service: self.service.deep_view(),
            bridge: self.bridge.deep_view(),
            capture: self.capture.deep_view(),
            sync: self.sync.deep_view(),
            area: self.area.deep_view(),
            profile: self.profile.deep_view(),
            frames_per_second: self.frames_per_second,
        }
    }
}

/// The area that is shown: the active one, else the one that is selected.
pub open spec fn shown_area(status: StatusSnapshotView, config: Option<AppConfigView>) -> Option<
    Seq<char>,
> {
    if status.active_area is Some {
        status.active_area
    } else {
        match config {
            Some(config) => config.selected_area,
            None => None,
        }
    }
}

/// The first profile with an identifier.
pub open spec fn first_profile(profiles: Seq<ProfileView>, id: ProfileId) -> Option<ProfileView>
    decreases profiles.len(),
{
    if profiles.len() == 0 {
        None
    } else if profiles[0].id == id {
        Some(profiles[0])
    } else {
        first_profile(profiles.drop_first(), id)
    }
}

/// The profile that is active.
pub open spec fn shown_profile(config: Option<AppConfigView>) -> Option<ProfileView> {
    match config {
        Some(config) => match config.active_profile {
            Some(id) => first_profile(config.profiles, id),
            None => None,
        },
        None => None,
    }
}

/// The profile that is active.
pub fn active_profile(config: Option<&AppConfig>) -> (r: Option<&Profile>)
    ensures
        match r {
            Some(profile) => Some(profile.deep_view()) == shown_profile(
                match config {
                    Some(config) => Some(config.deep_view()),
                    None => None,
                },
            ),
            None => shown_profile(
                match config {
                    Some(config) => Some(config.deep_view()),
                    None => None,
                },
            ) is None,
        },
{
    let current: &AppConfig = match config {
        Some(current) => current,
        None => return None,
    };
    let id: ProfileId = match current.active_profile {
        Some(id) => id,
        None => return None,
    };
    let ghost all = current.deep_view().profiles;
    assert(all.skip(0) =~= all);
    let mut i: usize = 0;
    while i < current.profiles.len()
        invariant
            i <= current.profiles.len(),
            config == Some(current),
            all == current.profiles.deep_view(),
            all == current.deep_view().profiles,
            current.active_profile == Some(id),
            first_profile(all, id) == first_profile(all.skip(i as int), id),
        decreases current.profiles.len() - i,
    {
        let ghost rest = all.skip(i as int);
        assert(rest[0] == current.profiles[i as int].deep_view());
        assert(rest.drop_first() =~= all.skip(i + 1));
        if current.profiles[i].id == id {
            return Some(&current.profiles[i]);
        }
        i += 1;
    }
    None
}

/// A part with its state and message.
pub open spec fn shown_component(state: Seq<char>, detail: Option<Seq<char>>) -> ComponentStatusView {
    ComponentStatusView { state, detail }
}

/// The status as it is shown to other programs. Of an error only the message is
/// shown, with the part that it concerns.
pub open spec fn shown_status(status: StatusSnapshotView, config: Option<AppConfigView>) ->
    StatusDocumentView {
    StatusDocumentView {
        protocol_version: PROTOCOL_VERSION,
        service: shown_component(
            values::service_state_text(status.service),
            shown_detail(status, Component::Service),
        ),
        bridge: shown_component(
            values::bridge_state_text(status.bridge),
            shown_detail(status, Component::Bridge),
        ),
        capture: shown_component(
            values::capture_state_text(status.capture),
            shown_detail(status, Component::Capture),
        ),
        sync: shown_component(
            values::sync_state_text(status.sync),
            shown_detail(status, Component::Sync),
        ),
        area: shown_area(status, config),
        profile: match shown_profile(config) {
            Some(profile) => Some(
                ProfileSummaryView {
                    id: encoding::uuid_text(profile.id.uuid()),
                    name: profile.name,
                },
            ),
            None => None,
        },
        frames_per_second: status.frames_per_second,
    }
}

/// The view of a configuration that may be missing.
pub open spec fn view_of(config: Option<&AppConfig>) -> Option<AppConfigView> {
    match config {
        Some(config) => Some(config.deep_view()),
        None => None,
    }
}

fn area_text(status: &StatusSnapshot, config: Option<&AppConfig>) -> (r: Option<String>)
    ensures
        r.deep_view() == shown_area(status.deep_view(), view_of(config)),
{
    match &status.active_area {
        Some(id) => Some(id.as_str().to_owned()),
        None => match config {
            Some(config) => match &config.selected_area {
                Some(id) => Some(id.as_str().to_owned()),
                None => None,
            },
            None => None,
        },
    }
}

/// Builds the status as it is shown to other programs.
pub fn status_document(status: &StatusSnapshot, config: Option<&AppConfig>) -> (r: StatusDocument)
    ensures
        r.deep_view() == shown_status(status.deep_view(), view_of(config)),
{
    StatusDocument {
        protocol_version: PROTOCOL_VERSION,
        service: ComponentStatus {
            state: service_state(status.service).to_owned(),
            detail: detail_for(status, Component::Service),
        },
        bridge: ComponentStatus {
            state: bridge_state(status.bridge).to_owned(),
            detail: detail_for(status, Component::Bridge),
        },
        capture: ComponentStatus {
            state: capture_state(status.capture).to_owned(),
            detail: detail_for(status, Component::Capture),
        },
        sync: ComponentStatus {
            state: sync_state(status.sync).to_owned(),
            detail: detail_for(status, Component::Sync),
        },
        area: area_text(status, config),
        profile: match active_profile(config) {
            Some(profile) => Some(
                ProfileSummary { id: profile.id.to_text(), name: profile.name.clone() },
            ),
            None => None,
        },
        frames_per_second: status.frames_per_second,
    }
}

/// Nothing of an error but its code and its message reaches other programs: its
/// details and its action make no difference.
pub proof fn law_error_details_are_not_shown(
    status: StatusSnapshotView,
    other: StatusSnapshotView,
    config: Option<AppConfigView>,
)
    requires
        status.error is Some,
        other.error is Some,
        other == (StatusSnapshotView { error: other.error, ..status }),
        other.error->Some_0.code == status.error->Some_0.code,
        other.error->Some_0.message == status.error->Some_0.message,
    ensures
        shown_status(status, config) == shown_status(other, config),
{
}

/// An error is shown with exactly one part.
pub proof fn law_error_is_shown_once(status: StatusSnapshotView, component: Component)
    requires
        status.error is Some,
    ensures
        shown_detail(status, component) == if component == concerned(status.error->Some_0.code) {
            Some(status.error->Some_0.message)
        } else {
            None
        },
{
}

/// The status as it is shown to a person.
pub open spec fn status_line(status: StatusSnapshotView, config: Option<AppConfigView>) -> Seq<char> {
    "Service "@ + values::service_state_text(status.service) + ", bridge "@
        + values::bridge_state_text(status.bridge) + ", capture "@ + values::capture_state_text(
        status.capture,
    ) + ", sync "@ + values::sync_state_text(status.sync) + prefixed(
        ", area "@,
        shown_area(status, config),
    ) + prefixed(
        ", profile "@,
        match shown_profile(config) {
            Some(profile) => Some(profile.name),
            None => None,
        },
    ) + prefixed(
        ": "@,
        match status.error {
            Some(error) => Some(error.message),
            None => None,
        },
    )
}

/// A text with a prefix where there is a text, and nothing otherwise.
pub open spec fn prefixed(prefix: Seq<char>, value: Option<Seq<char>>) -> Seq<char> {
    match value {
        Some(value) => prefix + value,
        None => Seq::empty(),
    }
}

fn with_prefix(prefix: &str, value: Option<&str>) -> (r: String)
    ensures
        r@ == prefixed(
            prefix@,
            match value {
                Some(value) => Some(value@),
                None => None,
            },
        ),
{
    match value {
        Some(value) => text::concat(prefix, value),
        None => {
            proof {
                reveal_strlit("");
            }
            let r: String = "".to_owned();
            assert(r@ =~= Seq::<char>::empty());
            r
        },
    }
}

/// Writes the status for a person.
pub fn human_status(status: &StatusSnapshot, config: Option<&AppConfig>) -> (r: String)
    ensures
        r@ == status_line(status.deep_view(), view_of(config)),
{
    let area: Option<String> = area_text(status, config);
    let mut r: String = text::concat("Service ", service_state(status.service));
    r.append(", bridge ");
    r.append(bridge_state(status.bridge));
    r.append(", capture ");
    r.append(capture_state(status.capture));
    r.append(", sync ");
    r.append(sync_state(status.sync));
    let shown: Option<&str> = match &area {
        Some(id) => Some(id.as_str()),
        None => None,
    };
    r.append(with_prefix(", area ", shown).as_str());
    let profile: Option<&str> = match active_profile(config) {
        Some(profile) => Some(profile.name.as_str()),
        None => None,
    };
    r.append(with_prefix(", profile ", profile).as_str());
    let message: Option<&str> = match &status.error {
        Some(error) => Some(error.message.as_str()),
        None => None,
    };
    r.append(with_prefix(": ", message).as_str());
    r
}

/// Texts with a comma and a space between them.
pub open spec fn comma_joined(items: Seq<Seq<char>>) -> Seq<char>
    decreases items.len(),
{
    if items.len() == 0 {
        Seq::empty()
    } else if items.len() == 1 {
        items[0]
    } else {
        comma_joined(items.drop_last()) + ", "@ + items.last()
    }
}

fn join_with_commas(items: &Vec<String>) -> (r: String)
    ensures
        r@ == comma_joined(items.deep_view()),
{
    proof {
        reveal_strlit("");
    }
    let ghost all = items.deep_view();
    let mut r: String = "".to_owned();
    assert(r@ =~= comma_joined(all.take(0)));
    let mut i: usize = 0;
    while i < items.len()
        invariant
            i <= items.len(),
            all == items.deep_view(),
            r@ == comma_joined(all.take(i as int)),
        decreases items.len() - i,
    {
        let ghost before = r@;
        proof {
            let seen = all.take(i + 1);
            assert(seen.drop_last() =~= all.take(i as int));
            assert(seen.last() == items[i as int]@);
            if i == 0 {
                assert(seen[0] == items[0]@);
            }
        }
        if i > 0 {
            r.append(", ");
        }
        r.append(items[i].as_str());
        if i == 0 {
            assert(r@ =~= items[0]@);
        }
        i += 1;
    }
    assert(all.take(all.len() as int) =~= all);
    r
}

/// The capabilities as they are shown.
pub open spec fn capabilities_lines(capabilities: CapabilitiesView) -> Seq<char> {
    "Protocol: "@ + comma_joined(
        capabilities.protocol_versions.map_values(|v: u32| text::decimal_text(v as nat)),
    ) + "\nCapture backends: "@ + comma_joined(
        capabilities.capture_backends.map_values(
            |v: CaptureBackend| values::capture_backend_name_text(v),
        ),
    ) + "\nSync modes: "@ + comma_joined(
        capabilities.sync_modes.map_values(|v: SyncMode| values::sync_mode_name_text(v)),
    ) + "\nAudio reactive: "@ + yes_no_text(capabilities.audio_reactive) + "\nDiscovery: "@
        + yes_no_text(capabilities.discovery)
}

/// What a yes or no is called.
pub open spec fn yes_no_text(value: bool) -> Seq<char> {
    if value {
        "yes"@
    } else {
        "no"@
    }
}

/// Writes the capabilities for a person.
pub fn capabilities_text(capabilities: &Capabilities) -> (r: String)
    ensures
        r@ == capabilities_lines(capabilities.deep_view()),
{
    let ghost view = capabilities.deep_view();
    let mut versions: Vec<String> = Vec::new();
    let mut i: usize = 0;
    while i < capabilities.protocol_versions.len()
        invariant
            i <= capabilities.protocol_versions.len(),
            view == capabilities.deep_view(),
            versions@.len() == i,
            forall|j: int|
                0 <= j < i ==> #[trigger] versions@[j]@ == text::decimal_text(
                    view.protocol_versions[j] as nat,
                ),
        decreases capabilities.protocol_versions.len() - i,
    {
        versions.push(text::decimal(capabilities.protocol_versions[i] as u64));
        i += 1;
    }
    let mut backends: Vec<String> = Vec::new();
    i = 0;
    while i < capabilities.capture_backends.len()
        invariant
            i <= capabilities.capture_backends.len(),
            view == capabilities.deep_view(),
            backends@.len() == i,
            forall|j: int|
                0 <= j < i ==> #[trigger] backends@[j]@ == values::capture_backend_name_text(
                    view.capture_backends[j],
                ),
        decreases capabilities.capture_backends.len() - i,
    {
        backends.push(capture_backend_name(capabilities.capture_backends[i]).to_owned());
        i += 1;
    }
    let mut modes: Vec<String> = Vec::new();
    i = 0;
    while i < capabilities.sync_modes.len()
        invariant
            i <= capabilities.sync_modes.len(),
            view == capabilities.deep_view(),
            modes@.len() == i,
            forall|j: int|
                0 <= j < i ==> #[trigger] modes@[j]@ == values::sync_mode_name_text(
                    view.sync_modes[j],
                ),
        decreases capabilities.sync_modes.len() - i,
    {
        modes.push(sync_mode_name(capabilities.sync_modes[i]).to_owned());
        i += 1;
    }
    proof {
        assert(versions.deep_view() =~= view.protocol_versions.map_values(
            |v: u32| text::decimal_text(v as nat),
        ));
        assert(backends.deep_view() =~= view.capture_backends.map_values(
            |v: CaptureBackend| values::capture_backend_name_text(v),
        ));
        assert(modes.deep_view() =~= view.sync_modes.map_values(
            |v: SyncMode| values::sync_mode_name_text(v),
        ));
    }
    let mut r: String = text::concat("Protocol: ", join_with_commas(&versions).as_str());
    r.append("\nCapture backends: ");
    r.append(join_with_commas(&backends).as_str());
    r.append("\nSync modes: ");
    r.append(join_with_commas(&modes).as_str());
    r.append("\nAudio reactive: ");
    r.append(yes_no(capabilities.audio_reactive));
    r.append("\nDiscovery: ");
    r.append(yes_no(capabilities.discovery));
    r
}

/// True or false in words.
pub open spec fn bool_text(value: bool) -> Seq<char> {
    if value {
        "true"@
    } else {
        "false"@
    }
}

fn bool_name(value: bool) -> (r: &'static str)
    ensures
        r@ == bool_text(value),
{
    if value {
        "true"
    } else {
        "false"
    }
}

/// The configuration as it is shown, a line for each value.
pub open spec fn config_lines(config: AppConfigView) -> Seq<char> {
    "language="@ + values::language_name_text(config.language) + "\nbackend="@
        + values::capture_backend_name_text(config.capture_backend) + "\nmode="@
        + values::sync_mode_name_text(config.sync.mode) + "\nintensity="@
        + values::intensity_name_text(config.sync.intensity) + "\nbrightness="@
        + text::decimal_text(config.sync.brightness.percent() as nat) + "\naudio-reactive="@
        + bool_text(config.sync.audio_reactive) + "\nrestore-on-stop="@ + bool_text(
        config.restore_on_stop,
    ) + "\nlaunch-at-login="@ + bool_text(config.launch_at_login) + "\nauto-start="@ + bool_text(
        config.auto_start_sync,
    )
}

/// Writes the configuration for a person.
pub fn config_text(config: &AppConfig) -> (r: String)
    ensures
        r@ == config_lines(config.deep_view()),
{
    let mut r: String = text::concat("language=", language_name(config.language));
    r.append("\nbackend=");
    r.append(capture_backend_name(config.capture_backend));
    r.append("\nmode=");
    r.append(sync_mode_name(config.sync.mode));
    r.append("\nintensity=");
    r.append(intensity_name(config.sync.intensity));
    r.append("\nbrightness=");
    r.append(text::decimal(config.sync.brightness.get() as u64).as_str());
    r.append("\naudio-reactive=");
    r.append(bool_name(config.sync.audio_reactive));
    r.append("\nrestore-on-stop=");
    r.append(bool_name(config.restore_on_stop));
    r.append("\nlaunch-at-login=");
    r.append(bool_name(config.launch_at_login));
    r.append("\nauto-start=");
    r.append(bool_name(config.auto_start_sync));
    r
}

/// A bridge as it is listed: identifier, host and name, with tabs between them.
pub fn bridge_line(bridge: &DiscoveredBridge) -> (r: String)
    ensures
        r@ == bridge.deep_view().id + "\t"@ + bridge.deep_view().host + "\t"@
            + match bridge.deep_view().name {
            Some(name) => name,
            None => ""@,
        },
{
    let mut r: String = text::concat3(bridge.id.as_str(), "\t", bridge.host.as_str());
    r.append("\t");
    match &bridge.name {
        Some(name) => r.append(name.as_str()),
        None => r.append(""),
    }
    r
}

/// The mark of what is selected or active in a list.
pub open spec fn marker(marked: bool) -> Seq<char> {
    if marked {
        "* "@
    } else {
        "  "@
    }
}

fn marker_text(marked: bool) -> (r: &'static str)
    ensures
        r@ == marker(marked),
{
    if marked {
        "* "
    } else {
        "  "
    }
}

/// An area as it is listed.
pub fn area_line(area: &EntertainmentArea, selected: Option<&AreaId>) -> (r: String)
    ensures
        r@ == marker(selected is Some && selected->Some_0@ == area.deep_view().id)
            + area.deep_view().id + "\t"@ + area.deep_view().name + "\t"@ + text::decimal_text(
            area.deep_view().channels.len(),
        ) + " lights"@,
{
    let marked: bool = match selected {
        Some(id) => id.same(&area.id),
        None => false,
    };
    let mut r: String = text::concat3(marker_text(marked), area.id.as_str(), "\t");
    r.append(area.name.as_str());
    r.append("\t");
    r.append(text::decimal(area.channels.len() as u64).as_str());
    r.append(" lights");
    r
}

/// A profile as it is listed.
pub fn profile_line(profile: &Profile, active: Option<ProfileId>) -> (r: String)
    ensures
        r@ == marker(active == Some(profile.id)) + encoding::uuid_text(profile.id.uuid()) + "\t"@
            + profile.deep_view().name,
{
    let marked: bool = match active {
        Some(id) => id == profile.id,
        None => false,
    };
    let mut r: String = text::concat3(marker_text(marked), profile.id.to_text().as_str(), "\t");
    r.append(profile.name.as_str());
    r
}

/// What is shown of a pairing: paired, or what to do next.
pub fn pairing_text(status: Option<&StatusSnapshot>, bridge_id: &str, continuation: bool) -> (r:
    String)
    ensures
        r@ == if status is Some && status->Some_0.bridge == BridgeState::Connected {
            "Bridge paired."@
        } else if continuation {
            "Still waiting for the bridge link button. Press it, then run `lightsync bridge pair "@
                + bridge_id@ + "` again."@
        } else {
            "Waiting for the bridge link button. Press it, then run `lightsync bridge pair "@
                + bridge_id@ + "`."@
        },
{
    let connected: bool = match status {
        Some(status) => status.bridge == BridgeState::Connected,
        None => false,
    };
    if connected {
        "Bridge paired.".to_owned()
    } else if continuation {
        text::concat3(
            "Still waiting for the bridge link button. Press it, then run `lightsync bridge pair ",
            bridge_id,
            "` again.",
        )
    } else {
        text::concat3(
            "Waiting for the bridge link button. Press it, then run `lightsync bridge pair ",
            bridge_id,
            "`.",
        )
    }
}

/// What is shown of a profile that was created.
pub fn created_text(profile: &Profile) -> (r: String)
    ensures
        r@ == "Created profile "@ + profile.deep_view().name + " ("@ + encoding::uuid_text(
            profile.id.uuid(),
        ) + ")"@,
{
    let mut r: String = text::concat3("Created profile ", profile.name.as_str(), " (");
    r.append(profile.id.to_text().as_str());
    r.append(")");
    r
}

/// What is shown of an error that the service reports.
pub fn remote_error_text(error: &ActionableError) -> (r: String)
    ensures
        r@ == match error.deep_view().action {
            Some(action) => error.deep_view().message + "; "@ + action,
            None => error.deep_view().message,
        },
{
    match &error.action {
        Some(action) => text::concat3(error.message.as_str(), "; ", action.as_str()),
        None => error.message.clone(),
    }
}

} // verus!
