//! What the interface shows of its model.
use crate::domain::config::{
    AreaId, CaptureBackend, ConfigUpdate, ConfigUpdateView, EntertainmentAreaView, Intensity,
    Language, ProfileId, ProfileView, SyncMode, SyncSettings,
};
use crate::domain::config;
use crate::domain::ipc::DiscoveredBridgeView;
use crate::domain::state::BridgeState;
use crate::gui::model;
use crate::gui::model::{Model, ModelView, Operation};
use crate::gui::view_state;
use crate::gui::view_state::DashboardState;
use crate::number::Single;
use crate::text;
use vstd::prelude::*;

verus! {

/// The pages of the interface, in order.
pub const PAGES: usize = 5;

/// The name of a page.
pub open spec fn page_name_text(index: int) -> Seq<char> {
    if index == 0 {
        "sync"@
    } else if index == 1 {
        "setup"@
    } else if index == 2 {
        "profiles"@
    } else if index == 3 {
        "settings"@
    } else {
        "diagnostics"@
    }
}

/// The name of a page; the last page stands for all beyond it.
pub fn page_name(index: u32) -> (r: &'static str)
    ensures
        r@ == page_name_text(index as int),
{
    if index == 0 {
        "sync"
    } else if index == 1 {
        "setup"
    } else if index == 2 {
        "profiles"
    } else if index == 3 {
        "settings"
    } else {
        "diagnostics"
    }
}

/// The page with a name; the first page where there is none.
pub open spec fn page_of(name: Option<Seq<char>>) -> u32 {
    match name {
        Some(name) => if name == "setup"@ {
            1
        } else if name == "profiles"@ {
            2
        } else if name == "settings"@ {
            3
        } else if name == "diagnostics"@ {
            4
        } else {
            0
        },
        None => 0,
    }
}

/// The page with a name; the first page where there is none.
pub fn page_index(name: Option<&str>) -> (r: u32)
    ensures
        r == page_of(
            match name {
                Some(name) => Some(name@),
                None => None,
            },
        ),
{
    match name {
        Some(name) => if text::str_eq(name, "setup") {
            1
        } else if text::str_eq(name, "profiles") {
            2
        } else if text::str_eq(name, "settings") {
            3
        } else if text::str_eq(name, "diagnostics") {
            4
        } else {
            0
        },
        None => 0,
    }
}

/// The page that a name leads to is the page that has the name.
pub proof fn law_page_names_lead_back(index: u32)
    requires
        index < PAGES,
    ensures
        page_of(Some(page_name_text(index as int))) == index,
{
    reveal_strlit("sync");
    reveal_strlit("setup");
    reveal_strlit("profiles");
    reveal_strlit("settings");
    reveal_strlit("diagnostics");
    assert("sync"@.len() == 4 && "setup"@.len() == 5 && "profiles"@.len() == 8);
    assert("settings"@.len() == 8 && "diagnostics"@.len() == 11);
    assert("profiles"@[0] == 'p' && "settings"@[0] == 's');
}

/// The position of a mode among the buttons.
pub open spec fn mode_position(value: SyncMode) -> u32 {
    match value {
        SyncMode::Video => 0,
        SyncMode::Game => 1,
        SyncMode::Music => 2,
        SyncMode::Scene => 3,
    }
}

/// The position of a mode among the buttons.
pub fn mode_index(value: SyncMode) -> (r: u32)
    ensures
        r == mode_position(value),
{
    match value {
        SyncMode::Video => 0,
        SyncMode::Game => 1,
        SyncMode::Music => 2,
        SyncMode::Scene => 3,
    }
}

/// The mode of a button; the last stands for all beyond it.
pub open spec fn mode_of(index: u32) -> SyncMode {
    if index == 0 {
        SyncMode::Video
    } else if index == 1 {
        SyncMode::Game
    } else if index == 2 {
        SyncMode::Music
    } else {
        SyncMode::Scene
    }
}

/// The mode of a button; the last stands for all beyond it.
pub fn mode_at(index: u32) -> (r: SyncMode)
    ensures
        r == mode_of(index),
{
    if index == 0 {
        SyncMode::Video
    } else if index == 1 {
        SyncMode::Game
    } else if index == 2 {
        SyncMode::Music
    } else {
        SyncMode::Scene
    }
}

/// What is shown at a position is what is chosen there.
pub proof fn law_mode_positions_lead_back(value: SyncMode)
    ensures
        mode_of(mode_position(value)) == value,
{
}

/// The position of an intensity in its list.
pub open spec fn intensity_position(value: Intensity) -> u32 {
    match value {
        Intensity::Subtle => 0,
        Intensity::Moderate => 1,
        Intensity::High => 2,
        Intensity::Extreme => 3,
    }
}

/// The position of an intensity in its list.
pub fn intensity_index(value: Intensity) -> (r: u32)
    ensures
        r == intensity_position(value),
{
    match value {
        Intensity::Subtle => 0,
        Intensity::Moderate => 1,
        Intensity::High => 2,
        Intensity::Extreme => 3,
    }
}

/// The intensity at a position; the last stands for all beyond it.
pub open spec fn intensity_of(index: u32) -> Intensity {
    if index == 0 {
        Intensity::Subtle
    } else if index == 1 {
        Intensity::Moderate
    } else if index == 2 {
        Intensity::High
    } else {
        Intensity::Extreme
    }
}

/// The intensity at a position; the last stands for all beyond it.
pub fn intensity_at(index: u32) -> (r: Intensity)
    ensures
        r == intensity_of(index),
{
    if index == 0 {
        Intensity::Subtle
    } else if index == 1 {
        Intensity::Moderate
    } else if index == 2 {
        Intensity::High
    } else {
        Intensity::Extreme
    }
}

/// What is shown at a position is what is chosen there.
pub proof fn law_intensity_positions_lead_back(value: Intensity)
    ensures
        intensity_of(intensity_position(value)) == value,
{
}

/// The position of a language in its list.
pub open spec fn language_position(value: Language) -> u32 {
    match value {
        Language::System => 0,
        Language::En => 1,
        Language::De => 2,
    }
}

/// The position of a language in its list.
pub fn language_index(value: Language) -> (r: u32)
    ensures
        r == language_position(value),
{
    match value {
        Language::System => 0,
        Language::En => 1,
        Language::De => 2,
    }
}

/// The language at a position; that of the system stands for all beyond the list.
pub open spec fn language_of(index: u32) -> Language {
    if index == 1 {
        Language::En
    } else if index == 2 {
        Language::De
    } else {
        Language::System
    }
}

/// The language at a position; that of the system stands for all beyond the list.
pub fn language_at(index: u32) -> (r: Language)
    ensures
        r == language_of(index),
{
    if index == 1 {
        Language::En
    } else if index == 2 {
        Language::De
    } else {
        Language::System
    }
}

/// What is shown at a position is what is chosen there.
pub proof fn law_language_positions_lead_back(value: Language)
    ensures
        language_of(language_position(value)) == value,
{
}

/// The message of a capture backend.
pub open spec fn backend_text(backend: CaptureBackend) -> Seq<char> {
    match backend {
        CaptureBackend::PortalPipewire => "capture-portal"@,
        CaptureBackend::Grim => "capture-grim"@,
    }
}

/// The message of a capture backend.
pub fn backend_id(backend: CaptureBackend) -> (r: &'static str)
    ensures
        r@ == backend_text(backend),
{
    match backend {
        CaptureBackend::PortalPipewire => "capture-portal",
        CaptureBackend::Grim => "capture-grim",
    }
}

/// The message on the button of a mode.
pub open spec fn mode_text(mode: SyncMode, supported: bool) -> Seq<char> {
    match mode {
        SyncMode::Video => if supported {
            "mode-video"@
        } else {
            "mode-video-unavailable"@
        },
        SyncMode::Game => if supported {
            "mode-game"@
        } else {
            "mode-game-unavailable"@
        },
        SyncMode::Music => if supported {
            "mode-music"@
        } else {
            "mode-music-unavailable"@
        },
        SyncMode::Scene => if supported {
            "mode-scene"@
        } else {
            "mode-scene-unavailable"@
        },
    }
}

fn mode_id(mode: SyncMode, supported: bool) -> (r: &'static str)
    ensures
        r@ == mode_text(mode, supported),
{
    match mode {
        SyncMode::Video => if supported {
            "mode-video"
        } else {
            "mode-video-unavailable"
        },
        SyncMode::Game => if supported {
            "mode-game"
        } else {
            "mode-game-unavailable"
        },
        SyncMode::Music => if supported {
            "mode-music"
        } else {
            "mode-music-unavailable"
        },
        SyncMode::Scene => if supported {
            "mode-scene"
        } else {
            "mode-scene-unavailable"
        },
    }
}

/// Whether a bridge and an area are chosen.
pub open spec fn is_configured(model: ModelView) -> bool {
    match model.config {
        Some(config) => config.bridge is Some && config.selected_area is Some,
        None => false,
    }
}

/// Whether the service supports a mode.
pub open spec fn mode_supported(model: ModelView, mode: SyncMode) -> bool {
    match model.capabilities {
        Some(capabilities) => capabilities.sync_modes.contains(mode) && (mode != SyncMode::Music
            || capabilities.audio_reactive),
        None => false,
    }
}

/// Whether the service supports the mode and the capture backend that are chosen.
pub open spec fn selection_supported(model: ModelView) -> bool {
    match (model.config, model.capabilities) {
        (Some(config), Some(capabilities)) => mode_supported(
            model,
            model::shown_settings(model)->Some_0.mode,
        ) && capabilities.capture_backends.contains(config.capture_backend),
        _ => false,
    }
}

/// Whether the service can discover bridges.
pub open spec fn can_discover(model: ModelView) -> bool {
    model.capabilities is Some && model.capabilities->Some_0.discovery
}

/// Whether the bridge is connected.
pub open spec fn bridge_connected(model: ModelView) -> bool {
    model.status is Some && model.status->Some_0.bridge == BridgeState::Connected
}

/// Whether a request of the action's operation waits.
pub open spec fn action_pending(model: ModelView) -> bool {
    model.pending.contains_key(
        if view_state::dashboard(model.connected, model.status).action_is_stop {
            Operation::Stop
        } else {
            Operation::Start
        },
    )
}

/// Whether the action can be used.
pub open spec fn action_sensitive(model: ModelView) -> bool {
    let state = view_state::dashboard(model.connected, model.status);
    state.action_enabled && model.connected && (state.action_is_stop || (is_configured(model)
        && selection_supported(model))) && !action_pending(model)
}

/// The area with an identifier.
pub open spec fn area_with(areas: Seq<EntertainmentAreaView>, id: Seq<char>) -> Option<
    EntertainmentAreaView,
>
    decreases areas.len(),
{
    if areas.len() == 0 {
        None
    } else if areas[0].id == id {
        Some(areas[0])
    } else {
        area_with(areas.drop_first(), id)
    }
}

/// The name of the area that is active, if it is known.
pub open spec fn active_area_name(model: ModelView) -> Option<Seq<char>> {
    match model.status {
        Some(status) => match status.active_area {
            Some(id) => match area_with(model.areas, id) {
                Some(area) => Some(area.name),
                None => None,
            },
            None => None,
        },
        None => None,
    }
}

/// The message of the error that is shown: that of the last request, else that of
/// the service.
pub open spec fn shown_error(model: ModelView) -> Option<Seq<char>> {
    match model.operation_error {
        Some(error) => Some(view_state::error_id_text(error.code)),
        None => view_state::dashboard(model.connected, model.status).error_id,
    }
}

/// The first position of a capture backend.
pub open spec fn backend_position(backends: Seq<CaptureBackend>, backend: CaptureBackend) -> Option<
    int,
>
    decreases backends.len(),
{
    if backends.len() == 0 {
        None
    } else if backends[0] == backend {
        Some(0)
    } else {
        match backend_position(backends.drop_first(), backend) {
            Some(index) => Some(index + 1),
            None => None,
        }
    }
}

/// The values of the controls.
#[derive(Debug, PartialEq)]
pub struct ControlValues {
    pub mode: u32,
    pub brightness: u8,
    pub intensity: u32,
    /// Nothing where the backend is not among those offered.
    pub capture_backend: Option<usize>,
    pub restore: bool,
    pub auto_start: bool,
    pub language: u32,
}

/// The mathematical value of [`ControlValues`].
#[verifier::ext_equal]
pub struct ControlValuesView {
    pub mode: u32,
    pub brightness: u8,
    pub intensity: u32,
    pub capture_backend: Option<int>,
    pub restore: bool,
    pub auto_start: bool,
    pub language: u32,
}

impl DeepView for ControlValues {
    type V = ControlValuesView;

    open spec fn deep_view(&self) -> ControlValuesView {
        ControlValuesView {
            mode: self.mode,
            brightness: self.brightness,
            intensity: self.intensity,
            capture_backend: match self.capture_backend {
                Some(index) => Some(index as int),
                None => None,
            },
            restore: self.restore,
            auto_start: self.auto_start,
            language: self.language,
        }
    }
}

/// The values of the controls, once a configuration is known.
pub open spec fn control_values(model: ModelView, backends: Seq<CaptureBackend>) -> Option<
    ControlValuesView,
> {
    match model.config {
        Some(config) => {
            let sync = model::shown_settings(model)->Some_0;
            Some(
                ControlValuesView {
                    mode: mode_position(sync.mode),
                    brightness: sync.brightness.percent(),
                    intensity: intensity_position(sync.intensity),
                    capture_backend: backend_position(backends, config.capture_backend),
                    restore: config.restore_on_stop,
                    auto_start: config.auto_start_sync,
                    language: language_position(config.language),
                },
            )
        },
        None => None,
    }
}

/// What the interface shows, as message identifiers, values and which controls
/// can be used.
#[derive(Debug)]
pub struct RenderState {
    pub dashboard: DashboardState,
    pub action_id: &'static str,
    pub action_sensitive: bool,
    pub area_name: Option<String>,
    pub error_id: Option<&'static str>,
    pub controls: Option<ControlValues>,
    pub mode_sensitive: [bool; 4],
    pub mode_ids: [&'static str; 4],
    pub controls_sensitive: bool,
    pub capture_sensitive: bool,
    pub general_sensitive: bool,
    pub discover_sensitive: bool,
    pub discover_id: &'static str,
    pub complete_pairing_sensitive: bool,
    pub refresh_areas_sensitive: bool,
    pub create_profile_sensitive: bool,
    pub bridge_actions_sensitive: bool,
    pub area_actions_sensitive: bool,
    pub activate_sensitive: bool,
    pub delete_sensitive: bool,
    pub diagnostic_service_id: &'static str,
    pub diagnostic_bridge_id: &'static str,
    pub diagnostic_capture_id: &'static str,
    pub diagnostic_sync_id: &'static str,
    /// The bit pattern of a single-precision number.
    pub frames_per_second: Option<Single>,
}

fn contains_mode(modes: &Vec<SyncMode>, mode: SyncMode) -> (r: bool)
    ensures
        r == modes.deep_view().contains(mode),
{
    let ghost all = modes.deep_view();
    let mut i: usize = 0;
    while i < modes.len()
        invariant
            i <= modes.len(),
            all == modes.deep_view(),
            forall|j: int| 0 <= j < i ==> all[j] != mode,
        decreases modes.len() - i,
    {
        if modes[i] == mode {
            assert(all[i as int] == mode);
            return true;
        }
        i += 1;
    }
    false
}

fn contains_backend(backends: &Vec<CaptureBackend>, backend: CaptureBackend) -> (r: bool)
    ensures
        r == backends.deep_view().contains(backend),
{
    let ghost all = backends.deep_view();
    let mut i: usize = 0;
    while i < backends.len()
        invariant
            i <= backends.len(),
            all == backends.deep_view(),
            forall|j: int| 0 <= j < i ==> all[j] != backend,
        decreases backends.len() - i,
    {
        if backends[i] == backend {
            assert(all[i as int] == backend);
            return true;
        }
        i += 1;
    }
    false
}

fn find_backend(backends: &Vec<CaptureBackend>, backend: CaptureBackend) -> (r: Option<usize>)
    ensures
        backend_position(backends.deep_view(), backend) == match r {
            Some(index) => Some(index as int),
            None => None,
        },
{
    let ghost all = backends.deep_view();
    assert(all.skip(0) =~= all);
    let mut i: usize = 0;
    while i < backends.len()
        invariant
            i <= backends.len(),
            all == backends.deep_view(),
            backend_position(all, backend) == match backend_position(
                all.skip(i as int),
                backend,
            ) {
                Some(index) => Some(index + i),
                None => None,
            },
        decreases backends.len() - i,
    {
        let ghost rest = all.skip(i as int);
        assert(rest[0] == backends[i as int]);
        assert(rest.drop_first() =~= all.skip(i + 1));
        if backends[i] == backend {
            return Some(i);
        }
        i += 1;
    }
    None
}

/// The capture backends that are offered.
pub open spec fn offered(model: ModelView) -> Seq<CaptureBackend> {
    match model.capabilities {
        Some(capabilities) => capabilities.capture_backends,
        None => Seq::empty(),
    }
}

/// A bridge that was found.
#[derive(Debug, PartialEq)]
pub struct BridgeRow {
    pub name: Option<String>,
    pub host: String,
}

/// The mathematical value of [`BridgeRow`].
#[verifier::ext_equal]
pub struct BridgeRowView {
    pub name: Option<Seq<char>>,
    pub host: Seq<char>,
}

impl DeepView for BridgeRow {
    type V = BridgeRowView;

    open spec fn deep_view(&self) -> BridgeRowView {
        BridgeRowView {
            name: self.name.deep_view(),
            host: self.host.deep_view(),
        }
    }
}

/// An area to choose.
#[derive(Debug, PartialEq)]
pub struct AreaRow {
    pub id: AreaId,
    pub name: String,
    pub selected: bool,
}

/// The mathematical value of [`AreaRow`].
#[verifier::ext_equal]
pub struct AreaRowView {
    pub id: Seq<char>,
    pub name: Seq<char>,
    pub selected: bool,
}

impl DeepView for AreaRow {
    type V = AreaRowView;

    open spec fn deep_view(&self) -> AreaRowView {
        AreaRowView {
            id: self.id.deep_view(),
            name: self.name.deep_view(),
            selected: self.selected,
        }
    }
}

/// A profile to activate or delete.
#[derive(Debug, PartialEq)]
pub struct ProfileRow {
    pub id: ProfileId,
    pub name: String,
    pub active: bool,
}

/// The mathematical value of [`ProfileRow`].
#[verifier::ext_equal]
pub struct ProfileRowView {
    pub id: ProfileId,
    pub name: Seq<char>,
    pub active: bool,
}

impl DeepView for ProfileRow {
    type V = ProfileRowView;

    open spec fn deep_view(&self) -> ProfileRowView {
        ProfileRowView {
            id: self.id,
            name: self.name.deep_view(),
            active: self.active,
        }
    }
}

/// The row of a bridge.
pub open spec fn bridge_row(bridge: DiscoveredBridgeView) -> BridgeRowView {
    BridgeRowView { name: bridge.name, host: bridge.host }
}

/// The row of an area.
pub open spec fn area_row(model: ModelView, area: EntertainmentAreaView) -> AreaRowView {
    AreaRowView {
        id: area.id,
        name: area.name,
        selected: model.config is Some && model.config->Some_0.selected_area == Some(area.id),
    }
}

/// The row of a profile.
pub open spec fn profile_row(active: Option<ProfileId>, profile: ProfileView) -> ProfileRowView {
    ProfileRowView { id: profile.id, name: profile.name, active: active == Some(profile.id) }
}

/// The rows of the profiles; none before a configuration is known.
pub open spec fn all_profile_rows(model: ModelView) -> Seq<ProfileRowView> {
    match model.config {
        Some(config) => config.profiles.map_values(
            |profile: ProfileView| profile_row(config.active_profile, profile),
        ),
        None => Seq::empty(),
    }
}

/// The text of a bridge: its name and its host.
pub fn bridge_label(name: &str, host: &str) -> (r: String)
    ensures
        r@ == name@ + " - "@ + host@,
{
    text::concat3(name, " - ", host)
}

/// The message on the button of an area.
pub fn area_button_id(selected: bool) -> (r: &'static str)
    ensures
        r@ == if selected {
            "selected"@
        } else {
            "action-select"@
        },
{
    if selected {
        "selected"
    } else {
        "action-select"
    }
}

/// The message on the button of a profile.
pub fn profile_button_id(active: bool) -> (r: &'static str)
    ensures
        r@ == if active {
            "active"@
        } else {
            "action-activate"@
        },
{
    if active {
        "active"
    } else {
        "action-activate"
    }
}

/// The settings with another mode.
pub fn with_mode(settings: SyncSettings, mode: SyncMode) -> (r: SyncSettings)
    ensures
        r == (SyncSettings { mode, ..settings }),
{
    SyncSettings { mode, ..settings }
}

/// The settings with another intensity.
pub fn with_intensity(settings: SyncSettings, intensity: Intensity) -> (r: SyncSettings)
    ensures
        r == (SyncSettings { intensity, ..settings }),
{
    SyncSettings { intensity, ..settings }
}

/// The update that chooses a capture backend of those offered.
pub fn backend_update(backends: &Vec<CaptureBackend>, index: u32) -> (r: Option<ConfigUpdate>)
    ensures
        r.deep_view() == if index < backends.deep_view().len() {
            Some(
                ConfigUpdateView {
                    capture_backend: Some(backends.deep_view()[index as int]),
                    ..config::empty_update()
                },
            )
        } else {
            None
        },
{
    if (index as usize) < backends.len() {
        let mut update = ConfigUpdate::default();
        update.capture_backend = Some(backends[index as usize]);
        Some(update)
    } else {
        None
    }
}

/// The update that chooses a language.
pub fn language_update(index: u32) -> (r: ConfigUpdate)
    ensures
        r.deep_view() == (ConfigUpdateView {
            language: Some(language_of(index)),
            ..config::empty_update()
        }),
{
    let mut update = ConfigUpdate::default();
    update.language = Some(language_at(index));
    update
}

/// The update that chooses whether lights are restored.
pub fn restore_update(value: bool) -> (r: ConfigUpdate)
    ensures
        r.deep_view() == (ConfigUpdateView {
            restore_on_stop: Some(value),
            ..config::empty_update()
        }),
{
    let mut update = ConfigUpdate::default();
    update.restore_on_stop = Some(value);
    update
}

/// The update that chooses whether synchronizing starts with the service.
pub fn auto_start_update(value: bool) -> (r: ConfigUpdate)
    ensures
        r.deep_view() == (ConfigUpdateView {
            auto_start_sync: Some(value),
            ..config::empty_update()
        }),
{
    let mut update = ConfigUpdate::default();
    update.auto_start_sync = Some(value);
    update
}

impl Model {
    /// The capture backends that are offered.
    pub fn capture_backends(&self) -> (r: Vec<CaptureBackend>)
        ensures
            r.deep_view() == offered(self.deep_view()),
    {
        match &self.capabilities {
            Some(capabilities) => capabilities.capture_backends.clone(),
            None => {
                let r: Vec<CaptureBackend> = Vec::new();
                assert(r.deep_view() =~= Seq::empty());
                r
            },
        }
    }

    /// The language that is chosen.
    pub fn language(&self) -> (r: Language)
        ensures
            r == match self.deep_view().config {
                Some(config) => config.language,
                None => Language::System,
            },
    {
        match &self.config {
            Some(config) => config.language,
            None => Language::System,
        }
    }

    fn supports_mode(&self, mode: SyncMode) -> (r: bool)
        ensures
            r == mode_supported(self.deep_view(), mode),
    {
        match &self.capabilities {
            Some(capabilities) => contains_mode(&capabilities.sync_modes, mode) && (mode
                != SyncMode::Music || capabilities.audio_reactive),
            None => false,
        }
    }

    fn supports_selection(&self) -> (r: bool)
        ensures
            r == selection_supported(self.deep_view()),
    {
        match (&self.config, &self.capabilities) {
            (Some(config), Some(capabilities)) => {
                let mode: SyncMode = match self.optimistic_sync {
                    Some(settings) => settings.mode,
                    None => config.sync.mode,
                };
                self.supports_mode(mode) && contains_backend(
                    &capabilities.capture_backends,
                    config.capture_backend,
                )
            },
            _ => false,
        }
    }

    fn active_area(&self) -> (r: Option<String>)
        ensures
            r.deep_view() == active_area_name(self.deep_view()),
    {
        match &self.status {
            Some(status) => match &status.active_area {
                Some(id) => {
                    let ghost all = self.areas.deep_view();
                    assert(all.skip(0) =~= all);
                    let mut i: usize = 0;
                    while i < self.areas.len()
                        invariant
                            i <= self.areas.len(),
                            all == self.areas.deep_view(),
                            self.status is Some,
                            self.status->Some_0.active_area is Some,
                            *id == self.status->Some_0.active_area->Some_0,
                            area_with(all, id.deep_view()) == area_with(
                                all.skip(i as int),
                                id.deep_view(),
                            ),
                        decreases self.areas.len() - i,
                    {
                        let ghost rest = all.skip(i as int);
                        assert(rest[0] == self.areas[i as int].deep_view());
                        assert(rest.drop_first() =~= all.skip(i + 1));
                        if self.areas[i].id.same(id) {
                            return Some(self.areas[i].name.clone());
                        }
                        i += 1;
                    }
                    None
                },
                None => None,
            },
            None => None,
        }
    }

    fn control_state(&self, backends: &Vec<CaptureBackend>) -> (r: Option<ControlValues>)
        ensures
            r.deep_view() == control_values(self.deep_view(), backends.deep_view()),
    {
        match &self.config {
            Some(config) => {
                let sync: SyncSettings = match self.optimistic_sync {
                    Some(settings) => settings,
                    None => config.sync,
                };
                Some(
                    ControlValues {
                        mode: mode_index(sync.mode),
                        brightness: sync.brightness.get(),
                        intensity: intensity_index(sync.intensity),
                        capture_backend: find_backend(backends, config.capture_backend),
                        restore: config.restore_on_stop,
                        auto_start: config.auto_start_sync,
                        language: language_index(config.language),
                    },
                )
            },
            None => None,
        }
    }

    /// What the interface shows, given the capture backends in its list and the
    /// name that is typed for a new profile.
    pub fn render(&self, backends: &Vec<CaptureBackend>, profile_name: &str) -> (r: RenderState)
        ensures
            ({
                let model = self.deep_view();
                let known = model.connected && model.config is Some;
                &&& r.dashboard.deep_view() == view_state::dashboard(
                    model.connected,
                    model.status,
                )
                &&& r.action_id@ == if action_pending(model) {
                    "action-working"@
                } else {
                    r.dashboard.deep_view().action_id
                }
                &&& r.action_sensitive == action_sensitive(model)
                &&& r.area_name.deep_view() == active_area_name(model)
                &&& shown_error(model) == match r.error_id {
                    Some(id) => Some(id@),
                    None => None,
                }
                &&& r.controls.deep_view() == control_values(model, backends.deep_view())
                &&& forall|mode: SyncMode|
                    {
                        let index = #[trigger] mode_position(mode) as int;
                        let supported = mode_supported(model, mode);
                        &&& r.mode_sensitive[index] == (known && supported)
                        &&& r.mode_ids[index]@ == mode_text(mode, supported)
                    }
                &&& r.controls_sensitive == known
                &&& r.general_sensitive == (known && !model.pending.contains_key(
                    Operation::UpdateConfig,
                ))
                &&& r.capture_sensitive == (r.general_sensitive && backends.deep_view().len() > 1)
                &&& r.discover_sensitive == (model.connected && can_discover(model)
                    && !model.pending.contains_key(Operation::Discover))
                &&& r.discover_id@ == if can_discover(model) {
                    "action-discover"@
                } else {
                    "action-discover-unavailable"@
                }
                &&& r.complete_pairing_sensitive == (model.connected && model.pairing_bridge is Some
                    && !model.pending.contains_key(Operation::CompletePairing))
                &&& r.refresh_areas_sensitive == (model.connected && bridge_connected(model)
                    && !model.pending.contains_key(Operation::RefreshAreas))
                &&& r.create_profile_sensitive == (known && !model.pending.contains_key(
                    Operation::CreateProfile,
                ) && !text::blank(profile_name@))
                &&& r.bridge_actions_sensitive == (model.connected && model.pairing_bridge is None
                    && can_discover(model) && !model.pending.contains_key(Operation::BeginPairing))
                &&& r.area_actions_sensitive == (model.connected && bridge_connected(model)
                    && !model.pending.contains_key(Operation::SelectArea))
                &&& r.activate_sensitive == (model.connected && !model.pending.contains_key(
                    Operation::ActivateProfile,
                ))
                &&& r.delete_sensitive == (model.connected && !model.pending.contains_key(
                    Operation::DeleteProfile,
                ))
                &&& r.diagnostic_service_id@ == match model.status {
                    Some(status) => view_state::service_id_text(status.service),
                    None => "state-reconnecting"@,
                }
                &&& r.diagnostic_bridge_id@ == match model.status {
                    Some(status) => view_state::bridge_id_text(status.bridge),
                    None => "state-unknown"@,
                }
                &&& r.diagnostic_capture_id@ == match model.status {
                    Some(status) => view_state::capture_id_text(status.capture),
                    None => "state-unknown"@,
                }
                &&& r.diagnostic_sync_id@ == match model.status {
                    Some(status) => view_state::sync_id_text(status.sync),
                    None => "state-unknown"@,
                }
                &&& r.frames_per_second == match model.status {
                    Some(status) => status.frames_per_second,
                    None => None,
                }
            }),
    {
        let dashboard = view_state::dashboard_state(self.connected, self.status.as_ref());
        let configured: bool = match &self.config {
            Some(config) => config.bridge.is_some() && config.selected_area.is_some(),
            None => false,
        };
        let pending: bool = self.pending.contains(
            if dashboard.action_is_stop {
                Operation::Stop
            } else {
                Operation::Start
            },
        );
        let known: bool = self.connected && self.config.is_some();
        let general: bool = known && !self.pending.contains(Operation::UpdateConfig);
        let discovery: bool = match &self.capabilities {
            Some(capabilities) => capabilities.discovery,
            None => false,
        };
        let bridge: bool = match &self.status {
            Some(status) => status.bridge == BridgeState::Connected,
            None => false,
        };
        let video: bool = self.supports_mode(SyncMode::Video);
        let game: bool = self.supports_mode(SyncMode::Game);
        let music: bool = self.supports_mode(SyncMode::Music);
        let scene: bool = self.supports_mode(SyncMode::Scene);
        RenderState {
            dashboard,
            action_id: if pending {
                "action-working"
            } else {
                dashboard.action_id
            },
            action_sensitive: dashboard.action_enabled && self.connected && (
            dashboard.action_is_stop || (configured && self.supports_selection())) && !pending,
            area_name: self.active_area(),
            error_id: match &self.operation_error {
                Some(error) => Some(view_state::error_id(error.code)),
                None => dashboard.error_id,
            },
            controls: self.control_state(backends),
            mode_sensitive: [known && video, known && game, known && music, known && scene],
            mode_ids: [
                mode_id(SyncMode::Video, video),
                mode_id(SyncMode::Game, game),
                mode_id(SyncMode::Music, music),
                mode_id(SyncMode::Scene, scene),
            ],
            controls_sensitive: known,
            capture_sensitive: general && backends.len() > 1,
            general_sensitive: general,
            discover_sensitive: self.connected && discovery && !self.pending.contains(
                Operation::Discover,
            ),
            discover_id: if discovery {
                "action-discover"
            } else {
                "action-discover-unavailable"
            },
            complete_pairing_sensitive: self.connected && self.pairing_bridge.is_some()
                && !self.pending.contains(Operation::CompletePairing),
            refresh_areas_sensitive: self.connected && bridge && !self.pending.contains(
                Operation::RefreshAreas,
            ),
            create_profile_sensitive: known && !self.pending.contains(Operation::CreateProfile)
                && !text::is_blank(profile_name),
            bridge_actions_sensitive: self.connected && self.pairing_bridge.is_none()
                && discovery && !self.pending.contains(Operation::BeginPairing),
            area_actions_sensitive: self.connected && bridge && !self.pending.contains(
                Operation::SelectArea,
            ),
            activate_sensitive: self.connected && !self.pending.contains(
                Operation::ActivateProfile,
            ),
            delete_sensitive: self.connected && !self.pending.contains(Operation::DeleteProfile),
            diagnostic_service_id: match &self.status {
                Some(status) => view_state::service_id(status.service),
                None => "state-reconnecting",
            },
            diagnostic_bridge_id: match &self.status {
                Some(status) => view_state::bridge_id(status.bridge),
                None => "state-unknown",
            },
            diagnostic_capture_id: match &self.status {
                Some(status) => view_state::capture_id(status.capture),
                None => "state-unknown",
            },
            diagnostic_sync_id: match &self.status {
                Some(status) => view_state::sync_id(status.sync),
                None => "state-unknown",
            },
            frames_per_second: match &self.status {
                Some(status) => status.frames_per_second,
                None => None,
            },
        }
    }

    /// Whether the button of a bridge can be used when its row is made.
    pub fn pair_sensitive(&self) -> (r: bool)
        ensures
            r == (self.deep_view().connected && can_discover(self.deep_view())
                && !self.deep_view().pending.contains_key(Operation::BeginPairing)),
    {
        self.connected && !self.pending.contains(Operation::BeginPairing)
            && match &self.capabilities {
            Some(capabilities) => capabilities.discovery,
            None => false,
        }
    }

    /// The rows of the bridges that were found.
    pub fn bridge_rows(&self) -> (r: Vec<BridgeRow>)
        ensures
            r.deep_view() == self.deep_view().bridges.map_values(
                |bridge: DiscoveredBridgeView| bridge_row(bridge),
            ),
    {
        let ghost all = self.bridges.deep_view();
        let mut rows: Vec<BridgeRow> = Vec::new();
        let mut i: usize = 0;
        while i < self.bridges.len()
            invariant
                i <= self.bridges.len(),
                all == self.bridges.deep_view(),
                rows.len() == i,
                forall|j: int| 0 <= j < i ==> #[trigger] rows.deep_view()[j] == bridge_row(all[j]),
            decreases self.bridges.len() - i,
        {
            let bridge = &self.bridges[i];
            let ghost earlier = rows.deep_view();
            let row = BridgeRow { name: bridge.name.clone(), host: bridge.host.clone() };
            let ghost view = row.deep_view();
            rows.push(row);
            assert(rows.deep_view() =~= earlier.push(view));
            i += 1;
        }
        rows
    }

    /// The rows of the areas.
    pub fn area_rows(&self) -> (r: Vec<AreaRow>)
        ensures
            r.deep_view() == self.deep_view().areas.map_values(
                |area: EntertainmentAreaView| area_row(self.deep_view(), area),
            ),
    {
        let ghost all = self.areas.deep_view();
        let mut rows: Vec<AreaRow> = Vec::new();
        let mut i: usize = 0;
        while i < self.areas.len()
            invariant
                i <= self.areas.len(),
                all == self.areas.deep_view(),
                rows.len() == i,
                forall|j: int|
                    0 <= j < i ==> #[trigger] rows.deep_view()[j] == area_row(
                        self.deep_view(),
                        all[j],
                    ),
            decreases self.areas.len() - i,
        {
            let area = &self.areas[i];
            let ghost earlier = rows.deep_view();
            let selected: bool = match &self.config {
                Some(config) => match &config.selected_area {
                    Some(id) => id.same(&area.id),
                    None => false,
                },
                None => false,
            };
            let row = AreaRow { id: area.id.clone(), name: area.name.clone(), selected };
            let ghost view = row.deep_view();
            assert(view == area_row(self.deep_view(), all[i as int]));
            rows.push(row);
            assert(rows.deep_view() =~= earlier.push(view));
            i += 1;
        }
        rows
    }

    /// The rows of the profiles.
    pub fn profile_rows(&self) -> (r: Vec<ProfileRow>)
        ensures
            r.deep_view() == all_profile_rows(self.deep_view()),
    {
        let mut rows: Vec<ProfileRow> = Vec::new();
        match &self.config {
            Some(config) => {
                let ghost all = config.profiles.deep_view();
                let mut i: usize = 0;
                while i < config.profiles.len()
                    invariant
                        i <= config.profiles.len(),
                        all == config.profiles.deep_view(),
                        rows.len() == i,
                        forall|j: int|
                            0 <= j < i ==> #[trigger] rows.deep_view()[j] == profile_row(
                                config.deep_view().active_profile,
                                all[j],
                            ),
                    decreases config.profiles.len() - i,
                {
                    let profile = &config.profiles[i];
                    let ghost earlier = rows.deep_view();
                    let active: bool = match config.active_profile {
                        Some(id) => id == profile.id,
                        None => false,
                    };
                    let row = ProfileRow { id: profile.id, name: profile.name.clone(), active };
                    let ghost view = row.deep_view();
                    rows.push(row);
                    assert(rows.deep_view() =~= earlier.push(view));
                    i += 1;
                }
                proof {
                    let expected = all_profile_rows(self.deep_view());
                    assert(rows.deep_view() =~= expected);
                }
            },
            None => {
                assert(rows.deep_view() =~= Seq::empty());
            },
        }
        rows
    }
}

/// The action can be used only where its request is sent.
pub proof fn law_usable_action_is_sent(model: ModelView)
    requires
        action_sensitive(model),
    ensures
        model::may_send(
            model,
            if view_state::dashboard(model.connected, model.status).action_is_stop {
                crate::domain::ipc::RequestView::Stop
            } else {
                crate::domain::ipc::RequestView::Start
            },
        ),
{
}

/// Synchronizing can be begun only with a bridge, an area, and settings that the
/// service supports.
pub proof fn law_start_needs_a_configuration(model: ModelView)
    requires
        action_sensitive(model),
        !view_state::dashboard(model.connected, model.status).action_is_stop,
    ensures
        is_configured(model),
        selection_supported(model),
{
}

} // verus!
