//! Values on the command line, and their names.
use crate::domain::config::{
    AppConfig, Brightness, CaptureBackend, ConfigUpdate, ConfigUpdateView, Intensity, Language,
    SyncMode, SyncSettings, ValidationError, MAX_BRIGHTNESS,
};
use crate::domain::config;
use crate::domain::state::{BridgeState, CaptureState, ServiceState, SyncState};
use crate::text::NumberProblem;
use crate::text;
use vstd::prelude::*;

verus! {

/// Why a value cannot be used.
#[derive(Debug, PartialEq, Eq)]
pub enum ValueError {
    Language,
    Backend,
    Mode,
    Intensity,
    /// The brightness is no number of one byte.
    NotANumber(NumberProblem),
    /// The brightness is out of range.
    Brightness(ValidationError),
    /// Neither true nor false; holds what was given.
    NotABool(String),
}

/// The text that describes why a value cannot be used.
pub open spec fn value_error_text(error: ValueError) -> Seq<char> {
    match error {
        ValueError::Language => "language must be one of: system, en, de"@,
        ValueError::Backend => "backend must be one of: portal-pipewire, grim"@,
        ValueError::Mode => "mode must be one of: video, game, music, scene"@,
        ValueError::Intensity => "intensity must be one of: subtle, moderate, high, extreme"@,
        ValueError::NotANumber(problem) => "brightness must be an integer from 0 to 100: "@
            + text::number_problem_text(problem),
        ValueError::Brightness(error) => "invalid brightness: "@ + error.message_text(),
        ValueError::NotABool(value) => "expected true or false, got `"@ + value@ + "`"@,
    }
}

impl ValueError {
    /// Describes the error.
    pub fn message(&self) -> (r: String)
        ensures
            r@ == value_error_text(*self),
    {
        match self {
            ValueError::Language => "language must be one of: system, en, de".to_owned(),
            ValueError::Backend => "backend must be one of: portal-pipewire, grim".to_owned(),
            ValueError::Mode => "mode must be one of: video, game, music, scene".to_owned(),
            ValueError::Intensity => {
                "intensity must be one of: subtle, moderate, high, extreme".to_owned()
            },
            ValueError::NotANumber(problem) => text::concat(
                "brightness must be an integer from 0 to 100: ",
                problem.message(),
            ),
            ValueError::Brightness(error) => text::concat(
                "invalid brightness: ",
                error.message().as_str(),
            ),
            ValueError::NotABool(value) => text::concat3(
                "expected true or false, got `",
                value.as_str(),
                "`",
            ),
        }
    }
}

/// What the state of the service is called.
pub open spec fn service_state_text(value: ServiceState) -> Seq<char> {
    match value {
        ServiceState::Starting => "starting"@,
        ServiceState::Ready => "ready"@,
        ServiceState::Stopping => "stopping"@,
        ServiceState::Failed => "failed"@,
    }
}

/// What the state of the service is called.
pub fn service_state(value: ServiceState) -> (r: &'static str)
    ensures
        r@ == service_state_text(value),
{
    match value {
        ServiceState::Starting => "starting",
        ServiceState::Ready => "ready",
        ServiceState::Stopping => "stopping",
        ServiceState::Failed => "failed",
    }
}

/// What the state of the bridge is called.
pub open spec fn bridge_state_text(value: BridgeState) -> Seq<char> {
    match value {
        BridgeState::Unconfigured => "needs_setup"@,
        BridgeState::Disconnected => "unreachable"@,
        BridgeState::Discovering => "discovering"@,
        BridgeState::Pairing => "pairing"@,
        BridgeState::Connecting => "connecting"@,
        BridgeState::Connected => "ready"@,
    }
}

/// What the state of the bridge is called.
pub fn bridge_state(value: BridgeState) -> (r: &'static str)
    ensures
        r@ == bridge_state_text(value),
{
    match value {
        BridgeState::Unconfigured => "needs_setup",
        BridgeState::Disconnected => "unreachable",
        BridgeState::Discovering => "discovering",
        BridgeState::Pairing => "pairing",
        BridgeState::Connecting => "connecting",
        BridgeState::Connected => "ready",
    }
}

/// What the state of the capture is called.
pub open spec fn capture_state_text(value: CaptureState) -> Seq<char> {
    match value {
        CaptureState::Idle => "idle"@,
        CaptureState::RequestingPermission => "requesting_permission"@,
        CaptureState::Capturing => "active"@,
        CaptureState::Failed => "failed"@,
    }
}

/// What the state of the capture is called.
pub fn capture_state(value: CaptureState) -> (r: &'static str)
    ensures
        r@ == capture_state_text(value),
{
    match value {
        CaptureState::Idle => "idle",
        CaptureState::RequestingPermission => "requesting_permission",
        CaptureState::Capturing => "active",
        CaptureState::Failed => "failed",
    }
}

/// What the state of the synchronization is called.
pub open spec fn sync_state_text(value: SyncState) -> Seq<char> {
    match value {
        SyncState::Stopped => "idle"@,
        SyncState::Starting => "starting"@,
        SyncState::Running => "active"@,
        SyncState::Stopping => "stopping"@,
        SyncState::Failed => "failed"@,
    }
}

/// What the state of the synchronization is called.
pub fn sync_state(value: SyncState) -> (r: &'static str)
    ensures
        r@ == sync_state_text(value),
{
    match value {
        SyncState::Stopped => "idle",
        SyncState::Starting => "starting",
        SyncState::Running => "active",
        SyncState::Stopping => "stopping",
        SyncState::Failed => "failed",
    }
}

/// The name of a language.
pub open spec fn language_name_text(value: Language) -> Seq<char> {
    match value {
        Language::System => "system"@,
        Language::En => "en"@,
        Language::De => "de"@,
    }
}

/// The name of a language.
pub fn language_name(value: Language) -> (r: &'static str)
    ensures
        r@ == language_name_text(value),
{
    match value {
        Language::System => "system",
        Language::En => "en",
        Language::De => "de",
    }
}

/// The name of a capture backend.
pub open spec fn capture_backend_name_text(value: CaptureBackend) -> Seq<char> {
    match value {
        CaptureBackend::PortalPipewire => "portal-pipewire"@,
        CaptureBackend::Grim => "grim"@,
    }
}

/// The name of a capture backend.
pub fn capture_backend_name(value: CaptureBackend) -> (r: &'static str)
    ensures
        r@ == capture_backend_name_text(value),
{
    match value {
        CaptureBackend::PortalPipewire => "portal-pipewire",
        CaptureBackend::Grim => "grim",
    }
}

/// The name of a synchronization mode.
pub open spec fn sync_mode_name_text(value: SyncMode) -> Seq<char> {
    match value {
        SyncMode::Video => "video"@,
        SyncMode::Game => "game"@,
        SyncMode::Music => "music"@,
        SyncMode::Scene => "scene"@,
    }
}

/// The name of a synchronization mode.
pub fn sync_mode_name(value: SyncMode) -> (r: &'static str)
    ensures
        r@ == sync_mode_name_text(value),
{
    match value {
        SyncMode::Video => "video",
        SyncMode::Game => "game",
        SyncMode::Music => "music",
        SyncMode::Scene => "scene",
    }
}

/// The name of an intensity.
pub open spec fn intensity_name_text(value: Intensity) -> Seq<char> {
    match value {
        Intensity::Subtle => "subtle"@,
        Intensity::Moderate => "moderate"@,
        Intensity::High => "high"@,
        Intensity::Extreme => "extreme"@,
    }
}

/// The name of an intensity.
pub fn intensity_name(value: Intensity) -> (r: &'static str)
    ensures
        r@ == intensity_name_text(value),
{
    match value {
        Intensity::Subtle => "subtle",
        Intensity::Moderate => "moderate",
        Intensity::High => "high",
        Intensity::Extreme => "extreme",
    }
}

/// The language with a name.
pub open spec fn parse_language_spec(text: Seq<char>) -> Option<Language> {
    if text == "system"@ {
        Some(Language::System)
    } else if text == "en"@ {
        Some(Language::En)
    } else if text == "de"@ {
        Some(Language::De)
    } else {
        None
    }
}

/// The language with a name.
pub fn parse_language(value: &str) -> (r: Result<Language, ValueError>)
    ensures
        r is Ok <==> parse_language_spec(value@) is Some,
        r matches Ok(found) ==> parse_language_spec(value@) == Some(found),
        r matches Err(error) ==> error == ValueError::Language,
{
    if text::str_eq(value, "system") {
        Ok(Language::System)
    } else if text::str_eq(value, "en") {
        Ok(Language::En)
    } else if text::str_eq(value, "de") {
        Ok(Language::De)
    } else {
        Err(ValueError::Language)
    }
}

/// A language is found by its name.
pub proof fn law_parse_language_reads_names(value: Language)
    ensures
        parse_language_spec(language_name_text(value)) == Some(value),
{
    reveal_strlit("system");
    reveal_strlit("en");
    reveal_strlit("de");
    assert("system"@[0] == 's');
    assert("en"@[0] == 'e');
    assert("de"@[0] == 'd');
}

/// The capture backend with a name.
pub open spec fn parse_backend_spec(text: Seq<char>) -> Option<CaptureBackend> {
    if text == "portal-pipewire"@ {
        Some(CaptureBackend::PortalPipewire)
    } else if text == "grim"@ {
        Some(CaptureBackend::Grim)
    } else {
        None
    }
}

/// The capture backend with a name.
pub fn parse_backend(value: &str) -> (r: Result<CaptureBackend, ValueError>)
    ensures
        r is Ok <==> parse_backend_spec(value@) is Some,
        r matches Ok(found) ==> parse_backend_spec(value@) == Some(found),
        r matches Err(error) ==> error == ValueError::Backend,
{
    if text::str_eq(value, "portal-pipewire") {
        Ok(CaptureBackend::PortalPipewire)
    } else if text::str_eq(value, "grim") {
        Ok(CaptureBackend::Grim)
    } else {
        Err(ValueError::Backend)
    }
}

/// A capture backend is found by its name.
pub proof fn law_parse_backend_reads_names(value: CaptureBackend)
    ensures
        parse_backend_spec(capture_backend_name_text(value)) == Some(value),
{
    reveal_strlit("portal-pipewire");
    reveal_strlit("grim");
    assert("portal-pipewire"@[0] == 'p');
    assert("grim"@[0] == 'g');
}

/// The synchronization mode with a name.
pub open spec fn parse_mode_spec(text: Seq<char>) -> Option<SyncMode> {
    if text == "video"@ {
        Some(SyncMode::Video)
    } else if text == "game"@ {
        Some(SyncMode::Game)
    } else if text == "music"@ {
        Some(SyncMode::Music)
    } else if text == "scene"@ {
        Some(SyncMode::Scene)
    } else {
        None
    }
}

/// The synchronization mode with a name.
pub fn parse_mode(value: &str) -> (r: Result<SyncMode, ValueError>)
    ensures
        r is Ok <==> parse_mode_spec(value@) is Some,
        r matches Ok(found) ==> parse_mode_spec(value@) == Some(found),
        r matches Err(error) ==> error == ValueError::Mode,
{
    if text::str_eq(value, "video") {
        Ok(SyncMode::Video)
    } else if text::str_eq(value, "game") {
        Ok(SyncMode::Game)
    } else if text::str_eq(value, "music") {
        Ok(SyncMode::Music)
    } else if text::str_eq(value, "scene") {
        Ok(SyncMode::Scene)
    } else {
        Err(ValueError::Mode)
    }
}

/// A synchronization mode is found by its name.
pub proof fn law_parse_mode_reads_names(value: SyncMode)
    ensures
        parse_mode_spec(sync_mode_name_text(value)) == Some(value),
{
    reveal_strlit("video");
    reveal_strlit("game");
    reveal_strlit("music");
    reveal_strlit("scene");
    assert("video"@[0] == 'v');
    assert("game"@[0] == 'g');
    assert("music"@[0] == 'm');
    assert("scene"@[0] == 's');
}

/// The intensity with a name.
pub open spec fn parse_intensity_spec(text: Seq<char>) -> Option<Intensity> {
    if text == "subtle"@ {
        Some(Intensity::Subtle)
    } else if text == "moderate"@ {
        Some(Intensity::Moderate)
    } else if text == "high"@ {
        Some(Intensity::High)
    } else if text == "extreme"@ {
        Some(Intensity::Extreme)
    } else {
        None
    }
}

/// The intensity with a name.
pub fn parse_intensity(value: &str) -> (r: Result<Intensity, ValueError>)
    ensures
        r is Ok <==> parse_intensity_spec(value@) is Some,
        r matches Ok(found) ==> parse_intensity_spec(value@) == Some(found),
        r matches Err(error) ==> error == ValueError::Intensity,
{
    if text::str_eq(value, "subtle") {
        Ok(Intensity::Subtle)
    } else if text::str_eq(value, "moderate") {
        Ok(Intensity::Moderate)
    } else if text::str_eq(value, "high") {
        Ok(Intensity::High)
    } else if text::str_eq(value, "extreme") {
        Ok(Intensity::Extreme)
    } else {
        Err(ValueError::Intensity)
    }
}

/// An intensity is found by its name.
pub proof fn law_parse_intensity_reads_names(value: Intensity)
    ensures
        parse_intensity_spec(intensity_name_text(value)) == Some(value),
{
    reveal_strlit("subtle");
    reveal_strlit("moderate");
    reveal_strlit("high");
    reveal_strlit("extreme");
    assert("subtle"@[0] == 's');
    assert("moderate"@[0] == 'm');
    assert("high"@[0] == 'h');
    assert("extreme"@[0] == 'e');
}

/// What a yes or no is called.
pub fn yes_no(value: bool) -> (r: &'static str)
    ensures
        r@ == if value {
            "yes"@
        } else {
            "no"@
        },
{
    if value {
        "yes"
    } else {
        "no"
    }
}

/// Whether two texts are the same up to ASCII case.
pub open spec fn same_letters(a: Seq<char>, b: Seq<char>) -> bool {
    text::ascii_lower_text(a) == text::ascii_lower_text(b)
}

/// Whether a text says true, or false, in one of several ways and in any case.
pub open spec fn bool_value(value: Seq<char>) -> Option<bool> {
    if same_letters(value, "true"@) || same_letters(value, "yes"@) || same_letters(value, "on"@)
        || same_letters(value, "1"@) {
        Some(true)
    } else if same_letters(value, "false"@) || same_letters(value, "no"@) || same_letters(
        value,
        "off"@,
    ) || same_letters(value, "0"@) {
        Some(false)
    } else {
        None
    }
}

/// Reads true or false.
pub fn parse_bool(value: &str) -> (r: Result<bool, ValueError>)
    ensures
        r is Ok <==> bool_value(value@) is Some,
        r matches Ok(found) ==> bool_value(value@) == Some(found),
        r matches Err(error) ==> error is NotABool && error->NotABool_0@ == value@,
{
    if text::eq_ignore_ascii_case(value, "true") || text::eq_ignore_ascii_case(value, "yes")
        || text::eq_ignore_ascii_case(value, "on") || text::eq_ignore_ascii_case(value, "1") {
        Ok(true)
    } else if text::eq_ignore_ascii_case(value, "false") || text::eq_ignore_ascii_case(value, "no")
        || text::eq_ignore_ascii_case(value, "off") || text::eq_ignore_ascii_case(value, "0") {
        Ok(false)
    } else {
        Err(ValueError::NotABool(value.to_owned()))
    }
}

/// The number of a text of digits, if it fits in one byte.
pub open spec fn byte_value(value: Seq<char>) -> Option<nat> {
    text::unsigned_value(vstd::utf8::encode_utf8(value), u8::MAX as nat)
}

/// Why a text is no brightness.
pub open spec fn brightness_problem(value: Seq<char>) -> Option<ValueError> {
    match byte_value(value) {
        None => Some(
            ValueError::NotANumber(
                text::number_problem(
                    vstd::utf8::encode_utf8(value),
                    u8::MAX as nat,
                )->Some_0,
            ),
        ),
        Some(percent) => if percent <= MAX_BRIGHTNESS {
            None
        } else {
            Some(
                ValueError::Brightness(
                    (ValidationError::OutOfRange {
                        field: "brightness",
                        min: 0,
                        max: MAX_BRIGHTNESS as u64,
                        value: percent as u64,
                    }),
                ),
            )
        },
    }
}

/// Reads a brightness.
pub fn parse_brightness(value: &str) -> (r: Result<Brightness, ValueError>)
    ensures
        r is Ok <==> brightness_problem(value@) is None,
        r matches Ok(brightness) ==> Some(brightness.percent() as nat) == byte_value(value@),
        r matches Err(error) ==> Some(error) == brightness_problem(value@),
{
    match text::parse_unsigned(value.as_bytes(), 255) {
        Err(problem) => Err(ValueError::NotANumber(problem)),
        Ok(percent) => match Brightness::new(percent as u8) {
            Ok(brightness) => Ok(brightness),
            Err(error) => Err(ValueError::Brightness(error)),
        },
    }
}

/// A value that can be set.
#[derive(Clone, Copy, Debug, PartialEq, Eq, Structural)]
pub enum ConfigKey {
    Language,
    Backend,
    Mode,
    Intensity,
    Brightness,
    AudioReactive,
    RestoreOnStop,
    AutoStart,
}

/// An update of the synchronization settings alone.
pub open spec fn sync_update(sync: SyncSettings) -> ConfigUpdateView {
    ConfigUpdateView { sync: Some(sync), ..config::empty_update() }
}

/// The update that sets a value and keeps all others. A setting of the
/// synchronization is set among the others that are in force.
pub fn config_update(config: &AppConfig, key: ConfigKey, value: &str) -> (r: Result<
    ConfigUpdate,
    ValueError,
>)
    ensures
        ({
            let sync = config.sync;
            match key {
                ConfigKey::Language => match parse_language_spec(value@) {
                    Some(language) => r is Ok && r->Ok_0.deep_view() == (ConfigUpdateView {
                        language: Some(language),
                        ..config::empty_update()
                    }),
                    None => r is Err && r->Err_0 == ValueError::Language,
                },
                ConfigKey::Backend => match parse_backend_spec(value@) {
                    Some(backend) => r is Ok && r->Ok_0.deep_view() == (ConfigUpdateView {
                        capture_backend: Some(backend),
                        ..config::empty_update()
                    }),
                    None => r is Err && r->Err_0 == ValueError::Backend,
                },
                ConfigKey::Mode => match parse_mode_spec(value@) {
                    Some(mode) => r is Ok && r->Ok_0.deep_view() == sync_update(
                        SyncSettings { mode, ..sync },
                    ),
                    None => r is Err && r->Err_0 == ValueError::Mode,
                },
                ConfigKey::Intensity => match parse_intensity_spec(value@) {
                    Some(intensity) => r is Ok && r->Ok_0.deep_view() == sync_update(
                        SyncSettings { intensity, ..sync },
                    ),
                    None => r is Err && r->Err_0 == ValueError::Intensity,
                },
                ConfigKey::Brightness => {
                    &&& r is Ok <==> brightness_problem(value@) is None
                    &&& r matches Ok(update) ==> {
                        &&& update.sync matches Some(changed)
                        &&& changed.brightness.percent() == byte_value(value@)->Some_0
                        &&& update.deep_view() == sync_update(
                            SyncSettings { brightness: changed.brightness, ..sync },
                        )
                    }
                    &&& r matches Err(error) ==> Some(error) == brightness_problem(value@)
                },
                ConfigKey::AudioReactive => match bool_value(value@) {
                    Some(audio_reactive) => r is Ok && r->Ok_0.deep_view() == sync_update(
                        SyncSettings { audio_reactive, ..sync },
                    ),
                    None => r is Err && r->Err_0 is NotABool && r->Err_0->NotABool_0@ == value@,
                },
                ConfigKey::RestoreOnStop => match bool_value(value@) {
                    Some(restore) => r is Ok && r->Ok_0.deep_view() == (ConfigUpdateView {
                        restore_on_stop: Some(restore),
                        ..config::empty_update()
                    }),
                    None => r is Err && r->Err_0 is NotABool && r->Err_0->NotABool_0@ == value@,
                },
                ConfigKey::AutoStart => match bool_value(value@) {
                    Some(start) => r is Ok && r->Ok_0.deep_view() == (ConfigUpdateView {
                        auto_start_sync: Some(start),
                        ..config::empty_update()
                    }),
                    None => r is Err && r->Err_0 is NotABool && r->Err_0->NotABool_0@ == value@,
                },
            }
        }),
{
    let sync: SyncSettings = config.sync;
    let none: ConfigUpdate = ConfigUpdate::default();
    match key {
        ConfigKey::Language => match parse_language(value) {
            Ok(language) => Ok(ConfigUpdate { language: Some(language), ..none }),
            Err(error) => Err(error),
        },
        ConfigKey::Backend => match parse_backend(value) {
            Ok(backend) => Ok(ConfigUpdate { capture_backend: Some(backend), ..none }),
            Err(error) => Err(error),
        },
        ConfigKey::Mode => match parse_mode(value) {
            Ok(mode) => Ok(ConfigUpdate { sync: Some(SyncSettings { mode, ..sync }), ..none }),
            Err(error) => Err(error),
        },
        ConfigKey::Intensity => match parse_intensity(value) {
            Ok(intensity) => Ok(
                ConfigUpdate { sync: Some(SyncSettings { intensity, ..sync }), ..none },
            ),
            Err(error) => Err(error),
        },
        ConfigKey::Brightness => match parse_brightness(value) {
            Ok(brightness) => Ok(
                ConfigUpdate { sync: Some(SyncSettings { brightness, ..sync }), ..none },
            ),
            Err(error) => Err(error),
        },
        ConfigKey::AudioReactive => match parse_bool(value) {
            Ok(audio_reactive) => Ok(
                ConfigUpdate { sync: Some(SyncSettings { audio_reactive, ..sync }), ..none },
            ),
            Err(error) => Err(error),
        },
        ConfigKey::RestoreOnStop => match parse_bool(value) {
            Ok(restore) => Ok(ConfigUpdate { restore_on_stop: Some(restore), ..none }),
            Err(error) => Err(error),
        },
        ConfigKey::AutoStart => match parse_bool(value) {
            Ok(start) => Ok(ConfigUpdate { auto_start_sync: Some(start), ..none }),
            Err(error) => Err(error),
        },
    }
}

} // verus!
