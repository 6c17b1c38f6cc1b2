//! What commands ask of the service, and which answers they accept.
use crate::domain::config::{
    AppConfig, AreaId, BridgeId, Profile, ProfileId, ProfileView, ValidationError,
};
use crate::domain::ipc::{DiscoveredBridge, DiscoveredBridgeView, Request, ResponsePayload};
use crate::cli::values;
use crate::domain::state::StatusSnapshot;
use crate::encoding;
use crate::text;
use vstd::prelude::*;

verus! {

/// Why an argument cannot be used.
#[derive(Debug, PartialEq, Eq)]
pub enum ArgumentError {
    EmptyHost,
    EmptyProfileName,
    /// The identifier cannot be read; holds why.
    NotAProfileId(String),
    Invalid(ValidationError),
}

impl ArgumentError {
    /// Describes the error.
    pub fn message(&self) -> (r: String)
        ensures
            r@ == match *self {
                ArgumentError::EmptyHost => "bridge host must not be empty"@,
                ArgumentError::EmptyProfileName => "profile name must not be empty"@,
                ArgumentError::NotAProfileId(reason) => {
                    "profile ID must be a UUID: UUID parsing failed: "@ + reason@
                },
                ArgumentError::Invalid(error) => error.message_text(),
            },
    {
        match self {
            ArgumentError::EmptyHost => "bridge host must not be empty".to_owned(),
            ArgumentError::EmptyProfileName => "profile name must not be empty".to_owned(),
            ArgumentError::NotAProfileId(reason) => text::concat(
                "profile ID must be a UUID: UUID parsing failed: ",
                reason.as_str(),
            ),
            ArgumentError::Invalid(error) => error.message(),
        }
    }
}

/// Accepts an acknowledgement; anything else is handed back.
pub fn expect_acknowledged(payload: ResponsePayload) -> (r: Result<(), ResponsePayload>)
    ensures
        payload is Acknowledged ==> r is Ok,
        !(payload is Acknowledged) ==> r == Err::<(), ResponsePayload>(payload),
{
    match payload {
        ResponsePayload::Acknowledged => Ok(()),
        other => Err(other),
    }
}

/// Accepts a configuration; anything else is handed back.
pub fn expect_config(payload: ResponsePayload) -> (r: Result<AppConfig, ResponsePayload>)
    ensures
        payload matches ResponsePayload::Config(config) ==> r == Ok::<AppConfig, ResponsePayload>(
            config,
        ),
        !(payload is Config) ==> r == Err::<AppConfig, ResponsePayload>(payload),
{
    match payload {
        ResponsePayload::Config(config) => Ok(config),
        other => Err(other),
    }
}

/// Accepts a profile; anything else is handed back.
pub fn expect_profile(payload: ResponsePayload) -> (r: Result<Profile, ResponsePayload>)
    ensures
        payload matches ResponsePayload::Profile(profile) ==> r == Ok::<Profile, ResponsePayload>(
            profile,
        ),
        !(payload is Profile) ==> r == Err::<Profile, ResponsePayload>(payload),
{
    match payload {
        ResponsePayload::Profile(profile) => Ok(profile),
        other => Err(other),
    }
}

/// Accepts a status; anything else is handed back.
pub fn expect_status(payload: ResponsePayload) -> (r: Result<StatusSnapshot, ResponsePayload>)
    ensures
        payload matches ResponsePayload::Status(status) ==> r == Ok::<
            StatusSnapshot,
            ResponsePayload,
        >(status),
        !(payload is Status) ==> r == Err::<StatusSnapshot, ResponsePayload>(payload),
{
    match payload {
        ResponsePayload::Status(status) => Ok(status),
        other => Err(other),
    }
}

/// The bridge that a command names.
pub fn bridge_argument(id: String, host: String, name: Option<String>) -> (r: Result<
    DiscoveredBridge,
    ArgumentError,
>)
    ensures
        r is Ok <==> !text::blank(host@) && !text::blank(id@),
        r matches Ok(bridge) ==> bridge.deep_view() == (DiscoveredBridgeView {
            id: id@,
            host: host@,
            name: name.deep_view(),
        }),
        r matches Err(error) ==> error == if text::blank(host@) {
            ArgumentError::EmptyHost
        } else {
            ArgumentError::Invalid((ValidationError::Empty { field: "bridge id" }))
        },
{
    if text::is_blank(host.as_str()) {
        return Err(ArgumentError::EmptyHost);
    }
    match BridgeId::new(id) {
        Ok(id) => Ok(DiscoveredBridge { id, host, name }),
        Err(error) => Err(ArgumentError::Invalid(error)),
    }
}

/// The area that a command names; `none`, in any case, names none.
pub fn area_argument(area_id: String) -> (r: Result<Option<AreaId>, ArgumentError>)
    ensures
        values::same_letters(area_id@, "none"@) ==> r == Ok::<Option<AreaId>, ArgumentError>(None),
        !values::same_letters(area_id@, "none"@) ==> if text::blank(area_id@) {
            r == Err::<Option<AreaId>, ArgumentError>(
                ArgumentError::Invalid((ValidationError::Empty { field: "area id" })),
            )
        } else {
            r is Ok && r->Ok_0.deep_view() == Some(area_id@)
        },
{
    if text::eq_ignore_ascii_case(area_id.as_str(), "none") {
        return Ok(None);
    }
    match AreaId::new(area_id) {
        Ok(id) => Ok(Some(id)),
        Err(error) => Err(ArgumentError::Invalid(error)),
    }
}

/// Reads the identifier of a profile.
pub fn parse_profile_id(value: &str) -> (r: Result<ProfileId, ArgumentError>)
    ensures
        match encoding::uuid_value(value@) {
            Some(uuid) => r is Ok && r->Ok_0.uuid() == uuid,
            None => r is Err && r->Err_0 is NotAProfileId && r->Err_0->NotAProfileId_0@
                == encoding::uuid_error_text(value@),
        },
{
    match ProfileId::parse(value) {
        Ok(id) => Ok(id),
        Err(reason) => Err(ArgumentError::NotAProfileId(reason)),
    }
}

/// The profile that a command names; `none`, in any case, names none.
pub fn profile_argument(value: &str) -> (r: Result<Option<ProfileId>, ArgumentError>)
    ensures
        values::same_letters(value@, "none"@) ==> r == Ok::<Option<ProfileId>, ArgumentError>(None),
        !values::same_letters(value@, "none"@) ==> match encoding::uuid_value(value@) {
            Some(uuid) => r is Ok && r->Ok_0 is Some && r->Ok_0->Some_0.uuid() == uuid,
            None => r is Err && r->Err_0 is NotAProfileId && r->Err_0->NotAProfileId_0@
                == encoding::uuid_error_text(value@),
        },
{
    if text::eq_ignore_ascii_case(value, "none") {
        return Ok(None);
    }
    match parse_profile_id(value) {
        Ok(id) => Ok(Some(id)),
        Err(error) => Err(error),
    }
}

/// Refuses a blank name for a profile.
pub fn check_profile_name(name: &str) -> (r: Result<(), ArgumentError>)
    ensures
        r is Ok <==> !text::blank(name@),
        r matches Err(error) ==> error == ArgumentError::EmptyProfileName,
{
    if text::is_blank(name) {
        Err(ArgumentError::EmptyProfileName)
    } else {
        Ok(())
    }
}

/// A profile with the settings that are in force, under a random identifier.
pub fn profile_from_config(config: &AppConfig, name: String) -> (r: Profile)
    ensures
        encoding::is_random_uuid(r.id.uuid()),
        r.deep_view() == (ProfileView {
            id: r.id,
            name: name@,
            settings: config.deep_view().sync,
            display: config.deep_view().selected_display,
            area: config.deep_view().selected_area,
        }),
{
    Profile {
        id: ProfileId::new(),
        name,
        settings: config.sync,
        display: config.selected_display.clone(),
        area: config.selected_area.clone(),
    }
}

/// How the synchronization is controlled.
#[derive(Clone, Copy, Debug, PartialEq, Eq, Structural)]
pub enum SyncCommand {
    Start,
    Stop,
    Toggle,
}

/// The request of a command that controls the synchronization, and what is
/// shown once it succeeded.
pub fn sync_request(command: SyncCommand) -> (r: (Request, &'static str))
    ensures
        match command {
            SyncCommand::Start => r.0 is Start && r.1@ == "Synchronization started."@,
            SyncCommand::Stop => r.0 is Stop && r.1@ == "Synchronization stopped."@,
            SyncCommand::Toggle => r.0 is Toggle && r.1@ == "Synchronization toggled."@,
        },
{
    match command {
        SyncCommand::Start => (Request::Start, "Synchronization started."),
        SyncCommand::Stop => (Request::Stop, "Synchronization stopped."),
        SyncCommand::Toggle => (Request::Toggle, "Synchronization toggled."),
    }
}

} // verus!
