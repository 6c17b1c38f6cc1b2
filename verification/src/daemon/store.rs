//! Where the configuration is kept, and when it is read and written.
use crate::domain::config::{AppConfig, BridgeConfiguration, ValidationError};
use crate::domain::config;
use crate::ipc::socket::join_path;
use crate::ipc::socket;
use crate::text;
use vstd::prelude::*;
use vstd::slice::slice_to_vec;

verus! {

/// The directory of the configuration.
pub const CONFIG_DIRECTORY: &'static str = "omarchy-lightsync";

/// The file of the configuration.
pub const CONFIG_FILE: &'static str = "config.toml";

/// The file of a pairing in progress.
pub const PENDING_PAIRING_FILE: &'static str = "pending-pairing.toml";

/// The file of the token that restores a screen capture.
pub const PORTAL_TOKEN_FILE: &'static str = "portal-restore-token";

/// Why the place of the configuration is not known.
#[derive(Clone, Copy, Debug, PartialEq, Eq, Structural)]
pub enum PathError {
    EmptyConfigHome,
    RelativeConfigHome,
    MissingHome,
}

impl PathError {
    /// Describes the error.
    pub fn message(&self) -> (r: &'static str)
        ensures
            r@ == match *self {
                PathError::EmptyConfigHome => "XDG_CONFIG_HOME is empty"@,
                PathError::RelativeConfigHome => "XDG_CONFIG_HOME must be absolute"@,
                PathError::MissingHome => "HOME is not set"@,
            },
    {
        match self {
            PathError::EmptyConfigHome => "XDG_CONFIG_HOME is empty",
            PathError::RelativeConfigHome => "XDG_CONFIG_HOME must be absolute",
            PathError::MissingHome => "HOME is not set",
        }
    }
}

/// The configuration file below a directory of configurations.
pub open spec fn config_file(directory: Seq<u8>) -> Seq<u8> {
    socket::joined_path(socket::joined_path(directory, CONFIG_DIRECTORY@), CONFIG_FILE@)
}

/// The configuration file, given the values of `XDG_CONFIG_HOME` and `HOME`.
pub fn config_path(config_home: Option<&[u8]>, home: Option<&[u8]>) -> (r: Result<
    Vec<u8>,
    PathError,
>)
    ensures
        config_home matches Some(directory) ==> {
            &&& directory@.len() == 0 ==> r == Err::<Vec<u8>, PathError>(PathError::EmptyConfigHome)
            &&& directory@.len() > 0 && !socket::is_absolute(directory@) ==> r == Err::<
                Vec<u8>,
                PathError,
            >(PathError::RelativeConfigHome)
            &&& socket::is_absolute(directory@) ==> r is Ok && r->Ok_0@ == config_file(directory@)
        },
        config_home is None ==> match home {
            None => r == Err::<Vec<u8>, PathError>(PathError::MissingHome),
            Some(home) => r is Ok && r->Ok_0@ == config_file(
                socket::joined_path(home@, ".config"@),
            ),
        },
{
    match config_home {
        Some(directory) => {
            if directory.len() == 0 {
                return Err(PathError::EmptyConfigHome);
            }
            if directory[0] != 47 {
                return Err(PathError::RelativeConfigHome);
            }
            Ok(in_directory(&slice_to_vec(directory)))
        },
        None => match home {
            None => Err(PathError::MissingHome),
            Some(home) => Ok(in_directory(&join_path(&slice_to_vec(home), ".config"))),
        },
    }
}

fn in_directory(directory: &Vec<u8>) -> (r: Vec<u8>)
    ensures
        r@ == config_file(directory@),
{
    join_path(&join_path(directory, CONFIG_DIRECTORY), CONFIG_FILE)
}

/// The name of the file that a file is written to before it takes its place.
pub fn temporary_name(file: &str, process: u32) -> (r: String)
    ensures
        r@ == "."@ + file@ + "."@ + text::decimal_text(process as nat) + ".tmp"@,
{
    let mut r: String = text::concat3(".", file, ".");
    r.append(text::decimal(process as u64).as_str());
    r.append(".tmp");
    r
}

/// What reading a file came to.
pub enum FileRead<T> {
    Missing,
    /// It could not be read.
    Failed,
    /// It could not be understood.
    Malformed,
    Found(T),
}

/// Why a file cannot be used.
#[derive(Clone, Copy, Debug, PartialEq, Eq)]
pub enum LoadError {
    Failed,
    Malformed,
    Invalid(ValidationError),
}

/// The configuration out of its file; without one, that of a fresh installation.
pub fn loaded_config(read: FileRead<AppConfig>) -> (r: Result<AppConfig, LoadError>)
    ensures
        match read {
            FileRead::Missing => r is Ok && config::default_config(r->Ok_0.deep_view()),
            FileRead::Failed => r == Err::<AppConfig, LoadError>(LoadError::Failed),
            FileRead::Malformed => r == Err::<AppConfig, LoadError>(LoadError::Malformed),
            FileRead::Found(found) => match config::config_validation(found.deep_view()) {
                Ok(()) => r == Ok::<AppConfig, LoadError>(found),
                Err(error) => r == Err::<AppConfig, LoadError>(LoadError::Invalid(error)),
            },
        },
        r matches Ok(config) ==> config::valid_config(config.deep_view()),
{
    match read {
        FileRead::Missing => {
            let config: AppConfig = AppConfig::default();
            proof {
                config::law_default_config_is_valid(config.deep_view());
            }
            Ok(config)
        },
        FileRead::Failed => Err(LoadError::Failed),
        FileRead::Malformed => Err(LoadError::Malformed),
        FileRead::Found(found) => match found.validate() {
            Ok(()) => Ok(found),
            Err(error) => Err(LoadError::Invalid(error)),
        },
    }
}

/// The bridge of a pairing in progress out of its file, if there is one.
pub fn loaded_pairing(read: FileRead<BridgeConfiguration>) -> (r: Result<
    Option<BridgeConfiguration>,
    LoadError,
>)
    ensures
        match read {
            FileRead::Missing => r == Ok::<Option<BridgeConfiguration>, LoadError>(None),
            FileRead::Failed => r == Err::<Option<BridgeConfiguration>, LoadError>(
                LoadError::Failed,
            ),
            FileRead::Malformed => r == Err::<Option<BridgeConfiguration>, LoadError>(
                LoadError::Malformed,
            ),
            FileRead::Found(found) => match config::bridge_validation(found.deep_view()) {
                Ok(()) => r == Ok::<Option<BridgeConfiguration>, LoadError>(Some(found)),
                Err(error) => r == Err::<Option<BridgeConfiguration>, LoadError>(
                    LoadError::Invalid(error),
                ),
            },
        },
{
    match read {
        FileRead::Missing => Ok(None),
        FileRead::Failed => Err(LoadError::Failed),
        FileRead::Malformed => Err(LoadError::Malformed),
        FileRead::Found(found) => match found.validate() {
            Ok(()) => Ok(Some(found)),
            Err(error) => Err(LoadError::Invalid(error)),
        },
    }
}

/// The name of the file for the token that restores a screen capture, while it
/// is written.
pub fn token_temporary_name(process: u32) -> (r: String)
    ensures
        r@ == ".restore-token-"@ + text::decimal_text(process as nat) + ".tmp"@,
{
    text::concat3(".restore-token-", text::decimal(process as u64).as_str(), ".tmp")
}

} // verus!
