//! The errors that the service reports, and what it does not support.
use crate::capture::frame::{CaptureError, CaptureErrorView};
use crate::domain::config::{
    AppConfig, AppConfigView, CaptureBackend, SyncMode, SyncSettings,
};
use crate::domain::state::{ActionableError, ActionableErrorView, ErrorCode};
use crate::domain::state;
use vstd::prelude::*;

verus! {

/// A conflict with what the service is doing; worth a retry.
pub open spec fn conflict_error(message: Seq<char>) -> ActionableErrorView {
    ActionableErrorView { retryable: true, ..state::plain_error(ErrorCode::Conflict, message) }
}

/// A conflict with what the service is doing; worth a retry.
pub fn conflict(message: &str) -> (r: ActionableError)
    ensures
        r.deep_view() == conflict_error(message@),
{
    ActionableError::new(ErrorCode::Conflict, message).retryable(true)
}

/// A configuration that cannot be used.
pub open spec fn configuration_error(message: Seq<char>) -> ActionableErrorView {
    state::plain_error(ErrorCode::InvalidConfiguration, message)
}

/// A configuration that cannot be used.
pub fn invalid_configuration(message: &str) -> (r: ActionableError)
    ensures
        r.deep_view() == configuration_error(message@),
{
    ActionableError::new(ErrorCode::InvalidConfiguration, message)
}

/// A failure of the bridge.
pub open spec fn bridge_error(message: Seq<char>) -> ActionableErrorView {
    ActionableErrorView {
        action: Some("Check the bridge connection and pairing"@),
        retryable: true,
        ..state::plain_error(ErrorCode::BridgeUnavailable, message)
    }
}

/// A failure of the bridge.
pub fn classify_hue(message: &str) -> (r: ActionableError)
    ensures
        r.deep_view() == bridge_error(message@),
{
    ActionableError::new(ErrorCode::BridgeUnavailable, message).with_action(
        "Check the bridge connection and pairing",
    ).retryable(true)
}

/// What a failure to capture is reported as.
pub open spec fn capture_failure(error: CaptureErrorView) -> ActionableErrorView {
    match error {
        CaptureErrorView::UserCancelled => ActionableErrorView {
            action: Some("Start synchronization again and select a display"@),
            ..state::plain_error(
                ErrorCode::CapturePermissionDenied,
                "Screen capture was cancelled"@,
            )
        },
        CaptureErrorView::ConsentRequired => ActionableErrorView {
            action: Some("Start synchronization interactively once to grant permission"@),
            ..state::plain_error(
                ErrorCode::CapturePermissionDenied,
                "Screen capture requires permission"@,
            )
        },
        _ => ActionableErrorView {
            action: Some("Check the selected capture backend"@),
            retryable: true,
            ..state::plain_error(ErrorCode::CaptureUnavailable, "Screen capture failed"@)
        },
    }
}

/// What a failure to capture is reported as.
pub fn classify_capture(error: &CaptureError) -> (r: ActionableError)
    ensures
        r.deep_view() == capture_failure(error.deep_view()),
{
    match error {
        CaptureError::UserCancelled => ActionableError::new(
            ErrorCode::CapturePermissionDenied,
            "Screen capture was cancelled",
        ).with_action("Start synchronization again and select a display"),
        CaptureError::ConsentRequired => ActionableError::new(
            ErrorCode::CapturePermissionDenied,
            "Screen capture requires permission",
        ).with_action("Start synchronization interactively once to grant permission"),
        _ => ActionableError::new(
            ErrorCode::CaptureUnavailable,
            "Screen capture failed",
        ).with_action("Check the selected capture backend").retryable(true),
    }
}

/// What is not supported in settings, if anything is not.
pub open spec fn settings_problem(settings: SyncSettings) -> Option<ActionableErrorView> {
    if settings.mode != SyncMode::Video && settings.mode != SyncMode::Game {
        Some(configuration_error("Only video and game screen-sampling modes are supported"@))
    } else if settings.audio_reactive {
        Some(configuration_error("Audio-reactive synchronization is not supported"@))
    } else {
        None
    }
}

/// Refuses settings that are not supported.
pub fn validate_supported_settings(settings: &SyncSettings) -> (r: Result<(), ActionableError>)
    ensures
        r is Ok <==> settings_problem(*settings) is None,
        r matches Err(error) ==> Some(error.deep_view()) == settings_problem(*settings),
{
    if settings.mode != SyncMode::Video && settings.mode != SyncMode::Game {
        return Err(
            invalid_configuration("Only video and game screen-sampling modes are supported"),
        );
    }
    if settings.audio_reactive {
        return Err(invalid_configuration("Audio-reactive synchronization is not supported"));
    }
    Ok(())
}

/// What is not supported in a configuration, if anything is not: its settings,
/// or a display that the portal could not be told to use.
pub open spec fn support_problem(config: AppConfigView) -> Option<ActionableErrorView> {
    if settings_problem(config.sync) is Some {
        settings_problem(config.sync)
    } else if config.capture_backend == CaptureBackend::PortalPipewire && config.selected_display
        is Some {
        Some(
            configuration_error(
                "The screen-cast portal selects a display through its chooser and cannot use a display ID"@,
            ),
        )
    } else {
        None
    }
}

/// Refuses a configuration that is not supported.
pub fn validate_supported_config(config: &AppConfig) -> (r: Result<(), ActionableError>)
    ensures
        r is Ok <==> support_problem(config.deep_view()) is None,
        r matches Err(error) ==> Some(error.deep_view()) == support_problem(config.deep_view()),
{
    match validate_supported_settings(&config.sync) {
        Ok(()) => {},
        Err(error) => return Err(error),
    }
    if config.capture_backend == CaptureBackend::PortalPipewire && config.selected_display.is_some() {
        return Err(
            invalid_configuration(
                "The screen-cast portal selects a display through its chooser and cannot use a display ID",
            ),
        );
    }
    Ok(())
}

} // verus!
