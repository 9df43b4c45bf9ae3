//! Everything that can end a call without a result, and the message each
//! failure is reported with.

use vstd::prelude::*;
use crate::config::DeploymentMode;
use crate::health::HealthStatus;
use crate::text::{decimal, decimal_text};

verus! {

/// A failure of one call. None of them is fatal to the host: the caller may
/// simply call again.
#[derive(Debug, PartialEq, Eq)]
pub enum SidecarError {
    /// Every port of the scan window was taken.
    NoPortAvailable,
    /// The directory that the sidecar's files live under could not be
    /// determined; `detail` is the host's account of why.
    BaseUnavailable { mode: DeploymentMode, detail: String },
    /// No file exists at the path where the sidecar's script belongs.
    ScriptNotFound(String),
    /// The operating system refused to start `command`.
    SpawnFailed { command: String, reason: String },
    /// A sidecar was started but its first probe did not find it healthy.
    SidecarUnavailable(HealthStatus),
    /// The request never got an answer; the text is the transport's account.
    TransportError(String),
    /// The sidecar answered with a status outside 200..=299.
    UpstreamStatusError(u16),
    /// The sidecar answered with success but its body is not a JSON document.
    DecodeError,
}

/// A `SidecarError` with its texts as character sequences.
pub enum SidecarErrorView {
    NoPortAvailable,
    BaseUnavailable { mode: DeploymentMode, detail: Seq<char> },
    ScriptNotFound(Seq<char>),
    SpawnFailed { command: Seq<char>, reason: Seq<char> },
    SidecarUnavailable(HealthStatus),
    TransportError(Seq<char>),
    UpstreamStatusError(u16),
    DecodeError,
}

impl View for SidecarError {
    type V = SidecarErrorView;

    open spec fn view(&self) -> SidecarErrorView {
        match *self {
            SidecarError::NoPortAvailable => SidecarErrorView::NoPortAvailable,
            SidecarError::BaseUnavailable { mode, detail } => SidecarErrorView::BaseUnavailable {
                mode,
                detail: detail@,
            },
            SidecarError::ScriptNotFound(path) => SidecarErrorView::ScriptNotFound(path@),
            SidecarError::SpawnFailed { command, reason } => SidecarErrorView::SpawnFailed {
                command: command@,
                reason: reason@,
            },
            SidecarError::SidecarUnavailable(status) => SidecarErrorView::SidecarUnavailable(status),
            SidecarError::TransportError(detail) => SidecarErrorView::TransportError(detail@),
            SidecarError::UpstreamStatusError(status) => SidecarErrorView::UpstreamStatusError(
                status,
            ),
            SidecarError::DecodeError => SidecarErrorView::DecodeError,
        }
    }
}

/// A result with its failure, if it is one, taken by its view.
pub open spec fn failure_view<T>(result: Result<T, SidecarError>) -> Result<T, SidecarErrorView> {
    match result {
        Ok(value) => Ok(value),
        Err(error) => Err(error@),
    }
}

/// The message a failure is reported with.
pub open spec fn message_text(error: SidecarErrorView) -> Seq<char> {
    match error {
        SidecarErrorView::NoPortAvailable => "No port available for the Python server"@,
        SidecarErrorView::BaseUnavailable { mode, detail } => match mode {
            DeploymentMode::Development => "Failed to get current directory: "@ + detail,
            DeploymentMode::Packaged => "Failed to get resource directory: "@ + detail,
        },
        SidecarErrorView::ScriptNotFound(path) => "Python script not found at: "@ + path,
        SidecarErrorView::SpawnFailed { command, reason } => "Failed to start Python server with '"@
            + command + "': "@ + reason,
        SidecarErrorView::SidecarUnavailable(_) =>
            "Failed to start Python server or server not responding"@,
        SidecarErrorView::TransportError(detail) => "HTTP request failed: "@ + detail,
        SidecarErrorView::UpstreamStatusError(status) => "HTTP request failed with status: "@
            + decimal_text(status as nat),
        SidecarErrorView::DecodeError => "Failed to parse JSON response"@,
    }
}

impl Clone for SidecarError {
    fn clone(&self) -> (copy: Self)
        ensures
            copy == *self,
    {
        match self {
            SidecarError::NoPortAvailable => SidecarError::NoPortAvailable,
            SidecarError::BaseUnavailable { mode, detail } => SidecarError::BaseUnavailable {
                mode: *mode,
                detail: detail.clone(),
            },
            SidecarError::ScriptNotFound(path) => SidecarError::ScriptNotFound(path.clone()),
            SidecarError::SpawnFailed { command, reason } => SidecarError::SpawnFailed {
                command: command.clone(),
                reason: reason.clone(),
            },
            SidecarError::SidecarUnavailable(status) => SidecarError::SidecarUnavailable(*status),
            SidecarError::TransportError(detail) => SidecarError::TransportError(detail.clone()),
            SidecarError::UpstreamStatusError(status) => SidecarError::UpstreamStatusError(*status),
            SidecarError::DecodeError => SidecarError::DecodeError,
        }
    }
}

impl SidecarError {
    /// The human-readable account of this failure.
    pub fn message(&self) -> (text: String)
        ensures
            text@ == message_text(self@),
    {
        match self {
            SidecarError::NoPortAvailable => "No port available for the Python server".to_owned(),
            SidecarError::BaseUnavailable { mode, detail } => {
                let mut text = match mode {
                    DeploymentMode::Development => "Failed to get current directory: ".to_owned(),
                    DeploymentMode::Packaged => "Failed to get resource directory: ".to_owned(),
                };
                text.append(detail.as_str());
                text
            },
            SidecarError::ScriptNotFound(path) => {
                let mut text = "Python script not found at: ".to_owned();
                text.append(path.as_str());
                text
            },
            SidecarError::SpawnFailed { command, reason } => {
                let mut text = "Failed to start Python server with '".to_owned();
                text.append(command.as_str());
                text.append("': ");
                text.append(reason.as_str());
                text
            },
            SidecarError::SidecarUnavailable(_) => {
                "Failed to start Python server or server not responding".to_owned()
            },
            SidecarError::TransportError(detail) => {
                let mut text = "HTTP request failed: ".to_owned();
                text.append(detail.as_str());
                text
            },
            SidecarError::UpstreamStatusError(status) => {
                let mut text = "HTTP request failed with status: ".to_owned();
                let digits = decimal(*status as u64);
                text.append(digits.as_str());
                text
            },
            SidecarError::DecodeError => "Failed to parse JSON response".to_owned(),
        }
    }
}

} // verus!
