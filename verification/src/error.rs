//! Failures of the two outside dependencies, as the polling loop sees them.

use vstd::prelude::*;

verus! {

/// Why a fetch of the asset status gave no snapshot.
///
/// The loop treats the three alike; the distinction is kept for the operator's
/// log.
#[derive(Clone, Copy, Debug, PartialEq, Eq, Structural)]
pub enum FetchError {
    /// The exchange client failed below the level of the document.
    Transport,
    /// The document does not list the monitored asset.
    AssetNotFound,
    /// The asset is listed, but its network list cannot be read as a snapshot.
    Parse,
}

/// Why a notification was not delivered.
#[derive(Clone, Copy, Debug, PartialEq, Eq, Structural)]
pub enum NotifyError {
    /// No acknowledgment arrived within the time allowed.
    Timeout,
    /// The messaging client reported that the send failed.
    DeliveryFailed,
}

/// The text that [`FetchError::describe`] gives for `error`.
pub open spec fn fetch_error_text(error: FetchError) -> Seq<char> {
    match error {
        FetchError::Transport => "Exchange request failed"@,
        FetchError::AssetNotFound => "No Avax found"@,
        FetchError::Parse => "Error with json parsing network"@,
    }
}

/// The text that [`NotifyError::describe`] gives for `error`.
pub open spec fn notify_error_text(error: NotifyError) -> Seq<char> {
    match error {
        NotifyError::Timeout => "Notification timed out"@,
        NotifyError::DeliveryFailed => "Notification was not delivered"@,
    }
}

impl FetchError {
    /// A short line for the operator's log.
    pub fn describe(&self) -> (text: &'static str)
        ensures
            text@ == fetch_error_text(*self),
    {
        match self {
            FetchError::Transport => "Exchange request failed",
            FetchError::AssetNotFound => "No Avax found",
            FetchError::Parse => "Error with json parsing network",
        }
    }
}

impl NotifyError {
    /// A short line for the operator's log.
    pub fn describe(&self) -> (text: &'static str)
        ensures
            text@ == notify_error_text(*self),
    {
        match self {
            NotifyError::Timeout => "Notification timed out",
            NotifyError::DeliveryFailed => "Notification was not delivered",
        }
    }
}

} // verus!
