//! The failures that the backend reports.

use vstd::prelude::*;

verus! {

/// The point at which fetching the media properties failed.
#[derive(Clone, Copy, Debug, PartialEq, Eq, Structural)]
pub enum FetchStage {
    /// The platform refused to start the fetch.
    Requested,
    /// The fetch was started and failed before it completed.
    Awaited,
}

/// A failure of the backend. Text carried by a variant is the platform's own
/// description of what went wrong.
#[derive(Debug, PartialEq, Eq)]
pub enum PlayerError {
    /// The platform's media-control subsystem could not be reached, so no
    /// backend exists.
    PlatformUnavailable,
    /// No session is current: nothing is playing.
    NoCurrentSession(String),
    /// The media properties of the current session could not be fetched.
    PropertyFetchFailed(FetchStage, String),
    /// A session is current and the platform failed to report its timeline or
    /// its playback state.
    Platform,
    /// The media properties were fetched and one of them could not be read.
    PropertyUnreadable(String),
}

/// What a [`PlayerError`] holds, as mathematical values.
pub ghost enum PlayerErrorView {
    PlatformUnavailable,
    NoCurrentSession(Seq<char>),
    PropertyFetchFailed(FetchStage, Seq<char>),
    Platform,
    PropertyUnreadable(Seq<char>),
}

impl View for PlayerError {
    type V = PlayerErrorView;

    open spec fn view(&self) -> PlayerErrorView {
        match self {
            PlayerError::PlatformUnavailable => PlayerErrorView::PlatformUnavailable,
            PlayerError::NoCurrentSession(detail) => PlayerErrorView::NoCurrentSession(detail@),
            PlayerError::PropertyFetchFailed(stage, detail) => PlayerErrorView::PropertyFetchFailed(
                *stage,
                detail@,
            ),
            PlayerError::Platform => PlayerErrorView::Platform,
            PlayerError::PropertyUnreadable(detail) => PlayerErrorView::PropertyUnreadable(
                detail@,
            ),
        }
    }
}

impl PlayerErrorView {
    /// The text that describes the failure.
    pub open spec fn message(self) -> Seq<char> {
        match self {
            PlayerErrorView::PlatformUnavailable => "Windows"@,
            PlayerErrorView::NoCurrentSession(detail) => "Couldn't get current session: "@
                + detail,
            PlayerErrorView::PropertyFetchFailed(FetchStage::Requested, detail) =>
                "Couldn't get media properties: "@ + detail,
            PlayerErrorView::PropertyFetchFailed(FetchStage::Awaited, detail) => detail,
            PlayerErrorView::Platform => "Windows"@,
            PlayerErrorView::PropertyUnreadable(detail) => detail,
        }
    }
}

impl Clone for PlayerError {
    fn clone(&self) -> (copy: PlayerError)
        ensures
            copy@ == self@,
    {
        match self {
            PlayerError::PlatformUnavailable => PlayerError::PlatformUnavailable,
            PlayerError::NoCurrentSession(detail) => PlayerError::NoCurrentSession(detail.clone()),
            PlayerError::PropertyFetchFailed(stage, detail) => PlayerError::PropertyFetchFailed(
                *stage,
                detail.clone(),
            ),
            PlayerError::Platform => PlayerError::Platform,
            PlayerError::PropertyUnreadable(detail) => PlayerError::PropertyUnreadable(
                detail.clone(),
            ),
        }
    }
}

impl PlayerError {
    /// The text that describes the failure.
    pub fn message(&self) -> (text: String)
        ensures
            text@ == self@.message(),
    {
        match self {
            PlayerError::PlatformUnavailable => String::from_str("Windows"),
            PlayerError::NoCurrentSession(detail) => String::from_str(
                "Couldn't get current session: ",
            ).concat(detail.as_str()),
            PlayerError::PropertyFetchFailed(FetchStage::Requested, detail) => String::from_str(
                "Couldn't get media properties: ",
            ).concat(detail.as_str()),
            PlayerError::PropertyFetchFailed(FetchStage::Awaited, detail) => detail.clone(),
            PlayerError::Platform => String::from_str("Windows"),
            PlayerError::PropertyUnreadable(detail) => detail.clone(),
        }
    }
}

} // verus!
