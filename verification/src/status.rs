//! Playback status and how native status codes map onto it.

use vstd::prelude::*;
use windows::Media::Control::GlobalSystemMediaTransportControlsSessionPlaybackStatus;

verus! {

/// The platform's code for a session that is playing.
pub const NATIVE_PLAYING: i32 = 4;

/// The platform's code for a session that is paused.
pub const NATIVE_PAUSED: i32 = 5;

/// Transport state of the player, as consumers see it.
#[derive(Clone, Copy, Debug, PartialEq, Eq, Structural)]
pub enum PlaybackStatus {
    Playing,
    Paused,
    Stopped,
}

/// The status that a native status code stands for: playing and paused map to
/// themselves, every other code, known or not, counts as stopped.
pub open spec fn status_of_code(code: i32) -> PlaybackStatus {
    if code == NATIVE_PLAYING {
        PlaybackStatus::Playing
    } else if code == NATIVE_PAUSED {
        PlaybackStatus::Paused
    } else {
        PlaybackStatus::Stopped
    }
}

impl View for PlaybackStatus {
    type V = PlaybackStatus;

    open spec fn view(&self) -> PlaybackStatus {
        *self
    }
}

/// `GlobalSystemMediaTransportControlsSessionPlaybackStatus::Playing` holds
/// the code for a session that is playing, which is 4.
#[verifier::external_body]
fn playing_code() -> (code: i32)
    ensures
        code == NATIVE_PLAYING,
{
    GlobalSystemMediaTransportControlsSessionPlaybackStatus::Playing.0
}

/// `GlobalSystemMediaTransportControlsSessionPlaybackStatus::Paused` holds
/// the code for a session that is paused, which is 5.
#[verifier::external_body]
fn paused_code() -> (code: i32)
    ensures
        code == NATIVE_PAUSED,
{
    GlobalSystemMediaTransportControlsSessionPlaybackStatus::Paused.0
}

impl PlaybackStatus {
    /// The status for a native status code.
    pub fn from_native(code: i32) -> (status: PlaybackStatus)
        ensures
            status == status_of_code(code),
    {
        if code == playing_code() {
            PlaybackStatus::Playing
        } else if code == paused_code() {
            PlaybackStatus::Paused
        } else {
            PlaybackStatus::Stopped
        }
    }
}

} // verus!
