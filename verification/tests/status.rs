use apex_windows::status::{NATIVE_PAUSED, NATIVE_PLAYING};
use apex_windows::PlaybackStatus;
use windows::Media::Control::GlobalSystemMediaTransportControlsSessionPlaybackStatus as Native;

#[test]
fn playing_maps_to_playing() {
    assert_eq!(PlaybackStatus::from_native(4), PlaybackStatus::Playing);
}

#[test]
fn paused_maps_to_paused() {
    assert_eq!(PlaybackStatus::from_native(5), PlaybackStatus::Paused);
}

#[test]
fn every_other_known_code_maps_to_stopped() {
    for code in 0..=3 {
        assert_eq!(PlaybackStatus::from_native(code), PlaybackStatus::Stopped);
    }
}

#[test]
fn unknown_codes_map_to_stopped() {
    for code in [6, 7, 100, -1, -4, -5, i32::MAX, i32::MIN] {
        assert_eq!(PlaybackStatus::from_native(code), PlaybackStatus::Stopped);
    }
}

#[test]
fn native_codes_are_those_of_the_platform() {
    assert_eq!(NATIVE_PLAYING, Native::Playing.0);
    assert_eq!(NATIVE_PAUSED, Native::Paused.0);
    assert_eq!(PlaybackStatus::from_native(Native::Playing.0), PlaybackStatus::Playing);
    assert_eq!(PlaybackStatus::from_native(Native::Paused.0), PlaybackStatus::Paused);
    for native in [Native::Closed, Native::Opened, Native::Changing, Native::Stopped] {
        assert_eq!(PlaybackStatus::from_native(native.0), PlaybackStatus::Stopped);
    }
}
