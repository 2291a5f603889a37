use playback_display::buttons::Command;
use playback_display::commands::{command_succeeded, command_url, current_playback_url};
use playback_display::models::{DeviceType, RepeatState};

#[test]
fn command_urls_carry_endpoint_and_token() {
    assert_eq!(
        command_url("http://host:8000", Command::TogglePlayback, "tok"),
        "http://host:8000/toggle_playback?auth_token=tok"
    );
    assert_eq!(
        command_url("http://host:8000", Command::SkipNext, "tok"),
        "http://host:8000/next_track?auth_token=tok"
    );
    assert_eq!(
        command_url("http://host:8000", Command::SkipPrevious, "tok"),
        "http://host:8000/previous_track?auth_token=tok"
    );
}

#[test]
fn playback_url() {
    assert_eq!(current_playback_url("http://host"), "http://host/current_playback");
}

#[test]
fn only_status_200_is_success() {
    assert!(command_succeeded(200));
    assert!(!command_succeeded(201));
    assert!(!command_succeeded(404));
    assert!(!command_succeeded(500));
}

#[test]
fn kind_names_are_snake_case() {
    assert_eq!(DeviceType::AudioDongle.as_str(), "audio_dongle");
    assert_eq!(DeviceType::Tv.as_str(), "tv");
    assert_eq!(DeviceType::Computer.as_str(), "computer");
    assert_eq!(RepeatState::Context.as_str(), "context");
    assert_eq!(RepeatState::Off.as_str(), "off");
}
