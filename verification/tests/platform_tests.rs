use wuspotify_muter::{parse_status_output, spotify_volume_script, system_mute_script, PlatformError, PlayerState};

#[test]
fn parses_playing_track() {
    let raw = "playing\tspotify:track:123\tSong Name\tArtist Name\t5\t80";
    let info = parse_status_output(raw);
    assert_eq!(info.state, PlayerState::Playing);
    assert_eq!(info.uri, "spotify:track:123");
    assert_eq!(info.title, "Song Name");
    assert_eq!(info.artist, "Artist Name");
    assert_eq!(info.track_number, 5);
    assert_eq!(info.volume, 80);
}

#[test]
fn parses_not_running() {
    let raw = "not_running\t\t\t\t0\t0";
    let info = parse_status_output(raw);
    assert_eq!(info.state, PlayerState::NotRunning);
    assert!(info.uri.is_empty());
}

#[test]
fn parses_malformed_input_gracefully() {
    let raw = "unexpected";
    let info = parse_status_output(raw);
    assert_eq!(info.state, PlayerState::Unknown);
    assert_eq!(info.track_number, 0);
    assert_eq!(info.volume, 0);
}

#[test]
fn parses_fields_with_spaces_signs_and_case() {
    let raw = "PAUSED\t  spotify:episode:9 \t\u{3000}Title\u{a0}\t Host\t+7\t 4294967296";
    let info = parse_status_output(raw);
    assert_eq!(info.state, PlayerState::Paused);
    assert_eq!(info.uri, "spotify:episode:9");
    assert_eq!(info.title, "Title");
    assert_eq!(info.artist, "Host");
    assert_eq!(info.track_number, 7);
    assert_eq!(info.volume, 0);
    let info = parse_status_output(" playing\tx\ty\tz\t-1\t12");
    assert_eq!(info.state, PlayerState::Unknown);
    assert_eq!(info.track_number, 0);
    assert_eq!(info.volume, 12);
}

#[test]
fn scripts_and_messages() {
    assert_eq!(
        spotify_volume_script(85),
        "if application \"Spotify\" is running then tell application \"Spotify\" to set sound volume to 85"
    );
    assert_eq!(system_mute_script(true), "set volume with output muted");
    assert_eq!(system_mute_script(false), "set volume without output muted");
    assert_eq!(
        PlatformError::Execution("boom".to_string()).message(),
        "AppleScript execution error: boom"
    );
    assert_eq!(
        PlatformError::OutputDecode("bad".to_string()).message(),
        "Failed to decode AppleScript output: bad"
    );
    assert_eq!(PlayerState::NotRunning.label(), "Not Running");
}
