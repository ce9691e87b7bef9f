use std::path::PathBuf;
use wuspotify_muter::{
    action_log_line, event_log_line, format_clock, plan_poll, shutdown_log_line, startup_log_line,
    ActionLogEvent, ActionManager, AdAction, AdReason, AppError, Config, DetectionEvent,
    DetectorState, PlatformCall, PlatformError, PlayerState, TrackInfo,
};

fn track(state: PlayerState, uri: &str, title: &str, artist: &str, num: u32, volume: u32) -> TrackInfo {
    TrackInfo {
        state,
        uri: uri.to_string(),
        title: title.to_string(),
        artist: artist.to_string(),
        track_number: num,
        volume,
    }
}

#[test]
fn formats_clock() {
    assert_eq!(format_clock(0), "00:00:00");
    assert_eq!(format_clock(53100), "14:45:00");
    assert_eq!(format_clock(86399), "23:59:59");
    assert_eq!(format_clock(86400 + 3600 + 61), "01:01:01");
    assert_eq!(format_clock(u64::MAX), "07:00:15");
}

#[test]
fn formats_action_lines() {
    assert_eq!(
        action_log_line("14:48:30", &ActionLogEvent::SpotifyMuted { previous_volume: 85 }),
        "[14:48:30] [ACTION: MUTED] Spotify sound volume: 85% -> 0%"
    );
    assert_eq!(
        action_log_line("14:49:00", &ActionLogEvent::SpotifyUnmuted { restored_volume: 85 }),
        "[14:49:00] [ACTION: UNMUTED] Restored Spotify sound volume to 85%"
    );
    assert_eq!(
        action_log_line("t", &ActionLogEvent::RestoredSpotifyOnShutdown { restored_volume: 7 }),
        "[t] [ACTION: RESTORED] Restored Spotify sound volume to 7% on exit"
    );
    assert_eq!(
        action_log_line("t", &ActionLogEvent::RecoveredSystemOnStartup),
        "[t] [RECOVERY] Restored unrecovered pre-crash macOS system audio"
    );
}

#[test]
fn formats_event_lines() {
    let ad = DetectionEvent::AdStarted {
        title: "Advertisement".to_string(),
        artist: "Spotify".to_string(),
        uri: "spotify:ad:1".to_string(),
        reason: AdReason::ExplicitAdUri,
    };
    let line = "[14:48:30] [AD DETECTED] Title: 'Advertisement' | Artist: 'Spotify' | URI: 'spotify:ad:1' | Reason: URI matches Spotify ad scheme";
    assert_eq!(event_log_line("14:48:30", &ad, false), Some(line.to_string()));
    let music = DetectionEvent::MediaStarted {
        title: "Song Title".to_string(),
        artist: "Artist".to_string(),
        uri: "spotify:track:1".to_string(),
        is_podcast: false,
    };
    assert_eq!(
        event_log_line("14:45:01", &music, true),
        Some("[14:45:01] [MUSIC] Playing: Artist - Song Title (spotify:track:1)".to_string())
    );
    assert_eq!(event_log_line("14:45:01", &music, false), None);
    let volume = DetectionEvent::VolumeChanged { previous: 75, current: 85 };
    assert_eq!(
        event_log_line("14:46:12", &volume, true),
        Some("[14:46:12] [VOLUME] Spotify sound volume: 75% -> 85%".to_string())
    );
    let state = DetectionEvent::StateChanged { previous: None, current: PlayerState::NotRunning };
    assert_eq!(
        event_log_line("x", &state, true),
        Some("[x] [STATE] Spotify state: Not Running".to_string())
    );
}

#[test]
fn formats_startup_and_shutdown_lines() {
    let config = Config::default();
    assert_eq!(
        startup_log_line("14:45:00", &config),
        "[14:45:00] [INFO] Starting wuspotify-muter (method: applescript, action: spotify-mute, interval: 1000ms)..."
    );
    assert_eq!(
        shutdown_log_line("14:50:00"),
        "[14:50:00] [INFO] Stopping wuspotify-muter gracefully."
    );
    assert_eq!(
        AppError::from(PlatformError::Execution("e".to_string())).message(),
        "Platform error: AppleScript execution error: e"
    );
}

#[test]
fn poll_plans_follow_an_ad_break() {
    let mut detector = DetectorState::new();
    let mut actions =
        ActionManager::with_state_file(AdAction::SpotifyMute, PathBuf::from("/tmp/m.state"));
    let song = track(PlayerState::Playing, "spotify:track:1", "Song", "Band", 1, 75);
    let plan = plan_poll(&mut detector, &mut actions, &song);
    assert!(matches!(plan.event, Some(DetectionEvent::MediaStarted { .. })));
    assert!(plan.report_event && plan.command_first && plan.command.is_none());

    let ad = track(PlayerState::Playing, "spotify:ad:9", "Sponsor", "Spotify", 0, 75);
    let plan = plan_poll(&mut detector, &mut actions, &ad);
    assert!(matches!(plan.event, Some(DetectionEvent::AdStarted { .. })));
    assert!(plan.report_event && !plan.command_first);
    assert_eq!(plan.command.unwrap().call, PlatformCall::SetSpotifyVolume(0));
    assert!(actions.complete(Ok(())).is_ok());

    let ad_silenced = track(PlayerState::Playing, "spotify:ad:9", "Sponsor", "Spotify", 0, 0);
    let plan = plan_poll(&mut detector, &mut actions, &ad_silenced);
    assert!(matches!(plan.event, Some(DetectionEvent::VolumeChanged { previous: 75, current: 0 })));
    assert!(!plan.report_event);

    let next_song = track(PlayerState::Playing, "spotify:track:2", "Next", "Band", 2, 0);
    let plan = plan_poll(&mut detector, &mut actions, &next_song);
    assert!(plan.command_first);
    assert_eq!(plan.command.unwrap().call, PlatformCall::SetSpotifyVolume(75));
    assert_eq!(
        actions.complete(Ok(())).unwrap(),
        Some(ActionLogEvent::SpotifyUnmuted { restored_volume: 75 })
    );

    let plan = plan_poll(&mut detector, &mut actions, &next_song);
    assert!(plan.event.is_none() && !plan.report_event && plan.command.is_none());
}
