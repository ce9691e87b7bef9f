use std::path::PathBuf;
use wuspotify_muter::{
    parse_saved_state, saved_state_content, ActionCommand, ActionLogEvent, ActionManager,
    AdAction, PlatformCall, PlatformError, PlayerState, SavedState, StateFileOp, TrackInfo,
};

fn test_track(volume: u32) -> TrackInfo {
    TrackInfo {
        state: PlayerState::Playing,
        uri: "spotify:track:123".to_string(),
        title: "Song".to_string(),
        artist: "Artist".to_string(),
        track_number: 1,
        volume,
    }
}

fn state_path(name: &str) -> PathBuf {
    PathBuf::from("/tmp").join(name)
}

#[test]
fn parses_action_strings() {
    assert_eq!(AdAction::parse("spotify-mute"), Some(AdAction::SpotifyMute));
    assert_eq!(AdAction::parse("SPOTIFY-MUTE"), Some(AdAction::SpotifyMute));
    assert_eq!(AdAction::parse("mute"), Some(AdAction::Mute));
    assert_eq!(AdAction::parse("system-mute"), Some(AdAction::Mute));
    assert_eq!(AdAction::parse("os-mute"), Some(AdAction::Mute));
    assert_eq!(AdAction::parse("global-mute"), Some(AdAction::Mute));
    assert_eq!(AdAction::parse("none"), Some(AdAction::LogOnly));
    assert_eq!(AdAction::parse("log-only"), Some(AdAction::LogOnly));
    assert_eq!(AdAction::parse("log_only"), Some(AdAction::LogOnly));
    assert_eq!(AdAction::parse("unknown"), None);
}

#[test]
fn state_file_io_helpers() {
    let written = saved_state_content(SavedState::SpotifyMuted(75));
    assert_eq!(written, "spotify:75");
    assert_eq!(parse_saved_state(&written), Some(SavedState::SpotifyMuted(75)));
    let written = saved_state_content(SavedState::SystemMuted);
    assert_eq!(parse_saved_state(&written), Some(SavedState::SystemMuted));
}

#[test]
fn state_file_contents_round_trip() {
    assert_eq!(
        parse_saved_state("spotify:75"),
        Some(SavedState::SpotifyMuted(75))
    );
    assert_eq!(parse_saved_state("system"), Some(SavedState::SystemMuted));
    assert_eq!(parse_saved_state(" system\n"), Some(SavedState::SystemMuted));
    assert_eq!(parse_saved_state("42"), Some(SavedState::SpotifyMuted(42)));
    assert_eq!(parse_saved_state("spotify:x"), None);
    assert_eq!(parse_saved_state("spotify:"), None);
    assert_eq!(parse_saved_state(""), None);
    assert_eq!(parse_saved_state("SYSTEM"), None);
    assert_eq!(saved_state_content(SavedState::SpotifyMuted(75)), "spotify:75");
    assert_eq!(saved_state_content(SavedState::SystemMuted), "system");
    for v in [0u32, 7, 10, 100, 4294967295] {
        let text = saved_state_content(SavedState::SpotifyMuted(v));
        assert_eq!(parse_saved_state(&text), Some(SavedState::SpotifyMuted(v)));
    }
}

#[test]
fn none_action_does_not_mutate_state() {
    let mut manager = ActionManager::with_state_file(AdAction::LogOnly, state_path("none.state"));
    let track = test_track(80);
    assert_eq!(manager.on_ad_start(&track), None);
    assert_eq!(manager.complete(Ok(())).unwrap(), None);
    assert!(!manager.is_muted());
    assert_eq!(manager.init(Some(SavedState::SystemMuted)), None);
    assert_eq!(manager.on_shutdown(), None);
}

#[test]
fn spotify_mute_then_unmute_restores_volume() {
    let mut m = ActionManager::with_state_file(AdAction::SpotifyMute, state_path("a.state"));
    assert_eq!(m.action(), AdAction::SpotifyMute);
    assert_eq!(m.state_file(), &state_path("a.state"));
    let cmd = m.on_ad_start(&test_track(85)).expect("mutes");
    assert_eq!(
        cmd,
        ActionCommand {
            before: Some(StateFileOp::Write("spotify:85".to_string())),
            call: PlatformCall::SetSpotifyVolume(0),
            after: None,
        }
    );
    assert!(m.is_muted());
    assert_eq!(
        m.complete(Ok(())).unwrap(),
        Some(ActionLogEvent::SpotifyMuted { previous_volume: 85 })
    );
    assert_eq!(m.on_ad_start(&test_track(0)), None);
    let cmd = m.on_media_start(&test_track(0)).expect("unmutes");
    assert_eq!(
        cmd,
        ActionCommand {
            before: None,
            call: PlatformCall::SetSpotifyVolume(85),
            after: Some(StateFileOp::Remove),
        }
    );
    assert!(m.is_muted());
    assert_eq!(
        m.complete(Ok(())).unwrap(),
        Some(ActionLogEvent::SpotifyUnmuted { restored_volume: 85 })
    );
    assert!(!m.is_muted());
    assert_eq!(m.on_media_start(&test_track(85)), None);
}

#[test]
fn muting_at_zero_volume_saves_default_and_failures_are_reported() {
    let mut m = ActionManager::with_state_file(AdAction::SpotifyMute, state_path("b.state"));
    let cmd = m.on_ad_start(&test_track(0)).expect("mutes");
    assert_eq!(cmd.before, Some(StateFileOp::Write("spotify:100".to_string())));
    let err = m.complete(Err(PlatformError::Execution("x".to_string())));
    assert!(matches!(err, Err(PlatformError::Execution(_))));
    assert!(m.is_muted());
    let cmd = m.on_shutdown().expect("restores");
    assert_eq!(cmd.call, PlatformCall::SetSpotifyVolume(100));
    let err = m.complete(Err(PlatformError::Execution("y".to_string())));
    assert!(err.is_err());
    assert!(m.is_muted());
    let _ = m.on_shutdown().expect("restores");
    assert_eq!(
        m.complete(Ok(())).unwrap(),
        Some(ActionLogEvent::RestoredSpotifyOnShutdown { restored_volume: 100 })
    );
    assert!(!m.is_muted());
}

#[test]
fn system_mute_cycle() {
    let mut m = ActionManager::with_state_file(AdAction::Mute, state_path("c.state"));
    let cmd = m.on_ad_start(&test_track(50)).expect("mutes");
    assert_eq!(cmd.before, Some(StateFileOp::Write("system".to_string())));
    assert_eq!(cmd.call, PlatformCall::SetSystemMuted(true));
    assert_eq!(m.complete(Ok(())).unwrap(), Some(ActionLogEvent::SystemMuted));
    let cmd = m.on_media_start(&test_track(50)).expect("unmutes");
    assert_eq!(cmd.call, PlatformCall::SetSystemMuted(false));
    assert_eq!(cmd.after, Some(StateFileOp::Remove));
    assert_eq!(m.complete(Ok(())).unwrap(), Some(ActionLogEvent::SystemUnmuted));
    assert!(!m.is_muted());
}

#[test]
fn crash_recovery_on_startup() {
    let mut m = ActionManager::with_state_file(AdAction::SpotifyMute, state_path("d.state"));
    let written = match m.on_ad_start(&test_track(66)).unwrap().before {
        Some(StateFileOp::Write(text)) => text,
        _ => panic!("expected a write"),
    };
    let mut fresh = ActionManager::with_state_file(AdAction::SpotifyMute, state_path("d.state"));
    let cmd = fresh.init(parse_saved_state(&written)).expect("recovers");
    assert_eq!(cmd.call, PlatformCall::SetSpotifyVolume(66));
    assert_eq!(cmd.after, Some(StateFileOp::Remove));
    assert_eq!(
        fresh.complete(Ok(())).unwrap(),
        Some(ActionLogEvent::RecoveredSpotifyOnStartup { restored_volume: 66 })
    );
    let mut sys = ActionManager::with_state_file(AdAction::Mute, state_path("e.state"));
    let cmd = sys.init(Some(SavedState::SystemMuted)).expect("recovers");
    assert_eq!(cmd.call, PlatformCall::SetSystemMuted(false));
    assert_eq!(sys.complete(Ok(())).unwrap(), Some(ActionLogEvent::RecoveredSystemOnStartup));
    assert_eq!(sys.init(None), None);
}
