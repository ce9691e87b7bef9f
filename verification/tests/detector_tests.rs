use wuspotify_muter::{
    classify_track, AdReason, DetectionEvent, DetectorState, MediaClassification, PlayerState,
    TrackInfo,
};

fn sample_track(
    state: PlayerState,
    uri: &str,
    title: &str,
    artist: &str,
    num: u32,
    volume: u32,
) -> TrackInfo {
    TrackInfo {
        state,
        uri: uri.to_string(),
        title: title.to_string(),
        artist: artist.to_string(),
        track_number: num,
        volume,
    }
}

#[test]
fn classifies_regular_song_as_music() {
    let track = sample_track(
        PlayerState::Playing,
        "spotify:track:4cOdK2wGLETKBW3PvgPWqT",
        "Song",
        "Artist",
        1,
        50,
    );
    assert_eq!(classify_track(&track), MediaClassification::Music);
}

#[test]
fn classifies_podcast_episode() {
    let track = sample_track(
        PlayerState::Playing,
        "spotify:episode:5k3v",
        "Episode Title",
        "Podcast Host",
        0,
        50,
    );
    assert_eq!(classify_track(&track), MediaClassification::Podcast);
}

#[test]
fn classifies_explicit_ad_uri() {
    let track = sample_track(
        PlayerState::Playing,
        "spotify:ad:098234",
        "Sponsor",
        "Spotify",
        0,
        50,
    );
    assert_eq!(
        classify_track(&track),
        MediaClassification::Ad(AdReason::ExplicitAdUri)
    );
}

#[test]
fn classifies_advertisement_title() {
    let track = sample_track(
        PlayerState::Playing,
        "spotify:track:unknown",
        "Advertisement",
        "Spotify",
        0,
        50,
    );
    assert_eq!(
        classify_track(&track),
        MediaClassification::Ad(AdReason::AdvertisementTitle)
    );
}

#[test]
fn classifies_empty_uri_as_ad() {
    let track = sample_track(PlayerState::Playing, "", "Ad Title", "", 0, 50);
    assert_eq!(
        classify_track(&track),
        MediaClassification::Ad(AdReason::EmptyUriWhilePlaying)
    );
}

#[test]
fn classifies_inactive_when_paused() {
    let track = sample_track(
        PlayerState::Paused,
        "spotify:track:123",
        "Song",
        "Artist",
        1,
        50,
    );
    assert_eq!(classify_track(&track), MediaClassification::Inactive);
}

#[test]
fn detector_emits_event_on_ad_start() {
    let mut detector = DetectorState::new();

    let track1 = sample_track(
        PlayerState::Playing,
        "spotify:track:1",
        "Song A",
        "Artist A",
        1,
        50,
    );
    let event1 = detector.process(&track1);
    assert!(matches!(event1, Some(DetectionEvent::MediaStarted { .. })));

    let ad_track = sample_track(
        PlayerState::Playing,
        "spotify:ad:999",
        "Sponsor",
        "Spotify",
        0,
        50,
    );
    let event2 = detector.process(&ad_track);
    assert_eq!(
        event2,
        Some(DetectionEvent::AdStarted {
            title: "Sponsor".to_string(),
            artist: "Spotify".to_string(),
            uri: "spotify:ad:999".to_string(),
            reason: AdReason::ExplicitAdUri,
        })
    );
}

#[test]
fn detector_emits_event_on_volume_change() {
    let mut detector = DetectorState::new();

    let track1 = sample_track(
        PlayerState::Playing,
        "spotify:track:1",
        "Song A",
        "Artist A",
        1,
        50,
    );
    let _ = detector.process(&track1);

    let track2 = sample_track(
        PlayerState::Playing,
        "spotify:track:1",
        "Song A",
        "Artist A",
        1,
        85,
    );
    let event2 = detector.process(&track2);
    assert_eq!(
        event2,
        Some(DetectionEvent::VolumeChanged {
            previous: 50,
            current: 85,
        })
    );
}

#[test]
fn classifies_zero_track_number_spotify_artist_as_ad() {
    let track = sample_track(PlayerState::Playing, "spotify:track:9", "Promo", "SPOTIFY", 0, 50);
    assert_eq!(
        classify_track(&track),
        MediaClassification::Ad(AdReason::ZeroTrackNumber)
    );
    let track = sample_track(PlayerState::Playing, "spotify:track:9", "Promo", "", 0, 50);
    assert_eq!(
        classify_track(&track),
        MediaClassification::Ad(AdReason::ZeroTrackNumber)
    );
    let track = sample_track(PlayerState::Playing, "spotify:track:9", "Song", "Band", 0, 50);
    assert_eq!(classify_track(&track), MediaClassification::Music);
}

#[test]
fn classifies_other_uri_and_advertisement_uri_as_ad() {
    let track = sample_track(PlayerState::Playing, "spotify:local:x", "Song", "Band", 3, 50);
    assert_eq!(
        classify_track(&track),
        MediaClassification::Ad(AdReason::NonStandardUri)
    );
    let track = sample_track(PlayerState::Playing, "spotify:advertisement:7", "x", "y", 3, 50);
    assert_eq!(
        classify_track(&track),
        MediaClassification::Ad(AdReason::ExplicitAdUri)
    );
    let track = sample_track(PlayerState::Playing, "spotify:track:7", "aDvErTiSeMeNt", "y", 3, 50);
    assert_eq!(
        classify_track(&track),
        MediaClassification::Ad(AdReason::AdvertisementTitle)
    );
}

#[test]
fn classification_descriptions() {
    assert_eq!(MediaClassification::Music.describe(), "Music");
    assert_eq!(
        MediaClassification::Ad(AdReason::ExplicitAdUri).describe(),
        "Ad (URI matches Spotify ad scheme)"
    );
    assert_eq!(AdReason::AdvertisementTitle.describe(), "Track title is 'Advertisement'");
}

#[test]
fn repeated_snapshot_reports_nothing() {
    let mut detector = DetectorState::new();
    let track = sample_track(PlayerState::Playing, "spotify:ad:1", "Sponsor", "Spotify", 0, 40);
    assert!(matches!(
        detector.process(&track),
        Some(DetectionEvent::AdStarted { .. })
    ));
    assert_eq!(detector.process(&track), None);
    assert_eq!(detector.process(&track), None);
}

#[test]
fn first_snapshot_reports_no_volume_change_and_state_changes_are_reported() {
    let mut detector = DetectorState::new();
    let paused = sample_track(PlayerState::Paused, "spotify:track:1", "Song", "Band", 1, 40);
    assert_eq!(
        detector.process(&paused),
        Some(DetectionEvent::StateChanged {
            previous: None,
            current: PlayerState::Paused,
        })
    );
    let paused_louder = sample_track(PlayerState::Paused, "spotify:track:1", "Song", "Band", 1, 60);
    assert_eq!(
        detector.process(&paused_louder),
        Some(DetectionEvent::VolumeChanged {
            previous: 40,
            current: 60,
        })
    );
    let stopped = sample_track(PlayerState::Stopped, "", "", "", 0, 0);
    assert_eq!(
        detector.process(&stopped),
        Some(DetectionEvent::StateChanged {
            previous: Some(PlayerState::Paused),
            current: PlayerState::Stopped,
        })
    );
    let stopped_quiet = sample_track(PlayerState::Stopped, "", "", "", 0, 30);
    assert_eq!(detector.process(&stopped_quiet), None);
}
