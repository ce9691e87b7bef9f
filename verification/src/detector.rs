//! Telling ads from music and podcasts, and turning a stream of snapshots into the
//! events worth reporting.
use vstd::prelude::*;

use crate::platform::{PlayerState, TrackInfo, TrackView};
use crate::text::{eq_ignore_ascii_case, eq_ignore_case, has_prefix, starts_with};

verus! {

/// Why a track was taken for an ad.
#[derive(Debug, Clone, Copy, PartialEq, Eq, Structural)]
pub enum AdReason {
    ExplicitAdUri,
    NonStandardUri,
    EmptyUriWhilePlaying,
    ZeroTrackNumber,
    AdvertisementTitle,
}

impl AdReason {
    pub open spec fn describe_spec(&self) -> Seq<char> {
        match self {
            AdReason::ExplicitAdUri => "URI matches Spotify ad scheme"@,
            AdReason::NonStandardUri => "Non-track/podcast URI playing"@,
            AdReason::EmptyUriWhilePlaying => "Empty track URI during playback"@,
            AdReason::ZeroTrackNumber => "Track number is 0 with ad metadata"@,
            AdReason::AdvertisementTitle => "Track title is 'Advertisement'"@,
        }
    }

    /// The reason as it is shown to a reader.
    pub fn describe(&self) -> (r: &'static str)
        ensures
            r@ == self.describe_spec(),
    {
        match self {
            AdReason::ExplicitAdUri => "URI matches Spotify ad scheme",
            AdReason::NonStandardUri => "Non-track/podcast URI playing",
            AdReason::EmptyUriWhilePlaying => "Empty track URI during playback",
            AdReason::ZeroTrackNumber => "Track number is 0 with ad metadata",
            AdReason::AdvertisementTitle => "Track title is 'Advertisement'",
        }
    }
}

/// What is playing.
#[derive(Debug, Clone, Copy, PartialEq, Eq, Structural)]
pub enum MediaClassification {
    Music,
    Podcast,
    Ad(AdReason),
    Inactive,
}

impl MediaClassification {
    pub open spec fn describe_spec(&self) -> Seq<char> {
        match self {
            MediaClassification::Music => "Music"@,
            MediaClassification::Podcast => "Podcast"@,
            MediaClassification::Ad(r) => "Ad ("@ + r.describe_spec() + ")"@,
            MediaClassification::Inactive => "Inactive"@,
        }
    }

    /// The classification as it is shown to a reader.
    pub fn describe(&self) -> (r: String)
        ensures
            r@ == self.describe_spec(),
    {
        match self {
            MediaClassification::Music => String::from_str("Music"),
            MediaClassification::Podcast => String::from_str("Podcast"),
            MediaClassification::Ad(reason) => {
                let mut r = String::from_str("Ad (");
                r.append(reason.describe());
                r.append(")");
                r
            },
            MediaClassification::Inactive => String::from_str("Inactive"),
        }
    }
}

/// How a snapshot is classified. The first rule that applies decides:
/// not playing; an ad URI; a title "advertisement" in any ASCII case; an empty URI;
/// a track URI (an ad when its number is 0 and its artist is empty or "spotify");
/// an episode URI; any other URI is an ad.
pub open spec fn classify(t: TrackView) -> MediaClassification {
    if t.state != PlayerState::Playing {
        MediaClassification::Inactive
    } else if has_prefix(t.uri, "spotify:ad:"@) || has_prefix(t.uri, "spotify:advertisement:"@) {
        MediaClassification::Ad(AdReason::ExplicitAdUri)
    } else if eq_ignore_case(t.title, "advertisement"@) {
        MediaClassification::Ad(AdReason::AdvertisementTitle)
    } else if t.uri.len() == 0 {
        MediaClassification::Ad(AdReason::EmptyUriWhilePlaying)
    } else if has_prefix(t.uri, "spotify:track:"@) {
        if t.track_number == 0 && (t.artist.len() == 0 || eq_ignore_case(t.artist, "spotify"@)) {
            MediaClassification::Ad(AdReason::ZeroTrackNumber)
        } else {
            MediaClassification::Music
        }
    } else if has_prefix(t.uri, "spotify:episode:"@) {
        MediaClassification::Podcast
    } else {
        MediaClassification::Ad(AdReason::NonStandardUri)
    }
}

/// Classifies one snapshot.
pub fn classify_track(info: &TrackInfo) -> (c: MediaClassification)
    ensures
        c == classify(info@),
{
    if info.state != PlayerState::Playing {
        return MediaClassification::Inactive;
    }
    let uri = info.uri.as_str();
    if starts_with(uri, "spotify:ad:") || starts_with(uri, "spotify:advertisement:") {
        return MediaClassification::Ad(AdReason::ExplicitAdUri);
    }
    if eq_ignore_ascii_case(info.title.as_str(), "advertisement") {
        return MediaClassification::Ad(AdReason::AdvertisementTitle);
    }
    if uri.is_empty() {
        return MediaClassification::Ad(AdReason::EmptyUriWhilePlaying);
    }
    if starts_with(uri, "spotify:track:") {
        let artist = info.artist.as_str();
        if info.track_number == 0 && (artist.is_empty() || eq_ignore_ascii_case(artist, "spotify")) {
            return MediaClassification::Ad(AdReason::ZeroTrackNumber);
        }
        return MediaClassification::Music;
    }
    if starts_with(uri, "spotify:episode:") {
        return MediaClassification::Podcast;
    }
    MediaClassification::Ad(AdReason::NonStandardUri)
}

/// Something worth reporting about the player.
#[derive(Debug, Clone, PartialEq, Eq)]
#[allow(inconsistent_fields)]
pub enum DetectionEvent {
    AdStarted { title: String, artist: String, uri: String, reason: AdReason },
    MediaStarted { title: String, artist: String, uri: String, is_podcast: bool },
    StateChanged { previous: Option<PlayerState>, current: PlayerState },
    VolumeChanged { previous: u32, current: u32 },
}

/// An event with its texts taken as character sequences.
#[allow(inconsistent_fields)]
pub enum EventView {
    AdStarted { title: Seq<char>, artist: Seq<char>, uri: Seq<char>, reason: AdReason },
    MediaStarted { title: Seq<char>, artist: Seq<char>, uri: Seq<char>, is_podcast: bool },
    StateChanged { previous: Option<PlayerState>, current: PlayerState },
    VolumeChanged { previous: u32, current: u32 },
}

impl View for DetectionEvent {
    type V = EventView;

    open spec fn view(&self) -> EventView {
        match self {
            DetectionEvent::AdStarted { title, artist, uri, reason } => EventView::AdStarted {
                title: title@,
                artist: artist@,
                uri: uri@,
                reason: *reason,
            },
            DetectionEvent::MediaStarted { title, artist, uri, is_podcast } =>
                EventView::MediaStarted {
                title: title@,
                artist: artist@,
                uri: uri@,
                is_podcast: *is_podcast,
            },
            DetectionEvent::StateChanged { previous, current } => EventView::StateChanged {
                previous: *previous,
                current: *current,
            },
            DetectionEvent::VolumeChanged { previous, current } => EventView::VolumeChanged {
                previous: *previous,
                current: *current,
            },
        }
    }
}

/// An optional event taken as its view.
pub open spec fn event_view(e: Option<DetectionEvent>) -> Option<EventView> {
    match e {
        Some(ev) => Some(ev@),
        None => None,
    }
}

/// What the detector remembers of the previous snapshot.
pub struct DetectorState {
    last_uri: Option<String>,
    last_state: Option<PlayerState>,
    last_classification: Option<MediaClassification>,
    last_volume: Option<u32>,
}

/// The detector's memory with texts taken as character sequences.
pub struct DetectorView {
    pub last_uri: Option<Seq<char>>,
    pub last_state: Option<PlayerState>,
    pub last_classification: Option<MediaClassification>,
    pub last_volume: Option<u32>,
}

impl View for DetectorState {
    type V = DetectorView;

    closed spec fn view(&self) -> DetectorView {
        DetectorView {
            last_uri: match self.last_uri {
                Some(u) => Some(u@),
                None => None,
            },
            last_state: self.last_state,
            last_classification: self.last_classification,
            last_volume: self.last_volume,
        }
    }
}

/// A detector that has seen nothing yet.
pub open spec fn fresh_detector() -> DetectorView {
    DetectorView { last_uri: None, last_state: None, last_classification: None, last_volume: None }
}

/// The event that announces what starts playing, if anything does.
pub open spec fn start_event(c: MediaClassification, t: TrackView) -> Option<EventView> {
    match c {
        MediaClassification::Ad(reason) => Some(
            EventView::AdStarted { title: t.title, artist: t.artist, uri: t.uri, reason },
        ),
        MediaClassification::Music => Some(
            EventView::MediaStarted { title: t.title, artist: t.artist, uri: t.uri, is_podcast: false },
        ),
        MediaClassification::Podcast => Some(
            EventView::MediaStarted { title: t.title, artist: t.artist, uri: t.uri, is_podcast: true },
        ),
        MediaClassification::Inactive => None,
    }
}

/// Whether the volume moved since the last snapshot while the player was running.
pub open spec fn volume_moved(d: DetectorView, t: TrackView) -> bool {
    match d.last_volume {
        Some(prev) => prev != t.volume && t.state != PlayerState::NotRunning && t.state
            != PlayerState::Stopped,
        None => false,
    }
}

/// The event that a snapshot gives after what the detector remembers. While playing,
/// a new URI or a new classification announces the start of what plays; otherwise a
/// moved volume is reported. While not playing, a new state is reported first, then
/// a moved volume.
pub open spec fn next_event(d: DetectorView, t: TrackView) -> Option<EventView> {
    let c = classify(t);
    let volume_event = Some(
        EventView::VolumeChanged {
            previous: match d.last_volume {
                Some(p) => p,
                None => t.volume,
            },
            current: t.volume,
        },
    );
    if t.state == PlayerState::Playing {
        if d.last_uri != Some(t.uri) || d.last_classification != Some(c) {
            start_event(c, t)
        } else if volume_moved(d, t) {
            volume_event
        } else {
            None
        }
    } else if d.last_state != Some(t.state) {
        Some(EventView::StateChanged { previous: d.last_state, current: t.state })
    } else if volume_moved(d, t) {
        volume_event
    } else {
        None
    }
}

/// What the detector remembers after a snapshot: that snapshot.
pub open spec fn remember(t: TrackView) -> DetectorView {
    DetectorView {
        last_uri: Some(t.uri),
        last_state: Some(t.state),
        last_classification: Some(classify(t)),
        last_volume: Some(t.volume),
    }
}

impl DetectorState {
    /// A detector that has seen nothing yet.
    pub fn new() -> (d: Self)
        ensures
            d@ == fresh_detector(),
    {
        DetectorState {
            last_uri: None,
            last_state: None,
            last_classification: None,
            last_volume: None,
        }
    }

    fn same_state(&self, s: PlayerState) -> (r: bool)
        ensures
            r == (self.last_state == Some(s)),
    {
        match self.last_state {
            Some(p) => p == s,
            None => false,
        }
    }

    fn same_uri(&self, uri: &String) -> (r: bool)
        ensures
            r == (self@.last_uri == Some(uri@)),
    {
        match &self.last_uri {
            Some(u) => *u == *uri,
            None => false,
        }
    }

    fn same_classification(&self, c: MediaClassification) -> (r: bool)
        ensures
            r == (self.last_classification == Some(c)),
    {
        match self.last_classification {
            Some(p) => p == c,
            None => false,
        }
    }

    /// Takes in one snapshot and gives the event it causes, if any; the snapshot is
    /// remembered for the next call.
    pub fn process(&mut self, info: &TrackInfo) -> (event: Option<DetectionEvent>)
        ensures
            event_view(event) == next_event(old(self)@, info@),
            final(self)@ == remember(info@),
    {
        let classification = classify_track(info);
        let state_changed = !self.same_state(info.state);
        let uri_changed = !self.same_uri(&info.uri);
        let volume_changed = match self.last_volume {
            Some(prev) => prev != info.volume && info.state != PlayerState::NotRunning
                && info.state != PlayerState::Stopped,
            None => false,
        };
        let previous_volume = match self.last_volume {
            Some(p) => p,
            None => info.volume,
        };
        let event = if info.state == PlayerState::Playing {
            if uri_changed || !self.same_classification(classification) {
                match classification {
                    MediaClassification::Ad(reason) => Some(
                        DetectionEvent::AdStarted {
                            title: info.title.clone(),
                            artist: info.artist.clone(),
                            uri: info.uri.clone(),
                            reason,
                        },
                    ),
                    MediaClassification::Music => Some(
                        DetectionEvent::MediaStarted {
                            title: info.title.clone(),
                            artist: info.artist.clone(),
                            uri: info.uri.clone(),
                            is_podcast: false,
                        },
                    ),
                    MediaClassification::Podcast => Some(
                        DetectionEvent::MediaStarted {
                            title: info.title.clone(),
                            artist: info.artist.clone(),
                            uri: info.uri.clone(),
                            is_podcast: true,
                        },
                    ),
                    MediaClassification::Inactive => None,
                }
            } else if volume_changed {
                Some(DetectionEvent::VolumeChanged { previous: previous_volume, current: info.volume })
            } else {
                None
            }
        } else if state_changed {
            Some(DetectionEvent::StateChanged { previous: self.last_state, current: info.state })
        } else if volume_changed {
            Some(DetectionEvent::VolumeChanged { previous: previous_volume, current: info.volume })
        } else {
            None
        };
        self.last_state = Some(info.state);
        self.last_uri = Some(info.uri.clone());
        self.last_classification = Some(classification);
        self.last_volume = Some(info.volume);
        event
    }
}

/// Only a snapshot of a playing player is classified as something other than inactive.
pub proof fn lemma_inactive_iff_not_playing(t: TrackView)
    ensures
        (classify(t) == MediaClassification::Inactive) <==> t.state != PlayerState::Playing,
{
}

/// Seeing the same snapshot twice in a row reports nothing the second time.
pub proof fn lemma_repeated_snapshot_is_quiet(t: TrackView)
    ensures
        next_event(remember(t), t) is None,
{
}

/// The first snapshot of a playing player announces what plays.
pub proof fn lemma_first_playing_snapshot_announces(t: TrackView)
    requires
        t.state == PlayerState::Playing,
    ensures
        next_event(fresh_detector(), t) == start_event(classify(t), t),
        next_event(fresh_detector(), t) is Some,
{
}

/// A detector that has seen nothing reports no volume change.
pub proof fn lemma_no_volume_change_without_history(t: TrackView)
    ensures
        !(next_event(fresh_detector(), t) matches Some(EventView::VolumeChanged { .. })),
{
}

/// An ad is announced only for a snapshot classified as an ad, with that reason and
/// with the snapshot's title, artist and URI.
pub proof fn lemma_ad_event_matches_classification(d: DetectorView, t: TrackView)
    ensures
        next_event(d, t) matches Some(EventView::AdStarted { title, artist, uri, reason }) ==> {
            &&& classify(t) == MediaClassification::Ad(reason)
            &&& title == t.title
            &&& artist == t.artist
            &&& uri == t.uri
        },
{
}

/// While an ad keeps playing under the same URI, it is announced once: the next
/// snapshot of it gives no new announcement.
pub proof fn lemma_ad_announced_once(t: TrackView, later: TrackView)
    requires
        classify(t) is Ad,
        later.state == t.state,
        later.uri == t.uri,
        classify(later) == classify(t),
    ensures
        !(next_event(remember(t), later) matches Some(EventView::AdStarted { .. })),
{
}

/// A playing snapshot under a URI other than the remembered one is always announced,
/// even when it is classified as what played before: an ad with its reason, music or
/// a podcast as started media, each with the snapshot's title, artist and URI.
pub proof fn lemma_new_uri_is_announced(d: DetectorView, t: TrackView)
    requires
        t.state == PlayerState::Playing,
        d.last_uri != Some(t.uri),
    ensures
        next_event(d, t) is Some,
        match classify(t) {
            MediaClassification::Ad(r) => next_event(d, t) == Some(
                EventView::AdStarted { title: t.title, artist: t.artist, uri: t.uri, reason: r },
            ),
            MediaClassification::Music => next_event(d, t) == Some(
                EventView::MediaStarted { title: t.title, artist: t.artist, uri: t.uri, is_podcast: false },
            ),
            MediaClassification::Podcast => next_event(d, t) == Some(
                EventView::MediaStarted { title: t.title, artist: t.artist, uri: t.uri, is_podcast: true },
            ),
            MediaClassification::Inactive => false,
        },
{
}

/// Two playing snapshots in a row with different URIs: the second is announced as a
/// start, whatever the first was.
pub proof fn lemma_next_track_is_announced(first: TrackView, second: TrackView)
    requires
        second.state == PlayerState::Playing,
        first.uri != second.uri,
    ensures
        next_event(remember(first), second) matches Some(e) && (e is AdStarted || e is MediaStarted),
        next_event(remember(first), second) matches Some(EventView::MediaStarted { uri, is_podcast, .. })
            ==> uri == second.uri && is_podcast == (classify(second) == MediaClassification::Podcast),
{
    lemma_new_uri_is_announced(remember(first), second);
}

/// The classification rules one by one, for a playing snapshot: an ad URI makes an
/// ad of that kind whatever else holds; the title "advertisement" makes an ad for any
/// other URI; an empty URI is an ad; a track is music unless it has number 0 and no
/// artist or the artist "spotify"; an episode is a podcast; any other URI is an ad.
pub proof fn lemma_classification_rules(t: TrackView)
    requires
        t.state == PlayerState::Playing,
    ensures
        has_prefix(t.uri, "spotify:ad:"@) ==> classify(t) == MediaClassification::Ad(
            AdReason::ExplicitAdUri,
        ),
        has_prefix(t.uri, "spotify:advertisement:"@) ==> classify(t) == MediaClassification::Ad(
            AdReason::ExplicitAdUri,
        ),
        classify(t) == MediaClassification::Ad(AdReason::AdvertisementTitle) ==> eq_ignore_case(
            t.title,
            "advertisement"@,
        ),
        t.uri.len() == 0 && !eq_ignore_case(t.title, "advertisement"@) ==> classify(t)
            == MediaClassification::Ad(AdReason::EmptyUriWhilePlaying),
        classify(t) == MediaClassification::Music ==> has_prefix(t.uri, "spotify:track:"@) && (
        t.track_number != 0 || (t.artist.len() != 0 && !eq_ignore_case(t.artist, "spotify"@))),
        classify(t) == MediaClassification::Ad(AdReason::ZeroTrackNumber) ==> t.track_number == 0
            && has_prefix(t.uri, "spotify:track:"@),
        classify(t) == MediaClassification::Podcast ==> has_prefix(t.uri, "spotify:episode:"@),
        classify(t) != MediaClassification::Inactive,
        classify(t) == MediaClassification::Ad(AdReason::NonStandardUri) ==> !has_prefix(
            t.uri,
            "spotify:track:"@,
        ) && !has_prefix(t.uri, "spotify:episode:"@) && t.uri.len() != 0,
{
    reveal_strlit("spotify:ad:");
    reveal_strlit("spotify:advertisement:");
}

impl Default for DetectorState {
    fn default() -> (d: Self)
        ensures
            d@ == fresh_detector(),
    {
        DetectorState::new()
    }
}

} // verus!
