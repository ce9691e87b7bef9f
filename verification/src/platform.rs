//! What the player reports and how its status line is read, and the scripts that
//! change volume and muting. Running the scripts is left to the caller.
use vstd::prelude::*;

use crate::text::{
    decimal, eq_ignore_ascii_case, eq_ignore_case, is_space, lemma_decimal_digits,
    lemma_fold_differs, lemma_parse_decimal, lemma_split_at_tab, lemma_split_no_tab, no_tab, parse_u32,
    parse_unsigned, push_decimal, split_tab_fields, split_tabs, trim, trim_end, trim_start,
    trim_str,
};

verus! {

/// The playback state of the player.
#[derive(Debug, Clone, Copy, PartialEq, Eq, Structural)]
pub enum PlayerState {
    Playing,
    Paused,
    Stopped,
    NotRunning,
    Unknown,
}

impl PlayerState {
    /// The state as it is shown to a reader.
    pub fn label(&self) -> (r: &'static str)
        ensures
            r@ == self.label_spec(),
    {
        proof {
            reveal_strlit("Playing");
            reveal_strlit("Paused");
            reveal_strlit("Stopped");
            reveal_strlit("Not Running");
            reveal_strlit("Unknown");
        }
        match self {
            PlayerState::Playing => "Playing",
            PlayerState::Paused => "Paused",
            PlayerState::Stopped => "Stopped",
            PlayerState::NotRunning => "Not Running",
            PlayerState::Unknown => "Unknown",
        }
    }

    pub open spec fn label_spec(&self) -> Seq<char> {
        match self {
            PlayerState::Playing => "Playing"@,
            PlayerState::Paused => "Paused"@,
            PlayerState::Stopped => "Stopped"@,
            PlayerState::NotRunning => "Not Running"@,
            PlayerState::Unknown => "Unknown"@,
        }
    }
}

/// One snapshot of what the player is doing.
#[derive(Debug, Clone, PartialEq, Eq)]
pub struct TrackInfo {
    pub state: PlayerState,
    pub uri: String,
    pub title: String,
    pub artist: String,
    pub track_number: u32,
    pub volume: u32,
}

/// A snapshot with its texts taken as character sequences.
pub struct TrackView {
    pub state: PlayerState,
    pub uri: Seq<char>,
    pub title: Seq<char>,
    pub artist: Seq<char>,
    pub track_number: u32,
    pub volume: u32,
}

impl View for TrackInfo {
    type V = TrackView;

    open spec fn view(&self) -> TrackView {
        TrackView {
            state: self.state,
            uri: self.uri@,
            title: self.title@,
            artist: self.artist@,
            track_number: self.track_number,
            volume: self.volume,
        }
    }
}

/// A failure to talk to the player.
#[derive(Debug)]
pub enum PlatformError {
    Execution(String),
    OutputDecode(String),
}

impl PlatformError {
    pub open spec fn message_spec(&self) -> Seq<char> {
        match self {
            PlatformError::Execution(e) => "AppleScript execution error: "@ + e@,
            PlatformError::OutputDecode(e) => "Failed to decode AppleScript output: "@ + e@,
        }
    }

    /// The error as it is shown to a reader.
    pub fn message(&self) -> (r: String)
        ensures
            r@ == self.message_spec(),
    {
        match self {
            PlatformError::Execution(e) => {
                let mut r = String::from_str("AppleScript execution error: ");
                r.append(e.as_str());
                r
            },
            PlatformError::OutputDecode(e) => {
                let mut r = String::from_str("Failed to decode AppleScript output: ");
                r.append(e.as_str());
                r
            },
        }
    }
}

/// The script that asks the player for its state, its current track and its volume,
/// answered as one line of tab-separated fields.
pub const SPOTIFY_STATUS_SCRIPT: &'static str =
    "if application \"Spotify\" is running then
    tell application \"Spotify\"
        try
            set pState to player state as string
            if pState is \"stopped\" then
                return \"stopped\" & tab & tab & tab & tab & \"0\" & tab & \"0\"
            end if
            set sUrl to spotify url of current track
            set sName to name of current track
            set sArtist to artist of current track
            set sNum to track number of current track
            set sVol to sound volume
            return pState & tab & sUrl & tab & sName & tab & sArtist & tab & sNum & tab & sVol
        on error
            return \"unknown\" & tab & tab & tab & tab & \"0\" & tab & \"0\"
        end try
    end tell
else
    return \"not_running\" & tab & tab & tab & tab & \"0\" & tab & \"0\"
end if";

/// The player state that the first field of a status line names, whatever its
/// ASCII case. (No state name holds a letter that a non-ASCII character lower-cases
/// to, so full lower-casing and ASCII case folding agree here.)
pub open spec fn state_from_field(f: Seq<char>) -> PlayerState {
    if eq_ignore_case(f, "playing"@) {
        PlayerState::Playing
    } else if eq_ignore_case(f, "paused"@) {
        PlayerState::Paused
    } else if eq_ignore_case(f, "stopped"@) {
        PlayerState::Stopped
    } else if eq_ignore_case(f, "not_running"@) {
        PlayerState::NotRunning
    } else {
        PlayerState::Unknown
    }
}

/// Field `k` of a status line without surrounding white space, or empty when missing.
pub open spec fn text_field(parts: Seq<Seq<char>>, k: int) -> Seq<char> {
    if k < parts.len() {
        trim(parts[k])
    } else {
        Seq::<char>::empty()
    }
}

/// Field `k` of a status line read as a number; 0 when missing or unreadable.
pub open spec fn number_field(parts: Seq<Seq<char>>, k: int) -> u32 {
    if k < parts.len() {
        match parse_unsigned(trim(parts[k]), u32::MAX as int) {
            Some(v) => v as u32,
            None => 0,
        }
    } else {
        0
    }
}

/// The snapshot that a status line describes: state, URI, title, artist, track
/// number and volume, separated by tabs.
pub open spec fn status_view(raw: Seq<char>) -> TrackView {
    let parts = split_tabs(raw);
    TrackView {
        state: state_from_field(parts[0]),
        uri: text_field(parts, 1),
        title: text_field(parts, 2),
        artist: text_field(parts, 3),
        track_number: number_field(parts, 4),
        volume: number_field(parts, 5),
    }
}

fn state_of_field(f: &str) -> (r: PlayerState)
    ensures
        r == state_from_field(f@),
{
    if eq_ignore_ascii_case(f, "playing") {
        PlayerState::Playing
    } else if eq_ignore_ascii_case(f, "paused") {
        PlayerState::Paused
    } else if eq_ignore_ascii_case(f, "stopped") {
        PlayerState::Stopped
    } else if eq_ignore_ascii_case(f, "not_running") {
        PlayerState::NotRunning
    } else {
        PlayerState::Unknown
    }
}

fn text_of_field(parts: &Vec<&str>, k: usize) -> (r: String)
    ensures
        r@ == text_field(parts@.map_values(|p: &str| p@), k as int),
{
    if k < parts.len() {
        String::from_str(trim_str(parts[k]))
    } else {
        String::new()
    }
}

fn number_of_field(parts: &Vec<&str>, k: usize) -> (r: u32)
    ensures
        r == number_field(parts@.map_values(|p: &str| p@), k as int),
{
    if k < parts.len() {
        match parse_u32(trim_str(parts[k])) {
            Some(v) => v,
            None => 0,
        }
    } else {
        0
    }
}

/// Reads one status line of the player. Missing or unreadable fields give an unknown
/// state, empty texts and zero numbers.
pub fn parse_status_output(raw: &str) -> (info: TrackInfo)
    ensures
        info@ == status_view(raw@),
{
    let parts = split_tab_fields(raw);
    let ghost views = parts@.map_values(|p: &str| p@);
    proof {
        assert(views =~= split_tabs(raw@));
        assert(views[0] == parts@[0]@);
    }
    let state = state_of_field(parts[0]);
    let uri = text_of_field(&parts, 1);
    let title = text_of_field(&parts, 2);
    let artist = text_of_field(&parts, 3);
    let track_number = number_of_field(&parts, 4);
    let volume = number_of_field(&parts, 5);
    TrackInfo { state, uri, title, artist, track_number, volume }
}

pub open spec fn spotify_volume_script_spec(volume: u32) -> Seq<char> {
    "if application \"Spotify\" is running then tell application \"Spotify\" to set sound volume to "@
        + decimal(volume as nat)
}

/// The script that sets the player's own volume to `volume`.
pub fn spotify_volume_script(volume: u32) -> (r: String)
    ensures
        r@ == spotify_volume_script_spec(volume),
{
    let mut r = String::from_str(
        "if application \"Spotify\" is running then tell application \"Spotify\" to set sound volume to ",
    );
    push_decimal(&mut r, volume as u64);
    r
}

pub open spec fn system_mute_script_spec(muted: bool) -> Seq<char> {
    if muted {
        "set volume with output muted"@
    } else {
        "set volume without output muted"@
    }
}

/// The script that mutes or unmutes the system audio output.
pub fn system_mute_script(muted: bool) -> (r: &'static str)
    ensures
        r@ == system_mute_script_spec(muted),
{
    if muted {
        "set volume with output muted"
    } else {
        "set volume without output muted"
    }
}

/// A status line as the status script writes it: the fields joined by tabs.
pub open spec fn status_line(state: Seq<char>, uri: Seq<char>, title: Seq<char>, artist: Seq<char>, track_number: u32, volume: u32) -> Seq<char> {
    let tab = seq!['\t'];
    state + tab + uri + tab + title + tab + artist + tab + decimal(track_number as nat) + tab
        + decimal(volume as nat)
}

proof fn lemma_decimal_is_trimmed(n: nat)
    ensures
        trim(decimal(n)) == decimal(n),
        no_tab(decimal(n)),
{
    lemma_decimal_digits(n);
    let d = decimal(n);
    assert(!is_space(d[0]));
    assert(trim_start(d) == d);
    assert(!is_space(d[d.len() - 1]));
    assert(trim_end(d) == d);
}

/// Reading a status line gives back the fields it was written from, when the texts
/// hold no tab and no surrounding white space.
pub proof fn lemma_status_line_round_trip(state: Seq<char>, uri: Seq<char>, title: Seq<char>, artist: Seq<char>, track_number: u32, volume: u32)
    requires
        no_tab(state),
        no_tab(uri),
        no_tab(title),
        no_tab(artist),
        trim(uri) == uri,
        trim(title) == title,
        trim(artist) == artist,
    ensures
        status_view(status_line(state, uri, title, artist, track_number, volume)) == (TrackView {
            state: state_from_field(state),
            uri,
            title,
            artist,
            track_number,
            volume,
        }),
{
    let tab = seq!['\t'];
    let dn = decimal(track_number as nat);
    let dv = decimal(volume as nat);
    lemma_decimal_is_trimmed(track_number as nat);
    lemma_decimal_is_trimmed(volume as nat);
    lemma_parse_decimal(track_number as nat, u32::MAX as int);
    lemma_parse_decimal(volume as nat, u32::MAX as int);
    let p1 = state;
    let p2 = p1 + tab + uri;
    let p3 = p2 + tab + title;
    let p4 = p3 + tab + artist;
    let p5 = p4 + tab + dn;
    let p6 = p5 + tab + dv;
    lemma_split_no_tab(state);
    lemma_split_no_tab(uri);
    lemma_split_no_tab(title);
    lemma_split_no_tab(artist);
    lemma_split_no_tab(dn);
    lemma_split_no_tab(dv);
    lemma_split_at_tab(p1, uri);
    lemma_split_at_tab(p2, title);
    lemma_split_at_tab(p3, artist);
    lemma_split_at_tab(p4, dn);
    lemma_split_at_tab(p5, dv);
    let parts = split_tabs(p6);
    assert(parts =~= seq![state, uri, title, artist, dn, dv]);
    assert(p6 == status_line(state, uri, title, artist, track_number, volume));
}

/// Each state name in the first field of a status line, in any ASCII case, gives its
/// own state; any other field gives the unknown state.
pub proof fn lemma_state_names(f: Seq<char>)
    ensures
        eq_ignore_case(f, "playing"@) ==> state_from_field(f) == PlayerState::Playing,
        eq_ignore_case(f, "paused"@) ==> state_from_field(f) == PlayerState::Paused,
        eq_ignore_case(f, "stopped"@) ==> state_from_field(f) == PlayerState::Stopped,
        eq_ignore_case(f, "not_running"@) ==> state_from_field(f) == PlayerState::NotRunning,
        !eq_ignore_case(f, "playing"@) && !eq_ignore_case(f, "paused"@) && !eq_ignore_case(
            f,
            "stopped"@,
        ) && !eq_ignore_case(f, "not_running"@) ==> state_from_field(f) == PlayerState::Unknown,
{
    reveal_strlit("playing");
    reveal_strlit("paused");
    reveal_strlit("stopped");
    reveal_strlit("not_running");
    let pl = "playing"@;
    let pa = "paused"@;
    let st = "stopped"@;
    let nr = "not_running"@;
    if eq_ignore_case(f, pa) {
        lemma_fold_differs(f, pa, pl, 1);
    }
    if eq_ignore_case(f, st) {
        lemma_fold_differs(f, st, pl, 0);
        lemma_fold_differs(f, st, pa, 0);
    }
    if eq_ignore_case(f, nr) {
        lemma_fold_differs(f, nr, pl, 0);
        lemma_fold_differs(f, nr, pa, 0);
        lemma_fold_differs(f, nr, st, 0);
    }
}

/// A status line whose first field names a state reads as that state, whatever the
/// other fields hold.
pub proof fn lemma_status_line_state(raw: Seq<char>)
    ensures
        eq_ignore_case(split_tabs(raw)[0], "stopped"@) ==> status_view(raw).state == PlayerState::Stopped,
        eq_ignore_case(split_tabs(raw)[0], "playing"@) ==> status_view(raw).state == PlayerState::Playing,
        eq_ignore_case(split_tabs(raw)[0], "paused"@) ==> status_view(raw).state == PlayerState::Paused,
        eq_ignore_case(split_tabs(raw)[0], "not_running"@) ==> status_view(raw).state
            == PlayerState::NotRunning,
{
    lemma_state_names(split_tabs(raw)[0]);
}

} // verus!
