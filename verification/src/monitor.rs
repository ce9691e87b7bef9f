//! The monitoring loop's decisions and the lines it logs. The caller polls the
//! player, carries out the planned commands, prints, and sleeps between polls.
use vstd::prelude::*;

use crate::action::{
    ad_start_plan, complete_spec, restore_volume, unmute_plan, ActionCommand, ActionLogEvent,
    ActionManager, AdAction, CommandView, FileOpView, ManagerView, PlatformCall, command_view,
};
use crate::config::Config;
use crate::detector::{next_event, remember, event_view, DetectionEvent, DetectorState, EventView};
use crate::platform::{PlatformError, TrackInfo, TrackView};
use crate::text::{decimal, has_prefix, push_decimal, push_two_digits, two_digits};

verus! {

/// A failure that stops the program.
#[derive(Debug)]
pub enum AppError {
    Platform(PlatformError),
}

impl AppError {
    pub open spec fn message_spec(&self) -> Seq<char> {
        match self {
            AppError::Platform(e) => "Platform error: "@ + e.message_spec(),
        }
    }

    /// The error as it is shown to a reader.
    pub fn message(&self) -> (r: String)
        ensures
            r@ == self.message_spec(),
    {
        match self {
            AppError::Platform(e) => {
                let mut r = String::from_str("Platform error: ");
                let m = e.message();
                r.append(m.as_str());
                r
            },
        }
    }
}

impl From<PlatformError> for AppError {
    fn from(err: PlatformError) -> (r: Self)
        ensures
            r == AppError::Platform(err),
    {
        AppError::Platform(err)
    }
}

impl vstd::std_specs::convert::FromSpecImpl<PlatformError> for AppError {
    open spec fn obeys_from_spec() -> bool {
        true
    }

    open spec fn from_spec(err: PlatformError) -> AppError {
        AppError::Platform(err)
    }
}

/// The time of day, `HH:MM:SS` in UTC, of a moment `total_secs` seconds after the
/// Unix epoch.
pub open spec fn clock_spec(total_secs: u64) -> Seq<char> {
    two_digits(((total_secs / 3600) % 24) as nat) + ":"@ + two_digits(((total_secs / 60) % 60) as nat)
        + ":"@ + two_digits((total_secs % 60) as nat)
}

/// Formats the time of day of a moment given in seconds since the Unix epoch.
pub fn format_clock(total_secs: u64) -> (r: String)
    ensures
        r@ == clock_spec(total_secs),
{
    let hours = (total_secs / 3600) % 24;
    let minutes = (total_secs / 60) % 60;
    let seconds = total_secs % 60;
    let mut r = String::new();
    push_two_digits(&mut r, hours);
    r.append(":");
    push_two_digits(&mut r, minutes);
    r.append(":");
    push_two_digits(&mut r, seconds);
    r
}

/// The start of every log line: the time stamp in brackets.
pub open spec fn stamp(ts: Seq<char>) -> Seq<char> {
    "["@ + ts + "] "@
}

fn start_line(ts: &str) -> (r: String)
    ensures
        r@ == stamp(ts@),
{
    let mut r = String::from_str("[");
    r.append(ts);
    r.append("] ");
    r
}

/// The log line for what an action did.
pub open spec fn action_line_spec(ts: Seq<char>, event: ActionLogEvent) -> Seq<char> {
    stamp(ts) + match event {
        ActionLogEvent::SpotifyMuted { previous_volume } => "[ACTION: MUTED] Spotify sound volume: "@
            + decimal(previous_volume as nat) + "% -> 0%"@,
        ActionLogEvent::SpotifyUnmuted { restored_volume } =>
            "[ACTION: UNMUTED] Restored Spotify sound volume to "@ + decimal(restored_volume as nat)
            + "%"@,
        ActionLogEvent::SystemMuted => "[ACTION: MUTED] macOS system audio muted"@,
        ActionLogEvent::SystemUnmuted => "[ACTION: UNMUTED] Restored macOS system audio"@,
        ActionLogEvent::RecoveredSpotifyOnStartup { restored_volume } =>
            "[RECOVERY] Restored unrecovered pre-crash Spotify volume: "@ + decimal(
            restored_volume as nat,
        ) + "%"@,
        ActionLogEvent::RecoveredSystemOnStartup =>
            "[RECOVERY] Restored unrecovered pre-crash macOS system audio"@,
        ActionLogEvent::RestoredSpotifyOnShutdown { restored_volume } =>
            "[ACTION: RESTORED] Restored Spotify sound volume to "@ + decimal(restored_volume as nat)
            + "% on exit"@,
        ActionLogEvent::RestoredSystemOnShutdown =>
            "[ACTION: RESTORED] Restored macOS system audio on exit"@,
    }
}

/// Formats the log line for what an action did, stamped with `ts`.
pub fn action_log_line(ts: &str, event: &ActionLogEvent) -> (r: String)
    ensures
        r@ == action_line_spec(ts@, *event),
{
    let mut r = start_line(ts);
    match event {
        ActionLogEvent::SpotifyMuted { previous_volume } => {
            r.append("[ACTION: MUTED] Spotify sound volume: ");
            push_decimal(&mut r, *previous_volume as u64);
            r.append("% -> 0%");
        },
        ActionLogEvent::SpotifyUnmuted { restored_volume } => {
            r.append("[ACTION: UNMUTED] Restored Spotify sound volume to ");
            push_decimal(&mut r, *restored_volume as u64);
            r.append("%");
        },
        ActionLogEvent::SystemMuted => {
            r.append("[ACTION: MUTED] macOS system audio muted");
        },
        ActionLogEvent::SystemUnmuted => {
            r.append("[ACTION: UNMUTED] Restored macOS system audio");
        },
        ActionLogEvent::RecoveredSpotifyOnStartup { restored_volume } => {
            r.append("[RECOVERY] Restored unrecovered pre-crash Spotify volume: ");
            push_decimal(&mut r, *restored_volume as u64);
            r.append("%");
        },
        ActionLogEvent::RecoveredSystemOnStartup => {
            r.append("[RECOVERY] Restored unrecovered pre-crash macOS system audio");
        },
        ActionLogEvent::RestoredSpotifyOnShutdown { restored_volume } => {
            r.append("[ACTION: RESTORED] Restored Spotify sound volume to ");
            push_decimal(&mut r, *restored_volume as u64);
            r.append("% on exit");
        },
        ActionLogEvent::RestoredSystemOnShutdown => {
            r.append("[ACTION: RESTORED] Restored macOS system audio on exit");
        },
    }
    r
}

/// The log line for a detected event, if it is logged: ads always, everything else
/// only in verbose mode.
pub open spec fn event_line_spec(ts: Seq<char>, event: EventView, verbose: bool) -> Option<Seq<char>> {
    match event {
        EventView::AdStarted { title, artist, uri, reason } => Some(
            stamp(ts) + "[AD DETECTED] Title: '"@ + title + "' | Artist: '"@ + artist
                + "' | URI: '"@ + uri + "' | Reason: "@ + reason.describe_spec(),
        ),
        EventView::MediaStarted { title, artist, uri, is_podcast } => if verbose {
            Some(
                stamp(ts) + (if is_podcast {
                    "[PODCAST]"@
                } else {
                    "[MUSIC]"@
                }) + " Playing: "@ + artist + " - "@ + title + " ("@ + uri + ")"@,
            )
        } else {
            None
        },
        EventView::StateChanged { current, .. } => if verbose {
            Some(stamp(ts) + "[STATE] Spotify state: "@ + current.label_spec())
        } else {
            None
        },
        EventView::VolumeChanged { previous, current } => if verbose {
            Some(
                stamp(ts) + "[VOLUME] Spotify sound volume: "@ + decimal(previous as nat) + "% -> "@
                    + decimal(current as nat) + "%"@,
            )
        } else {
            None
        },
    }
}

/// Formats the log line for a detected event, stamped with `ts`, if it is logged.
pub fn event_log_line(ts: &str, event: &DetectionEvent, verbose: bool) -> (r: Option<String>)
    ensures
        match r {
            Some(line) => event_line_spec(ts@, event@, verbose) == Some(line@),
            None => event_line_spec(ts@, event@, verbose) is None,
        },
{
    match event {
        DetectionEvent::AdStarted { title, artist, uri, reason } => {
            let mut r = start_line(ts);
            r.append("[AD DETECTED] Title: '");
            r.append(title.as_str());
            r.append("' | Artist: '");
            r.append(artist.as_str());
            r.append("' | URI: '");
            r.append(uri.as_str());
            r.append("' | Reason: ");
            r.append(reason.describe());
            Some(r)
        },
        DetectionEvent::MediaStarted { title, artist, uri, is_podcast } => {
            if !verbose {
                return None;
            }
            let mut r = start_line(ts);
            if *is_podcast {
                r.append("[PODCAST]");
            } else {
                r.append("[MUSIC]");
            }
            r.append(" Playing: ");
            r.append(artist.as_str());
            r.append(" - ");
            r.append(title.as_str());
            r.append(" (");
            r.append(uri.as_str());
            r.append(")");
            Some(r)
        },
        DetectionEvent::StateChanged { current, .. } => {
            if !verbose {
                return None;
            }
            let mut r = start_line(ts);
            r.append("[STATE] Spotify state: ");
            r.append(current.label());
            Some(r)
        },
        DetectionEvent::VolumeChanged { previous, current } => {
            if !verbose {
                return None;
            }
            let mut r = start_line(ts);
            r.append("[VOLUME] Spotify sound volume: ");
            push_decimal(&mut r, *previous as u64);
            r.append("% -> ");
            push_decimal(&mut r, *current as u64);
            r.append("%");
            Some(r)
        },
    }
}

/// The line logged when monitoring starts.
pub open spec fn startup_line_spec(ts: Seq<char>, config: Config) -> Seq<char> {
    stamp(ts) + "[INFO] Starting wuspotify-muter (method: "@ + config.method.label_spec()
        + ", action: "@ + config.action.label_spec() + ", interval: "@ + decimal(
        config.poll_interval_ms as nat,
    ) + "ms)..."@
}

/// Formats the line logged when monitoring starts.
pub fn startup_log_line(ts: &str, config: &Config) -> (r: String)
    ensures
        r@ == startup_line_spec(ts@, *config),
{
    let mut r = start_line(ts);
    r.append("[INFO] Starting wuspotify-muter (method: ");
    r.append(config.method.label());
    r.append(", action: ");
    r.append(config.action.label());
    r.append(", interval: ");
    push_decimal(&mut r, config.poll_interval_ms);
    r.append("ms)...");
    r
}

/// The line logged when monitoring stops.
pub open spec fn shutdown_line_spec(ts: Seq<char>) -> Seq<char> {
    stamp(ts) + "[INFO] Stopping wuspotify-muter gracefully."@
}

/// Formats the line logged when monitoring stops.
pub fn shutdown_log_line(ts: &str) -> (r: String)
    ensures
        r@ == shutdown_line_spec(ts@),
{
    let mut r = start_line(ts);
    r.append("[INFO] Stopping wuspotify-muter gracefully.");
    r
}

/// What to do after one poll of the player: the detected event (if any); whether its
/// line goes to the log; the command to carry out (if any); and whether the command
/// comes before the event's line.
pub struct PollPlan {
    pub event: Option<DetectionEvent>,
    pub report_event: bool,
    pub command: Option<ActionCommand>,
    pub command_first: bool,
}

pub struct PollPlanView {
    pub event: Option<EventView>,
    pub report_event: bool,
    pub command: Option<CommandView>,
    pub command_first: bool,
}

impl View for PollPlan {
    type V = PollPlanView;

    open spec fn view(&self) -> PollPlanView {
        PollPlanView {
            event: event_view(self.event),
            report_event: self.report_event,
            command: command_view(self.command),
            command_first: self.command_first,
        }
    }
}

/// The decisions after one poll, given the manager's state and the detected event. An
/// ad is logged, then muted; other media first ends the mute, then is logged; a state
/// change is logged; a volume change is logged unless it is the mute's own drop to 0.
pub open spec fn poll_decision(m: ManagerView, event: Option<EventView>, t: TrackView) -> (ManagerView, PollPlanView) {
    match event {
        Some(EventView::AdStarted { .. }) => {
            let (m2, c) = ad_start_plan(m, t.volume);
            (m2, PollPlanView { event, report_event: true, command: c, command_first: false })
        },
        Some(EventView::MediaStarted { .. }) => {
            let (m2, c) = unmute_plan(m, false);
            (m2, PollPlanView { event, report_event: true, command: c, command_first: true })
        },
        Some(EventView::StateChanged { .. }) => (
            m,
            PollPlanView { event, report_event: true, command: None, command_first: false },
        ),
        Some(EventView::VolumeChanged { current, .. }) => (
            m,
            PollPlanView {
                event,
                report_event: !m.is_muted || current != 0,
                command: None,
                command_first: false,
            },
        ),
        None => (m, PollPlanView { event, report_event: false, command: None, command_first: false }),
    }
}

/// Takes in one snapshot of the player: detects what changed and plans the response.
pub fn plan_poll(detector: &mut DetectorState, actions: &mut ActionManager, track: &TrackInfo) -> (plan: PollPlan)
    ensures
        final(detector)@ == remember(track@),
        (final(actions)@, plan@) == poll_decision(old(actions)@, next_event(old(detector)@, track@), track@),
        final(actions).path() == old(actions).path(),
{
    let event = detector.process(track);
    match &event {
        Some(DetectionEvent::AdStarted { .. }) => {
            let command = actions.on_ad_start(track);
            PollPlan { event, report_event: true, command, command_first: false }
        },
        Some(DetectionEvent::MediaStarted { .. }) => {
            let command = actions.on_media_start(track);
            PollPlan { event, report_event: true, command, command_first: true }
        },
        Some(DetectionEvent::StateChanged { .. }) => {
            PollPlan { event, report_event: true, command: None, command_first: false }
        },
        Some(DetectionEvent::VolumeChanged { current, .. }) => {
            let report_event = !actions.is_muted() || *current != 0;
            PollPlan { event, report_event, command: None, command_first: false }
        },
        None => PollPlan { event, report_event: false, command: None, command_first: false },
    }
}

/// Once an ad has been muted, the drop of the volume to 0 that the mute itself caused
/// is detected but not logged, while any other volume change still is.
pub proof fn lemma_mute_drop_not_logged(m: ManagerView, ad: TrackView, later: TrackView, previous: u32)
    requires
        m.action == AdAction::SpotifyMute || m.action == AdAction::Mute,
        !m.is_muted,
    ensures
        ({
            let muted = complete_spec(ad_start_plan(m, ad.volume).0, true).0;
            let drop = Some(EventView::VolumeChanged { previous, current: 0 });
            let other = Some(EventView::VolumeChanged { previous, current: 1 });
            &&& muted.is_muted
            &&& !poll_decision(muted, drop, later).1.report_event
            &&& poll_decision(muted, other, later).1.report_event
            &&& poll_decision(m, drop, later).1.report_event
        }),
{
}

/// When music or a podcast starts while an ad's mute is in progress, the poll ends the
/// mute before logging: the player's volume is restored to the saved one (or the
/// system unmuted), the state file removed after, and once that succeeded the manager
/// is unmuted and logs the restoration.
pub proof fn lemma_media_start_ends_mute(
    m: ManagerView,
    t: TrackView,
    title: Seq<char>,
    artist: Seq<char>,
    uri: Seq<char>,
    is_podcast: bool,
)
    requires
        m.is_muted,
        m.action != AdAction::LogOnly,
    ensures
        ({
            let ev = Some(EventView::MediaStarted { title, artist, uri, is_podcast });
            let (m2, plan) = poll_decision(m, ev, t);
            let (m3, logged) = complete_spec(m2, true);
            &&& plan.command_first
            &&& plan.report_event
            &&& m.action == AdAction::SpotifyMute ==> plan.command == Some(
                CommandView {
                    before: None,
                    call: PlatformCall::SetSpotifyVolume(restore_volume(m)),
                    after: Some(FileOpView::Remove),
                },
            ) && logged == Some(
                ActionLogEvent::SpotifyUnmuted { restored_volume: restore_volume(m) },
            )
            &&& m.action == AdAction::Mute ==> plan.command == Some(
                CommandView {
                    before: None,
                    call: PlatformCall::SetSystemMuted(false),
                    after: Some(FileOpView::Remove),
                },
            ) && logged == Some(ActionLogEvent::SystemUnmuted)
            &&& !m3.is_muted
        }),
{
}

/// An ad break in the loop: an ad at volume `v` mutes and saves `v`; music or a podcast
/// that follows restores exactly `v`.
pub proof fn lemma_ad_break_restores_volume(
    m: ManagerView,
    ad: TrackView,
    next: TrackView,
    ad_event: EventView,
    media_event: EventView,
)
    requires
        m.action == AdAction::SpotifyMute,
        !m.is_muted,
        ad.volume > 0,
        ad_event is AdStarted,
        media_event is MediaStarted,
    ensures
        ({
            let (m1, p1) = poll_decision(m, Some(ad_event), ad);
            let (m2, _) = complete_spec(m1, true);
            let (m3, p2) = poll_decision(m2, Some(media_event), next);
            let (m4, logged) = complete_spec(m3, true);
            &&& p1.command matches Some(c) && c.call == PlatformCall::SetSpotifyVolume(0)
            &&& p2.command matches Some(c) && c.call == PlatformCall::SetSpotifyVolume(ad.volume)
            &&& logged == Some(ActionLogEvent::SpotifyUnmuted { restored_volume: ad.volume })
            &&& !m4.is_muted
        }),
{
}

/// A logged line for started media is tagged "[PODCAST]" for a podcast and "[MUSIC]"
/// otherwise, right after the time stamp; such a line is logged exactly in verbose mode.
pub proof fn lemma_media_line_tag(
    ts: Seq<char>,
    title: Seq<char>,
    artist: Seq<char>,
    uri: Seq<char>,
    is_podcast: bool,
    verbose: bool,
)
    ensures
        ({
            let line = event_line_spec(ts, EventView::MediaStarted { title, artist, uri, is_podcast }, verbose);
            &&& line is Some <==> verbose
            &&& line matches Some(l) ==> has_prefix(l, stamp(ts))
            &&& line matches Some(l) ==> (is_podcast ==> has_prefix(l.skip(stamp(ts).len() as int), "[PODCAST]"@))
            &&& line matches Some(l) ==> (!is_podcast ==> has_prefix(l.skip(stamp(ts).len() as int), "[MUSIC]"@))
        }),
{
    if verbose {
        let tag = if is_podcast { "[PODCAST]"@ } else { "[MUSIC]"@ };
        let l = stamp(ts) + tag + " Playing: "@ + artist + " - "@ + title + " ("@ + uri + ")"@;
        assert(event_line_spec(ts, EventView::MediaStarted { title, artist, uri, is_podcast }, verbose) == Some(l));
        assert(l.subrange(0, stamp(ts).len() as int) =~= stamp(ts));
        let rest = l.skip(stamp(ts).len() as int);
        assert(rest.subrange(0, tag.len() as int) =~= tag);
    }
}

/// An ad is logged in every mode, and its line names the ad's reason.
pub proof fn lemma_ad_line_always_logged(ts: Seq<char>, title: Seq<char>, artist: Seq<char>, uri: Seq<char>, reason: crate::detector::AdReason, verbose: bool)
    ensures
        event_line_spec(ts, EventView::AdStarted { title, artist, uri, reason }, verbose) matches Some(l)
            && l.skip(l.len() - reason.describe_spec().len()) == reason.describe_spec(),
{
    let l = stamp(ts) + "[AD DETECTED] Title: '"@ + title + "' | Artist: '"@ + artist + "' | URI: '"@ + uri + "' | Reason: "@ + reason.describe_spec();
    assert(l.skip(l.len() - reason.describe_spec().len()) =~= reason.describe_spec());
}

/// The line for an action, after its time stamp, says what was done: muting or
/// unmuting the player with its volume, the same for the system, recovery at startup,
/// or restoration on exit.
pub proof fn lemma_action_line_heads(ts: Seq<char>, event: ActionLogEvent)
    ensures
        ({
            let l = action_line_spec(ts, event);
            let rest = l.skip(stamp(ts).len() as int);
            &&& has_prefix(l, stamp(ts))
            &&& event matches ActionLogEvent::SpotifyMuted { previous_volume } ==> rest == "[ACTION: MUTED] Spotify sound volume: "@ + decimal(previous_volume as nat) + "% -> 0%"@
            &&& event matches ActionLogEvent::SpotifyUnmuted { restored_volume } ==> rest == "[ACTION: UNMUTED] Restored Spotify sound volume to "@ + decimal(restored_volume as nat) + "%"@
            &&& event == ActionLogEvent::SystemMuted ==> rest == "[ACTION: MUTED] macOS system audio muted"@
            &&& event == ActionLogEvent::SystemUnmuted ==> rest == "[ACTION: UNMUTED] Restored macOS system audio"@
            &&& event matches ActionLogEvent::RecoveredSpotifyOnStartup { restored_volume } ==> rest == "[RECOVERY] Restored unrecovered pre-crash Spotify volume: "@ + decimal(restored_volume as nat) + "%"@
            &&& event == ActionLogEvent::RecoveredSystemOnStartup ==> rest == "[RECOVERY] Restored unrecovered pre-crash macOS system audio"@
            &&& event matches ActionLogEvent::RestoredSpotifyOnShutdown { restored_volume } ==> rest == "[ACTION: RESTORED] Restored Spotify sound volume to "@ + decimal(restored_volume as nat) + "% on exit"@
            &&& event == ActionLogEvent::RestoredSystemOnShutdown ==> rest == "[ACTION: RESTORED] Restored macOS system audio on exit"@
        }),
{
    let l = action_line_spec(ts, event);
    let k = stamp(ts).len() as int;
    assert(l.subrange(0, k) =~= stamp(ts));
    match event {
        ActionLogEvent::SpotifyMuted { previous_volume } => {
            assert(l.skip(k) =~= "[ACTION: MUTED] Spotify sound volume: "@ + decimal(previous_volume as nat) + "% -> 0%"@);
        },
        ActionLogEvent::SpotifyUnmuted { restored_volume } => {
            assert(l.skip(k) =~= "[ACTION: UNMUTED] Restored Spotify sound volume to "@ + decimal(restored_volume as nat) + "%"@);
        },
        ActionLogEvent::SystemMuted => {
            assert(l.skip(k) =~= "[ACTION: MUTED] macOS system audio muted"@);
        },
        ActionLogEvent::SystemUnmuted => {
            assert(l.skip(k) =~= "[ACTION: UNMUTED] Restored macOS system audio"@);
        },
        ActionLogEvent::RecoveredSpotifyOnStartup { restored_volume } => {
            assert(l.skip(k) =~= "[RECOVERY] Restored unrecovered pre-crash Spotify volume: "@ + decimal(restored_volume as nat) + "%"@);
        },
        ActionLogEvent::RecoveredSystemOnStartup => {
            assert(l.skip(k) =~= "[RECOVERY] Restored unrecovered pre-crash macOS system audio"@);
        },
        ActionLogEvent::RestoredSpotifyOnShutdown { restored_volume } => {
            assert(l.skip(k) =~= "[ACTION: RESTORED] Restored Spotify sound volume to "@ + decimal(restored_volume as nat) + "% on exit"@);
        },
        ActionLogEvent::RestoredSystemOnShutdown => {
            assert(l.skip(k) =~= "[ACTION: RESTORED] Restored macOS system audio on exit"@);
        },
    }
}

} // verus!
