//! What to do when an ad starts and ends: the muting decisions, the crash-recovery
//! state file's contents, and the commands that the caller carries out.
//!
//! Each operation first plans: it returns the command to carry out (state-file work
//! and one call to the player or the system), and remembers what follows once the
//! call has succeeded. The caller carries the command out and hands the call's
//! outcome to [`ActionManager::complete`], which finishes the operation.
use vstd::prelude::*;

use std::path::PathBuf;

use crate::platform::{PlatformError, TrackInfo};
use crate::text::{
    decimal, eq_ignore_ascii_case, eq_ignore_case, has_prefix, is_space, lemma_decimal_digits,
    lemma_fold_differs, lemma_fold_same_len,
    lemma_parse_decimal, parse_u32, parse_unsigned, push_decimal, starts_with, str_eq, trim,
    trim_end, trim_start, trim_str,
};

verus! {

#[verifier::external_type_specification]
#[verifier::external_body]
pub struct ExPathBuf(PathBuf);

/// The name of the file, in the temporary directory, that records a mute in progress.
pub const STATE_FILENAME: &'static str = "wuspotify-muter.state";

/// What to do when an ad starts.
#[derive(Debug, Clone, Copy, PartialEq, Eq, Structural)]
pub enum AdAction {
    SpotifyMute,
    Mute,
    LogOnly,
}

/// The action that a command-line word names, whatever its ASCII case.
pub open spec fn parse_action(s: Seq<char>) -> Option<AdAction> {
    if eq_ignore_case(s, "spotify-mute"@) || eq_ignore_case(s, "spotifymute"@) || eq_ignore_case(
        s,
        "spotify_mute"@,
    ) {
        Some(AdAction::SpotifyMute)
    } else if eq_ignore_case(s, "mute"@) || eq_ignore_case(s, "system-mute"@) || eq_ignore_case(
        s,
        "system_mute"@,
    ) || eq_ignore_case(s, "os-mute"@) || eq_ignore_case(s, "global-mute"@) {
        Some(AdAction::Mute)
    } else if eq_ignore_case(s, "none"@) || eq_ignore_case(s, "log-only"@) || eq_ignore_case(
        s,
        "log_only"@,
    ) || eq_ignore_case(s, "log"@) {
        Some(AdAction::LogOnly)
    } else {
        None
    }
}

impl AdAction {
    /// Reads an action's name. Case is ignored: no name contains a letter that some
    /// other character lower-cases to, so ASCII case folding is all that matters.
    pub fn parse(s: &str) -> (r: Option<AdAction>)
        ensures
            r == parse_action(s@),
    {
        if eq_ignore_ascii_case(s, "spotify-mute") || eq_ignore_ascii_case(s, "spotifymute")
            || eq_ignore_ascii_case(s, "spotify_mute") {
            Some(AdAction::SpotifyMute)
        } else if eq_ignore_ascii_case(s, "mute") || eq_ignore_ascii_case(s, "system-mute")
            || eq_ignore_ascii_case(s, "system_mute") || eq_ignore_ascii_case(s, "os-mute")
            || eq_ignore_ascii_case(s, "global-mute") {
            Some(AdAction::Mute)
        } else if eq_ignore_ascii_case(s, "none") || eq_ignore_ascii_case(s, "log-only")
            || eq_ignore_ascii_case(s, "log_only") || eq_ignore_ascii_case(s, "log") {
            Some(AdAction::LogOnly)
        } else {
            None
        }
    }

    pub open spec fn label_spec(&self) -> Seq<char> {
        match self {
            AdAction::SpotifyMute => "spotify-mute"@,
            AdAction::Mute => "mute"@,
            AdAction::LogOnly => "none"@,
        }
    }

    /// The action's name as it is shown to a reader.
    pub fn label(&self) -> (r: &'static str)
        ensures
            r@ == self.label_spec(),
    {
        match self {
            AdAction::SpotifyMute => "spotify-mute",
            AdAction::Mute => "mute",
            AdAction::LogOnly => "none",
        }
    }
}

/// What an action did, for the log.
#[derive(Debug, Clone, Copy, PartialEq, Eq, Structural)]
pub enum ActionLogEvent {
    SpotifyMuted { previous_volume: u32 },
    SpotifyUnmuted { restored_volume: u32 },
    SystemMuted,
    SystemUnmuted,
    RecoveredSpotifyOnStartup { restored_volume: u32 },
    RecoveredSystemOnStartup,
    RestoredSpotifyOnShutdown { restored_volume: u32 },
    RestoredSystemOnShutdown,
}

/// A mute in progress, as the state file records it.
#[derive(Debug, Clone, Copy, PartialEq, Eq, Structural)]
pub enum SavedState {
    SpotifyMuted(u32),
    SystemMuted,
}

/// What the state file holds while `saved` is in progress.
pub open spec fn saved_state_text(saved: SavedState) -> Seq<char> {
    match saved {
        SavedState::SpotifyMuted(v) => "spotify:"@ + decimal(v as nat),
        SavedState::SystemMuted => "system"@,
    }
}

/// What the state file's contents record: after trimming, "system", or "spotify:"
/// and a volume, or (an older form) a bare volume. Anything else records nothing.
pub open spec fn parse_saved_state_spec(content: Seq<char>) -> Option<SavedState> {
    let t = trim(content);
    if t == "system"@ {
        Some(SavedState::SystemMuted)
    } else if has_prefix(t, "spotify:"@) {
        match parse_unsigned(t.subrange("spotify:"@.len() as int, t.len() as int), u32::MAX as int) {
            Some(v) => Some(SavedState::SpotifyMuted(v as u32)),
            None => None,
        }
    } else {
        match parse_unsigned(t, u32::MAX as int) {
            Some(v) => Some(SavedState::SpotifyMuted(v as u32)),
            None => None,
        }
    }
}

/// Reads the contents of the state file.
pub fn parse_saved_state(content: &str) -> (r: Option<SavedState>)
    ensures
        r == parse_saved_state_spec(content@),
{
    let t = trim_str(content);
    if str_eq(t, "system") {
        return Some(SavedState::SystemMuted);
    }
    let prefix = "spotify:";
    if starts_with(t, prefix) {
        let rest = t.substring_char(prefix.unicode_len(), t.unicode_len());
        return match parse_u32(rest) {
            Some(v) => Some(SavedState::SpotifyMuted(v)),
            None => None,
        };
    }
    match parse_u32(t) {
        Some(v) => Some(SavedState::SpotifyMuted(v)),
        None => None,
    }
}

/// The text that records `saved` in the state file.
pub fn saved_state_content(saved: SavedState) -> (r: String)
    ensures
        r@ == saved_state_text(saved),
{
    match saved {
        SavedState::SpotifyMuted(v) => {
            let mut r = String::from_str("spotify:");
            push_decimal(&mut r, v as u64);
            r
        },
        SavedState::SystemMuted => String::from_str("system"),
    }
}

/// A call to the player or to the system.
#[derive(Debug, Clone, Copy, PartialEq, Eq, Structural)]
pub enum PlatformCall {
    SetSpotifyVolume(u32),
    SetSystemMuted(bool),
}

/// Work on the state file; its failures are ignored.
#[derive(Debug, Clone, PartialEq, Eq)]
pub enum StateFileOp {
    Write(String),
    Remove,
}

pub enum FileOpView {
    Write(Seq<char>),
    Remove,
}

impl View for StateFileOp {
    type V = FileOpView;

    open spec fn view(&self) -> FileOpView {
        match self {
            StateFileOp::Write(s) => FileOpView::Write(s@),
            StateFileOp::Remove => FileOpView::Remove,
        }
    }
}

/// An optional state-file operation taken as its view.
pub open spec fn file_op_view(op: Option<StateFileOp>) -> Option<FileOpView> {
    match op {
        Some(o) => Some(o@),
        None => None,
    }
}

/// What the caller carries out for an operation: `before` on the state file, then
/// `call`; if the call succeeds, `after` on the state file. The call's outcome then
/// goes to [`ActionManager::complete`].
#[derive(Debug, Clone, PartialEq, Eq)]
pub struct ActionCommand {
    pub before: Option<StateFileOp>,
    pub call: PlatformCall,
    pub after: Option<StateFileOp>,
}

pub struct CommandView {
    pub before: Option<FileOpView>,
    pub call: PlatformCall,
    pub after: Option<FileOpView>,
}

impl View for ActionCommand {
    type V = CommandView;

    open spec fn view(&self) -> CommandView {
        CommandView { before: file_op_view(self.before), call: self.call, after: file_op_view(self.after) }
    }
}

/// An optional command taken as its view.
pub open spec fn command_view(c: Option<ActionCommand>) -> Option<CommandView> {
    match c {
        Some(cmd) => Some(cmd@),
        None => None,
    }
}

/// What follows once a planned call has succeeded: the muting state, and the event
/// to log.
#[derive(Debug, Clone, Copy, PartialEq, Eq, Structural)]
pub struct Completion {
    pub saved_volume: Option<u32>,
    pub is_muted: bool,
    pub event: ActionLogEvent,
}

/// Carries out the configured action when ads start and end, and undoes it on
/// shutdown or after a crash.
#[derive(Debug)]
pub struct ActionManager {
    action: AdAction,
    state_file: PathBuf,
    saved_volume: Option<u32>,
    is_muted: bool,
    pending: Option<Completion>,
}

/// The manager's state: its action, the volume it will restore, whether it has
/// muted, and what follows the call it has planned, if any.
pub struct ManagerView {
    pub action: AdAction,
    pub saved_volume: Option<u32>,
    pub is_muted: bool,
    pub pending: Option<Completion>,
}

impl View for ActionManager {
    type V = ManagerView;

    closed spec fn view(&self) -> ManagerView {
        ManagerView {
            action: self.action,
            saved_volume: self.saved_volume,
            is_muted: self.is_muted,
            pending: self.pending,
        }
    }
}

impl ManagerView {
    /// Whether a muting state fits the manager's action: only an acting manager is
    /// ever muted, and only a manager that sets the player's volume saves one.
    pub open spec fn fits_action(self, is_muted: bool, saved_volume: Option<u32>) -> bool {
        &&& is_muted ==> self.action != AdAction::LogOnly
        &&& self.action != AdAction::SpotifyMute ==> saved_volume is None
    }

    /// The manager's well-formedness: its state, and the state that its planned call
    /// leads to, fit its action.
    pub open spec fn wf(self) -> bool {
        &&& self.fits_action(self.is_muted, self.saved_volume)
        &&& match self.pending {
            Some(c) => self.fits_action(c.is_muted, c.saved_volume),
            None => true,
        }
    }
}

/// A manager that has done nothing yet.
pub open spec fn fresh_manager(action: AdAction) -> ManagerView {
    ManagerView { action, saved_volume: None, is_muted: false, pending: None }
}

/// The state after planning a command (or none) with what follows it.
pub open spec fn planned(m: ManagerView, pending: Option<Completion>) -> ManagerView {
    ManagerView { pending, ..m }
}

/// The volume restored when nothing was saved.
pub open spec fn restore_volume(m: ManagerView) -> u32 {
    match m.saved_volume {
        Some(v) => v,
        None => 100,
    }
}

/// Planning at startup, given what the state file recorded: a mute that a crash left
/// behind is undone, and the file removed once that succeeded.
pub open spec fn init_plan(m: ManagerView, saved: Option<SavedState>) -> (ManagerView, Option<CommandView>) {
    if m.action == AdAction::LogOnly {
        (planned(m, None), None)
    } else {
        match saved {
            Some(SavedState::SpotifyMuted(v)) => (
                planned(
                    m,
                    Some(
                        Completion {
                            saved_volume: None,
                            is_muted: false,
                            event: ActionLogEvent::RecoveredSpotifyOnStartup { restored_volume: v },
                        },
                    ),
                ),
                Some(
                    CommandView {
                        before: None,
                        call: PlatformCall::SetSpotifyVolume(v),
                        after: Some(FileOpView::Remove),
                    },
                ),
            ),
            Some(SavedState::SystemMuted) => (
                planned(
                    m,
                    Some(
                        Completion {
                            saved_volume: m.saved_volume,
                            is_muted: false,
                            event: ActionLogEvent::RecoveredSystemOnStartup,
                        },
                    ),
                ),
                Some(
                    CommandView {
                        before: None,
                        call: PlatformCall::SetSystemMuted(false),
                        after: Some(FileOpView::Remove),
                    },
                ),
            ),
            None => (planned(m, None), None),
        }
    }
}

/// The volume saved when an ad starts: the current one, or when that is 0 the
/// volume saved before (100 when none was).
pub open spec fn volume_to_save(m: ManagerView, volume: u32) -> u32 {
    if volume > 0 {
        volume
    } else {
        restore_volume(m)
    }
}

/// Planning when an ad starts. Unless already muted, the manager mutes at once and
/// records the mute in the state file before the call that silences the audio.
pub open spec fn ad_start_plan(m: ManagerView, volume: u32) -> (ManagerView, Option<CommandView>) {
    if m.is_muted {
        (planned(m, None), None)
    } else {
        match m.action {
            AdAction::SpotifyMute => {
                let v = volume_to_save(m, volume);
                let c = Completion {
                    saved_volume: Some(v),
                    is_muted: true,
                    event: ActionLogEvent::SpotifyMuted { previous_volume: v },
                };
                (
                    ManagerView { saved_volume: Some(v), is_muted: true, pending: Some(c), ..m },
                    Some(
                        CommandView {
                            before: Some(FileOpView::Write(saved_state_text(SavedState::SpotifyMuted(v)))),
                            call: PlatformCall::SetSpotifyVolume(0),
                            after: None,
                        },
                    ),
                )
            },
            AdAction::Mute => {
                let c = Completion {
                    saved_volume: m.saved_volume,
                    is_muted: true,
                    event: ActionLogEvent::SystemMuted,
                };
                (
                    ManagerView { is_muted: true, pending: Some(c), ..m },
                    Some(
                        CommandView {
                            before: Some(FileOpView::Write(saved_state_text(SavedState::SystemMuted))),
                            call: PlatformCall::SetSystemMuted(true),
                            after: None,
                        },
                    ),
                )
            },
            AdAction::LogOnly => (planned(m, None), None),
        }
    }
}

/// Planning the undoing of a mute, when other media starts (`on_exit` false) or on
/// shutdown (`on_exit` true): restore the volume or unmute the system, then remove
/// the state file.
pub open spec fn unmute_plan(m: ManagerView, on_exit: bool) -> (ManagerView, Option<CommandView>) {
    if !m.is_muted {
        (planned(m, None), None)
    } else {
        match m.action {
            AdAction::SpotifyMute => {
                let v = restore_volume(m);
                let event = if on_exit {
                    ActionLogEvent::RestoredSpotifyOnShutdown { restored_volume: v }
                } else {
                    ActionLogEvent::SpotifyUnmuted { restored_volume: v }
                };
                (
                    planned(m, Some(Completion { saved_volume: None, is_muted: false, event })),
                    Some(
                        CommandView {
                            before: None,
                            call: PlatformCall::SetSpotifyVolume(v),
                            after: Some(FileOpView::Remove),
                        },
                    ),
                )
            },
            AdAction::Mute => {
                let event = if on_exit {
                    ActionLogEvent::RestoredSystemOnShutdown
                } else {
                    ActionLogEvent::SystemUnmuted
                };
                (
                    planned(
                        m,
                        Some(Completion { saved_volume: m.saved_volume, is_muted: false, event }),
                    ),
                    Some(
                        CommandView {
                            before: None,
                            call: PlatformCall::SetSystemMuted(false),
                            after: Some(FileOpView::Remove),
                        },
                    ),
                )
            },
            AdAction::LogOnly => (planned(m, None), None),
        }
    }
}

/// Finishing the planned operation after its call: on success the planned state
/// and event; on failure the error, with the state as planning left it. With nothing
/// planned, nothing happens.
pub open spec fn complete_spec(m: ManagerView, ok: bool) -> (ManagerView, Option<ActionLogEvent>) {
    match m.pending {
        Some(c) => if ok {
            (
                ManagerView {
                    saved_volume: c.saved_volume,
                    is_muted: c.is_muted,
                    pending: None,
                    ..m
                },
                Some(c.event),
            )
        } else {
            (planned(m, None), None)
        },
        None => (m, None),
    }
}

impl ActionManager {
    /// The path of the state file.
    pub closed spec fn path(&self) -> PathBuf {
        self.state_file
    }

    /// A manager for `action` that records mutes in `state_file`.
    pub fn with_state_file(action: AdAction, state_file: PathBuf) -> (m: Self)
        ensures
            m@ == fresh_manager(action),
            m@.wf(),
            m.path() == state_file,
    {
        ActionManager { action, state_file, saved_volume: None, is_muted: false, pending: None }
    }

    pub fn action(&self) -> (a: AdAction)
        ensures
            a == self@.action,
    {
        self.action
    }

    pub fn is_muted(&self) -> (b: bool)
        ensures
            b == self@.is_muted,
            self@.wf() && b ==> self@.action != AdAction::LogOnly,
    {
        self.is_muted
    }

    /// The state file that the commands' file operations act on.
    pub fn state_file(&self) -> (p: &PathBuf)
        ensures
            *p == self.path(),
    {
        &self.state_file
    }

    fn saved_or_default(&self) -> (v: u32)
        ensures
            v == restore_volume(self@),
    {
        match self.saved_volume {
            Some(v) => v,
            None => 100,
        }
    }

    /// Plans the startup step, given what the state file recorded (`None` when it is
    /// missing or unreadable).
    pub fn init(&mut self, saved: Option<SavedState>) -> (cmd: Option<ActionCommand>)
        ensures
            (final(self)@, command_view(cmd)) == init_plan(old(self)@, saved),
            final(self).path() == old(self).path(),
            final(self)@.action == old(self)@.action,
            old(self)@.wf() ==> final(self)@.wf(),
    {
        if self.action == AdAction::LogOnly {
            self.pending = None;
            return None;
        }
        match saved {
            Some(SavedState::SpotifyMuted(v)) => {
                self.pending = Some(
                    Completion {
                        saved_volume: None,
                        is_muted: false,
                        event: ActionLogEvent::RecoveredSpotifyOnStartup { restored_volume: v },
                    },
                );
                Some(
                    ActionCommand {
                        before: None,
                        call: PlatformCall::SetSpotifyVolume(v),
                        after: Some(StateFileOp::Remove),
                    },
                )
            },
            Some(SavedState::SystemMuted) => {
                self.pending = Some(
                    Completion {
                        saved_volume: self.saved_volume,
                        is_muted: false,
                        event: ActionLogEvent::RecoveredSystemOnStartup,
                    },
                );
                Some(
                    ActionCommand {
                        before: None,
                        call: PlatformCall::SetSystemMuted(false),
                        after: Some(StateFileOp::Remove),
                    },
                )
            },
            None => {
                self.pending = None;
                None
            },
        }
    }

    /// Plans the response to an ad starting with `track` playing.
    pub fn on_ad_start(&mut self, track: &TrackInfo) -> (cmd: Option<ActionCommand>)
        ensures
            (final(self)@, command_view(cmd)) == ad_start_plan(old(self)@, track.volume),
            final(self).path() == old(self).path(),
            final(self)@.action == old(self)@.action,
            old(self)@.wf() ==> final(self)@.wf(),
    {
        if self.is_muted {
            self.pending = None;
            return None;
        }
        match self.action {
            AdAction::SpotifyMute => {
                let v = if track.volume > 0 {
                    track.volume
                } else {
                    self.saved_or_default()
                };
                self.saved_volume = Some(v);
                self.is_muted = true;
                self.pending = Some(
                    Completion {
                        saved_volume: Some(v),
                        is_muted: true,
                        event: ActionLogEvent::SpotifyMuted { previous_volume: v },
                    },
                );
                Some(
                    ActionCommand {
                        before: Some(StateFileOp::Write(saved_state_content(SavedState::SpotifyMuted(v)))),
                        call: PlatformCall::SetSpotifyVolume(0),
                        after: None,
                    },
                )
            },
            AdAction::Mute => {
                self.is_muted = true;
                self.pending = Some(
                    Completion {
                        saved_volume: self.saved_volume,
                        is_muted: true,
                        event: ActionLogEvent::SystemMuted,
                    },
                );
                Some(
                    ActionCommand {
                        before: Some(StateFileOp::Write(saved_state_content(SavedState::SystemMuted))),
                        call: PlatformCall::SetSystemMuted(true),
                        after: None,
                    },
                )
            },
            AdAction::LogOnly => {
                self.pending = None;
                None
            },
        }
    }

    fn plan_unmute(&mut self, on_exit: bool) -> (cmd: Option<ActionCommand>)
        ensures
            (final(self)@, command_view(cmd)) == unmute_plan(old(self)@, on_exit),
            final(self).path() == old(self).path(),
            final(self)@.action == old(self)@.action,
            old(self)@.wf() ==> final(self)@.wf(),
    {
        if !self.is_muted {
            self.pending = None;
            return None;
        }
        match self.action {
            AdAction::SpotifyMute => {
                let v = self.saved_or_default();
                let event = if on_exit {
                    ActionLogEvent::RestoredSpotifyOnShutdown { restored_volume: v }
                } else {
                    ActionLogEvent::SpotifyUnmuted { restored_volume: v }
                };
                self.pending = Some(Completion { saved_volume: None, is_muted: false, event });
                Some(
                    ActionCommand {
                        before: None,
                        call: PlatformCall::SetSpotifyVolume(v),
                        after: Some(StateFileOp::Remove),
                    },
                )
            },
            AdAction::Mute => {
                let event = if on_exit {
                    ActionLogEvent::RestoredSystemOnShutdown
                } else {
                    ActionLogEvent::SystemUnmuted
                };
                self.pending = Some(
                    Completion { saved_volume: self.saved_volume, is_muted: false, event },
                );
                Some(
                    ActionCommand {
                        before: None,
                        call: PlatformCall::SetSystemMuted(false),
                        after: Some(StateFileOp::Remove),
                    },
                )
            },
            AdAction::LogOnly => {
                self.pending = None;
                None
            },
        }
    }

    /// Plans the response to music or a podcast starting after an ad.
    pub fn on_media_start(&mut self, _track: &TrackInfo) -> (cmd: Option<ActionCommand>)
        ensures
            (final(self)@, command_view(cmd)) == unmute_plan(old(self)@, false),
            final(self).path() == old(self).path(),
            final(self)@.action == old(self)@.action,
            old(self)@.wf() ==> final(self)@.wf(),
    {
        self.plan_unmute(false)
    }

    /// Plans the undoing of a mute when the program stops.
    pub fn on_shutdown(&mut self) -> (cmd: Option<ActionCommand>)
        ensures
            (final(self)@, command_view(cmd)) == unmute_plan(old(self)@, true),
            final(self).path() == old(self).path(),
            final(self)@.action == old(self)@.action,
            old(self)@.wf() ==> final(self)@.wf(),
    {
        self.plan_unmute(true)
    }

    /// Finishes the planned operation, given the outcome of its call: the event to log
    /// on success, or the call's error.
    pub fn complete(&mut self, outcome: Result<(), PlatformError>) -> (r: Result<
        Option<ActionLogEvent>,
        PlatformError,
    >)
        ensures
            final(self)@ == complete_spec(old(self)@, outcome is Ok).0,
            final(self).path() == old(self).path(),
            final(self)@.action == old(self)@.action,
            old(self)@.wf() ==> final(self)@.wf(),
            match (old(self)@.pending, outcome) {
                (Some(_), Err(e)) => r == Err::<Option<ActionLogEvent>, PlatformError>(e),
                _ => r == Ok::<Option<ActionLogEvent>, PlatformError>(
                    complete_spec(old(self)@, outcome is Ok).1,
                ),
            },
    {
        match self.pending {
            Some(c) => {
                self.pending = None;
                match outcome {
                    Ok(()) => {
                        self.saved_volume = c.saved_volume;
                        self.is_muted = c.is_muted;
                        Ok(Some(c.event))
                    },
                    Err(e) => Err(e),
                }
            },
            None => Ok(None),
        }
    }
}

/// What the state file records is read back as it was written.
pub proof fn lemma_saved_state_round_trip(saved: SavedState)
    ensures
        parse_saved_state_spec(saved_state_text(saved)) == Some(saved),
{
    reveal_strlit("system");
    reveal_strlit("spotify:");
    let t = saved_state_text(saved);
    match saved {
        SavedState::SpotifyMuted(v) => {
            let d = decimal(v as nat);
            lemma_decimal_digits(v as nat);
            assert(t[0] == 's');
            assert(trim_start(t) == t);
            assert(t.last() == d.last());
            assert(!is_space(d[d.len() - 1]));
            assert(trim_end(t) == t);
            assert(t[1] != "system"@[1]);
            assert(t != "system"@);
            assert(t.subrange(0, 8) =~= "spotify:"@);
            assert(t.subrange(8, t.len() as int) =~= d);
            lemma_parse_decimal(v as nat, u32::MAX as int);
        },
        SavedState::SystemMuted => {
            assert(trim_start(t) == t);
            assert(trim_end(t) == t);
        },
    }
}

/// Muting for an ad and then undoing it, when other media starts or on shutdown,
/// restores the volume that was playing and leaves the manager unmuted.
pub proof fn lemma_spotify_mute_then_restore(m: ManagerView, volume: u32, on_exit: bool)
    requires
        m.action == AdAction::SpotifyMute,
        !m.is_muted,
        volume > 0,
    ensures
        ({
            let (m1, c1) = ad_start_plan(m, volume);
            let (m2, e1) = complete_spec(m1, true);
            let (m3, c2) = unmute_plan(m2, on_exit);
            let (m4, e2) = complete_spec(m3, true);
            &&& c1 matches Some(c) && c.call == PlatformCall::SetSpotifyVolume(0)
            &&& e1 == Some(ActionLogEvent::SpotifyMuted { previous_volume: volume })
            &&& c2 matches Some(c) && c.call == PlatformCall::SetSpotifyVolume(volume)
                && c.after == Some(FileOpView::Remove)
            &&& e2 == Some(
                if on_exit {
                    ActionLogEvent::RestoredSpotifyOnShutdown { restored_volume: volume }
                } else {
                    ActionLogEvent::SpotifyUnmuted { restored_volume: volume }
                },
            )
            &&& m4 == ManagerView { saved_volume: None, is_muted: false, pending: None, ..m }
        }),
{
}

/// Muting the system for an ad and then undoing it unmutes the system and leaves the
/// manager unmuted.
pub proof fn lemma_system_mute_then_restore(m: ManagerView, volume: u32, on_exit: bool)
    requires
        m.action == AdAction::Mute,
        !m.is_muted,
    ensures
        ({
            let (m1, c1) = ad_start_plan(m, volume);
            let (m2, e1) = complete_spec(m1, true);
            let (m3, c2) = unmute_plan(m2, on_exit);
            let (m4, e2) = complete_spec(m3, true);
            &&& c1 matches Some(c) && c.call == PlatformCall::SetSystemMuted(true)
            &&& e1 == Some(ActionLogEvent::SystemMuted)
            &&& c2 matches Some(c) && c.call == PlatformCall::SetSystemMuted(false)
                && c.after == Some(FileOpView::Remove)
            &&& e2 == Some(
                if on_exit {
                    ActionLogEvent::RestoredSystemOnShutdown
                } else {
                    ActionLogEvent::SystemUnmuted
                },
            )
            &&& m4 == ManagerView { is_muted: false, pending: None, ..m }
        }),
{
}

/// After a crash in the middle of an ad, the next start reads what the ad's mute wrote
/// to the state file and plans to restore the volume that was playing.
pub proof fn lemma_crash_recovery_restores_volume(m: ManagerView, volume: u32)
    requires
        m.action == AdAction::SpotifyMute,
        !m.is_muted,
        volume > 0,
    ensures
        ad_start_plan(m, volume).1 matches Some(c) && c.before matches Some(FileOpView::Write(text))
            && init_plan(fresh_manager(m.action), parse_saved_state_spec(text)).1 == Some(
            CommandView {
                before: None,
                call: PlatformCall::SetSpotifyVolume(volume),
                after: Some(FileOpView::Remove),
            },
        ) && init_plan(fresh_manager(m.action), parse_saved_state_spec(text)).0.pending == Some(
            Completion {
                saved_volume: None,
                is_muted: false,
                event: ActionLogEvent::RecoveredSpotifyOnStartup { restored_volume: volume },
            },
        ),
{
    lemma_saved_state_round_trip(SavedState::SpotifyMuted(volume));
}

/// After a crash in the middle of a system mute, the next start unmutes the system.
pub proof fn lemma_crash_recovery_unmutes_system(m: ManagerView, volume: u32)
    requires
        m.action == AdAction::Mute,
        !m.is_muted,
    ensures
        ad_start_plan(m, volume).1 matches Some(c) && c.before matches Some(FileOpView::Write(text))
            && init_plan(fresh_manager(m.action), parse_saved_state_spec(text)).1 == Some(
            CommandView {
                before: None,
                call: PlatformCall::SetSystemMuted(false),
                after: Some(FileOpView::Remove),
            },
        ),
{
    lemma_saved_state_round_trip(SavedState::SystemMuted);
}

/// In log-only mode the manager never plans a call.
pub proof fn lemma_log_only_never_acts(m: ManagerView, volume: u32, on_exit: bool, saved: Option<SavedState>)
    requires
        m.action == AdAction::LogOnly,
    ensures
        ad_start_plan(m, volume).1 is None,
        !ad_start_plan(m, volume).0.is_muted || m.is_muted,
        unmute_plan(m, on_exit).1 is None,
        init_plan(m, saved).1 is None,
{
}

/// An ad that starts while already muted changes nothing: the saved volume is kept.
pub proof fn lemma_no_second_mute(m: ManagerView, volume: u32)
    requires
        m.is_muted,
    ensures
        ad_start_plan(m, volume).1 is None,
        ad_start_plan(m, volume).0.saved_volume == m.saved_volume,
        ad_start_plan(m, volume).0.is_muted,
{
}

/// Without a mute in progress, other media starting or shutdown plans nothing.
pub proof fn lemma_nothing_to_undo_when_unmuted(m: ManagerView, on_exit: bool)
    requires
        !m.is_muted,
    ensures
        unmute_plan(m, on_exit).1 is None,
        unmute_plan(m, on_exit).0.is_muted == m.is_muted,
{
}

/// Every operation keeps the manager's action and its well-formedness, whatever the
/// outcome of the planned call: so a manager that is muted always acts on ads.
pub proof fn lemma_operations_keep_wf(
    m: ManagerView,
    saved: Option<SavedState>,
    volume: u32,
    on_exit: bool,
    ok: bool,
)
    requires
        m.wf(),
    ensures
        init_plan(m, saved).0.wf() && init_plan(m, saved).0.action == m.action,
        ad_start_plan(m, volume).0.wf() && ad_start_plan(m, volume).0.action == m.action,
        unmute_plan(m, on_exit).0.wf() && unmute_plan(m, on_exit).0.action == m.action,
        complete_spec(m, ok).0.wf() && complete_spec(m, ok).0.action == m.action,
        m.is_muted ==> m.action != AdAction::LogOnly,
{
}

/// A manager fresh from construction is well formed.
pub proof fn lemma_fresh_manager_wf(action: AdAction)
    ensures
        fresh_manager(action).wf(),
{
}

/// At startup, any manager that acts on ads (whatever its own action) undoes the mute
/// that the state file records: it restores the recorded volume, or unmutes the system,
/// and removes the file once that succeeded. A log-only manager, or one without a
/// record, plans nothing.
pub proof fn lemma_init_recovers_recorded_mute(m: ManagerView, v: u32)
    ensures
        m.action != AdAction::LogOnly ==> {
            let saved = Some(SavedState::SpotifyMuted(v));
            &&& init_plan(m, saved).1 == Some(
                CommandView {
                    before: None,
                    call: PlatformCall::SetSpotifyVolume(v),
                    after: Some(FileOpView::Remove),
                },
            )
            &&& complete_spec(init_plan(m, saved).0, true).1 == Some(
                ActionLogEvent::RecoveredSpotifyOnStartup { restored_volume: v },
            )
            &&& !complete_spec(init_plan(m, saved).0, true).0.is_muted
        },
        m.action != AdAction::LogOnly ==> {
            let saved = Some(SavedState::SystemMuted);
            &&& init_plan(m, saved).1 == Some(
                CommandView {
                    before: None,
                    call: PlatformCall::SetSystemMuted(false),
                    after: Some(FileOpView::Remove),
                },
            )
            &&& complete_spec(init_plan(m, saved).0, true).1 == Some(
                ActionLogEvent::RecoveredSystemOnStartup,
            )
            &&& !complete_spec(init_plan(m, saved).0, true).0.is_muted
        },
        m.action == AdAction::LogOnly ==> init_plan(m, Some(SavedState::SpotifyMuted(v))).1 is None
            && init_plan(m, Some(SavedState::SystemMuted)).1 is None,
        init_plan(m, None).1 is None,
{
}

/// Each action name, in any ASCII case, reads as its own action: the three spellings
/// of "spotify-mute" as the player mute, the five names of the system mute as the
/// system mute, and "none" and the three "log" spellings as log-only mode.
pub proof fn lemma_action_names(s: Seq<char>)
    ensures
        eq_ignore_case(s, "spotify-mute"@) || eq_ignore_case(s, "spotifymute"@) || eq_ignore_case(
            s,
            "spotify_mute"@,
        ) ==> parse_action(s) == Some(AdAction::SpotifyMute),
        eq_ignore_case(s, "mute"@) || eq_ignore_case(s, "system-mute"@) || eq_ignore_case(
            s,
            "system_mute"@,
        ) || eq_ignore_case(s, "os-mute"@) || eq_ignore_case(s, "global-mute"@) ==> parse_action(s)
            == Some(AdAction::Mute),
        eq_ignore_case(s, "none"@) || eq_ignore_case(s, "log-only"@) || eq_ignore_case(
            s,
            "log_only"@,
        ) || eq_ignore_case(s, "log"@) ==> parse_action(s) == Some(AdAction::LogOnly),
{
    reveal_strlit("spotify-mute");
    reveal_strlit("spotifymute");
    reveal_strlit("spotify_mute");
    reveal_strlit("mute");
    reveal_strlit("system-mute");
    reveal_strlit("system_mute");
    reveal_strlit("os-mute");
    reveal_strlit("global-mute");
    reveal_strlit("none");
    reveal_strlit("log-only");
    reveal_strlit("log_only");
    reveal_strlit("log");
    lemma_fold_same_len(s, "spotify-mute"@);
    lemma_fold_same_len(s, "spotifymute"@);
    lemma_fold_same_len(s, "spotify_mute"@);
    lemma_fold_same_len(s, "mute"@);
    lemma_fold_same_len(s, "system-mute"@);
    lemma_fold_same_len(s, "system_mute"@);
    lemma_fold_same_len(s, "os-mute"@);
    lemma_fold_same_len(s, "global-mute"@);
    lemma_fold_same_len(s, "none"@);
    lemma_fold_same_len(s, "log-only"@);
    lemma_fold_same_len(s, "log_only"@);
    lemma_fold_same_len(s, "log"@);
    if eq_ignore_case(s, "system-mute"@) {
        lemma_fold_differs(s, "system-mute"@, "spotifymute"@, 1);
    }
    if eq_ignore_case(s, "system_mute"@) {
        lemma_fold_differs(s, "system_mute"@, "spotifymute"@, 1);
    }
    if eq_ignore_case(s, "global-mute"@) {
        lemma_fold_differs(s, "global-mute"@, "spotifymute"@, 0);
    }
    if eq_ignore_case(s, "none"@) {
        lemma_fold_differs(s, "none"@, "mute"@, 0);
    }
}

} // verus!
