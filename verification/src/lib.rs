//! Watches the Spotify desktop player and mutes its audio ads.
//!
//! The library holds the logic: reading the player's status line, classifying what
//! plays, turning snapshots into events, deciding how to mute and unmute (with a
//! state file for crash recovery), and reading the command line. Talking to the
//! player and to the file system is left to the caller, which carries out the
//! commands that the library plans.
pub mod action;
pub mod config;
pub mod detector;
pub mod monitor;
pub mod platform;
pub mod text;

pub use action::{
    parse_saved_state, saved_state_content, ActionCommand, ActionLogEvent, ActionManager, AdAction,
    PlatformCall, SavedState, StateFileOp, STATE_FILENAME,
};
pub use config::{
    help_message, version_message, Config, ConfigError, DetectionMethod, DEFAULT_POLL_INTERVAL_MS,
    MIN_POLL_INTERVAL_MS, VERSION,
};
pub use detector::{classify_track, AdReason, DetectionEvent, DetectorState, MediaClassification};
pub use monitor::{
    action_log_line, event_log_line, format_clock, plan_poll, shutdown_log_line, startup_log_line,
    AppError, PollPlan,
};
pub use platform::{
    parse_status_output, spotify_volume_script, system_mute_script, PlatformError, PlayerState,
    TrackInfo, SPOTIFY_STATUS_SCRIPT,
};
