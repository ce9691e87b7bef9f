use std::time::Duration;
use wuspotify_muter::{help_message, AdAction, Config, ConfigError, DetectionMethod};

#[test]
fn parses_default_config() {
    let args = vec!["wuspotify-muter".to_string()];
    let cfg = Config::parse_from_args(args).expect("should parse default");
    assert_eq!(cfg.method, DetectionMethod::AppleScript);
    assert_eq!(cfg.action, AdAction::SpotifyMute);
    assert_eq!(Duration::from_millis(cfg.poll_interval_ms), Duration::from_millis(1000));
    assert!(cfg.verbose);
}

#[test]
fn parses_flags_correctly() {
    let args = vec![
        "wuspotify-muter".to_string(),
        "--method".to_string(),
        "applescript".to_string(),
        "--action".to_string(),
        "mute".to_string(),
        "--poll-interval-ms".to_string(),
        "500".to_string(),
        "--quiet".to_string(),
    ];
    let cfg = Config::parse_from_args(args).expect("should parse flags");
    assert_eq!(cfg.method, DetectionMethod::AppleScript);
    assert_eq!(cfg.action, AdAction::Mute);
    assert_eq!(Duration::from_millis(cfg.poll_interval_ms), Duration::from_millis(500));
    assert!(!cfg.verbose);
}

#[test]
fn parses_no_mute_shortcut() {
    let args = vec!["wuspotify-muter".to_string(), "--no-mute".to_string()];
    let cfg = Config::parse_from_args(args).expect("should parse no-mute");
    assert_eq!(cfg.action, AdAction::LogOnly);
}

#[test]
fn rejects_unsupported_action() {
    let args = vec![
        "wuspotify-muter".to_string(),
        "--action".to_string(),
        "invalid_action".to_string(),
    ];
    let err = Config::parse_from_args(args).expect_err("should reject");
    assert!(matches!(err, ConfigError::InvalidAction(_)));
}

#[test]
fn rejects_unsupported_method() {
    let args = vec![
        "wuspotify-muter".to_string(),
        "--method".to_string(),
        "window-title".to_string(),
    ];
    let err = Config::parse_from_args(args).expect_err("should reject");
    assert!(matches!(err, ConfigError::InvalidMethod(_)));
}

#[test]
fn rejects_too_low_interval() {
    let args = vec![
        "wuspotify-muter".to_string(),
        "--poll-interval-ms".to_string(),
        "50".to_string(),
    ];
    let err = Config::parse_from_args(args).expect_err("should reject");
    assert!(matches!(err, ConfigError::InvalidInterval(_)));
}

fn words(ws: &[&str]) -> Vec<String> {
    ws.iter().map(|w| w.to_string()).collect()
}

#[test]
fn each_config_error_has_its_input() {
    assert_eq!(
        Config::parse_from_args(words(&["p", "-h", "--bogus"])),
        Err(ConfigError::HelpRequested)
    );
    assert_eq!(
        Config::parse_from_args(words(&["p", "-V"])),
        Err(ConfigError::VersionRequested)
    );
    assert_eq!(
        Config::parse_from_args(words(&["p", "--bogus"])),
        Err(ConfigError::UnknownOption("--bogus".to_string()))
    );
    assert_eq!(
        Config::parse_from_args(words(&["p", "-a"])),
        Err(ConfigError::MissingValue("-a".to_string()))
    );
    assert_eq!(
        Config::parse_from_args(words(&["p", "-m", "WEB"])),
        Err(ConfigError::InvalidMethod("WEB".to_string()))
    );
    assert_eq!(
        Config::parse_from_args(words(&["p", "--action", "skip"])),
        Err(ConfigError::InvalidAction("skip".to_string()))
    );
    assert_eq!(
        Config::parse_from_args(words(&["p", "-i", "abc"])),
        Err(ConfigError::InvalidInterval("abc".to_string()))
    );
    assert_eq!(
        Config::parse_from_args(words(&["p", "-i", "18446744073709551616"])),
        Err(ConfigError::InvalidInterval("18446744073709551616".to_string()))
    );
}

#[test]
fn later_words_override_earlier_ones() {
    let cfg = Config::parse_from_args(words(&[
        "p", "-q", "-v", "-a", "MUTE", "--detect-only", "-i", "+100", "-m", "AppleScript",
    ]))
    .expect("valid");
    assert!(cfg.verbose);
    assert_eq!(cfg.action, AdAction::LogOnly);
    assert_eq!(cfg.poll_interval_ms, 100);
    let cfg = Config::parse_from_args(words(&["p", "-i", "18446744073709551615"])).expect("valid");
    assert_eq!(cfg.poll_interval_ms, u64::MAX);
}

#[test]
fn empty_command_line_gives_defaults() {
    let cfg = Config::parse_from_args(Vec::new()).expect("valid");
    assert_eq!(cfg, Config::default());
}

#[test]
fn config_error_messages() {
    assert_eq!(
        ConfigError::UnknownOption("-x".to_string()).message(),
        "Unknown option '-x'. Use --help for usage."
    );
    assert_eq!(
        ConfigError::MissingValue("-a".to_string()).message(),
        "Option '-a' requires a value."
    );
    assert_eq!(
        ConfigError::InvalidInterval("5".to_string()).message(),
        "Invalid poll interval '5': must be an integer >= 100 ms."
    );
    assert_eq!(ConfigError::VersionRequested.message(), "wuspotify-muter 0.1.0");
    assert_eq!(ConfigError::HelpRequested.message(), help_message());
}

#[test]
fn help_message_lists_options_and_default_interval() {
    let help = help_message();
    assert!(help.starts_with("wuspotify-muter 0.1.0\nA lightweight macOS CLI"));
    assert!(help.contains("USAGE:\nwuspotify-muter [OPTIONS]\n\nOPTIONS:\n-a, --action <ACTION>"));
    assert!(help.contains("(default: 1000)\n-q, --quiet"));
    assert!(help.ends_with("-V, --version                    Print version information\n"));
}
