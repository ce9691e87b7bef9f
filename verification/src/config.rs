//! The program's configuration and its command line.
use vstd::prelude::*;

use crate::action::{parse_action, AdAction};
use crate::text::{decimal, eq_ignore_ascii_case, eq_ignore_case, parse_u64, parse_unsigned, push_decimal, str_eq};

verus! {

/// The program's version, as its package states it.
pub const VERSION: &'static str = "0.1.0";

pub const DEFAULT_POLL_INTERVAL_MS: u64 = 1000;

pub const MIN_POLL_INTERVAL_MS: u64 = 100;

/// How the player is watched.
#[derive(Debug, Clone, Copy, PartialEq, Eq, Structural)]
pub enum DetectionMethod {
    AppleScript,
}

impl DetectionMethod {
    pub open spec fn label_spec(&self) -> Seq<char> {
        match self {
            DetectionMethod::AppleScript => "applescript"@,
        }
    }

    /// The method's name as it is shown to a reader.
    pub fn label(&self) -> (r: &'static str)
        ensures
            r@ == self.label_spec(),
    {
        match self {
            DetectionMethod::AppleScript => "applescript",
        }
    }
}

/// The program's settings.
#[derive(Debug, Clone, Copy, PartialEq, Eq, Structural)]
pub struct Config {
    pub method: DetectionMethod,
    pub action: AdAction,
    /// Time between two polls of the player, in milliseconds.
    pub poll_interval_ms: u64,
    pub verbose: bool,
}

/// The settings when the command line sets nothing.
pub open spec fn default_config() -> Config {
    Config {
        method: DetectionMethod::AppleScript,
        action: AdAction::SpotifyMute,
        poll_interval_ms: DEFAULT_POLL_INTERVAL_MS,
        verbose: true,
    }
}

impl Default for Config {
    fn default() -> (c: Self)
        ensures
            c == default_config(),
    {
        Config {
            method: DetectionMethod::AppleScript,
            action: AdAction::SpotifyMute,
            poll_interval_ms: DEFAULT_POLL_INTERVAL_MS,
            verbose: true,
        }
    }
}

/// Why the command line gives no settings.
#[derive(Debug, PartialEq, Eq)]
pub enum ConfigError {
    HelpRequested,
    VersionRequested,
    UnknownOption(String),
    MissingValue(String),
    InvalidMethod(String),
    InvalidAction(String),
    InvalidInterval(String),
}

pub enum ConfigErrorView {
    HelpRequested,
    VersionRequested,
    UnknownOption(Seq<char>),
    MissingValue(Seq<char>),
    InvalidMethod(Seq<char>),
    InvalidAction(Seq<char>),
    InvalidInterval(Seq<char>),
}

impl View for ConfigError {
    type V = ConfigErrorView;

    open spec fn view(&self) -> ConfigErrorView {
        match self {
            ConfigError::HelpRequested => ConfigErrorView::HelpRequested,
            ConfigError::VersionRequested => ConfigErrorView::VersionRequested,
            ConfigError::UnknownOption(s) => ConfigErrorView::UnknownOption(s@),
            ConfigError::MissingValue(s) => ConfigErrorView::MissingValue(s@),
            ConfigError::InvalidMethod(s) => ConfigErrorView::InvalidMethod(s@),
            ConfigError::InvalidAction(s) => ConfigErrorView::InvalidAction(s@),
            ConfigError::InvalidInterval(s) => ConfigErrorView::InvalidInterval(s@),
        }
    }
}

/// A parsing result taken as its view.
pub open spec fn config_result_view(r: Result<Config, ConfigError>) -> Result<Config, ConfigErrorView> {
    match r {
        Ok(c) => Ok(c),
        Err(e) => Err(e@),
    }
}

/// The command-line words as character sequences.
pub open spec fn arg_views(args: Seq<String>) -> Seq<Seq<char>> {
    args.map_values(|s: String| s@)
}

pub open spec fn is_help_flag(a: Seq<char>) -> bool {
    a == "-h"@ || a == "--help"@
}

pub open spec fn is_version_flag(a: Seq<char>) -> bool {
    a == "-V"@ || a == "--version"@
}

pub open spec fn is_verbose_flag(a: Seq<char>) -> bool {
    a == "-v"@ || a == "--verbose"@
}

pub open spec fn is_quiet_flag(a: Seq<char>) -> bool {
    a == "-q"@ || a == "--quiet"@ || a == "--no-verbose"@
}

pub open spec fn is_no_mute_flag(a: Seq<char>) -> bool {
    a == "--no-mute"@ || a == "--detect-only"@
}

pub open spec fn is_action_option(a: Seq<char>) -> bool {
    a == "-a"@ || a == "--action"@
}

pub open spec fn is_method_option(a: Seq<char>) -> bool {
    a == "-m"@ || a == "--method"@
}

pub open spec fn is_interval_option(a: Seq<char>) -> bool {
    a == "-i"@ || a == "--poll-interval-ms"@
}

/// Reading the command line from word `i` on, with the settings `cfg` so far. Each
/// word is a flag or an option followed by its value; the first word that cannot be
/// read ends the reading with its error. A method's name is compared ignoring ASCII
/// case, which for "applescript" is the same as full lower-casing.
pub open spec fn parse_args_from(args: Seq<Seq<char>>, i: int, cfg: Config) -> Result<Config, ConfigErrorView>
    decreases args.len() - i,
{
    if i < 0 || i >= args.len() {
        Ok(cfg)
    } else {
        let a = args[i];
        if is_help_flag(a) {
            Err(ConfigErrorView::HelpRequested)
        } else if is_version_flag(a) {
            Err(ConfigErrorView::VersionRequested)
        } else if is_verbose_flag(a) {
            parse_args_from(args, i + 1, Config { verbose: true, ..cfg })
        } else if is_quiet_flag(a) {
            parse_args_from(args, i + 1, Config { verbose: false, ..cfg })
        } else if is_no_mute_flag(a) {
            parse_args_from(args, i + 1, Config { action: AdAction::LogOnly, ..cfg })
        } else if is_action_option(a) || is_method_option(a) || is_interval_option(a) {
            if i + 1 >= args.len() {
                Err(ConfigErrorView::MissingValue(a))
            } else {
                let v = args[i + 1];
                if is_action_option(a) {
                    match parse_action(v) {
                        Some(act) => parse_args_from(args, i + 2, Config { action: act, ..cfg }),
                        None => Err(ConfigErrorView::InvalidAction(v)),
                    }
                } else if is_method_option(a) {
                    if eq_ignore_case(v, "applescript"@) {
                        parse_args_from(args, i + 2, Config { method: DetectionMethod::AppleScript, ..cfg })
                    } else {
                        Err(ConfigErrorView::InvalidMethod(v))
                    }
                } else {
                    match parse_unsigned(v, u64::MAX as int) {
                        Some(ms) => if ms < MIN_POLL_INTERVAL_MS {
                            Err(ConfigErrorView::InvalidInterval(v))
                        } else {
                            parse_args_from(args, i + 2, Config { poll_interval_ms: ms as u64, ..cfg })
                        },
                        None => Err(ConfigErrorView::InvalidInterval(v)),
                    }
                }
            }
        } else {
            Err(ConfigErrorView::UnknownOption(a))
        }
    }
}

/// Reading a whole command line; its first word is the program's name.
pub open spec fn parse_args(args: Seq<Seq<char>>) -> Result<Config, ConfigErrorView> {
    parse_args_from(args, 1, default_config())
}

fn is_one_of2(a: &str, x: &str, y: &str) -> (r: bool)
    ensures
        r == (a@ == x@ || a@ == y@),
{
    str_eq(a, x) || str_eq(a, y)
}

impl Config {
    /// Reads the command line `args`, whose first word is the program's name.
    pub fn parse_from_args(args: Vec<String>) -> (r: Result<Config, ConfigError>)
        ensures
            config_result_view(r) == parse_args(arg_views(args@)),
            r matches Ok(c) ==> c.poll_interval_ms >= MIN_POLL_INTERVAL_MS,
    {
        proof {
            lemma_accepted_interval_is_at_least_minimum(arg_views(args@));
        }
        let ghost views = arg_views(args@);
        let n = args.len();
        let mut cfg = Config {
            method: DetectionMethod::AppleScript,
            action: AdAction::SpotifyMute,
            poll_interval_ms: DEFAULT_POLL_INTERVAL_MS,
            verbose: true,
        };
        let mut i: usize = 1;
        if n == 0 {
            return Ok(cfg);
        }
        while i < n
            invariant
                n == args@.len(),
                views == arg_views(args@),
                1 <= i <= n,
                parse_args(views) == parse_args_from(views, i as int, cfg),
            decreases n - i,
        {
            let a = args[i].as_str();
            assert(a@ == views[i as int]);
            if is_one_of2(a, "-h", "--help") {
                return Err(ConfigError::HelpRequested);
            } else if is_one_of2(a, "-V", "--version") {
                return Err(ConfigError::VersionRequested);
            } else if is_one_of2(a, "-v", "--verbose") {
                cfg.verbose = true;
                i = i + 1;
            } else if str_eq(a, "-q") || str_eq(a, "--quiet") || str_eq(a, "--no-verbose") {
                cfg.verbose = false;
                i = i + 1;
            } else if is_one_of2(a, "--no-mute", "--detect-only") {
                cfg.action = AdAction::LogOnly;
                i = i + 1;
            } else if is_one_of2(a, "-a", "--action") || is_one_of2(a, "-m", "--method")
                || is_one_of2(a, "-i", "--poll-interval-ms") {
                if i + 1 >= n {
                    return Err(ConfigError::MissingValue(args[i].clone()));
                }
                let v = args[i + 1].as_str();
                assert(v@ == views[i + 1]);
                if is_one_of2(a, "-a", "--action") {
                    match AdAction::parse(v) {
                        Some(act) => {
                            cfg.action = act;
                        },
                        None => {
                            return Err(ConfigError::InvalidAction(args[i + 1].clone()));
                        },
                    }
                } else if is_one_of2(a, "-m", "--method") {
                    if eq_ignore_ascii_case(v, "applescript") {
                        cfg.method = DetectionMethod::AppleScript;
                    } else {
                        return Err(ConfigError::InvalidMethod(args[i + 1].clone()));
                    }
                } else {
                    match parse_u64(v) {
                        Some(ms) => {
                            if ms < MIN_POLL_INTERVAL_MS {
                                return Err(ConfigError::InvalidInterval(args[i + 1].clone()));
                            }
                            cfg.poll_interval_ms = ms;
                        },
                        None => {
                            return Err(ConfigError::InvalidInterval(args[i + 1].clone()));
                        },
                    }
                }
                i = i + 2;
            } else {
                return Err(ConfigError::UnknownOption(args[i].clone()));
            }
        }
        Ok(cfg)
    }
}

/// The help text up to the version.
pub const HELP_INTRO: &'static str = "wuspotify-muter ";

/// The help text from after the version up to the default poll interval.
pub const HELP_OPTIONS: &'static str = "\n\
        A lightweight macOS CLI to detect and mute Spotify advertisements.\n\n\
        USAGE:\n\
            wuspotify-muter [OPTIONS]\n\n\
        OPTIONS:\n\
            -a, --action <ACTION>            Action to take on ad detection (default: spotify-mute)\n\
                                             Supported: spotify-mute, mute (system audio), none (or log-only)\n\
            -m, --method <METHOD>            Detection method to use (default: applescript)\n\
                                             Supported: applescript\n\
            -i, --poll-interval-ms <MS>      Polling interval in milliseconds (default: ";

/// The help text after the default poll interval.
pub const HELP_REST: &'static str = ")\n\
            -q, --quiet, --no-verbose        Quiet mode: only log ads and muting actions (suppress music tracks and volume changes)\n\
            -v, --verbose                    Verbose mode (default: enabled)\n\
                --no-mute, --detect-only     Shortcut for --action none\n\
            -h, --help                       Print help information\n\
            -V, --version                    Print version information\n";

/// The help text: usage, and each option with its default.
pub open spec fn help_message_spec() -> Seq<char> {
    HELP_INTRO@ + VERSION@ + HELP_OPTIONS@ + decimal(DEFAULT_POLL_INTERVAL_MS as nat) + HELP_REST@
}

/// The help text.
pub fn help_message() -> (r: String)
    ensures
        r@ == help_message_spec(),
{
    let mut r = String::from_str(HELP_INTRO);
    r.append(VERSION);
    r.append(HELP_OPTIONS);
    push_decimal(&mut r, DEFAULT_POLL_INTERVAL_MS);
    r.append(HELP_REST);
    r
}

/// The program's name and version.
pub open spec fn version_message_spec() -> Seq<char> {
    "wuspotify-muter "@ + VERSION@
}

/// The program's name and version.
pub fn version_message() -> (r: String)
    ensures
        r@ == version_message_spec(),
{
    let mut r = String::from_str("wuspotify-muter ");
    r.append(VERSION);
    r
}

impl ConfigError {
    pub open spec fn message_spec(&self) -> Seq<char> {
        match self {
            ConfigError::HelpRequested => help_message_spec(),
            ConfigError::VersionRequested => version_message_spec(),
            ConfigError::UnknownOption(opt) => "Unknown option '"@ + opt@
                + "'. Use --help for usage."@,
            ConfigError::MissingValue(opt) => "Option '"@ + opt@ + "' requires a value."@,
            ConfigError::InvalidMethod(val) => "Unsupported detection method '"@ + val@
                + "'. Supported methods: 'applescript'. (Planned: 'notification', 'web-api', 'window-title')"@,
            ConfigError::InvalidAction(val) => "Unsupported action '"@ + val@
                + "'. Supported actions: 'spotify-mute', 'mute' (system audio), 'none' (or 'log-only'). (Planned: 'skip', 'restart')"@,
            ConfigError::InvalidInterval(val) => "Invalid poll interval '"@ + val@
                + "': must be an integer >= "@ + decimal(MIN_POLL_INTERVAL_MS as nat) + " ms."@,
        }
    }

    /// The error as it is shown to a reader.
    pub fn message(&self) -> (r: String)
        ensures
            r@ == self.message_spec(),
    {
        match self {
            ConfigError::HelpRequested => help_message(),
            ConfigError::VersionRequested => version_message(),
            ConfigError::UnknownOption(opt) => {
                let mut r = String::from_str("Unknown option '");
                r.append(opt.as_str());
                r.append("'. Use --help for usage.");
                r
            },
            ConfigError::MissingValue(opt) => {
                let mut r = String::from_str("Option '");
                r.append(opt.as_str());
                r.append("' requires a value.");
                r
            },
            ConfigError::InvalidMethod(val) => {
                let mut r = String::from_str("Unsupported detection method '");
                r.append(val.as_str());
                r.append(
                    "'. Supported methods: 'applescript'. (Planned: 'notification', 'web-api', 'window-title')",
                );
                r
            },
            ConfigError::InvalidAction(val) => {
                let mut r = String::from_str("Unsupported action '");
                r.append(val.as_str());
                r.append(
                    "'. Supported actions: 'spotify-mute', 'mute' (system audio), 'none' (or 'log-only'). (Planned: 'skip', 'restart')",
                );
                r
            },
            ConfigError::InvalidInterval(val) => {
                let mut r = String::from_str("Invalid poll interval '");
                r.append(val.as_str());
                r.append("': must be an integer >= ");
                push_decimal(&mut r, MIN_POLL_INTERVAL_MS);
                r.append(" ms.");
                r
            },
        }
    }
}

proof fn lemma_interval_floor(args: Seq<Seq<char>>, i: int, cfg: Config)
    requires
        cfg.poll_interval_ms >= MIN_POLL_INTERVAL_MS,
    ensures
        parse_args_from(args, i, cfg) matches Ok(c) ==> c.poll_interval_ms >= MIN_POLL_INTERVAL_MS,
    decreases args.len() - i,
{
    if 0 <= i < args.len() {
        lemma_interval_floor(args, i + 1, Config { verbose: true, ..cfg });
        lemma_interval_floor(args, i + 1, Config { verbose: false, ..cfg });
        lemma_interval_floor(args, i + 1, Config { action: AdAction::LogOnly, ..cfg });
        if i + 1 < args.len() {
            let v = args[i + 1];
            if let Some(act) = parse_action(v) {
                lemma_interval_floor(args, i + 2, Config { action: act, ..cfg });
            }
            lemma_interval_floor(args, i + 2, Config { method: DetectionMethod::AppleScript, ..cfg });
            crate::text::lemma_parse_unsigned_nonneg(v, u64::MAX as int);
            if let Some(ms) = parse_unsigned(v, u64::MAX as int) {
                if ms >= MIN_POLL_INTERVAL_MS {
                    lemma_interval_floor(args, i + 2, Config { poll_interval_ms: ms as u64, ..cfg });
                }
            }
        }
    }
}

/// Every accepted command line polls the player at least the minimum interval apart.
pub proof fn lemma_accepted_interval_is_at_least_minimum(args: Seq<Seq<char>>)
    ensures
        parse_args(args) matches Ok(c) ==> c.poll_interval_ms >= MIN_POLL_INTERVAL_MS,
{
    lemma_interval_floor(args, 1, default_config());
}

/// Reading a command line with more words after an accepted part goes on from the
/// settings that the accepted part gave.
pub proof fn lemma_parse_continues(args: Seq<Seq<char>>, extra: Seq<Seq<char>>, i: int, cfg: Config)
    requires
        0 <= i <= args.len(),
        parse_args_from(args, i, cfg) is Ok,
    ensures
        parse_args_from(args + extra, i, cfg) == parse_args_from(
            args + extra,
            args.len() as int,
            parse_args_from(args, i, cfg)->Ok_0,
        ),
    decreases args.len() - i,
{
    let all = args + extra;
    if i < args.len() {
        let a = args[i];
        assert(all[i] == a);
        if i + 1 < args.len() {
            assert(all[i + 1] == args[i + 1]);
        }
        if is_verbose_flag(a) {
            lemma_parse_continues(args, extra, i + 1, Config { verbose: true, ..cfg });
        } else if is_quiet_flag(a) {
            lemma_parse_continues(args, extra, i + 1, Config { verbose: false, ..cfg });
        } else if is_no_mute_flag(a) {
            lemma_parse_continues(args, extra, i + 1, Config { action: AdAction::LogOnly, ..cfg });
        } else if is_action_option(a) || is_method_option(a) || is_interval_option(a) {
            let v = args[i + 1];
            if is_action_option(a) {
                lemma_parse_continues(args, extra, i + 2, Config { action: parse_action(v)->Some_0, ..cfg });
            } else if is_method_option(a) {
                lemma_parse_continues(
                    args,
                    extra,
                    i + 2,
                    Config { method: DetectionMethod::AppleScript, ..cfg },
                );
            } else {
                let ms = parse_unsigned(v, u64::MAX as int)->Some_0;
                lemma_parse_continues(args, extra, i + 2, Config { poll_interval_ms: ms as u64, ..cfg });
            }
        }
    }
}

/// `--no-mute` at the end of an accepted command line switches to log-only mode and
/// keeps every other setting.
pub proof fn lemma_no_mute_switches_to_log_only(args: Seq<Seq<char>>)
    requires
        args.len() >= 1,
        parse_args(args) is Ok,
    ensures
        parse_args(args.push("--no-mute"@)) == Ok::<Config, ConfigErrorView>(
            Config { action: AdAction::LogOnly, ..parse_args(args)->Ok_0 },
        ),
{
    let extra = seq!["--no-mute"@];
    assert(args.push("--no-mute"@) =~= args + extra);
    lemma_parse_continues(args, extra, 1, default_config());
    let all = args + extra;
    assert(all[args.len() as int] == "--no-mute"@);
    reveal_strlit("--no-mute");
    reveal_strlit("-h");
    reveal_strlit("--help");
    reveal_strlit("-V");
    reveal_strlit("--version");
    reveal_strlit("-v");
    reveal_strlit("--verbose");
    reveal_strlit("-q");
    reveal_strlit("--quiet");
    reveal_strlit("--no-verbose");
    assert("--no-mute"@ != "--help"@);
    assert("--no-mute"@[2] != "--version"@[2]);
    assert("--no-mute"@[2] != "--verbose"@[2]);
    assert("--no-mute"@ != "--quiet"@);
    assert("--no-mute"@ != "--no-verbose"@);
    assert(is_no_mute_flag(all[args.len() as int]));
    let c = parse_args(args)->Ok_0;
    let c2 = Config { action: AdAction::LogOnly, ..c };
    assert(parse_args_from(all, args.len() as int + 1, c2) == Ok::<Config, ConfigErrorView>(c2));
    assert(parse_args_from(all, args.len() as int, c) == Ok::<Config, ConfigErrorView>(c2));
}

/// `--quiet` at the end of an accepted command line turns verbose logging off and
/// keeps every other setting.
pub proof fn lemma_quiet_turns_verbose_off(args: Seq<Seq<char>>)
    requires
        args.len() >= 1,
        parse_args(args) is Ok,
    ensures
        parse_args(args.push("--quiet"@)) == Ok::<Config, ConfigErrorView>(
            Config { verbose: false, ..parse_args(args)->Ok_0 },
        ),
{
    let extra = seq!["--quiet"@];
    assert(args.push("--quiet"@) =~= args + extra);
    lemma_parse_continues(args, extra, 1, default_config());
    let all = args + extra;
    assert(all[args.len() as int] == "--quiet"@);
    reveal_strlit("--quiet");
    reveal_strlit("-h");
    reveal_strlit("--help");
    reveal_strlit("-V");
    reveal_strlit("--version");
    reveal_strlit("-v");
    reveal_strlit("--verbose");
    assert("--quiet"@ != "--help"@);
    assert("--quiet"@ != "--version"@);
    assert("--quiet"@ != "--verbose"@);
    assert(!is_help_flag(all[args.len() as int]));
    assert(!is_version_flag(all[args.len() as int]));
    assert(!is_verbose_flag(all[args.len() as int]));
    assert(is_quiet_flag(all[args.len() as int]));
    let c = parse_args(args)->Ok_0;
    let c2 = Config { verbose: false, ..c };
    assert(parse_args_from(all, args.len() as int + 1, c2) == Ok::<Config, ConfigErrorView>(c2));
    assert(parse_args_from(all, args.len() as int, c) == Ok::<Config, ConfigErrorView>(c2));
}

/// `--help` at the end of an accepted command line asks for help.
pub proof fn lemma_help_after_accepted_words(args: Seq<Seq<char>>)
    requires
        args.len() >= 1,
        parse_args(args) is Ok,
    ensures
        parse_args(args.push("--help"@)) == Err::<Config, ConfigErrorView>(ConfigErrorView::HelpRequested),
{
    let extra = seq!["--help"@];
    assert(args.push("--help"@) =~= args + extra);
    lemma_parse_continues(args, extra, 1, default_config());
    let all = args + extra;
    assert(all[args.len() as int] == "--help"@);
}

/// A flag at the end of an accepted command line does what its name says, in each of
/// its spellings: the quiet flags turn verbose logging off, the verbose flags on, the
/// no-mute flags switch to log-only mode (every other setting kept), and the help and
/// version flags ask for help and for the version.
pub proof fn lemma_appended_flag(args: Seq<Seq<char>>, w: Seq<char>)
    requires
        args.len() >= 1,
        parse_args(args) is Ok,
    ensures
        ({
            let c = parse_args(args)->Ok_0;
            let r = parse_args(args.push(w));
            &&& w == "-q"@ || w == "--quiet"@ || w == "--no-verbose"@ ==> r == Ok::<
                Config,
                ConfigErrorView,
            >(Config { verbose: false, ..c })
            &&& w == "-v"@ || w == "--verbose"@ ==> r == Ok::<Config, ConfigErrorView>(
                Config { verbose: true, ..c },
            )
            &&& w == "--no-mute"@ || w == "--detect-only"@ ==> r == Ok::<Config, ConfigErrorView>(
                Config { action: AdAction::LogOnly, ..c },
            )
            &&& w == "-h"@ || w == "--help"@ ==> r == Err::<Config, ConfigErrorView>(
                ConfigErrorView::HelpRequested,
            )
            &&& w == "-V"@ || w == "--version"@ ==> r == Err::<Config, ConfigErrorView>(
                ConfigErrorView::VersionRequested,
            )
        }),
{
    let extra = seq![w];
    assert(args.push(w) =~= args + extra);
    lemma_parse_continues(args, extra, 1, default_config());
    let all = args + extra;
    let n = args.len() as int;
    assert(all[n] == w);
    let c = parse_args(args)->Ok_0;
    reveal_strlit("-h");
    reveal_strlit("--help");
    reveal_strlit("-V");
    reveal_strlit("--version");
    reveal_strlit("-v");
    reveal_strlit("--verbose");
    reveal_strlit("-q");
    reveal_strlit("--quiet");
    reveal_strlit("--no-verbose");
    reveal_strlit("--no-mute");
    reveal_strlit("--detect-only");
    assert("-q"@[1] != "-h"@[1] && "-q"@[1] != "-V"@[1] && "-q"@[1] != "-v"@[1]);
    assert("-v"@[1] != "-h"@[1] && "-v"@[1] != "-V"@[1]);
    assert("-V"@[1] != "-h"@[1]);
    assert("--verbose"@[5] != "--version"@[5]);
    assert("--no-mute"@[2] != "--version"@[2] && "--no-mute"@[2] != "--verbose"@[2]);
    let cq = Config { verbose: false, ..c };
    let cv = Config { verbose: true, ..c };
    let cn = Config { action: AdAction::LogOnly, ..c };
    assert(parse_args_from(all, n + 1, cq) == Ok::<Config, ConfigErrorView>(cq));
    assert(parse_args_from(all, n + 1, cv) == Ok::<Config, ConfigErrorView>(cv));
    assert(parse_args_from(all, n + 1, cn) == Ok::<Config, ConfigErrorView>(cn));
    if w == "-q"@ || w == "--quiet"@ || w == "--no-verbose"@ {
        assert(!is_help_flag(w) && !is_version_flag(w) && !is_verbose_flag(w));
        assert(is_quiet_flag(w));
    }
    if w == "-v"@ || w == "--verbose"@ {
        assert(!is_help_flag(w) && !is_version_flag(w));
        assert(is_verbose_flag(w));
    }
    if w == "--no-mute"@ || w == "--detect-only"@ {
        assert(!is_help_flag(w) && !is_version_flag(w) && !is_verbose_flag(w) && !is_quiet_flag(w));
        assert(is_no_mute_flag(w));
    }
    if w == "-V"@ || w == "--version"@ {
        assert(!is_help_flag(w));
    }
}

} // verus!
