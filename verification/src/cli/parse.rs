//! Parsing of the command line.
//!
//! The grammar: options are `--name`, `--name=value`, `--name value`, `-x`,
//! `-xVALUE`, `-x=VALUE`, `-x value`, and clusters of flags such as `-ey`.
//! A value in a token of its own may not start with `-` (unless it is `-`).
//! `--` makes every later token a positional one. `--config` is accepted at
//! every level; `--help`/`-h` at every level and `--version`/`-V` at the top
//! level end the parse. An option given twice is an error. Paths may not be
//! empty; numbers are decimal, with an optional `+`.

use vstd::prelude::*;
use crate::cli::{Cli, Command};
use crate::cli::skill::SkillCommand;
use crate::text::{find_char, spec_find, str_eq, substring};

verus! {

/// Where the parser stands: at the top, after `skill`, or in a skill
/// subcommand.
#[derive(Debug, Clone, Copy, PartialEq, Eq, Structural)]
pub enum Level {
    Top,
    Skill,
    Install,
    Search,
    List,
    Info,
    Update,
    Outdated,
    Uninstall,
}

/// The options of the command line.
#[derive(Debug, Clone, Copy, PartialEq, Eq, Structural)]
pub enum Opt {
    Config,
    CheckHealth,
    CheckHealthInterval,
    WebUi,
    LogDestination,
    LogFile,
    Help,
    Version,
    Dir,
    Name,
    Enable,
    Category,
    Limit,
    Remote,
    All,
    Yes,
}

/// Why a command line was refused (or, for help and version, answered
/// without running).
#[derive(Debug, Clone, Copy, PartialEq, Eq, Structural)]
pub enum CliErrorKind {
    /// An option that the level does not have, or a positional argument too many.
    UnknownArgument,
    /// A subcommand that does not exist.
    InvalidSubcommand,
    /// An option without its value.
    MissingValue,
    /// A flag given a value.
    UnexpectedValue,
    /// An option given twice.
    ArgumentConflict,
    /// `skill` without a subcommand.
    MissingSubcommand,
    /// A subcommand without its required argument.
    MissingRequired,
    /// An empty path or a value that is not a number in range.
    InvalidValue,
    /// Help was asked for.
    DisplayHelp,
    /// The version was asked for.
    DisplayVersion,
}

/// A refused command line.
#[derive(Debug, Clone, Copy)]
pub struct CliError {
    /// Why it was refused.
    pub kind: CliErrorKind,
}

/// A value in the command line: the characters of token `tok` from `from` on.
#[derive(Debug, Clone, Copy, PartialEq, Eq, Structural)]
pub struct Piece {
    pub tok: usize,
    pub from: usize,
}

/// What the parser has seen so far.
#[derive(Debug, Clone, Copy, PartialEq, Eq, Structural)]
pub struct ScanState {
    pub level: Level,
    /// `--` was seen.
    pub escaped: bool,
    pub config: Option<Piece>,
    pub check_health: bool,
    pub interval: Option<Piece>,
    pub web_ui: Option<Piece>,
    pub log_destination: Option<Piece>,
    pub log_file: Option<Piece>,
    pub dir: Option<Piece>,
    pub name: Option<Piece>,
    pub enable: bool,
    pub category: Option<Piece>,
    pub limit: Option<Piece>,
    pub remote: bool,
    pub all: bool,
    pub yes: bool,
    /// The subcommand's positional argument.
    pub positional: Option<Piece>,
}

/// The state before the first argument.
pub open spec fn initial_state() -> ScanState {
    ScanState {
        level: Level::Top,
        escaped: false,
        config: None,
        check_health: false,
        interval: None,
        web_ui: None,
        log_destination: None,
        log_file: None,
        dir: None,
        name: None,
        enable: false,
        category: None,
        limit: None,
        remote: false,
        all: false,
        yes: false,
        positional: None,
    }
}

/// The characters of each argument.
pub open spec fn tokens(args: Seq<&str>) -> Seq<Seq<char>> {
    args.map_values(|s: &str| s@)
}

/// The option named `--name` at a level.
pub open spec fn spec_long_opt(level: Level, name: Seq<char>) -> Option<Opt> {
    if name == "config"@ {
        Some(Opt::Config)
    } else if name == "help"@ {
        Some(Opt::Help)
    } else {
        match level {
            Level::Top => if name == "check-health"@ {
                Some(Opt::CheckHealth)
            } else if name == "check-health-interval"@ {
                Some(Opt::CheckHealthInterval)
            } else if name == "web-ui"@ {
                Some(Opt::WebUi)
            } else if name == "log-destination"@ {
                Some(Opt::LogDestination)
            } else if name == "log-file"@ {
                Some(Opt::LogFile)
            } else if name == "version"@ {
                Some(Opt::Version)
            } else {
                None
            },
            Level::Install => if name == "dir"@ {
                Some(Opt::Dir)
            } else if name == "name"@ {
                Some(Opt::Name)
            } else if name == "enable"@ {
                Some(Opt::Enable)
            } else {
                None
            },
            Level::Search => if name == "category"@ {
                Some(Opt::Category)
            } else if name == "limit"@ {
                Some(Opt::Limit)
            } else {
                None
            },
            Level::List => if name == "remote"@ {
                Some(Opt::Remote)
            } else if name == "category"@ {
                Some(Opt::Category)
            } else if name == "limit"@ {
                Some(Opt::Limit)
            } else {
                None
            },
            Level::Update => if name == "all"@ {
                Some(Opt::All)
            } else {
                None
            },
            Level::Uninstall => if name == "yes"@ {
                Some(Opt::Yes)
            } else {
                None
            },
            _ => None,
        }
    }
}

/// The option named `-c` at a level.
pub open spec fn spec_short_opt(level: Level, c: char) -> Option<Opt> {
    if c == 'h' {
        Some(Opt::Help)
    } else {
        match level {
            Level::Top => if c == 'V' {
                Some(Opt::Version)
            } else {
                None
            },
            Level::Install => if c == 'd' {
                Some(Opt::Dir)
            } else if c == 'e' {
                Some(Opt::Enable)
            } else {
                None
            },
            Level::Search => if c == 'c' {
                Some(Opt::Category)
            } else if c == 'n' {
                Some(Opt::Limit)
            } else {
                None
            },
            Level::List => if c == 'r' {
                Some(Opt::Remote)
            } else if c == 'c' {
                Some(Opt::Category)
            } else if c == 'n' {
                Some(Opt::Limit)
            } else {
                None
            },
            Level::Update => if c == 'a' {
                Some(Opt::All)
            } else {
                None
            },
            Level::Uninstall => if c == 'y' {
                Some(Opt::Yes)
            } else {
                None
            },
            _ => None,
        }
    }
}

/// The option takes a value.
pub open spec fn takes_value(o: Opt) -> bool {
    match o {
        Opt::Config | Opt::CheckHealthInterval | Opt::WebUi | Opt::LogDestination | Opt::LogFile
        | Opt::Dir | Opt::Name | Opt::Category | Opt::Limit => true,
        _ => false,
    }
}

/// A token that can be the value of the option before it.
pub open spec fn value_like(t: Seq<char>) -> bool {
    t.len() == 0 || t[0] != '-' || t == "-"@
}

/// The state after option `o` with value `v`: help and version end the
/// parse; an option seen before is an error.
pub open spec fn spec_set(st: ScanState, o: Opt, v: Option<Piece>) -> Result<ScanState, CliErrorKind> {
    match o {
        Opt::Help => Err(CliErrorKind::DisplayHelp),
        Opt::Version => Err(CliErrorKind::DisplayVersion),
        Opt::Config => if st.config is Some { Err(CliErrorKind::ArgumentConflict) } else { Ok(ScanState { config: v, ..st }) },
        Opt::CheckHealth => if st.check_health { Err(CliErrorKind::ArgumentConflict) } else { Ok(ScanState { check_health: true, ..st }) },
        Opt::CheckHealthInterval => if st.interval is Some { Err(CliErrorKind::ArgumentConflict) } else { Ok(ScanState { interval: v, ..st }) },
        Opt::WebUi => if st.web_ui is Some { Err(CliErrorKind::ArgumentConflict) } else { Ok(ScanState { web_ui: v, ..st }) },
        Opt::LogDestination => if st.log_destination is Some { Err(CliErrorKind::ArgumentConflict) } else { Ok(ScanState { log_destination: v, ..st }) },
        Opt::LogFile => if st.log_file is Some { Err(CliErrorKind::ArgumentConflict) } else { Ok(ScanState { log_file: v, ..st }) },
        Opt::Dir => if st.dir is Some { Err(CliErrorKind::ArgumentConflict) } else { Ok(ScanState { dir: v, ..st }) },
        Opt::Name => if st.name is Some { Err(CliErrorKind::ArgumentConflict) } else { Ok(ScanState { name: v, ..st }) },
        Opt::Enable => if st.enable { Err(CliErrorKind::ArgumentConflict) } else { Ok(ScanState { enable: true, ..st }) },
        Opt::Category => if st.category is Some { Err(CliErrorKind::ArgumentConflict) } else { Ok(ScanState { category: v, ..st }) },
        Opt::Limit => if st.limit is Some { Err(CliErrorKind::ArgumentConflict) } else { Ok(ScanState { limit: v, ..st }) },
        Opt::Remote => if st.remote { Err(CliErrorKind::ArgumentConflict) } else { Ok(ScanState { remote: true, ..st }) },
        Opt::All => if st.all { Err(CliErrorKind::ArgumentConflict) } else { Ok(ScanState { all: true, ..st }) },
        Opt::Yes => if st.yes { Err(CliErrorKind::ArgumentConflict) } else { Ok(ScanState { yes: true, ..st }) },
    }
}

/// A state result paired with the index of the next token.
pub open spec fn spec_then(r: Result<ScanState, CliErrorKind>, next: int) -> Result<(int, ScanState), CliErrorKind> {
    match r {
        Ok(st) => Ok((next, st)),
        Err(e) => Err(e),
    }
}

/// The value of an option whose name ends token `i`: the next token, if it
/// can be a value.
pub open spec fn spec_value_in_next(toks: Seq<Seq<char>>, i: int, st: ScanState, o: Opt) -> Result<(int, ScanState), CliErrorKind> {
    if i + 1 < toks.len() && value_like(toks[i + 1]) {
        spec_then(spec_set(st, o, Some(Piece { tok: (i + 1) as usize, from: 0 })), i + 2)
    } else {
        Err(CliErrorKind::MissingValue)
    }
}

/// Token `i` is a long option `--name` or `--name=value`.
pub open spec fn spec_long(toks: Seq<Seq<char>>, i: int, st: ScanState) -> Result<(int, ScanState), CliErrorKind> {
    let t = toks[i];
    let e = spec_find(t, '=');
    let name = if e >= 0 { t.subrange(2, e) } else { t.subrange(2, t.len() as int) };
    match spec_long_opt(st.level, name) {
        None => Err(CliErrorKind::UnknownArgument),
        Some(o) => if takes_value(o) {
            if e >= 0 {
                spec_then(spec_set(st, o, Some(Piece { tok: i as usize, from: (e + 1) as usize })), i + 1)
            } else {
                spec_value_in_next(toks, i, st, o)
            }
        } else if e >= 0 {
            Err(CliErrorKind::UnexpectedValue)
        } else {
            spec_then(spec_set(st, o, None), i + 1)
        },
    }
}

/// The characters of token `i` from `k` on are short options.
pub open spec fn spec_short(toks: Seq<Seq<char>>, i: int, k: int, st: ScanState) -> Result<(int, ScanState), CliErrorKind>
    decreases toks[i].len() - k,
{
    let t = toks[i];
    if k < 1 || k >= t.len() {
        Ok((i + 1, st))
    } else {
        match spec_short_opt(st.level, t[k]) {
            None => Err(CliErrorKind::UnknownArgument),
            Some(o) => if takes_value(o) {
                if k + 1 < t.len() {
                    let from = if t[k + 1] == '=' { k + 2 } else { k + 1 };
                    spec_then(spec_set(st, o, Some(Piece { tok: i as usize, from: from as usize })), i + 1)
                } else {
                    spec_value_in_next(toks, i, st, o)
                }
            } else {
                match spec_set(st, o, None) {
                    Err(e) => Err(e),
                    Ok(st2) => spec_short(toks, i, k + 1, st2),
                }
            },
        }
    }
}

/// The skill subcommand of a name.
pub open spec fn spec_sub_level(t: Seq<char>) -> Option<Level> {
    if t == "install"@ {
        Some(Level::Install)
    } else if t == "search"@ {
        Some(Level::Search)
    } else if t == "list"@ {
        Some(Level::List)
    } else if t == "info"@ {
        Some(Level::Info)
    } else if t == "update"@ {
        Some(Level::Update)
    } else if t == "outdated"@ {
        Some(Level::Outdated)
    } else if t == "uninstall"@ {
        Some(Level::Uninstall)
    } else {
        None
    }
}

/// Token `i` is a positional argument: a subcommand's name at the top and
/// after `skill`, else the subcommand's argument.
pub open spec fn spec_positional(toks: Seq<Seq<char>>, i: int, st: ScanState) -> Result<(int, ScanState), CliErrorKind> {
    let t = toks[i];
    match st.level {
        Level::Top => if !st.escaped && t == "skill"@ {
            Ok((i + 1, ScanState { level: Level::Skill, ..st }))
        } else if !st.escaped && t == "help"@ {
            Err(CliErrorKind::DisplayHelp)
        } else {
            Err(CliErrorKind::InvalidSubcommand)
        },
        Level::Skill => if st.escaped {
            Err(CliErrorKind::InvalidSubcommand)
        } else {
            match spec_sub_level(t) {
                Some(l) => Ok((i + 1, ScanState { level: l, ..st })),
                None => if t == "help"@ { Err(CliErrorKind::DisplayHelp) } else { Err(CliErrorKind::InvalidSubcommand) },
            }
        },
        Level::List | Level::Outdated => Err(CliErrorKind::UnknownArgument),
        _ => if st.positional is Some {
            Err(CliErrorKind::UnknownArgument)
        } else {
            Ok((i + 1, ScanState { positional: Some(Piece { tok: i as usize, from: 0 }), ..st }))
        },
    }
}

/// The effect of token `i`.
pub open spec fn spec_step(toks: Seq<Seq<char>>, i: int, st: ScanState) -> Result<(int, ScanState), CliErrorKind> {
    let t = toks[i];
    if !st.escaped && t == "--"@ {
        Ok((i + 1, ScanState { escaped: true, ..st }))
    } else if !st.escaped && t.len() > 2 && t[0] == '-' && t[1] == '-' {
        spec_long(toks, i, st)
    } else if !st.escaped && t.len() >= 2 && t[0] == '-' {
        spec_short(toks, i, 1, st)
    } else {
        spec_positional(toks, i, st)
    }
}

/// The state after the tokens from `i` on.
pub open spec fn spec_scan(toks: Seq<Seq<char>>, i: int, st: ScanState) -> Result<ScanState, CliErrorKind>
    decreases toks.len() - i,
{
    if i < 0 || i >= toks.len() {
        Ok(st)
    } else {
        match spec_step(toks, i, st) {
            Err(e) => Err(e),
            Ok(p) => if i < p.0 <= toks.len() { spec_scan(toks, p.0, p.1) } else { Ok(p.1) },
        }
    }
}

/// Every value in the state lies within the tokens.
pub open spec fn piece_ok(toks: Seq<Seq<char>>, p: Option<Piece>) -> bool {
    p matches Some(q) ==> q.tok < toks.len() && q.from <= toks[q.tok as int].len()
}

/// Every value of the state lies within the tokens.
pub open spec fn state_ok(toks: Seq<Seq<char>>, st: ScanState) -> bool {
    &&& piece_ok(toks, st.config)
    &&& piece_ok(toks, st.interval)
    &&& piece_ok(toks, st.web_ui)
    &&& piece_ok(toks, st.log_destination)
    &&& piece_ok(toks, st.log_file)
    &&& piece_ok(toks, st.dir)
    &&& piece_ok(toks, st.name)
    &&& piece_ok(toks, st.category)
    &&& piece_ok(toks, st.limit)
    &&& piece_ok(toks, st.positional)
}

/// The text of a value.
pub open spec fn spec_piece(toks: Seq<Seq<char>>, p: Piece) -> Seq<char> {
    toks[p.tok as int].subrange(p.from as int, toks[p.tok as int].len() as int)
}

/// The text of an optional value, or a default.
pub open spec fn spec_value_or(toks: Seq<Seq<char>>, p: Option<Piece>, default: Seq<char>) -> Seq<char> {
    match p {
        Some(q) => spec_piece(toks, q),
        None => default,
    }
}

/// The text of an optional value.
pub open spec fn spec_opt_value(toks: Seq<Seq<char>>, p: Option<Piece>) -> Option<Seq<char>> {
    match p {
        Some(q) => Some(spec_piece(toks, q)),
        None => None,
    }
}

/// `c` is a decimal digit.
pub open spec fn is_digit(c: char) -> bool {
    '0' <= c && c <= '9'
}

/// The number that a string of decimal digits denotes.
pub open spec fn spec_digits_value(s: Seq<char>) -> nat
    decreases s.len(),
{
    if s.len() == 0 {
        0
    } else {
        spec_digits_value(s.drop_last()) * 10 + ((s.last() as int) - ('0' as int)) as nat
    }
}

/// The unsigned number that `s` denotes, as `str::parse` reads it: an
/// optional `+`, then one or more decimal digits.
pub open spec fn spec_parse_unsigned(s: Seq<char>) -> Option<nat> {
    let d = unsigned_digits(s);
    if d.len() > 0 && all_digits(d) {
        Some(spec_digits_value(d))
    } else {
        None
    }
}

/// The digits of an unsigned number: without a leading `+`.
pub open spec fn unsigned_digits(s: Seq<char>) -> Seq<char> {
    if s.len() > 0 && s[0] == '+' { s.subrange(1, s.len() as int) } else { s }
}

/// Every character is a decimal digit.
pub open spec fn all_digits(d: Seq<char>) -> bool {
    forall|i: int| 0 <= i < d.len() ==> is_digit(#[trigger] d[i])
}

/// The skill subcommand a level has a positional argument for, that it needs.
pub open spec fn needs_positional(level: Level) -> bool {
    level == Level::Install || level == Level::Search || level == Level::Info || level == Level::Uninstall
}

/// The parsed command line, as values.
pub struct CliV {
    pub config: Seq<char>,
    pub command: Option<SkillCommandV>,
    pub check_health: bool,
    pub check_health_interval: nat,
    pub web_ui: Seq<char>,
    pub log_destination: Seq<char>,
    pub log_file: Option<Seq<char>>,
}

/// A skill subcommand, as values.
pub enum SkillCommandV {
    Install { source: Seq<char>, name: Option<Seq<char>>, dir: Option<Seq<char>>, enable: bool },
    Search { query: Seq<char>, category: Option<Seq<char>>, limit: nat },
    List { remote: bool, category: Option<Seq<char>>, limit: nat },
    Info { name: Seq<char> },
    Update { name: Option<Seq<char>>, all: bool },
    Outdated,
    Uninstall { name: Seq<char>, yes: bool },
}

/// The subcommand of a final state.
pub open spec fn spec_command(toks: Seq<Seq<char>>, st: ScanState, limit: nat) -> Option<SkillCommandV> {
    let pos = spec_value_or(toks, st.positional, Seq::empty());
    match st.level {
        Level::Install => Some(SkillCommandV::Install {
            source: pos,
            name: spec_opt_value(toks, st.name),
            dir: spec_opt_value(toks, st.dir),
            enable: st.enable,
        }),
        Level::Search => Some(SkillCommandV::Search { query: pos, category: spec_opt_value(toks, st.category), limit }),
        Level::List => Some(SkillCommandV::List { remote: st.remote, category: spec_opt_value(toks, st.category), limit }),
        Level::Info => Some(SkillCommandV::Info { name: pos }),
        Level::Update => Some(SkillCommandV::Update { name: spec_opt_value(toks, st.positional), all: st.all }),
        Level::Outdated => Some(SkillCommandV::Outdated),
        Level::Uninstall => Some(SkillCommandV::Uninstall { name: pos, yes: st.yes }),
        _ => None,
    }
}

/// The command line of a final state: `skill` needs a subcommand and a
/// subcommand its argument; paths may not be empty and numbers must be in
/// range; defaults fill what was not given.
pub open spec fn spec_finish(toks: Seq<Seq<char>>, st: ScanState) -> Result<CliV, CliErrorKind> {
    let config = spec_value_or(toks, st.config, "config.toml"@);
    let web_ui = spec_value_or(toks, st.web_ui, "chatbot-ui"@);
    let interval = match st.interval {
        Some(p) => spec_parse_unsigned(spec_piece(toks, p)),
        None => Some(60nat),
    };
    let limit = match st.limit {
        Some(p) => spec_parse_unsigned(spec_piece(toks, p)),
        None => Some(10nat),
    };
    if st.level == Level::Skill {
        Err(CliErrorKind::MissingSubcommand)
    } else if needs_positional(st.level) && st.positional is None {
        Err(CliErrorKind::MissingRequired)
    } else if config.len() == 0 || web_ui.len() == 0 || (st.dir matches Some(p) && spec_piece(toks, p).len() == 0) {
        Err(CliErrorKind::InvalidValue)
    } else if interval is None || interval->0 > u64::MAX || limit is None || limit->0 > usize::MAX {
        Err(CliErrorKind::InvalidValue)
    } else {
        Ok(CliV {
            config,
            command: spec_command(toks, st, limit->0),
            check_health: st.check_health,
            check_health_interval: interval->0,
            web_ui,
            log_destination: spec_value_or(toks, st.log_destination, "stdout"@),
            log_file: spec_opt_value(toks, st.log_file),
        })
    }
}

/// The command line that the arguments give (the first is the program's name).
pub open spec fn spec_parse_cli(toks: Seq<Seq<char>>) -> Result<CliV, CliErrorKind> {
    match spec_scan(toks, 1, initial_state()) {
        Err(e) => Err(e),
        Ok(st) => spec_finish(toks, st),
    }
}


/// The option named `--name` at a level.
fn long_opt(level: Level, name: &str) -> (r: Option<Opt>)
    ensures
        r == spec_long_opt(level, name@),
{
    proof {
        reveal_strlit("config");
        reveal_strlit("help");
        reveal_strlit("check-health");
        reveal_strlit("check-health-interval");
        reveal_strlit("web-ui");
        reveal_strlit("log-destination");
        reveal_strlit("log-file");
        reveal_strlit("version");
        reveal_strlit("dir");
        reveal_strlit("name");
        reveal_strlit("enable");
        reveal_strlit("category");
        reveal_strlit("limit");
        reveal_strlit("remote");
        reveal_strlit("all");
        reveal_strlit("yes");
    }
    if str_eq(name, "config") {
        return Some(Opt::Config);
    }
    if str_eq(name, "help") {
        return Some(Opt::Help);
    }
    match level {
        Level::Top => if str_eq(name, "check-health") {
            Some(Opt::CheckHealth)
        } else if str_eq(name, "check-health-interval") {
            Some(Opt::CheckHealthInterval)
        } else if str_eq(name, "web-ui") {
            Some(Opt::WebUi)
        } else if str_eq(name, "log-destination") {
            Some(Opt::LogDestination)
        } else if str_eq(name, "log-file") {
            Some(Opt::LogFile)
        } else if str_eq(name, "version") {
            Some(Opt::Version)
        } else {
            None
        },
        Level::Install => if str_eq(name, "dir") {
            Some(Opt::Dir)
        } else if str_eq(name, "name") {
            Some(Opt::Name)
        } else if str_eq(name, "enable") {
            Some(Opt::Enable)
        } else {
            None
        },
        Level::Search => if str_eq(name, "category") {
            Some(Opt::Category)
        } else if str_eq(name, "limit") {
            Some(Opt::Limit)
        } else {
            None
        },
        Level::List => if str_eq(name, "remote") {
            Some(Opt::Remote)
        } else if str_eq(name, "category") {
            Some(Opt::Category)
        } else if str_eq(name, "limit") {
            Some(Opt::Limit)
        } else {
            None
        },
        Level::Update => if str_eq(name, "all") {
            Some(Opt::All)
        } else {
            None
        },
        Level::Uninstall => if str_eq(name, "yes") {
            Some(Opt::Yes)
        } else {
            None
        },
        _ => None,
    }
}

/// The option named `-c` at a level.
fn short_opt(level: Level, c: char) -> (r: Option<Opt>)
    ensures
        r == spec_short_opt(level, c),
{
    if c == 'h' {
        return Some(Opt::Help);
    }
    match level {
        Level::Top => if c == 'V' { Some(Opt::Version) } else { None },
        Level::Install => if c == 'd' {
            Some(Opt::Dir)
        } else if c == 'e' {
            Some(Opt::Enable)
        } else {
            None
        },
        Level::Search => if c == 'c' {
            Some(Opt::Category)
        } else if c == 'n' {
            Some(Opt::Limit)
        } else {
            None
        },
        Level::List => if c == 'r' {
            Some(Opt::Remote)
        } else if c == 'c' {
            Some(Opt::Category)
        } else if c == 'n' {
            Some(Opt::Limit)
        } else {
            None
        },
        Level::Update => if c == 'a' { Some(Opt::All) } else { None },
        Level::Uninstall => if c == 'y' { Some(Opt::Yes) } else { None },
        _ => None,
    }
}

/// Whether the option takes a value.
fn option_takes_value(o: Opt) -> (r: bool)
    ensures
        r == takes_value(o),
{
    match o {
        Opt::Config | Opt::CheckHealthInterval | Opt::WebUi | Opt::LogDestination | Opt::LogFile
        | Opt::Dir | Opt::Name | Opt::Category | Opt::Limit => true,
        _ => false,
    }
}

/// Whether a token can be the value of the option before it.
fn is_value_like(t: &str) -> (r: bool)
    ensures
        r == value_like(t@),
{
    proof {
        reveal_strlit("-");
    }
    let n = t.unicode_len();
    if n == 0 {
        return true;
    }
    if t.get_char(0) != '-' {
        return true;
    }
    str_eq(t, "-")
}

/// The state after option `o` with value `v`.
fn set_opt(st: ScanState, o: Opt, v: Option<Piece>) -> (r: Result<ScanState, CliErrorKind>)
    ensures
        r == spec_set(st, o, v),
{
    match o {
        Opt::Help => Err(CliErrorKind::DisplayHelp),
        Opt::Version => Err(CliErrorKind::DisplayVersion),
        Opt::Config => if st.config.is_some() { Err(CliErrorKind::ArgumentConflict) } else { Ok(ScanState { config: v, ..st }) },
        Opt::CheckHealth => if st.check_health { Err(CliErrorKind::ArgumentConflict) } else { Ok(ScanState { check_health: true, ..st }) },
        Opt::CheckHealthInterval => if st.interval.is_some() { Err(CliErrorKind::ArgumentConflict) } else { Ok(ScanState { interval: v, ..st }) },
        Opt::WebUi => if st.web_ui.is_some() { Err(CliErrorKind::ArgumentConflict) } else { Ok(ScanState { web_ui: v, ..st }) },
        Opt::LogDestination => if st.log_destination.is_some() { Err(CliErrorKind::ArgumentConflict) } else { Ok(ScanState { log_destination: v, ..st }) },
        Opt::LogFile => if st.log_file.is_some() { Err(CliErrorKind::ArgumentConflict) } else { Ok(ScanState { log_file: v, ..st }) },
        Opt::Dir => if st.dir.is_some() { Err(CliErrorKind::ArgumentConflict) } else { Ok(ScanState { dir: v, ..st }) },
        Opt::Name => if st.name.is_some() { Err(CliErrorKind::ArgumentConflict) } else { Ok(ScanState { name: v, ..st }) },
        Opt::Enable => if st.enable { Err(CliErrorKind::ArgumentConflict) } else { Ok(ScanState { enable: true, ..st }) },
        Opt::Category => if st.category.is_some() { Err(CliErrorKind::ArgumentConflict) } else { Ok(ScanState { category: v, ..st }) },
        Opt::Limit => if st.limit.is_some() { Err(CliErrorKind::ArgumentConflict) } else { Ok(ScanState { limit: v, ..st }) },
        Opt::Remote => if st.remote { Err(CliErrorKind::ArgumentConflict) } else { Ok(ScanState { remote: true, ..st }) },
        Opt::All => if st.all { Err(CliErrorKind::ArgumentConflict) } else { Ok(ScanState { all: true, ..st }) },
        Opt::Yes => if st.yes { Err(CliErrorKind::ArgumentConflict) } else { Ok(ScanState { yes: true, ..st }) },
    }
}

/// Setting an option keeps every value within the tokens.
proof fn lemma_set_ok(toks: Seq<Seq<char>>, st: ScanState, o: Opt, v: Option<Piece>)
    requires
        state_ok(toks, st),
        piece_ok(toks, v),
    ensures
        spec_set(st, o, v) matches Ok(st2) ==> state_ok(toks, st2) && st2.level == st.level && st2.escaped == st.escaped,
{
}

/// A step result that keeps the values within the tokens and moves on.
pub open spec fn step_ok(toks: Seq<Seq<char>>, i: int, r: Result<(int, ScanState), CliErrorKind>) -> bool {
    r matches Ok(p) ==> i < p.0 <= toks.len() && state_ok(toks, p.1)
}

/// The value of option `o` taken from the token after `i`.
fn value_in_next(args: &[&str], i: usize, st: ScanState, o: Opt) -> (r: Result<(usize, ScanState), CliErrorKind>)
    requires
        i < args@.len(),
        state_ok(tokens(args@), st),
    ensures
        spec_then_usize(r) == spec_value_in_next(tokens(args@), i as int, st, o),
        step_ok(tokens(args@), i as int, spec_then_usize(r)),
{
    let ghost toks = tokens(args@);
    let len = args.len();
    if i + 1 < len && is_value_like(args[i + 1]) {
        let p = Piece { tok: i + 1, from: 0 };
        proof {
            lemma_set_ok(toks, st, o, Some(p));
        }
        match set_opt(st, o, Some(p)) {
            Ok(st2) => Ok((i + 2, st2)),
            Err(e) => Err(e),
        }
    } else {
        Err(CliErrorKind::MissingValue)
    }
}

/// An exec step result as a spec one.
pub open spec fn spec_then_usize(r: Result<(usize, ScanState), CliErrorKind>) -> Result<(int, ScanState), CliErrorKind> {
    match r {
        Ok(p) => Ok((p.0 as int, p.1)),
        Err(e) => Err(e),
    }
}

/// Token `i` as a long option.
fn long_step(args: &[&str], i: usize, st: ScanState) -> (r: Result<(usize, ScanState), CliErrorKind>)
    requires
        i < args@.len(),
        args@[i as int]@.len() > 2,
        args@[i as int]@[0] == '-',
        args@[i as int]@[1] == '-',
        state_ok(tokens(args@), st),
    ensures
        spec_then_usize(r) == spec_long(tokens(args@), i as int, st),
        step_ok(tokens(args@), i as int, spec_then_usize(r)),
{
    let ghost toks = tokens(args@);
    let t = args[i];
    assert(toks[i as int] == t@);
    let n = t.unicode_len();
    let eq = find_char(t, '=');
    proof {
        crate::text::lemma_find_from_range(t@, '=', 0);
    }
    let name = match eq {
        Some(e) => {
            assert(e >= 2) by {
                assert(t@[0] != '=' && t@[1] != '=');
            }
            substring(t, 2, e)
        },
        None => substring(t, 2, n),
    };
    match long_opt(st.level, name.as_str()) {
        None => Err(CliErrorKind::UnknownArgument),
        Some(o) => {
            if option_takes_value(o) {
                match eq {
                    Some(e) => {
                        let p = Piece { tok: i, from: e + 1 };
                        proof {
                            lemma_set_ok(toks, st, o, Some(p));
                        }
                        match set_opt(st, o, Some(p)) {
                            Ok(st2) => Ok((i + 1, st2)),
                            Err(err) => Err(err),
                        }
                    },
                    None => value_in_next(args, i, st, o),
                }
            } else if eq.is_some() {
                Err(CliErrorKind::UnexpectedValue)
            } else {
                proof {
                    lemma_set_ok(toks, st, o, None);
                }
                match set_opt(st, o, None) {
                    Ok(st2) => Ok((i + 1, st2)),
                    Err(err) => Err(err),
                }
            }
        },
    }
}

/// Token `i` as a cluster of short options.
fn short_step(args: &[&str], i: usize, st0: ScanState) -> (r: Result<(usize, ScanState), CliErrorKind>)
    requires
        i < args@.len(),
        state_ok(tokens(args@), st0),
    ensures
        spec_then_usize(r) == spec_short(tokens(args@), i as int, 1, st0),
        step_ok(tokens(args@), i as int, spec_then_usize(r)),
{
    let ghost toks = tokens(args@);
    let len = args.len();
    let t = args[i];
    assert(toks[i as int] == t@);
    let n = t.unicode_len();
    let mut k: usize = 1;
    let mut st = st0;
    while k < n
        invariant
            toks == tokens(args@),
            i < args@.len(),
            len == args@.len(),
            toks[i as int] == t@,
            n == t@.len(),
            1 <= k,
            state_ok(toks, st),
            spec_short(toks, i as int, k as int, st) == spec_short(toks, i as int, 1, st0),
        decreases n - k,
    {
        let c = t.get_char(k);
        match short_opt(st.level, c) {
            None => {
                return Err(CliErrorKind::UnknownArgument);
            },
            Some(o) => {
                if option_takes_value(o) {
                    if k + 1 < n {
                        let from = if t.get_char(k + 1) == '=' { k + 2 } else { k + 1 };
                        let p = Piece { tok: i, from };
                        proof {
                            lemma_set_ok(toks, st, o, Some(p));
                        }
                        return match set_opt(st, o, Some(p)) {
                            Ok(st2) => Ok((i + 1, st2)),
                            Err(err) => Err(err),
                        };
                    } else {
                        return value_in_next(args, i, st, o);
                    }
                } else {
                    proof {
                        lemma_set_ok(toks, st, o, None);
                    }
                    match set_opt(st, o, None) {
                        Err(err) => {
                            return Err(err);
                        },
                        Ok(st2) => {
                            st = st2;
                        },
                    }
                }
            },
        }
        k = k + 1;
    }
    Ok((i + 1, st))
}

/// The skill subcommand of a name.
fn sub_level(t: &str) -> (r: Option<Level>)
    ensures
        r == spec_sub_level(t@),
{
    proof {
        reveal_strlit("install");
        reveal_strlit("search");
        reveal_strlit("list");
        reveal_strlit("info");
        reveal_strlit("update");
        reveal_strlit("outdated");
        reveal_strlit("uninstall");
    }
    if str_eq(t, "install") {
        Some(Level::Install)
    } else if str_eq(t, "search") {
        Some(Level::Search)
    } else if str_eq(t, "list") {
        Some(Level::List)
    } else if str_eq(t, "info") {
        Some(Level::Info)
    } else if str_eq(t, "update") {
        Some(Level::Update)
    } else if str_eq(t, "outdated") {
        Some(Level::Outdated)
    } else if str_eq(t, "uninstall") {
        Some(Level::Uninstall)
    } else {
        None
    }
}

/// Token `i` as a positional argument.
fn positional_step(args: &[&str], i: usize, st: ScanState) -> (r: Result<(usize, ScanState), CliErrorKind>)
    requires
        i < args@.len(),
        state_ok(tokens(args@), st),
    ensures
        spec_then_usize(r) == spec_positional(tokens(args@), i as int, st),
        step_ok(tokens(args@), i as int, spec_then_usize(r)),
{
    let ghost toks = tokens(args@);
    let t = args[i];
    assert(toks[i as int] == t@);
    proof {
        reveal_strlit("skill");
        reveal_strlit("help");
    }
    match st.level {
        Level::Top => if !st.escaped && str_eq(t, "skill") {
            Ok((i + 1, ScanState { level: Level::Skill, ..st }))
        } else if !st.escaped && str_eq(t, "help") {
            Err(CliErrorKind::DisplayHelp)
        } else {
            Err(CliErrorKind::InvalidSubcommand)
        },
        Level::Skill => if st.escaped {
            Err(CliErrorKind::InvalidSubcommand)
        } else {
            match sub_level(t) {
                Some(l) => Ok((i + 1, ScanState { level: l, ..st })),
                None => if str_eq(t, "help") { Err(CliErrorKind::DisplayHelp) } else { Err(CliErrorKind::InvalidSubcommand) },
            }
        },
        Level::List | Level::Outdated => Err(CliErrorKind::UnknownArgument),
        _ => if st.positional.is_some() {
            Err(CliErrorKind::UnknownArgument)
        } else {
            Ok((i + 1, ScanState { positional: Some(Piece { tok: i, from: 0 }), ..st }))
        },
    }
}

/// The effect of token `i`.
fn step(args: &[&str], i: usize, st: ScanState) -> (r: Result<(usize, ScanState), CliErrorKind>)
    requires
        i < args@.len(),
        state_ok(tokens(args@), st),
    ensures
        spec_then_usize(r) == spec_step(tokens(args@), i as int, st),
        step_ok(tokens(args@), i as int, spec_then_usize(r)),
{
    let ghost toks = tokens(args@);
    let t = args[i];
    assert(toks[i as int] == t@);
    proof {
        reveal_strlit("--");
    }
    let n = t.unicode_len();
    if !st.escaped && str_eq(t, "--") {
        Ok((i + 1, ScanState { escaped: true, ..st }))
    } else if !st.escaped && n > 2 && t.get_char(0) == '-' && t.get_char(1) == '-' {
        long_step(args, i, st)
    } else if !st.escaped && n >= 2 && t.get_char(0) == '-' {
        short_step(args, i, st)
    } else {
        positional_step(args, i, st)
    }
}

/// The state after all the arguments but the first.
fn scan(args: &[&str]) -> (r: Result<ScanState, CliErrorKind>)
    ensures
        r == spec_scan(tokens(args@), 1, initial_state()),
        r matches Ok(st) ==> state_ok(tokens(args@), st),
{
    let ghost toks = tokens(args@);
    let mut st = ScanState {
        level: Level::Top,
        escaped: false,
        config: None,
        check_health: false,
        interval: None,
        web_ui: None,
        log_destination: None,
        log_file: None,
        dir: None,
        name: None,
        enable: false,
        category: None,
        limit: None,
        remote: false,
        all: false,
        yes: false,
        positional: None,
    };
    let mut i: usize = 1;
    if args.len() == 0 {
        return Ok(st);
    }
    while i < args.len()
        invariant
            toks == tokens(args@),
            1 <= i <= args@.len(),
            state_ok(toks, st),
            spec_scan(toks, i as int, st) == spec_scan(toks, 1, initial_state()),
        decreases args.len() - i,
    {
        match step(args, i, st) {
            Err(e) => {
                return Err(e);
            },
            Ok(p) => {
                i = p.0;
                st = p.1;
            },
        }
    }
    Ok(st)
}


/// A prefix of a string of digits denotes at most what the whole does.
proof fn lemma_digits_prefix(s: Seq<char>, j: int)
    requires
        0 <= j <= s.len(),
    ensures
        spec_digits_value(s.subrange(0, j)) <= spec_digits_value(s),
    decreases s.len(),
{
    if j == s.len() {
        assert(s.subrange(0, j) =~= s);
    } else {
        lemma_digits_prefix(s.drop_last(), j);
        assert(s.drop_last().subrange(0, j) =~= s.subrange(0, j));
    }
}

/// The unsigned number that `s` denotes, if there is one and it is at most `max`.
fn parse_unsigned(s: &str, max: u64) -> (r: Option<u64>)
    ensures
        match r {
            Some(v) => spec_parse_unsigned(s@) == Some(v as nat) && v <= max,
            None => spec_parse_unsigned(s@) is None || spec_parse_unsigned(s@)->0 > max,
        },
{
    let n = s.unicode_len();
    let start: usize = if n > 0 && s.get_char(0) == '+' { 1 } else { 0 };
    let ghost d = unsigned_digits(s@);
    assert(d =~= s@.subrange(start as int, n as int));
    if start >= n {
        return None;
    }
    let mut acc: u64 = 0;
    let mut k: usize = start;
    assert(s@.subrange(start as int, start as int) =~= Seq::<char>::empty());
    while k < n
        invariant
            n == s@.len(),
            start <= k <= n,
            d =~= s@.subrange(start as int, n as int),
            d == unsigned_digits(s@),
            acc as nat == spec_digits_value(s@.subrange(start as int, k as int)),
            acc <= max,
            forall|t: int| start <= t < k ==> is_digit(#[trigger] s@[t]),
        decreases n - k,
    {
        let c = s.get_char(k);
        if !('0' <= c && c <= '9') {
            proof {
                assert(d[k - start] == c);
                assert(!is_digit(d[k - start]));
                assert(!all_digits(d));
            }
            return None;
        }
        let digit: u64 = (c as u64) - ('0' as u64);
        let next: u128 = (acc as u128) * 10 + (digit as u128);
        proof {
            let sub = s@.subrange(start as int, k + 1);
            assert(sub.drop_last() =~= s@.subrange(start as int, k as int));
            assert(sub.last() == c);
            assert(digit as int == (c as int) - ('0' as int));
            assert(spec_digits_value(sub) == next);
        }
        if next > max as u128 {
            proof {
                if all_digits(d) {
                    lemma_digits_prefix(d, k + 1 - start);
                    assert(d.subrange(0, k + 1 - start) =~= s@.subrange(start as int, k + 1));
                }
            }
            return None;
        }
        acc = next as u64;
        k = k + 1;
    }
    assert(s@.subrange(start as int, n as int) =~= d);
    Some(acc)
}

/// The text of a value.
fn piece_text(args: &[&str], p: Piece) -> (r: String)
    requires
        piece_ok(tokens(args@), Some(p)),
    ensures
        r@ == spec_piece(tokens(args@), p),
{
    let t = args[p.tok];
    assert(tokens(args@)[p.tok as int] == t@);
    let n = t.unicode_len();
    substring(t, p.from, n)
}

/// The text of an optional value.
fn opt_text(args: &[&str], p: Option<Piece>) -> (r: Option<String>)
    requires
        piece_ok(tokens(args@), p),
    ensures
        opt_view(r) == spec_opt_value(tokens(args@), p),
{
    match p {
        Some(q) => Some(piece_text(args, q)),
        None => None,
    }
}

/// The text of an optional value, or a default.
fn text_or(args: &[&str], p: Option<Piece>, default: &str) -> (r: String)
    requires
        piece_ok(tokens(args@), p),
    ensures
        r@ == spec_value_or(tokens(args@), p, default@),
{
    match p {
        Some(q) => piece_text(args, q),
        None => String::from_str(default),
    }
}

/// The command line of a final state.
fn finish(args: &[&str], st: ScanState) -> (r: Result<Cli, CliError>)
    requires
        state_ok(tokens(args@), st),
    ensures
        match r {
            Ok(c) => spec_finish(tokens(args@), st) == Ok::<CliV, CliErrorKind>(cli_view(c)),
            Err(e) => spec_finish(tokens(args@), st) == Err::<CliV, CliErrorKind>(e.kind),
        },
{
    let ghost toks = tokens(args@);
    proof {
        reveal_strlit("config.toml");
        reveal_strlit("chatbot-ui");
        reveal_strlit("stdout");
    }
    if st.level == Level::Skill {
        return Err(CliError { kind: CliErrorKind::MissingSubcommand });
    }
    let needs = match st.level {
        Level::Install | Level::Search | Level::Info | Level::Uninstall => true,
        _ => false,
    };
    if needs && st.positional.is_none() {
        return Err(CliError { kind: CliErrorKind::MissingRequired });
    }
    let config = text_or(args, st.config, "config.toml");
    let web_ui = text_or(args, st.web_ui, "chatbot-ui");
    let dir = opt_text(args, st.dir);
    let dir_empty = match &dir {
        Some(d) => d.unicode_len() == 0,
        None => false,
    };
    if config.unicode_len() == 0 || web_ui.unicode_len() == 0 || dir_empty {
        return Err(CliError { kind: CliErrorKind::InvalidValue });
    }
    let interval: u64 = match st.interval {
        Some(p) => {
            let text = piece_text(args, p);
            match parse_unsigned(text.as_str(), u64::MAX) {
                Some(v) => v,
                None => {
                    return Err(CliError { kind: CliErrorKind::InvalidValue });
                },
            }
        },
        None => 60,
    };
    let limit: usize = match st.limit {
        Some(p) => {
            let text = piece_text(args, p);
            match parse_unsigned(text.as_str(), usize::MAX as u64) {
                Some(v) => v as usize,
                None => {
                    return Err(CliError { kind: CliErrorKind::InvalidValue });
                },
            }
        },
        None => 10,
    };
    let pos = text_or(args, st.positional, "");
    proof {
        reveal_strlit("");
    }
    let command = match st.level {
        Level::Install => Some(Command::Skill(SkillCommand::Install {
            source: pos,
            name: opt_text(args, st.name),
            dir,
            enable: st.enable,
        })),
        Level::Search => Some(Command::Skill(SkillCommand::Search { query: pos, category: opt_text(args, st.category), limit })),
        Level::List => Some(Command::Skill(SkillCommand::List { remote: st.remote, category: opt_text(args, st.category), limit })),
        Level::Info => Some(Command::Skill(SkillCommand::Info { name: pos })),
        Level::Update => Some(Command::Skill(SkillCommand::Update { name: opt_text(args, st.positional), all: st.all })),
        Level::Outdated => Some(Command::Skill(SkillCommand::Outdated)),
        Level::Uninstall => Some(Command::Skill(SkillCommand::Uninstall { name: pos, yes: st.yes })),
        _ => None,
    };
    let c = Cli {
        config,
        command,
        check_health: st.check_health,
        check_health_interval: interval,
        web_ui,
        log_destination: text_or(args, st.log_destination, "stdout"),
        log_file: opt_text(args, st.log_file),
    };
    assert(cli_view(c).command == spec_command(toks, st, limit as nat));
    Ok(c)
}

impl Cli {
    /// Parses the arguments (the first is the program's name) by the grammar
    /// above, or says why they are refused.
    pub fn try_parse_from(args: &[&str]) -> (r: Result<Cli, CliError>)
        ensures
            match r {
                Ok(c) => spec_parse_cli(tokens(args@)) == Ok::<CliV, CliErrorKind>(cli_view(c)),
                Err(e) => spec_parse_cli(tokens(args@)) == Err::<CliV, CliErrorKind>(e.kind),
            },
    {
        match scan(args) {
            Err(kind) => Err(CliError { kind }),
            Ok(st) => finish(args, st),
        }
    }

    /// Parses arguments that the grammar accepts.
    pub fn parse_from(args: &[&str]) -> (c: Cli)
        requires
            spec_parse_cli(tokens(args@)) is Ok,
        ensures
            spec_parse_cli(tokens(args@)) == Ok::<CliV, CliErrorKind>(cli_view(c)),
    {
        Cli::try_parse_from(args).unwrap()
    }
}

/// An optional string as a value.
pub open spec fn opt_view(o: Option<String>) -> Option<Seq<char>> {
    match o {
        Some(s) => Some(s@),
        None => None,
    }
}

/// A skill subcommand as values.
pub open spec fn skill_command_view(c: SkillCommand) -> SkillCommandV {
    match c {
        SkillCommand::Install { source, name, dir, enable } => SkillCommandV::Install {
            source: source@,
            name: opt_view(name),
            dir: opt_view(dir),
            enable,
        },
        SkillCommand::Search { query, category, limit } => SkillCommandV::Search {
            query: query@,
            category: opt_view(category),
            limit: limit as nat,
        },
        SkillCommand::List { remote, category, limit } => SkillCommandV::List {
            remote,
            category: opt_view(category),
            limit: limit as nat,
        },
        SkillCommand::Info { name } => SkillCommandV::Info { name: name@ },
        SkillCommand::Update { name, all } => SkillCommandV::Update { name: opt_view(name), all },
        SkillCommand::Outdated => SkillCommandV::Outdated,
        SkillCommand::Uninstall { name, yes } => SkillCommandV::Uninstall { name: name@, yes },
    }
}

/// A command line as values.
pub open spec fn cli_view(c: Cli) -> CliV {
    CliV {
        config: c.config@,
        command: match c.command {
            Some(Command::Skill(s)) => Some(skill_command_view(s)),
            None => None,
        },
        check_health: c.check_health,
        check_health_interval: c.check_health_interval as nat,
        web_ui: c.web_ui@,
        log_destination: c.log_destination@,
        log_file: opt_view(c.log_file),
    }
}

} // verus!
