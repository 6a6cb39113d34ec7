//! The command line of the program.

use crate::error::{result_view, Error, ErrorView};
use vstd::prelude::*;

verus! {

/// Where the configuration is looked for unless the command line says otherwise.
pub const DEFAULT_CONFIG_PATH: &'static str = "/etc/bootstrap-commands/bootstrap-commands.toml";

/// How much is logged: the most verbose level that still passes.
#[derive(Clone, Copy, Debug, PartialEq, Eq, Structural)]
pub enum LogLevel {
    Off,
    Error,
    Warn,
    Info,
    Debug,
    Trace,
}

/// What the command line asks for.
#[derive(Debug, PartialEq, Eq)]
pub struct Args {
    pub log_level: LogLevel,
    pub config_path: String,
}

/// `Args` with the path as a sequence of characters.
pub struct ArgsView {
    pub log_level: LogLevel,
    pub config_path: Seq<char>,
}

impl View for Args {
    type V = ArgsView;

    open spec fn view(&self) -> ArgsView {
        ArgsView { log_level: self.log_level, config_path: self.config_path@ }
    }
}

impl DeepView for Args {
    type V = ArgsView;

    open spec fn deep_view(&self) -> ArgsView {
        self@
    }
}

impl Clone for Args {
    fn clone(&self) -> (copy: Args)
        ensures
            copy == *self,
    {
        Args { log_level: self.log_level, config_path: self.config_path.clone() }
    }
}

/// What holds when the command line says nothing: level `Info`, and the
/// configuration at its usual place.
pub open spec fn default_args() -> ArgsView {
    ArgsView { log_level: LogLevel::Info, config_path: DEFAULT_CONFIG_PATH@ }
}

impl Default for Args {
    fn default() -> (args: Args)
        ensures
            args@ == default_args(),
    {
        Args { log_level: LogLevel::Info, config_path: DEFAULT_CONFIG_PATH.to_owned() }
    }
}

/// The character with an ASCII capital letter replaced by its small letter.
pub open spec fn ascii_lowercase(c: char) -> char {
    if 'A' <= c && c <= 'Z' {
        ((c as u32) + 32) as char
    } else {
        c
    }
}

/// The two texts are the same but for the case of their ASCII letters.
pub open spec fn eq_ignore_ascii_case(a: Seq<char>, b: Seq<char>) -> bool {
    a.len() == b.len() && forall|i: int|
        0 <= i < a.len() ==> ascii_lowercase(#[trigger] a[i]) == ascii_lowercase(b[i])
}

/// The level that a text names, whatever the case of its letters.
pub open spec fn level_for_name(name: Seq<char>) -> Option<LogLevel> {
    if eq_ignore_ascii_case(name, "OFF"@) {
        Some(LogLevel::Off)
    } else if eq_ignore_ascii_case(name, "ERROR"@) {
        Some(LogLevel::Error)
    } else if eq_ignore_ascii_case(name, "WARN"@) {
        Some(LogLevel::Warn)
    } else if eq_ignore_ascii_case(name, "INFO"@) {
        Some(LogLevel::Info)
    } else if eq_ignore_ascii_case(name, "DEBUG"@) {
        Some(LogLevel::Debug)
    } else if eq_ignore_ascii_case(name, "TRACE"@) {
        Some(LogLevel::Trace)
    } else {
        None
    }
}

#[verifier::external_type_specification]
#[verifier::external_body]
pub struct ExParseLevelError(log::ParseLevelError);

/// Parses the name of a level with `log::LevelFilter::from_str`.
///
/// Not verified. The contract claims what the source of `log` shows: the
/// name is compared, without regard to the case of ASCII letters, with
/// `OFF`, `ERROR`, `WARN`, `INFO`, `DEBUG` and `TRACE` in this order; the
/// first that matches gives the level, and if none does the call fails.
#[verifier::external_body]
fn level_filter_from_str(name: &str) -> (result: Result<LogLevel, log::ParseLevelError>)
    ensures
        result is Ok <==> level_for_name(name@) is Some,
        result matches Ok(level) ==> level_for_name(name@) == Some(level),
{
    match <log::LevelFilter as std::str::FromStr>::from_str(name) {
        Ok(log::LevelFilter::Off) => Ok(LogLevel::Off),
        Ok(log::LevelFilter::Error) => Ok(LogLevel::Error),
        Ok(log::LevelFilter::Warn) => Ok(LogLevel::Warn),
        Ok(log::LevelFilter::Info) => Ok(LogLevel::Info),
        Ok(log::LevelFilter::Debug) => Ok(LogLevel::Debug),
        Ok(log::LevelFilter::Trace) => Ok(LogLevel::Trace),
        Err(error) => Err(error),
    }
}

/// The message for a `--log-level` that nothing follows.
pub open spec fn missing_log_level() -> Seq<char> {
    "Did not give argument to --log-level"@
}

/// The message for a `--config-path` that nothing follows.
pub open spec fn missing_config_path() -> Seq<char> {
    "Did not give argument to --config-path"@
}

/// What the arguments from position `at` on make of `parsed`.
///
/// `--log-level` takes the next argument as the name of a level, `-c` and
/// `--config-path` take the next argument as a path; an option given twice
/// counts as given last. Every other argument is passed over. The first
/// option without its argument, or with a level that names none, ends the
/// parsing with an error.
pub open spec fn parse_from(args: Seq<Seq<char>>, at: int, parsed: ArgsView) -> Result<
    ArgsView,
    ErrorView,
>
    decreases args.len() - at,
{
    if at >= args.len() {
        Ok(parsed)
    } else if args[at] == "--log-level"@ {
        if at + 1 >= args.len() {
            Err(ErrorView::Usage { message: missing_log_level() })
        } else {
            match level_for_name(args[at + 1]) {
                Some(level) => parse_from(
                    args,
                    at + 2,
                    ArgsView { log_level: level, config_path: parsed.config_path },
                ),
                None => Err(ErrorView::LogLevel { log_level: args[at + 1] }),
            }
        }
    } else if args[at] == "-c"@ || args[at] == "--config-path"@ {
        if at + 1 >= args.len() {
            Err(ErrorView::Usage { message: missing_config_path() })
        } else {
            parse_from(
                args,
                at + 2,
                ArgsView { log_level: parsed.log_level, config_path: args[at + 1] },
            )
        }
    } else {
        parse_from(args, at + 1, parsed)
    }
}

/// What the command line asks for. Its first argument, the name of the
/// program, is passed over.
pub open spec fn parsed_args(args: Seq<Seq<char>>) -> Result<ArgsView, ErrorView> {
    parse_from(args, 1, default_args())
}

/// Tells whether the argument is the option `name`.
fn is_option(arg: &String, name: &str) -> (same: bool)
    ensures
        same == (arg@ == name@),
{
    let name = name.to_owned();
    *arg == name
}

/// Parses the command line of the program, its name first.
pub fn parse_args(args: Vec<String>) -> (result: Result<Args, Error>)
    ensures
        result_view(result) == parsed_args(args.deep_view()),
{
    let ghost texts = args.deep_view();
    let mut global_args = Args::default();
    let mut at: usize = 1;
    while at < args.len()
        invariant
            1 <= at,
            texts == args.deep_view(),
            parse_from(texts, at as int, global_args@) == parsed_args(texts),
        decreases args.len() - at,
    {
        let arg = &args[at];
        if is_option(arg, "--log-level") {
            if at + 1 >= args.len() {
                return Err(
                    Error::Usage { message: "Did not give argument to --log-level".to_owned() },
                );
            }
            let log_level = args[at + 1].clone();
            match level_filter_from_str(log_level.as_str()) {
                Ok(level) => {
                    global_args.log_level = level;
                },
                Err(_) => {
                    return Err(Error::LogLevel { log_level });
                },
            }
            at += 2;
        } else if is_option(arg, "-c") || is_option(arg, "--config-path") {
            if at + 1 >= args.len() {
                return Err(
                    Error::Usage { message: "Did not give argument to --config-path".to_owned() },
                );
            }
            let config_str = args[at + 1].clone();
            global_args.config_path = config_str;
            at += 2;
        } else {
            at += 1;
        }
    }
    Ok(global_args)
}

} // verus!
