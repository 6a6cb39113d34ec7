use nvidia_migmanager::args::{parse_args, Args, LogLevel, DEFAULT_CONFIG_PATH};
use nvidia_migmanager::error::Error;

fn line(args: &[&str]) -> Vec<String> {
    args.iter().map(|arg| arg.to_string()).collect()
}

fn parsed(log_level: LogLevel, config_path: &str) -> Result<Args, Error> {
    Ok(Args { log_level, config_path: config_path.to_string() })
}

#[test]
fn defaults() {
    let args = Args::default();
    assert_eq!(args.log_level, LogLevel::Info);
    assert_eq!(args.config_path, "/etc/bootstrap-commands/bootstrap-commands.toml");
    assert_eq!(DEFAULT_CONFIG_PATH, "/etc/bootstrap-commands/bootstrap-commands.toml");
}

#[test]
fn args_copy_is_equal() {
    let args = Args { log_level: LogLevel::Trace, config_path: "/x".to_string() };
    assert_eq!(args.clone(), args);
}

#[test]
fn no_arguments_give_the_defaults() {
    assert_eq!(parse_args(line(&["prog"])), Ok(Args::default()));
    assert_eq!(parse_args(Vec::new()), Ok(Args::default()));
}

#[test]
fn program_name_is_passed_over() {
    assert_eq!(parse_args(line(&["--log-level"])), Ok(Args::default()));
    assert_eq!(parse_args(line(&["-c"])), Ok(Args::default()));
    assert_eq!(parse_args(line(&["--log-level", "debug"])), Ok(Args::default()));
}

#[test]
fn log_level_is_read() {
    assert_eq!(
        parse_args(line(&["prog", "--log-level", "debug"])),
        parsed(LogLevel::Debug, DEFAULT_CONFIG_PATH)
    );
}

#[test]
fn every_level_by_name() {
    let names = [
        ("off", LogLevel::Off),
        ("error", LogLevel::Error),
        ("warn", LogLevel::Warn),
        ("info", LogLevel::Info),
        ("debug", LogLevel::Debug),
        ("trace", LogLevel::Trace),
    ];
    for (name, level) in names {
        assert_eq!(
            parse_args(line(&["prog", "--log-level", name])),
            parsed(level, DEFAULT_CONFIG_PATH)
        );
        assert_eq!(
            parse_args(line(&["prog", "--log-level", &name.to_uppercase()])),
            parsed(level, DEFAULT_CONFIG_PATH)
        );
    }
    assert_eq!(
        parse_args(line(&["prog", "--log-level", "WaRn"])),
        parsed(LogLevel::Warn, DEFAULT_CONFIG_PATH)
    );
}

#[test]
fn unknown_level_is_an_error() {
    for name in ["verbose", "", "inf", "infos", " info", "info ", "1", "ınfo", "warning"] {
        assert_eq!(
            parse_args(line(&["prog", "--log-level", name])),
            Err(Error::LogLevel { log_level: name.to_string() })
        );
    }
}

#[test]
fn log_level_without_argument_is_a_usage_error() {
    assert_eq!(
        parse_args(line(&["prog", "--log-level"])),
        Err(Error::Usage { message: "Did not give argument to --log-level".to_string() })
    );
    assert_eq!(
        parse_args(line(&["prog", "-c", "x", "--log-level"])),
        Err(Error::Usage { message: "Did not give argument to --log-level".to_string() })
    );
}

#[test]
fn config_path_is_read() {
    assert_eq!(
        parse_args(line(&["prog", "-c", "/tmp/a.toml"])),
        parsed(LogLevel::Info, "/tmp/a.toml")
    );
    assert_eq!(
        parse_args(line(&["prog", "--config-path", "/tmp/b.toml"])),
        parsed(LogLevel::Info, "/tmp/b.toml")
    );
}

#[test]
fn config_path_without_argument_is_a_usage_error() {
    assert_eq!(
        parse_args(line(&["prog", "-c"])),
        Err(Error::Usage { message: "Did not give argument to --config-path".to_string() })
    );
    assert_eq!(
        parse_args(line(&["prog", "--config-path"])),
        Err(Error::Usage { message: "Did not give argument to --config-path".to_string() })
    );
}

#[test]
fn both_options() {
    assert_eq!(
        parse_args(line(&["prog", "--log-level", "trace", "-c", "/x"])),
        parsed(LogLevel::Trace, "/x")
    );
    assert_eq!(
        parse_args(line(&["prog", "--config-path", "/x", "--log-level", "error"])),
        parsed(LogLevel::Error, "/x")
    );
}

#[test]
fn last_one_wins() {
    assert_eq!(
        parse_args(line(&["prog", "-c", "/x", "--log-level", "warn", "-c", "/y", "--log-level", "off"])),
        parsed(LogLevel::Off, "/y")
    );
}

#[test]
fn other_arguments_are_ignored() {
    assert_eq!(
        parse_args(line(&["prog", "--verbose", "x", "--log-level", "debug", "y", "-C", "z"])),
        parsed(LogLevel::Debug, DEFAULT_CONFIG_PATH)
    );
    assert_eq!(parse_args(line(&["prog", "--log-level=debug"])), Ok(Args::default()));
}

#[test]
fn an_option_takes_the_next_argument_whatever_it_is() {
    assert_eq!(
        parse_args(line(&["prog", "-c", "--log-level", "debug"])),
        parsed(LogLevel::Info, "--log-level")
    );
    assert_eq!(
        parse_args(line(&["prog", "--log-level", "-c"])),
        Err(Error::LogLevel { log_level: "-c".to_string() })
    );
}

#[test]
fn first_error_ends_the_parsing() {
    assert_eq!(
        parse_args(line(&["prog", "--log-level", "bogus", "-c"])),
        Err(Error::LogLevel { log_level: "bogus".to_string() })
    );
}
