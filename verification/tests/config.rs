use dictbot::config::error::{join, ConfigError};
use dictbot::config::options::Parsed;
use dictbot::config::port::{parse_number, PortError};
use dictbot::config::{set_up, settle, Config, ConfigBuilder, Settings, PROGRAM, VERSION};

fn args(list: &[&str]) -> Vec<String> {
    list.iter().map(|s| s.to_string()).collect()
}

fn parse(list: &[&str]) -> Result<Config, ConfigError> {
    ConfigBuilder::new().parse(&args(list))
}

fn error_of(list: &[&str]) -> ConfigError {
    match parse(list) {
        Err(error) => error,
        Ok(config) => panic!("parsed to {config:?}"),
    }
}

fn found(free: &[&str], given: [bool; 6], values: [Option<&str>; 6]) -> Result<Parsed, String> {
    Ok(Parsed {
        free: args(free),
        given: given.to_vec(),
        values: values.iter().map(|v| v.map(|s| s.to_string())).collect(),
    })
}

const BASE: [bool; 6] = [true, true, false, false, false, false];

#[test]
fn token_and_database_make_a_configuration() {
    let config = parse(&["bot", "-t", "123:abc", "-d", "db.json"]).unwrap();
    assert_eq!(config.token, "123:abc");
    assert_eq!(config.database, "db.json");
    assert_eq!(config.webhook_port, None);
    assert!(config.proxy.is_none());
}

#[test]
fn long_names_and_optional_settings_are_read() {
    let config = parse(&[
        "bot",
        "--token=123:abc",
        "--database",
        "/var/db.json",
        "--webhook-port",
        "8443",
        "--proxy",
        "socks5://127.0.0.1:1080",
    ])
    .unwrap();
    assert_eq!(config.token, "123:abc");
    assert_eq!(config.database, "/var/db.json");
    assert_eq!(config.webhook_port, Some(8443));
    assert!(config.proxy.is_some());
}

#[test]
fn the_program_name_is_no_option() {
    let config = parse(&["-t", "-t", "x", "-d", "y"]).unwrap();
    assert_eq!(config.token, "x");
    assert_eq!(config.database, "y");
}

#[test]
fn a_missing_required_option_is_an_error_of_the_arguments() {
    assert_eq!(
        error_of(&["bot", "-d", "db.json"]),
        ConfigError::Arguments { message: "Required option 'token' missing".to_string() }
    );
    assert_eq!(
        error_of(&["bot", "-t", "x"]),
        ConfigError::Arguments { message: "Required option 'database' missing".to_string() }
    );
    assert_eq!(
        error_of(&["bot"]),
        ConfigError::Arguments { message: "Required option 'token' missing".to_string() }
    );
}

#[test]
fn what_the_parser_refuses_is_an_error_of_the_arguments() {
    assert_eq!(
        error_of(&["bot", "-t", "x", "-d", "y", "--nope"]),
        ConfigError::Arguments { message: "Unrecognized option: 'nope'".to_string() }
    );
    assert_eq!(
        error_of(&["bot", "-t", "x", "-d"]),
        ConfigError::Arguments { message: "Argument to option 'd' missing".to_string() }
    );
    assert_eq!(
        error_of(&["bot", "-t", "x", "-t", "y", "-d", "z"]),
        ConfigError::Arguments { message: "Option 'token' given more than once".to_string() }
    );
    assert_eq!(
        error_of(&["bot", "-t", "x", "-d", "y", "--help=now"]),
        ConfigError::Arguments { message: "Option 'help' does not take an argument".to_string() }
    );
}

#[test]
fn arguments_that_belong_to_no_option_are_unexpected() {
    assert_eq!(
        error_of(&["bot", "-t", "x", "extra", "-d", "y", "more"]),
        ConfigError::Unexpected { arguments: args(&["extra", "more"]) }
    );
}

#[test]
fn the_version_comes_before_the_help() {
    assert_eq!(error_of(&["bot", "-t", "x", "-d", "y", "-v"]), ConfigError::Version);
    assert_eq!(error_of(&["bot", "-t", "x", "-d", "y", "--help"]), ConfigError::Help);
    assert_eq!(error_of(&["bot", "-t", "x", "-d", "y", "-h", "-v"]), ConfigError::Version);
    assert_eq!(
        error_of(&["bot", "-t", "x", "-d", "y", "-h", "-v", "free"]),
        ConfigError::Unexpected { arguments: args(&["free"]) }
    );
}

#[test]
fn the_webhook_port_has_to_be_a_port_other_than_zero() {
    let with_port = |port: &str| parse(&["bot", "-t", "x", "-d", "y", "-w", port]);
    assert_eq!(with_port("1").unwrap().webhook_port, Some(1));
    assert_eq!(with_port("65535").unwrap().webhook_port, Some(65535));
    assert_eq!(with_port("+443").unwrap().webhook_port, Some(443));
    assert_eq!(with_port("0080").unwrap().webhook_port, Some(80));
    assert_eq!(with_port("0").unwrap_err(), ConfigError::PortZero);
    assert_eq!(with_port("000").unwrap_err(), ConfigError::PortZero);
    assert_eq!(with_port("65536").unwrap_err(), ConfigError::Port { error: PortError::TooLarge });
    assert_eq!(with_port("80a").unwrap_err(), ConfigError::Port { error: PortError::InvalidDigit });
    assert_eq!(with_port("").unwrap_err(), ConfigError::Port { error: PortError::Empty });
}

#[test]
fn a_proxy_address_that_cannot_be_read_is_an_error() {
    match parse(&["bot", "-t", "x", "-d", "y", "--proxy", "http://["]) {
        Err(ConfigError::Proxy { message }) => assert!(!message.is_empty()),
        other => panic!("{other:?}"),
    }
    let config = parse(&["bot", "-t", "x", "-d", "y", "--proxy", "http://127.0.0.1:8080"]).unwrap();
    assert!(config.proxy.is_some());
}

#[test]
fn the_port_is_checked_before_the_proxy() {
    let error = error_of(&["bot", "-t", "x", "-d", "y", "--proxy", "http://[", "-w", "0"]);
    assert_eq!(error, ConfigError::PortZero);
}

#[test]
fn the_usage_names_the_program_and_lists_the_options() {
    let mut builder = ConfigBuilder::new();
    let usage = builder.get_usage();
    assert!(usage.starts_with("Usage: dictbot [options]\n\nOptions:\n"));
    assert_eq!(PROGRAM, "dictbot");
    assert!(usage.contains("-t, --token TOKEN"));
    assert!(usage.contains("Set the Telegram Bot HTTP API token (required)"));
    assert!(usage.contains("-d, --database DATABASE_FILE"));
    assert!(usage.contains("-w, --webhook-port WEBHOOK_PORT"));
    assert!(usage.contains("--proxy PROXY"));
    assert!(usage.contains("-v, --version"));
    assert!(usage.contains("-h, --help"));
    assert!(usage.contains("Print this help menu"));
    let _ = builder.parse(&args(&["/usr/bin/bot", "-h"]));
    assert!(builder.get_usage().starts_with("Usage: /usr/bin/bot [options]\n\nOptions:\n"));
}

#[test]
fn errors_are_explained_above_the_usage() {
    let mut builder = ConfigBuilder::new();
    let error = builder.parse(&args(&["bot", "-t", "x", "-d", "y", "a", "b"])).unwrap_err();
    let usage = builder.get_usage();
    assert_eq!(builder.explain(&error), format!("Unexpected argument: a, b\n\n{usage}"));
    let error = builder.parse(&args(&["bot", "-d", "y"])).unwrap_err();
    assert_eq!(builder.explain(&error), format!("Required option 'token' missing\n\n{usage}"));
    assert_eq!(builder.explain(&ConfigError::Version), "0.1.0");
    assert_eq!(VERSION, "0.1.0");
    assert_eq!(builder.explain(&ConfigError::Help), usage);
}

#[test]
fn each_error_has_its_message() {
    let usage = "USAGE";
    let text = |error: ConfigError| error.message(usage);
    assert_eq!(text(ConfigError::Arguments { message: "bad".to_string() }), "bad\n\nUSAGE");
    assert_eq!(
        text(ConfigError::Unexpected { arguments: args(&["one"]) }),
        "Unexpected argument: one\n\nUSAGE"
    );
    assert_eq!(
        text(ConfigError::Unexpected { arguments: args(&[]) }),
        "Unexpected argument: \n\nUSAGE"
    );
    assert_eq!(text(ConfigError::Version), "0.1.0");
    assert_eq!(text(ConfigError::Help), "USAGE");
    assert_eq!(
        text(ConfigError::Required { option: "token".to_string() }),
        "Required option 'token' missing\n\nUSAGE"
    );
    assert_eq!(text(ConfigError::PortZero), "Port 0 cannot be used as the webhook port\n\nUSAGE");
    assert_eq!(text(ConfigError::Proxy { message: "no".to_string() }), "no\n\nUSAGE");
}

#[test]
fn port_errors_are_worded_as_std_words_them() {
    for (text, error) in [
        ("", PortError::Empty),
        ("x", PortError::InvalidDigit),
        ("70000", PortError::TooLarge),
    ] {
        let std_error = text.parse::<u16>().unwrap_err();
        assert_eq!(ConfigError::Port { error }.message("U"), format!("{std_error}\n\nU"));
    }
}

#[test]
fn numbers_are_read_as_std_reads_them() {
    for n in 0..=70000u32 {
        let text = n.to_string();
        assert_eq!(parse_number(&text).ok(), text.parse::<u16>().ok(), "{text}");
    }
    for text in [
        "", "+", "-", "+0", "-0", "+1", "-1", "++1", "+-1", " 1", "1 ", "1_000", "0x10",
        "00000000000000000001", "65535", "65536", "065535", "+65535", "+65536", "99999x",
        "9x9999", "x99999", "１２", "1e3", "٣", "655350", "6553 5",
    ] {
        let ours = parse_number(text);
        let theirs = text.parse::<u16>();
        assert_eq!(ours.ok(), theirs.clone().ok(), "{text:?}");
        if let (Err(ours), Err(theirs)) = (ours, theirs) {
            let kind = match theirs.kind() {
                std::num::IntErrorKind::Empty => PortError::Empty,
                std::num::IntErrorKind::InvalidDigit => PortError::InvalidDigit,
                std::num::IntErrorKind::PosOverflow => PortError::TooLarge,
                other => panic!("{other:?}"),
            };
            assert_eq!(ours, kind, "{text:?}");
        }
    }
}

#[test]
fn join_puts_the_separator_between_the_parts() {
    assert_eq!(join(&args(&[]), ", "), "");
    assert_eq!(join(&args(&["a"]), ", "), "a");
    assert_eq!(join(&args(&["a", "b", "c"]), ", "), "a, b, c");
    assert_eq!(join(&args(&["", ""]), "-"), "-");
}

#[test]
fn settle_goes_by_the_outcome_of_the_parser() {
    let none = [None; 6];
    let values = [Some("tok"), Some("db"), None, None, None, None];
    assert_eq!(
        settle(Err("bad".to_string())),
        Err(ConfigError::Arguments { message: "bad".to_string() })
    );
    assert_eq!(
        settle(found(&[], BASE, values)),
        Ok(Settings {
            token: "tok".to_string(),
            database: "db".to_string(),
            webhook_port: None,
            proxy: None
        })
    );
    assert_eq!(
        settle(found(&[], BASE, [Some("tok"), Some("db"), Some("8080"), Some("p"), None, None])),
        Ok(Settings {
            token: "tok".to_string(),
            database: "db".to_string(),
            webhook_port: Some(8080),
            proxy: Some("p".to_string())
        })
    );
    assert_eq!(
        settle(found(&["x"], [true, true, false, false, true, true], values)),
        Err(ConfigError::Unexpected { arguments: args(&["x"]) })
    );
    assert_eq!(
        settle(found(&[], [true, true, false, false, true, true], values)),
        Err(ConfigError::Version)
    );
    assert_eq!(
        settle(found(&[], [true, true, false, false, false, true], values)),
        Err(ConfigError::Help)
    );
    assert_eq!(
        settle(found(&[], BASE, none)),
        Err(ConfigError::Required { option: "token".to_string() })
    );
    assert_eq!(
        settle(found(&[], BASE, [Some("tok"), None, None, None, None, None])),
        Err(ConfigError::Required { option: "database".to_string() })
    );
    assert_eq!(
        settle(found(&[], BASE, [Some("tok"), Some("db"), Some("0"), None, None, None])),
        Err(ConfigError::PortZero)
    );
    assert_eq!(
        settle(found(&[], BASE, [Some("tok"), Some("db"), Some("-1"), None, None, None])),
        Err(ConfigError::Port { error: PortError::InvalidDigit })
    );
}

#[test]
fn settle_takes_what_is_not_there_as_not_given() {
    let short = Ok(Parsed { free: vec![], given: vec![], values: vec![] });
    assert_eq!(settle(short), Err(ConfigError::Required { option: "token".to_string() }));
    let short = Ok(Parsed { free: vec![], given: vec![], values: vec![Some("t".to_string())] });
    assert_eq!(settle(short), Err(ConfigError::Required { option: "database".to_string() }));
}

#[test]
fn set_up_builds_the_proxy_that_is_asked_for() {
    let settings = |proxy: Option<&str>| Settings {
        token: "tok".to_string(),
        database: "db".to_string(),
        webhook_port: Some(9),
        proxy: proxy.map(|p| p.to_string()),
    };
    let config = set_up(settings(None)).unwrap();
    assert_eq!(config.token, "tok");
    assert_eq!(config.database, "db");
    assert_eq!(config.webhook_port, Some(9));
    assert!(config.proxy.is_none());
    assert!(set_up(settings(Some("https://proxy.example:3128"))).unwrap().proxy.is_some());
    assert!(matches!(set_up(settings(Some("http://["))), Err(ConfigError::Proxy { .. })));
}
