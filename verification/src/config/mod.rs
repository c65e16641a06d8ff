//! The configuration of the bot, read from the command line.

use crate::config::error::{message_text, ConfigError, ConfigErrorView};
use crate::config::options::{
    option_groups, options_new, options_optflag, options_optopt, options_parse, options_reqopt,
    options_usage, parse_outcome, parses_plainly, usage_text, OptionGroup, Parsed, ParsedView,
};
use crate::config::port::{number_of, parse_number};
use crate::config::proxy::{proxy_all, proxy_url_accepted, reqwest_error_message};
use getopts::Options;
use reqwest::Proxy;
use vstd::prelude::*;
use vstd::slice::slice_subrange;
use vstd::string::*;

pub mod error;
pub mod options;
pub mod port;
pub mod proxy;

verus! {

/// The name under which the program is known before it has seen its
/// arguments.
pub const PROGRAM: &'static str = "dictbot";

/// The version of the program.
pub const VERSION: &'static str = "0.1.0";

/// The options of the program, as the usage lists them.
pub open spec fn option_table() -> Seq<OptionGroup> {
    seq![
        OptionGroup {
            short_name: "t"@,
            long_name: "token"@,
            desc: "Set the Telegram Bot HTTP API token (required)"@,
            hint: "TOKEN"@,
            takes_value: true,
            required: true,
        },
        OptionGroup {
            short_name: "d"@,
            long_name: "database"@,
            desc: "Set the database JSON file location (required)"@,
            hint: "DATABASE_FILE"@,
            takes_value: true,
            required: true,
        },
        OptionGroup {
            short_name: "w"@,
            long_name: "webhook-port"@,
            desc: "Run in webhook mode listening port (1 ~ 65535)"@,
            hint: "WEBHOOK_PORT"@,
            takes_value: true,
            required: false,
        },
        OptionGroup {
            short_name: ""@,
            long_name: "proxy"@,
            desc: "Set proxy  (supported: http, https, socks5)"@,
            hint: "PROXY"@,
            takes_value: true,
            required: false,
        },
        OptionGroup {
            short_name: "v"@,
            long_name: "version"@,
            desc: "Print the version"@,
            hint: Seq::<char>::empty(),
            takes_value: false,
            required: false,
        },
        OptionGroup {
            short_name: "h"@,
            long_name: "help"@,
            desc: "Print this help menu"@,
            hint: Seq::<char>::empty(),
            takes_value: false,
            required: false,
        },
    ]
}

/// The first line of the usage for a program called `program`.
pub open spec fn usage_brief(program: Seq<char>) -> Seq<char> {
    "Usage: "@ + program + " [options]"@
}

/// The place of the token among the names that the parser is asked for.
pub const TOKEN: usize = 0;

/// The place of the database.
pub const DATABASE: usize = 1;

/// The place of the webhook port.
pub const WEBHOOK_PORT: usize = 2;

/// The place of the proxy.
pub const PROXY: usize = 3;

/// The place of the request for the version.
pub const VERSION_FLAG: usize = 4;

/// The place of the request for the usage.
pub const HELP_FLAG: usize = 5;

/// The names that the parser is asked for, each at its place.
pub open spec fn option_names() -> Seq<Seq<char>> {
    seq!["t"@, "d"@, "w"@, "proxy"@, "v"@, "h"@]
}

/// What the command line asks for, before the proxy is set up.
#[derive(Debug, PartialEq, Eq)]
pub struct Settings {
    pub token: String,
    pub database: String,
    pub webhook_port: Option<u16>,
    pub proxy: Option<String>,
}

/// A [`Settings`] as plain mathematical values.
pub struct SettingsView {
    pub token: Seq<char>,
    pub database: Seq<char>,
    pub webhook_port: Option<u16>,
    pub proxy: Option<Seq<char>>,
}

impl View for Settings {
    type V = SettingsView;

    open spec fn view(&self) -> SettingsView {
        SettingsView {
            token: self.token@,
            database: self.database@,
            webhook_port: self.webhook_port,
            proxy: match self.proxy {
                Some(url) => Some(url@),
                None => None,
            },
        }
    }
}

/// Whether the option at `place` was given.
pub open spec fn given_at(parsed: ParsedView, place: int) -> bool {
    0 <= place < parsed.given.len() && parsed.given[place]
}

/// The value that the option at `place` was given with.
pub open spec fn value_at(parsed: ParsedView, place: int) -> Option<Seq<char>> {
    if 0 <= place < parsed.values.len() {
        parsed.values[place]
    } else {
        None
    }
}

/// The webhook port that `text` asks for: a number of sixteen bits other
/// than 0.
pub open spec fn port_of(text: Seq<char>) -> Result<u16, ConfigErrorView> {
    match number_of(text) {
        Err(error) => Err(ConfigErrorView::Port { error }),
        Ok(n) => if n == 0 {
            Err(ConfigErrorView::PortZero)
        } else {
            Ok(n as u16)
        },
    }
}

/// What follows from the outcome of the parser, in this order: a failure
/// of the parser is an error; so are arguments that belong to no option; a
/// request for the version, then one for the usage, ends the run; the token
/// and the database have to be there; the webhook port, if given, has to
/// be a port other than 0.
pub open spec fn settled(outcome: Result<ParsedView, Seq<char>>) -> Result<
    SettingsView,
    ConfigErrorView,
> {
    match outcome {
        Err(message) => Err(ConfigErrorView::Arguments { message }),
        Ok(parsed) => {
            if parsed.free.len() > 0 {
                Err(ConfigErrorView::Unexpected { arguments: parsed.free })
            } else if given_at(parsed, VERSION_FLAG as int) {
                Err(ConfigErrorView::Version)
            } else if given_at(parsed, HELP_FLAG as int) {
                Err(ConfigErrorView::Help)
            } else if value_at(parsed, TOKEN as int) is None {
                Err(ConfigErrorView::Required { option: "token"@ })
            } else if value_at(parsed, DATABASE as int) is None {
                Err(ConfigErrorView::Required { option: "database"@ })
            } else {
                let webhook_port = match value_at(parsed, WEBHOOK_PORT as int) {
                    Some(text) => match port_of(text) {
                        Ok(port) => Ok(Some(port)),
                        Err(error) => Err(error),
                    },
                    None => Ok(None),
                };
                match webhook_port {
                    Err(error) => Err(error),
                    Ok(port) => Ok(
                        SettingsView {
                            token: value_at(parsed, TOKEN as int)->0,
                            database: value_at(parsed, DATABASE as int)->0,
                            webhook_port: port,
                            proxy: value_at(parsed, PROXY as int),
                        },
                    ),
                }
            }
        },
    }
}

/// Whether the option at `place` was given.
fn is_given(parsed: &Parsed, place: usize) -> (given: bool)
    ensures
        given == given_at(parsed@, place as int),
{
    place < parsed.given.len() && parsed.given[place]
}

/// The value that the option at `place` was given with.
fn value_of(parsed: &Parsed, place: usize) -> (value: Option<String>)
    ensures
        match value {
            Some(text) => value_at(parsed@, place as int) == Some(text@),
            None => value_at(parsed@, place as int) is None,
        },
{
    if place < parsed.values.len() {
        match &parsed.values[place] {
            Some(text) => Some(text.clone()),
            None => None,
        }
    } else {
        None
    }
}

/// Decides what follows from the outcome of the parser.
pub fn settle(outcome: Result<Parsed, String>) -> (settings: Result<Settings, ConfigError>)
    ensures
        match settings {
            Ok(s) => settled(outcome_view(outcome)) == Ok::<SettingsView, ConfigErrorView>(s@),
            Err(e) => settled(outcome_view(outcome)) == Err::<SettingsView, ConfigErrorView>(e@),
        },
{
    let parsed = match outcome {
        Ok(parsed) => parsed,
        Err(message) => {
            return Err(ConfigError::Arguments { message });
        },
    };
    if parsed.free.len() > 0 {
        return Err(ConfigError::Unexpected { arguments: parsed.free });
    }
    if is_given(&parsed, VERSION_FLAG) {
        return Err(ConfigError::Version);
    }
    if is_given(&parsed, HELP_FLAG) {
        return Err(ConfigError::Help);
    }
    let token = match value_of(&parsed, TOKEN) {
        Some(token) => token,
        None => {
            return Err(ConfigError::Required { option: String::from_str("token") });
        },
    };
    let database = match value_of(&parsed, DATABASE) {
        Some(database) => database,
        None => {
            return Err(ConfigError::Required { option: String::from_str("database") });
        },
    };
    let webhook_port = match value_of(&parsed, WEBHOOK_PORT) {
        Some(text) => match parse_number(text.as_str()) {
            Err(error) => {
                return Err(ConfigError::Port { error });
            },
            Ok(port) => {
                if port == 0 {
                    return Err(ConfigError::PortZero);
                }
                Some(port)
            },
        },
        None => None,
    };
    let proxy = value_of(&parsed, PROXY);
    Ok(Settings { token, database, webhook_port, proxy })
}

/// The outcome of the parser as plain mathematical values.
pub open spec fn outcome_view(outcome: Result<Parsed, String>) -> Result<ParsedView, Seq<char>> {
    match outcome {
        Ok(parsed) => Ok(parsed@),
        Err(message) => Err(message@),
    }
}

/// The configuration of the bot.
#[derive(Debug)]
pub struct Config {
    /// The token of the bot.
    pub token: String,
    /// Where the preferences are kept.
    pub database: String,
    /// The port to serve the webhook on; without one the bot polls.
    pub webhook_port: Option<u16>,
    /// The proxy for all traffic, if any.
    pub proxy: Option<Proxy>,
}

/// Whether `config` is what follows from `settings`: an error stays the
/// error it is; settings whose proxy address cannot be read are an error of
/// the proxy; any other settings are the configuration, with the proxy set
/// up where one was asked for.
pub open spec fn configured(
    config: Result<Config, ConfigError>,
    settings: Result<SettingsView, ConfigErrorView>,
) -> bool {
    match settings {
        Err(e) => config matches Err(error) && error@ == e,
        Ok(s) => {
            if s.proxy matches Some(url) && !proxy_url_accepted(url) {
                config matches Err(ConfigError::Proxy { .. })
            } else {
                &&& config matches Ok(c)
                &&& c.token@ == s.token
                &&& c.database@ == s.database
                &&& c.webhook_port == s.webhook_port
                &&& c.proxy is Some <==> s.proxy is Some
            }
        },
    }
}

/// Sets up the proxy that the settings ask for.
pub fn set_up(settings: Settings) -> (config: Result<Config, ConfigError>)
    ensures
        configured(config, Ok(settings@)),
{
    let Settings { token, database, webhook_port, proxy } = settings;
    let proxy = match proxy {
        Some(url) => match proxy_all(url.as_str()) {
            Ok(proxy) => Some(proxy),
            Err(error) => {
                return Err(ConfigError::Proxy { message: reqwest_error_message(&error) });
            },
        },
        None => None,
    };
    Ok(Config { token, database, webhook_port, proxy })
}

/// Reads the configuration from the arguments of the program.
pub struct ConfigBuilder {
    opts: Options,
    program: Option<String>,
}

impl ConfigBuilder {
    #[verifier::type_invariant]
    spec fn holds_the_table(self) -> bool {
        option_groups(self.opts) == option_table() && parses_plainly(self.opts)
    }

    /// The name under which the program was called, once known.
    pub closed spec fn program(&self) -> Option<Seq<char>> {
        match self.program {
            Some(name) => Some(name@),
            None => None,
        }
    }

    /// The usage message of a program called `program`.
    pub open spec fn usage_for(program: Option<Seq<char>>) -> Seq<char> {
        usage_text(
            option_table(),
            usage_brief(
                match program {
                    Some(name) => name,
                    None => PROGRAM@,
                },
            ),
        )
    }

    /// A builder that knows the options of the program.
    pub fn new() -> (builder: ConfigBuilder)
        ensures
            builder.program() is None,
    {
        let mut opts = options_new();
        proof {
            reveal_strlit("t");
            reveal_strlit("token");
            reveal_strlit("d");
            reveal_strlit("database");
            reveal_strlit("w");
            reveal_strlit("webhook-port");
            reveal_strlit("");
            reveal_strlit("proxy");
            reveal_strlit("v");
            reveal_strlit("version");
            reveal_strlit("h");
            reveal_strlit("help");
        }
        options_reqopt(
            &mut opts,
            "t",
            "token",
            "Set the Telegram Bot HTTP API token (required)",
            "TOKEN",
        );
        options_reqopt(
            &mut opts,
            "d",
            "database",
            "Set the database JSON file location (required)",
            "DATABASE_FILE",
        );
        options_optopt(
            &mut opts,
            "w",
            "webhook-port",
            "Run in webhook mode listening port (1 ~ 65535)",
            "WEBHOOK_PORT",
        );
        options_optopt(
            &mut opts,
            "",
            "proxy",
            "Set proxy  (supported: http, https, socks5)",
            "PROXY",
        );
        options_optflag(&mut opts, "v", "version", "Print the version");
        options_optflag(&mut opts, "h", "help", "Print this help menu");
        assert(option_groups(opts) =~= option_table());
        ConfigBuilder { opts, program: None }
    }

    /// Reads the configuration from `args`, the first of which is the name
    /// under which the program was called. Nothing is opened or set up
    /// but the proxy: the database is named, not loaded.
    pub fn parse(&mut self, args: &[String]) -> (config: Result<Config, ConfigError>)
        requires
            args.len() > 0,
        ensures
            final(self).program() == Some(args[0]@),
            configured(
                config,
                settled(parse_outcome(option_table(), args.deep_view().skip(1), option_names())),
            ),
    {
        proof {
            use_type_invariant(&*self);
        }
        self.program = Some(args[0].clone());
        let rest = slice_subrange(args, 1, args.len());
        assert(rest.deep_view() =~= args.deep_view().skip(1));
        let mut names: Vec<String> = Vec::new();
        names.push(String::from_str("t"));
        names.push(String::from_str("d"));
        names.push(String::from_str("w"));
        names.push(String::from_str("proxy"));
        names.push(String::from_str("v"));
        names.push(String::from_str("h"));
        proof {
            reveal_strlit("t");
            reveal_strlit("token");
            reveal_strlit("d");
            reveal_strlit("database");
            reveal_strlit("w");
            reveal_strlit("webhook-port");
            reveal_strlit("");
            reveal_strlit("proxy");
            reveal_strlit("v");
            reveal_strlit("version");
            reveal_strlit("h");
            reveal_strlit("help");
            let table = option_table();
            assert(names.deep_view() =~= option_names());
            assert(table[0].short_name == names[0]@);
            assert(table[1].short_name == names[1]@);
            assert(table[2].short_name == names[2]@);
            assert(table[3].long_name == names[3]@);
            assert(table[4].short_name == names[4]@);
            assert(table[5].short_name == names[5]@);
        }
        match settle(options_parse(&self.opts, rest, &names)) {
            Ok(settings) => set_up(settings),
            Err(error) => Err(error),
        }
    }

    /// What the user is told about `error`: its message, with the usage
    /// where the message calls for it.
    pub fn explain(&self, error: &ConfigError) -> (text: String)
        ensures
            text@ == message_text(error@, Self::usage_for(self.program())),
    {
        let usage = self.get_usage();
        error.message(usage.as_str())
    }

    /// The usage message: the options under a line that names the program.
    pub fn get_usage(&self) -> (usage: String)
        ensures
            usage@ == Self::usage_for(self.program()),
    {
        proof {
            use_type_invariant(self);
        }
        let brief = match &self.program {
            Some(name) => String::from_str("Usage: ").concat(name.as_str()).concat(" [options]"),
            None => String::from_str("Usage: ").concat(PROGRAM).concat(" [options]"),
        };
        options_usage(&self.opts, brief.as_str())
    }
}

} // verus!
