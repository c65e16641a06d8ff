//! Why a command line gives no configuration, and what the user is told.

use crate::config::port::PortError;
use crate::config::VERSION;
use vstd::prelude::*;
use vstd::string::*;

verus! {

/// Why the command line gives no configuration.
#[derive(Debug, PartialEq, Eq)]
pub enum ConfigError {
    /// The arguments do not fit the options; `message` says how.
    Arguments { message: String },
    /// Arguments were given that belong to no option.
    Unexpected { arguments: Vec<String> },
    /// The version was asked for.
    Version,
    /// The usage was asked for.
    Help,
    /// An option that has to be given has no value.
    Required { option: String },
    /// The webhook port is no number of sixteen bits.
    Port { error: PortError },
    /// The webhook port is 0.
    PortZero,
    /// The address of the proxy cannot be read; `message` says why.
    Proxy { message: String },
}

/// A [`ConfigError`] as plain mathematical values.
pub enum ConfigErrorView {
    Arguments { message: Seq<char> },
    Unexpected { arguments: Seq<Seq<char>> },
    Version,
    Help,
    Required { option: Seq<char> },
    Port { error: PortError },
    PortZero,
    Proxy { message: Seq<char> },
}

impl View for ConfigError {
    type V = ConfigErrorView;

    open spec fn view(&self) -> ConfigErrorView {
        match *self {
            ConfigError::Arguments { message } => ConfigErrorView::Arguments { message: message@ },
            ConfigError::Unexpected { arguments } => ConfigErrorView::Unexpected {
                arguments: arguments.deep_view(),
            },
            ConfigError::Version => ConfigErrorView::Version,
            ConfigError::Help => ConfigErrorView::Help,
            ConfigError::Required { option } => ConfigErrorView::Required { option: option@ },
            ConfigError::Port { error } => ConfigErrorView::Port { error },
            ConfigError::PortZero => ConfigErrorView::PortZero,
            ConfigError::Proxy { message } => ConfigErrorView::Proxy { message: message@ },
        }
    }
}

/// The parts, with `separator` between each two of them.
pub open spec fn joined(parts: Seq<Seq<char>>, separator: Seq<char>) -> Seq<char>
    decreases parts.len(),
{
    if parts.len() == 0 {
        Seq::empty()
    } else if parts.len() == 1 {
        parts[0]
    } else {
        joined(parts.drop_last(), separator) + separator + parts.last()
    }
}

/// Joins the parts, with `separator` between each two of them.
pub fn join(parts: &Vec<String>, separator: &str) -> (text: String)
    ensures
        text@ == joined(parts.deep_view(), separator@),
{
    let mut text = String::new();
    let mut i: usize = 0;
    while i < parts.len()
        invariant
            i <= parts.len(),
            text@ == joined(parts.deep_view().take(i as int), separator@),
        decreases parts.len() - i,
    {
        let ghost before = parts.deep_view().take(i as int);
        let ghost after = parts.deep_view().take(i + 1);
        assert(after.drop_last() =~= before);
        assert(after.last() == parts[i as int]@);
        if i > 0 {
            text.append(separator);
        }
        text.append(parts[i].as_str());
        assert(text@ =~= joined(after, separator@));
        i += 1;
    }
    assert(parts.deep_view().take(parts.len() as int) =~= parts.deep_view());
    text
}

/// How an error in reading a port is worded.
pub open spec fn port_error_text(error: PortError) -> Seq<char> {
    match error {
        PortError::Empty => "cannot parse integer from empty string"@,
        PortError::InvalidDigit => "invalid digit found in string"@,
        PortError::TooLarge => "number too large to fit in target type"@,
    }
}

/// `text`, an empty line, and the usage.
pub open spec fn above_usage(text: Seq<char>, usage: Seq<char>) -> Seq<char> {
    text + "\n\n"@ + usage
}

/// What the user is told about `error`, given the usage message. A request
/// for the version or for the usage is answered with just that; every
/// other error is worded above the usage.
pub open spec fn message_text(error: ConfigErrorView, usage: Seq<char>) -> Seq<char> {
    match error {
        ConfigErrorView::Arguments { message } => above_usage(message, usage),
        ConfigErrorView::Unexpected { arguments } => above_usage(
            "Unexpected argument: "@ + joined(arguments, ", "@),
            usage,
        ),
        ConfigErrorView::Version => VERSION@,
        ConfigErrorView::Help => usage,
        ConfigErrorView::Required { option } => above_usage(
            "Required option '"@ + option + "' missing"@,
            usage,
        ),
        ConfigErrorView::Port { error } => above_usage(port_error_text(error), usage),
        ConfigErrorView::PortZero => above_usage(
            "Port 0 cannot be used as the webhook port"@,
            usage,
        ),
        ConfigErrorView::Proxy { message } => above_usage(message, usage),
    }
}

/// Puts `text` above the usage.
fn put_above_usage(text: String, usage: &str) -> (message: String)
    ensures
        message@ == above_usage(text@, usage@),
{
    text.concat("\n\n").concat(usage)
}

impl ConfigError {
    /// What the user is told about the error, given the usage message.
    pub fn message(&self, usage: &str) -> (text: String)
        ensures
            text@ == message_text(self@, usage@),
    {
        match self {
            ConfigError::Arguments { message } => put_above_usage(message.clone(), usage),
            ConfigError::Unexpected { arguments } => {
                let list = join(arguments, ", ");
                put_above_usage(
                    String::from_str("Unexpected argument: ").concat(list.as_str()),
                    usage,
                )
            },
            ConfigError::Version => String::from_str(VERSION),
            ConfigError::Help => String::from_str(usage),
            ConfigError::Required { option } => put_above_usage(
                String::from_str("Required option '").concat(option.as_str()).concat("' missing"),
                usage,
            ),
            ConfigError::Port { error } => {
                let text = match error {
                    PortError::Empty => String::from_str("cannot parse integer from empty string"),
                    PortError::InvalidDigit => String::from_str("invalid digit found in string"),
                    PortError::TooLarge => String::from_str(
                        "number too large to fit in target type",
                    ),
                };
                put_above_usage(text, usage)
            },
            ConfigError::PortZero => put_above_usage(
                String::from_str("Port 0 cannot be used as the webhook port"),
                usage,
            ),
            ConfigError::Proxy { message } => put_above_usage(message.clone(), usage),
        }
    }
}

} // verus!
