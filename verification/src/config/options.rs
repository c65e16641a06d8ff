//! The option table and the parser of `getopts`, as the configuration
//! uses them.

use getopts::Options;
use vstd::prelude::*;

verus! {

/// `Options` of `getopts`: the table of the options that a program takes.
#[verifier::external_type_specification]
#[verifier::external_body]
pub struct ExOptions(Options);

/// One entry of an option table: the names by which the option is given,
/// what the usage says of it, whether it takes a value and whether it has
/// to be given.
pub struct OptionGroup {
    pub short_name: Seq<char>,
    pub long_name: Seq<char>,
    pub desc: Seq<char>,
    pub hint: Seq<char>,
    pub takes_value: bool,
    pub required: bool,
}

/// The entries that an option table holds, in the order in which they
/// were defined.
pub uninterp spec fn option_groups(opts: Options) -> Seq<OptionGroup>;

/// Whether a table reads a command line in the style that a new table
/// has: arguments that belong to no option may stand anywhere, and long
/// names are given after two dashes.
pub uninterp spec fn parses_plainly(opts: Options) -> bool;

/// The usage message that `getopts` derives from the entries of a table
/// in the plain style, under the line `brief`.
pub uninterp spec fn usage_text(groups: Seq<OptionGroup>, brief: Seq<char>) -> Seq<char>;

/// Whether an entry may be defined under these names: the short name is
/// empty or one ASCII character, the long name is empty or longer than one
/// character, and one of the two is there.
pub open spec fn names_valid(short_name: Seq<char>, long_name: Seq<char>) -> bool {
    &&& short_name.len() <= 1
    &&& short_name.len() == 1 ==> short_name[0] <= '\u{7f}'
    &&& long_name.len() != 1
    &&& short_name.len() + long_name.len() > 0
}

/// `Options::new` of `getopts`: a table without entries, in the plain
/// style.
#[verifier::external_body]
pub(crate) fn options_new() -> (opts: Options)
    ensures
        option_groups(opts) == Seq::<OptionGroup>::empty(),
        parses_plainly(opts),
{
    Options::new()
}

/// `Options::reqopt` of `getopts`: the table gains, as its last entry, an
/// option that takes a value and has to be given. The call panics on names
/// that `getopts` does not accept, which `requires` leaves out.
#[verifier::external_body]
pub(crate) fn options_reqopt(
    opts: &mut Options,
    short_name: &str,
    long_name: &str,
    desc: &str,
    hint: &str,
)
    requires
        names_valid(short_name@, long_name@),
    ensures
        option_groups(*final(opts)) == option_groups(*old(opts)).push(
            (OptionGroup {
                short_name: short_name@,
                long_name: long_name@,
                desc: desc@,
                hint: hint@,
                takes_value: true,
                required: true,
            }),
        ),
        parses_plainly(*final(opts)) == parses_plainly(*old(opts)),
{
    opts.reqopt(short_name, long_name, desc, hint);
}

/// `Options::optopt` of `getopts`: the table gains, as its last entry, an
/// option that takes a value and may be left out; the style stays.
#[verifier::external_body]
pub(crate) fn options_optopt(
    opts: &mut Options,
    short_name: &str,
    long_name: &str,
    desc: &str,
    hint: &str,
)
    requires
        names_valid(short_name@, long_name@),
    ensures
        option_groups(*final(opts)) == option_groups(*old(opts)).push(
            (OptionGroup {
                short_name: short_name@,
                long_name: long_name@,
                desc: desc@,
                hint: hint@,
                takes_value: true,
                required: false,
            }),
        ),
        parses_plainly(*final(opts)) == parses_plainly(*old(opts)),
{
    opts.optopt(short_name, long_name, desc, hint);
}

/// `Options::optflag` of `getopts`: the table gains, as its last entry, an
/// option that takes no value and may be left out; its hint is empty,
/// and the style stays.
#[verifier::external_body]
pub(crate) fn options_optflag(
    opts: &mut Options,
    short_name: &str,
    long_name: &str,
    desc: &str,
)
    requires
        names_valid(short_name@, long_name@),
    ensures
        option_groups(*final(opts)) == option_groups(*old(opts)).push(
            (OptionGroup {
                short_name: short_name@,
                long_name: long_name@,
                desc: desc@,
                hint: Seq::<char>::empty(),
                takes_value: false,
                required: false,
            }),
        ),
        parses_plainly(*final(opts)) == parses_plainly(*old(opts)),
{
    opts.optflag(short_name, long_name, desc);
}

/// `Options::usage` of `getopts`: the usage message of the table under
/// the line `brief`. For a table in the plain style it depends on the
/// entries and the line alone.
#[verifier::external_body]
pub(crate) fn options_usage(opts: &Options, brief: &str) -> (usage: String)
    requires
        parses_plainly(*opts),
    ensures
        usage@ == usage_text(option_groups(*opts), brief@),
{
    opts.usage(brief)
}

/// What `getopts` found in a command line: the arguments that belong to
/// no option and, for each name that was asked for, whether the option was
/// given and the value it was given with.
#[derive(Debug, PartialEq, Eq)]
pub struct Parsed {
    pub free: Vec<String>,
    pub given: Vec<bool>,
    pub values: Vec<Option<String>>,
}

/// A [`Parsed`] as plain mathematical values.
pub struct ParsedView {
    pub free: Seq<Seq<char>>,
    pub given: Seq<bool>,
    pub values: Seq<Option<Seq<char>>>,
}

impl View for Parsed {
    type V = ParsedView;

    open spec fn view(&self) -> ParsedView {
        ParsedView {
            free: self.free.deep_view(),
            given: self.given@,
            values: self.values.deep_view(),
        }
    }
}

/// What `getopts` makes of the command line `args` under a table in the
/// plain style with the entries `groups`, asked for the options `names`:
/// what it found, or the message of its failure.
pub uninterp spec fn parse_outcome(
    groups: Seq<OptionGroup>,
    args: Seq<Seq<char>>,
    names: Seq<Seq<char>>,
) -> Result<ParsedView, Seq<char>>;

/// Whether `name` asks for an entry of `groups`: a name of one character
/// goes by the short names, any other by the long names.
pub open spec fn defines(groups: Seq<OptionGroup>, name: Seq<char>) -> bool {
    exists|i: int|
        0 <= i < groups.len() && if name.len() == 1 {
            (#[trigger] groups[i]).short_name == name
        } else {
            name.len() > 1 && groups[i].long_name == name
        }
}

/// `Options::parse` of `getopts` on `args`, and `Matches::free`,
/// `Matches::opt_present` and `Matches::opt_str` on what it found, for each
/// of `names` in turn; a failure is handed on as its message. For a table
/// in the plain style the outcome depends on the entries, the arguments
/// and the names alone. The calls panic on an entry without a name and on a
/// name that the table does not define, which `requires` leaves out.
#[verifier::external_body]
pub(crate) fn options_parse(
    opts: &Options,
    args: &[String],
    names: &Vec<String>,
) -> (outcome: Result<Parsed, String>)
    requires
        parses_plainly(*opts),
        forall|i: int|
            0 <= i < option_groups(*opts).len() ==> names_valid(
                (#[trigger] option_groups(*opts)[i]).short_name,
                option_groups(*opts)[i].long_name,
            ),
        forall|i: int|
            0 <= i < names.len() ==> defines(option_groups(*opts), (#[trigger] names[i])@),
    ensures
        match outcome {
            Ok(parsed) => parse_outcome(option_groups(*opts), args.deep_view(), names.deep_view())
                == Ok::<ParsedView, Seq<char>>(parsed@) && parsed.given.len() == names.len()
                && parsed.values.len() == names.len(),
            Err(message) => parse_outcome(
                option_groups(*opts),
                args.deep_view(),
                names.deep_view(),
            ) == Err::<ParsedView, Seq<char>>(message@),
        },
{
    match opts.parse(args) {
        Ok(matches) => Ok(
            Parsed {
                free: matches.free.clone(),
                given: names.iter().map(|name| matches.opt_present(name)).collect(),
                values: names.iter().map(|name| matches.opt_str(name)).collect(),
            },
        ),
        Err(fail) => Err(fail.to_string()),
    }
}

} // verus!
