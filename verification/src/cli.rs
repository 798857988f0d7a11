//! The command line: which options there are, and what a list of arguments
//! asks for.
//!
//! The arguments are parsed by `getopts`. What it is trusted to do is stated
//! on the wrappers below; everything that is decided from its answers is
//! verified.

use vstd::prelude::*;
use crate::config::text_of;
use crate::config::BenchConfig;

verus! {

/// `getopts::Options`: the options that a command line may hold. Nothing of
/// its inside is known here but what `declared_options` and `default_style`
/// name.
#[verifier::external_type_specification]
#[verifier::external_body]
pub struct ExOptions(getopts::Options);

/// `getopts::Matches`: what a parse found. Nothing of its inside is known
/// here but what `matched_values` names.
#[verifier::external_type_specification]
#[verifier::external_body]
pub struct ExMatches(getopts::Matches);

/// `getopts::Fail`: why a parse failed. It is an enum of five variants, each
/// with the name of the option concerned, and is declared with them.
#[verifier::external_type_specification]
pub struct ExFail(getopts::Fail);

/// One declared option: its short name, its long name, its description, the
/// hint for its value, and whether it takes a value.
pub type OptionGroup = (Seq<char>, Seq<char>, Seq<char>, Seq<char>, bool);

/// The options that a `getopts::Options` holds, in the order of declaration.
pub uninterp spec fn declared_options(options: getopts::Options) -> Seq<
    (Seq<char>, Seq<char>, Seq<char>, Seq<char>, bool),
>;

/// Whether a `getopts::Options` parses in the style it is created with:
/// free arguments anywhere, long options with two dashes.
pub uninterp spec fn default_style(options: getopts::Options) -> bool;

/// `getopts::Options::new`: no options declared, default style.
#[verifier::external_body]
fn new_options() -> (options: getopts::Options)
    ensures
        declared_options(options) == Seq::<OptionGroup>::empty(),
        default_style(options),
{
    getopts::Options::new()
}

/// Whether an option can be declared under these names: the short name is
/// one printable ASCII character and the long name has at least two
/// characters.
pub open spec fn declarable(short_name: Seq<char>, long_name: Seq<char>) -> bool {
    &&& short_name.len() == 1
    &&& 33 <= short_name[0] as u32 <= 126
    &&& long_name.len() >= 2
}

/// Whether every declared option has names under which it can be declared.
pub open spec fn all_declarable(declared: Seq<OptionGroup>) -> bool {
    forall|i: int| 0 <= i < declared.len() ==> declarable(#[trigger] declared[i].0, declared[i].1)
}

/// Whether an option goes by a name: the name is its short or its long one.
pub open spec fn goes_by(group: OptionGroup, name: Seq<char>) -> bool {
    group.0 == name || group.1 == name
}

/// The names under which the declared options can be asked for: every short
/// name and every long name.
pub open spec fn declared_names(declared: Seq<OptionGroup>) -> Set<Seq<char>> {
    Set::new(
        |name: Seq<char>|
            exists|i: int| 0 <= i < declared.len() && goes_by(#[trigger] declared[i], name),
    )
}

/// `getopts::Options::optflag`: declares one more option, which takes no
/// value and has no hint, after those declared before; the style stays.
#[verifier::external_body]
fn declare_flag(
    options: &mut getopts::Options,
    short_name: &str,
    long_name: &str,
    description: &str,
)
    requires
        declarable(short_name@, long_name@),
    ensures
        declared_options(*final(options)) == declared_options(*old(options)).push(
            (short_name@, long_name@, description@, Seq::<char>::empty(), false),
        ),
        default_style(*final(options)) == default_style(*old(options)),
{
    options.optflag(short_name, long_name, description);
}

/// `getopts::Options::optopt`: declares one more option, which takes a value
/// and may be given at most once, after those declared before; the style
/// stays.
#[verifier::external_body]
fn declare_value(
    options: &mut getopts::Options,
    short_name: &str,
    long_name: &str,
    description: &str,
    hint: &str,
)
    requires
        declarable(short_name@, long_name@),
    ensures
        declared_options(*final(options)) == declared_options(*old(options)).push(
            (short_name@, long_name@, description@, hint@, true),
        ),
        default_style(*final(options)) == default_style(*old(options)),
{
    options.optopt(short_name, long_name, description, hint);
}

/// What was given for each name under which an option can be asked for: one
/// entry for each time the option occurred, with its value if it had one.
pub type GivenValues = Map<Seq<char>, Seq<Option<Seq<char>>>>;

/// What a `getopts::Matches` holds for each name.
pub uninterp spec fn matched_values(matches: getopts::Matches) -> Map<
    Seq<char>,
    Seq<Option<Seq<char>>>,
>;

/// What `getopts` makes of a list of arguments under the declared options,
/// in the default style: what was given for each name, or the text of the
/// failure.
pub uninterp spec fn parse_outcome(
    declared: Seq<(Seq<char>, Seq<char>, Seq<char>, Seq<char>, bool)>,
    args: Seq<Seq<char>>,
) -> Result<Map<Seq<char>, Seq<Option<Seq<char>>>>, Seq<char>>;

/// The texts of a list of strings.
pub open spec fn texts(args: Seq<String>) -> Seq<Seq<char>> {
    args.map_values(|arg: String| arg@)
}

/// `getopts::Options::parse`: the result is a function of the declared
/// options and the arguments. Matches can be asked for exactly the declared
/// names, and a failure is known by its text.
#[verifier::external_body]
fn parse_arguments(options: &getopts::Options, args: &Vec<String>) -> (parsed: Result<
    getopts::Matches,
    getopts::Fail,
>)
    requires
        default_style(*options),
        all_declarable(declared_options(*options)),
    ensures
        match parsed {
            Ok(matches) => {
                &&& parse_outcome(declared_options(*options), texts(args@)) == Ok::<
                    GivenValues,
                    Seq<char>,
                >(matched_values(matches))
                &&& matched_values(matches).dom() == declared_names(declared_options(*options))
            },
            Err(fail) => parse_outcome(declared_options(*options), texts(args@)) == Err::<
                GivenValues,
                Seq<char>,
            >(fail_text(fail)),
        },
{
    options.parse(args)
}

/// `getopts::Matches::opt_present`: whether the option occurred at all.
#[verifier::external_body]
fn option_present(matches: &getopts::Matches, name: &str) -> (present: bool)
    requires
        matched_values(*matches).dom().contains(name@),
    ensures
        present == (matched_values(*matches)[name@].len() > 0),
{
    matches.opt_present(name)
}

/// The value of the first occurrence of an option, if it occurred and had
/// one.
pub open spec fn first_value(given: Seq<Option<Seq<char>>>) -> Option<Seq<char>> {
    if given.len() > 0 {
        given[0]
    } else {
        None
    }
}

/// `getopts::Matches::opt_str`: the value of the option's first occurrence,
/// `None` if it did not occur or occurred without a value.
#[verifier::external_body]
fn option_value(matches: &getopts::Matches, name: &str) -> (value: Option<String>)
    requires
        matched_values(*matches).dom().contains(name@),
    ensures
        text_of(value) == first_value(matched_values(*matches)[name@]),
{
    matches.opt_str(name)
}

/// What `getopts` lays out for the declared options in a usage message, in
/// the default style: the rows of the options in the order of declaration,
/// joined by line ends.
pub uninterp spec fn usage_rows(
    declared: Seq<(Seq<char>, Seq<char>, Seq<char>, Seq<char>, bool)>,
) -> Seq<char>;

/// `getopts::Options::usage`: the first paragraph as it was given, an empty
/// line, the heading `Options:`, the rows of the options, and one line end.
/// The rows are a function of the declared options.
#[verifier::external_body]
fn render_usage(options: &getopts::Options, brief: &str) -> (text: String)
    requires
        default_style(*options),
        all_declarable(declared_options(*options)),
    ensures
        text@ == brief@ + "\n\nOptions:\n"@ + usage_rows(declared_options(*options)) + "\n"@,
{
    options.usage(brief)
}

/// `getopts::Fail`'s `Display`: one sentence for each failure, with
/// the option's name in single quotes.
pub open spec fn fail_text(fail: getopts::Fail) -> Seq<char> {
    match fail {
        getopts::Fail::ArgumentMissing(name) => "Argument to option '"@ + name@ + "' missing"@,
        getopts::Fail::UnrecognizedOption(name) => "Unrecognized option: '"@ + name@ + "'"@,
        getopts::Fail::OptionMissing(name) => "Required option '"@ + name@ + "' missing"@,
        getopts::Fail::OptionDuplicated(name) => "Option '"@ + name@ + "' given more than once"@,
        getopts::Fail::UnexpectedArgument(name) => "Option '"@ + name@
            + "' does not take an argument"@,
    }
}

/// `getopts::Fail`'s `to_string`, which writes what its `Display` writes.
#[verifier::external_body]
fn failure_message(fail: &getopts::Fail) -> (text: String)
    ensures
        text@ == fail_text(*fail),
{
    fail.to_string()
}

/// What was given on the command line for each option of the tool.
#[derive(Debug)]
pub struct OptionValues {
    /// Whether help was asked for.
    pub help: bool,
    /// The value of `-a`, `--address`.
    pub address: Option<String>,
    /// The value of `-l`, `--length`.
    pub length: Option<String>,
    /// The value of `-t`, `--duration`.
    pub duration: Option<String>,
    /// The value of `-c`, `--number`.
    pub connections: Option<String>,
}

/// What a command line asks for.
#[derive(Debug)]
pub enum Invocation {
    /// Run the benchmark with this configuration.
    Run(BenchConfig),
    /// Print the usage message and do nothing else.
    Help,
    /// The arguments are not understood: print the message, then the usage
    /// message, and do nothing else.
    Invalid { message: String },
}

impl OptionValues {
    /// Whether these are the values that a parse gave: help is set if `h`
    /// occurred, and each value is that of the option's first occurrence.
    pub open spec fn taken_from(&self, given: GivenValues) -> bool {
        &&& self.help == (given["h"@].len() > 0)
        &&& text_of(self.address) == first_value(given["address"@])
        &&& text_of(self.length) == first_value(given["length"@])
        &&& text_of(self.duration) == first_value(given["duration"@])
        &&& text_of(self.connections) == first_value(given["number"@])
    }
}

impl Invocation {
    /// Whether this is what the option values ask for: help if help was
    /// asked for, whatever else was given; else a run with the configuration
    /// that the values stand for.
    pub open spec fn answers_values(
        &self,
        help: bool,
        address: Option<Seq<char>>,
        length: Option<Seq<char>>,
        duration: Option<Seq<char>>,
        connections: Option<Seq<char>>,
    ) -> bool {
        if help {
            self is Help
        } else {
            &&& self matches Invocation::Run(config)
            &&& config.resolved_from(address, length, duration, connections)
        }
    }

    /// Whether this is what the outcome of a parse asks for: a failure is
    /// answered with its text, and values with what they ask for.
    pub open spec fn answers(&self, outcome: Result<GivenValues, Seq<char>>) -> bool {
        match outcome {
            Ok(given) => self.answers_values(
                given["h"@].len() > 0,
                first_value(given["address"@]),
                first_value(given["length"@]),
                first_value(given["duration"@]),
                first_value(given["number"@]),
            ),
            Err(text) => self matches Invocation::Invalid { message } && message@ == text,
        }
    }
}

/// The options of the tool, in the order of the usage message.
pub open spec fn option_table() -> Seq<OptionGroup> {
    seq![
        ("h"@, "help"@, "Print this help."@, Seq::<char>::empty(), false),
        (
            "a"@,
            "address"@,
            "Target echo server address. Default: 127.0.0.1:12345"@,
            "<address>"@,
            true,
        ),
        ("l"@, "length"@, "Test message length. Default: 512"@, "<length>"@, true),
        ("t"@, "duration"@, "Test duration in seconds. Default: 60"@, "<duration>"@, true),
        ("c"@, "number"@, "Test connection number. Default: 50"@, "<number>"@, true),
    ]
}

/// The names of the tool's options are names that `getopts` accepts.
proof fn option_table_declarable()
    ensures
        all_declarable(option_table()),
{
    reveal_strlit("h");
    reveal_strlit("help");
    reveal_strlit("a");
    reveal_strlit("address");
    reveal_strlit("l");
    reveal_strlit("length");
    reveal_strlit("t");
    reveal_strlit("duration");
    reveal_strlit("c");
    reveal_strlit("number");
}

/// Declares the options of the tool.
fn bench_options() -> (options: getopts::Options)
    ensures
        declared_options(options) == option_table(),
        default_style(options),
{
    proof {
        option_table_declarable();
        assert(declarable(option_table()[0].0, option_table()[0].1));
        assert(declarable(option_table()[1].0, option_table()[1].1));
        assert(declarable(option_table()[2].0, option_table()[2].1));
        assert(declarable(option_table()[3].0, option_table()[3].1));
        assert(declarable(option_table()[4].0, option_table()[4].1));
    }
    let mut options = new_options();
    declare_flag(&mut options, "h", "help", "Print this help.");
    declare_value(
        &mut options,
        "a",
        "address",
        "Target echo server address. Default: 127.0.0.1:12345",
        "<address>",
    );
    declare_value(&mut options, "l", "length", "Test message length. Default: 512", "<length>");
    declare_value(
        &mut options,
        "t",
        "duration",
        "Test duration in seconds. Default: 60",
        "<duration>",
    );
    declare_value(&mut options, "c", "number", "Test connection number. Default: 50", "<number>");
    assert(declared_options(options) =~= option_table());
    options
}

/// Asks the matches of a parse for what was given for each option.
fn read_values(matches: &getopts::Matches) -> (values: OptionValues)
    requires
        matched_values(*matches).dom() == declared_names(option_table()),
    ensures
        values.taken_from(matched_values(*matches)),
{
    proof {
        let names = declared_names(option_table());
        assert(goes_by(option_table()[0], "h"@));
        assert(goes_by(option_table()[1], "address"@));
        assert(goes_by(option_table()[2], "length"@));
        assert(goes_by(option_table()[3], "duration"@));
        assert(goes_by(option_table()[4], "number"@));
        assert(names.contains("h"@));
        assert(names.contains("address"@));
        assert(names.contains("length"@));
        assert(names.contains("duration"@));
        assert(names.contains("number"@));
    }
    OptionValues {
        help: option_present(matches, "h"),
        address: option_value(matches, "address"),
        length: option_value(matches, "length"),
        duration: option_value(matches, "duration"),
        connections: option_value(matches, "number"),
    }
}

/// Decides what option values, or the message of a failed parse, ask for.
pub fn decide(parsed: Result<OptionValues, String>) -> (invocation: Invocation)
    ensures
        match parsed {
            Ok(values) => invocation.answers_values(
                values.help,
                text_of(values.address),
                text_of(values.length),
                text_of(values.duration),
                text_of(values.connections),
            ),
            Err(text) => invocation == (Invocation::Invalid { message: text }),
        },
{
    match parsed {
        Ok(values) => {
            if values.help {
                Invocation::Help
            } else {
                Invocation::Run(
                    BenchConfig::resolve(
                        values.address,
                        values.length,
                        values.duration,
                        values.connections,
                    ),
                )
            }
        },
        Err(message) => Invocation::Invalid { message },
    }
}

/// Decides what a list of arguments asks for. The arguments are those after
/// the program's name.
pub fn interpret(args: &Vec<String>) -> (invocation: Invocation)
    ensures
        invocation.answers(parse_outcome(option_table(), texts(args@))),
{
    let options = bench_options();
    proof {
        option_table_declarable();
    }
    match parse_arguments(&options, args) {
        Ok(matches) => decide(Ok(read_values(&matches))),
        Err(fail) => decide(Err(failure_message(&fail))),
    }
}

/// The first paragraph of the usage message: what the tool is, and the
/// forms of its command line under the name it was called by.
pub open spec fn usage_brief_text(program: Seq<char>) -> Seq<char> {
    "Echo benchmark.\n\nUsage:\n  "@ + program
        + " [ -a <address> ] [ -l <length> ] [ -c <number> ] [ -t <duration> ]\n  "@ + program
        + " (-h | --help)\n  "@ + program + " --version"@
}

/// Writes the first paragraph of the usage message.
pub fn usage_brief(program: &str) -> (text: String)
    ensures
        text@ == usage_brief_text(program@),
{
    let mut text = String::from_str("Echo benchmark.\n\nUsage:\n  ");
    text.append(program);
    text.append(" [ -a <address> ] [ -l <length> ] [ -c <number> ] [ -t <duration> ]\n  ");
    text.append(program);
    text.append(" (-h | --help)\n  ");
    text.append(program);
    text.append(" --version");
    text
}

/// The usage message: the first paragraph, an empty line, the heading
/// `Options:`, the rows of the tool's options, and one line end.
pub open spec fn usage_text(program: Seq<char>) -> Seq<char> {
    usage_brief_text(program) + "\n\nOptions:\n"@ + usage_rows(option_table()) + "\n"@
}

/// Writes the usage message, with the options as `getopts` lays them out.
pub fn usage(program: &str) -> (text: String)
    ensures
        text@ == usage_text(program@),
{
    let options = bench_options();
    proof {
        option_table_declarable();
    }
    let brief = usage_brief(program);
    render_usage(&options, brief.as_str())
}

} // verus!
