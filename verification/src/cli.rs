//! The command line: what the arguments ask for, and the texts that answer
//! `--help`, `--version` and a command line that cannot be read.

use crate::options::{default_options, OptionsModel, ProjectType, RunOptions, SummaryFormat};
use crate::platform::BuildProfile;
use crate::self_update::FINISH_UPDATE_FLAG;
use crate::style::{
    bold, bold_bright_red, bold_bright_white, bold_cyan, bold_magenta, bold_text, bold_yellow,
    bright_blue_bold, bright_blue_text, bright_cyan, bright_cyan_text, bright_red_text,
    bright_white_text, cyan_text, dimmed, dimmed_text, magenta_text, yellow_text,
};
use crate::text::{
    concatenate, join, joined, pair, slice_texts, strip_prefix, texts, triple,
};
use vstd::prelude::*;
use vstd::string::*;

verus! {

/// The name of the program.
pub const PACKAGE_NAME: &'static str = "mdrcp";

/// The version of the program.
pub const PACKAGE_VERSION: &'static str = "0.1.0";

/// The time at which this version was released.
pub const BUILD_TIMESTAMP: &'static str = "2025-01-01 00:00:00 UTC";

/// What the program says about itself.
#[derive(Clone, Copy, Debug)]
pub struct VersionMetadata {
    pub name: &'static str,
    pub version: &'static str,
    pub build_timestamp: &'static str,
}

/// What the program says about itself.
pub fn version_metadata() -> (metadata: VersionMetadata)
    ensures
        metadata.name@ == PACKAGE_NAME@,
        metadata.version@ == PACKAGE_VERSION@,
        metadata.build_timestamp@ == BUILD_TIMESTAMP@,
{
    VersionMetadata {
        name: PACKAGE_NAME,
        version: PACKAGE_VERSION,
        build_timestamp: BUILD_TIMESTAMP,
    }
}

/// The banner: name, version and build time, each in its style.
pub open spec fn banner_text() -> Seq<char> {
    joined(
        seq![
            bright_white_text(bold_text(PACKAGE_NAME@)),
            bold_text(bright_blue_text("v"@ + PACKAGE_VERSION@)),
            dimmed_text("built "@ + BUILD_TIMESTAMP@),
        ],
        " "@,
    )
}

/// The line that names the program and its version.
pub fn version_banner() -> (banner: String)
    ensures
        banner@ == banner_text(),
{
    let metadata = version_metadata();
    let version = concatenate("v", metadata.version);
    let built = concatenate("built ", metadata.build_timestamp);
    triple(
        bold_bright_white(metadata.name),
        bright_blue_bold(version.as_str()),
        dimmed(built.as_str()),
    )
}

/// A line of the help text that explains one option.
pub open spec fn option_text(flags: Seq<char>, explanation: Seq<char>) -> Seq<char> {
    "  "@ + joined(seq![bright_cyan_text(flags), dimmed_text(explanation)], " "@)
}

/// The lines of the help text.
pub open spec fn help_lines() -> Seq<Seq<char>> {
    seq![
        banner_text(),
        Seq::empty(),
        joined(seq![yellow_text(bold_text("Usage:"@)), bold_text("mdrcp [OPTIONS]"@)], " "@),
        Seq::empty(),
        bright_white_text(bold_text("Options:"@)),
        option_text("--help, -h"@, "Show this help message"@),
        option_text("--version, -V"@, "Show version information"@),
        option_text(
            "--target <path>, -t <path>"@,
            "Copy built binaries into the directory (relative paths resolve from project root)"@,
        ),
        option_text("--quiet, -q"@, "Suppress version banner and progress output"@),
        option_text(
            "--summary <format>"@,
            "Emit deployment summary in the given format (text | json | json-pretty)"@,
        ),
        option_text("--release"@, "Copy from target/release (default behavior)"@),
        option_text("--debug"@, "Copy from target/debug (use after `cargo build`)"@),
        option_text("--tauri"@, "Treat the project as a Tauri application (package in src-tauri)"@),
        option_text("--no-tauri"@, "Treat the project as a plain Cargo project"@),
        option_text("(none)"@, "Run deployment routine"@),
        Seq::empty(),
        joined(
            seq![
                cyan_text(bold_text("Tip:"@)),
                dimmed_text(
                    "Use after `cargo build --release` (or `cargo build` with --debug) to copy built binaries."@,
                ),
            ],
            " "@,
        ),
        joined(
            seq![
                magenta_text(bold_text("Relative paths:"@)),
                dimmed_text("Resolved against the project directory passed to the tool."@),
            ],
            " "@,
        ),
    ]
}

fn option_line(flags: &str, explanation: &str) -> (line: String)
    ensures
        line@ == option_text(flags@, explanation@),
{
    let entry = pair(bright_cyan(flags), dimmed(explanation));
    concatenate("  ", entry.as_str())
}

/// The help text: the banner, the usage line, one line for each option and
/// two closing remarks, separated by line feeds.
pub fn help_text() -> (help: String)
    ensures
        help@ == joined(help_lines(), "\n"@),
{
    let mut lines: Vec<String> = Vec::new();
    lines.push(version_banner());
    lines.push(String::new());
    lines.push(pair(bold_yellow("Usage:"), bold("mdrcp [OPTIONS]")));
    lines.push(String::new());
    lines.push(bold_bright_white("Options:"));
    lines.push(option_line("--help, -h", "Show this help message"));
    lines.push(option_line("--version, -V", "Show version information"));
    lines.push(
        option_line(
            "--target <path>, -t <path>",
            "Copy built binaries into the directory (relative paths resolve from project root)",
        ),
    );
    lines.push(option_line("--quiet, -q", "Suppress version banner and progress output"));
    lines.push(
        option_line(
            "--summary <format>",
            "Emit deployment summary in the given format (text | json | json-pretty)",
        ),
    );
    lines.push(option_line("--release", "Copy from target/release (default behavior)"));
    lines.push(option_line("--debug", "Copy from target/debug (use after `cargo build`)"));
    lines.push(
        option_line("--tauri", "Treat the project as a Tauri application (package in src-tauri)"),
    );
    lines.push(option_line("--no-tauri", "Treat the project as a plain Cargo project"));
    lines.push(option_line("(none)", "Run deployment routine"));
    lines.push(String::new());
    lines.push(
        pair(
            bold_cyan("Tip:"),
            dimmed(
                "Use after `cargo build --release` (or `cargo build` with --debug) to copy built binaries.",
            ),
        ),
    );
    lines.push(
        pair(
            bold_magenta("Relative paths:"),
            dimmed("Resolved against the project directory passed to the tool."),
        ),
    );
    assert(texts(lines@) =~= help_lines());
    join(&lines, "\n")
}

/// What a command line asks for.
#[derive(Clone, Debug, PartialEq, Eq)]
pub enum Command {
    /// Deploy, with the given options.
    Deploy(RunOptions),
    /// Show the help text.
    ShowHelp,
    /// Show the version banner.
    ShowVersion,
    /// Finish a self-update: copy `source` to `destination`, retrying while
    /// the destination is still in use. The program passes this to its own
    /// helper; it is not meant for users.
    FinishUpdate { source: String, destination: String },
}

/// The mathematical content of a [`Command`].
pub enum CommandModel {
    Deploy(OptionsModel),
    ShowHelp,
    ShowVersion,
    FinishUpdate { source: Seq<char>, destination: Seq<char> },
}

impl View for Command {
    type V = CommandModel;

    open spec fn view(&self) -> CommandModel {
        match self {
            Command::Deploy(options) => CommandModel::Deploy(options@),
            Command::ShowHelp => CommandModel::ShowHelp,
            Command::ShowVersion => CommandModel::ShowVersion,
            Command::FinishUpdate { source, destination } => CommandModel::FinishUpdate {
                source: source@,
                destination: destination@,
            },
        }
    }
}

/// Why a command line cannot be read.
#[derive(Clone, Debug, PartialEq, Eq)]
pub enum ParseError {
    /// An argument is not an option of the program; all arguments are given.
    UnknownArgs(Vec<String>),
    /// The option `flag` needs a value and has none.
    MissingValue { flag: String },
    /// The option `flag` does not accept `value`, only one of `expected`.
    InvalidValue { flag: String, value: String, expected: &'static [&'static str] },
}

/// The mathematical content of a [`ParseError`].
pub enum ParseErrorModel {
    UnknownArgs(Seq<Seq<char>>),
    MissingValue { flag: Seq<char> },
    InvalidValue { flag: Seq<char>, value: Seq<char>, expected: Seq<Seq<char>> },
}

impl View for ParseError {
    type V = ParseErrorModel;

    open spec fn view(&self) -> ParseErrorModel {
        match self {
            ParseError::UnknownArgs(arguments) => ParseErrorModel::UnknownArgs(texts(arguments@)),
            ParseError::MissingValue { flag } => ParseErrorModel::MissingValue { flag: flag@ },
            ParseError::InvalidValue { flag, value, expected } => ParseErrorModel::InvalidValue {
                flag: flag@,
                value: value@,
                expected: slice_texts(expected@),
            },
        }
    }
}

/// The summary format that `value` names, if it names one.
pub open spec fn summary_format(value: Seq<char>) -> Option<SummaryFormat> {
    if value == "text"@ {
        Some(SummaryFormat::Text)
    } else if value == "json"@ {
        Some(SummaryFormat::Json)
    } else if value == "json-pretty"@ {
        Some(SummaryFormat::JsonPretty)
    } else {
        None
    }
}

/// The values that `--summary` accepts.
pub open spec fn summary_values() -> Seq<Seq<char>> {
    seq!["text"@, "json"@, "json-pretty"@]
}

/// What remains of `argument` after `prefix`.
pub open spec fn after_prefix(prefix: Seq<char>, argument: Seq<char>) -> Seq<char> {
    argument.skip(prefix.len() as int)
}

/// `options` after `--summary`, written as `flag`, was given `value`.
pub open spec fn with_summary(
    options: OptionsModel,
    flag: Seq<char>,
    value: Seq<char>,
) -> Result<OptionsModel, ParseErrorModel> {
    match summary_format(value) {
        Some(format) => Ok(OptionsModel { summary: format, ..options }),
        None => Err(ParseErrorModel::InvalidValue { flag, value, expected: summary_values() }),
    }
}

/// The reading of `arguments` from position `index` on, with `options`
/// collected so far. Options are read from left to right, a later one
/// overrides an earlier one, and the first argument that cannot be read ends
/// the reading with its error.
pub open spec fn parsed_from(
    arguments: Seq<Seq<char>>,
    index: int,
    options: OptionsModel,
) -> Result<CommandModel, ParseErrorModel>
    decreases arguments.len() - index,
{
    if index < 0 || index >= arguments.len() {
        Ok(CommandModel::Deploy(options))
    } else {
        let argument = arguments[index];
        if argument == "-t"@ || argument == "--target"@ {
            if index + 1 >= arguments.len() {
                Err(ParseErrorModel::MissingValue { flag: argument })
            } else {
                parsed_from(
                    arguments,
                    index + 2,
                    OptionsModel { target_override: Some(arguments[index + 1]), ..options },
                )
            }
        } else if argument == "-q"@ || argument == "--quiet"@ {
            parsed_from(arguments, index + 1, OptionsModel { quiet: true, ..options })
        } else if argument == "--summary"@ {
            if index + 1 >= arguments.len() {
                Err(ParseErrorModel::MissingValue { flag: argument })
            } else {
                match with_summary(options, argument, arguments[index + 1]) {
                    Ok(changed) => parsed_from(arguments, index + 2, changed),
                    Err(error) => Err(error),
                }
            }
        } else if "--target="@.is_prefix_of(argument) {
            let value = after_prefix("--target="@, argument);
            if value.len() == 0 {
                Err(ParseErrorModel::MissingValue { flag: "--target"@ })
            } else {
                parsed_from(
                    arguments,
                    index + 1,
                    OptionsModel { target_override: Some(value), ..options },
                )
            }
        } else if "--summary="@.is_prefix_of(argument) {
            let value = after_prefix("--summary="@, argument);
            if value.len() == 0 {
                Err(ParseErrorModel::MissingValue { flag: "--summary"@ })
            } else {
                match with_summary(options, "--summary"@, value) {
                    Ok(changed) => parsed_from(arguments, index + 1, changed),
                    Err(error) => Err(error),
                }
            }
        } else if argument == "--release"@ {
            parsed_from(
                arguments,
                index + 1,
                OptionsModel { profile: BuildProfile::Release, ..options },
            )
        } else if argument == "--debug"@ {
            parsed_from(
                arguments,
                index + 1,
                OptionsModel { profile: BuildProfile::Debug, ..options },
            )
        } else if argument == "--tauri"@ {
            parsed_from(
                arguments,
                index + 1,
                OptionsModel { project_type: Some(ProjectType::Tauri), ..options },
            )
        } else if argument == "--no-tauri"@ {
            parsed_from(
                arguments,
                index + 1,
                OptionsModel { project_type: Some(ProjectType::Standard), ..options },
            )
        } else {
            Err(ParseErrorModel::UnknownArgs(arguments))
        }
    }
}

/// What the command line `arguments` asks for. A lone `-h` or `--help`
/// asks for the help text, a lone `-V` or `--version` for the banner, and the
/// finish-update instruction followed by exactly two paths for the end of a
/// self-update. Every other command line is read as the options of a
/// deployment.
pub open spec fn parsed(arguments: Seq<Seq<char>>) -> Result<CommandModel, ParseErrorModel> {
    if arguments.len() == 1 && (arguments[0] == "-h"@ || arguments[0] == "--help"@) {
        Ok(CommandModel::ShowHelp)
    } else if arguments.len() == 1 && (arguments[0] == "-V"@ || arguments[0] == "--version"@) {
        Ok(CommandModel::ShowVersion)
    } else if arguments.len() == 3 && arguments[0] == FINISH_UPDATE_FLAG@ {
        Ok(CommandModel::FinishUpdate { source: arguments[1], destination: arguments[2] })
    } else {
        parsed_from(arguments, 0, default_options())
    }
}

/// The values that `--summary` accepts.
pub fn summary_allowed() -> (allowed: &'static [&'static str])
    ensures
        slice_texts(allowed@) == summary_values(),
{
    let allowed: &'static [&'static str] = &["text", "json", "json-pretty"];
    allowed
}

/// The summary format that `value` names, if it names one.
pub fn parse_summary_format(value: &str) -> (format: Option<SummaryFormat>)
    ensures
        format == summary_format(value@),
{
    if value.eq("text") {
        Some(SummaryFormat::Text)
    } else if value.eq("json") {
        Some(SummaryFormat::Json)
    } else if value.eq("json-pretty") {
        Some(SummaryFormat::JsonPretty)
    } else {
        None
    }
}

fn clone_arguments(arguments: &[String]) -> (copy: Vec<String>)
    ensures
        texts(copy@) == texts(arguments@),
{
    let mut copy: Vec<String> = Vec::new();
    let mut index: usize = 0;
    while index < arguments.len()
        invariant
            index <= arguments.len(),
            copy@.len() == index,
            texts(copy@) == texts(arguments@).take(index as int),
        decreases arguments.len() - index,
    {
        copy.push(arguments[index].clone());
        index += 1;
    }
    copy
}

fn set_summary(
    options: RunOptions,
    flag: &str,
    value: &str,
) -> (changed: Result<RunOptions, ParseError>)
    ensures
        match changed {
            Ok(result) => with_summary(options@, flag@, value@) == Ok::<
                OptionsModel,
                ParseErrorModel,
            >(result@),
            Err(error) => with_summary(options@, flag@, value@) == Err::<
                OptionsModel,
                ParseErrorModel,
            >(error@),
        },
{
    match parse_summary_format(value) {
        Some(format) => {
            let mut result = options;
            result.summary = format;
            Ok(result)
        },
        None => Err(
            ParseError::InvalidValue {
                flag: flag.to_string(),
                value: value.to_string(),
                expected: summary_allowed(),
            },
        ),
    }
}

proof fn lemma_prefix_split(prefix: Seq<char>, tail: Seq<char>)
    ensures
        prefix.is_prefix_of(prefix + tail),
        after_prefix(prefix, prefix + tail) == tail,
{
}

/// Reads a command line, given without the name of the program.
pub fn parse_args(args: &[String]) -> (command: Result<Command, ParseError>)
    ensures
        match command {
            Ok(asked) => parsed(texts(args@)) == Ok::<CommandModel, ParseErrorModel>(asked@),
            Err(error) => parsed(texts(args@)) == Err::<CommandModel, ParseErrorModel>(error@),
        },
{
    let ghost arguments = texts(args@);
    if args.len() == 1 {
        let only = args[0].as_str();
        if only.eq("-h") || only.eq("--help") {
            return Ok(Command::ShowHelp);
        }
        if only.eq("-V") || only.eq("--version") {
            return Ok(Command::ShowVersion);
        }
    }
    if args.len() == 3 && args[0].as_str().eq(FINISH_UPDATE_FLAG) {
        return Ok(
            Command::FinishUpdate { source: args[1].clone(), destination: args[2].clone() },
        );
    }
    let mut options = RunOptions::default();
    let mut index: usize = 0;
    while index < args.len()
        invariant
            index <= args.len(),
            arguments == texts(args@),
            parsed_from(arguments, index as int, options@) == parsed(arguments),
        decreases args.len() - index,
    {
        let argument = args[index].as_str();
        if argument.eq("-t") || argument.eq("--target") {
            if index + 1 >= args.len() {
                return Err(ParseError::MissingValue { flag: argument.to_string() });
            }
            options.target_override = Some(args[index + 1].clone());
            index += 2;
        } else if argument.eq("-q") || argument.eq("--quiet") {
            options.quiet = true;
            index += 1;
        } else if argument.eq("--summary") {
            if index + 1 >= args.len() {
                return Err(ParseError::MissingValue { flag: argument.to_string() });
            }
            match set_summary(options, argument, args[index + 1].as_str()) {
                Ok(changed) => {
                    options = changed;
                },
                Err(error) => {
                    return Err(error);
                },
            }
            index += 2;
        } else {
            match strip_prefix(argument, "--target=") {
                Some(value) => {
                    proof {
                        lemma_prefix_split("--target="@, value@);
                    }
                    if value.is_empty() {
                        return Err(ParseError::MissingValue { flag: "--target".to_string() });
                    }
                    options.target_override = Some(value.to_string());
                    index += 1;
                },
                None => match strip_prefix(argument, "--summary=") {
                    Some(value) => {
                        proof {
                            lemma_prefix_split("--summary="@, value@);
                        }
                        if value.is_empty() {
                            return Err(
                                ParseError::MissingValue { flag: "--summary".to_string() },
                            );
                        }
                        match set_summary(options, "--summary", value) {
                            Ok(changed) => {
                                options = changed;
                            },
                            Err(error) => {
                                return Err(error);
                            },
                        }
                        index += 1;
                    },
                    None => {
                        if argument.eq("--release") {
                            options.profile = BuildProfile::Release;
                            index += 1;
                        } else if argument.eq("--debug") {
                            options.profile = BuildProfile::Debug;
                            index += 1;
                        } else if argument.eq("--tauri") {
                            options.project_type = Some(ProjectType::Tauri);
                            index += 1;
                        } else if argument.eq("--no-tauri") {
                            options.project_type = Some(ProjectType::Standard);
                            index += 1;
                        } else {
                            return Err(ParseError::UnknownArgs(clone_arguments(args)));
                        }
                    },
                },
            }
        }
    }
    Ok(Command::Deploy(options))
}

/// The lines that explain why a command line could not be read. An empty
/// list of unknown arguments calls for no explanation.
pub open spec fn parse_error_text(error: ParseErrorModel) -> Seq<Seq<char>> {
    match error {
        ParseErrorModel::UnknownArgs(arguments) => if arguments.len() == 0 {
            Seq::empty()
        } else {
            seq![
                joined(
                    seq![
                        bright_red_text(bold_text("Unknown arguments:"@)),
                        bold_text(joined(arguments, " "@)),
                    ],
                    " "@,
                ),
                joined(
                    seq![
                        cyan_text(bold_text("Hint:"@)),
                        dimmed_text("Run `mdrcp --help` for usage details."@),
                    ],
                    " "@,
                ),
            ]
        },
        ParseErrorModel::MissingValue { flag } => seq![
            joined(seq![bright_red_text(bold_text("Missing value:"@)), bold_text(flag)], " "@),
            joined(
                seq![
                    cyan_text(bold_text("Hint:"@)),
                    dimmed_text("Pass a directory after the flag, e.g. --target path/to/bin"@),
                ],
                " "@,
            ),
            joined(
                seq![
                    magenta_text(bold_text("Relative paths:"@)),
                    dimmed_text("Resolved against the project directory passed to the tool."@),
                ],
                " "@,
            ),
        ],
        ParseErrorModel::InvalidValue { flag, value, expected } => seq![
            joined(
                seq![
                    bright_red_text(bold_text("Invalid value:"@)),
                    bold_text(flag),
                    bold_text(value),
                ],
                " "@,
            ),
            joined(seq![cyan_text(bold_text("Accepted:"@)), joined(expected, ", "@)], " "@),
        ],
    }
}

fn owned(items: &[&'static str]) -> (copy: Vec<String>)
    ensures
        texts(copy@) == slice_texts(items@),
{
    let mut copy: Vec<String> = Vec::new();
    let mut index: usize = 0;
    while index < items.len()
        invariant
            index <= items.len(),
            copy@.len() == index,
            texts(copy@) == slice_texts(items@).take(index as int),
        decreases items.len() - index,
    {
        copy.push(items[index].to_string());
        index += 1;
    }
    copy
}

/// The lines that explain why a command line could not be read, styled for
/// a terminal.
pub fn parse_error_lines(error: &ParseError) -> (lines: Vec<String>)
    ensures
        texts(lines@) == parse_error_text(error@),
{
    let mut lines: Vec<String> = Vec::new();
    match error {
        ParseError::UnknownArgs(arguments) => {
            if arguments.len() > 0 {
                let all = join(arguments, " ");
                lines.push(pair(bold_bright_red("Unknown arguments:"), bold(all.as_str())));
                lines.push(
                    pair(bold_cyan("Hint:"), dimmed("Run `mdrcp --help` for usage details.")),
                );
            }
        },
        ParseError::MissingValue { flag } => {
            lines.push(pair(bold_bright_red("Missing value:"), bold(flag.as_str())));
            lines.push(
                pair(
                    bold_cyan("Hint:"),
                    dimmed("Pass a directory after the flag, e.g. --target path/to/bin"),
                ),
            );
            lines.push(
                pair(
                    bold_magenta("Relative paths:"),
                    dimmed("Resolved against the project directory passed to the tool."),
                ),
            );
        },
        ParseError::InvalidValue { flag, value, expected } => {
            let accepted = owned(expected);
            lines.push(
                triple(
                    bold_bright_red("Invalid value:"),
                    bold(flag.as_str()),
                    bold(value.as_str()),
                ),
            );
            lines.push(pair(bold_cyan("Accepted:"), join(&accepted, ", ")));
        },
    }
    lines
}

} // verus!
