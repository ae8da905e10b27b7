//! The lines a run shows: one for each copy, the closing line, the note on a
//! destination that was asked for, the list of failures, and the report of the
//! error that ended a run. All are styled for a terminal.

use crate::destination::{
    default_dir, default_target_dir, optional_text, Environment, WINDOWS_DEFAULT_DIR,
};
use crate::engine::{failures, CopyJob, FailedCopy, FailureModel, JobModel};
use crate::paths::{path_same, same_path};
use crate::platform::Platform;
use crate::style::{
    bold, bold_bright_red, bold_bright_white, bold_cyan, bold_green, bold_magenta, bold_text,
    bold_yellow, bright_cyan, bright_cyan_text, bright_red, bright_red_text, bright_white_text,
    cyan_text, dimmed, dimmed_text, green_text, magenta_text, yellow_text,
};
use crate::text::{concatenate, decimal, decimal_text, joined, pair, spaced, texts, triple};
use vstd::prelude::*;
use vstd::string::*;

verus! {

/// The marker that a summary line carries when the destination was asked
/// for explicitly.
pub const TARGET_MARKER: &'static str = "[--target]";

/// The closing line of a run that copied `count` executables to
/// `target_dir`.
pub open spec fn deployment_line(
    count: nat,
    target_dir: Seq<char>,
    override_used: bool,
) -> Seq<char> {
    let base = joined(
        seq![
            green_text(bold_text("Deployed"@)),
            green_text(bold_text(decimal_text(count))),
            dimmed_text("executable(s) to"@),
            bright_white_text(bold_text(target_dir)),
        ],
        " "@,
    );
    if override_used {
        joined(seq![base, bright_cyan_text(TARGET_MARKER@)], " "@)
    } else {
        base
    }
}

/// The closing line of a run that copied `count` executables to
/// `target_dir`; it is marked where the destination was asked for explicitly.
pub fn format_deployment_summary(
    count: usize,
    target_dir: &str,
    override_used: bool,
) -> (line: String)
    ensures
        line@ == deployment_line(count as nat, target_dir@, override_used),
{
    let number = decimal(count);
    let mut parts: Vec<String> = Vec::new();
    parts.push(bold_green("Deployed"));
    parts.push(bold_green(number.as_str()));
    parts.push(dimmed("executable(s) to"));
    parts.push(bold_bright_white(target_dir));
    assert(texts(parts@) =~= seq![
        green_text(bold_text("Deployed"@)),
        green_text(bold_text(decimal_text(count as nat))),
        dimmed_text("executable(s) to"@),
        bright_white_text(bold_text(target_dir@)),
    ]);
    let base = spaced(parts);
    if override_used {
        let mut marked: Vec<String> = Vec::new();
        let ghost base_text = base@;
        marked.push(base);
        marked.push(bright_cyan(TARGET_MARKER));
        assert(texts(marked@) =~= seq![base_text, bright_cyan_text(TARGET_MARKER@)]);
        spaced(marked)
    } else {
        base
    }
}

/// What is said about a destination that was asked for explicitly.
#[derive(Clone, Debug, PartialEq, Eq)]
pub struct OverrideNote {
    /// The lines of the note, styled for a terminal.
    pub lines: Vec<String>,
    /// The warnings of the note, as plain text.
    pub warnings: Vec<String>,
}

/// The mathematical content of an [`OverrideNote`].
pub struct NoteModel {
    pub lines: Seq<Seq<char>>,
    pub warnings: Seq<Seq<char>>,
}

impl View for OverrideNote {
    type V = NoteModel;

    open spec fn view(&self) -> NoteModel {
        NoteModel { lines: texts(self.lines@), warnings: texts(self.warnings@) }
    }
}

/// The warning for an explicit destination that is the default anyway.
pub const REDUNDANT_OVERRIDE: &'static str =
    "Resolved target matches default destination; override may be redundant.";

/// Whether asking for `resolved` was redundant, given the default
/// destination where there is one: it was if both are written alike, or are
/// the same path written in two ways.
pub open spec fn is_redundant(resolved: Seq<char>, default_dir: Option<Seq<char>>) -> bool {
    match default_dir {
        Some(dir) => dir == resolved || path_same(dir, resolved),
        None => false,
    }
}

/// The note on a destination that was passed as `raw` and resolved to
/// `resolved`: four lines on where the destination came from and, for a
/// redundant one, a fifth that warns, with the same warning in plain text.
pub open spec fn note_on(raw: Seq<char>, resolved: Seq<char>, redundant: bool) -> NoteModel {
    let lines = seq![
        joined(
            seq![
                cyan_text(bold_text("Note:"@)),
                dimmed_text("Destination provided via --target."@),
            ],
            " "@,
        ),
        joined(seq![magenta_text(bold_text("  Passed:"@)), raw], " "@),
        joined(seq![magenta_text(bold_text("  Resolved:"@)), resolved], " "@),
        joined(
            seq![
                magenta_text(bold_text("  Relative paths:"@)),
                dimmed_text("Resolved against the project directory."@),
            ],
            " "@,
        ),
    ];
    if redundant {
        NoteModel {
            lines: lines.push(
                joined(
                    seq![yellow_text(bold_text("Warning:"@)), dimmed_text(REDUNDANT_OVERRIDE@)],
                    " "@,
                ),
            ),
            warnings: seq![REDUNDANT_OVERRIDE@],
        }
    } else {
        NoteModel { lines, warnings: Seq::empty() }
    }
}

/// Writes the note on an explicit destination, given whether the request
/// was redundant.
pub fn override_note(raw: &str, resolved: &str, redundant: bool) -> (note: OverrideNote)
    ensures
        note@ == note_on(raw@, resolved@, redundant),
{
    let mut lines: Vec<String> = Vec::new();
    let mut warnings: Vec<String> = Vec::new();
    lines.push(pair(bold_cyan("Note:"), dimmed("Destination provided via --target.")));
    lines.push(pair(bold_magenta("  Passed:"), raw.to_string()));
    lines.push(pair(bold_magenta("  Resolved:"), resolved.to_string()));
    lines.push(
        pair(bold_magenta("  Relative paths:"), dimmed("Resolved against the project directory.")),
    );
    if redundant {
        lines.push(pair(bold_yellow("Warning:"), dimmed(REDUNDANT_OVERRIDE)));
        warnings.push(REDUNDANT_OVERRIDE.to_string());
    }
    assert(texts(lines@) =~= note_on(raw@, resolved@, redundant).lines);
    assert(texts(warnings@) =~= note_on(raw@, resolved@, redundant).warnings);
    OverrideNote { lines, warnings }
}

/// Writes the note on a destination that was passed as `raw` and resolved to
/// `resolved`. It warns where `resolved` is the default destination anyway.
pub fn build_override_note(
    raw: &str,
    resolved: &str,
    default_target: Option<&str>,
) -> (note: OverrideNote)
    ensures
        note@ == note_on(
            raw@,
            resolved@,
            is_redundant(
                resolved@,
                match default_target {
                    Some(dir) => Some(dir@),
                    None => None,
                },
            ),
        ),
{
    let redundant = match default_target {
        Some(dir) => same_path(dir, resolved),
        None => false,
    };
    override_note(raw, resolved, redundant)
}

/// The line that reports a finished copy.
pub open spec fn copied_text(job: JobModel) -> Seq<char> {
    joined(
        seq![
            green_text(bold_text("Copied"@)),
            green_text(bold_text(job.file_name)),
            dimmed_text("-> "@ + job.destination),
        ],
        " "@,
    )
}

/// The line that reports a copy that failed for `reason`.
pub open spec fn failed_text(job: JobModel, reason: Seq<char>) -> Seq<char> {
    joined(
        seq![
            bright_red_text(bold_text("Failed"@)),
            yellow_text(bold_text(job.file_name)),
            dimmed_text("-> "@ + job.destination + ": "@ + reason),
        ],
        " "@,
    )
}

/// The line that reports a copy left to a self-update.
pub open spec fn deferred_text(job: JobModel) -> Seq<char> {
    joined(
        seq![
            yellow_text(bold_text("Deferred"@)),
            yellow_text(bold_text(job.file_name)),
            dimmed_text("-> "@ + job.destination + " (in use; updated after exit)"@),
        ],
        " "@,
    )
}

/// The line that reports a finished copy.
pub fn copied_line(job: &CopyJob) -> (line: String)
    ensures
        line@ == copied_text(job@),
{
    let arrow = concatenate("-> ", job.destination.as_str());
    triple(bold_green("Copied"), bold_green(job.file_name.as_str()), dimmed(arrow.as_str()))
}

/// The line that reports a copy that failed for `reason`.
pub fn failed_line(job: &CopyJob, reason: &str) -> (line: String)
    ensures
        line@ == failed_text(job@, reason@),
{
    let mut arrow = concatenate("-> ", job.destination.as_str());
    arrow.append(": ");
    arrow.append(reason);
    triple(
        bold_bright_red("Failed"),
        bold_yellow(job.file_name.as_str()),
        dimmed(arrow.as_str()),
    )
}

/// The line that reports a copy left to a self-update.
pub fn deferred_line(job: &CopyJob) -> (line: String)
    ensures
        line@ == deferred_text(job@),
{
    let mut arrow = concatenate("-> ", job.destination.as_str());
    arrow.append(" (in use; updated after exit)");
    triple(
        bold_yellow("Deferred"),
        bold_yellow(job.file_name.as_str()),
        dimmed(arrow.as_str()),
    )
}

/// The heading of the list of failures.
pub open spec fn failures_heading(count: nat) -> Seq<char> {
    joined(
        seq![
            bright_red_text(bold_text("Failed to copy"@)),
            bright_red_text(bold_text(decimal_text(count) + " executable(s):"@)),
        ],
        " "@,
    )
}

/// The entry of one failure in the list of failures.
pub open spec fn failure_entry(failure: FailureModel) -> Seq<char> {
    "  "@ + joined(seq![bright_red_text("\u{2022}"@), dimmed_text(failure.error)], " "@)
}

/// The list of failures: a heading, then one entry for each failure. Where
/// nothing failed there is no list.
pub open spec fn failure_list(failed: Seq<FailureModel>) -> Seq<Seq<char>> {
    if failed.len() == 0 {
        Seq::empty()
    } else {
        seq![failures_heading(failed.len())] + failed.map_values(
            |failure: FailureModel| failure_entry(failure),
        )
    }
}

/// The lines that list the failed copies.
pub fn failure_lines(failed: &Vec<FailedCopy>) -> (lines: Vec<String>)
    ensures
        texts(lines@) == failure_list(failures(failed@)),
{
    let mut lines: Vec<String> = Vec::new();
    if failed.len() == 0 {
        return lines;
    }
    let count = decimal(failed.len());
    let number = concatenate(count.as_str(), " executable(s):");
    lines.push(pair(bold_bright_red("Failed to copy"), bold_bright_red(number.as_str())));
    let ghost entries = failures(failed@).map_values(
        |failure: FailureModel| failure_entry(failure),
    );
    let mut index: usize = 0;
    while index < failed.len()
        invariant
            index <= failed.len(),
            lines@.len() == index + 1,
            entries == failures(failed@).map_values(
                |failure: FailureModel| failure_entry(failure),
            ),
            texts(lines@) == seq![failures_heading(failed@.len())] + entries.take(index as int),
        decreases failed.len() - index,
    {
        let entry = pair(bright_red("\u{2022}"), dimmed(failed[index].error.as_str()));
        let line = concatenate("  ", entry.as_str());
        let ghost before = lines@;
        lines.push(line);
        assert(texts(lines@) =~= texts(before).push(entries[index as int]));
        index += 1;
    }
    lines
}

/// The destination to name in a hint when the default cannot be
/// determined.
pub open spec fn fallback_hint(platform: Platform) -> Seq<char> {
    match platform {
        Platform::Unix => "~/.local/bin"@,
        Platform::Windows => WINDOWS_DEFAULT_DIR@,
    }
}

/// The lines shown when a run ends with an error whose message is
/// `message`; `hint` is the destination that a run would use.
pub open spec fn error_text(message: Seq<char>, hint: Seq<char>) -> Seq<Seq<char>> {
    seq![
        joined(seq![bright_red_text(bold_text("Error:"@)), message], " "@),
        Seq::empty(),
        joined(seq![yellow_text(bold_text("Usage:"@)), bold_text("deploy-tool [OPTIONS]"@)], " "@),
        joined(
            seq![
                cyan_text(bold_text("Hint:"@)),
                dimmed_text(
                    "Run this tool in a Rust project directory to copy release executables to"@,
                ),
                bright_white_text(bold_text(hint)),
            ],
            " "@,
        ),
        joined(seq![cyan_text(bold_text("More info:"@)), bold_text("deploy-tool --help"@)], " "@),
        joined(
            seq![
                cyan_text(bold_text("Docs:"@)),
                dimmed_text("See README.md troubleshooting section"@),
            ],
            " "@,
        ),
    ]
}

/// The destination to name in the hint of an error report: the default
/// destination, or a fixed one where the default cannot be determined.
pub fn hint_dir(environment: &Environment) -> (hint: String)
    ensures
        hint@ == match default_dir(
            environment.platform,
            optional_text(environment.home),
            optional_text(environment.target_dir),
        ) {
            Ok(dir) => dir,
            Err(_) => fallback_hint(environment.platform),
        },
{
    match default_target_dir(environment) {
        Ok(dir) => dir,
        Err(_) => match environment.platform {
            Platform::Unix => "~/.local/bin".to_string(),
            Platform::Windows => WINDOWS_DEFAULT_DIR.to_string(),
        },
    }
}

/// The lines that report the error with which a run ended, styled for a
/// terminal.
pub fn error_report(message: &str, hint: &str) -> (lines: Vec<String>)
    ensures
        texts(lines@) == error_text(message@, hint@),
{
    let mut lines: Vec<String> = Vec::new();
    lines.push(pair(bold_bright_red("Error:"), message.to_string()));
    lines.push(String::new());
    lines.push(pair(bold_yellow("Usage:"), bold("deploy-tool [OPTIONS]")));
    lines.push(
        triple(
            bold_cyan("Hint:"),
            dimmed("Run this tool in a Rust project directory to copy release executables to"),
            bold_bright_white(hint),
        ),
    );
    lines.push(pair(bold_cyan("More info:"), bold("deploy-tool --help")));
    lines.push(pair(bold_cyan("Docs:"), dimmed("See README.md troubleshooting section")));
    lines
}

} // verus!
