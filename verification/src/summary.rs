//! The end of a run: its status, its record, the lines that close its
//! output, and the status the process ends with.

use crate::destination::{DeploymentTarget, TargetModel};
use crate::engine::{failures, CopyReport, FailedCopy, FailureModel, ReportModel};
use crate::error::DeployError;
use crate::messages::{
    build_override_note, deployment_line, failure_lines, failure_list, format_deployment_summary,
    is_redundant, note_on, NoteModel, REDUNDANT_OVERRIDE,
};
use crate::options::{OptionsModel, RunOptions, SummaryFormat};
use crate::text::{append_all, clone_all, concatenate, texts};
use vstd::prelude::*;
use vstd::string::*;

verus! {

/// How a run went as a whole.
#[derive(Clone, Copy, Debug, PartialEq, Eq, Structural)]
pub enum Status {
    /// No copy failed.
    Success,
    /// Some copies failed, others succeeded.
    Partial,
    /// Copies failed and none succeeded.
    Failed,
}

/// The status of a run with `copied` successful and `failed` failed copies.
pub open spec fn status_of(copied: nat, failed: nat) -> Status {
    if failed == 0 {
        Status::Success
    } else if copied > 0 {
        Status::Partial
    } else {
        Status::Failed
    }
}

impl Status {
    /// The word for this status in a summary.
    pub open spec fn word(self) -> Seq<char> {
        match self {
            Status::Success => "ok"@,
            Status::Partial => "partial"@,
            Status::Failed => "failed"@,
        }
    }

    /// The word for this status in a summary.
    pub fn as_str(self) -> (word: &'static str)
        ensures
            word@ == self.word(),
    {
        match self {
            Status::Success => "ok",
            Status::Partial => "partial",
            Status::Failed => "failed",
        }
    }
}

/// The record of a finished run.
#[derive(Clone, Debug, PartialEq, Eq)]
pub struct DeploymentSummary {
    /// How the run went as a whole.
    pub status: Status,
    /// The number of executables that were copied.
    pub copied_count: usize,
    /// The directory that was copied into.
    pub target_dir: String,
    /// Whether the destination was asked for explicitly.
    pub override_used: bool,
    /// The candidate names of the executables that were copied.
    pub copied_binaries: Vec<String>,
    /// The copies that failed, each under the candidate name of its
    /// executable.
    pub failed_binaries: Vec<FailedCopy>,
    /// The warnings of the run.
    pub warnings: Vec<String>,
}

/// The mathematical content of a [`DeploymentSummary`].
pub struct SummaryModel {
    pub status: Status,
    pub copied_count: nat,
    pub target_dir: Seq<char>,
    pub override_used: bool,
    pub copied_binaries: Seq<Seq<char>>,
    pub failed_binaries: Seq<FailureModel>,
    pub warnings: Seq<Seq<char>>,
}

impl View for DeploymentSummary {
    type V = SummaryModel;

    open spec fn view(&self) -> SummaryModel {
        SummaryModel {
            status: self.status,
            copied_count: self.copied_count as nat,
            target_dir: self.target_dir@,
            override_used: self.override_used,
            copied_binaries: texts(self.copied_binaries@),
            failed_binaries: failures(self.failed_binaries@),
            warnings: texts(self.warnings@),
        }
    }
}

/// The summary of a run that ended with `report`, deployed to `target` and
/// gave rise to `warnings`.
pub open spec fn summary_of(
    report: ReportModel,
    target: TargetModel,
    warnings: Seq<Seq<char>>,
) -> SummaryModel {
    SummaryModel {
        status: status_of(report.copied.len(), report.failed.len()),
        copied_count: report.copied.len(),
        target_dir: target.dir,
        override_used: target.override_used,
        copied_binaries: report.copied,
        failed_binaries: report.failed,
        warnings,
    }
}

/// The status of a run with `copied` successful and `failed` failed copies.
pub fn status_for(copied: usize, failed: usize) -> (status: Status)
    ensures
        status == status_of(copied as nat, failed as nat),
{
    if failed == 0 {
        Status::Success
    } else if copied > 0 {
        Status::Partial
    } else {
        Status::Failed
    }
}

fn clone_failures(items: &Vec<FailedCopy>) -> (copy: Vec<FailedCopy>)
    ensures
        failures(copy@) == failures(items@),
{
    let mut copy: Vec<FailedCopy> = Vec::new();
    let mut index: usize = 0;
    while index < items.len()
        invariant
            index <= items.len(),
            copy@.len() == index,
            failures(copy@) == failures(items@).take(index as int),
        decreases items.len() - index,
    {
        copy.push(
            FailedCopy { binary: items[index].binary.clone(), error: items[index].error.clone() },
        );
        index += 1;
    }
    copy
}

/// Draws up the summary of a run.
pub fn summarize(
    report: &CopyReport,
    target: &DeploymentTarget,
    warnings: &Vec<String>,
) -> (summary: DeploymentSummary)
    ensures
        summary@ == summary_of(report@, target@, texts(warnings@)),
{
    let copied_binaries = clone_all(&report.copied);
    let failed_binaries = clone_failures(&report.failed);
    DeploymentSummary {
        status: status_for(report.copied.len(), report.failed.len()),
        copied_count: report.copied.len(),
        target_dir: target.dir.clone(),
        override_used: target.override_used,
        copied_binaries,
        failed_binaries,
        warnings: clone_all(warnings),
    }
}

/// The status with which the process ends: zero after a run without
/// error, one after any error.
pub fn exit_code(verdict: &Result<(), DeployError>) -> (code: i32)
    ensures
        code == (if verdict is Ok {
            0i32
        } else {
            1i32
        }),
{
    match verdict {
        Ok(_) => 0,
        Err(_) => 1,
    }
}

/// What a run shows and records at its end.
#[derive(Clone, Debug, PartialEq, Eq)]
pub struct Closing {
    /// The lines for standard output.
    pub out: Vec<String>,
    /// The lines for standard error.
    pub err: Vec<String>,
    /// The record of the run.
    pub summary: DeploymentSummary,
}

/// The mathematical content of a [`Closing`].
pub struct ClosingModel {
    pub out: Seq<Seq<char>>,
    pub err: Seq<Seq<char>>,
    pub summary: SummaryModel,
}

impl View for Closing {
    type V = ClosingModel;

    open spec fn view(&self) -> ClosingModel {
        ClosingModel { out: texts(self.out@), err: texts(self.err@), summary: self.summary@ }
    }
}

/// The note on the destination of a run, where the destination was asked
/// for explicitly.
pub open spec fn note_for(options: OptionsModel, target: TargetModel) -> Option<NoteModel> {
    match options.target_override {
        Some(raw) => Some(note_on(raw, target.dir, is_redundant(target.dir, target.default_dir))),
        None => None,
    }
}

/// The warnings of a run.
pub open spec fn warnings_for(options: OptionsModel, target: TargetModel) -> Seq<Seq<char>> {
    match note_for(options, target) {
        Some(note) => note.warnings,
        None => Seq::empty(),
    }
}

/// A warning as it is shown where the note itself is not.
pub open spec fn warning_text(warning: Seq<char>) -> Seq<char> {
    "Warning: "@ + warning
}

/// Whether a run with `options` shows its progress as text.
pub open spec fn shows_text(options: OptionsModel) -> bool {
    options.summary == SummaryFormat::Text && !options.quiet
}

/// The lines that close a run on standard output: where text is shown, an
/// empty line, the summary line, a further empty line ahead of a list of
/// failures, and the note on an explicit destination.
pub open spec fn closing_out(
    options: OptionsModel,
    report: ReportModel,
    target: TargetModel,
) -> Seq<Seq<char>> {
    if shows_text(options) {
        seq![
            Seq::empty(),
            deployment_line(report.copied.len(), target.dir, target.override_used),
        ] + (if report.failed.len() > 0 {
            seq![Seq::<char>::empty()]
        } else {
            Seq::empty()
        }) + (match note_for(options, target) {
            Some(note) => note.lines,
            None => Seq::empty(),
        })
    } else {
        Seq::empty()
    }
}

/// The lines that close a run on standard error: the list of failures
/// where text is shown, and the bare warnings where it is not.
pub open spec fn closing_err(
    options: OptionsModel,
    report: ReportModel,
    target: TargetModel,
) -> Seq<Seq<char>> {
    if shows_text(options) {
        failure_list(report.failed)
    } else {
        warnings_for(options, target).map_values(|warning: Seq<char>| warning_text(warning))
    }
}

/// What a run with `options` that ended with `report` shows and records.
pub open spec fn closing_of(
    options: OptionsModel,
    report: ReportModel,
    target: TargetModel,
) -> ClosingModel {
    ClosingModel {
        out: closing_out(options, report, target),
        err: closing_err(options, report, target),
        summary: summary_of(report, target, warnings_for(options, target)),
    }
}

/// A run whose destination was asked for and is, as written, the default
/// destination carries the warning of a redundant request in its summary, and
/// the summary says that the destination was asked for.
pub proof fn lemma_default_as_override_warns(
    options: OptionsModel,
    report: ReportModel,
    target: TargetModel,
)
    requires
        options.target_override is Some,
        target.override_used,
        target.default_dir == Some(target.dir),
    ensures
        closing_of(options, report, target).summary.warnings == seq![REDUNDANT_OVERRIDE@],
        closing_of(options, report, target).summary.override_used,
{
}

/// Closes a run: writes the lines that end its output and draws up its
/// summary.
pub fn close_run(
    options: &RunOptions,
    report: &CopyReport,
    target: &DeploymentTarget,
) -> (closing: Closing)
    ensures
        closing@ == closing_of(options@, report@, target@),
{
    let shown = options.emits_text();
    let mut out: Vec<String> = Vec::new();
    let mut err: Vec<String> = Vec::new();
    let mut warnings: Vec<String> = Vec::new();
    assert(texts(warnings@) =~= Seq::<Seq<char>>::empty());
    if shown {
        out.push(String::new());
        out.push(
            format_deployment_summary(
                report.copied.len(),
                target.dir.as_str(),
                target.override_used,
            ),
        );
        if report.failed.len() > 0 {
            out.push(String::new());
        }
        let listed = failure_lines(&report.failed);
        append_all(&mut err, &listed);
    }
    match &options.target_override {
        Some(raw) => {
            let note = build_override_note(
                raw.as_str(),
                target.dir.as_str(),
                match &target.default_dir {
                    Some(dir) => Some(dir.as_str()),
                    None => None,
                },
            );
            if shown {
                append_all(&mut out, &note.lines);
            } else {
                let mut index: usize = 0;
                let ghost wanted = texts(note.warnings@).map_values(
                    |warning: Seq<char>| warning_text(warning),
                );
                while index < note.warnings.len()
                    invariant
                        index <= note.warnings.len(),
                        err@.len() == index,
                        wanted == texts(note.warnings@).map_values(
                            |warning: Seq<char>| warning_text(warning),
                        ),
                        texts(err@) == wanted.take(index as int),
                    decreases note.warnings.len() - index,
                {
                    err.push(concatenate("Warning: ", note.warnings[index].as_str()));
                    index += 1;
                }
                assert(wanted.take(note.warnings.len() as int) =~= wanted);
            }
            warnings = note.warnings;
        },
        None => {
            assert(texts(err@) =~= closing_err(options@, report@, target@));
        },
    }
    assert(texts(out@) =~= closing_out(options@, report@, target@));
    Closing { out, err, summary: summarize(report, target, &warnings) }
}

} // verus!
