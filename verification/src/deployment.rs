//! A deployment as a sequence of steps. After every step the deployment
//! names the one thing it needs from the outside: a file to read, a directory
//! to look at, a copy to make. The caller does that and reports what happened;
//! the deployment decides what follows.
//!
//! Errors in finding the executables or the destination end the run before
//! any copy is asked for. Once copying has begun every copy is asked for,
//! whatever became of the copies before it, and failures are reported at the
//! end.

use crate::artifacts::{
    all_candidates, built_names, collect_candidates, find_built_executables, optional_texts,
    require_built,
};
use crate::destination::{
    confirm_created, destination, prepare_destination, resolve_destination, DeploymentTarget,
    Environment, EnvironmentModel, PathKind, Preparation, TargetModel,
};
use crate::engine::{
    concluded, copied, copy_failed, copy_failure_text, deferred, empty_report, is_copied,
    is_running_program, job_names, lemma_copied_are_names, lemma_rerun_reports_same_copies,
    jobs_for, plan_copies, recorded, tallied, targets_running_program, CopyJob, CopyReport,
    JobModel, NextStep, OutcomeModel, ReportModel,
};
use crate::error::{DeployError, ErrorKind, ErrorModel};
use crate::layout::{
    artifact_dir, base_dir, base_of, detect_project_type, layout_of, manifest_path,
    member_manifest_paths, member_manifests, tauri_config_paths, ARTIFACTS_DIR, MANIFEST_FILE,
    TAURI_CONFIG_FILE, TAURI_DIR,
};
use crate::manifest::{
    member_paths, open_manifest, toml_decoded, toml_tree, workspace_members, ManifestFile,
    TomlNode,
};
use crate::messages::{
    copied_line, copied_text, deferred_line, deferred_text, failed_line, failed_text,
};
use crate::options::{OptionsModel, ProjectType, RunOptions};
use crate::paths::path_join;
use crate::platform::{exe_file_name, exe_filename_on};
use crate::self_update::{
    action_in, advanced, is_final, lemma_self_update_progress, settle, settled, steps_left,
    ActionModel, EventModel, SelfUpdateAction, SelfUpdateEvent, SelfUpdateState, StateModel,
};
use crate::summary::{
    close_run, closing_of, shows_text, DeploymentSummary, Status, SummaryModel,
};
use crate::tauri::{packaging_extras, packaging_names};
use crate::text::{append_all, texts};
use vstd::prelude::*;
use vstd::string::*;

verus! {

/// What is fixed when a deployment begins.
#[derive(Clone, Debug, PartialEq, Eq)]
pub struct Plan {
    /// The directory of the project.
    pub project_dir: String,
    /// What was asked for.
    pub options: RunOptions,
    /// What the environment holds.
    pub environment: Environment,
    /// The file under which a self-update keeps its helper.
    pub helper: String,
}

/// The mathematical content of a [`Plan`].
pub struct PlanModel {
    pub project_dir: Seq<char>,
    pub options: OptionsModel,
    pub environment: EnvironmentModel,
    pub helper: Seq<char>,
}

impl View for Plan {
    type V = PlanModel;

    open spec fn view(&self) -> PlanModel {
        PlanModel {
            project_dir: self.project_dir@,
            options: self.options@,
            environment: self.environment@,
            helper: self.helper@,
        }
    }
}

/// How far a deployment has come.
#[derive(Debug, PartialEq)]
pub enum Stage {
    /// The layout of the project is not known yet.
    Layout,
    /// The root manifest of the package in `base` has yet to be read.
    Manifest { base: String, extra: Vec<String> },
    /// The manifests of the workspace members have yet to be read.
    Members { base: String, extra: Vec<String>, root: toml::Value },
    /// The artifact directory has yet to be searched for the candidates.
    Artifacts { base: String, candidates: Vec<String> },
    /// The destination has yet to be looked at.
    Destination { base: String, built: Vec<String>, target: DeploymentTarget },
    /// The destination has yet to be created.
    Creating { base: String, built: Vec<String>, target: DeploymentTarget },
    /// The copy `jobs[next]` is due. Unless it is `located`, it has yet to be
    /// found out whether it would replace the running program.
    Copies {
        target: DeploymentTarget,
        jobs: Vec<CopyJob>,
        next: usize,
        report: CopyReport,
        located: bool,
    },
    /// The copy `pending` is being handed to a helper.
    Updating {
        target: DeploymentTarget,
        report: CopyReport,
        pending: CopyJob,
        update: SelfUpdateState,
    },
    /// The run is over. It has a summary if it came as far as copying, and
    /// an error unless it succeeded.
    Ended { summary: Option<DeploymentSummary>, error: Option<DeployError> },
}

/// The mathematical content of a [`Stage`].
pub enum StageModel {
    Layout,
    Manifest { base: Seq<char>, extra: Seq<Seq<char>> },
    Members { base: Seq<char>, extra: Seq<Seq<char>>, root: TomlNode },
    Artifacts { base: Seq<char>, candidates: Seq<Seq<char>> },
    Destination { base: Seq<char>, built: Seq<Seq<char>>, target: TargetModel },
    Creating { base: Seq<char>, built: Seq<Seq<char>>, target: TargetModel },
    Copies {
        target: TargetModel,
        jobs: Seq<JobModel>,
        next: nat,
        report: ReportModel,
        located: bool,
    },
    Updating { target: TargetModel, report: ReportModel, pending: JobModel, update: StateModel },
    Ended { summary: Option<SummaryModel>, error: Option<ErrorModel> },
}

impl View for Stage {
    type V = StageModel;

    open spec fn view(&self) -> StageModel {
        match self {
            Stage::Layout => StageModel::Layout,
            Stage::Manifest { base, extra } => StageModel::Manifest {
                base: base@,
                extra: texts(extra@),
            },
            Stage::Members { base, extra, root } => StageModel::Members {
                base: base@,
                extra: texts(extra@),
                root: toml_tree(*root),
            },
            Stage::Artifacts { base, candidates } => StageModel::Artifacts {
                base: base@,
                candidates: texts(candidates@),
            },
            Stage::Destination { base, built, target } => StageModel::Destination {
                base: base@,
                built: texts(built@),
                target: target@,
            },
            Stage::Creating { base, built, target } => StageModel::Creating {
                base: base@,
                built: texts(built@),
                target: target@,
            },
            Stage::Copies { target, jobs, next, report, located } => StageModel::Copies {
                target: target@,
                jobs: crate::engine::jobs(jobs@),
                next: *next as nat,
                report: report@,
                located: *located,
            },
            Stage::Updating { target, report, pending, update } => StageModel::Updating {
                target: target@,
                report: report@,
                pending: pending@,
                update: update@,
            },
            Stage::Ended { summary, error } => StageModel::Ended {
                summary: match summary {
                    Some(record) => Some(record@),
                    None => None,
                },
                error: match error {
                    Some(reason) => Some(reason@),
                    None => None,
                },
            },
        }
    }
}

/// What a deployment needs from the outside before it can go on.
#[derive(Clone, Debug, PartialEq, Eq)]
pub enum Request {
    /// Whether the file `tauri_manifest` exists, whether one of `configs`
    /// exists, and the text of the first of them that does.
    InspectLayout { tauri_manifest: String, configs: Vec<String> },
    /// The manifest at `path`.
    ReadManifest { path: String },
    /// The text of each of `paths`, where it can be read.
    ReadMembers { paths: Vec<String> },
    /// Those of `file_names` that exist in `dir`.
    ProbeArtifacts { dir: String, file_names: Vec<String> },
    /// What is at `dir`.
    InspectDestination { dir: String },
    /// The directory `dir`, with its parents, created.
    CreateDestination { dir: String },
    /// The canonical paths of `destination` and of the running program.
    Locate { destination: String },
    /// The file `source` copied to `destination`.
    Copy { source: String, destination: String },
    /// The file `program` started with `arguments` and left to itself.
    Launch { program: String, arguments: Vec<String> },
    /// Nothing: the run is over.
    Finish,
}

/// The mathematical content of a [`Request`].
pub enum RequestModel {
    InspectLayout { tauri_manifest: Seq<char>, configs: Seq<Seq<char>> },
    ReadManifest { path: Seq<char> },
    ReadMembers { paths: Seq<Seq<char>> },
    ProbeArtifacts { dir: Seq<char>, file_names: Seq<Seq<char>> },
    InspectDestination { dir: Seq<char> },
    CreateDestination { dir: Seq<char> },
    Locate { destination: Seq<char> },
    Copy { source: Seq<char>, destination: Seq<char> },
    Launch { program: Seq<char>, arguments: Seq<Seq<char>> },
    Finish,
}

impl View for Request {
    type V = RequestModel;

    open spec fn view(&self) -> RequestModel {
        match self {
            Request::InspectLayout { tauri_manifest, configs } => RequestModel::InspectLayout {
                tauri_manifest: tauri_manifest@,
                configs: texts(configs@),
            },
            Request::ReadManifest { path } => RequestModel::ReadManifest { path: path@ },
            Request::ReadMembers { paths } => RequestModel::ReadMembers { paths: texts(paths@) },
            Request::ProbeArtifacts { dir, file_names } => RequestModel::ProbeArtifacts {
                dir: dir@,
                file_names: texts(file_names@),
            },
            Request::InspectDestination { dir } => RequestModel::InspectDestination { dir: dir@ },
            Request::CreateDestination { dir } => RequestModel::CreateDestination { dir: dir@ },
            Request::Locate { destination } => RequestModel::Locate { destination: destination@ },
            Request::Copy { source, destination } => RequestModel::Copy {
                source: source@,
                destination: destination@,
            },
            Request::Launch { program, arguments } => RequestModel::Launch {
                program: program@,
                arguments: texts(arguments@),
            },
            Request::Finish => RequestModel::Finish,
        }
    }
}

/// What the caller found or did on a request.
#[derive(Clone, Debug, PartialEq, Eq)]
pub enum Response {
    /// The answer to `InspectLayout`.
    Layout { has_tauri_manifest: bool, has_config: bool, config_text: Option<String> },
    /// The answer to `ReadManifest`.
    Manifest(ManifestFile),
    /// The answer to `ReadMembers`: one entry for each path, in order.
    Members(Vec<Option<String>>),
    /// The answer to `ProbeArtifacts`.
    Artifacts(Vec<String>),
    /// The answer to `InspectDestination`.
    Destination(PathKind),
    /// The answer to `Locate`.
    Located { destination: Option<String>, running: Option<String> },
    /// What was asked for was done.
    Succeeded,
    /// What was asked for could not be done, for the given reason.
    Failed(String),
}

/// The mathematical content of a [`ManifestFile`].
pub enum FileModel {
    Missing,
    Unreadable,
    Text(Seq<char>),
}

/// The mathematical content of a [`Response`].
pub enum ResponseModel {
    Layout { has_tauri_manifest: bool, has_config: bool, config_text: Option<Seq<char>> },
    Manifest(FileModel),
    Members(Seq<Option<Seq<char>>>),
    Artifacts(Seq<Seq<char>>),
    Destination(PathKind),
    Located { destination: Option<Seq<char>>, running: Option<Seq<char>> },
    Succeeded,
    Failed(Seq<char>),
}

impl View for Response {
    type V = ResponseModel;

    open spec fn view(&self) -> ResponseModel {
        match self {
            Response::Layout { has_tauri_manifest, has_config, config_text } => {
                ResponseModel::Layout {
                    has_tauri_manifest: *has_tauri_manifest,
                    has_config: *has_config,
                    config_text: match config_text {
                        Some(text) => Some(text@),
                        None => None,
                    },
                }
            },
            Response::Manifest(file) => ResponseModel::Manifest(
                match file {
                    ManifestFile::Missing => FileModel::Missing,
                    ManifestFile::Unreadable => FileModel::Unreadable,
                    ManifestFile::Text(text) => FileModel::Text(text@),
                },
            ),
            Response::Members(members) => ResponseModel::Members(optional_texts(members@)),
            Response::Artifacts(files) => ResponseModel::Artifacts(texts(files@)),
            Response::Destination(found) => ResponseModel::Destination(*found),
            Response::Located { destination, running } => ResponseModel::Located {
                destination: match destination {
                    Some(path) => Some(path@),
                    None => None,
                },
                running: match running {
                    Some(path) => Some(path@),
                    None => None,
                },
            },
            Response::Succeeded => ResponseModel::Succeeded,
            Response::Failed(reason) => ResponseModel::Failed(reason@),
        }
    }
}

/// The lines to show after a step.
#[derive(Clone, Debug, PartialEq, Eq)]
pub struct Output {
    /// The lines for standard output.
    pub out: Vec<String>,
    /// The lines for standard error.
    pub err: Vec<String>,
}

/// The mathematical content of an [`Output`].
pub struct OutputModel {
    pub out: Seq<Seq<char>>,
    pub err: Seq<Seq<char>>,
}

impl View for Output {
    type V = OutputModel;

    open spec fn view(&self) -> OutputModel {
        OutputModel { out: texts(self.out@), err: texts(self.err@) }
    }
}

/// No lines.
pub open spec fn silence() -> OutputModel {
    OutputModel { out: Seq::empty(), err: Seq::empty() }
}

/// `line` where progress is shown, nothing where it is not.
pub open spec fn line_if(shown: bool, line: Seq<char>) -> Seq<Seq<char>> {
    if shown {
        seq![line]
    } else {
        Seq::empty()
    }
}

/// The end of a run that is given up with `error` before any copy.
pub open spec fn given_up(error: ErrorModel) -> StageModel {
    StageModel::Ended { summary: None, error: Some(error) }
}

/// The error of a run that ended with `report`: none unless a copy failed.
pub open spec fn failure_of(report: ReportModel) -> Option<ErrorModel> {
    if report.failed.len() == 0 {
        None
    } else {
        Some(
            ErrorModel::CopiesFailed {
                copied: report.copied.len() as usize,
                failed: report.failed.len() as usize,
            },
        )
    }
}

/// The end of a run whose copies resulted in `report`: the closing lines
/// are shown, and the run ends with its summary and with an error if a copy
/// failed.
pub open spec fn closed(
    plan: PlanModel,
    target: TargetModel,
    report: ReportModel,
) -> (StageModel, OutputModel) {
    let closing = closing_of(plan.options, report, target);
    (
        StageModel::Ended { summary: Some(closing.summary), error: failure_of(report) },
        OutputModel { out: closing.out, err: closing.err },
    )
}

/// What follows the last copy: the self-update of a deferred copy where one
/// is due, the end of the run otherwise.
pub open spec fn finishing(
    plan: PlanModel,
    target: TargetModel,
    report: ReportModel,
) -> (StageModel, OutputModel) {
    let drawn = concluded(report);
    match drawn.1 {
        Some(pending) => (
            StageModel::Updating {
                target,
                report: drawn.0,
                pending,
                update: StateModel::Locating,
            },
            silence(),
        ),
        None => closed(plan, target, drawn.0),
    }
}

/// What follows when the copies before `jobs[next]` are done: that copy
/// where there is one, and what follows the last copy otherwise.
pub open spec fn copying_from(
    plan: PlanModel,
    target: TargetModel,
    jobs: Seq<JobModel>,
    next: nat,
    report: ReportModel,
) -> (StageModel, OutputModel) {
    if next < jobs.len() {
        (StageModel::Copies { target, jobs, next, report, located: false }, silence())
    } else {
        finishing(plan, target, report)
    }
}

/// `lines` shown ahead of what `following` shows.
pub open spec fn preceded(
    out: Seq<Seq<char>>,
    err: Seq<Seq<char>>,
    following: (StageModel, OutputModel),
) -> (StageModel, OutputModel) {
    (following.0, OutputModel { out: out + following.1.out, err: err + following.1.err })
}

/// What a response means to a self-update, where it means anything.
pub open spec fn update_event(response: ResponseModel) -> Option<EventModel> {
    match response {
        ResponseModel::Located { destination, running } => Some(
            EventModel::Located { destination, running },
        ),
        ResponseModel::Succeeded => Some(EventModel::Succeeded),
        ResponseModel::Failed(reason) => Some(EventModel::Failed(reason)),
        _ => None,
    }
}

/// The stage that follows `stage` on `response`, and the lines to show. A
/// response that does not answer the request of the stage changes nothing.
pub open spec fn stepped(
    plan: PlanModel,
    stage: StageModel,
    response: ResponseModel,
) -> (StageModel, OutputModel) {
    let platform = plan.environment.platform;
    let profile = plan.options.profile;
    let shown = shows_text(plan.options);
    match stage {
        StageModel::Layout => match response {
            ResponseModel::Layout { has_tauri_manifest, has_config, config_text } => {
                let layout = layout_of(plan.options.project_type, has_tauri_manifest, has_config);
                (
                    StageModel::Manifest {
                        base: base_of(plan.project_dir, layout),
                        extra: packaging_extras(layout, config_text),
                    },
                    silence(),
                )
            },
            _ => (stage, silence()),
        },
        StageModel::Manifest { base, extra } => match response {
            ResponseModel::Manifest(file) => (
                match file {
                    FileModel::Missing => given_up(ErrorModel::ManifestMissing),
                    FileModel::Unreadable => given_up(ErrorModel::ManifestUnreadable),
                    FileModel::Text(text) => match toml_decoded(text) {
                        Some(root) => StageModel::Members { base, extra, root },
                        None => given_up(ErrorModel::ManifestInvalid),
                    },
                },
                silence(),
            ),
            _ => (stage, silence()),
        },
        StageModel::Members { base, extra, root } => match response {
            ResponseModel::Members(members) => {
                let candidates = all_candidates(root, extra, members);
                (
                    if candidates.len() == 0 {
                        given_up(ErrorModel::NoPackagesFound)
                    } else {
                        StageModel::Artifacts { base, candidates }
                    },
                    silence(),
                )
            },
            _ => (stage, silence()),
        },
        StageModel::Artifacts { base, candidates } => match response {
            ResponseModel::Artifacts(files) => {
                let built = built_names(candidates, files, platform);
                (
                    if built.len() == 0 {
                        given_up(ErrorModel::NoBuiltExecutables(profile))
                    } else {
                        match destination(
                            plan.project_dir,
                            plan.options.target_override,
                            platform,
                            plan.environment.home,
                            plan.environment.target_dir,
                        ) {
                            Ok(target) => StageModel::Destination { base, built, target },
                            Err(error) => given_up(error@),
                        }
                    },
                    silence(),
                )
            },
            _ => (stage, silence()),
        },
        StageModel::Destination { base, built, target } => match response {
            ResponseModel::Destination(found) => match found {
                PathKind::Missing => (StageModel::Creating { base, built, target }, silence()),
                PathKind::Directory => copying_from(
                    plan,
                    target,
                    jobs_for(base, target.dir, profile, platform, built),
                    0,
                    empty_report(),
                ),
                PathKind::Other => (
                    given_up(ErrorModel::DestinationNotADirectory { path: target.dir }),
                    silence(),
                ),
            },
            _ => (stage, silence()),
        },
        StageModel::Creating { base, built, target } => match response {
            ResponseModel::Succeeded => copying_from(
                plan,
                target,
                jobs_for(base, target.dir, profile, platform, built),
                0,
                empty_report(),
            ),
            ResponseModel::Failed(_) => (
                given_up(ErrorModel::DestinationCreateFailed { path: target.dir }),
                silence(),
            ),
            _ => (stage, silence()),
        },
        StageModel::Copies { target, jobs, next, report, located } => if next >= jobs.len() {
            (stage, silence())
        } else {
            let job = jobs[next as int];
            match response {
                ResponseModel::Located { destination, running } => if located {
                    (stage, silence())
                } else if is_running_program(destination, running) {
                    preceded(
                        line_if(shown, deferred_text(job)),
                        Seq::empty(),
                        copying_from(
                            plan,
                            target,
                            jobs,
                            next + 1,
                            recorded(
                                report,
                                job,
                                OutcomeModel::Deferred(job.source, job.destination),
                            ),
                        ),
                    )
                } else {
                    (StageModel::Copies { target, jobs, next, report, located: true }, silence())
                },
                ResponseModel::Succeeded => if located {
                    preceded(
                        line_if(shown, copied_text(job)),
                        Seq::empty(),
                        copying_from(
                            plan,
                            target,
                            jobs,
                            next + 1,
                            recorded(report, job, OutcomeModel::Copied(job.destination)),
                        ),
                    )
                } else {
                    (stage, silence())
                },
                ResponseModel::Failed(reason) => if located {
                    preceded(
                        Seq::empty(),
                        line_if(shown, failed_text(job, reason)),
                        copying_from(
                            plan,
                            target,
                            jobs,
                            next + 1,
                            recorded(
                                report,
                                job,
                                OutcomeModel::Failed(copy_failure_text(job, reason)),
                            ),
                        ),
                    )
                } else {
                    (stage, silence())
                },
                _ => (stage, silence()),
            }
        },
        StageModel::Updating { target, report, pending, update } => match update_event(response) {
            Some(event) => {
                let moved = advanced(plan.helper, update, event);
                if is_final(moved) {
                    closed(plan, target, settled(report, moved))
                } else {
                    (StageModel::Updating { target, report, pending, update: moved }, silence())
                }
            },
            None => (stage, silence()),
        },
        StageModel::Ended { .. } => (stage, silence()),
    }
}

/// What `stage` needs from the outside.
pub open spec fn request_in(plan: PlanModel, stage: StageModel) -> RequestModel {
    match stage {
        StageModel::Layout => RequestModel::InspectLayout {
            tauri_manifest: path_join(path_join(plan.project_dir, TAURI_DIR@), MANIFEST_FILE@),
            configs: seq![
                path_join(plan.project_dir, TAURI_CONFIG_FILE@),
                path_join(path_join(plan.project_dir, TAURI_DIR@), TAURI_CONFIG_FILE@),
            ],
        },
        StageModel::Manifest { base, .. } => RequestModel::ReadManifest {
            path: path_join(base, MANIFEST_FILE@),
        },
        StageModel::Members { base, root, .. } => RequestModel::ReadMembers {
            paths: member_manifests(base, member_paths(root)),
        },
        StageModel::Artifacts { base, candidates } => RequestModel::ProbeArtifacts {
            dir: path_join(path_join(base, ARTIFACTS_DIR@), plan.options.profile.name()),
            file_names: candidates.map_values(
                |name: Seq<char>| exe_file_name(plan.environment.platform, name),
            ),
        },
        StageModel::Destination { target, .. } => RequestModel::InspectDestination {
            dir: target.dir,
        },
        StageModel::Creating { target, .. } => RequestModel::CreateDestination { dir: target.dir },
        StageModel::Copies { jobs, next, located, .. } => if next >= jobs.len() {
            RequestModel::Finish
        } else if located {
            RequestModel::Copy {
                source: jobs[next as int].source,
                destination: jobs[next as int].destination,
            }
        } else {
            RequestModel::Locate { destination: jobs[next as int].destination }
        },
        StageModel::Updating { pending, update, .. } => match action_in(
            pending,
            plan.helper,
            update,
        ) {
            ActionModel::Locate { destination } => RequestModel::Locate { destination },
            ActionModel::Stage { from, to } => RequestModel::Copy { source: from, destination: to },
            ActionModel::Launch { program, arguments } => RequestModel::Launch {
                program,
                arguments,
            },
            ActionModel::Stop => RequestModel::Finish,
        },
        StageModel::Ended { .. } => RequestModel::Finish,
    }
}

/// Whether a stage lies before the copies: the executables or the
/// destination are not settled yet.
pub open spec fn before_copies(stage: StageModel) -> bool {
    stage is Layout || stage is Manifest || stage is Members || stage is Artifacts || stage
        is Destination || stage is Creating
}

/// Whether a stage is one that a deployment can be in: there is something
/// to look for and, later, something to copy, a copy that is due is one of the
/// planned copies, and a self-update that is under way has not ended.
pub open spec fn well_formed(stage: StageModel) -> bool {
    match stage {
        StageModel::Artifacts { candidates, .. } => candidates.len() > 0,
        StageModel::Destination { built, .. } => built.len() > 0,
        StageModel::Creating { built, .. } => built.len() > 0,
        StageModel::Copies { jobs, next, .. } => next < jobs.len(),
        StageModel::Updating { update, .. } => !is_final(update),
        _ => true,
    }
}

/// How far a stage is from the end: the number of phases still ahead, and
/// within the phase the number of steps still ahead.
pub open spec fn distance(stage: StageModel) -> (nat, nat) {
    match stage {
        StageModel::Layout => (8, 0),
        StageModel::Manifest { .. } => (7, 0),
        StageModel::Members { .. } => (6, 0),
        StageModel::Artifacts { .. } => (5, 0),
        StageModel::Destination { .. } => (4, 0),
        StageModel::Creating { .. } => (3, 0),
        StageModel::Copies { jobs, next, located, .. } => (
            2,
            if next >= jobs.len() {
                0
            } else if located {
                (2 * (jobs.len() - next) - 1) as nat
            } else {
                (2 * (jobs.len() - next)) as nat
            },
        ),
        StageModel::Updating { update, .. } => (1, steps_left(update)),
        StageModel::Ended { .. } => (0, 0),
    }
}

/// Whether `near` is closer to the end than `far`.
pub open spec fn closer(near: (nat, nat), far: (nat, nat)) -> bool {
    near.0 < far.0 || (near.0 == far.0 && near.1 < far.1)
}

/// A deployment begins in a stage it can be in, and every step leads from
/// such a stage to such a stage.
pub proof fn lemma_stages_stay_well_formed(
    plan: PlanModel,
    stage: StageModel,
    response: ResponseModel,
)
    requires
        well_formed(stage),
    ensures
        well_formed(StageModel::Layout),
        well_formed(stepped(plan, stage, response).0),
{
    match stage {
        StageModel::Updating { update, .. } => {
            match update_event(response) {
                Some(event) => {
                    lemma_self_update_progress(plan.helper, update, event);
                },
                None => {},
            }
        },
        _ => {},
    }
}

/// Every step that changes the stage brings the end closer, so a deployment
/// whose requests are answered ends; and once it has ended, it stays as it is
/// and shows nothing more.
pub proof fn lemma_every_step_is_progress(
    plan: PlanModel,
    stage: StageModel,
    response: ResponseModel,
)
    ensures
        stepped(plan, stage, response).0 != stage ==> closer(
            distance(stepped(plan, stage, response).0),
            distance(stage),
        ),
        stage is Ended ==> stepped(plan, stage, response) == (stage, silence()),
        distance(stage) == (0nat, 0nat) <==> stage is Ended,
{
    match stage {
        StageModel::Updating { update, .. } => {
            match update_event(response) {
                Some(event) => {
                    lemma_self_update_progress(plan.helper, update, event);
                },
                None => {},
            }
        },
        _ => {},
    }
}

/// Before the copies nothing is copied and nothing is started, and a run
/// that ends there ends with an error of configuration or of resolution and
/// without a summary: such an error ends the run before any copy is asked for.
pub proof fn lemma_early_errors_precede_copies(
    plan: PlanModel,
    stage: StageModel,
    response: ResponseModel,
)
    requires
        before_copies(stage),
        well_formed(stage),
    ensures
        !(request_in(plan, stage) is Copy),
        !(request_in(plan, stage) is Launch),
        match stepped(plan, stage, response).0 {
            StageModel::Ended { summary, error } => summary is None && match error {
                Some(reason) => reason.stage() != ErrorKind::Copy,
                None => false,
            },
            _ => true,
        },
{
}

/// Once copying has begun, every planned copy gets its turn: whatever the
/// outcome of the copy that is due, the stage that follows is the one in which
/// the next planned copy is due, with the outcome entered in the report. Only
/// after the last planned copy does anything else follow.
pub proof fn lemma_no_copy_is_skipped(
    plan: PlanModel,
    target: TargetModel,
    jobs: Seq<JobModel>,
    next: nat,
    report: ReportModel,
    response: ResponseModel,
)
    requires
        next + 1 < jobs.len(),
        response is Succeeded || response is Failed,
    ensures
        stepped(
            plan,
            StageModel::Copies { target, jobs, next, report, located: true },
            response,
        ).0 matches StageModel::Copies {
            target: same_target,
            jobs: same_jobs,
            next: following,
            report: entered,
            located,
        } && same_target == target && same_jobs == jobs && following == next + 1 && !located
            && entered.copied.len() + entered.failed.len() == report.copied.len()
            + report.failed.len() + 1,
{
}

/// A self-update begins only where no copy has failed, and it begins with
/// the deferred copy of the report. While it is under way nothing is written
/// but the helper, and nothing is started but the helper.
pub proof fn lemma_self_update_needs_clean_report(
    plan: PlanModel,
    stage: StageModel,
    response: ResponseModel,
)
    ensures
        match stepped(plan, stage, response).0 {
            StageModel::Updating { report, pending, .. } => stage is Updating
                || (report.failed.len() == 0 && report.deferred == Some(pending)),
            _ => true,
        },
        stage is Updating ==> match request_in(plan, stage) {
            RequestModel::Copy { destination, .. } => destination == plan.helper,
            RequestModel::Launch { program, .. } => program == plan.helper,
            _ => true,
        },
{
}

/// What the outside finds when a copy is due: the canonical paths of the
/// destination and of the running program, each where it could be determined,
/// and, for a copy that was tried and failed, the reason.
pub struct Attempt {
    pub destination: Option<Seq<char>>,
    pub running: Option<Seq<char>>,
    pub failure: Option<Seq<char>>,
}

/// What becomes of `job` on `attempt`: it is deferred where it would replace
/// the running program, and is copied or fails otherwise. A find about a copy
/// that is not tried plays no part.
pub open spec fn outcome_of(job: JobModel, attempt: Attempt) -> OutcomeModel {
    if is_running_program(attempt.destination, attempt.running) {
        OutcomeModel::Deferred(job.source, job.destination)
    } else {
        match attempt.failure {
            None => OutcomeModel::Copied(job.destination),
            Some(reason) => OutcomeModel::Failed(copy_failure_text(job, reason)),
        }
    }
}

/// What becomes of `jobs` on `attempts`, job by job.
pub open spec fn outcomes_of(jobs: Seq<JobModel>, attempts: Seq<Attempt>) -> Seq<OutcomeModel> {
    Seq::new(jobs.len(), |i: int| outcome_of(jobs[i], attempts[i]))
}

/// The responses by which the outside reports `attempt`: where the copy is
/// to be found, and, unless that defers the copy, how the copy went.
pub open spec fn answers_to(attempt: Attempt) -> Seq<ResponseModel> {
    let located = ResponseModel::Located {
        destination: attempt.destination,
        running: attempt.running,
    };
    if is_running_program(attempt.destination, attempt.running) {
        seq![located]
    } else {
        seq![
            located,
            match attempt.failure {
                None => ResponseModel::Succeeded,
                Some(reason) => ResponseModel::Failed(reason),
            },
        ]
    }
}

/// The responses by which the outside reports `attempts`, one after the
/// other.
pub open spec fn answers(attempts: Seq<Attempt>) -> Seq<ResponseModel>
    decreases attempts.len(),
{
    if attempts.len() == 0 {
        Seq::empty()
    } else {
        answers(attempts.drop_last()) + answers_to(attempts.last())
    }
}

/// The stage reached from `stage` by taking the steps for `responses`, one
/// after the other.
pub open spec fn stepped_through(
    plan: PlanModel,
    stage: StageModel,
    responses: Seq<ResponseModel>,
) -> StageModel
    decreases responses.len(),
{
    if responses.len() == 0 {
        stage
    } else {
        stepped(plan, stepped_through(plan, stage, responses.drop_last()), responses.last()).0
    }
}

/// Taking the steps for one list of responses and then for another is
/// taking the steps for both lists in a row.
pub proof fn lemma_steps_compose(
    plan: PlanModel,
    stage: StageModel,
    first: Seq<ResponseModel>,
    then: Seq<ResponseModel>,
)
    ensures
        stepped_through(plan, stage, first + then) == stepped_through(
            plan,
            stepped_through(plan, stage, first),
            then,
        ),
    decreases then.len(),
{
    if then.len() > 0 {
        lemma_steps_compose(plan, stage, first, then.drop_last());
        assert((first + then).drop_last() =~= first + then.drop_last());
    }
}

proof fn lemma_one_attempt(
    plan: PlanModel,
    target: TargetModel,
    jobs: Seq<JobModel>,
    next: nat,
    report: ReportModel,
    attempt: Attempt,
)
    requires
        next < jobs.len(),
    ensures
        stepped_through(
            plan,
            StageModel::Copies { target, jobs, next, report, located: false },
            answers_to(attempt),
        ) == copying_from(
            plan,
            target,
            jobs,
            next + 1,
            recorded(report, jobs[next as int], outcome_of(jobs[next as int], attempt)),
        ).0,
{
    let start = StageModel::Copies { target, jobs, next, report, located: false };
    let responses = answers_to(attempt);
    let none = Seq::<ResponseModel>::empty();
    assert(stepped_through(plan, start, none) == start);
    if is_running_program(attempt.destination, attempt.running) {
        assert(responses.drop_last() =~= none);
    } else {
        let located = seq![responses[0]];
        assert(responses.drop_last() =~= located);
        assert(located.drop_last() =~= none);
        assert(stepped_through(plan, start, located) == StageModel::Copies {
            target,
            jobs,
            next,
            report,
            located: true,
        });
    }
}

proof fn lemma_copies_so_far(
    plan: PlanModel,
    target: TargetModel,
    jobs: Seq<JobModel>,
    attempts: Seq<Attempt>,
    done: nat,
)
    requires
        attempts.len() == jobs.len(),
        done <= jobs.len(),
    ensures
        stepped_through(
            plan,
            copying_from(plan, target, jobs, 0, empty_report()).0,
            answers(attempts.take(done as int)),
        ) == copying_from(
            plan,
            target,
            jobs,
            done,
            tallied(
                empty_report(),
                jobs.take(done as int),
                outcomes_of(jobs, attempts).take(done as int),
            ),
        ).0,
    decreases done,
{
    let start = copying_from(plan, target, jobs, 0, empty_report()).0;
    let outcomes = outcomes_of(jobs, attempts);
    if done > 0 {
        let before = (done - 1) as nat;
        lemma_copies_so_far(plan, target, jobs, attempts, before);
        assert(attempts.take(done as int).drop_last() =~= attempts.take(before as int));
        assert(jobs.take(done as int).drop_last() =~= jobs.take(before as int));
        assert(outcomes.take(done as int).drop_last() =~= outcomes.take(before as int));
        let earlier = tallied(
            empty_report(),
            jobs.take(before as int),
            outcomes.take(before as int),
        );
        lemma_steps_compose(
            plan,
            start,
            answers(attempts.take(before as int)),
            answers_to(attempts[before as int]),
        );
        lemma_one_attempt(plan, target, jobs, before, earlier, attempts[before as int]);
    }
}

/// A run of copies is the tally of its outcomes: when the outside has
/// reported an attempt for every planned copy, the deployment stands where the
/// last copy leaves it, with the report that the outcomes of the attempts add
/// up to. What is proved of such a tally is thereby proved of the run.
pub proof fn lemma_copies_are_tallied(
    plan: PlanModel,
    target: TargetModel,
    jobs: Seq<JobModel>,
    attempts: Seq<Attempt>,
)
    requires
        attempts.len() == jobs.len(),
    ensures
        stepped_through(
            plan,
            copying_from(plan, target, jobs, 0, empty_report()).0,
            answers(attempts),
        ) == finishing(
            plan,
            target,
            tallied(empty_report(), jobs, outcomes_of(jobs, attempts)),
        ).0,
{
    lemma_copies_so_far(plan, target, jobs, attempts, jobs.len());
    assert(attempts.take(jobs.len() as int) =~= attempts);
    assert(jobs.take(jobs.len() as int) =~= jobs);
    assert(outcomes_of(jobs, attempts).take(jobs.len() as int) =~= outcomes_of(jobs, attempts));
}

/// Whether an attempt is a copy that was tried, not one that was deferred.
pub open spec fn is_tried(attempt: Attempt) -> bool {
    !is_running_program(attempt.destination, attempt.running)
}

/// Whether two attempts at one copy ended alike: both copies succeeded or
/// both failed.
pub open spec fn ended_alike(first: Attempt, second: Attempt) -> bool {
    first.failure is None <==> second.failure is None
}

/// Running again gives the same account. Take two runs over the same
/// planned copies in which no copy is deferred and every copy that succeeded in
/// one succeeds in the other. Both end with a summary, and the two summaries
/// agree in status, count and names of the copies, in destination and
/// warnings, and in the number of failures; one run ends with an error exactly
/// if the other does. It makes no difference to the copies whether the
/// destination was there or had to be created first.
pub proof fn lemma_second_run_reports_the_same(
    plan: PlanModel,
    base: Seq<char>,
    built: Seq<Seq<char>>,
    target: TargetModel,
    jobs: Seq<JobModel>,
    first: Seq<Attempt>,
    second: Seq<Attempt>,
)
    requires
        first.len() == jobs.len(),
        second.len() == jobs.len(),
        forall|i: int| 0 <= i < jobs.len() ==> is_tried(#[trigger] first[i]),
        forall|i: int| 0 <= i < jobs.len() ==> is_tried(#[trigger] second[i]),
        forall|i: int| 0 <= i < jobs.len() ==> #[trigger] ended_alike(first[i], second[i]),
    ensures
        stepped(
            plan,
            StageModel::Destination { base, built, target },
            ResponseModel::Destination(PathKind::Directory),
        ) == stepped(plan, StageModel::Creating { base, built, target }, ResponseModel::Succeeded),
        match (
            stepped_through(
                plan,
                copying_from(plan, target, jobs, 0, empty_report()).0,
                answers(first),
            ),
            stepped_through(
                plan,
                copying_from(plan, target, jobs, 0, empty_report()).0,
                answers(second),
            ),
        ) {
            (
                StageModel::Ended { summary: Some(one), error: first_error },
                StageModel::Ended { summary: Some(other), error: second_error },
            ) => {
                &&& one.status == other.status
                &&& one.copied_count == other.copied_count
                &&& one.copied_binaries == other.copied_binaries
                &&& one.failed_binaries.len() == other.failed_binaries.len()
                &&& one.target_dir == other.target_dir
                &&& one.override_used == other.override_used
                &&& one.warnings == other.warnings
                &&& (first_error is None <==> second_error is None)
            },
            _ => false,
        },
{
    let first_outcomes = outcomes_of(jobs, first);
    let second_outcomes = outcomes_of(jobs, second);
    assert forall|i: int| 0 <= i < jobs.len() implies (is_copied(#[trigger] first_outcomes[i])
        <==> is_copied(second_outcomes[i])) by {
        assert(ended_alike(first[i], second[i]));
    }
    lemma_rerun_reports_same_copies(jobs, first_outcomes, second_outcomes);
    lemma_rerun_reports_same_copies(jobs, second_outcomes, first_outcomes);
    lemma_copies_are_tallied(plan, target, jobs, first);
    lemma_copies_are_tallied(plan, target, jobs, second);
}

/// Whether an attempt is a copy that was tried and succeeded.
pub open spec fn is_success(attempt: Attempt) -> bool {
    is_tried(attempt) && attempt.failure is None
}

/// A run in which every copy succeeds ends without an error, and its
/// summary lists the built executables by their candidate names, in order and
/// on every platform, counts them, and names the destination.
pub proof fn lemma_successful_run_lists_names(
    plan: PlanModel,
    base: Seq<char>,
    built: Seq<Seq<char>>,
    target: TargetModel,
    attempts: Seq<Attempt>,
)
    requires
        attempts.len() == built.len(),
        forall|i: int| 0 <= i < attempts.len() ==> is_success(#[trigger] attempts[i]),
    ensures
        match stepped_through(
            plan,
            copying_from(
                plan,
                target,
                jobs_for(
                    base,
                    target.dir,
                    plan.options.profile,
                    plan.environment.platform,
                    built,
                ),
                0,
                empty_report(),
            ).0,
            answers(attempts),
        ) {
            StageModel::Ended { summary: Some(summary), error } => {
                &&& error is None
                &&& summary.status == Status::Success
                &&& summary.copied_binaries == built
                &&& summary.copied_count == built.len()
                &&& summary.failed_binaries.len() == 0
                &&& summary.target_dir == target.dir
                &&& summary.override_used == target.override_used
            },
            _ => false,
        },
{
    let jobs = jobs_for(
        base,
        target.dir,
        plan.options.profile,
        plan.environment.platform,
        built,
    );
    let outcomes = outcomes_of(jobs, attempts);
    lemma_copied_are_names(jobs, outcomes);
    lemma_copies_are_tallied(plan, target, jobs, attempts);
}

fn quiet() -> (output: Output)
    ensures
        output@ == silence(),
{
    let output = Output { out: Vec::new(), err: Vec::new() };
    assert(output@.out =~= Seq::<Seq<char>>::empty());
    output
}

fn line_when(shown: bool, line: String) -> (lines: Vec<String>)
    ensures
        texts(lines@) == line_if(shown, line@),
{
    let mut lines: Vec<String> = Vec::new();
    if shown {
        lines.push(line);
    }
    lines
}

fn give_up(error: DeployError) -> (stage: Stage)
    ensures
        stage@ == given_up(error@),
{
    Stage::Ended { summary: None, error: Some(error) }
}

fn precede(
    out: Vec<String>,
    err: Vec<String>,
    following: (Stage, Output),
) -> (result: (Stage, Output))
    ensures
        (result.0@, result.1@) == preceded(
            texts(out@),
            texts(err@),
            (following.0@, following.1@),
        ),
{
    let (stage, shown) = following;
    let mut out = out;
    let mut err = err;
    append_all(&mut out, &shown.out);
    append_all(&mut err, &shown.err);
    (stage, Output { out, err })
}

fn close(plan: &Plan, target: DeploymentTarget, report: CopyReport) -> (result: (Stage, Output))
    ensures
        (result.0@, result.1@) == closed(plan@, target@, report@),
{
    let closing = close_run(&plan.options, &report, &target);
    let error = match report.verdict() {
        Ok(_) => None,
        Err(error) => Some(error),
    };
    (
        Stage::Ended { summary: Some(closing.summary), error },
        Output { out: closing.out, err: closing.err },
    )
}

fn finish_copies(
    plan: &Plan,
    target: DeploymentTarget,
    report: CopyReport,
) -> (result: (Stage, Output))
    ensures
        (result.0@, result.1@) == finishing(plan@, target@, report@),
{
    let mut report = report;
    match report.conclude() {
        NextStep::SelfUpdate(pending) => (
            Stage::Updating { target, report, pending, update: SelfUpdateState::start() },
            quiet(),
        ),
        NextStep::Finish => close(plan, target, report),
    }
}

fn copy_from(
    plan: &Plan,
    target: DeploymentTarget,
    jobs: Vec<CopyJob>,
    next: usize,
    report: CopyReport,
) -> (result: (Stage, Output))
    ensures
        (result.0@, result.1@) == copying_from(
            plan@,
            target@,
            crate::engine::jobs(jobs@),
            next as nat,
            report@,
        ),
{
    if next < jobs.len() {
        (Stage::Copies { target, jobs, next, report, located: false }, quiet())
    } else {
        finish_copies(plan, target, report)
    }
}

fn start_copies(
    plan: &Plan,
    base: String,
    built: Vec<String>,
    target: DeploymentTarget,
) -> (result: (Stage, Output))
    ensures
        (result.0@, result.1@) == copying_from(
            plan@,
            target@,
            jobs_for(
                base@,
                target@.dir,
                plan@.options.profile,
                plan@.environment.platform,
                texts(built@),
            ),
            0,
            empty_report(),
        ),
{
    let jobs = plan_copies(
        base.as_str(),
        target.dir.as_str(),
        plan.options.profile,
        plan.environment.platform,
        &built,
    );
    copy_from(plan, target, jobs, 0, CopyReport::new())
}

fn as_update_event(response: Response) -> (event: Option<SelfUpdateEvent>)
    ensures
        match event {
            Some(found) => update_event(response@) == Some(found@),
            None => update_event(response@) is None,
        },
{
    match response {
        Response::Located { destination, running } => Some(
            SelfUpdateEvent::Located { destination, running },
        ),
        Response::Succeeded => Some(SelfUpdateEvent::Succeeded),
        Response::Failed(reason) => Some(SelfUpdateEvent::Failed(reason)),
        _ => None,
    }
}

fn as_text(text: &Option<String>) -> (slice: Option<&str>)
    ensures
        match slice {
            Some(characters) => *text matches Some(owned) && owned@ == characters@,
            None => *text is None,
        },
{
    match text {
        Some(owned) => Some(owned.as_str()),
        None => None,
    }
}

impl Stage {
    /// The stage in which every deployment begins.
    pub fn begin() -> (stage: Stage)
        ensures
            stage@ == StageModel::Layout,
    {
        Stage::Layout
    }

    /// Whether the run is over.
    pub fn is_over(&self) -> (over: bool)
        ensures
            over == (self@ is Ended),
    {
        match self {
            Stage::Ended { .. } => true,
            _ => false,
        }
    }

    /// What this stage needs from the outside.
    pub fn request(&self, plan: &Plan) -> (request: Request)
        ensures
            request@ == request_in(plan@, self@),
    {
        match self {
            Stage::Layout => {
                let inner = base_dir(plan.project_dir.as_str(), ProjectType::Tauri);
                Request::InspectLayout {
                    tauri_manifest: manifest_path(inner.as_str()),
                    configs: tauri_config_paths(plan.project_dir.as_str()),
                }
            },
            Stage::Manifest { base, .. } => Request::ReadManifest {
                path: manifest_path(base.as_str()),
            },
            Stage::Members { base, root, .. } => {
                let members = workspace_members(root);
                Request::ReadMembers { paths: member_manifest_paths(base.as_str(), &members) }
            },
            Stage::Artifacts { base, candidates } => {
                let mut file_names: Vec<String> = Vec::new();
                let ghost wanted = texts(candidates@).map_values(
                    |name: Seq<char>| exe_file_name(plan@.environment.platform, name),
                );
                let mut index: usize = 0;
                while index < candidates.len()
                    invariant
                        index <= candidates.len(),
                        file_names@.len() == index,
                        wanted == texts(candidates@).map_values(
                            |name: Seq<char>| exe_file_name(plan@.environment.platform, name),
                        ),
                        texts(file_names@) == wanted.take(index as int),
                    decreases candidates.len() - index,
                {
                    file_names.push(
                        exe_filename_on(plan.environment.platform, candidates[index].as_str()),
                    );
                    index += 1;
                }
                assert(wanted.take(candidates.len() as int) =~= wanted);
                Request::ProbeArtifacts {
                    dir: artifact_dir(base.as_str(), plan.options.profile),
                    file_names,
                }
            },
            Stage::Destination { target, .. } => Request::InspectDestination {
                dir: target.dir.clone(),
            },
            Stage::Creating { target, .. } => Request::CreateDestination {
                dir: target.dir.clone(),
            },
            Stage::Copies { jobs, next, located, .. } => {
                if *next >= jobs.len() {
                    Request::Finish
                } else if *located {
                    Request::Copy {
                        source: jobs[*next].source.clone(),
                        destination: jobs[*next].destination.clone(),
                    }
                } else {
                    Request::Locate { destination: jobs[*next].destination.clone() }
                }
            },
            Stage::Updating { pending, update, .. } => match update.action(
                pending,
                plan.helper.as_str(),
            ) {
                SelfUpdateAction::Locate { destination } => Request::Locate { destination },
                SelfUpdateAction::Stage { from, to } => Request::Copy {
                    source: from,
                    destination: to,
                },
                SelfUpdateAction::Launch { program, arguments } => Request::Launch {
                    program,
                    arguments,
                },
                SelfUpdateAction::Stop => Request::Finish,
            },
            Stage::Ended { .. } => Request::Finish,
        }
    }

    /// Takes the deployment one step further: from this stage and the
    /// response to its request to the stage that follows, with the lines to show.
    pub fn advance(self, plan: &Plan, response: Response) -> (result: (Stage, Output))
        ensures
            (result.0@, result.1@) == stepped(plan@, self@, response@),
    {
        match self {
            Stage::Layout => match response {
                Response::Layout { has_tauri_manifest, has_config, config_text } => {
                    let layout = detect_project_type(
                        plan.options.project_type,
                        has_tauri_manifest,
                        has_config,
                    );
                    let base = base_dir(plan.project_dir.as_str(), layout);
                    let extra = packaging_names(layout, as_text(&config_text));
                    (Stage::Manifest { base, extra }, quiet())
                },
                _ => (Stage::Layout, quiet()),
            },
            Stage::Manifest { base, extra } => match response {
                Response::Manifest(file) => match open_manifest(&file) {
                    Ok(root) => (Stage::Members { base, extra, root }, quiet()),
                    Err(error) => (give_up(error), quiet()),
                },
                _ => (Stage::Manifest { base, extra }, quiet()),
            },
            Stage::Members { base, extra, root } => match response {
                Response::Members(members) => match collect_candidates(&root, &extra, &members) {
                    Ok(candidates) => (Stage::Artifacts { base, candidates }, quiet()),
                    Err(error) => (give_up(error), quiet()),
                },
                _ => (Stage::Members { base, extra, root }, quiet()),
            },
            Stage::Artifacts { base, candidates } => match response {
                Response::Artifacts(files) => {
                    let found = find_built_executables(
                        &candidates,
                        &files,
                        plan.environment.platform,
                    );
                    match require_built(found, plan.options.profile) {
                        Ok(built) => match resolve_destination(
                            plan.project_dir.as_str(),
                            as_text(&plan.options.target_override),
                            &plan.environment,
                        ) {
                            Ok(target) => (Stage::Destination { base, built, target }, quiet()),
                            Err(error) => (give_up(error), quiet()),
                        },
                        Err(error) => (give_up(error), quiet()),
                    }
                },
                _ => (Stage::Artifacts { base, candidates }, quiet()),
            },
            Stage::Destination { base, built, target } => match response {
                Response::Destination(found) => match prepare_destination(
                    target.dir.as_str(),
                    found,
                ) {
                    Ok(Preparation::Create) => (Stage::Creating { base, built, target }, quiet()),
                    Ok(Preparation::Ready) => start_copies(plan, base, built, target),
                    Err(error) => (give_up(error), quiet()),
                },
                _ => (Stage::Destination { base, built, target }, quiet()),
            },
            Stage::Creating { base, built, target } => match response {
                Response::Succeeded => start_copies(plan, base, built, target),
                Response::Failed(_) => match confirm_created(target.dir.as_str(), false) {
                    Err(error) => (give_up(error), quiet()),
                    Ok(_) => (Stage::Creating { base, built, target }, quiet()),
                },
                _ => (Stage::Creating { base, built, target }, quiet()),
            },
            Stage::Copies { target, jobs, next, report, located } => {
                if next >= jobs.len() {
                    return (Stage::Copies { target, jobs, next, report, located }, quiet());
                }
                let job = jobs[next].duplicate();
                let shown = plan.options.emits_text();
                let mut report = report;
                match response {
                    Response::Located { destination, running } => {
                        if located {
                            (Stage::Copies { target, jobs, next, report, located }, quiet())
                        } else if targets_running_program(
                            as_text(&destination),
                            as_text(&running),
                        ) {
                            report.record(&job, deferred(&job));
                            precede(
                                line_when(shown, deferred_line(&job)),
                                Vec::new(),
                                copy_from(plan, target, jobs, next + 1, report),
                            )
                        } else {
                            (Stage::Copies { target, jobs, next, report, located: true }, quiet())
                        }
                    },
                    Response::Succeeded => {
                        if located {
                            report.record(&job, copied(&job));
                            precede(
                                line_when(shown, copied_line(&job)),
                                Vec::new(),
                                copy_from(plan, target, jobs, next + 1, report),
                            )
                        } else {
                            (Stage::Copies { target, jobs, next, report, located }, quiet())
                        }
                    },
                    Response::Failed(reason) => {
                        if located {
                            report.record(&job, copy_failed(&job, reason.as_str()));
                            precede(
                                Vec::new(),
                                line_when(shown, failed_line(&job, reason.as_str())),
                                copy_from(plan, target, jobs, next + 1, report),
                            )
                        } else {
                            (Stage::Copies { target, jobs, next, report, located }, quiet())
                        }
                    },
                    _ => (Stage::Copies { target, jobs, next, report, located }, quiet()),
                }
            },
            Stage::Updating { target, report, pending, update } => {
                match as_update_event(response) {
                    Some(event) => {
                        let moved = update.advance(plan.helper.as_str(), event);
                        if moved.is_finished() {
                            let mut report = report;
                            settle(&mut report, &moved);
                            close(plan, target, report)
                        } else {
                            (Stage::Updating { target, report, pending, update: moved }, quiet())
                        }
                    },
                    None => (Stage::Updating { target, report, pending, update }, quiet()),
                }
            },
            Stage::Ended { summary, error } => (Stage::Ended { summary, error }, quiet()),
        }
    }
}

} // verus!
