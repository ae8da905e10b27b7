//! The copy engine: which file goes where, what became of each copy, and what
//! is left to do once every copy has been tried.
//!
//! The engine never stops at a failure. Every artifact gets its attempt, the
//! failures are collected, and an artifact whose destination is the running
//! program is set aside instead of copied.

use crate::error::DeployError;
use crate::layout::{artifact_dir, ARTIFACTS_DIR};
use crate::paths::{join, path_join};
use crate::platform::{exe_file_name, exe_filename_on, BuildProfile, Platform};
use crate::text::{concatenate, texts};
use vstd::prelude::*;
use vstd::string::*;

verus! {

/// One copy: the executable `name`, from `source` to `destination`.
#[derive(Clone, Debug, PartialEq, Eq)]
pub struct CopyJob {
    /// The candidate name of the executable, under which reports list it.
    pub name: String,
    /// The file name of the executable on the platform.
    pub file_name: String,
    /// The file to copy.
    pub source: String,
    /// The file to write.
    pub destination: String,
}

/// The mathematical content of a [`CopyJob`].
pub struct JobModel {
    pub name: Seq<char>,
    pub file_name: Seq<char>,
    pub source: Seq<char>,
    pub destination: Seq<char>,
}

impl View for CopyJob {
    type V = JobModel;

    open spec fn view(&self) -> JobModel {
        JobModel {
            name: self.name@,
            file_name: self.file_name@,
            source: self.source@,
            destination: self.destination@,
        }
    }
}

impl CopyJob {
    /// A copy of this job.
    pub fn duplicate(&self) -> (copy: CopyJob)
        ensures
            copy@ == self@,
    {
        CopyJob {
            name: self.name.clone(),
            file_name: self.file_name.clone(),
            source: self.source.clone(),
            destination: self.destination.clone(),
        }
    }
}

/// A copy that did not happen, and why.
#[derive(Clone, Debug, PartialEq, Eq)]
pub struct FailedCopy {
    /// The candidate name of the executable.
    pub binary: String,
    /// What went wrong.
    pub error: String,
}

/// The mathematical content of a [`FailedCopy`].
pub struct FailureModel {
    pub binary: Seq<char>,
    pub error: Seq<char>,
}

impl View for FailedCopy {
    type V = FailureModel;

    open spec fn view(&self) -> FailureModel {
        FailureModel { binary: self.binary@, error: self.error@ }
    }
}

/// What became of one artifact.
#[derive(Clone, Debug, PartialEq, Eq)]
pub enum CopyOutcome {
    /// The file was written to the given destination.
    Copied(String),
    /// The copy failed with the given message.
    Failed(String),
    /// The destination is the running program; the copy from the first path
    /// to the second is left to a self-update.
    DeferredForSelfUpdate(String, String),
}

/// The mathematical content of a [`CopyOutcome`].
pub enum OutcomeModel {
    Copied(Seq<char>),
    Failed(Seq<char>),
    Deferred(Seq<char>, Seq<char>),
}

impl View for CopyOutcome {
    type V = OutcomeModel;

    open spec fn view(&self) -> OutcomeModel {
        match self {
            CopyOutcome::Copied(destination) => OutcomeModel::Copied(destination@),
            CopyOutcome::Failed(error) => OutcomeModel::Failed(error@),
            CopyOutcome::DeferredForSelfUpdate(source, destination) => OutcomeModel::Deferred(
                source@,
                destination@,
            ),
        }
    }
}

/// What a run has achieved so far.
#[derive(Clone, Debug, PartialEq, Eq)]
pub struct CopyReport {
    /// The candidate names of the executables that were copied, in the
    /// order of their copies.
    pub copied: Vec<String>,
    /// The copies that failed, in the order of their failures.
    pub failed: Vec<FailedCopy>,
    /// The copy that is left to a self-update, if there is one.
    pub deferred: Option<CopyJob>,
}

/// The mathematical content of a [`CopyReport`].
pub struct ReportModel {
    pub copied: Seq<Seq<char>>,
    pub failed: Seq<FailureModel>,
    pub deferred: Option<JobModel>,
}

/// The contents of a list of jobs.
pub open spec fn jobs(items: Seq<CopyJob>) -> Seq<JobModel> {
    items.map_values(|job: CopyJob| job@)
}

/// The contents of a list of failures.
pub open spec fn failures(items: Seq<FailedCopy>) -> Seq<FailureModel> {
    items.map_values(|failure: FailedCopy| failure@)
}

impl View for CopyReport {
    type V = ReportModel;

    open spec fn view(&self) -> ReportModel {
        ReportModel {
            copied: texts(self.copied@),
            failed: failures(self.failed@),
            deferred: match self.deferred {
                Some(job) => Some(job@),
                None => None,
            },
        }
    }
}

/// The file that holds the artifact `file_name` of `profile` below the
/// project directory `base`.
pub open spec fn artifact_path(
    base: Seq<char>,
    profile: BuildProfile,
    file_name: Seq<char>,
) -> Seq<char> {
    path_join(path_join(path_join(base, ARTIFACTS_DIR@), profile.name()), file_name)
}

/// The copy that deploys the executable `name` of the project at `base` into
/// `target_dir`. The job keeps the candidate name as it is; the file name that
/// the platform gives the executable names the files on both sides.
pub open spec fn job_for(
    base: Seq<char>,
    target_dir: Seq<char>,
    profile: BuildProfile,
    platform: Platform,
    name: Seq<char>,
) -> JobModel {
    JobModel {
        name,
        file_name: exe_file_name(platform, name),
        source: artifact_path(base, profile, exe_file_name(platform, name)),
        destination: path_join(target_dir, exe_file_name(platform, name)),
    }
}

/// The copies that deploy `names`, one for each name and in their order.
pub open spec fn jobs_for(
    base: Seq<char>,
    target_dir: Seq<char>,
    profile: BuildProfile,
    platform: Platform,
    names: Seq<Seq<char>>,
) -> Seq<JobModel> {
    names.map_values(|name: Seq<char>| job_for(base, target_dir, profile, platform, name))
}

/// The message of a copy that failed for `reason`.
pub open spec fn copy_failure_text(job: JobModel, reason: Seq<char>) -> Seq<char> {
    "Failed to copy "@ + job.source + " to "@ + job.destination + ": "@ + reason
}

/// The message for a deferred copy that is given up because other copies
/// failed.
pub open spec fn skipped_text(job: JobModel) -> Seq<char> {
    "Self-update of "@ + job.destination + " skipped due to other failures"@
}

/// The message for a second artifact that would replace the running program.
pub open spec fn second_deferral_text(job: JobModel) -> Seq<char> {
    "Cannot update "@ + job.destination + ": another self-update is already pending"@
}

/// A report with nothing in it.
pub open spec fn empty_report() -> ReportModel {
    ReportModel { copied: Seq::empty(), failed: Seq::empty(), deferred: None }
}

/// `report` after `outcome` has been noted for `job`. A copy extends the
/// list of copies and a failure the list of failures, each by the candidate
/// name of the job. A deferral is kept as the
/// pending self-update; there is room for one only, so a further deferral counts
/// as a failure.
pub open spec fn recorded(
    report: ReportModel,
    job: JobModel,
    outcome: OutcomeModel,
) -> ReportModel {
    match outcome {
        OutcomeModel::Copied(_) => ReportModel { copied: report.copied.push(job.name), ..report },
        OutcomeModel::Failed(error) => ReportModel {
            failed: report.failed.push(FailureModel { binary: job.name, error }),
            ..report
        },
        OutcomeModel::Deferred(source, destination) => match report.deferred {
            None => ReportModel {
                deferred: Some(
                    JobModel { name: job.name, file_name: job.file_name, source, destination },
                ),
                ..report
            },
            Some(_) => ReportModel {
                failed: report.failed.push(
                    FailureModel { binary: job.name, error: second_deferral_text(job) },
                ),
                ..report
            },
        },
    }
}

/// The report of a run that began with `report` and met `outcomes` for
/// `jobs`, pair by pair.
pub open spec fn tallied(
    report: ReportModel,
    jobs: Seq<JobModel>,
    outcomes: Seq<OutcomeModel>,
) -> ReportModel
    recommends
        jobs.len() == outcomes.len(),
    decreases jobs.len(),
{
    if jobs.len() == 0 || outcomes.len() == 0 {
        report
    } else {
        recorded(
            tallied(report, jobs.drop_last(), outcomes.drop_last()),
            jobs.last(),
            outcomes.last(),
        )
    }
}

/// What is left to do once every copy has been tried.
#[derive(Clone, Debug, PartialEq, Eq)]
pub enum NextStep {
    /// Nothing: the report is final.
    Finish,
    /// The given copy has to be handed to a self-update.
    SelfUpdate(CopyJob),
}

/// The report after the copies, and the copy to hand to a self-update if one
/// is due. A deferred copy is handed on only where nothing has failed;
/// otherwise it joins the failures and no self-update takes place.
pub open spec fn concluded(report: ReportModel) -> (ReportModel, Option<JobModel>) {
    match report.deferred {
        None => (report, None),
        Some(job) => if report.failed.len() == 0 {
            (report, Some(job))
        } else {
            (
                ReportModel {
                    failed: report.failed.push(
                        FailureModel { binary: job.name, error: skipped_text(job) },
                    ),
                    deferred: None,
                    ..report
                },
                None,
            )
        },
    }
}

/// Tells whether a copy to `destination` would replace the running program:
/// both canonical paths are known and they are the same path.
pub open spec fn is_running_program(
    destination: Option<Seq<char>>,
    running: Option<Seq<char>>,
) -> bool {
    match (destination, running) {
        (Some(target), Some(program)) => target == program,
        _ => false,
    }
}

/// Whether an outcome is a completed copy.
pub open spec fn is_copied(outcome: OutcomeModel) -> bool {
    outcome is Copied
}

/// Noting outcomes never shortens the list of failures, and a failed copy
/// among them makes it longer.
pub proof fn lemma_failures_accumulate(
    report: ReportModel,
    jobs: Seq<JobModel>,
    outcomes: Seq<OutcomeModel>,
)
    requires
        jobs.len() == outcomes.len(),
    ensures
        tallied(report, jobs, outcomes).failed.len() >= report.failed.len(),
        (exists|i: int| 0 <= i < outcomes.len() && #[trigger] outcomes[i] is Failed) ==> tallied(
            report,
            jobs,
            outcomes,
        ).failed.len() > report.failed.len(),
    decreases jobs.len(),
{
    if jobs.len() > 0 {
        let front = outcomes.drop_last();
        lemma_failures_accumulate(report, jobs.drop_last(), front);
        if exists|i: int| 0 <= i < outcomes.len() && #[trigger] outcomes[i] is Failed {
            let i = choose|i: int| 0 <= i < outcomes.len() && #[trigger] outcomes[i] is Failed;
            if i < front.len() {
                assert(front[i] is Failed);
            }
        }
    }
}

/// A run in which a copy has failed never hands a copy to a self-update.
/// Where a copy was deferred in such a run, it ends as the last of the
/// failures, marked as skipped because of the others.
pub proof fn lemma_failure_rules_out_self_update(
    jobs: Seq<JobModel>,
    outcomes: Seq<OutcomeModel>,
)
    requires
        jobs.len() == outcomes.len(),
        exists|i: int| 0 <= i < outcomes.len() && #[trigger] outcomes[i] is Failed,
    ensures
        concluded(tallied(empty_report(), jobs, outcomes)).1 is None,
        concluded(tallied(empty_report(), jobs, outcomes)).0.deferred is None,
        tallied(empty_report(), jobs, outcomes).deferred matches Some(job) ==> {
            let report = concluded(tallied(empty_report(), jobs, outcomes)).0;
            &&& report.failed.last() == FailureModel {
                binary: job.name,
                error: skipped_text(job),
            }
            &&& "skipped due to other failures"@.is_suffix_of(report.failed.last().error)
        },
{
    lemma_failures_accumulate(empty_report(), jobs, outcomes);
    let report = tallied(empty_report(), jobs, outcomes);
    match report.deferred {
        Some(job) => {
            lemma_phrase_closes_skipped_text(job);
        },
        None => {},
    }
}

proof fn lemma_phrase_closes_skipped_text(job: JobModel)
    ensures
        "skipped due to other failures"@.is_suffix_of(skipped_text(job)),
{
    reveal_strlit(" skipped due to other failures");
    reveal_strlit("skipped due to other failures");
}

/// Two runs over the same jobs in which nothing is deferred and the same
/// copies succeed report the same executables as copied, hence the same
/// count, and as many failures as each other; every job is accounted for.
pub proof fn lemma_rerun_reports_same_copies(
    jobs: Seq<JobModel>,
    first: Seq<OutcomeModel>,
    second: Seq<OutcomeModel>,
)
    requires
        jobs.len() == first.len(),
        jobs.len() == second.len(),
        forall|i: int| 0 <= i < jobs.len() ==> !(#[trigger] first[i] is Deferred),
        forall|i: int| 0 <= i < jobs.len() ==> !(#[trigger] second[i] is Deferred),
        forall|i: int|
            0 <= i < jobs.len() ==> (is_copied(#[trigger] first[i]) <==> is_copied(second[i])),
    ensures
        tallied(empty_report(), jobs, first).copied == tallied(empty_report(), jobs, second).copied,
        tallied(empty_report(), jobs, first).failed.len() == tallied(
            empty_report(),
            jobs,
            second,
        ).failed.len(),
        tallied(empty_report(), jobs, first).deferred is None,
        tallied(empty_report(), jobs, first).copied.len() + tallied(
            empty_report(),
            jobs,
            first,
        ).failed.len() == jobs.len(),
    decreases jobs.len(),
{
    if jobs.len() > 0 {
        lemma_rerun_reports_same_copies(
            jobs.drop_last(),
            first.drop_last(),
            second.drop_last(),
        );
    }
}

/// The copies planned for `names` carry these names, one job for each name
/// and in their order, whatever the platform; the platform shows in the file
/// names alone.
pub proof fn lemma_jobs_keep_names(
    base: Seq<char>,
    target_dir: Seq<char>,
    profile: BuildProfile,
    platform: Platform,
    names: Seq<Seq<char>>,
)
    ensures
        jobs_for(base, target_dir, profile, platform, names).len() == names.len(),
        forall|i: int|
            0 <= i < names.len() ==> {
                let job = #[trigger] jobs_for(base, target_dir, profile, platform, names)[i];
                &&& job.name == names[i]
                &&& job.file_name == exe_file_name(platform, names[i])
                &&& job.destination == path_join(target_dir, job.file_name)
            },
{
}

/// The names of `jobs`, in order.
pub open spec fn job_names(jobs: Seq<JobModel>) -> Seq<Seq<char>> {
    jobs.map_values(|job: JobModel| job.name)
}

/// A run in which every copy succeeds reports the names of its jobs as
/// copied, in their order, and nothing else. For the jobs planned for a list
/// of candidate names these are the candidate names themselves, on every
/// platform.
pub proof fn lemma_copied_are_names(jobs: Seq<JobModel>, outcomes: Seq<OutcomeModel>)
    requires
        jobs.len() == outcomes.len(),
        forall|i: int| 0 <= i < outcomes.len() ==> #[trigger] outcomes[i] is Copied,
    ensures
        tallied(empty_report(), jobs, outcomes).copied == job_names(jobs),
        tallied(empty_report(), jobs, outcomes).failed.len() == 0,
        tallied(empty_report(), jobs, outcomes).deferred is None,
    decreases jobs.len(),
{
    if jobs.len() > 0 {
        lemma_copied_are_names(jobs.drop_last(), outcomes.drop_last());
    }
}

/// Whatever the outcomes, a report lists candidate names only: every name
/// among the copies and every failure's name is the name of one of the jobs.
pub proof fn lemma_reports_list_job_names(jobs: Seq<JobModel>, outcomes: Seq<OutcomeModel>)
    requires
        jobs.len() == outcomes.len(),
    ensures
        forall|name: Seq<char>| #[trigger]
            tallied(empty_report(), jobs, outcomes).copied.contains(name) ==> job_names(
                jobs,
            ).contains(name),
        forall|i: int|
            0 <= i < tallied(empty_report(), jobs, outcomes).failed.len() ==> job_names(
                jobs,
            ).contains(#[trigger] tallied(empty_report(), jobs, outcomes).failed[i].binary),
        match tallied(empty_report(), jobs, outcomes).deferred {
            Some(job) => job_names(jobs).contains(job.name),
            None => true,
        },
    decreases jobs.len(),
{
    if jobs.len() > 0 {
        let front = jobs.drop_last();
        let earlier = tallied(empty_report(), front, outcomes.drop_last());
        let report = tallied(empty_report(), jobs, outcomes);
        lemma_reports_list_job_names(front, outcomes.drop_last());
        assert(job_names(jobs) =~= job_names(front).push(jobs.last().name));
        assert(job_names(jobs)[jobs.len() - 1] == jobs.last().name);
        assert forall|name: Seq<char>| job_names(front).contains(name) implies job_names(
            jobs,
        ).contains(name) by {
            let i = choose|i: int| 0 <= i < front.len() && job_names(front)[i] == name;
            assert(job_names(jobs)[i] == name);
        }
        assert forall|name: Seq<char>| #[trigger] report.copied.contains(name) implies job_names(
            jobs,
        ).contains(name) by {
            let i = choose|i: int| 0 <= i < report.copied.len() && report.copied[i] == name;
            if i < earlier.copied.len() {
                assert(earlier.copied[i] == name);
            }
        }
    }
}

/// Plans the copy of the executable `name`.
pub fn plan_copy(
    base: &str,
    target_dir: &str,
    profile: BuildProfile,
    platform: Platform,
    name: &str,
) -> (job: CopyJob)
    ensures
        job@ == job_for(base@, target_dir@, profile, platform, name@),
{
    let file_name = exe_filename_on(platform, name);
    let artifacts = artifact_dir(base, profile);
    let source = join(artifacts.as_str(), file_name.as_str());
    let destination = join(target_dir, file_name.as_str());
    CopyJob { name: name.to_string(), file_name, source, destination }
}

/// Plans the copies of the executables `names`, in their order.
pub fn plan_copies(
    base: &str,
    target_dir: &str,
    profile: BuildProfile,
    platform: Platform,
    names: &Vec<String>,
) -> (planned: Vec<CopyJob>)
    ensures
        jobs(planned@) == jobs_for(base@, target_dir@, profile, platform, texts(names@)),
{
    let mut planned: Vec<CopyJob> = Vec::new();
    let mut index: usize = 0;
    while index < names.len()
        invariant
            index <= names.len(),
            planned@.len() == index,
            jobs(planned@) == jobs_for(base@, target_dir@, profile, platform, texts(names@)).take(
                index as int,
            ),
        decreases names.len() - index,
    {
        let job = plan_copy(base, target_dir, profile, platform, names[index].as_str());
        planned.push(job);
        index += 1;
    }
    planned
}

/// Tells whether a copy would replace the running program, given the
/// canonical path of the copy's destination and that of the running program,
/// each where it could be determined.
pub fn targets_running_program(destination: Option<&str>, running: Option<&str>) -> (same: bool)
    ensures
        same == is_running_program(
            match destination {
                Some(path) => Some(path@),
                None => None,
            },
            match running {
                Some(path) => Some(path@),
                None => None,
            },
        ),
{
    match destination {
        Some(target) => match running {
            Some(program) => target.eq(program),
            None => false,
        },
        None => false,
    }
}

/// The outcome of a copy that succeeded.
pub fn copied(job: &CopyJob) -> (outcome: CopyOutcome)
    ensures
        outcome@ == OutcomeModel::Copied(job@.destination),
{
    CopyOutcome::Copied(job.destination.clone())
}

/// The outcome of a copy that failed for `reason`.
pub fn copy_failed(job: &CopyJob, reason: &str) -> (outcome: CopyOutcome)
    ensures
        outcome@ == OutcomeModel::Failed(copy_failure_text(job@, reason@)),
{
    let mut message = concatenate("Failed to copy ", job.source.as_str());
    message.append(" to ");
    message.append(job.destination.as_str());
    message.append(": ");
    message.append(reason);
    CopyOutcome::Failed(message)
}

/// The outcome of a copy that is left to a self-update.
pub fn deferred(job: &CopyJob) -> (outcome: CopyOutcome)
    ensures
        outcome@ == OutcomeModel::Deferred(job@.source, job@.destination),
{
    CopyOutcome::DeferredForSelfUpdate(job.source.clone(), job.destination.clone())
}

impl CopyReport {
    /// A report with nothing in it.
    pub fn new() -> (report: CopyReport)
        ensures
            report@ == empty_report(),
    {
        let report = CopyReport { copied: Vec::new(), failed: Vec::new(), deferred: None };
        assert(report@.copied =~= Seq::<Seq<char>>::empty());
        assert(report@.failed =~= Seq::<FailureModel>::empty());
        report
    }

    /// The number of executables copied so far.
    pub fn copied_count(&self) -> (count: usize)
        ensures
            count == self@.copied.len(),
    {
        self.copied.len()
    }

    /// Notes what became of `job`.
    pub fn record(&mut self, job: &CopyJob, outcome: CopyOutcome)
        ensures
            final(self)@ == recorded(old(self)@, job@, outcome@),
    {
        let ghost before = *self;
        match outcome {
            CopyOutcome::Copied(_) => {
                self.copied.push(job.name.clone());
                assert(texts(self.copied@) =~= texts(before.copied@).push(job@.name));
            },
            CopyOutcome::Failed(error) => {
                self.failed.push(FailedCopy { binary: job.name.clone(), error });
                assert(failures(self.failed@) =~= failures(before.failed@).push(
                    FailureModel { binary: job@.name, error: error@ },
                ));
            },
            CopyOutcome::DeferredForSelfUpdate(source, destination) => {
                if self.deferred.is_none() {
                    self.deferred = Some(
                        CopyJob {
                            name: job.name.clone(),
                            file_name: job.file_name.clone(),
                            source,
                            destination,
                        },
                    );
                } else {
                    let mut error = concatenate("Cannot update ", job.destination.as_str());
                    error.append(": another self-update is already pending");
                    self.failed.push(FailedCopy { binary: job.name.clone(), error });
                    assert(failures(self.failed@) =~= failures(before.failed@).push(
                        FailureModel { binary: job@.name, error: second_deferral_text(job@) },
                    ));
                }
            },
        }
    }

    /// Closes the round of copies. A deferred copy is handed back for a
    /// self-update if no copy has failed; if one has, the deferred copy is
    /// entered among the failures and no self-update is asked for.
    pub fn conclude(&mut self) -> (next: NextStep)
        ensures
            final(self)@ == concluded(old(self)@).0,
            match next {
                NextStep::Finish => concluded(old(self)@).1 is None,
                NextStep::SelfUpdate(job) => concluded(old(self)@).1 == Some(job@),
            },
    {
        let ghost before = *self;
        match &self.deferred {
            None => NextStep::Finish,
            Some(job) => {
                if self.failed.len() == 0 {
                    NextStep::SelfUpdate(job.duplicate())
                } else {
                    let mut error = concatenate("Self-update of ", job.destination.as_str());
                    error.append(" skipped due to other failures");
                    let binary = job.name.clone();
                    self.failed.push(FailedCopy { binary, error });
                    self.deferred = None;
                    assert(failures(self.failed@) =~= failures(before.failed@).push(
                        FailureModel {
                            binary: before.deferred->0@.name,
                            error: skipped_text(before.deferred->0@),
                        },
                    ));
                    NextStep::Finish
                }
            },
        }
    }

    /// The verdict on the run: an error exactly when a copy has failed.
    pub fn verdict(&self) -> (verdict: Result<(), DeployError>)
        ensures
            match verdict {
                Ok(_) => self@.failed.len() == 0,
                Err(error) => self@.failed.len() > 0 && error == (DeployError::CopiesFailed {
                    copied: self.copied@.len() as usize,
                    failed: self.failed@.len() as usize,
                }),
            },
    {
        if self.failed.len() == 0 {
            Ok(())
        } else {
            Err(DeployError::CopiesFailed { copied: self.copied.len(), failed: self.failed.len() })
        }
    }
}

} // verus!
