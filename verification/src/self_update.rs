//! Replacing the running program. A program cannot overwrite its own file
//! while it runs, so the copy is handed to a helper: the running program is
//! copied to a temporary file, that copy is started with the instruction to
//! finish the update, and the first process ends. The helper then retries
//! the copy until the file is free.
//!
//! The steps touch the file system and start a process, which is the
//! caller's business. This module decides what the next step is and what its
//! result means.

use crate::engine::{
    failures, is_running_program, targets_running_program, CopyJob, CopyReport, FailedCopy,
    FailureModel, JobModel, ReportModel,
};
use crate::paths::{join, path_join};
use crate::platform::{exe_file_name, exe_filename_on, Platform};
use crate::text::{concatenate, texts};
use vstd::prelude::*;
use vstd::string::*;

verus! {

/// The name, without extension, of the temporary copy of the running program.
pub const HELPER_NAME: &'static str = "mdrcp-self-update";

/// The instruction by which the helper is told to finish an update. It is
/// followed by the source and the destination of the copy.
pub const FINISH_UPDATE_FLAG: &'static str = "--finish-update";

/// How often the helper tries the copy before it gives up.
pub const MAX_ATTEMPTS: u32 = 10;

/// How long the helper waits between two attempts, in milliseconds.
pub const RETRY_DELAY_MS: u64 = 500;

/// Where a self-update stands. The last three states are final.
#[derive(Clone, Debug, PartialEq, Eq)]
pub enum SelfUpdateState {
    /// The running program has yet to be located.
    Locating,
    /// The running program, found at the given path, has yet to be copied to
    /// the helper's place.
    Staging(String),
    /// The helper has yet to be started.
    Launching,
    /// The copy does not replace the running program after all; nothing was
    /// done.
    NotApplicable,
    /// The helper runs and will finish the update.
    Spawned,
    /// The self-update was given up, for the given reason.
    Failed(String),
}

/// The mathematical content of a [`SelfUpdateState`].
pub enum StateModel {
    Locating,
    Staging(Seq<char>),
    Launching,
    NotApplicable,
    Spawned,
    Failed(Seq<char>),
}

impl View for SelfUpdateState {
    type V = StateModel;

    open spec fn view(&self) -> StateModel {
        match self {
            SelfUpdateState::Locating => StateModel::Locating,
            SelfUpdateState::Staging(running) => StateModel::Staging(running@),
            SelfUpdateState::Launching => StateModel::Launching,
            SelfUpdateState::NotApplicable => StateModel::NotApplicable,
            SelfUpdateState::Spawned => StateModel::Spawned,
            SelfUpdateState::Failed(reason) => StateModel::Failed(reason@),
        }
    }
}

/// What the caller reports back after a step.
#[derive(Clone, Debug, PartialEq, Eq)]
pub enum SelfUpdateEvent {
    /// The canonical path of the copy's destination and that of the running
    /// program, each where it could be determined.
    Located { destination: Option<String>, running: Option<String> },
    /// The step was carried out.
    Succeeded,
    /// The step failed, for the given reason.
    Failed(String),
}

/// The mathematical content of a [`SelfUpdateEvent`].
pub enum EventModel {
    Located { destination: Option<Seq<char>>, running: Option<Seq<char>> },
    Succeeded,
    Failed(Seq<char>),
}

impl View for SelfUpdateEvent {
    type V = EventModel;

    open spec fn view(&self) -> EventModel {
        match self {
            SelfUpdateEvent::Located { destination, running } => EventModel::Located {
                destination: match destination {
                    Some(path) => Some(path@),
                    None => None,
                },
                running: match running {
                    Some(path) => Some(path@),
                    None => None,
                },
            },
            SelfUpdateEvent::Succeeded => EventModel::Succeeded,
            SelfUpdateEvent::Failed(reason) => EventModel::Failed(reason@),
        }
    }
}

/// What the caller has to do next.
#[derive(Clone, Debug, PartialEq, Eq)]
pub enum SelfUpdateAction {
    /// Determine the canonical paths of the copy's destination and of the
    /// running program, and report them as `Located`.
    Locate { destination: String },
    /// Copy the file `from` to `to`.
    Stage { from: String, to: String },
    /// Start `program` with `arguments` and do not wait for it.
    Launch { program: String, arguments: Vec<String> },
    /// Nothing: the state is final.
    Stop,
}

/// The mathematical content of a [`SelfUpdateAction`].
pub enum ActionModel {
    Locate { destination: Seq<char> },
    Stage { from: Seq<char>, to: Seq<char> },
    Launch { program: Seq<char>, arguments: Seq<Seq<char>> },
    Stop,
}

impl View for SelfUpdateAction {
    type V = ActionModel;

    open spec fn view(&self) -> ActionModel {
        match self {
            SelfUpdateAction::Locate { destination } => ActionModel::Locate {
                destination: destination@,
            },
            SelfUpdateAction::Stage { from, to } => ActionModel::Stage { from: from@, to: to@ },
            SelfUpdateAction::Launch { program, arguments } => ActionModel::Launch {
                program: program@,
                arguments: texts(arguments@),
            },
            SelfUpdateAction::Stop => ActionModel::Stop,
        }
    }
}

/// The file in `temp_dir` that holds the helper.
pub open spec fn helper_file(temp_dir: Seq<char>, platform: Platform) -> Seq<char> {
    path_join(temp_dir, exe_file_name(platform, HELPER_NAME@))
}

/// The message of a self-update that failed because the running program
/// could not be copied.
pub open spec fn stage_failure_text(
    running: Seq<char>,
    helper: Seq<char>,
    reason: Seq<char>,
) -> Seq<char> {
    "Failed to self-update: could not copy "@ + running + " to "@ + helper + ": "@ + reason
}

/// The message of a self-update that failed because the helper could not be
/// started.
pub open spec fn launch_failure_text(helper: Seq<char>, reason: Seq<char>) -> Seq<char> {
    "Failed to self-update: could not start "@ + helper + ": "@ + reason
}

/// Whether a state is final.
pub open spec fn is_final(state: StateModel) -> bool {
    state is NotApplicable || state is Spawned || state is Failed
}

/// The number of steps that may still follow `state`.
pub open spec fn steps_left(state: StateModel) -> nat {
    match state {
        StateModel::Locating => 3,
        StateModel::Staging(_) => 2,
        StateModel::Launching => 1,
        _ => 0,
    }
}

/// The step that `state` asks for, in a self-update of `job` through the
/// helper file `helper`.
pub open spec fn action_in(job: JobModel, helper: Seq<char>, state: StateModel) -> ActionModel {
    match state {
        StateModel::Locating => ActionModel::Locate { destination: job.destination },
        StateModel::Staging(running) => ActionModel::Stage { from: running, to: helper },
        StateModel::Launching => ActionModel::Launch {
            program: helper,
            arguments: seq![FINISH_UPDATE_FLAG@, job.source, job.destination],
        },
        _ => ActionModel::Stop,
    }
}

/// The state that follows `state` on `event`. An event that does not answer
/// the step of the state leaves the state as it is.
pub open spec fn advanced(helper: Seq<char>, state: StateModel, event: EventModel) -> StateModel {
    match state {
        StateModel::Locating => match event {
            EventModel::Located { destination, running } => if is_running_program(
                destination,
                running,
            ) {
                StateModel::Staging(running->0)
            } else {
                StateModel::NotApplicable
            },
            _ => state,
        },
        StateModel::Staging(running) => match event {
            EventModel::Succeeded => StateModel::Launching,
            EventModel::Failed(reason) => StateModel::Failed(
                stage_failure_text(running, helper, reason),
            ),
            _ => state,
        },
        StateModel::Launching => match event {
            EventModel::Succeeded => StateModel::Spawned,
            EventModel::Failed(reason) => StateModel::Failed(launch_failure_text(helper, reason)),
            _ => state,
        },
        _ => state,
    }
}

/// A final state stays as it is whatever is reported, no event leads back,
/// and an event that answers the step of a state brings the end closer.
pub proof fn lemma_self_update_progress(helper: Seq<char>, state: StateModel, event: EventModel)
    ensures
        is_final(state) ==> advanced(helper, state, event) == state,
        steps_left(advanced(helper, state, event)) <= steps_left(state),
        advanced(helper, state, event) != state ==> steps_left(advanced(helper, state, event))
            < steps_left(state),
        is_final(state) <==> steps_left(state) == 0,
{
}

/// The helper is started only after the running program was found to be
/// the destination of the copy and was copied to the helper's place: `Spawned`
/// is entered from `Launching` alone, `Launching` from `Staging` alone, and
/// `Staging` only on a report that both paths are known and equal.
pub proof fn lemma_spawned_only_after_staging(
    helper: Seq<char>,
    state: StateModel,
    event: EventModel,
)
    ensures
        advanced(helper, state, event) is Spawned && !(state is Spawned) ==> state is Launching
            && event is Succeeded,
        advanced(helper, state, event) is Launching && !(state is Launching) ==> state
            is Staging && event is Succeeded,
        advanced(helper, state, event) is Staging && !(state is Staging) ==> {
            &&& state is Locating
            &&& event matches EventModel::Located { destination, running }
            &&& destination is Some
            &&& destination == running
        },
{
}

/// The file in `temp_dir` under which the helper is kept on `platform`.
/// The name is fixed, so a helper left behind by an interrupted update is found
/// there and can be removed.
pub fn helper_path(temp_dir: &str, platform: Platform) -> (path: String)
    ensures
        path@ == helper_file(temp_dir@, platform),
{
    let file_name = exe_filename_on(platform, HELPER_NAME);
    join(temp_dir, file_name.as_str())
}

impl SelfUpdateState {
    /// The state in which every self-update begins.
    pub fn start() -> (state: SelfUpdateState)
        ensures
            state@ == StateModel::Locating,
    {
        SelfUpdateState::Locating
    }

    /// Whether the self-update has ended.
    pub fn is_finished(&self) -> (finished: bool)
        ensures
            finished == is_final(self@),
    {
        match self {
            SelfUpdateState::NotApplicable => true,
            SelfUpdateState::Spawned => true,
            SelfUpdateState::Failed(_) => true,
            _ => false,
        }
    }

    /// The step to take in this state, for the deferred copy `job` and the
    /// helper file `helper`.
    pub fn action(&self, job: &CopyJob, helper: &str) -> (action: SelfUpdateAction)
        ensures
            action@ == action_in(job@, helper@, self@),
    {
        match self {
            SelfUpdateState::Locating => SelfUpdateAction::Locate {
                destination: job.destination.clone(),
            },
            SelfUpdateState::Staging(running) => SelfUpdateAction::Stage {
                from: running.clone(),
                to: helper.to_string(),
            },
            SelfUpdateState::Launching => {
                let mut arguments: Vec<String> = Vec::new();
                arguments.push(FINISH_UPDATE_FLAG.to_string());
                arguments.push(job.source.clone());
                arguments.push(job.destination.clone());
                assert(texts(arguments@) =~= seq![
                    FINISH_UPDATE_FLAG@,
                    job@.source,
                    job@.destination,
                ]);
                SelfUpdateAction::Launch { program: helper.to_string(), arguments }
            },
            _ => SelfUpdateAction::Stop,
        }
    }

    /// The state after `event`, in a self-update through the helper file
    /// `helper`.
    pub fn advance(self, helper: &str, event: SelfUpdateEvent) -> (next: SelfUpdateState)
        ensures
            next@ == advanced(helper@, self@, event@),
    {
        match self {
            SelfUpdateState::Locating => match event {
                SelfUpdateEvent::Located { destination, running } => {
                    let same = targets_running_program(
                        match &destination {
                            Some(path) => Some(path.as_str()),
                            None => None,
                        },
                        match &running {
                            Some(path) => Some(path.as_str()),
                            None => None,
                        },
                    );
                    match running {
                        Some(program) => {
                            if same {
                                SelfUpdateState::Staging(program)
                            } else {
                                SelfUpdateState::NotApplicable
                            }
                        },
                        None => SelfUpdateState::NotApplicable,
                    }
                },
                _ => SelfUpdateState::Locating,
            },
            SelfUpdateState::Staging(running) => match event {
                SelfUpdateEvent::Succeeded => SelfUpdateState::Launching,
                SelfUpdateEvent::Failed(reason) => {
                    let mut message = concatenate(
                        "Failed to self-update: could not copy ",
                        running.as_str(),
                    );
                    message.append(" to ");
                    message.append(helper);
                    message.append(": ");
                    message.append(reason.as_str());
                    SelfUpdateState::Failed(message)
                },
                _ => SelfUpdateState::Staging(running),
            },
            SelfUpdateState::Launching => match event {
                SelfUpdateEvent::Succeeded => SelfUpdateState::Spawned,
                SelfUpdateEvent::Failed(reason) => {
                    let mut message = concatenate(
                        "Failed to self-update: could not start ",
                        helper,
                    );
                    message.append(": ");
                    message.append(reason.as_str());
                    SelfUpdateState::Failed(message)
                },
                _ => SelfUpdateState::Launching,
            },
            SelfUpdateState::NotApplicable => SelfUpdateState::NotApplicable,
            SelfUpdateState::Spawned => SelfUpdateState::Spawned,
            SelfUpdateState::Failed(reason) => SelfUpdateState::Failed(reason),
        }
    }
}

/// `report` once the self-update of its deferred copy has ended in `state`:
/// a failed self-update is one more failed copy, under the name of the deferred
/// executable; any other state changes nothing.
pub open spec fn settled(report: ReportModel, state: StateModel) -> ReportModel {
    match (state, report.deferred) {
        (StateModel::Failed(reason), Some(job)) => ReportModel {
            failed: report.failed.push(FailureModel { binary: job.name, error: reason }),
            ..report
        },
        _ => report,
    }
}

/// Enters the end of a self-update into the report.
pub fn settle(report: &mut CopyReport, state: &SelfUpdateState)
    ensures
        final(report)@ == settled(old(report)@, state@),
{
    let ghost before = *report;
    match state {
        SelfUpdateState::Failed(reason) => {
            match &report.deferred {
                Some(job) => {
                    let binary = job.name.clone();
                    report.failed.push(FailedCopy { binary, error: reason.clone() });
                    assert(failures(report.failed@) =~= failures(before.failed@).push(
                        FailureModel { binary: before.deferred->0@.name, error: reason@ },
                    ));
                },
                None => {},
            }
        },
        _ => {},
    }
}

/// What the helper does after an attempt at the copy.
#[derive(Clone, Copy, Debug, PartialEq, Eq, Structural)]
pub enum RetryStep {
    /// The copy is done.
    Done,
    /// Wait for the given number of milliseconds, then try again.
    Retry { delay_ms: u64 },
    /// Every attempt has failed; the update is given up.
    GiveUp,
}

/// The helper's next step after its attempt number `attempt`, counted from
/// one. A success ends the loop. A failure is followed by a pause and another
/// attempt as long as fewer than [`MAX_ATTEMPTS`] were made.
pub open spec fn retry_step(attempt: u32, succeeded: bool) -> RetryStep {
    if succeeded {
        RetryStep::Done
    } else if attempt < MAX_ATTEMPTS {
        RetryStep::Retry { delay_ms: RETRY_DELAY_MS }
    } else {
        RetryStep::GiveUp
    }
}

/// Decides what the helper does after its attempt number `attempt`.
pub fn after_attempt(attempt: u32, succeeded: bool) -> (step: RetryStep)
    ensures
        step == retry_step(attempt, succeeded),
{
    if succeeded {
        RetryStep::Done
    } else if attempt < MAX_ATTEMPTS {
        RetryStep::Retry { delay_ms: RETRY_DELAY_MS }
    } else {
        RetryStep::GiveUp
    }
}

} // verus!
