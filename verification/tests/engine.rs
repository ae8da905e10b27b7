use mdrcp::artifacts::{collect_candidates, find_built_executables, require_built};
use mdrcp::destination::{resolve_destination, Environment};
use mdrcp::engine::{
    copied, copy_failed, deferred, plan_copies, plan_copy, targets_running_program, CopyJob,
    CopyOutcome, CopyReport, FailedCopy, NextStep,
};
use mdrcp::manifest::decode_manifest;
use mdrcp::messages::REDUNDANT_OVERRIDE;
use mdrcp::self_update::{
    after_attempt, helper_path, settle, RetryStep, SelfUpdateAction, SelfUpdateEvent,
    SelfUpdateState, FINISH_UPDATE_FLAG, HELPER_NAME, MAX_ATTEMPTS, RETRY_DELAY_MS,
};
use mdrcp::summary::{close_run, exit_code, Status};
use mdrcp::{parse_args, BuildProfile, Command, DeployError, Platform, RunOptions};

fn strings(items: &[&str]) -> Vec<String> {
    items.iter().map(|item| item.to_string()).collect()
}

fn job(name: &str) -> CopyJob {
    plan_copy("/p", "/out", BuildProfile::Release, Platform::Unix, name)
}

fn unix(home: &str) -> Environment {
    Environment { platform: Platform::Unix, home: Some(home.to_string()), target_dir: None }
}

#[test]
fn plan_copy_names_source_and_destination() {
    assert_eq!(
        plan_copy("/p", "/out", BuildProfile::Release, Platform::Unix, "demo"),
        CopyJob {
            name: "demo".to_string(),
            file_name: "demo".to_string(),
            source: "/p/target/release/demo".to_string(),
            destination: "/out/demo".to_string(),
        }
    );
    assert_eq!(
        plan_copy("/p", "/out", BuildProfile::Debug, Platform::Windows, "demo"),
        CopyJob {
            name: "demo".to_string(),
            file_name: "demo.exe".to_string(),
            source: "/p/target/debug/demo.exe".to_string(),
            destination: "/out/demo.exe".to_string(),
        }
    );
    assert_eq!(job("demo").duplicate(), job("demo"));
}

#[test]
fn plan_copies_keeps_the_order_of_the_names() {
    let planned = plan_copies(
        "/p",
        "/out",
        BuildProfile::Release,
        Platform::Unix,
        &strings(&["b", "a"]),
    );
    assert_eq!(planned, vec![job("b"), job("a")]);
    assert!(plan_copies("/p", "/out", BuildProfile::Release, Platform::Unix, &Vec::new())
        .is_empty());
    assert_eq!(
        plan_copies("/p", "/out", BuildProfile::Release, Platform::Unix, &strings(&["b", "a"])),
        planned
    );
}

#[test]
fn running_program_is_matched_by_canonical_path() {
    assert!(targets_running_program(Some("/out/demo"), Some("/out/demo")));
    assert!(!targets_running_program(Some("/out/demo"), Some("/out/other")));
    assert!(!targets_running_program(None, Some("/out/demo")));
    assert!(!targets_running_program(Some("/out/demo"), None));
    assert!(!targets_running_program(None, None));
}

#[test]
fn outcomes_carry_the_paths_of_their_job() {
    let demo = job("demo");
    assert_eq!(copied(&demo), CopyOutcome::Copied("/out/demo".to_string()));
    assert_eq!(
        copy_failed(&demo, "Is a directory (os error 21)"),
        CopyOutcome::Failed(
            "Failed to copy /p/target/release/demo to /out/demo: Is a directory (os error 21)"
                .to_string()
        )
    );
    assert_eq!(
        deferred(&demo),
        CopyOutcome::DeferredForSelfUpdate(
            "/p/target/release/demo".to_string(),
            "/out/demo".to_string()
        )
    );
}

#[test]
fn every_artifact_is_recorded_whatever_came_before() {
    let mut report = CopyReport::new();
    assert_eq!(report.copied_count(), 0);
    report.record(&job("a"), copy_failed(&job("a"), "denied"));
    report.record(&job("b"), copied(&job("b")));
    report.record(&job("c"), copy_failed(&job("c"), "full"));
    report.record(&job("d"), copied(&job("d")));
    assert_eq!(report.copied, strings(&["b", "d"]));
    assert_eq!(report.copied_count(), 2);
    assert_eq!(
        report.failed,
        vec![
            FailedCopy {
                binary: "a".to_string(),
                error: "Failed to copy /p/target/release/a to /out/a: denied".to_string(),
            },
            FailedCopy {
                binary: "c".to_string(),
                error: "Failed to copy /p/target/release/c to /out/c: full".to_string(),
            },
        ]
    );
    assert_eq!(report.deferred, None);
    assert_eq!(report.conclude(), NextStep::Finish);
    assert_eq!(report.verdict(), Err(DeployError::CopiesFailed { copied: 2, failed: 2 }));
    assert_eq!(
        report.verdict().unwrap_err().message(),
        "Failed to copy 2 of 4 executables (copied 2 successfully)"
    );
}

#[test]
fn running_the_engine_again_reports_the_same() {
    let names = strings(&["a", "b"]);
    let mut counts = Vec::new();
    for _ in 0..2 {
        let jobs = plan_copies("/p", "/out", BuildProfile::Release, Platform::Unix, &names);
        let mut report = CopyReport::new();
        for planned in &jobs {
            report.record(planned, copied(planned));
        }
        assert_eq!(report.conclude(), NextStep::Finish);
        assert_eq!(report.verdict(), Ok(()));
        counts.push((report.copied_count(), report.copied.clone()));
    }
    assert_eq!(counts[0], counts[1]);
    assert_eq!(counts[0].0, 2);
}

#[test]
fn deferred_copy_is_handed_to_self_update_when_nothing_failed() {
    let mut report = CopyReport::new();
    report.record(&job("a"), copied(&job("a")));
    report.record(&job("mdrcp"), deferred(&job("mdrcp")));
    report.record(&job("c"), copied(&job("c")));
    assert_eq!(report.copied, strings(&["a", "c"]));
    assert_eq!(report.deferred, Some(job("mdrcp")));
    assert_eq!(report.conclude(), NextStep::SelfUpdate(job("mdrcp")));
    assert!(report.failed.is_empty());
    assert_eq!(report.deferred, Some(job("mdrcp")));
    assert_eq!(report.verdict(), Ok(()));
}

#[test]
fn deferred_copy_is_skipped_when_another_copy_failed() {
    let mut report = CopyReport::new();
    report.record(&job("mdrcp"), deferred(&job("mdrcp")));
    report.record(&job("b"), copy_failed(&job("b"), "denied"));
    assert_eq!(report.conclude(), NextStep::Finish);
    assert_eq!(report.deferred, None);
    assert_eq!(report.failed.len(), 2);
    assert_eq!(
        report.failed[1],
        FailedCopy {
            binary: "mdrcp".to_string(),
            error: "Self-update of /out/mdrcp skipped due to other failures".to_string(),
        }
    );
    assert!(report.failed[1].error.contains("skipped due to other failures"));
    assert_eq!(report.verdict(), Err(DeployError::CopiesFailed { copied: 0, failed: 2 }));
    assert_eq!(report.conclude(), NextStep::Finish);
    assert_eq!(report.failed.len(), 2);
}

#[test]
fn second_deferral_counts_as_a_failure() {
    let mut report = CopyReport::new();
    report.record(&job("one"), deferred(&job("one")));
    report.record(&job("two"), deferred(&job("two")));
    assert_eq!(report.deferred, Some(job("one")));
    assert_eq!(
        report.failed,
        vec![FailedCopy {
            binary: "two".to_string(),
            error: "Cannot update /out/two: another self-update is already pending".to_string(),
        }]
    );
    assert_eq!(report.conclude(), NextStep::Finish);
    assert_eq!(report.failed.len(), 2);
}

#[test]
fn conclude_without_deferral_changes_nothing() {
    let mut report = CopyReport::new();
    report.record(&job("a"), copied(&job("a")));
    let before = report.clone();
    assert_eq!(report.conclude(), NextStep::Finish);
    assert_eq!(report, before);
}

#[test]
fn helper_lies_in_the_temp_dir_under_a_fixed_name() {
    assert_eq!(HELPER_NAME, "mdrcp-self-update");
    assert_eq!(helper_path("/tmp", Platform::Unix), "/tmp/mdrcp-self-update");
    assert_eq!(helper_path("/tmp", Platform::Windows), "/tmp/mdrcp-self-update.exe");
}

#[test]
fn self_update_runs_through_locate_stage_launch() {
    let pending = job("mdrcp");
    let helper = helper_path("/tmp", Platform::Unix);
    let state = SelfUpdateState::start();
    assert!(!state.is_finished());
    assert_eq!(
        state.action(&pending, &helper),
        SelfUpdateAction::Locate { destination: "/out/mdrcp".to_string() }
    );
    let state = state.advance(
        &helper,
        SelfUpdateEvent::Located {
            destination: Some("/real/out/mdrcp".to_string()),
            running: Some("/real/out/mdrcp".to_string()),
        },
    );
    assert_eq!(state, SelfUpdateState::Staging("/real/out/mdrcp".to_string()));
    assert_eq!(
        state.action(&pending, &helper),
        SelfUpdateAction::Stage {
            from: "/real/out/mdrcp".to_string(),
            to: "/tmp/mdrcp-self-update".to_string(),
        }
    );
    let state = state.advance(&helper, SelfUpdateEvent::Succeeded);
    assert_eq!(state, SelfUpdateState::Launching);
    assert_eq!(
        state.action(&pending, &helper),
        SelfUpdateAction::Launch {
            program: "/tmp/mdrcp-self-update".to_string(),
            arguments: strings(&["--finish-update", "/p/target/release/mdrcp", "/out/mdrcp"]),
        }
    );
    let state = state.advance(&helper, SelfUpdateEvent::Succeeded);
    assert_eq!(state, SelfUpdateState::Spawned);
    assert!(state.is_finished());
    assert_eq!(state.action(&pending, &helper), SelfUpdateAction::Stop);
}

#[test]
fn launch_arguments_are_read_back_as_finish_update() {
    let pending = job("mdrcp");
    let action = SelfUpdateState::Launching.action(&pending, "/tmp/h");
    match action {
        SelfUpdateAction::Launch { arguments, .. } => {
            assert_eq!(arguments[0], FINISH_UPDATE_FLAG);
            assert_eq!(
                parse_args(&arguments),
                Ok(Command::FinishUpdate {
                    source: pending.source.clone(),
                    destination: pending.destination.clone(),
                })
            );
        }
        other => panic!("unexpected action: {:?}", other),
    }
}

#[test]
fn self_update_does_not_apply_to_another_program() {
    let helper = "/tmp/h";
    let unknown = SelfUpdateState::start().advance(
        helper,
        SelfUpdateEvent::Located { destination: Some("/out/x".to_string()), running: None },
    );
    assert_eq!(unknown, SelfUpdateState::NotApplicable);
    let other = SelfUpdateState::start().advance(
        helper,
        SelfUpdateEvent::Located {
            destination: Some("/out/x".to_string()),
            running: Some("/usr/bin/y".to_string()),
        },
    );
    assert_eq!(other, SelfUpdateState::NotApplicable);
    let missing = SelfUpdateState::start().advance(
        helper,
        SelfUpdateEvent::Located { destination: None, running: Some("/usr/bin/y".to_string()) },
    );
    assert_eq!(missing, SelfUpdateState::NotApplicable);
    assert!(missing.is_finished());
}

#[test]
fn self_update_fails_when_staging_or_launching_fails() {
    let helper = "/tmp/h";
    let staged = SelfUpdateState::Staging("/out/x".to_string())
        .advance(helper, SelfUpdateEvent::Failed("disk full".to_string()));
    assert_eq!(
        staged,
        SelfUpdateState::Failed(
            "Failed to self-update: could not copy /out/x to /tmp/h: disk full".to_string()
        )
    );
    let launched = SelfUpdateState::Launching
        .advance(helper, SelfUpdateEvent::Failed("Exec format error".to_string()));
    assert_eq!(
        launched,
        SelfUpdateState::Failed(
            "Failed to self-update: could not start /tmp/h: Exec format error".to_string()
        )
    );
    assert!(launched.is_finished());
}

#[test]
fn events_that_answer_no_step_change_nothing() {
    let helper = "/tmp/h";
    assert_eq!(
        SelfUpdateState::Locating.advance(helper, SelfUpdateEvent::Succeeded),
        SelfUpdateState::Locating
    );
    assert_eq!(
        SelfUpdateState::Locating.advance(helper, SelfUpdateEvent::Failed("x".to_string())),
        SelfUpdateState::Locating
    );
    let located = SelfUpdateEvent::Located {
        destination: Some("/a".to_string()),
        running: Some("/a".to_string()),
    };
    assert_eq!(
        SelfUpdateState::Staging("/a".to_string()).advance(helper, located.clone()),
        SelfUpdateState::Staging("/a".to_string())
    );
    assert_eq!(
        SelfUpdateState::Launching.advance(helper, located.clone()),
        SelfUpdateState::Launching
    );
    assert_eq!(
        SelfUpdateState::Spawned.advance(helper, SelfUpdateEvent::Failed("x".to_string())),
        SelfUpdateState::Spawned
    );
    assert_eq!(
        SelfUpdateState::NotApplicable.advance(helper, located),
        SelfUpdateState::NotApplicable
    );
    assert_eq!(
        SelfUpdateState::Failed("why".to_string()).advance(helper, SelfUpdateEvent::Succeeded),
        SelfUpdateState::Failed("why".to_string())
    );
}

#[test]
fn failed_self_update_becomes_a_failed_copy() {
    let mut report = CopyReport::new();
    report.record(&job("myapp"), deferred(&job("myapp")));
    assert_eq!(report.conclude(), NextStep::SelfUpdate(job("myapp")));
    let state = SelfUpdateState::Launching
        .advance("/tmp/h", SelfUpdateEvent::Failed("Exec format error".to_string()));
    settle(&mut report, &state);
    assert_eq!(report.failed.len(), 1);
    assert_eq!(report.failed[0].binary, "myapp");
    assert!(report.failed[0].error.contains("Failed to self-update"));
    assert_eq!(report.verdict(), Err(DeployError::CopiesFailed { copied: 0, failed: 1 }));
    assert_eq!(exit_code(&report.verdict()), 1);
}

#[test]
fn spawned_or_inapplicable_self_update_leaves_the_report() {
    let mut report = CopyReport::new();
    report.record(&job("a"), copied(&job("a")));
    report.record(&job("myapp"), deferred(&job("myapp")));
    let before = report.clone();
    settle(&mut report, &SelfUpdateState::Spawned);
    assert_eq!(report, before);
    settle(&mut report, &SelfUpdateState::NotApplicable);
    assert_eq!(report, before);
    let mut plain = CopyReport::new();
    settle(&mut plain, &SelfUpdateState::Failed("x".to_string()));
    assert_eq!(plain, CopyReport::new());
}

#[test]
fn helper_retries_a_bounded_number_of_times() {
    assert_eq!(MAX_ATTEMPTS, 10);
    assert_eq!(RETRY_DELAY_MS, 500);
    assert_eq!(after_attempt(1, true), RetryStep::Done);
    assert_eq!(after_attempt(10, true), RetryStep::Done);
    assert_eq!(after_attempt(1, false), RetryStep::Retry { delay_ms: 500 });
    assert_eq!(after_attempt(9, false), RetryStep::Retry { delay_ms: 500 });
    assert_eq!(after_attempt(10, false), RetryStep::GiveUp);
    assert_eq!(after_attempt(11, false), RetryStep::GiveUp);
    let mut attempt = 0;
    let mut waits = 0;
    loop {
        attempt += 1;
        match after_attempt(attempt, false) {
            RetryStep::Retry { .. } => waits += 1,
            RetryStep::GiveUp => break,
            RetryStep::Done => panic!("no attempt succeeded"),
        }
    }
    assert_eq!(attempt, 10);
    assert_eq!(waits, 9);
}

#[test]
fn single_package_with_relative_override() {
    let root = decode_manifest("[package]\nname=\"demo\"\nversion=\"0.1.0\"").unwrap();
    let candidates = collect_candidates(&root, &Vec::new(), &Vec::new()).unwrap();
    let built = find_built_executables(&candidates, &strings(&["demo"]), Platform::Unix);
    let built = require_built(built, BuildProfile::Release).unwrap();
    let mut options = RunOptions::default();
    options.target_override = Some("custom/bin".to_string());
    options.quiet = true;
    let target = resolve_destination(
        "/work/project",
        options.target_override.as_deref(),
        &unix("/home/u"),
    )
    .unwrap();
    let jobs = plan_copies(
        "/work/project",
        &target.dir,
        options.profile,
        Platform::Unix,
        &built,
    );
    let mut report = CopyReport::new();
    for planned in &jobs {
        assert!(!targets_running_program(None, Some("/usr/bin/mdrcp")));
        report.record(planned, copied(planned));
    }
    assert_eq!(report.conclude(), NextStep::Finish);
    let closing = close_run(&options, &report, &target);
    assert_eq!(closing.summary.status, Status::Success);
    assert_eq!(closing.summary.status.as_str(), "ok");
    assert_eq!(closing.summary.copied_count, 1);
    assert!(closing.summary.target_dir.ends_with("custom/bin"));
    assert_eq!(closing.summary.target_dir, "/work/project/custom/bin");
    assert_eq!(closing.summary.copied_binaries, strings(&["demo"]));
    assert!(closing.summary.override_used);
    assert!(closing.summary.warnings.is_empty());
    assert!(closing.summary.failed_binaries.is_empty());
    assert_eq!(exit_code(&report.verdict()), 0);
}

#[test]
fn workspace_with_two_of_three_members_built() {
    let root = decode_manifest("[workspace]\nmembers=[\"a\",\"b\",\"c\"]").unwrap();
    let members: Vec<Option<String>> = ["a", "b", "c"]
        .iter()
        .map(|name| Some(format!("[package]\nname=\"{}\"\nversion=\"0.1.0\"", name)))
        .collect();
    let candidates = collect_candidates(&root, &Vec::new(), &members).unwrap();
    let built = find_built_executables(&candidates, &strings(&["a", "c"]), Platform::Unix);
    assert_eq!(built, strings(&["a", "c"]));
    let built = require_built(built, BuildProfile::Release).unwrap();
    let options = RunOptions::default();
    let target = resolve_destination("/ws", None, &unix("/home/u")).unwrap();
    let jobs = plan_copies("/ws", &target.dir, options.profile, Platform::Unix, &built);
    let mut report = CopyReport::new();
    for planned in &jobs {
        report.record(planned, copied(planned));
    }
    assert_eq!(report.conclude(), NextStep::Finish);
    assert_eq!(report.verdict(), Ok(()));
    let closing = close_run(&options, &report, &target);
    assert_eq!(closing.summary.copied_count, 2);
    assert_eq!(closing.summary.target_dir, "/home/u/.local/bin");
}

#[test]
fn override_equal_to_the_default_is_flagged_as_redundant() {
    let mut options = RunOptions::default();
    options.target_override = Some("/home/u/.local/bin".to_string());
    options.quiet = true;
    let target = resolve_destination(
        "/work/project",
        options.target_override.as_deref(),
        &unix("/home/u"),
    )
    .unwrap();
    let mut report = CopyReport::new();
    report.record(&job("demo"), copied(&job("demo")));
    let closing = close_run(&options, &report, &target);
    assert_eq!(closing.summary.warnings, vec![REDUNDANT_OVERRIDE.to_string()]);
    assert!(closing.summary.warnings[0].contains("override may be redundant"));
    assert!(closing.summary.override_used);
}

#[test]
fn replacing_the_running_program_ends_with_the_helper_spawned() {
    let demo = plan_copy("/p", "/install", BuildProfile::Release, Platform::Unix, "myapp");
    let running = Some("/install/myapp");
    let mut report = CopyReport::new();
    let mut copies_made = 0;
    if targets_running_program(Some("/install/myapp"), running) {
        report.record(&demo, deferred(&demo));
    } else {
        copies_made += 1;
        report.record(&demo, copied(&demo));
    }
    assert_eq!(copies_made, 0);
    let pending = match report.conclude() {
        NextStep::SelfUpdate(pending) => pending,
        NextStep::Finish => panic!("the deferred copy was dropped"),
    };
    assert_eq!(pending, demo);
    let helper = helper_path("/tmp", Platform::Unix);
    let mut state = SelfUpdateState::start();
    let mut steps = Vec::new();
    while !state.is_finished() {
        let event = match state.action(&pending, &helper) {
            SelfUpdateAction::Locate { .. } => SelfUpdateEvent::Located {
                destination: Some("/install/myapp".to_string()),
                running: running.map(|path| path.to_string()),
            },
            SelfUpdateAction::Stage { .. } => SelfUpdateEvent::Succeeded,
            SelfUpdateAction::Launch { .. } => SelfUpdateEvent::Succeeded,
            SelfUpdateAction::Stop => panic!("stopped before the end"),
        };
        steps.push(event.clone());
        state = state.advance(&helper, event);
    }
    assert_eq!(steps.len(), 3);
    assert_eq!(state, SelfUpdateState::Spawned);
    settle(&mut report, &state);
    assert!(report.copied.is_empty());
    assert!(report.failed.is_empty());
    assert_eq!(report.verdict(), Ok(()));
    assert_eq!(exit_code(&report.verdict()), 0);
}

#[test]
fn reports_list_candidate_names_on_every_platform() {
    for platform in [Platform::Unix, Platform::Windows] {
        let jobs = plan_copies(
            "/p",
            "/out",
            BuildProfile::Release,
            platform,
            &strings(&["demo", "tool", "self"]),
        );
        let mut report = CopyReport::new();
        report.record(&jobs[0], copied(&jobs[0]));
        report.record(&jobs[1], copy_failed(&jobs[1], "denied"));
        report.record(&jobs[2], deferred(&jobs[2]));
        assert_eq!(report.copied, strings(&["demo"]));
        assert_eq!(report.failed[0].binary, "tool");
        assert_eq!(report.deferred.as_ref().unwrap().name, "self");
        assert_eq!(report.conclude(), NextStep::Finish);
        assert_eq!(report.failed[1].binary, "self");
    }
    let windows = plan_copy("/p", "/out", BuildProfile::Release, Platform::Windows, "demo");
    assert_eq!(windows.name, "demo");
    assert_eq!(windows.file_name, "demo.exe");
    assert_eq!(windows.source, "/p/target/release/demo.exe");
    assert_eq!(windows.destination, "/out/demo.exe");
    assert_eq!(
        copy_failed(&windows, "denied"),
        CopyOutcome::Failed(
            "Failed to copy /p/target/release/demo.exe to /out/demo.exe: denied".to_string()
        )
    );
}
