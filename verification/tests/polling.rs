use runwatch::polling::{
    adaptive_probe_interval, batchable_v2_lsf, batchable_v2_slurm, observation_is_due,
};
use runwatch::time::Timestamp;
use runwatch::types::{
    ObservationHealth, ObservationRecord, ObservationSource, RunAttemptRecord, RunRecord,
    RunStatus, RunnerKind,
};

fn clock() -> Timestamp {
    Timestamp::from_seconds(1_790_000_000)
}

fn run(status: RunStatus, runner: RunnerKind) -> RunRecord {
    let mut run = RunRecord::new("r-poll".into(), "cluster".into(), runner, clock());
    run.status = status;
    run.attempt_no = Some(1);
    run
}

fn observation(
    now: Timestamp,
    health: ObservationHealth,
    status: RunStatus,
) -> ObservationRecord {
    ObservationRecord {
        run_id: "r-poll".into(),
        attempt_no: 1,
        observed_at: now,
        source: ObservationSource::Scheduler,
        health,
        execution_status: status,
        raw_state: None,
        reason: None,
        command_exit_code: Some(0),
    }
}

#[test]
fn slurm_batch_eligibility_requires_matching_durable_v2_attempt() {
    let mut rec = run(RunStatus::Running, RunnerKind::Slurm);
    rec.job_id = Some("123".into());
    rec.remote_terminal = Some("/shared/r/terminal.json".into());
    let now = clock();
    let attempt = RunAttemptRecord {
        run_id: rec.run_id.clone(),
        attempt_no: 1,
        runner: RunnerKind::Slurm,
        host: rec.host.clone(),
        workdir: "/shared/r".into(),
        command: "true".into(),
        resources: Default::default(),
        job_name: "rw".into(),
        job_id: Some("123".into()),
        script_path: "/shared/r/a.sh".into(),
        stdout_path: "/shared/r/stdout".into(),
        stderr_path: "/shared/r/stderr".into(),
        terminal_path: "/shared/r/terminal.json".into(),
        receipt_path: "/shared/r/receipt".into(),
        status: RunStatus::Running,
        created_at: now,
        updated_at: now,
        error: None,
    };
    assert!(batchable_v2_slurm(&rec, Some(&attempt)));
    let mut mismatch = attempt.clone();
    mismatch.job_id = Some("999".into());
    assert!(!batchable_v2_slurm(&rec, Some(&mismatch)));
    assert!(!batchable_v2_slurm(&rec, None));
}

#[test]
fn lsf_batch_eligibility_requires_matching_durable_v2_attempt() {
    let mut rec = run(RunStatus::Running, RunnerKind::Lsf);
    rec.job_id = Some("456".into());
    rec.remote_terminal = Some("/shared/r/terminal.json".into());
    let now = clock();
    let attempt = RunAttemptRecord {
        run_id: rec.run_id.clone(),
        attempt_no: 1,
        runner: RunnerKind::Lsf,
        host: rec.host.clone(),
        workdir: "/shared/r".into(),
        command: "true".into(),
        resources: Default::default(),
        job_name: "rw".into(),
        job_id: Some("456".into()),
        script_path: "/shared/r/a.sh".into(),
        stdout_path: "/shared/r/stdout".into(),
        stderr_path: "/shared/r/stderr".into(),
        terminal_path: "/shared/r/terminal.json".into(),
        receipt_path: "/shared/r/receipt".into(),
        status: RunStatus::Running,
        created_at: now,
        updated_at: now,
        error: None,
    };
    assert!(batchable_v2_lsf(&rec, Some(&attempt)));
    let mut mismatch = attempt.clone();
    mismatch.terminal_path = "/other".into();
    assert!(!batchable_v2_lsf(&rec, Some(&mismatch)));
    assert!(!batchable_v2_lsf(&rec, None));
}

#[test]
fn adaptive_polling_is_conservative_for_queued_and_local_process_runs() {
    let base = 20;
    assert_eq!(
        adaptive_probe_interval(&run(RunStatus::Queued, RunnerKind::Slurm), None, base),
        base
    );
    assert_eq!(
        adaptive_probe_interval(&run(RunStatus::Running, RunnerKind::Process), None, base),
        base
    );
}

#[test]
fn adaptive_polling_slows_remote_running_and_unreachable_runs_with_cap() {
    let base = 20;
    let running = run(RunStatus::Running, RunnerKind::Slurm);
    assert_eq!(
        adaptive_probe_interval(&running, None, base),
        40
    );
    let now = clock();
    let unreachable = observation(now, ObservationHealth::Unreachable, RunStatus::Running);
    assert_eq!(
        adaptive_probe_interval(&running, Some(&unreachable), base),
        80
    );
    let large_base = 120;
    assert_eq!(
        adaptive_probe_interval(&running, Some(&unreachable), large_base),
        300
    );
}

#[test]
fn due_decision_uses_observation_age_without_changing_explicit_tick() {
    let now = clock();
    let run = run(RunStatus::Running, RunnerKind::Slurm);
    let recent = observation(
        now.plus_seconds(-39),
        ObservationHealth::Fresh,
        RunStatus::Running,
    );
    assert!(!observation_is_due(
        &run,
        Some(&recent),
        now,
        20
    ));
    let due = observation(
        now.plus_seconds(-40),
        ObservationHealth::Fresh,
        RunStatus::Running,
    );
    assert!(observation_is_due(
        &run,
        Some(&due),
        now,
        20
    ));
    assert!(observation_is_due(&run, None, now, 20));
}
