use runwatch::operations::{artifacts_run, cancel_run, finish_cancel, logs_run, CancelStep, LogSource};
use runwatch::paths::PathStyle;
use runwatch::polling::answers::{
    absorb_answer, absorb_local, absorb_lsf_batch, absorb_slurm_batch, failed_tick, finish_tick,
    poll_step, probe_run, PollStep, Selection, Tally,
};
use runwatch::polling::{due_runs, plan_batches, slurm_batch_question};
use runwatch::store::RunStore;
use runwatch::submission::{ExecOutput, ExecResult, TransportError};
use runwatch::time::Timestamp;
use runwatch::types::{
    ObservationHealth, RemoteWorkspaceRef, RunAttemptRecord, RunRecord, RunResources, RunStatus,
    RunnerKind,
};

fn clock() -> Timestamp {
    Timestamp::from_seconds(1_790_000_000)
}

fn run(id: &str, runner: RunnerKind, job: &str) -> RunRecord {
    let mut run = RunRecord::new(id.into(), "gm00".into(), runner, clock());
    run.status = RunStatus::Running;
    run.job_id = Some(job.into());
    run.attempt_no = Some(1);
    run.remote_terminal = Some(format!("/work/{id}/terminal.json"));
    run.workspace = Some(RemoteWorkspaceRef {
        host_alias: "gm00".into(),
        cwd: "/work".into(),
    });
    run
}

fn attempt(run: &RunRecord) -> RunAttemptRecord {
    RunAttemptRecord {
        run_id: run.run_id.clone(),
        attempt_no: 1,
        runner: run.runner,
        host: run.host.clone(),
        workdir: "/work".into(),
        command: "true".into(),
        resources: RunResources::default(),
        job_name: "rw".into(),
        job_id: run.job_id.clone(),
        script_path: "/work/run.sh".into(),
        stdout_path: "/work/stdout.log".into(),
        stderr_path: "/work/stderr.log".into(),
        terminal_path: format!("/work/{}/terminal.json", run.run_id),
        receipt_path: "/work/receipt".into(),
        status: run.status,
        created_at: clock(),
        updated_at: clock(),
        error: None,
    }
}

fn store_of(runs: &[RunRecord]) -> RunStore {
    let mut store = RunStore::open_default("/data", PathStyle::Posix);
    for run in runs {
        store.persist_run_attempt_event(run, &attempt(run), "submitted");
    }
    store
}

fn output(stdout: &str) -> ExecResult {
    ExecResult::Output(ExecOutput {
        code: Some(0),
        stdout: stdout.into(),
        stderr: String::new(),
    })
}

fn failure() -> ExecResult {
    ExecResult::Failure(TransportError {
        brief: "timeout".into(),
        full: "ssh timeout".into(),
    })
}

#[test]
fn answer_moves_a_run_and_failure_does_not() {
    let rec = run("r1", RunnerKind::Slurm, "101");
    let mut store = store_of(&[rec.clone()]);
    let mut tally = Tally::new();
    absorb_answer(&mut store, &rec, &failure(), &mut tally, clock());
    assert_eq!(store.get("r1").unwrap().status, RunStatus::Running);
    assert_eq!(
        store.get_observation("r1", 1).unwrap().health,
        ObservationHealth::Unreachable
    );
    assert_eq!(tally.errors.len(), 1);
    assert!(tally.transitions.is_empty());

    absorb_answer(
        &mut store,
        &rec,
        &output("__RUNWATCH_SCHEDULER__\nCOMPLETED\n"),
        &mut tally,
        clock(),
    );
    assert_eq!(store.get("r1").unwrap().status, RunStatus::Succeeded);
    assert_eq!(store.get_attempt("r1", 1).unwrap().status, RunStatus::Running);
    assert_eq!(tally.transitions.len(), 1);
    assert_eq!(tally.transitions[0].from, RunStatus::Running);
    assert_eq!(tally.transitions[0].to, RunStatus::Succeeded);
}

#[test]
fn local_look_is_absorbed_like_any_other() {
    let mut rec = run("r1", RunnerKind::Process, "local:42:0000000000000007");
    rec.host = "local".into();
    let mut store = store_of(&[rec.clone()]);
    let mut tally = Tally::new();
    absorb_local(&mut store, &rec, &Err("no handle".into()), &mut tally, clock());
    assert_eq!(store.get("r1").unwrap().status, RunStatus::Running);
    absorb_local(&mut store, &rec, &Ok(RunStatus::Failed), &mut tally, clock());
    assert_eq!(store.get("r1").unwrap().status, RunStatus::Failed);
}

#[test]
fn one_question_answers_a_whole_host() {
    let a = run("a", RunnerKind::Slurm, "101");
    let b = run("b", RunnerKind::Slurm, "102");
    let mut store = store_of(&[a, b]);
    let due = due_runs(&store, clock(), 20);
    assert_eq!(due.len(), 2);
    let groups = plan_batches(&store, &due, RunnerKind::Slurm);
    assert_eq!(groups.len(), 1);
    let question = slurm_batch_question(&groups[0]).unwrap();
    assert_eq!(question.host, "gm00");
    let mut tally = Tally::new();
    absorb_slurm_batch(
        &mut store,
        &groups[0],
        &output(
            "__RUNWATCH_BATCH_SQUEUE_BEGIN__\n101|RUNNING\n__RUNWATCH_BATCH_SQUEUE_END__|0\n__RUNWATCH_BATCH_SACCT_BEGIN__\n102|FAILED|\n__RUNWATCH_BATCH_SACCT_END__|0\n",
        ),
        &mut tally,
        clock(),
    );
    assert_eq!(store.get("a").unwrap().status, RunStatus::Running);
    assert_eq!(store.get("b").unwrap().status, RunStatus::Failed);
    assert_eq!(tally.transitions.len(), 1);
    assert!(due_runs(&store, clock(), 20).is_empty());
}

#[test]
fn run_that_a_batch_does_not_list_is_asked_about_alone() {
    let a = run("a", RunnerKind::Lsf, "201");
    let b = run("b", RunnerKind::Lsf, "202");
    let mut store = store_of(&[a.clone(), b.clone()]);
    let due = due_runs(&store, clock(), 20);
    let groups = plan_batches(&store, &due, RunnerKind::Lsf);
    let mut tally = Tally::new();
    let handled = absorb_lsf_batch(
        &mut store,
        &groups[0],
        &output("__RUNWATCH_BATCH_BJOBS_BEGIN__\n201 RUN\n__RUNWATCH_BATCH_BJOBS_END__|255\n"),
        &mut tally,
        clock(),
    );
    assert_eq!(handled, ["a"]);
    let rest = Selection::Due { due, handled };
    assert!(!rest.takes(&a));
    assert!(rest.takes(&b));
    assert!(matches!(
        poll_step(&mut store, &b, &rest, clock()),
        PollStep::Remote { .. }
    ));
    assert!(matches!(
        poll_step(&mut store, &a, &rest, clock()),
        PollStep::Skip
    ));
}

#[test]
fn reports_tell_runs_transitions_and_errors() {
    let store = store_of(&[run("a", RunnerKind::Slurm, "101")]);
    let report = finish_tick(&store, Tally::new());
    assert_eq!(report.runs.len(), 1);
    let report = failed_tick(&store, "ssh config is missing");
    assert_eq!(report.errors, ["ssh config is missing"]);
    assert!(matches!(probe_run(&store, "a"), Ok(Selection::One(_))));
    assert!(probe_run(&store, "zz").is_err());
}

#[test]
fn logs_and_artifacts_follow_the_attempt() {
    let store = store_of(&[run("a", RunnerKind::Slurm, "101")]);
    let request = logs_run(&store, "a", None, Some(9999)).unwrap();
    assert_eq!(request.tail_lines, 500);
    match &request.source {
        LogSource::Remote {
            host,
            stdout_command,
            ..
        } => {
            assert_eq!(host, "gm00");
            assert!(stdout_command.contains("'/work/stdout.log'"));
        }
        LogSource::Local { .. } => panic!("the run is on a host"),
    }
    let logs = request.answer("out".into(), "err".into());
    assert_eq!(logs.stdout, "out");
    assert_eq!(logs.byte_limit_per_stream, 65_536);
    assert!(logs_run(&store, "zz", None, None).is_err());
    assert_eq!(artifacts_run(&store, "a", None).unwrap().artifacts.len(), 5);
    assert!(artifacts_run(&store, "a", Some(7)).is_err());
}

#[test]
fn cancelling_asks_the_scheduler_and_leaves_the_state_to_observation() {
    let mut store = store_of(&[run("a", RunnerKind::Slurm, "101")]);
    let (rec, job_id, command) = match cancel_run(&store, "a", PathStyle::Posix).unwrap() {
        CancelStep::Remote {
            run,
            job_id,
            command,
        } => (run, job_id, command),
        _ => panic!("the run is on a host"),
    };
    assert_eq!(command, "scancel '101'");
    let done = ExecOutput {
        code: Some(0),
        stdout: String::new(),
        stderr: String::new(),
    };
    let after = finish_cancel(&mut store, &rec, &job_id, &done, clock()).unwrap();
    assert_eq!(after.status, RunStatus::Running);
    assert!(after.note.unwrap().contains("cancel requested"));
    let refused = ExecOutput {
        code: Some(1),
        stdout: String::new(),
        stderr: "denied".into(),
    };
    assert!(finish_cancel(&mut store, &rec, &job_id, &refused, clock()).is_err());

    let mut ended = run("b", RunnerKind::Slurm, "102");
    ended.status = RunStatus::Succeeded;
    store.upsert(&ended);
    assert!(matches!(
        cancel_run(&store, "b", PathStyle::Posix),
        Ok(CancelStep::Settled(_))
    ));
    assert!(cancel_run(&store, "zz", PathStyle::Posix).is_err());
}
