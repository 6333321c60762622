use runwatch::submission::{
    check_run_id, finish_deploy, finish_submit, scheduler_job_id, start_remote_submission,
    submission_route, validate_spec, ExecOutput, ExecResult, SubmissionPlan, SubmissionRoute,
    SubmissionStart, TransportError,
};
use runwatch::paths::PathStyle;
use runwatch::store::RunStore;
use runwatch::time::Timestamp;
use runwatch::types::{RemoteWorkspaceRef, RunResources, RunStatus, RunnerKind, SubmitRunSpec};

fn clock() -> Timestamp {
    Timestamp::from_seconds(1_790_000_000)
}

fn spec(runner: RunnerKind) -> SubmitRunSpec {
    SubmitRunSpec {
        run_id: "run-test-01".into(),
        name: Some("test".into()),
        workspace: RemoteWorkspaceRef {
            host_alias: "cluster".into(),
            cwd: "/shared/project with spaces".into(),
        },
        runner,
        command: "python run.py --x 'hello'".into(),
        resources: RunResources {
            time: Some("04:00:00".into()),
            partition: if runner == RunnerKind::Slurm {
                Some("gpu".into())
            } else {
                None
            },
            queue: if runner == RunnerKind::Lsf {
                Some("gpuq".into())
            } else {
                None
            },
            account: Some("science".into()),
            cpus: Some(8),
            mem: Some("32G".into()),
            gpus: Some(2),
        },
        continuation: None,
    }
}

#[test]
fn slurm_plan_has_receipt_guard_and_scheduler_outputs() {
    let plan = SubmissionPlan::build(spec(RunnerKind::Slurm)).unwrap();
    let cmd = plan.scheduler_submit_command().unwrap();
    assert!(cmd.contains("[ -s \"$receipt\" ]"));
    assert!(cmd.contains("sbatch --parsable"));
    assert!(cmd.contains("--partition 'gpu'"));
    assert!(cmd.contains("--gpus=2"));
    assert!(cmd.contains("'/shared/project with spaces/.runwatch/run-test-01/stdout.log'"));
}

#[test]
fn lsf_plan_has_receipt_guard_and_resource_mapping() {
    let plan = SubmissionPlan::build(spec(RunnerKind::Lsf)).unwrap();
    let cmd = plan.scheduler_submit_command().unwrap();
    assert!(cmd.contains("bsub -J"));
    assert!(cmd.contains("-q 'gpuq'"));
    assert!(cmd.contains("-gpu 'num=2'"));
    assert!(cmd.contains("sed -n"));
}

#[test]
fn wrapper_writes_atomic_structured_terminal() {
    let plan = SubmissionPlan::build(spec(RunnerKind::Slurm)).unwrap();
    let script = plan.wrapper_script();
    assert!(script.contains("schema_version"));
    assert!(script.contains("attempt_no"));
    assert!(script.contains("mv -f -- \"$tmp\" \"$terminal\""));
    assert!(script.contains("(\npython run.py"));
}

#[test]
fn submission_spec_rejects_unsafe_identity_and_wrong_resource_family() {
    let mut bad = spec(RunnerKind::Slurm);
    bad.run_id = "bad;id".into();
    assert!(SubmissionPlan::build(bad).is_err());

    let mut wrong = spec(RunnerKind::Slurm);
    wrong.resources.queue = Some("lsf-only".into());
    assert!(
        SubmissionPlan::build(wrong)
            .unwrap()
            .scheduler_submit_command()
            .is_err()
    );
}

#[test]
fn scheduler_job_id_is_strict() {
    assert_eq!(scheduler_job_id("12345\n").unwrap(), "12345");
    assert_eq!(scheduler_job_id("12345_7\n").unwrap(), "12345_7");
    assert!(scheduler_job_id("Submitted batch job 12345\n").is_err());
}

fn started(store: &mut RunStore) -> (SubmissionPlan, runwatch::types::RunRecord, runwatch::types::RunAttemptRecord) {
    let plan = SubmissionPlan::build(spec(RunnerKind::Slurm)).unwrap();
    match start_remote_submission(store, &plan, clock()).unwrap() {
        SubmissionStart::Proceed(run, attempt) => (plan, run, attempt),
        SubmissionStart::Settled(_) => panic!("a new run is not settled"),
    }
}

fn output(code: u32, stdout: &str) -> ExecResult {
    ExecResult::Output(ExecOutput {
        code: Some(code),
        stdout: stdout.into(),
        stderr: String::new(),
    })
}

#[test]
fn accepted_submission_is_queued_and_is_not_sent_again() {
    let mut store = RunStore::open_default("/data", PathStyle::Posix);
    let (plan, run, attempt) = started(&mut store);
    assert_eq!(finish_deploy(&mut store, &run, &attempt, &output(0, ""), clock()), Ok(()));
    let queued = finish_submit(&mut store, &run, &attempt, &output(0, "12345\n"), clock()).unwrap();
    assert_eq!(queued.status, RunStatus::Queued);
    assert_eq!(queued.job_id.as_deref(), Some("12345"));
    assert_eq!(store.get("run-test-01").unwrap().status, RunStatus::Queued);
    match start_remote_submission(&mut store, &plan, clock()).unwrap() {
        SubmissionStart::Settled(run) => assert_eq!(run.job_id.as_deref(), Some("12345")),
        SubmissionStart::Proceed(_, _) => panic!("an accepted run is not sent again"),
    }
}

#[test]
fn same_run_id_with_another_command_is_refused() {
    let mut store = RunStore::open_default("/data", PathStyle::Posix);
    started(&mut store);
    let mut other = spec(RunnerKind::Slurm);
    other.command = "python other.py".into();
    let plan = SubmissionPlan::build(other).unwrap();
    let error = match start_remote_submission(&mut store, &plan, clock()) {
        Err(error) => error,
        Ok(_) => panic!("the identity differs"),
    };
    assert!(error.contains("already exists with a different submission spec"));
}

#[test]
fn refused_submission_fails_and_lost_answer_stays_ambiguous() {
    let mut store = RunStore::open_default("/data", PathStyle::Posix);
    let (_, run, attempt) = started(&mut store);
    let lost = ExecResult::Failure(TransportError {
        brief: "reset".into(),
        full: "connection reset".into(),
    });
    let error = finish_submit(&mut store, &run, &attempt, &lost, clock()).unwrap_err();
    assert!(error.contains("retry the same run_id"));
    assert_eq!(store.get("run-test-01").unwrap().status, RunStatus::Submitting);

    let error = finish_submit(&mut store, &run, &attempt, &output(1, "no partition"), clock()).unwrap_err();
    assert!(error.contains("scheduler submit failed"));
    assert_eq!(store.get("run-test-01").unwrap().status, RunStatus::Failed);
}

#[test]
fn failed_deploy_fails_the_run() {
    let mut store = RunStore::open_default("/data", PathStyle::Posix);
    let (_, run, attempt) = started(&mut store);
    let error = finish_deploy(&mut store, &run, &attempt, &output(2, "disk full"), clock()).unwrap_err();
    assert!(error.contains("deploy wrapper failed with exit Some(2)"));
    assert_eq!(store.get("run-test-01").unwrap().status, RunStatus::Failed);
}

#[test]
fn routes_and_identities_are_checked() {
    assert!(matches!(submission_route(RunnerKind::Process), Ok(SubmissionRoute::Local)));
    assert!(matches!(submission_route(RunnerKind::Lsf), Ok(SubmissionRoute::Remote)));
    assert!(submission_route(RunnerKind::File).is_err());
    assert!(check_run_id("run-1_a.b"));
    assert!(!check_run_id(""));
    assert!(!check_run_id("a b"));
    assert_eq!(validate_spec(&spec(RunnerKind::Slurm)), Ok(()));
}
