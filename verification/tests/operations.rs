use runwatch::operations::{
    attempt_artifacts, bounded_tail_lines, cancel_command, read_local_tail, tail_command,
    tail_start, MAX_LOG_TAIL_LINES,
};
use runwatch::time::Timestamp;
use runwatch::types::{RunAttemptRecord, RunStatus, RunnerKind};

fn clock() -> Timestamp {
    Timestamp::from_seconds(1_790_000_000)
}

#[test]
fn log_tail_is_bounded_and_shell_quoted() {
    let command = tail_command("/shared/a b/x'; touch nope; '.log", 9999);
    assert!(command.contains("tail -c 65536"));
    assert!(command.contains("'\"'\"'"));
    assert_eq!(bounded_tail_lines(Some(9999)), MAX_LOG_TAIL_LINES);
    assert_eq!(bounded_tail_lines(Some(0)), 1);
}

#[test]
fn local_log_tail_is_line_and_byte_bounded() {
    let body = b"a\nb\nc\nd\n".to_vec();
    let start = tail_start(body.len() as u64);
    assert_eq!(read_local_tail(&body, start, 2), "c\nd\n");
    assert_eq!(tail_start(65_536), 0);
    assert_eq!(tail_start(65_537), 1);
}

#[test]
fn lifecycle_artifact_inventory_is_attempt_scoped() {
    let now = clock();
    let attempt = RunAttemptRecord {
        run_id: "r1".into(),
        attempt_no: 2,
        runner: RunnerKind::Slurm,
        host: "gm00".into(),
        workdir: "/work".into(),
        command: "true".into(),
        resources: Default::default(),
        job_name: "rw-r1-a2".into(),
        job_id: Some("123".into()),
        script_path: "/work/run.sh".into(),
        stdout_path: "/work/stdout.log".into(),
        stderr_path: "/work/stderr.log".into(),
        terminal_path: "/work/terminal.json".into(),
        receipt_path: "/work/job.id".into(),
        status: RunStatus::Succeeded,
        created_at: now,
        updated_at: now,
        error: None,
    };
    let items = attempt_artifacts(&attempt);
    assert_eq!(items.len(), 5);
    assert_eq!(items[0].kind, "script");
    assert_eq!(items[3].path, "/work/terminal.json");
    assert_eq!(items[4].kind, "receipt");
}

#[test]
fn scheduler_cancel_commands_quote_handles() {
    let slurm = cancel_command(RunnerKind::Slurm, "123'; echo nope; '").unwrap();
    let lsf = cancel_command(RunnerKind::Lsf, "456").unwrap();
    assert!(slurm.starts_with("scancel '"));
    assert!(slurm.contains("'\"'\"'"));
    assert_eq!(lsf, "bkill '456'");
    assert!(cancel_command(RunnerKind::Powershell, "1").is_err());
    assert!(cancel_command(RunnerKind::Process, "local:1:1").is_err());
}
