use runwatch::probe::{
    interpret, interpret_lsf_batch, interpret_observation, interpret_slurm_batch,
    lsf_batch_command, lsf_cmd, map_lsf, map_slurm, parse_terminal, remote_command,
    slurm_batch_command, SCHEDULER_MARKER, SENTINEL_MARKER,
};
use runwatch::time::Timestamp;
use runwatch::types::{ObservationSource, RunRecord, RunStatus, RunnerKind};

const BATCH_TERMINAL: &str = "__RUNWATCH_BATCH_TERMINAL__";
const SLURM_BATCH_SQUEUE_BEGIN: &str = "__RUNWATCH_BATCH_SQUEUE_BEGIN__";
const SLURM_BATCH_SQUEUE_END: &str = "__RUNWATCH_BATCH_SQUEUE_END__";
const SLURM_BATCH_SACCT_BEGIN: &str = "__RUNWATCH_BATCH_SACCT_BEGIN__";
const SLURM_BATCH_SACCT_END: &str = "__RUNWATCH_BATCH_SACCT_END__";
const LSF_BATCH_BJOBS_BEGIN: &str = "__RUNWATCH_BATCH_BJOBS_BEGIN__";
const LSF_BATCH_BJOBS_END: &str = "__RUNWATCH_BATCH_BJOBS_END__";

fn clock() -> Timestamp {
    Timestamp::from_seconds(1_790_000_000)
}

fn record(runner: RunnerKind) -> RunRecord {
    let mut rec = RunRecord::new("r1".into(), "host".into(), runner, clock());
    rec.job_id = Some("123".into());
    rec
}

#[test]
fn slurm_states_cover_hpc_failures() {
    assert_eq!(map_slurm("COMPLETED"), RunStatus::Succeeded);
    assert_eq!(map_slurm("OUT_OF_MEMORY"), RunStatus::Failed);
    assert_eq!(map_slurm("PREEMPTED"), RunStatus::Failed);
    assert_eq!(map_slurm("NODE_FAIL"), RunStatus::Failed);
    assert_eq!(map_slurm("PENDING"), RunStatus::Queued);
    assert_eq!(map_slurm("SUSPENDED"), RunStatus::Running);
}

#[test]
fn lsf_states_include_post_processing() {
    assert_eq!(map_lsf("DONE"), RunStatus::Succeeded);
    assert_eq!(map_lsf("POST_DONE"), RunStatus::Succeeded);
    assert_eq!(map_lsf("POST_ERR"), RunStatus::Failed);
    assert_eq!(map_lsf("WAIT"), RunStatus::Queued);
}

#[test]
fn lsf_probe_falls_back_to_bhist_for_aged_out_finished_jobs() {
    let command = lsf_cmd("123");
    assert!(command.contains("bjobs -a"));
    assert!(command.contains("bhist -l '123'"));
    assert!(command.contains("Done successfully"));
    assert!(command.contains("Completed <exit>"));
    assert!(command.contains("printf 'DONE\\n'"));
    assert!(command.contains("printf 'EXIT\\n'"));
}

#[test]
fn terminal_parser_is_exact_and_supports_json() {
    assert_eq!(parse_terminal("succeeded 0\n"), Some(RunStatus::Succeeded));
    assert_eq!(
        parse_terminal(r#"{"status":"failed","exit_code":2}"#),
        Some(RunStatus::Failed)
    );
    assert_eq!(parse_terminal("log says not-failed-yet"), None);
}

#[test]
fn sentinel_missing_falls_back_to_scheduler_in_same_probe() {
    let mut rec = record(RunnerKind::Slurm);
    rec.remote_terminal = Some("/shared/a b/terminal.json".into());
    let command = remote_command(&rec).expect("probe command");
    assert!(command.contains(SENTINEL_MARKER));
    assert!(command.contains(SCHEDULER_MARKER));
    assert!(command.contains("squeue"));
    assert!(command.contains("sacct"));
    assert!(command.contains("'/shared/a b/terminal.json'"));
}

#[test]
fn unrecognized_scheduler_output_preserves_last_trusted_state() {
    let mut rec = record(RunnerKind::Slurm);
    rec.status = RunStatus::Running;
    assert_eq!(
        interpret(&rec, "__RUNWATCH_SCHEDULER__\n"),
        RunStatus::Running
    );
    assert_eq!(
        interpret(&rec, "__RUNWATCH_SCHEDULER__\nFUTURE_STATE"),
        RunStatus::Running
    );
}

#[test]
fn lsf_batch_command_uses_one_bjobs_query_and_terminal_fast_paths() {
    let mut a = record(RunnerKind::Lsf);
    a.run_id = "a".into();
    a.job_id = Some("201".into());
    a.remote_terminal = Some("/shared/a/terminal.json".into());
    let mut b = record(RunnerKind::Lsf);
    b.run_id = "b".into();
    b.job_id = Some("202".into());
    b.remote_terminal = Some("/shared/b/terminal.json".into());
    let command = lsf_batch_command(&[a, b]).expect("batch command");
    assert_eq!(command.matches("bjobs -a").count(), 1);
    assert_eq!(command.matches(BATCH_TERMINAL).count(), 2);
    assert!(command.contains("'201' '202'"));
}

#[test]
fn lsf_batch_interpretation_handles_active_states_and_leaves_missing_for_history_fallback() {
    let mut a = record(RunnerKind::Lsf);
    a.status = RunStatus::Queued;
    a.job_id = Some("201".into());
    a.remote_terminal = Some("/a".into());
    let mut b = record(RunnerKind::Lsf);
    b.status = RunStatus::Running;
    b.job_id = Some("202".into());
    b.remote_terminal = Some("/b".into());
    let mut c = record(RunnerKind::Lsf);
    c.status = RunStatus::Running;
    c.job_id = Some("203".into());
    c.remote_terminal = Some("/c".into());
    let stdout = format!(
        "{BATCH_TERMINAL}|0|{{\"status\":\"succeeded\"}}\n\
         {LSF_BATCH_BJOBS_BEGIN}\n202 RUN\n{LSF_BATCH_BJOBS_END}|255\n"
    );
    let results = interpret_lsf_batch(&[a, b, c], &stdout);
    assert_eq!(results[0].probe.source, ObservationSource::Sentinel);
    assert_eq!(results[0].probe.status, RunStatus::Succeeded);
    assert!(results[0].probe.recognized);
    assert_eq!(results[1].probe.status, RunStatus::Running);
    assert!(results[1].probe.recognized);
    assert!(!results[2].probe.recognized);
    assert!(
        results[2]
            .reason
            .as_deref()
            .unwrap()
            .contains("bhist fallback")
    );
}

#[test]
fn slurm_batch_command_uses_one_scheduler_query_pair_and_terminal_fast_paths() {
    let mut a = record(RunnerKind::Slurm);
    a.run_id = "a".into();
    a.job_id = Some("101".into());
    a.remote_terminal = Some("/shared/a/terminal.json".into());
    let mut b = record(RunnerKind::Slurm);
    b.run_id = "b".into();
    b.job_id = Some("102_7".into());
    b.remote_terminal = Some("/shared/b/terminal.json".into());
    let command = slurm_batch_command(&[a, b]).expect("batch command");
    assert_eq!(command.matches("squeue -h -j").count(), 1);
    assert_eq!(command.matches("sacct -j").count(), 1);
    assert_eq!(command.matches(BATCH_TERMINAL).count(), 2);
    assert!(command.contains("'101,102_7'"));
}

#[test]
fn slurm_batch_interpretation_prefers_terminal_then_squeue_then_sacct() {
    let mut a = record(RunnerKind::Slurm);
    a.status = RunStatus::Running;
    a.job_id = Some("101".into());
    a.remote_terminal = Some("/a".into());
    let mut b = record(RunnerKind::Slurm);
    b.status = RunStatus::Queued;
    b.job_id = Some("102".into());
    b.remote_terminal = Some("/b".into());
    let mut c = record(RunnerKind::Slurm);
    c.status = RunStatus::Running;
    c.job_id = Some("103".into());
    c.remote_terminal = Some("/c".into());
    let stdout = format!(
        "{BATCH_TERMINAL}|0|{{\"status\":\"succeeded\"}}\n\
         {SLURM_BATCH_SQUEUE_BEGIN}\n102|RUNNING\n{SLURM_BATCH_SQUEUE_END}|0\n\
         {SLURM_BATCH_SACCT_BEGIN}\n101|FAILED|\n102|PENDING|\n103|TIMEOUT|\n{SLURM_BATCH_SACCT_END}|0\n"
    );
    let results = interpret_slurm_batch(&[a, b, c], &stdout);
    assert_eq!(results[0].probe.source, ObservationSource::Sentinel);
    assert_eq!(results[0].probe.status, RunStatus::Succeeded);
    assert_eq!(results[1].probe.status, RunStatus::Running);
    assert_eq!(results[1].probe.raw_state, "RUNNING");
    assert_eq!(results[2].probe.status, RunStatus::Failed);
    assert_eq!(results[2].probe.raw_state, "TIMEOUT");
    assert!(results.iter().all(|result| result.reason.is_none()));
}

#[test]
fn slurm_batch_unknown_state_preserves_execution_and_reports_probe_error_reason() {
    let mut a = record(RunnerKind::Slurm);
    a.status = RunStatus::Running;
    a.job_id = Some("101".into());
    a.remote_terminal = Some("/a".into());
    let stdout = format!(
        "{SLURM_BATCH_SQUEUE_BEGIN}\n101|FUTURE_STATE\n{SLURM_BATCH_SQUEUE_END}|0\n\
         {SLURM_BATCH_SACCT_BEGIN}\n{SLURM_BATCH_SACCT_END}|0\n"
    );
    let result = interpret_slurm_batch(&[a], &stdout).remove(0);
    assert_eq!(result.probe.status, RunStatus::Running);
    assert!(!result.probe.recognized);
    assert_eq!(result.probe.raw_state, "FUTURE_STATE");
    assert!(result.reason.unwrap().contains("no recognized state"));
}

#[test]
fn probe_interpretation_exposes_source_and_recognition_without_losing_state() {
    let mut rec = record(RunnerKind::Slurm);
    rec.status = RunStatus::Running;
    let scheduler = interpret_observation(&rec, "__RUNWATCH_SCHEDULER__\nCOMPLETED\n");
    assert_eq!(scheduler.source, ObservationSource::Scheduler);
    assert_eq!(scheduler.status, RunStatus::Succeeded);
    assert!(scheduler.recognized);
    assert_eq!(scheduler.raw_state, "COMPLETED");

    let unknown = interpret_observation(&rec, "__RUNWATCH_SCHEDULER__\nFUTURE_STATE\n");
    assert_eq!(unknown.source, ObservationSource::Scheduler);
    assert_eq!(unknown.status, RunStatus::Running);
    assert!(!unknown.recognized);
    assert_eq!(unknown.raw_state, "FUTURE_STATE");
}

#[test]
fn shell_values_are_quoted_in_probe_commands() {
    let mut rec = record(RunnerKind::Slurm);
    rec.job_id = Some("123'; echo injected; '".into());
    rec.remote_terminal = Some("/tmp/x'; touch nope; '".into());
    let command = remote_command(&rec).expect("probe command");
    assert!(command.contains("'\"'\"'"));
    assert!(!command.contains("-j 123';"));
    assert!(!command.contains("-f /tmp/x';"));
}
