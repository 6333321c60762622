use base64::Engine;
use runwatch::local_process::{
    encode_powershell, local_process_spawn_error, ps_quote, query_handle, LocalPlan,
    LocalProcessHandle, LocalProcessState, LOCAL_HOST_ALIAS, STILL_ACTIVE_EXIT_CODE,
};
use runwatch::paths::PathStyle;
use runwatch::types::{RemoteWorkspaceRef, RunResources, RunnerKind, SubmitRunSpec};

#[test]
fn local_handle_roundtrips_and_rejects_other_handles() {
    let handle = LocalProcessHandle {
        pid: 42,
        creation_time: 0x1234_5678_9abc_def0,
    };
    assert_eq!(LocalProcessHandle::parse(&handle.encode()).unwrap(), handle);
    assert!(LocalProcessHandle::parse("123").is_err());
    assert!(LocalProcessHandle::parse("local:0:0001").is_err());
}

#[test]
fn powershell_payload_is_utf16le_base64() {
    let encoded = encode_powershell("Write-Output 'ok'");
    let bytes = base64::engine::general_purpose::STANDARD
        .decode(encoded)
        .unwrap();
    let words: Vec<u16> = bytes
        .chunks_exact(2)
        .map(|pair| u16::from_le_bytes([pair[0], pair[1]]))
        .collect();
    assert_eq!(String::from_utf16(&words).unwrap(), "Write-Output 'ok'");
}

#[test]
fn powershell_payload_holds_characters_beyond_the_first_plane() {
    let encoded = encode_powershell("é𝄞");
    let bytes = base64::engine::general_purpose::STANDARD
        .decode(encoded)
        .unwrap();
    assert_eq!(bytes, [0xe9, 0x00, 0x34, 0xd8, 0x1e, 0xdd]);
}

fn local_spec(cwd: &str) -> SubmitRunSpec {
    SubmitRunSpec {
        run_id: "local-wrapper-test".into(),
        name: None,
        workspace: RemoteWorkspaceRef {
            host_alias: LOCAL_HOST_ALIAS.into(),
            cwd: cwd.into(),
        },
        runner: RunnerKind::Process,
        command: "Write-Output 'science'".into(),
        resources: RunResources::default(),
        continuation: None,
    }
}

#[test]
fn wrapper_protocol_has_started_arm_and_atomic_terminal_boundaries() {
    let script = LocalPlan::build(local_spec(r"C:\Temp"), PathStyle::Windows, true)
        .unwrap()
        .wrapper_script();
    assert!(script.contains("started.json"));
    assert!(script.contains("while(-not (Test-Path -LiteralPath $armed))"));
    assert!(script.contains("Move-Item -LiteralPath $tmp -Destination $path -Force"));
    assert!(script.contains("terminal.json"));
    assert!(script.contains("-EncodedCommand"));
}

#[test]
fn local_plan_wants_an_existing_absolute_directory() {
    assert!(LocalPlan::build(local_spec(r"C:\Temp"), PathStyle::Windows, false).is_err());
    let mut remote = local_spec(r"C:\Temp");
    remote.workspace.host_alias = "gm00".into();
    assert!(LocalPlan::build(local_spec("/tmp"), PathStyle::Posix, true)
        .unwrap_err()
        .contains("Windows only"));
    assert!(LocalPlan::build(remote, PathStyle::Windows, true).is_err());
}

#[test]
fn access_denied_explains_durable_breakaway_requirement() {
    let message = local_process_spawn_error(Some(5), "Access is denied. (os error 5)");
    assert!(message.contains("breakaway"));
    assert!(message.contains("non-durable"));
    assert!(message.contains("runwatch supervise"));
    let other = local_process_spawn_error(Some(2), "not found");
    assert!(!other.contains("breakaway"));
    assert!(other.contains("not found"));
}

#[test]
fn reused_process_number_is_told_from_the_process() {
    let handle = LocalProcessHandle {
        pid: 42,
        creation_time: 7,
    };
    let other = LocalProcessHandle {
        pid: 42,
        creation_time: 8,
    };
    assert_eq!(query_handle(handle, None), LocalProcessState::Missing);
    assert_eq!(
        query_handle(handle, Some((other, STILL_ACTIVE_EXIT_CODE))),
        LocalProcessState::Reused
    );
    assert_eq!(
        query_handle(handle, Some((handle, STILL_ACTIVE_EXIT_CODE))),
        LocalProcessState::Running
    );
    assert_eq!(
        query_handle(handle, Some((handle, 3))),
        LocalProcessState::Exited(3)
    );
}

#[test]
fn powershell_literal_doubles_its_quotes() {
    assert_eq!(ps_quote("it's"), "'it''s'");
    assert_eq!(ps_quote(""), "''");
}
