use runwatch::ipc::frames::{is_blank_line, read_bounded_line, BoundedLine, FrameStep};
use runwatch::ipc::{
    check_reply, client_request_id, endpoint, endpoint_path, handle_control_request,
    handle_request, hello_response, is_named_pipe_busy, pipe_descriptor, unsupported_response,
    Reply, Request, Route, ENDPOINT, MAX_REQUEST_BYTES, PROTOCOL_VERSION,
};
use runwatch::paths::PathStyle;
use runwatch::store::RunStore;
use runwatch::time::Timestamp;
use runwatch::types::{AgentSessionRegistration, RunRecord, RunnerKind};

fn clock() -> Timestamp {
    Timestamp::from_seconds(1_790_000_000)
}

/// Feeds a frame in pieces, as a stream would.
fn read_frame(bytes: &[u8], piece: usize) -> BoundedLine {
    let mut line = Vec::new();
    for part in bytes.chunks(piece) {
        match read_bounded_line(line, part) {
            FrameStep::More(rest) => line = rest,
            FrameStep::Done { frame, .. } => return frame,
        }
    }
    match read_bounded_line(line, &[]) {
        FrameStep::More(_) => panic!("the stream has ended"),
        FrameStep::Done { frame, .. } => frame,
    }
}

#[test]
fn request_frame_is_rejected_before_buffering_past_limit() {
    let mut payload = vec![b'x'; MAX_REQUEST_BYTES + 1];
    payload.push(b'\n');
    assert!(matches!(read_frame(&payload, 8192), BoundedLine::TooLarge));
}

#[test]
fn request_frame_accepts_exact_limit() {
    let mut payload = vec![b'x'; MAX_REQUEST_BYTES];
    payload.push(b'\n');
    match read_frame(&payload, 8192) {
        BoundedLine::Line(line) => assert_eq!(line.len(), MAX_REQUEST_BYTES),
        _ => panic!("exact-limit request should be accepted"),
    }
}

#[test]
fn frame_is_the_same_however_it_is_cut() {
    for piece in [1, 2, 3, 100] {
        match read_frame(b"{\"id\":\"1\"}\nrest", piece) {
            BoundedLine::Line(line) => assert_eq!(line, b"{\"id\":\"1\"}"),
            _ => panic!("a line ends at its break"),
        }
    }
    assert!(matches!(read_frame(b"", 1), BoundedLine::Eof));
    assert!(is_blank_line(&b" \t\r".to_vec()));
    assert!(!is_blank_line(&b" x".to_vec()));
}

#[test]
fn hello_advertises_v2_submit_capability() {
    let response = hello_response("1".into());
    assert!(response.ok);
    let hello = match response.result.expect("hello result") {
        Reply::Hello(hello) => hello,
        _ => panic!("hello is answered by a hello"),
    };
    assert_eq!(hello.protocol_version, PROTOCOL_VERSION);
    assert_eq!(hello.storage, "sqlite-wal");
    for capability in [
        "submit_run_v2",
        "logs",
        "cancel_run",
        "get_observation",
        "offline_pi_continuation",
        "offline_codex_continuation",
        "verify_offline_invocation",
    ] {
        assert!(
            hello.capabilities.iter().any(|value| value == capability),
            "{capability}"
        );
    }
}

#[test]
fn windows_named_pipe_busy_is_retryable_but_other_errors_are_not() {
    assert!(is_named_pipe_busy(Some(231)));
    assert!(!is_named_pipe_busy(Some(2)));
    assert!(!is_named_pipe_busy(None));
}

#[test]
fn unknown_operation_fails_closed() {
    let response = unsupported_response("2".into(), "delete_everything");
    assert!(!response.ok);
    assert!(response.error.unwrap().contains("unsupported operation"));
}

fn request(op: &str) -> Request {
    Request {
        id: "7".into(),
        op: op.into(),
        run_id: None,
        run: None,
        spec: None,
        registration: None,
        binding: None,
        agent_kind: None,
        session_id: None,
        owner_instance_id: None,
        delivery_id: None,
        invocation_id: None,
        outcome: None,
        error: None,
        limit: None,
        tail: None,
        timeout_sec: None,
        paused: None,
    }
}

#[test]
fn pause_is_told_and_kept() {
    let mut store = RunStore::open_default("/data", PathStyle::Posix);
    let mut paused = false;
    let mut pause = request("set_paused");
    pause.paused = Some(true);
    let response = handle_control_request(&pause, &mut store, &mut paused, 9, clock());
    assert!(response.ok);
    assert!(paused);
    let response =
        handle_control_request(&request("daemon_status"), &mut store, &mut paused, 9, clock());
    assert!(matches!(
        response.result,
        Some(Reply::DaemonStatus { paused: true, pid: 9 })
    ));
    assert_eq!(response.id, "7");
}

#[test]
fn refused_control_request_names_what_is_missing_and_changes_nothing() {
    let mut store = RunStore::open_default("/data", PathStyle::Posix);
    let mut paused = false;
    let response = handle_control_request(&request("get_run"), &mut store, &mut paused, 9, clock());
    assert!(!response.ok);
    assert!(response.error.unwrap().contains("run_id"));
    let response = handle_control_request(&request("nonsense"), &mut store, &mut paused, 9, clock());
    assert!(!response.ok);
    assert!(store.list().is_empty());
    assert!(!paused);
}

#[test]
fn adopted_run_is_listed_and_second_session_is_refused() {
    let mut store = RunStore::open_default("/data", PathStyle::Posix);
    let mut paused = false;
    let mut adopt = request("adopt_run_v1");
    adopt.run = Some(RunRecord::new("r1".into(), "gm00".into(), RunnerKind::Slurm, clock()));
    let response = handle_control_request(&adopt, &mut store, &mut paused, 9, clock());
    assert!(response.ok, "{:?}", response.error);
    assert_eq!(store.get("r1").unwrap().host, "gm00");

    let mut register = request("register_agent_session");
    let mut registration = AgentSessionRegistration {
        agent_kind: "pi".into(),
        session_id: "s1".into(),
        owner_instance_id: "owner-a".into(),
        session_file: None,
        project_root: "/work".into(),
        current_leaf_id: None,
    };
    register.registration = Some(registration.clone());
    let response = handle_control_request(&register, &mut store, &mut paused, 9, clock());
    match response.result {
        Some(Reply::Registered { expires_at }) => {
            assert_eq!(expires_at.nanos, clock().plus_seconds(35).nanos)
        }
        _ => panic!("{:?}", response.error),
    }
    registration.owner_instance_id = "owner-b".into();
    register.registration = Some(registration);
    assert!(!handle_control_request(&register, &mut store, &mut paused, 9, clock()).ok);
}

#[test]
fn requests_are_routed_by_operation() {
    assert!(matches!(handle_request(&request("tick")), Route::Tick));
    assert!(matches!(handle_request(&request("hello")), Route::Control));
    assert!(matches!(handle_request(&request("logs")), Route::Refused(_)));
    let mut logs = request("logs");
    logs.run_id = Some("r1".into());
    logs.tail = Some(20);
    assert!(matches!(
        handle_request(&logs),
        Route::Logs { tail: Some(20), .. }
    ));
}

#[test]
fn endpoints_and_replies_are_checked() {
    assert_eq!(endpoint(None), ENDPOINT);
    assert_eq!(endpoint(Some("/tmp/x.sock".into())), "/tmp/x.sock");
    assert_eq!(
        endpoint_path(None, "/data", PathStyle::Posix),
        "/data/runwatch-v1.sock"
    );
    assert!(pipe_descriptor("S-1-5-21").contains("S-1-5-21"));
    assert_eq!(client_request_id(7, 9), "client-7-9");
    assert_eq!(
        check_reply("hello", "1", &Some("1".into()), Some(true), &None),
        Ok(())
    );
    assert!(check_reply("hello", "1", &Some("2".into()), Some(true), &None).is_err());
    assert!(
        check_reply("hello", "1", &Some("1".into()), Some(false), &Some("boom".into()))
            .unwrap_err()
            .contains("boom")
    );
}
