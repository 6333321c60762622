use runwatch::dispatch::{
    delivery_keeps_rpc_stdin_open, find_in_path, orphans_are_due, resolve_default_pi_launcher,
    resolve_pi_launcher, ConfiguredLauncher, MAX_AGENT_RUNTIME, MAX_LAUNCHES_PER_TICK,
    OFFLINE_GRACE, ORPHAN_RECONNECT_GRACE, ORPHAN_RETRY_DELAY,
};
use runwatch::paths::PathStyle;

#[test]
fn offline_constants_are_bounded_for_daemon_operation() {
    assert!(OFFLINE_GRACE >= 10);
    assert!(MAX_LAUNCHES_PER_TICK <= 4);
    assert!(MAX_AGENT_RUNTIME <= 24 * 60 * 60);
    assert!(ORPHAN_RECONNECT_GRACE >= 20);
    assert!(ORPHAN_RECONNECT_GRACE < 120);
    assert!(ORPHAN_RETRY_DELAY >= 10);
}

#[test]
fn rpc_stdin_stays_open_only_while_delivery_is_owned() {
    assert!(delivery_keeps_rpc_stdin_open(Some("delivering")));
    for state in [
        "delivered",
        "needs_rebind",
        "retrying",
        "pending",
        "missing",
    ] {
        assert!(!delivery_keeps_rpc_stdin_open(Some(state)), "state={state}");
    }
    assert!(!delivery_keeps_rpc_stdin_open(None));
}

#[test]
fn windows_launcher_prefers_native_pi_then_volta_without_shell_shims() {
    let root = vec![r"C:\tools".to_string()];
    let volta = find_in_path(&root, "volta.exe", PathStyle::Windows).remove(0);
    let launcher =
        resolve_default_pi_launcher(PathStyle::Windows, None, Some(volta.clone())).unwrap();
    assert_eq!(launcher.executable, volta);
    assert_eq!(launcher.prefix_args, ["run", "pi"]);

    let pi = find_in_path(&root, "pi.exe", PathStyle::Windows).remove(0);
    let launcher =
        resolve_default_pi_launcher(PathStyle::Windows, Some(pi.clone()), Some(volta)).unwrap();
    assert_eq!(launcher.executable, pi);
    assert_eq!(pi, r"C:\tools\pi.exe");
    assert!(launcher.prefix_args.is_empty());
}

#[test]
fn windows_launcher_does_not_treat_pi_cmd_as_native() {
    let err = match resolve_default_pi_launcher(PathStyle::Windows, None, None) {
        Err(err) => err,
        Ok(_) => panic!("a shell shim is not native"),
    };
    assert!(err.contains("no native Pi launcher"));
}

#[test]
fn configured_shell_shim_is_refused() {
    let shim = ConfiguredLauncher {
        executable: r"C:\tools\pi.cmd".into(),
        extension: Some("cmd".into()),
    };
    assert!(resolve_pi_launcher(Some(shim), PathStyle::Windows, None, None).is_err());
    let native = ConfiguredLauncher {
        executable: r"C:\tools\pi.exe".into(),
        extension: Some("exe".into()),
    };
    assert_eq!(
        resolve_pi_launcher(Some(native), PathStyle::Windows, None, None)
            .unwrap()
            .executable,
        r"C:\tools\pi.exe"
    );
}

#[test]
fn orphans_are_left_alone_while_workers_may_reconnect() {
    assert!(!orphans_are_due(29));
    assert!(orphans_are_due(30));
}
