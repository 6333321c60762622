use runwatch::codex::{
    classify_registration, codex_program, codex_version, configured_command_is_owned,
    confirm_install, confirm_remove, conflict_message, consumer_safe_path, install, mcp_file_name,
    remove, require_success, sibling_mcp_for_install, status_line, McpEntry, RegistrationState,
};
use runwatch::paths::PathStyle;

fn owned_output(command: &str) -> String {
    format!(
        "runwatch\n  enabled: true\n  transport: stdio\n  command: {command}\n  args: -\n  cwd: -\n  env: -\n  remove: codex mcp remove runwatch\n"
    )
}

#[test]
fn parses_codex_mcp_get_and_classifies_owned_entry() {
    let state = classify_registration(
        true,
        &owned_output("/opt/runwatch/runwatch-mcp"),
        "",
        "/opt/runwatch/runwatch-mcp",
        &None,
        &None,
        PathStyle::Posix,
    )
    .unwrap();
    assert!(matches!(state, RegistrationState::Owned(_)));
    let state = classify_registration(
        true,
        &owned_output("c:/program files/runwatch/runwatch-mcp.exe"),
        "",
        r"C:\Program Files\runwatch\runwatch-mcp.exe",
        &None,
        &None,
        PathStyle::Windows,
    )
    .unwrap();
    assert!(matches!(state, RegistrationState::Owned(_)));
}

#[test]
fn missing_and_conflicting_entries_fail_closed() {
    for (expected, style) in [
        (r"C:\runwatch\runwatch-mcp.exe", PathStyle::Windows),
        ("/opt/runwatch/runwatch-mcp", PathStyle::Posix),
    ] {
        let state = classify_registration(
            false,
            "",
            "Error: No MCP server named 'runwatch' found.\n",
            expected,
            &None,
            &None,
            style,
        )
        .unwrap();
        assert!(matches!(state, RegistrationState::Missing));

        let stdout = "runwatch\n  enabled: true\n  transport: stdio\n  command: other-mcp\n  args: serve\n  cwd: -\n  env: -\n";
        let state = classify_registration(true, stdout, "", expected, &None, &None, style).unwrap();
        assert!(matches!(state, RegistrationState::Conflict(_)));
    }
}

#[test]
fn windows_verbatim_paths_are_not_written_to_codex_config() {
    assert_eq!(
        consumer_safe_path(r"\\?\C:\Tools\runwatch-mcp.exe", PathStyle::Windows),
        r"C:\Tools\runwatch-mcp.exe"
    );
    assert_eq!(
        consumer_safe_path(r"\\?\UNC\server\share\runwatch-mcp.exe", PathStyle::Windows),
        r"\\server\share\runwatch-mcp.exe"
    );
    assert_eq!(
        consumer_safe_path(r"\\?\C:\odd", PathStyle::Posix),
        r"\\?\C:\odd"
    );
}

#[test]
fn malformed_success_output_is_not_treated_as_missing() {
    let error = classify_registration(
        true,
        "runwatch\n",
        "",
        "runwatch-mcp",
        &None,
        &None,
        PathStyle::Posix,
    )
    .unwrap_err();
    assert!(error.contains("omitted enabled"));
}

#[test]
fn failed_query_without_the_missing_message_is_an_error() {
    let result = classify_registration(
        false,
        "",
        "network down",
        "/opt/runwatch/runwatch-mcp",
        &None,
        &None,
        PathStyle::Posix,
    );
    assert!(result.is_err());
}

#[test]
fn same_program_under_two_names_is_owned() {
    let canonical = Some("/opt/runwatch/runwatch-mcp".to_string());
    assert!(configured_command_is_owned(
        "/usr/local/bin/runwatch-mcp",
        &canonical,
        "/opt/runwatch/runwatch-mcp",
        &canonical,
        PathStyle::Posix
    ));
    assert!(!configured_command_is_owned(
        "/usr/local/bin/runwatch-mcp",
        &None,
        "/opt/runwatch/runwatch-mcp",
        &canonical,
        PathStyle::Posix
    ));
}

fn entry(command: &str) -> McpEntry {
    McpEntry {
        enabled: true,
        transport: "stdio".into(),
        command: Some(command.into()),
        args: None,
    }
}

#[test]
fn foreign_entry_is_neither_replaced_nor_removed() {
    let conflict = RegistrationState::Conflict(entry("other-mcp"));
    assert!(install(&conflict, "/opt/mcp", "1.0").is_err());
    assert!(remove(&conflict, "/opt/mcp").is_err());
    assert!(confirm_install(&conflict, "/opt/mcp").is_err());
    assert!(confirm_remove(&conflict).is_err());
    assert!(conflict_message(&entry("other-mcp"), "/opt/mcp").contains("other-mcp"));
}

#[test]
fn missing_entry_is_installed_and_owned_one_is_kept() {
    assert!(install(&RegistrationState::Missing, "/opt/mcp", "1.0")
        .unwrap()
        .is_none());
    assert!(
        install(&RegistrationState::Owned(entry("/opt/mcp")), "/opt/mcp", "1.0")
            .unwrap()
            .is_some()
    );
    assert!(confirm_install(&RegistrationState::Owned(entry("/opt/mcp")), "/opt/mcp").is_ok());
    assert!(confirm_remove(&RegistrationState::Missing).is_ok());
    assert!(remove(&RegistrationState::Missing, "/opt/mcp").unwrap().is_some());
    assert_ne!(
        status_line(&RegistrationState::Missing),
        status_line(&RegistrationState::Owned(entry("/opt/mcp")))
    );
}

#[test]
fn program_names_follow_the_platform() {
    assert_eq!(mcp_file_name(PathStyle::Windows), "runwatch-mcp.exe");
    assert_eq!(mcp_file_name(PathStyle::Posix), "runwatch-mcp");
    assert_eq!(codex_program(Some("/x/codex".into()), PathStyle::Posix), "/x/codex");
    assert!(sibling_mcp_for_install("/opt/mcp", None, PathStyle::Posix).is_err());
    assert_eq!(
        sibling_mcp_for_install("/opt/mcp", Some("/real/mcp".into()), PathStyle::Posix),
        Ok("/real/mcp".to_string())
    );
    assert!(codex_version(false, "", "boom").is_err());
    assert_eq!(codex_version(true, "codex 1.2\n", ""), Ok("codex 1.2".to_string()));
    assert!(require_success(false, "", "boom", "add").unwrap_err().contains("boom"));
    assert_eq!(require_success(true, "", "", "add"), Ok(()));
}
