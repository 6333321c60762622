use runwatch::command::{adopted_run, list_line, pad_right, parse_runner, show_daemon, Adoption};
use runwatch::config::{data_dir, AppConfig, SshSettings};
use runwatch::encoding::{hex16, hex6, parse_hex_u64, utf16le};
use runwatch::live::{beat_age, is_alive, is_ours, now_unix, ServeHeartbeat};
use runwatch::paths::{join_path, PathStyle};
use runwatch::console::controller::{
    format_artifacts, format_logs, host_card, package_summary, probe_notice, read_daemon,
    ArtifactLine, Siblings,
};
use runwatch::console::notifications::NoticeKind;
use runwatch::text::{
    decimal_text, lines, parse_u32, parse_u64, shell_quote, split_whitespace, text_before, trim,
};
use runwatch::time::Timestamp;
use runwatch::types::{RunRecord, RunnerKind};

fn clock() -> Timestamp {
    Timestamp::from_seconds(1_788_539_445)
}

#[test]
fn numbers_are_read_back() {
    for value in [0, 9, 10, 4294967295, u64::MAX] {
        assert_eq!(parse_u64(&decimal_text(value)), Some(value));
    }
    assert_eq!(parse_u64("18446744073709551616"), None);
    assert_eq!(parse_u32("4294967296"), None);
    assert_eq!(parse_u32("+7"), Some(7));
    assert_eq!(parse_u32("-7"), None);
    assert_eq!(parse_u32(""), None);
    assert_eq!(hex16(0xdef), "0000000000000def");
    assert_eq!(parse_hex_u64(&hex16(u64::MAX)), Some(u64::MAX));
    assert_eq!(hex6(0xabcdef), "abcdef");
}

#[test]
fn texts_are_cut_as_std_cuts_them() {
    for value in ["", "a\nb\r\n", "\n", "a\rb", " x \u{a0}y\u{2003}", "\u{85}z"] {
        assert_eq!(lines(value), value.lines().collect::<Vec<_>>(), "{value:?}");
        assert_eq!(
            split_whitespace(value),
            value.split_whitespace().collect::<Vec<_>>(),
            "{value:?}"
        );
        assert_eq!(trim(value), value.trim(), "{value:?}");
    }
    assert!(text_before("Z", "a"));
    assert!(text_before("a", "ab"));
    assert!(!text_before("b", "ab"));
    assert_eq!(utf16le("aé"), [0x61, 0x00, 0xe9, 0x00]);
}

#[test]
fn shell_word_holds_its_value() {
    assert_eq!(shell_quote("a b"), "'a b'");
    assert_eq!(shell_quote("it's"), "'it'\"'\"'s'");
    assert_eq!(shell_quote(""), "''");
}

#[test]
fn dates_are_written_by_the_calendar() {
    assert_eq!(clock().to_rfc3339(), "2026-09-04T16:30:45+00:00");
    assert_eq!(clock().hour_minute(), "16:30");
    assert_eq!(clock().compact(), "20260904-163045");
    assert_eq!(
        Timestamp {
            nanos: 1_500_000_000
        }
        .to_rfc3339(),
        "1970-01-01T00:00:01.500+00:00"
    );
    assert!(Timestamp::from_seconds(-1).hour_minute() == "23:59");
    assert!(clock().is_clocked());
    assert!(!Timestamp { nanos: i128::MAX }.is_dated());
}

#[test]
fn paths_are_joined_by_style() {
    assert_eq!(join_path("/data", "x", PathStyle::Posix), "/data/x");
    assert_eq!(join_path("/", "x", PathStyle::Posix), "/x");
    assert_eq!(join_path(r"C:\data", "x", PathStyle::Windows), r"C:\data\x");
    assert_eq!(
        data_dir(Some("/set".into()), None, PathStyle::Posix),
        Ok("/set".to_string())
    );
    assert!(data_dir(None, None, PathStyle::Posix).is_err());
}

#[test]
fn settings_have_defaults_and_bounds() {
    let config = AppConfig::load_or_default(None).unwrap();
    assert!(config.hosts.is_empty());
    assert!(AppConfig::load_or_default(Some(Err("bad yaml".into()))).is_err());
    let ssh = SshSettings {
        alive_interval: 0,
        cmd_timeout_sec: 0,
    };
    assert_eq!(ssh.keep_alive(), 1);
    assert_eq!(ssh.command_timeout(), 1);
}

#[test]
fn daemon_is_alive_while_it_beats() {
    let beat = Some(ServeHeartbeat {
        pid: 7,
        beat_unix: 1000,
    });
    assert!(is_alive(beat, 1044));
    assert!(!is_alive(beat, 1046));
    assert!(!is_alive(None, 0));
    assert!(is_ours(beat, 7));
    assert!(!is_ours(beat, 8));
    assert_eq!(beat_age(1000, 990), 0);
    assert_eq!(now_unix(None), 0);
    assert!(show_daemon(beat, 1001).contains('7'));
}

fn adoption(runner: &str) -> Adoption {
    Adoption {
        run_id: "r1".into(),
        host: "gm00".into(),
        job_id: Some("31842".into()),
        runner: runner.into(),
        terminal: None,
        has_callbacks: false,
        session_id: None,
        project: None,
        agent: None,
    }
}

#[test]
fn command_line_adopts_runs() {
    let run = adopted_run(adoption("slurm"), clock()).unwrap();
    assert_eq!(run.runner, RunnerKind::Slurm);
    assert_eq!(run.job_id.as_deref(), Some("31842"));
    assert!(adopted_run(adoption("pbs"), clock()).is_err());
    let mut retired = adoption("slurm");
    retired.has_callbacks = true;
    assert!(adopted_run(retired, clock()).is_err());
    assert!(parse_runner("lsf").is_ok());
    assert_eq!(pad_right("ab", 4), "ab  ");
    assert_eq!(pad_right("abcde", 4), "abcde");
    let line = list_line(&RunRecord::new(
        "r1".into(),
        "gm00".into(),
        RunnerKind::Lsf,
        clock(),
    ));
    assert!(line.contains("r1"));
    assert!(line.contains("gm00"));
}

#[test]
fn console_answers_are_put_into_words() {
    assert_eq!(format_logs("a", "b"), "STDOUT\na\n\nSTDERR\nb");
    assert_eq!(
        format_artifacts(&vec![]),
        "No lifecycle artifacts reported."
    );
    assert_eq!(
        format_artifacts(&vec![
            ArtifactLine {
                kind: Some("script".into()),
                path: Some("/run.sh".into()),
            },
            ArtifactLine {
                kind: None,
                path: None,
            },
        ]),
        "script\n/run.sh\n\nartifact\n-"
    );
    let card = host_card(
        "gw",
        None,
        "gw.example",
        22,
        &vec!["a".into(), "b".into()],
    );
    assert_eq!(card.endpoint, "?@gw.example:22");
    assert_eq!(card.route, "ProxyJump · a → b");
    assert_eq!(
        package_summary(Siblings::Found {
            runwatch: false,
            mcp: true,
            gui: false,
        }),
        "package siblings missing: runwatch.exe, runwatch-gui.exe"
    );
    let told = probe_notice("r1", &Ok(vec!["x".into(), "y".into()]));
    assert_eq!(told.kind, NoticeKind::Attention);
    assert_eq!(told.body, "x; y");
    let facts = read_daemon(
        None,
        Some(1),
        &Some(vec![Some("retry_run_v1".into()), None]),
        Some(9),
        None,
    );
    assert_eq!(facts.version, "unknown");
    assert_eq!(facts.capabilities, 2);
    assert!(facts.retry_supported);
    assert!(!facts.manual_submit_supported);
}
