//! How the daemon and the console are started with the machine.
use crate::codex;
use crate::codex::strip_verbatim;
use crate::encoding;
use crate::encoding::utf16le_marked;
use crate::paths;
use crate::paths::{join_path, PathStyle};
use crate::supervisor::SupervisorHeartbeat;
use crate::text;
use crate::text::{blank, chars_of, decimal_text, trim};
use vstd::prelude::*;
use vstd::string::*;

verus! {

pub const GUI_STARTUP_NAME: &'static str = "runwatch-gui.cmd";

pub const LEGACY_GUI_STARTUP_NAME: &'static str = "runwatch.cmd";

pub const DAEMON_TASK_NAME: &'static str = "runwatchd";

pub const DEFAULT_DAEMON_INTERVAL_SEC: u64 = 20;

/// For how many seconds the daemon is given to stop.
pub const DAEMON_STOP_TIMEOUT_SEC: u64 = 10;

// ---------------------------------------------------------------------------
// The console
// ---------------------------------------------------------------------------

/// The directory whose files Windows starts with the user's session.
pub open spec fn startup_dir(appdata: Seq<char>, style: PathStyle) -> Seq<char> {
    paths::joined_path(
        paths::joined_path(
            paths::joined_path(
                paths::joined_path(
                    paths::joined_path(appdata, "Microsoft"@, style),
                    "Windows"@,
                    style,
                ),
                "Start Menu"@,
                style,
            ),
            "Programs"@,
            style,
        ),
        "Startup"@,
        style,
    )
}

pub fn gui_startup_dir(appdata: Option<String>, style: PathStyle) -> (result: Result<String, String>)
    ensures
        match (text::text_opt(appdata), result) {
            (Some(appdata), Ok(dir)) => dir@ == startup_dir(appdata, style),
            (None, Err(reason)) => reason@ == "APPDATA not set"@,
            _ => false,
        },
{
    match appdata {
        None => Err("APPDATA not set".to_owned()),
        Some(appdata) => {
            let dir = join_path(appdata.as_str(), "Microsoft", style);
            let dir = join_path(dir.as_str(), "Windows", style);
            let dir = join_path(dir.as_str(), "Start Menu", style);
            let dir = join_path(dir.as_str(), "Programs", style);
            Ok(join_path(dir.as_str(), "Startup", style))
        },
    }
}

pub fn gui_startup_path(appdata: Option<String>, style: PathStyle) -> (result: Result<
    String,
    String,
>)
    ensures
        match (text::text_opt(appdata), result) {
            (Some(appdata), Ok(path)) => path@ == paths::joined_path(
                startup_dir(appdata, style),
                GUI_STARTUP_NAME@,
                style,
            ),
            (None, Err(reason)) => reason@ == "APPDATA not set"@,
            _ => false,
        },
{
    match gui_startup_dir(appdata, style) {
        Ok(dir) => Ok(join_path(dir.as_str(), GUI_STARTUP_NAME, style)),
        Err(reason) => Err(reason),
    }
}

pub fn legacy_gui_startup_path(appdata: Option<String>, style: PathStyle) -> (result: Result<
    String,
    String,
>)
    ensures
        match (text::text_opt(appdata), result) {
            (Some(appdata), Ok(path)) => path@ == paths::joined_path(
                startup_dir(appdata, style),
                LEGACY_GUI_STARTUP_NAME@,
                style,
            ),
            (None, Err(reason)) => reason@ == "APPDATA not set"@,
            _ => false,
        },
{
    match gui_startup_dir(appdata, style) {
        Ok(dir) => Ok(join_path(dir.as_str(), LEGACY_GUI_STARTUP_NAME, style)),
        Err(reason) => Err(reason),
    }
}

/// Whether the console is started, by which of its two files are there.
pub fn gui_is_enabled(current_exists: bool, legacy_exists: bool) -> (enabled: bool)
    ensures
        enabled == (current_exists || legacy_exists),
{
    current_exists || legacy_exists
}

/// The file that starts the console.
pub fn gui_startup_body(exe: &str) -> (body: String)
    ensures
        body@ == "@echo off\r\nstart \"\" \""@ + exe@ + "\"\r\n"@,
{
    let mut body = "@echo off\r\nstart \"\" \"".to_owned();
    body.append(exe);
    body.append("\"\r\n");
    body
}

// ---------------------------------------------------------------------------
// The daemon's task
// ---------------------------------------------------------------------------

pub fn daemon_task_name() -> (name: &'static str)
    ensures
        name@ == DAEMON_TASK_NAME@,
{
    DAEMON_TASK_NAME
}

/// Whether the task is registered, by what the scheduler says where it could be
/// asked.
pub fn daemon_is_enabled(style: PathStyle, query_succeeded: Option<bool>) -> (enabled: bool)
    ensures
        enabled == (style == PathStyle::Windows && query_succeeded == Some(true)),
{
    style == PathStyle::Windows && query_succeeded == Some(true)
}

/// A path as the scheduler takes it.
pub fn task_scheduler_path(path: &str) -> (plain: String)
    ensures
        plain@ == codex::plain_path(path@),
{
    strip_verbatim(path)
}

/// A character as it stands in XML text.
pub open spec fn entity(ch: char) -> Seq<char> {
    if ch == '&' {
        "&amp;"@
    } else if ch == '<' {
        "&lt;"@
    } else if ch == '>' {
        "&gt;"@
    } else if ch == '"' {
        "&quot;"@
    } else if ch == '\'' {
        "&apos;"@
    } else {
        seq![ch]
    }
}

/// A text as it stands in XML.
pub open spec fn xml_text(value: Seq<char>) -> Seq<char>
    decreases value.len(),
{
    if value.len() == 0 {
        value
    } else {
        xml_text(value.drop_last()) + entity(value.last())
    }
}

pub fn xml_escape(value: &str) -> (escaped: String)
    ensures
        escaped@ == xml_text(value@),
{
    let chars = chars_of(value);
    let mut escaped = String::new();
    let mut i: usize = 0;
    assert(value@.take(0) =~= Seq::<char>::empty());
    while i < chars.len()
        invariant
            i <= chars@.len(),
            chars@ == value@,
            escaped@ == xml_text(value@.take(i as int)),
        decreases chars@.len() - i,
    {
        let ch = chars[i];
        proof {
            let now = value@.take(i + 1);
            assert(now.drop_last() =~= value@.take(i as int));
            assert(now.last() == ch);
        }
        if ch == '&' {
            escaped.append("&amp;");
        } else if ch == '<' {
            escaped.append("&lt;");
        } else if ch == '>' {
            escaped.append("&gt;");
        } else if ch == '"' {
            escaped.append("&quot;");
        } else if ch == '\'' {
            escaped.append("&apos;");
        } else {
            let ghost before = escaped@;
            escaped.push(ch);
            assert(escaped@ =~= before + seq![ch]);
        }
        i += 1;
    }
    assert(value@.take(i as int) =~= value@);
    escaped
}

/// The task that keeps a supervisor running: started at logon and every minute,
/// once at a time, without a limit on how long it runs.
pub open spec fn task_xml(
    exe: Seq<char>,
    working_dir: Seq<char>,
    user: Seq<char>,
    interval_sec: u64,
    start_boundary: Seq<char>,
) -> Seq<char> {
    "<?xml version=\"1.0\" encoding=\"UTF-16\"?>\n<Task version=\"1.4\" xmlns=\"http://schemas.microsoft.com/windows/2004/02/mit/task\">\n  <RegistrationInfo>\n    <Description>Durable runwatch daemon for long-running scientific computations.</Description>\n  </RegistrationInfo>\n  <Triggers>\n    <TimeTrigger>\n      <Repetition>\n        <Interval>PT1M</Interval>\n        <StopAtDurationEnd>false</StopAtDurationEnd>\n      </Repetition>\n      <StartBoundary>"@
        + xml_text(start_boundary)
        + "</StartBoundary>\n      <Enabled>true</Enabled>\n    </TimeTrigger>\n    <LogonTrigger>\n      <Enabled>true</Enabled>\n      <UserId>"@
        + xml_text(user)
        + "</UserId>\n    </LogonTrigger>\n  </Triggers>\n  <Principals>\n    <Principal id=\"Author\">\n      <UserId>"@
        + xml_text(user)
        + "</UserId>\n      <LogonType>InteractiveToken</LogonType>\n      <RunLevel>LeastPrivilege</RunLevel>\n    </Principal>\n  </Principals>\n  <Settings>\n    <MultipleInstancesPolicy>IgnoreNew</MultipleInstancesPolicy>\n    <DisallowStartIfOnBatteries>false</DisallowStartIfOnBatteries>\n    <StopIfGoingOnBatteries>false</StopIfGoingOnBatteries>\n    <AllowHardTerminate>true</AllowHardTerminate>\n    <StartWhenAvailable>true</StartWhenAvailable>\n    <RunOnlyIfNetworkAvailable>false</RunOnlyIfNetworkAvailable>\n    <AllowStartOnDemand>true</AllowStartOnDemand>\n    <Enabled>true</Enabled>\n    <Hidden>true</Hidden>\n    <RunOnlyIfIdle>false</RunOnlyIfIdle>\n    <WakeToRun>false</WakeToRun>\n    <ExecutionTimeLimit>PT0S</ExecutionTimeLimit>\n    <Priority>7</Priority>\n  </Settings>\n  <Actions Context=\"Author\">\n    <Exec>\n      <Command>"@
        + xml_text(codex::plain_path(exe))
        + "</Command>\n      <Arguments>supervise --interval "@
        + text::decimal(interval_sec as nat)
        + "</Arguments>\n      <WorkingDirectory>"@
        + xml_text(codex::plain_path(working_dir))
        + "</WorkingDirectory>\n    </Exec>\n  </Actions>\n</Task>\n"@
}

/// Why there is no such task.
pub open spec fn task_refusal(working_dir: Option<Seq<char>>, interval_sec: u64) -> Option<
    Seq<char>,
> {
    if interval_sec < 1 || interval_sec > 3600 {
        Some("daemon interval must be between 1 and 3600 seconds"@)
    } else if working_dir is None {
        Some("runwatch executable has no parent directory"@)
    } else {
        None
    }
}

/// The task, started by the clock from `start_boundary` on.
pub fn daemon_task_xml(
    exe: &str,
    working_dir: Option<&str>,
    user: &str,
    interval_sec: u64,
    start_boundary: &str,
) -> (result: Result<String, String>)
    ensures
        match result {
            Ok(xml) => {
                &&& interval_sec >= 1 && interval_sec <= 3600
                &&& working_dir matches Some(dir) && xml@ == task_xml(
                    exe@,
                    dir@,
                    user@,
                    interval_sec,
                    start_boundary@,
                )
            },
            Err(reason) => task_refusal(
                match working_dir {
                    Some(dir) => Some(dir@),
                    None => None,
                },
                interval_sec,
            ) == Some(reason@),
        },
{
    if interval_sec < 1 || interval_sec > 3600 {
        return Err("daemon interval must be between 1 and 3600 seconds".to_owned());
    }
    let working_dir = match working_dir {
        Some(dir) => dir,
        None => return Err("runwatch executable has no parent directory".to_owned()),
    };
    let user = xml_escape(user);
    let mut xml = "<?xml version=\"1.0\" encoding=\"UTF-16\"?>\n<Task version=\"1.4\" xmlns=\"http://schemas.microsoft.com/windows/2004/02/mit/task\">\n  <RegistrationInfo>\n    <Description>Durable runwatch daemon for long-running scientific computations.</Description>\n  </RegistrationInfo>\n  <Triggers>\n    <TimeTrigger>\n      <Repetition>\n        <Interval>PT1M</Interval>\n        <StopAtDurationEnd>false</StopAtDurationEnd>\n      </Repetition>\n      <StartBoundary>".to_owned();
    xml.append(xml_escape(start_boundary).as_str());
    xml.append("</StartBoundary>\n      <Enabled>true</Enabled>\n    </TimeTrigger>\n    <LogonTrigger>\n      <Enabled>true</Enabled>\n      <UserId>");
    xml.append(user.as_str());
    xml.append("</UserId>\n    </LogonTrigger>\n  </Triggers>\n  <Principals>\n    <Principal id=\"Author\">\n      <UserId>");
    xml.append(user.as_str());
    xml.append("</UserId>\n      <LogonType>InteractiveToken</LogonType>\n      <RunLevel>LeastPrivilege</RunLevel>\n    </Principal>\n  </Principals>\n  <Settings>\n    <MultipleInstancesPolicy>IgnoreNew</MultipleInstancesPolicy>\n    <DisallowStartIfOnBatteries>false</DisallowStartIfOnBatteries>\n    <StopIfGoingOnBatteries>false</StopIfGoingOnBatteries>\n    <AllowHardTerminate>true</AllowHardTerminate>\n    <StartWhenAvailable>true</StartWhenAvailable>\n    <RunOnlyIfNetworkAvailable>false</RunOnlyIfNetworkAvailable>\n    <AllowStartOnDemand>true</AllowStartOnDemand>\n    <Enabled>true</Enabled>\n    <Hidden>true</Hidden>\n    <RunOnlyIfIdle>false</RunOnlyIfIdle>\n    <WakeToRun>false</WakeToRun>\n    <ExecutionTimeLimit>PT0S</ExecutionTimeLimit>\n    <Priority>7</Priority>\n  </Settings>\n  <Actions Context=\"Author\">\n    <Exec>\n      <Command>");
    xml.append(xml_escape(task_scheduler_path(exe).as_str()).as_str());
    xml.append("</Command>\n      <Arguments>supervise --interval ");
    xml.append(decimal_text(interval_sec).as_str());
    xml.append("</Arguments>\n      <WorkingDirectory>");
    xml.append(xml_escape(task_scheduler_path(working_dir).as_str()).as_str());
    xml.append("</WorkingDirectory>\n    </Exec>\n  </Actions>\n</Task>\n");
    Ok(xml)
}

/// A text in UTF-16 behind its mark.
pub open spec fn marked_units(value: Seq<char>) -> Seq<u8> {
    encoding::little_endian(encoding::order_mark() + encoding::utf16_units(value))
}

/// The file in which the scheduler reads the task: UTF-16 behind its mark.
pub fn write_task_xml(xml: &str) -> (bytes: Vec<u8>)
    ensures
        bytes@ == marked_units(xml@),
{
    utf16le_marked(xml)
}

/// The user as Windows names them.
pub fn current_user_identity(user: Option<String>, domain: Option<String>) -> (result: Result<
    String,
    String,
>)
    ensures
        match (text::text_opt(user), result) {
            (None, Err(reason)) => reason@ == "USERNAME not set"@,
            (Some(user), Ok(name)) => name@ == (match text::text_opt(domain) {
                Some(domain) if !text::is_blank(domain) => domain + "\\"@ + user,
                _ => user,
            }),
            _ => false,
        },
{
    let user = match user {
        Some(user) => user,
        None => return Err("USERNAME not set".to_owned()),
    };
    if let Some(domain) = domain {
        if !blank(domain.as_str()) {
            let mut name = domain;
            name.append("\\");
            name.append(user.as_str());
            return Ok(name);
        }
    }
    Ok(user)
}

/// What a tool that failed has printed.
pub open spec fn tool_failure(action: Seq<char>, stdout: Seq<char>, stderr: Seq<char>) -> Seq<char> {
    let out = text::trimmed(stdout);
    let err = text::trimmed(stderr);
    action + " failed: "@ + out + (if out.len() > 0 && err.len() > 0 {
        " | "@
    } else {
        ""@
    }) + err
}

fn tell_failure(action: &str, stdout: &str, stderr: &str) -> (message: String)
    ensures
        message@ == tool_failure(action@, stdout@, stderr@),
{
    let out = trim(stdout);
    let err = trim(stderr);
    let mut message = action.to_owned();
    message.append(" failed: ");
    message.append(out.as_str());
    if !out.as_str().is_empty() && !err.as_str().is_empty() {
        message.append(" | ");
    } else {
        message.append("");
    }
    message.append(err.as_str());
    message
}

pub fn require_schtasks(success: bool, stdout: &str, stderr: &str, action: &str) -> (result: Result<
    (),
    String,
>)
    ensures
        match result {
            Ok(_) => success,
            Err(reason) => !success && reason@ == tool_failure(action@, stdout@, stderr@),
        },
{
    if success {
        Ok(())
    } else {
        Err(tell_failure(action, stdout, stderr))
    }
}

/// The task as it is to be registered.
pub struct TaskInstall {
    /// What the scheduler reads.
    pub xml: Vec<u8>,
    /// The file in the data directory in which it reads that.
    pub file_name: String,
}

/// The name of the file in which the scheduler reads the task.
pub open spec fn task_file_name(pid: u32) -> Seq<char> {
    ".runwatchd-task-"@ + text::decimal(pid as nat) + ".xml"@
}

/// What is registered for an executable at a resolved path.
pub fn install_daemon(
    exe: &str,
    exe_is_file: bool,
    working_dir: Option<&str>,
    user: &str,
    interval_sec: u64,
    start_boundary: &str,
    pid: u32,
    style: PathStyle,
) -> (result: Result<TaskInstall, String>)
    ensures
        match result {
            Ok(task) => {
                &&& style == PathStyle::Windows
                &&& exe_is_file
                &&& interval_sec >= 1 && interval_sec <= 3600
                &&& task.file_name@ == task_file_name(pid)
                &&& working_dir matches Some(dir) && task.xml@ == marked_units(
                    task_xml(exe@, dir@, user@, interval_sec, start_boundary@),
                )
            },
            Err(reason) => if style != PathStyle::Windows {
                reason@ == "runwatchd Task Scheduler autostart is only available on Windows"@
            } else if !exe_is_file {
                reason@ == "runwatch executable is not a file: "@ + exe@
            } else {
                task_refusal(
                    match working_dir {
                        Some(dir) => Some(dir@),
                        None => None,
                    },
                    interval_sec,
                ) == Some(reason@)
            },
        },
{
    if style != PathStyle::Windows {
        return Err("runwatchd Task Scheduler autostart is only available on Windows".to_owned());
    }
    if !exe_is_file {
        let mut reason = "runwatch executable is not a file: ".to_owned();
        reason.append(exe);
        return Err(reason);
    }
    let xml = match daemon_task_xml(exe, working_dir, user, interval_sec, start_boundary) {
        Ok(xml) => xml,
        Err(reason) => return Err(reason),
    };
    let mut file_name = ".runwatchd-task-".to_owned();
    file_name.append(decimal_text(pid as u64).as_str());
    file_name.append(".xml");
    Ok(TaskInstall { xml: write_task_xml(xml.as_str()), file_name })
}

// ---------------------------------------------------------------------------
// Taking the task away
// ---------------------------------------------------------------------------

/// What is done next to take the task away.
pub enum RemoveAction {
    /// Ask whether it is registered.
    Query,
    /// Tell the scheduler to end it.
    End,
    /// Wait a moment for the daemon to stop.
    AwaitBriefly,
    /// Look whether the supervisor still holds its lock.
    LookAtSupervisor,
    /// End the supervisor.
    Terminate,
    /// Look whether the supervisor or the daemon holds its lock. Where one does,
    /// the failure is told.
    LookAtRuntime { failure: String },
    /// Wait for the daemon to stop.
    Await,
    /// Take the registration away.
    Delete,
    /// Nothing: it was taken away, or was not there, or it could not be.
    Finish(Result<bool, String>),
}

/// What came of an action: whether it succeeded, or whether what was looked for
/// is so, and what was printed.
pub struct RemoveAnswer {
    pub yes: bool,
    pub stdout: String,
    pub stderr: String,
}

pub const STILL_ACTIVE: &'static str =
    "runwatchd resident runtime is still active after 10s; refusing to remove the Task Scheduler registration while the old package may still be in use";

/// Whether the one action comes after the other.
pub open spec fn follows(action: RemoveAction, answer: RemoveAnswer, next: RemoveAction) -> bool {
    match action {
        RemoveAction::Query => if answer.yes {
            next is End
        } else {
            next matches RemoveAction::Finish(Ok(removed)) && !removed
        },
        RemoveAction::End => if answer.yes {
            next is AwaitBriefly
        } else {
            next matches RemoveAction::LookAtRuntime { failure } && failure@ == tool_failure(
                "stop runwatchd Task Scheduler task"@,
                answer.stdout@,
                answer.stderr@,
            )
        },
        RemoveAction::AwaitBriefly => if answer.yes {
            next is Await
        } else {
            next is LookAtSupervisor
        },
        RemoveAction::LookAtSupervisor => if answer.yes {
            next is Terminate
        } else {
            next is Await
        },
        RemoveAction::Terminate => if answer.yes {
            next is Await
        } else {
            next matches RemoveAction::Finish(Err(reason)) && reason@ == answer.stderr@
        },
        RemoveAction::LookAtRuntime { failure } => if answer.yes {
            next matches RemoveAction::Finish(Err(reason)) && reason@ == failure@
        } else {
            next is Await
        },
        RemoveAction::Await => if answer.yes {
            next is Delete
        } else {
            next matches RemoveAction::Finish(Err(reason)) && reason@ == STILL_ACTIVE@
        },
        RemoveAction::Delete => if answer.yes {
            next matches RemoveAction::Finish(Ok(removed)) && removed
        } else {
            next matches RemoveAction::Finish(Err(reason)) && reason@ == tool_failure(
                "remove runwatchd Task Scheduler task"@,
                answer.stdout@,
                answer.stderr@,
            )
        },
        RemoveAction::Finish(done) => next == action,
    }
}

/// What is done first to take the task away.
pub fn remove_daemon(style: PathStyle) -> (first: RemoveAction)
    ensures
        if style == PathStyle::Windows {
            first is Query
        } else {
            first matches RemoveAction::Finish(Ok(removed)) && !removed
        },
{
    if style == PathStyle::Windows {
        RemoveAction::Query
    } else {
        RemoveAction::Finish(Ok(false))
    }
}

/// What is done after an action.
pub fn next_removal(action: RemoveAction, answer: RemoveAnswer) -> (next: RemoveAction)
    ensures
        follows(action, answer, next),
{
    match action {
        RemoveAction::Query => if answer.yes {
            RemoveAction::End
        } else {
            RemoveAction::Finish(Ok(false))
        },
        RemoveAction::End => if answer.yes {
            RemoveAction::AwaitBriefly
        } else {
            RemoveAction::LookAtRuntime {
                failure: tell_failure(
                    "stop runwatchd Task Scheduler task",
                    answer.stdout.as_str(),
                    answer.stderr.as_str(),
                ),
            }
        },
        RemoveAction::AwaitBriefly => if answer.yes {
            RemoveAction::Await
        } else {
            RemoveAction::LookAtSupervisor
        },
        RemoveAction::LookAtSupervisor => if answer.yes {
            RemoveAction::Terminate
        } else {
            RemoveAction::Await
        },
        RemoveAction::Terminate => if answer.yes {
            RemoveAction::Await
        } else {
            RemoveAction::Finish(Err(answer.stderr))
        },
        RemoveAction::LookAtRuntime { failure } => if answer.yes {
            RemoveAction::Finish(Err(failure))
        } else {
            RemoveAction::Await
        },
        RemoveAction::Await => if answer.yes {
            RemoveAction::Delete
        } else {
            RemoveAction::Finish(Err(STILL_ACTIVE.to_owned()))
        },
        RemoveAction::Delete => if answer.yes {
            RemoveAction::Finish(Ok(true))
        } else {
            RemoveAction::Finish(
                Err(
                    tell_failure(
                        "remove runwatchd Task Scheduler task",
                        answer.stdout.as_str(),
                        answer.stderr.as_str(),
                    ),
                ),
            )
        },
        RemoveAction::Finish(done) => RemoveAction::Finish(done),
    }
}

/// Whether the daemon or its supervisor runs.
pub fn resident_runtime_owner_held(supervisor_held: bool, daemon_held: bool) -> (held: bool)
    ensures
        held == (supervisor_held || daemon_held),
{
    supervisor_held || daemon_held
}

/// Whether waiting for the daemon to stop is over, and whether it has stopped.
pub fn wait_for_resident_runtime_stopped(held: bool, time_is_over: bool) -> (stopped: Option<bool>)
    ensures
        stopped == (if !held {
            Some(true)
        } else if time_is_over {
            Some(false)
        } else {
            None
        }),
{
    if !held {
        Some(true)
    } else if time_is_over {
        Some(false)
    } else {
        None
    }
}

/// The supervisor that is to be ended, where one holds its lock.
pub fn terminate_task_owned_supervisor(
    lock_held: bool,
    heartbeat: Option<SupervisorHeartbeat>,
    own_pid: u32,
) -> (result: Result<Option<u32>, String>)
    ensures
        match result {
            Ok(None) => !lock_held,
            Ok(Some(pid)) => {
                &&& lock_held
                &&& pid != own_pid
                &&& heartbeat matches Some(beat) && beat.pid == pid
            },
            Err(reason) => {
                &&& lock_held
                &&& match heartbeat {
                    None => reason@
                        == "runwatch supervise lock is held but supervise.pid is missing or invalid; refusing to terminate an unverified process"@,
                    Some(beat) => beat.pid == own_pid && reason@
                        == "refusing to terminate the current process while removing runwatchd autostart"@,
                }
            },
        },
{
    if !lock_held {
        return Ok(None);
    }
    match heartbeat {
        None => Err(
            "runwatch supervise lock is held but supervise.pid is missing or invalid; refusing to terminate an unverified process".to_owned(),
        ),
        Some(beat) => if beat.pid == own_pid {
            Err(
                "refusing to terminate the current process while removing runwatchd autostart".to_owned(),
            )
        } else {
            Ok(Some(beat.pid))
        },
    }
}

/// Whether the supervisor was ended: where the tool failed, it must have let go
/// of its lock.
pub fn check_termination(
    pid: u32,
    success: bool,
    lock_held: bool,
    stdout: &str,
    stderr: &str,
) -> (result: Result<(), String>)
    ensures
        match result {
            Ok(_) => success || !lock_held,
            Err(reason) => !success && lock_held && reason@
                == "failed to terminate runwatch supervisor pid "@ + text::decimal(pid as nat)
                + " while removing autostart: stdout="@ + text::trimmed(stdout@) + " stderr="@
                + text::trimmed(stderr@),
        },
{
    if success || !lock_held {
        return Ok(());
    }
    let mut reason = "failed to terminate runwatch supervisor pid ".to_owned();
    reason.append(decimal_text(pid as u64).as_str());
    reason.append(" while removing autostart: stdout=");
    reason.append(trim(stdout).as_str());
    reason.append(" stderr=");
    reason.append(trim(stderr).as_str());
    Err(reason)
}

// ---------------------------------------------------------------------------
// Laws
// ---------------------------------------------------------------------------

/// A text in XML holds no character that would end it.
pub proof fn escaped_text_is_plain(value: Seq<char>)
    ensures
        !text::has_char(xml_text(value), '<'),
        !text::has_char(xml_text(value), '>'),
        !text::has_char(xml_text(value), '"'),
        !text::has_char(xml_text(value), '\''),
    decreases value.len(),
{
    reveal_strlit("&amp;");
    reveal_strlit("&lt;");
    reveal_strlit("&gt;");
    reveal_strlit("&quot;");
    reveal_strlit("&apos;");
    if value.len() > 0 {
        escaped_text_is_plain(value.drop_last());
        let head = xml_text(value.drop_last());
        let tail = entity(value.last());
        let whole = head + tail;
        assert forall|ch: char| #[trigger] text::has_char(whole, ch) implies text::has_char(
            head,
            ch,
        ) || text::has_char(tail, ch) by {
            let i = choose|i: int| 0 <= i < whole.len() && whole[i] == ch;
            if i < head.len() {
                assert(head[i] == ch);
            } else {
                assert(tail[i - head.len()] == ch);
            }
        }
        assert(!text::has_char(tail, '<') && !text::has_char(tail, '>') && !text::has_char(
            tail,
            '"',
        ) && !text::has_char(tail, '\''));
    }
}

/// The registration is taken away only after the daemon and its supervisor were
/// seen to have stopped.
pub proof fn registration_outlives_the_daemon(
    action: RemoveAction,
    answer: RemoveAnswer,
    next: RemoveAction,
)
    requires
        follows(action, answer, next),
        next is Delete,
    ensures
        action is Await,
        answer.yes,
{
}

/// That the task was taken away is said only after the scheduler did so.
pub proof fn success_is_reported_only_after_removal(
    action: RemoveAction,
    answer: RemoveAnswer,
    next: RemoveAction,
)
    requires
        follows(action, answer, next),
        !(action is Finish),
        next matches RemoveAction::Finish(Ok(removed)) && removed,
    ensures
        action is Delete,
        answer.yes,
{
}

/// The task starts the supervisor from the program and in the directory that are
/// given, at the interval that is given.
pub proof fn task_starts_the_supervisor(
    exe: Seq<char>,
    working_dir: Seq<char>,
    user: Seq<char>,
    interval_sec: u64,
    start_boundary: Seq<char>,
)
    ensures
        text::has_part(
            task_xml(exe, working_dir, user, interval_sec, start_boundary),
            xml_text(codex::plain_path(exe)) + "</Command>\n      <Arguments>supervise --interval "@
                + text::decimal(interval_sec as nat)
                + "</Arguments>\n      <WorkingDirectory>"@ + xml_text(
                codex::plain_path(working_dir),
            ) + "</WorkingDirectory>\n    </Exec>\n  </Actions>\n</Task>\n"@,
        ),
{
    let whole = task_xml(exe, working_dir, user, interval_sec, start_boundary);
    let part = xml_text(codex::plain_path(exe))
        + "</Command>\n      <Arguments>supervise --interval "@ + text::decimal(interval_sec as nat)
        + "</Arguments>\n      <WorkingDirectory>"@ + xml_text(codex::plain_path(working_dir))
        + "</WorkingDirectory>\n    </Exec>\n  </Actions>\n</Task>\n"@;
    let front = whole.take(whole.len() - part.len());
    assert(whole.skip(whole.len() - part.len()) =~= part);
    assert(whole =~= front + part + Seq::<char>::empty());
    text::lemma_part_within(front, part, Seq::empty());
}

/// A task is made only at an interval of one second to one hour and of a program
/// that lies in a directory.
pub proof fn task_is_checked(working_dir: Option<Seq<char>>, interval_sec: u64)
    ensures
        task_refusal(working_dir, interval_sec) is None <==> 1 <= interval_sec <= 3600
            && working_dir is Some,
{
}

/// Taking the registration away goes on step by step: what was not registered is
/// not there; what could not be ended, or still runs, stays registered.
pub proof fn removal_goes_step_by_step(
    action: RemoveAction,
    answer: RemoveAnswer,
    next: RemoveAction,
)
    requires
        follows(action, answer, next),
    ensures
        action is Query && answer.yes ==> next is End,
        action is Query && !answer.yes ==> (next matches RemoveAction::Finish(Ok(removed))
            && !removed),
        action is End && answer.yes ==> next is AwaitBriefly,
        action is End && !answer.yes ==> next is LookAtRuntime,
        action is AwaitBriefly && answer.yes ==> next is Await,
        action is AwaitBriefly && !answer.yes ==> next is LookAtSupervisor,
        action is LookAtSupervisor && answer.yes ==> next is Terminate,
        action is LookAtSupervisor && !answer.yes ==> next is Await,
        action is Terminate && answer.yes ==> next is Await,
        action is Terminate && !answer.yes ==> (next matches RemoveAction::Finish(Err(_))),
        action is LookAtRuntime && answer.yes ==> (next matches RemoveAction::Finish(Err(_))),
        action is LookAtRuntime && !answer.yes ==> next is Await,
        action is Await && answer.yes ==> next is Delete,
        action is Await && !answer.yes ==> (next matches RemoveAction::Finish(Err(_))),
        action is Delete && answer.yes ==> (next matches RemoveAction::Finish(Ok(removed))
            && removed),
        action is Delete && !answer.yes ==> (next matches RemoveAction::Finish(Err(_))),
{
}

/// A character that means something in XML is written as its entity, and every
/// other one as itself.
pub proof fn entities_are_written(value: Seq<char>, ch: char)
    ensures
        xml_text(value.push(ch)) == xml_text(value) + (if ch == '&' {
            "&amp;"@
        } else if ch == '<' {
            "&lt;"@
        } else if ch == '>' {
            "&gt;"@
        } else if ch == '"' {
            "&quot;"@
        } else if ch == '\'' {
            "&apos;"@
        } else {
            seq![ch]
        }),
{
    assert(value.push(ch).drop_last() =~= value);
}

/// The file for the scheduler starts with the byte order mark of UTF-16 with the
/// lower byte first, and the text follows.
pub proof fn task_file_is_marked(value: Seq<char>)
    ensures
        marked_units(value) == seq![0xFFu8, 0xFEu8] + encoding::little_endian(
            encoding::utf16_units(value),
        ),
{
    lemma_marked(encoding::utf16_units(value));
}

proof fn lemma_marked(units: Seq<u16>)
    ensures
        encoding::little_endian(encoding::order_mark() + units) == seq![0xFFu8, 0xFEu8]
            + encoding::little_endian(units),
    decreases units.len(),
{
    let mark = encoding::order_mark();
    let whole = mark + units;
    if units.len() == 0 {
        assert(whole =~= Seq::<u16>::empty().push(0xFEFFu16));
        encoding::lemma_little_endian_push(Seq::empty(), 0xFEFFu16);
        assert(encoding::little_endian(Seq::<u16>::empty()) =~= Seq::<u8>::empty());
        assert(encoding::little_endian(whole) =~= seq![0xFFu8, 0xFEu8]
            + encoding::little_endian(units));
    } else {
        lemma_marked(units.drop_last());
        assert(whole.drop_last() =~= mark + units.drop_last());
        assert(encoding::little_endian(whole) =~= seq![0xFFu8, 0xFEu8]
            + encoding::little_endian(units));
    }
}

/// On Windows the files that start with the session lie in the directory of that
/// name under the user's data.
pub proof fn startup_files_lie_where_windows_looks(appdata: Seq<char>)
    requires
        appdata.len() > 2,
        !PathStyle::Windows.separates(appdata.last()),
    ensures
        startup_dir(appdata, PathStyle::Windows) == appdata
            + "\\Microsoft\\Windows\\Start Menu\\Programs\\Startup"@,
{
    reveal_strlit("Microsoft");
    reveal_strlit("Windows");
    reveal_strlit("Start Menu");
    reveal_strlit("Programs");
    reveal_strlit("Startup");
    reveal_strlit("\\");
    reveal_strlit("\\Microsoft\\Windows\\Start Menu\\Programs\\Startup");
    let style = PathStyle::Windows;
    let a = paths::joined_path(appdata, "Microsoft"@, style);
    assert(a == appdata + "\\"@ + "Microsoft"@);
    assert(a.last() == 't');
    let b = paths::joined_path(a, "Windows"@, style);
    assert(b == a + "\\"@ + "Windows"@);
    assert(b.last() == 's');
    let c = paths::joined_path(b, "Start Menu"@, style);
    assert(c == b + "\\"@ + "Start Menu"@);
    assert(c.last() == 'u');
    let d = paths::joined_path(c, "Programs"@, style);
    assert(d == c + "\\"@ + "Programs"@);
    assert(d.last() == 's');
    assert(startup_dir(appdata, style) == d + "\\"@ + "Startup"@);
    assert(startup_dir(appdata, style) =~= appdata
        + "\\Microsoft\\Windows\\Start Menu\\Programs\\Startup"@);
}

} // verus!
