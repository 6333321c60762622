//! Agents that are started when nobody is there to take a notice.
use crate::encoding;
use crate::encoding::encode_base64;
use crate::paths;
use crate::paths::{join_path, PathStyle};
use crate::seqs;
use crate::seqs::copy_rows;
use crate::store::deliveries;
use crate::store::offline;
use crate::store::RunStore;
use crate::text;
use crate::text::{decimal_text, same, to_ascii_lowercase};
use crate::time::Timestamp;
use crate::types::{AgentInvocationRecord, AgentInvocationRecordView};
use vstd::prelude::*;
use vstd::string::*;

verus! {

/// How long a notice waits for its own session before an agent is started, in
/// seconds.
pub const OFFLINE_GRACE: u64 = 20;

/// How many agents are started in one round.
pub const MAX_LAUNCHES_PER_TICK: usize = 2;

/// How long an agent may run, in seconds.
pub const MAX_AGENT_RUNTIME: u64 = 21_600;

/// How often the notice of an agent is looked at, in milliseconds.
pub const DELIVERY_STDIN_POLL: u64 = 500;

/// How long a daemon that has just started leaves agents alone that may come
/// back to it, in seconds.
pub const ORPHAN_RECONNECT_GRACE: u64 = 30;

/// How long a notice waits that an agent has lost, in seconds.
pub const ORPHAN_RETRY_DELAY: u64 = 30;

// ---------------------------------------------------------------------------
// How an agent is started
// ---------------------------------------------------------------------------

/// A program that starts the agent, and the arguments that come first.
#[derive(Debug, PartialEq, Eq)]
pub struct PiLauncher {
    pub executable: String,
    pub prefix_args: Vec<String>,
}

/// What a `PiLauncher` says.
pub struct PiLauncherView {
    pub executable: Seq<char>,
    pub prefix_args: Seq<Seq<char>>,
}

impl View for PiLauncher {
    type V = PiLauncherView;

    open spec fn view(&self) -> PiLauncherView {
        PiLauncherView {
            executable: self.executable@,
            prefix_args: self.prefix_args.deep_view(),
        }
    }
}

impl DeepView for PiLauncher {
    type V = PiLauncherView;

    open spec fn deep_view(&self) -> PiLauncherView {
        self.view()
    }
}

impl Clone for PiLauncher {
    fn clone(&self) -> (copy: Self)
        ensures
            copy@ == self@,
    {
        PiLauncher {
            executable: self.executable.clone(),
            prefix_args: copy_rows(&self.prefix_args),
        }
    }
}

/// A program that the environment names, and the ending of its file name.
pub struct ConfiguredLauncher {
    pub executable: String,
    pub extension: Option<String>,
}

/// The places where a file is looked for.
pub open spec fn candidates(dirs: Seq<Seq<char>>, file_name: Seq<char>, style: PathStyle) -> Seq<
    Seq<char>,
> {
    dirs.map_values(|dir: Seq<char>| paths::joined_path(dir, file_name, style))
}

/// The places where a file is looked for, in the order of the directories: the
/// first that is a file is taken.
pub fn find_in_path(dirs: &Vec<String>, file_name: &str, style: PathStyle) -> (places: Vec<String>)
    ensures
        places.deep_view() == candidates(dirs.deep_view(), file_name@, style),
{
    let mut places: Vec<String> = Vec::new();
    let mut i: usize = 0;
    while i < dirs.len()
        invariant
            i <= dirs@.len(),
            places.deep_view() =~= candidates(dirs.deep_view(), file_name@, style).take(i as int),
        decreases dirs@.len() - i,
    {
        let place = join_path(dirs[i].as_str(), file_name, style);
        let ghost before = places;
        assert(dirs.deep_view()[i as int] == dirs@[i as int]@);
        places.push(place);
        proof {
            seqs::lemma_deep_push(before, places, place);
        }
        i += 1;
    }
    places
}

pub const NO_LAUNCHER: &'static str =
    "no native Pi launcher found on PATH: expected pi.exe or volta.exe. Windows shell shims such as pi.cmd are not used for unattended continuation; set RUNWATCH_PI_EXECUTABLE to a native launcher";

/// The launcher where none is configured: on Windows a native `pi.exe`, or
/// `volta.exe` which runs it; elsewhere `pi`.
pub open spec fn default_launcher(
    style: PathStyle,
    pi: Option<Seq<char>>,
    volta: Option<Seq<char>>,
) -> Result<PiLauncherView, Seq<char>> {
    if style != PathStyle::Windows {
        Ok(PiLauncherView { executable: "pi"@, prefix_args: Seq::empty() })
    } else {
        match (pi, volta) {
            (Some(pi), _) => Ok(PiLauncherView { executable: pi, prefix_args: Seq::empty() }),
            (None, Some(volta)) => Ok(
                PiLauncherView { executable: volta, prefix_args: seq!["run"@, "pi"@] },
            ),
            (None, None) => Err(NO_LAUNCHER@),
        }
    }
}

pub fn resolve_default_pi_launcher(
    style: PathStyle,
    pi: Option<String>,
    volta: Option<String>,
) -> (result: Result<PiLauncher, String>)
    ensures
        match (default_launcher(style, text::text_opt(pi), text::text_opt(volta)), result) {
            (Ok(view), Ok(launcher)) => launcher@ == view,
            (Err(why), Err(reason)) => reason@ == why,
            _ => false,
        },
{
    let mut prefix_args: Vec<String> = Vec::new();
    assert(prefix_args.deep_view() =~= Seq::<Seq<char>>::empty());
    if style != PathStyle::Windows {
        return Ok(PiLauncher { executable: "pi".to_owned(), prefix_args });
    }
    if let Some(executable) = pi {
        return Ok(PiLauncher { executable, prefix_args });
    }
    match volta {
        Some(executable) => {
            prefix_args.push("run".to_owned());
            prefix_args.push("pi".to_owned());
            assert(prefix_args.deep_view() =~= seq!["run"@, "pi"@]);
            Ok(PiLauncher { executable, prefix_args })
        },
        None => Err(NO_LAUNCHER.to_owned()),
    }
}

/// Whether a file name's ending is that of a shell script.
pub open spec fn is_shim(extension: Option<Seq<char>>) -> bool {
    match extension {
        Some(extension) => text::ascii_lower(extension) == "cmd"@ || text::ascii_lower(extension)
            == "bat"@,
        None => false,
    }
}

/// The launcher that the environment names, or else the default one. On Windows
/// it may not be a shell script.
pub fn resolve_pi_launcher(
    configured: Option<ConfiguredLauncher>,
    style: PathStyle,
    pi: Option<String>,
    volta: Option<String>,
) -> (result: Result<PiLauncher, String>)
    ensures
        match configured {
            None => match (
                default_launcher(style, text::text_opt(pi), text::text_opt(volta)),
                result,
            ) {
                (Ok(view), Ok(launcher)) => launcher@ == view,
                (Err(why), Err(reason)) => reason@ == why,
                _ => false,
            },
            Some(named) => match result {
                Ok(launcher) => {
                    &&& style == PathStyle::Windows ==> !is_shim(text::text_opt(named.extension))
                    &&& launcher@ == (PiLauncherView {
                        executable: named.executable@,
                        prefix_args: Seq::empty(),
                    })
                },
                Err(reason) => {
                    &&& style == PathStyle::Windows && is_shim(text::text_opt(named.extension))
                    &&& reason@
                        == "RUNWATCH_PI_EXECUTABLE must be a native executable on Windows, not a .cmd/.bat shell shim"@
                },
            },
        },
{
    let named = match configured {
        Some(named) => named,
        None => return resolve_default_pi_launcher(style, pi, volta),
    };
    if style == PathStyle::Windows {
        if let Some(extension) = &named.extension {
            let small = to_ascii_lowercase(extension.as_str());
            if same(small.as_str(), "cmd") || same(small.as_str(), "bat") {
                return Err(
                    "RUNWATCH_PI_EXECUTABLE must be a native executable on Windows, not a .cmd/.bat shell shim".to_owned(),
                );
            }
        }
    }
    let prefix_args: Vec<String> = Vec::new();
    assert(prefix_args.deep_view() =~= Seq::<Seq<char>>::empty());
    Ok(PiLauncher { executable: named.executable, prefix_args })
}

/// The process of an agent: what is run, where, and what its environment tells
/// of the notice, its owner and the process itself.
#[derive(Debug, PartialEq, Eq)]
pub struct LaunchPlan {
    pub executable: String,
    pub args: Vec<String>,
    pub directory: String,
    pub delivery: String,
    pub owner_instance_id: String,
    pub invocation_id: String,
}

/// What a `LaunchPlan` says.
pub struct LaunchPlanView {
    pub executable: Seq<char>,
    pub args: Seq<Seq<char>>,
    pub directory: Seq<char>,
    pub delivery: Seq<char>,
    pub owner_instance_id: Seq<char>,
    pub invocation_id: Seq<char>,
}

impl View for LaunchPlan {
    type V = LaunchPlanView;

    open spec fn view(&self) -> LaunchPlanView {
        LaunchPlanView {
            executable: self.executable@,
            args: self.args.deep_view(),
            directory: self.directory@,
            delivery: self.delivery@,
            owner_instance_id: self.owner_instance_id@,
            invocation_id: self.invocation_id@,
        }
    }
}

impl DeepView for LaunchPlan {
    type V = LaunchPlanView;

    open spec fn deep_view(&self) -> LaunchPlanView {
        self.view()
    }
}

impl Clone for LaunchPlan {
    fn clone(&self) -> (copy: Self)
        ensures
            copy@ == self@,
    {
        LaunchPlan {
            executable: self.executable.clone(),
            args: copy_rows(&self.args),
            directory: self.directory.clone(),
            delivery: self.delivery.clone(),
            owner_instance_id: self.owner_instance_id.clone(),
            invocation_id: self.invocation_id.clone(),
        }
    }
}

/// An argument behind its name, where there is one.
pub open spec fn named_arg(name: Seq<char>, value: Option<Seq<char>>) -> Seq<Seq<char>> {
    match value {
        Some(value) => seq![name, value],
        None => Seq::empty(),
    }
}

fn push_named(args: &mut Vec<String>, name: &str, value: &Option<String>)
    ensures
        final(args).deep_view() == old(args).deep_view() + named_arg(
            name@,
            text::text_opt(*value),
        ),
{
    assert(args.deep_view().len() == args@.len());
    if let Some(value) = value {
        args.push(name.to_owned());
        args.push(value.clone());
    }
    assert(args.deep_view() =~= old(args).deep_view() + named_arg(name@, text::text_opt(*value)));
}

/// The process that is started for an invocation. `payload` holds the notice as
/// the agent reads it.
pub open spec fn launched(
    launcher: PiLauncherView,
    invocation: AgentInvocationRecordView,
    payload: Seq<u8>,
) -> LaunchPlanView {
    LaunchPlanView {
        executable: launcher.executable,
        args: launcher.prefix_args + seq!["--mode"@, "rpc"@] + named_arg(
            "--session"@,
            invocation.session_file,
        ) + named_arg("-e"@, invocation.adapter_path),
        directory: invocation.project_root,
        delivery: encoding::base64_text(payload),
        owner_instance_id: invocation.owner_instance_id,
        invocation_id: invocation.invocation_id,
    }
}

pub fn launch_plan(
    launcher: &PiLauncher,
    invocation: &AgentInvocationRecord,
    payload: &Vec<u8>,
) -> (plan: LaunchPlan)
    ensures
        plan@ == launched(launcher@, invocation@, payload@),
{
    let mut args = copy_rows(&launcher.prefix_args);
    args.push("--mode".to_owned());
    args.push("rpc".to_owned());
    assert(launcher.prefix_args.deep_view().len() == launcher.prefix_args@.len());
    assert(args.deep_view() =~= launcher@.prefix_args + seq!["--mode"@, "rpc"@]);
    push_named(&mut args, "--session", &invocation.session_file);
    push_named(&mut args, "-e", &invocation.adapter_path);
    LaunchPlan {
        executable: launcher.executable.clone(),
        args,
        directory: invocation.project_root.clone(),
        delivery: encode_base64(payload.as_slice()),
        owner_instance_id: invocation.owner_instance_id.clone(),
        invocation_id: invocation.invocation_id.clone(),
    }
}

// ---------------------------------------------------------------------------
// When agents are started, and what becomes of them
// ---------------------------------------------------------------------------

/// Whether the pipe to an agent is kept open: only while the notice is in its
/// hands. An agent that gave it up before its first turn sees the end of the
/// pipe, and leaves.
pub fn delivery_keeps_rpc_stdin_open(state: Option<&str>) -> (open: bool)
    ensures
        open == (state matches Some(name) && name@ == "delivering"@),
{
    match state {
        Some(name) => same(name, "delivering"),
        None => false,
    }
}

/// Whether agents that lost their daemon are given up, so many seconds after it
/// has started again.
pub fn orphans_are_due(seconds_since_start: u64) -> (due: bool)
    ensures
        due == (seconds_since_start >= ORPHAN_RECONNECT_GRACE),
        due <==> seconds_since_start >= 30,
{
    seconds_since_start >= ORPHAN_RECONNECT_GRACE
}

/// Gives up the agents that lost their daemon, and says how many there were.
pub fn reconcile_orphans(store: &mut RunStore, now: Timestamp) -> (count: u32)
    requires
        now.clocked(),
        old(store)@.invocations.len() <= u32::MAX,
    ensures
        count == offline::orphan_count(
            old(store)@,
            old(store)@.invocations.len(),
            ORPHAN_RETRY_DELAY as int,
            now,
        ),
        final(store)@ == offline::reconciled(
            old(store)@,
            old(store)@.invocations.len(),
            ORPHAN_RETRY_DELAY as int,
            now,
        ),
        final(store)@ == offline::reconciled(old(store)@, old(store)@.invocations.len(), 30, now),
        old(store)@.sound() ==> final(store)@.sound(),
{
    store.reconcile_orphaned_agent_invocations(ORPHAN_RETRY_DELAY, now)
}

/// The next agent to be started in a round in which `started` were.
pub fn dispatch_due(store: &mut RunStore, started: usize, now: Timestamp) -> (result: Result<
    Option<AgentInvocationRecord>,
    String,
>)
    requires
        now.clocked(),
        deliveries::countable(old(store)@),
    ensures
        started >= MAX_LAUNCHES_PER_TICK ==> final(store)@ == old(store)@ && result == Ok::<
            Option<AgentInvocationRecord>,
            String,
        >(None),
        started >= 2 ==> final(store)@ == old(store)@,
        started < 2 && result is Ok ==> final(store)@ == offline::reserved(old(store)@, 20, now),
        started < MAX_LAUNCHES_PER_TICK ==> match result {
            Ok(invocation) => {
                &&& offline::reserve_refusal(old(store)@, OFFLINE_GRACE as int, now) is None
                &&& invocation.deep_view() == (match offline::offline_choice(
                    old(store)@,
                    OFFLINE_GRACE as int,
                    now,
                ) {
                    Some(row) => Some(offline::started_process(row, now)),
                    None => None,
                })
                &&& final(store)@ == offline::reserved(old(store)@, OFFLINE_GRACE as int, now)
            },
            Err(reason) => {
                &&& offline::reserve_refusal(old(store)@, OFFLINE_GRACE as int, now) == Some(
                    reason@,
                )
                &&& final(store)@ == old(store)@
            },
        },
        old(store)@.sound() ==> final(store)@.sound(),
{
    if started >= MAX_LAUNCHES_PER_TICK {
        return Ok(None);
    }
    store.reserve_offline_invocation(OFFLINE_GRACE, now)
}

/// How the process of an agent came to its end.
pub enum WorkerEnd {
    /// It exited, with a code where it has one.
    Exited(Option<i32>),
    /// It could not be started.
    NotStarted(String),
    /// It could not be waited for.
    NotAwaited(String),
    /// It ran for too long and was stopped.
    TimedOut,
    /// Something else went wrong.
    Broken(String),
}

pub open spec fn end_code(end: WorkerEnd) -> Option<i32> {
    match end {
        WorkerEnd::Exited(code) => code,
        _ => None,
    }
}

/// What is written down of the end.
pub open spec fn end_message(end: WorkerEnd) -> Option<Seq<char>> {
    match end {
        WorkerEnd::Exited(_) => None,
        WorkerEnd::NotStarted(error) => Some("spawn offline Pi RPC worker: "@ + error@),
        WorkerEnd::NotAwaited(error) => Some("wait offline Pi RPC worker: "@ + error@),
        WorkerEnd::TimedOut => Some(
            "offline Pi RPC worker exceeded "@ + text::decimal(MAX_AGENT_RUNTIME as nat)
                + " seconds"@,
        ),
        WorkerEnd::Broken(error) => Some("offline Pi invocation task failed: "@ + error@),
    }
}

fn tell_end(end: &WorkerEnd) -> (message: Option<String>)
    ensures
        text::text_opt(message) == end_message(*end),
{
    match end {
        WorkerEnd::Exited(_) => None,
        WorkerEnd::NotStarted(error) => {
            let mut message = "spawn offline Pi RPC worker: ".to_owned();
            message.append(error.as_str());
            Some(message)
        },
        WorkerEnd::NotAwaited(error) => {
            let mut message = "wait offline Pi RPC worker: ".to_owned();
            message.append(error.as_str());
            Some(message)
        },
        WorkerEnd::TimedOut => {
            let mut message = "offline Pi RPC worker exceeded ".to_owned();
            message.append(decimal_text(MAX_AGENT_RUNTIME).as_str());
            message.append(" seconds");
            Some(message)
        },
        WorkerEnd::Broken(error) => {
            let mut message = "offline Pi invocation task failed: ".to_owned();
            message.append(error.as_str());
            Some(message)
        },
    }
}

/// Writes the end of an agent's process down.
pub fn finish_worker(store: &mut RunStore, invocation_id: &str, end: &WorkerEnd, now: Timestamp)
    requires
        now.clocked(),
    ensures
        final(store)@ == offline::exited(
            old(store)@,
            invocation_id@,
            end_code(*end),
            end_message(*end),
            now,
        ),
        old(store)@.sound() ==> final(store)@.sound(),
{
    let code = match end {
        WorkerEnd::Exited(code) => *code,
        _ => None,
    };
    let message = tell_end(end);
    store.finish_agent_invocation_process(invocation_id, code, &message, now);
}

// ---------------------------------------------------------------------------
// Laws
// ---------------------------------------------------------------------------

/// On Windows no shell script is ever started: a default launcher is one of the
/// two native programs that were found.
pub proof fn default_launcher_is_native(pi: Option<Seq<char>>, volta: Option<Seq<char>>)
    ensures
        default_launcher(PathStyle::Windows, pi, volta) matches Ok(launcher) ==> Some(
            launcher.executable,
        ) == pi || Some(launcher.executable) == volta,
        default_launcher(PathStyle::Windows, pi, volta) is Err <==> pi is None && volta is None,
{
}

/// An agent is started for the notice of its process: on the session and with the
/// adapter that the process has, in its directory, in the mode in which it takes
/// the notice, which it gets under the names of the process and its owner.
pub proof fn agent_is_started_for_its_notice(
    launcher: PiLauncherView,
    invocation: AgentInvocationRecordView,
    payload: Seq<u8>,
)
    ensures
        ({
            let plan = launched(launcher, invocation, payload);
            &&& plan.executable == launcher.executable
            &&& plan.directory == invocation.project_root
            &&& plan.delivery == encoding::base64_text(payload)
            &&& plan.owner_instance_id == invocation.owner_instance_id
            &&& plan.invocation_id == invocation.invocation_id
            &&& invocation.session_file is Some && invocation.adapter_path is Some ==> plan.args
                == launcher.prefix_args + seq![
                "--mode"@,
                "rpc"@,
                "--session"@,
                invocation.session_file->0,
                "-e"@,
                invocation.adapter_path->0,
            ]
            &&& invocation.session_file is None && invocation.adapter_path is None ==> plan.args
                == launcher.prefix_args + seq!["--mode"@, "rpc"@]
        }),
{
    let plan = launched(launcher, invocation, payload);
    if invocation.session_file is Some && invocation.adapter_path is Some {
        assert(plan.args =~= launcher.prefix_args + seq![
            "--mode"@,
            "rpc"@,
            "--session"@,
            invocation.session_file->0,
            "-e"@,
            invocation.adapter_path->0,
        ]);
    }
    if invocation.session_file is None && invocation.adapter_path is None {
        assert(plan.args =~= launcher.prefix_args + seq!["--mode"@, "rpc"@]);
    }
}

/// The agent is its own program where that was found, and otherwise the one that
/// Volta runs; away from Windows it is found by its name.
pub proof fn launcher_is_the_one_found(pi: Option<Seq<char>>, volta: Option<Seq<char>>)
    ensures
        pi is Some ==> default_launcher(PathStyle::Windows, pi, volta) == Ok::<
            PiLauncherView,
            Seq<char>,
        >(PiLauncherView { executable: pi->0, prefix_args: Seq::empty() }),
        pi is None && volta is Some ==> default_launcher(PathStyle::Windows, pi, volta) == Ok::<
            PiLauncherView,
            Seq<char>,
        >(PiLauncherView { executable: volta->0, prefix_args: seq!["run"@, "pi"@] }),
        default_launcher(PathStyle::Posix, pi, volta) == Ok::<PiLauncherView, Seq<char>>(
            PiLauncherView { executable: "pi"@, prefix_args: Seq::empty() },
        ),
{
}

/// A program is looked for in each directory of the path, in their order.
pub proof fn every_directory_is_searched(
    dirs: Seq<Seq<char>>,
    file_name: Seq<char>,
    style: PathStyle,
    i: int,
)
    requires
        0 <= i < dirs.len(),
    ensures
        candidates(dirs, file_name, style).len() == dirs.len(),
        candidates(dirs, file_name, style)[i] == paths::joined_path(dirs[i], file_name, style),
{
}

/// Only scripts of the two shells are no programs of their own, however their
/// ending is written.
pub proof fn shims_are_known_by_their_ending(extension: Seq<char>)
    ensures
        is_shim(Some(extension)) <==> text::ascii_lower(extension) == "cmd"@ || text::ascii_lower(
            extension,
        ) == "bat"@,
        !is_shim(None),
{
}

/// How a process ended is told: its exit code where it has one, and otherwise
/// what went wrong.
pub proof fn end_is_told(end: WorkerEnd)
    ensures
        end matches WorkerEnd::Exited(code) ==> end_code(end) == code && end_message(end) is None,
        !(end is Exited) ==> end_code(end) is None && end_message(end) is Some,
        end matches WorkerEnd::NotStarted(error) ==> end_message(end) == Some(
            "spawn offline Pi RPC worker: "@ + error@,
        ),
        end is TimedOut ==> end_message(end) == Some(
            "offline Pi RPC worker exceeded "@ + text::decimal(21_600) + " seconds"@,
        ),
{
}

} // verus!
