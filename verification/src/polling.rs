//! When runs are looked at, what is asked about them, and what the answers
//! change.
use crate::probe;
use crate::probe::{lsf_batch_command, slurm_batch_command};
use crate::seqs;
use crate::seqs::select;
use crate::store;
use crate::store::reading;
use crate::store::reading::note_name;
use crate::store::runs;
use crate::store::{RunStore, StoreView};
use crate::text;
use crate::text::{same, take_chars, trim};
use crate::time;
use crate::time::{Timestamp, SECOND};
use crate::types::{
    same_text, ObservationHealth, ObservationRecord, ObservationRecordView, ObservationSource,
    RunAttemptRecord, RunAttemptRecordView, RunRecord, RunRecordView, RunStatus, RunnerKind,
};
pub mod answers;
pub mod laws;

use vstd::prelude::*;
use vstd::string::*;

verus! {

/// How much of a message an observation keeps.
pub const MAX_OBSERVATION_TEXT_CHARS: usize = 2048;

/// The longest time between two looks at a run, in seconds, where the settings
/// do not ask for a longer one.
pub const MAX_PROBE_SECONDS: u64 = 300;

// ---------------------------------------------------------------------------
// Observations
// ---------------------------------------------------------------------------

/// A message as an observation keeps it: without the white at its ends, cut off
/// where it is too long, and absent where nothing is left.
pub open spec fn kept_text(value: Seq<char>) -> Option<Seq<char>> {
    let inner = text::trimmed(value);
    if inner.len() == 0 {
        None
    } else {
        Some(text::first_chars(inner, MAX_OBSERVATION_TEXT_CHARS as nat))
    }
}

pub fn observation_text(value: &str) -> (kept: Option<String>)
    ensures
        text::text_opt(kept) == kept_text(value@),
{
    let inner = trim(value);
    if inner.as_str().is_empty() {
        None
    } else {
        Some(take_chars(inner.as_str(), MAX_OBSERVATION_TEXT_CHARS))
    }
}

/// The attempt that a run is in, the first where it does not say.
pub open spec fn current_attempt(run: RunRecordView) -> u32 {
    match run.attempt_no {
        Some(number) => number,
        None => 1,
    }
}

pub open spec fn sighting(
    run: RunRecordView,
    source: ObservationSource,
    health: ObservationHealth,
    status: RunStatus,
    raw_state: Option<Seq<char>>,
    reason: Option<Seq<char>>,
    exit_code: Option<u32>,
    now: Timestamp,
) -> ObservationRecordView {
    ObservationRecordView {
        run_id: run.run_id,
        attempt_no: current_attempt(run),
        observed_at: now,
        source,
        health,
        execution_status: status,
        raw_state,
        reason,
        command_exit_code: exit_code,
    }
}

pub fn persist_observation(
    store: &mut RunStore,
    rec: &RunRecord,
    source: ObservationSource,
    health: ObservationHealth,
    execution_status: RunStatus,
    raw_state: Option<String>,
    reason: Option<String>,
    command_exit_code: Option<u32>,
    now: Timestamp,
)
    ensures
        final(store)@ == runs::observed(
            old(store)@,
            sighting(
                rec@,
                source,
                health,
                execution_status,
                text::text_opt(raw_state),
                text::text_opt(reason),
                command_exit_code,
                now,
            ),
        ),
        old(store)@.sound() ==> final(store)@.sound(),
{
    let attempt_no: u32 = match rec.attempt_no {
        Some(number) => number,
        None => 1,
    };
    let observation = ObservationRecord {
        run_id: rec.run_id.clone(),
        attempt_no,
        observed_at: now,
        source,
        health,
        execution_status,
        raw_state,
        reason,
        command_exit_code,
    };
    store.upsert_observation(&observation);
}

// ---------------------------------------------------------------------------
// When a run is looked at
// ---------------------------------------------------------------------------

/// How many times the base interval a run on a host waits.
pub open spec fn patience(status: RunStatus, health: Option<ObservationHealth>) -> nat {
    let factor: nat = if status == RunStatus::Running {
        2
    } else {
        1
    };
    match health {
        Some(ObservationHealth::Unreachable) => 4,
        Some(ObservationHealth::ProbeError) => 2,
        _ => factor,
    }
}

/// The seconds between two looks at a run: the base interval, longer for what
/// runs or does not answer, at most five minutes or the base interval.
pub open spec fn probe_interval(
    run: RunRecordView,
    health: Option<ObservationHealth>,
    base: nat,
) -> nat {
    let base = if base < 1 {
        1
    } else {
        base
    };
    let cap = if base > MAX_PROBE_SECONDS {
        base
    } else {
        MAX_PROBE_SECONDS as nat
    };
    let long = base * patience(run.status, health);
    if run.runner == RunnerKind::Process {
        base
    } else if long > cap {
        cap
    } else {
        long
    }
}

pub open spec fn seen_health(observation: Option<ObservationRecordView>) -> Option<
    ObservationHealth,
> {
    match observation {
        Some(seen) => Some(seen.health),
        None => None,
    }
}

pub open spec fn viewed(observation: Option<&ObservationRecord>) -> Option<ObservationRecordView> {
    match observation {
        Some(seen) => Some(seen@),
        None => None,
    }
}

pub fn adaptive_probe_interval(
    rec: &RunRecord,
    observation: Option<&ObservationRecord>,
    base_interval: u64,
) -> (seconds: u64)
    ensures
        seconds == probe_interval(rec@, seen_health(viewed(observation)), base_interval as nat),
        seconds >= 1,
{
    let base: u64 = if base_interval < 1 {
        1
    } else {
        base_interval
    };
    if rec.runner == RunnerKind::Process {
        return base;
    }
    let usual: u64 = if rec.status == RunStatus::Running {
        2
    } else {
        1
    };
    let factor: u64 = match observation {
        Some(seen) => match seen.health {
            ObservationHealth::Fresh => usual,
            ObservationHealth::ProbeError => 2,
            ObservationHealth::Unreachable => 4,
        },
        None => usual,
    };
    let cap: u64 = if base > MAX_PROBE_SECONDS {
        base
    } else {
        MAX_PROBE_SECONDS
    };
    assert(base * factor >= base) by (nonlinear_arith)
        requires
            base >= 1,
            factor >= 1,
    ;
    let long: u128 = base as u128 * factor as u128;
    if long > cap as u128 {
        cap
    } else {
        long as u64
    }
}

/// Whether it is time to look at a run again.
pub open spec fn is_due(
    run: RunRecordView,
    observation: Option<ObservationRecordView>,
    now: Timestamp,
    base: nat,
) -> bool {
    match observation {
        None => true,
        Some(seen) => now.nanos - seen.observed_at.nanos >= probe_interval(
            run,
            Some(seen.health),
            base,
        ) * SECOND,
    }
}

pub fn observation_is_due(
    rec: &RunRecord,
    observation: Option<&ObservationRecord>,
    now: Timestamp,
    base_interval: u64,
) -> (due: bool)
    ensures
        due == is_due(rec@, viewed(observation), now, base_interval as nat),
{
    let seen = match observation {
        Some(seen) => seen,
        None => return true,
    };
    let wait: i128 = adaptive_probe_interval(rec, Some(seen), base_interval) as i128 * SECOND;
    if now.nanos < seen.observed_at.nanos {
        return false;
    }
    if seen.observed_at.nanos < 0 && now.nanos >= 0 {
        // The difference may not fit: compare it piece by piece.
        return now.nanos >= wait || seen.observed_at.nanos <= now.nanos - wait;
    }
    now.nanos - seen.observed_at.nanos >= wait
}

pub fn observation_key(rec: &RunRecord) -> (key: (String, u32))
    ensures
        key.0@ == rec@.run_id,
        key.1 == current_attempt(rec@),
{
    let attempt_no: u32 = match rec.attempt_no {
        Some(number) => number,
        None => 1,
    };
    (rec.run_id.clone(), attempt_no)
}

/// Holds of the runs that are to be looked at.
pub open spec fn due_now(s: StoreView, now: Timestamp, base: nat) -> spec_fn(RunRecordView) -> bool {
    |run: RunRecordView|
        !run.status.terminal() && is_due(
            run,
            seqs::first(s.observations, store::by_observed(run.run_id, current_attempt(run))),
            now,
            base,
        )
}

pub open spec fn run_name() -> spec_fn(RunRecordView) -> Seq<char> {
    |run: RunRecordView| run.run_id
}

/// The names of the runs that are to be looked at.
pub open spec fn due_names(s: StoreView, now: Timestamp, base: nat) -> Seq<Seq<char>> {
    s.runs.filter(due_now(s, now, base)).map_values(run_name())
}

/// The names of the runs in a list.
pub fn names_of(records: &Vec<RunRecord>) -> (names: Vec<String>)
    ensures
        names.deep_view() == records.deep_view().map_values(run_name()),
{
    let mut names: Vec<String> = Vec::new();
    let mut i: usize = 0;
    while i < records.len()
        invariant
            i <= records@.len(),
            names.deep_view() =~= records.deep_view().map_values(run_name()).take(i as int),
        decreases records@.len() - i,
    {
        let name = records[i].run_id.clone();
        let ghost before = names;
        names.push(name);
        proof {
            seqs::lemma_deep_push(before, names, name);
        }
        i += 1;
    }
    names
}

pub fn due_runs(store: &RunStore, now: Timestamp, base_interval: u64) -> (names: Vec<String>)
    ensures
        names.deep_view() == due_names(store@, now, base_interval as nat),
{
    let test = |rec: &RunRecord| -> (yes: bool)
        ensures
            yes == due_now(store@, now, base_interval as nat)(rec.deep_view()),
        {
            if rec.status.is_terminal() {
                false
            } else {
                let key = observation_key(rec);
                match store.get_observation(key.0.as_str(), key.1) {
                    Some(seen) => observation_is_due(rec, Some(&seen), now, base_interval),
                    None => observation_is_due(rec, None, now, base_interval),
                }
            }
        };
    let all = store.list();
    let due = select(&all, test, Ghost(due_now(store@, now, base_interval as nat)));
    names_of(&due)
}

// ---------------------------------------------------------------------------
// What is asked together
// ---------------------------------------------------------------------------

/// Whether the ledger's attempt is the one that the run is in, so that its job
/// can be asked about together with others.
pub open spec fn attempt_agrees(
    run: RunRecordView,
    attempt: Option<RunAttemptRecordView>,
    runner: RunnerKind,
) -> bool {
    match attempt {
        None => false,
        Some(attempt) => {
            &&& run.runner == runner
            &&& attempt.runner == runner
            &&& run.attempt_no == Some(attempt.attempt_no)
            &&& run.job_id is Some
            &&& run.job_id == attempt.job_id
            &&& run.remote_terminal == Some(attempt.terminal_path)
        },
    }
}

pub open spec fn viewed_attempt(attempt: Option<&RunAttemptRecord>) -> Option<RunAttemptRecordView> {
    match attempt {
        Some(attempt) => Some(attempt@),
        None => None,
    }
}

fn batchable(rec: &RunRecord, attempt: Option<&RunAttemptRecord>, runner: RunnerKind) -> (yes: bool)
    ensures
        yes == attempt_agrees(rec@, viewed_attempt(attempt), runner),
{
    let attempt = match attempt {
        Some(attempt) => attempt,
        None => return false,
    };
    let terminal = match &rec.remote_terminal {
        Some(path) => same(path.as_str(), attempt.terminal_path.as_str()),
        None => false,
    };
    rec.runner == runner && attempt.runner == runner && rec.attempt_no == Some(attempt.attempt_no)
        && rec.job_id.is_some() && same_text(&rec.job_id, &attempt.job_id) && terminal
}

pub fn batchable_v2_slurm(rec: &RunRecord, attempt: Option<&RunAttemptRecord>) -> (yes: bool)
    ensures
        yes == attempt_agrees(rec@, viewed_attempt(attempt), RunnerKind::Slurm),
{
    batchable(rec, attempt, RunnerKind::Slurm)
}

pub fn batchable_v2_lsf(rec: &RunRecord, attempt: Option<&RunAttemptRecord>) -> (yes: bool)
    ensures
        yes == attempt_agrees(rec@, viewed_attempt(attempt), RunnerKind::Lsf),
{
    batchable(rec, attempt, RunnerKind::Lsf)
}

pub open spec fn attempt_of(s: StoreView, run: RunRecordView) -> Option<RunAttemptRecordView> {
    match run.attempt_no {
        Some(number) => s.attempt(run.run_id, number),
        None => None,
    }
}

/// Holds of the due runs of a scheduler that can be asked about together.
pub open spec fn asked_together(s: StoreView, due: Seq<Seq<char>>, runner: RunnerKind) -> spec_fn(
    RunRecordView,
) -> bool {
    |run: RunRecordView|
        due.contains(run.run_id) && attempt_agrees(run, attempt_of(s, run), runner)
}

pub open spec fn run_host() -> spec_fn(RunRecordView) -> Seq<char> {
    |run: RunRecordView| run.host
}

pub open spec fn on_host(host: Seq<char>) -> spec_fn(RunRecordView) -> bool {
    |run: RunRecordView| run.host == host
}

pub open spec fn same_host(runs: Seq<RunRecordView>) -> spec_fn(Seq<char>) -> Seq<RunRecordView> {
    |host: Seq<char>| runs.filter(on_host(host))
}

pub open spec fn several() -> spec_fn(Seq<RunRecordView>) -> bool {
    |group: Seq<RunRecordView>| group.len() >= 2
}

/// The due runs of a scheduler, together by host, where a host has more than
/// one.
pub open spec fn batches(s: StoreView, due: Seq<Seq<char>>, runner: RunnerKind) -> Seq<
    Seq<RunRecordView>,
> {
    let members = s.runs.filter(asked_together(s, due, runner));
    reading::distinct(members.map_values(run_host())).map_values(same_host(members)).filter(
        several(),
    )
}

pub fn holds_name(names: &Vec<String>, name: &String) -> (yes: bool)
    ensures
        yes == names.deep_view().contains(name@),
{
    let mut i: usize = 0;
    while i < names.len()
        invariant
            i <= names@.len(),
            forall|j: int| 0 <= j < i ==> #[trigger] names.deep_view()[j] != name@,
        decreases names@.len() - i,
    {
        if names[i] == *name {
            assert(names.deep_view()[i as int] == name@);
            return true;
        }
        assert(names.deep_view()[i as int] != name@);
        i += 1;
    }
    false
}

fn hosts_of(records: &Vec<RunRecord>) -> (hosts: Vec<String>)
    ensures
        hosts.deep_view() == reading::distinct(records.deep_view().map_values(run_host())),
{
    let ghost all = records.deep_view().map_values(run_host());
    let mut hosts: Vec<String> = Vec::new();
    let mut i: usize = 0;
    assert(all.take(0) =~= Seq::<Seq<char>>::empty());
    assert(hosts.deep_view() =~= Seq::<Seq<char>>::empty());
    while i < records.len()
        invariant
            i <= records@.len(),
            all == records.deep_view().map_values(run_host()),
            hosts.deep_view() == reading::distinct(all.take(i as int)),
        decreases records@.len() - i,
    {
        proof {
            let now = all.take(i + 1);
            assert(now.drop_last() =~= all.take(i as int));
            assert(now.last() == records@[i as int]@.host);
        }
        note_name(&mut hosts, &records[i].host);
        i += 1;
    }
    assert(all.take(i as int) =~= all);
    hosts
}

/// The due runs of a scheduler that are asked about together.
pub fn plan_batches(store: &RunStore, due: &Vec<String>, runner: RunnerKind) -> (groups: Vec<
    Vec<RunRecord>,
>)
    ensures
        groups.deep_view() == batches(store@, due.deep_view(), runner),
{
    let ghost wanted = asked_together(store@, due.deep_view(), runner);
    let test = |rec: &RunRecord| -> (yes: bool)
        ensures
            yes == wanted(rec.deep_view()),
        {
            if !holds_name(due, &rec.run_id) {
                false
            } else {
                match rec.attempt_no {
                    Some(number) => match store.get_attempt(rec.run_id.as_str(), number) {
                        Some(attempt) => batchable(rec, Some(&attempt), runner),
                        None => false,
                    },
                    None => false,
                }
            }
        };
    let all = store.list();
    let members = select(&all, test, Ghost(wanted));
    let hosts = hosts_of(&members);
    let ghost lists = hosts.deep_view().map_values(same_host(members.deep_view()));
    let mut groups: Vec<Vec<RunRecord>> = Vec::new();
    let mut i: usize = 0;
    assert(lists.take(0) =~= Seq::<Seq<RunRecordView>>::empty());
    assert(groups.deep_view() =~= Seq::<Seq<RunRecordView>>::empty());
    reveal(Seq::filter);
    while i < hosts.len()
        invariant
            i <= hosts@.len(),
            lists == hosts.deep_view().map_values(same_host(members.deep_view())),
            groups.deep_view() == lists.take(i as int).filter(several()),
        decreases hosts@.len() - i,
    {
        let host = hosts[i].clone();
        let here = |rec: &RunRecord| -> (yes: bool)
            ensures
                yes == on_host(host@)(rec.deep_view()),
            {
                rec.host == host
            };
        let group = select(&members, here, Ghost(on_host(host@)));
        proof {
            reveal(Seq::filter);
            let now = lists.take(i + 1);
            assert(now.drop_last() =~= lists.take(i as int));
            assert(hosts.deep_view()[i as int] == host@);
            assert(now.last() == group.deep_view());
            assert(group.deep_view().len() == group@.len());
        }
        if group.len() >= 2 {
            let ghost before = groups;
            groups.push(group);
            proof {
                seqs::lemma_deep_push(before, groups, group);
            }
        }
        i += 1;
    }
    assert(lists.take(i as int) =~= lists);
    groups
}

/// A question to a host.
pub struct HostQuestion {
    pub host: String,
    pub command: String,
}

/// Whether the question is the one to put to the host of a batch.
pub open spec fn asks_batch(
    records: Seq<RunRecordView>,
    command: Option<Seq<char>>,
    question: Option<HostQuestion>,
) -> bool {
    match (command, question) {
        (Some(command), Some(question)) => question.command@ == command && question.host@
            == records[0].host,
        (None, None) => true,
        _ => false,
    }
}

/// The question about several Slurm runs, where it can be put.
pub fn slurm_batch_question(records: &Vec<RunRecord>) -> (question: Option<HostQuestion>)
    ensures
        asks_batch(
            records.deep_view(),
            if probe::batchable(records.deep_view(), RunnerKind::Slurm) {
                Some(probe::slurm_batch_question(records.deep_view()))
            } else {
                None
            },
            question,
        ),
{
    match slurm_batch_command(records.as_slice()) {
        Some(command) => {
            assert(records.deep_view()[0] == records@[0]@);
            Some(HostQuestion { host: records[0].host.clone(), command })
        },
        None => None,
    }
}

/// The question about several LSF runs, where it can be put.
pub fn lsf_batch_question(records: &Vec<RunRecord>) -> (question: Option<HostQuestion>)
    ensures
        asks_batch(
            records.deep_view(),
            if probe::batchable(records.deep_view(), RunnerKind::Lsf) {
                Some(probe::lsf_batch_question(records.deep_view()))
            } else {
                None
            },
            question,
        ),
{
    match lsf_batch_command(records.as_slice()) {
        Some(command) => {
            assert(records.deep_view()[0] == records@[0]@);
            Some(HostQuestion { host: records[0].host.clone(), command })
        },
        None => None,
    }
}

} // verus!
