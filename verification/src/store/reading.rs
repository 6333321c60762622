//! What can be read off the ledger: events, how far notices have come, and the
//! journal that came before the database.
use crate::seqs;
use crate::seqs::stable_sort;
use crate::store;
use crate::store::{
    DeliveryRowView, DeliveryState, EventPayload, EventPayloadView, EventRowView, RunStore,
    StoreView,
};
use crate::text;
use crate::text::{same, text_before};
use crate::time::Timestamp;
use crate::types::{
    clone_text, RunContinuationStatus, RunContinuationStatusView, RunRecord, RunRecordView,
};
use vstd::prelude::*;
use vstd::string::*;

verus! {

/// The largest number of events that one request reads.
pub const MAX_EVENTS: usize = 200;

/// An event with its number in the ledger.
#[derive(Debug, PartialEq, Eq)]
pub struct RunEventRecord {
    pub id: u64,
    pub run_id: String,
    pub at: Timestamp,
    pub kind: String,
    pub payload: EventPayload,
}

/// What a `RunEventRecord` says.
pub struct RunEventRecordView {
    pub id: u64,
    pub run_id: Seq<char>,
    pub at: Timestamp,
    pub kind: Seq<char>,
    pub payload: EventPayloadView,
}

impl View for RunEventRecord {
    type V = RunEventRecordView;

    open spec fn view(&self) -> RunEventRecordView {
        RunEventRecordView {
            id: self.id,
            run_id: self.run_id@,
            at: self.at,
            kind: self.kind@,
            payload: self.payload@,
        }
    }
}

impl DeepView for RunEventRecord {
    type V = RunEventRecordView;

    open spec fn deep_view(&self) -> RunEventRecordView {
        self.view()
    }
}

impl Clone for RunEventRecord {
    fn clone(&self) -> (copy: Self)
        ensures
            copy@ == self@,
    {
        RunEventRecord {
            id: self.id,
            run_id: self.run_id.clone(),
            at: self.at,
            kind: self.kind.clone(),
            payload: self.payload.clone(),
        }
    }
}

// ---------------------------------------------------------------------------
// Events
// ---------------------------------------------------------------------------

/// The events of a run with their numbers, oldest first.
pub open spec fn events_of(events: Seq<EventRowView>, run_id: Seq<char>) -> Seq<RunEventRecordView>
    decreases events.len(),
{
    if events.len() == 0 {
        Seq::empty()
    } else {
        let before = events_of(events.drop_last(), run_id);
        let row = events.last();
        if row.run_id == run_id {
            before.push(
                RunEventRecordView {
                    id: events.len() as u64,
                    run_id,
                    at: row.at,
                    kind: row.kind,
                    payload: row.payload,
                },
            )
        } else {
            before
        }
    }
}

pub open spec fn event_limit(limit: usize) -> nat {
    if limit < 1 {
        1
    } else if limit > MAX_EVENTS {
        MAX_EVENTS as nat
    } else {
        limit as nat
    }
}

pub open spec fn unknown_run(s: StoreView, run_id: Seq<char>) -> Option<Seq<char>> {
    if s.run(run_id) is None {
        Some("unknown run "@ + run_id)
    } else {
        None
    }
}

// ---------------------------------------------------------------------------
// How far notices have come
// ---------------------------------------------------------------------------

/// How many notices of a run stand in the state.
pub open spec fn run_count(
    rows: Seq<DeliveryRowView>,
    run_id: Seq<char>,
    state: DeliveryState,
) -> nat
    decreases rows.len(),
{
    if rows.len() == 0 {
        0
    } else {
        run_count(rows.drop_last(), run_id, state) + (if rows.last().run_id == run_id
            && rows.last().state == state {
            1nat
        } else {
            0nat
        })
    }
}

/// The notice of a run that was made last.
pub open spec fn latest_notice(rows: Seq<DeliveryRowView>, run_id: Seq<char>) -> Option<
    DeliveryRowView,
>
    decreases rows.len(),
{
    if rows.len() == 0 {
        None
    } else if rows.last().run_id == run_id {
        Some(rows.last())
    } else {
        latest_notice(rows.drop_last(), run_id)
    }
}

pub open spec fn capped(count: nat) -> u32 {
    if count <= u32::MAX {
        count as u32
    } else {
        u32::MAX
    }
}

/// How far the notices of a run have come. Of the binding it tells the agent,
/// the session and the project, and nothing else.
pub open spec fn continuation_status(s: StoreView, run_id: Seq<char>) -> RunContinuationStatusView {
    let rows = s.deliveries;
    let counted = RunContinuationStatusView {
        pending: capped(run_count(rows, run_id, DeliveryState::Pending)),
        delivering: capped(run_count(rows, run_id, DeliveryState::Delivering)),
        retrying: capped(run_count(rows, run_id, DeliveryState::Retrying)),
        needs_rebind: capped(run_count(rows, run_id, DeliveryState::NeedsRebind)),
        delivered: capped(run_count(rows, run_id, DeliveryState::Delivered)),
        last_state: match latest_notice(rows, run_id) {
            Some(row) => Some(row.state.name()),
            None => None,
        },
        last_error: match latest_notice(rows, run_id) {
            Some(row) => row.last_error,
            None => None,
        },
        ..RunContinuationStatus::idle(run_id)
    };
    match s.binding(run_id) {
        Some(binding) => RunContinuationStatusView {
            configured: true,
            agent_kind: Some(binding.agent_kind),
            session_id: Some(binding.session_id),
            project_root: Some(binding.project_root),
            ..counted
        },
        None => counted,
    }
}

/// The items, each once, in the order of their first occurrence.
pub open spec fn distinct(items: Seq<Seq<char>>) -> Seq<Seq<char>>
    decreases items.len(),
{
    if items.len() == 0 {
        Seq::empty()
    } else {
        let before = distinct(items.drop_last());
        if before.contains(items.last()) {
            before
        } else {
            before.push(items.last())
        }
    }
}

/// The names of the runs that are bound, then of those that have notices.
pub open spec fn told_names(s: StoreView) -> Seq<Seq<char>> {
    s.bindings.map_values(|row: store::BindingRowView| row.run_id) + s.deliveries.map_values(
        |row: DeliveryRowView| row.run_id,
    )
}

pub open spec fn name_order() -> spec_fn(Seq<char>, Seq<char>) -> bool {
    |a: Seq<char>, b: Seq<char>| text::precedes(a, b)
}

pub open spec fn status_of(s: StoreView) -> spec_fn(Seq<char>) -> RunContinuationStatusView {
    |run_id: Seq<char>| continuation_status(s, run_id)
}

/// How far the notices of every run have come that is bound or has one, by the
/// name of the run.
pub open spec fn continuation_statuses(s: StoreView) -> Seq<RunContinuationStatusView> {
    seqs::stable_sorted(distinct(told_names(s)), name_order()).map_values(status_of(s))
}

// ---------------------------------------------------------------------------
// The journal that came before the database
// ---------------------------------------------------------------------------

/// A line of the journal: nothing, a run, or what could not be read.
#[derive(Debug, PartialEq, Eq)]
pub enum LegacyLine {
    Blank,
    Run(RunRecord),
    Broken,
}

/// What a `LegacyLine` says.
pub enum LegacyLineView {
    Blank,
    Run(RunRecordView),
    Broken,
}

impl View for LegacyLine {
    type V = LegacyLineView;

    open spec fn view(&self) -> LegacyLineView {
        match *self {
            LegacyLine::Blank => LegacyLineView::Blank,
            LegacyLine::Run(run) => LegacyLineView::Run(run@),
            LegacyLine::Broken => LegacyLineView::Broken,
        }
    }
}

impl DeepView for LegacyLine {
    type V = LegacyLineView;

    open spec fn deep_view(&self) -> LegacyLineView {
        self.view()
    }
}

/// A line that cannot be read is an error, unless it is the last one: a crash
/// may have cut that short.
pub open spec fn journal_broken(lines: Seq<LegacyLineView>) -> bool {
    exists|i: int| 0 <= i < lines.len() - 1 && (#[trigger] lines[i]) is Broken
}

/// The runs of the journal in the order in which they first came, each as its
/// last line has it.
pub open spec fn journal_runs(lines: Seq<LegacyLineView>) -> Seq<RunRecordView>
    decreases lines.len(),
{
    if lines.len() == 0 {
        Seq::empty()
    } else {
        let before = journal_runs(lines.drop_last());
        match lines.last() {
            LegacyLineView::Run(run) => seqs::put(before, store::by_run(run.run_id), run),
            _ => before,
        }
    }
}

pub fn read_legacy_latest(lines: Vec<LegacyLine>) -> (result: Result<Vec<RunRecord>, String>)
    ensures
        match result {
            Ok(runs) => {
                &&& !journal_broken(lines.deep_view())
                &&& runs.deep_view() == journal_runs(lines.deep_view())
                &&& seqs::unique(runs.deep_view(), store::run_key())
            },
            Err(reason) => {
                &&& journal_broken(lines.deep_view())
                &&& reason@ == "parse legacy runs.jsonl journal"@
            },
        },
{
    let ghost all = lines.deep_view();
    let mut runs: Vec<RunRecord> = Vec::new();
    let mut i: usize = 0;
    assert(all.take(0) =~= Seq::<LegacyLineView>::empty());
    assert(runs.deep_view() =~= Seq::<RunRecordView>::empty());
    while i < lines.len()
        invariant
            i <= lines@.len(),
            all == lines.deep_view(),
            forall|j: int| 0 <= j < i && j < all.len() - 1 ==> !((#[trigger] all[j]) is Broken),
            runs.deep_view() == journal_runs(all.take(i as int)),
            seqs::unique(runs.deep_view(), store::run_key()),
        decreases lines@.len() - i,
    {
        proof {
            let now = all.take(i + 1);
            assert(now.drop_last() =~= all.take(i as int));
            assert(now.last() == lines@[i as int]@);
        }
        match &lines[i] {
            LegacyLine::Blank => {},
            LegacyLine::Run(run) => {
                let ghost wanted = store::by_run(run@.run_id);
                let test = |row: &RunRecord| -> (yes: bool)
                    ensures
                        yes == wanted(row.deep_view()),
                    {
                        same(row.run_id.as_str(), run.run_id.as_str())
                    };
                let at = crate::seqs::position(&runs, test, Ghost(wanted));
                let copy = run.clone();
                let ghost before = runs;
                proof {
                    seqs::lemma_put_unique(runs.deep_view(), wanted, copy@, store::run_key());
                }
                if at < runs.len() {
                    runs.set(at, copy);
                    proof {
                        seqs::lemma_deep_update(before, runs, at as int, copy);
                    }
                } else {
                    runs.push(copy);
                    proof {
                        seqs::lemma_deep_push(before, runs, copy);
                    }
                }
            },
            LegacyLine::Broken => {
                if i + 1 != lines.len() {
                    assert(all[i as int] is Broken);
                    return Err("parse legacy runs.jsonl journal".to_owned());
                }
            },
        }
        i += 1;
    }
    assert(all.take(i as int) =~= all);
    Ok(runs)
}

// ---------------------------------------------------------------------------
// The requests
// ---------------------------------------------------------------------------

/// Adds the name to a list that holds each name once.
pub fn note_name(names: &mut Vec<String>, name: &String)
    ensures
        final(names).deep_view() == if old(names).deep_view().contains(name@) {
            old(names).deep_view()
        } else {
            old(names).deep_view().push(name@)
        },
{
    let mut i: usize = 0;
    while i < names.len()
        invariant
            *names == *old(names),
            i <= names@.len(),
            forall|j: int| 0 <= j < i ==> #[trigger] names.deep_view()[j] != name@,
        decreases names@.len() - i,
    {
        if names[i] == *name {
            assert(names.deep_view()[i as int] == name@);
            return;
        }
        assert(names.deep_view()[i as int] != name@);
        i += 1;
    }
    let copy = name.clone();
    names.push(copy);
    proof {
        seqs::lemma_deep_push(*old(names), *names, copy);
    }
}

fn cap_count(count: usize) -> (capped_count: u32)
    ensures
        capped_count == capped(count as nat),
{
    if count as u64 <= u32::MAX as u64 {
        count as u32
    } else {
        u32::MAX
    }
}

impl RunStore {
    /// Takes over the runs of the journal, where the database has none.
    pub fn import_legacy(&mut self, runs: Vec<RunRecord>) -> (imported: bool)
        ensures
            imported == (old(self)@.runs.len() == 0 && runs@.len() > 0),
            final(self)@ == if imported {
                StoreView { runs: runs.deep_view(), ..old(self)@ }
            } else {
                old(self)@
            },
            old(self)@.sound() && seqs::unique(runs.deep_view(), store::run_key())
                ==> final(self)@.sound(),
    {
        assert(self@.runs.len() == self.runs@.len());
        if self.runs.len() == 0 && runs.len() > 0 {
            self.runs = runs;
            true
        } else {
            false
        }
    }

    /// The last events of a run, oldest first: as many as `limit` says, at
    /// least one and at most `MAX_EVENTS`.
    pub fn list_run_events(&self, run_id: &str, limit: usize) -> (result: Result<
        Vec<RunEventRecord>,
        String,
    >)
        ensures
            match result {
                Ok(events) => {
                    &&& unknown_run(self@, run_id@) is None
                    &&& events.deep_view() == seqs::last_items(
                        events_of(self@.events, run_id@),
                        event_limit(limit),
                    )
                },
                Err(reason) => unknown_run(self@, run_id@) == Some(reason@),
            },
    {
        if self.find_run(run_id) >= self.runs.len() {
            let mut reason = "unknown run ".to_owned();
            reason.append(run_id);
            return Err(reason);
        }
        let limit: usize = if limit < 1 {
            1
        } else if limit > MAX_EVENTS {
            MAX_EVENTS
        } else {
            limit
        };
        let ghost rows = self@.events;
        let mut events: Vec<RunEventRecord> = Vec::new();
        let mut i: usize = 0;
        assert(rows.take(0) =~= Seq::<EventRowView>::empty());
        assert(events.deep_view() =~= Seq::<RunEventRecordView>::empty());
        while i < self.events.len()
            invariant
                i <= rows.len(),
                rows == self@.events,
                events.deep_view() == events_of(rows.take(i as int), run_id@),
            decreases rows.len() - i,
        {
            proof {
                let now = rows.take(i + 1);
                assert(now.drop_last() =~= rows.take(i as int));
                assert(now.last() == rows[i as int]);
            }
            let row = &self.events[i];
            if same(row.run_id.as_str(), run_id) {
                let ghost before = events;
                let event = RunEventRecord {
                    id: i as u64 + 1,
                    run_id: run_id.to_owned(),
                    at: row.at,
                    kind: row.kind.clone(),
                    payload: row.payload.clone(),
                };
                events.push(event);
                proof {
                    seqs::lemma_deep_push(before, events, event);
                }
            }
            i += 1;
        }
        assert(rows.take(i as int) =~= rows);
        if events.len() <= limit {
            assert(events.deep_view().len() == events@.len());
            Ok(events)
        } else {
            let ghost all = events;
            let from = events.len() - limit;
            let last = events.split_off(from);
            assert(all.deep_view().len() == all@.len());
            assert(last.deep_view() =~= all.deep_view().skip(from as int));
            Ok(last)
        }
    }

    fn count_notices(&self, run_id: &str, state: DeliveryState) -> (count: u32)
        ensures
            count == capped(run_count(self@.deliveries, run_id@, state)),
    {
        let ghost rows = self@.deliveries;
        let mut count: usize = 0;
        let mut i: usize = 0;
        assert(rows.take(0) =~= Seq::<DeliveryRowView>::empty());
        while i < self.deliveries.len()
            invariant
                i <= rows.len(),
                rows == self@.deliveries,
                count <= i,
                count == run_count(rows.take(i as int), run_id@, state),
            decreases rows.len() - i,
        {
            proof {
                let now = rows.take(i + 1);
                assert(now.drop_last() =~= rows.take(i as int));
                assert(now.last() == rows[i as int]);
            }
            let row = &self.deliveries[i];
            if row.state == state && same(row.run_id.as_str(), run_id) {
                count = count + 1;
            }
            i += 1;
        }
        assert(rows.take(i as int) =~= rows);
        cap_count(count)
    }

    fn find_latest_notice(&self, run_id: &str) -> (latest: Option<usize>)
        ensures
            match latest {
                Some(at) => {
                    &&& at < self.deliveries@.len()
                    &&& latest_notice(self@.deliveries, run_id@) == Some(
                        self@.deliveries[at as int],
                    )
                },
                None => latest_notice(self@.deliveries, run_id@) is None,
            },
    {
        let ghost rows = self@.deliveries;
        let mut i: usize = self.deliveries.len();
        assert(rows.take(i as int) =~= rows);
        while i > 0
            invariant
                i <= rows.len(),
                rows == self@.deliveries,
                rows.len() == self.deliveries@.len(),
                latest_notice(rows, run_id@) == latest_notice(rows.take(i as int), run_id@),
            decreases i,
        {
            proof {
                let now = rows.take(i as int);
                assert(now.drop_last() =~= rows.take(i - 1));
                assert(now.last() == rows[i - 1]);
            }
            i -= 1;
            if same(self.deliveries[i].run_id.as_str(), run_id) {
                return Some(i);
            }
        }
        None
    }

    fn read_status(&self, run_id: &str) -> (status: RunContinuationStatus)
        ensures
            status@ == continuation_status(self@, run_id@),
    {
        let mut status = RunContinuationStatus {
            run_id: run_id.to_owned(),
            pending: self.count_notices(run_id, DeliveryState::Pending),
            delivering: self.count_notices(run_id, DeliveryState::Delivering),
            retrying: self.count_notices(run_id, DeliveryState::Retrying),
            needs_rebind: self.count_notices(run_id, DeliveryState::NeedsRebind),
            delivered: self.count_notices(run_id, DeliveryState::Delivered),
            configured: false,
            agent_kind: None,
            session_id: None,
            project_root: None,
            last_state: None,
            last_error: None,
        };
        match self.find_latest_notice(run_id) {
            Some(at) => {
                status.last_state = Some(self.deliveries[at].state.as_text());
                status.last_error = clone_text(&self.deliveries[at].last_error);
            },
            None => {},
        }
        let at = self.find_binding(run_id);
        if at < self.bindings.len() {
            let binding = &self.bindings[at].binding;
            status.configured = true;
            status.agent_kind = Some(binding.agent_kind.clone());
            status.session_id = Some(binding.session_id.clone());
            status.project_root = Some(binding.project_root.clone());
        }
        status
    }

    pub fn get_run_continuation_status(&self, run_id: &str) -> (result: Result<
        RunContinuationStatus,
        String,
    >)
        ensures
            match result {
                Ok(status) => {
                    &&& unknown_run(self@, run_id@) is None
                    &&& status@ == continuation_status(self@, run_id@)
                },
                Err(reason) => unknown_run(self@, run_id@) == Some(reason@),
            },
    {
        if self.find_run(run_id) >= self.runs.len() {
            let mut reason = "unknown run ".to_owned();
            reason.append(run_id);
            return Err(reason);
        }
        Ok(self.read_status(run_id))
    }

    fn list_told_names(&self) -> (names: Vec<String>)
        ensures
            names.deep_view() == distinct(told_names(self@)),
    {
        let ghost all = told_names(self@);
        let mut names: Vec<String> = Vec::new();
        let mut i: usize = 0;
        assert(all.take(0) =~= Seq::<Seq<char>>::empty());
        assert(names.deep_view() =~= Seq::<Seq<char>>::empty());
        while i < self.bindings.len()
            invariant
                i <= self.bindings@.len(),
                all == told_names(self@),
                names.deep_view() == distinct(all.take(i as int)),
            decreases self.bindings@.len() - i,
        {
            proof {
                let now = all.take(i + 1);
                assert(now.drop_last() =~= all.take(i as int));
                assert(now.last() == self@.bindings[i as int].run_id);
            }
            note_name(&mut names, &self.bindings[i].run_id);
            i += 1;
        }
        let ghost bound = self.bindings@.len();
        let mut k: usize = 0;
        while k < self.deliveries.len()
            invariant
                k <= self.deliveries@.len(),
                bound == self.bindings@.len(),
                all == told_names(self@),
                names.deep_view() == distinct(all.take(bound + k)),
            decreases self.deliveries@.len() - k,
        {
            proof {
                let now = all.take(bound + k + 1);
                assert(now.drop_last() =~= all.take(bound + k));
                assert(now.last() == self@.deliveries[k as int].run_id);
            }
            note_name(&mut names, &self.deliveries[k].run_id);
            k += 1;
        }
        assert(all.take(bound + k) =~= all);
        names
    }

    pub fn list_run_continuation_statuses(&self) -> (statuses: Vec<RunContinuationStatus>)
        ensures
            statuses.deep_view() == continuation_statuses(self@),
    {
        let before = |a: &String, b: &String| -> (yes: bool)
            ensures
                yes == name_order()(a.deep_view(), b.deep_view()),
            {
                text_before(a.as_str(), b.as_str())
            };
        let names = stable_sort(self.list_told_names(), before, Ghost(name_order()));
        let mut statuses: Vec<RunContinuationStatus> = Vec::new();
        let mut i: usize = 0;
        while i < names.len()
            invariant
                i <= names@.len(),
                statuses.deep_view() =~= names.deep_view().map_values(status_of(self@)).take(
                    i as int,
                ),
            decreases names@.len() - i,
        {
            let ghost earlier = statuses;
            let status = self.read_status(names[i].as_str());
            statuses.push(status);
            proof {
                seqs::lemma_deep_push(earlier, statuses, status);
            }
            i += 1;
        }
        statuses
    }

    pub fn get_delivery_state(&self, delivery_id: &str) -> (state: Option<String>)
        ensures
            text::text_opt(state) == (match self@.delivery(delivery_id@) {
                Some(row) => Some(row.state.name()),
                None => None,
            }),
    {
        let at = self.find_delivery(delivery_id);
        if at < self.deliveries.len() {
            Some(self.deliveries[at].state.as_text())
        } else {
            None
        }
    }
}

} // verus!
