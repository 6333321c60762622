//! The page of runs: what it shows, and what its buttons do.
use crate::console::controller::{Command, CommandView, Reaction, ReactionView};
use crate::console::drafts;
use crate::console::drafts::{
    ManualRunDraft, ManualRunDraftView, ManualRunner, RetryDraft, RetryDraftView,
};
use crate::console::model;
use crate::console::model::{
    filter_rows, sort_rows, DashboardSnapshot, DashboardSnapshotView, RetryContextView,
    RetryContextViewView, RunDetailView, RunDetailViewView, RunFilter, RunRow, RunRowView, RunSort,
};
use crate::seqs;
use crate::seqs::position;
use crate::submission;
use crate::submission::show_runner;
use crate::text;
use crate::text::{decimal_text, same};
use crate::time::Timestamp;
use crate::types::{RetryRunSpec, RetryRunSpecView, RunResourcesView, RunnerKind, SubmitRunSpecView};
use vstd::prelude::*;
use vstd::string::*;

verus! {

/// The most events that the page asks for.
pub const MAX_SHOWN_EVENTS: usize = 200;

/// What the page of runs shows: the list, one run, and the dialogs.
#[derive(Debug)]
pub struct RunsViewState {
    pub all_rows: Vec<RunRow>,
    pub table_rows: Vec<Vec<String>>,
    pub table_ids: Vec<String>,
    pub filter: RunFilter,
    pub sort: RunSort,
    pub query: String,
    pub active: String,
    pub attention: String,
    pub recent_terminal: String,
    pub total: String,
    pub daemon: String,
    pub selected_id: String,
    pub detail_request: u64,
    pub detail_title: String,
    pub selected_attempt_no: u32,
    pub attempt_numbers: Vec<u32>,
    pub attempt_label: String,
    pub overview: String,
    pub logs: String,
    pub artifacts: String,
    pub timeline: String,
    pub continuation: String,
    pub log_tail: usize,
    pub event_limit: usize,
    pub log_wrap: bool,
    pub can_cancel: bool,
    pub cancel_dialog: bool,
    pub manual_submit_supported: bool,
    pub retry_supported: bool,
    pub retry_available: bool,
    pub retry_dialog: bool,
    pub retry_pending: bool,
    pub retry_message: String,
    pub retry_runner: RunnerKind,
    pub retry_identity: String,
    pub retry: RetryDraft,
    pub create_dialog: bool,
    pub create_runner: ManualRunner,
    pub create_pending: bool,
    pub create_message: String,
    pub create: ManualRunDraft,
}

/// What a `RunsViewState` says.
pub struct RunsViewStateView {
    pub all_rows: Seq<RunRowView>,
    pub table_rows: Seq<Seq<Seq<char>>>,
    pub table_ids: Seq<Seq<char>>,
    pub filter: RunFilter,
    pub sort: RunSort,
    pub query: Seq<char>,
    pub active: Seq<char>,
    pub attention: Seq<char>,
    pub recent_terminal: Seq<char>,
    pub total: Seq<char>,
    pub daemon: Seq<char>,
    pub selected_id: Seq<char>,
    pub detail_request: u64,
    pub detail_title: Seq<char>,
    pub selected_attempt_no: u32,
    pub attempt_numbers: Seq<u32>,
    pub attempt_label: Seq<char>,
    pub overview: Seq<char>,
    pub logs: Seq<char>,
    pub artifacts: Seq<char>,
    pub timeline: Seq<char>,
    pub continuation: Seq<char>,
    pub log_tail: usize,
    pub event_limit: usize,
    pub log_wrap: bool,
    pub can_cancel: bool,
    pub cancel_dialog: bool,
    pub manual_submit_supported: bool,
    pub retry_supported: bool,
    pub retry_available: bool,
    pub retry_dialog: bool,
    pub retry_pending: bool,
    pub retry_message: Seq<char>,
    pub retry_runner: RunnerKind,
    pub retry_identity: Seq<char>,
    pub retry: RetryDraftView,
    pub create_dialog: bool,
    pub create_runner: ManualRunner,
    pub create_pending: bool,
    pub create_message: Seq<char>,
    pub create: ManualRunDraftView,
}

impl View for RunsViewState {
    type V = RunsViewStateView;

    open spec fn view(&self) -> RunsViewStateView {
        RunsViewStateView {
            all_rows: self.all_rows.deep_view(),
            table_rows: self.table_rows.deep_view(),
            table_ids: text::texts(self.table_ids@),
            filter: self.filter,
            sort: self.sort,
            query: self.query@,
            active: self.active@,
            attention: self.attention@,
            recent_terminal: self.recent_terminal@,
            total: self.total@,
            daemon: self.daemon@,
            selected_id: self.selected_id@,
            detail_request: self.detail_request,
            detail_title: self.detail_title@,
            selected_attempt_no: self.selected_attempt_no,
            attempt_numbers: self.attempt_numbers@,
            attempt_label: self.attempt_label@,
            overview: self.overview@,
            logs: self.logs@,
            artifacts: self.artifacts@,
            timeline: self.timeline@,
            continuation: self.continuation@,
            log_tail: self.log_tail,
            event_limit: self.event_limit,
            log_wrap: self.log_wrap,
            can_cancel: self.can_cancel,
            cancel_dialog: self.cancel_dialog,
            manual_submit_supported: self.manual_submit_supported,
            retry_supported: self.retry_supported,
            retry_available: self.retry_available,
            retry_dialog: self.retry_dialog,
            retry_pending: self.retry_pending,
            retry_message: self.retry_message@,
            retry_runner: self.retry_runner,
            retry_identity: self.retry_identity@,
            retry: self.retry@,
            create_dialog: self.create_dialog,
            create_runner: self.create_runner,
            create_pending: self.create_pending,
            create_message: self.create_message@,
            create: self.create@,
        }
    }
}

impl DeepView for RunsViewState {
    type V = RunsViewStateView;

    open spec fn deep_view(&self) -> RunsViewStateView {
        self.view()
    }
}

// ---------------------------------------------------------------------------
// The page at first
// ---------------------------------------------------------------------------

pub open spec fn empty_retry() -> RetryDraftView {
    RetryDraftView {
        run_id: Seq::empty(),
        expected_attempt_no: 0,
        request_id: Seq::empty(),
        time: Seq::empty(),
        pool: Seq::empty(),
        account: Seq::empty(),
        cpus: Seq::empty(),
        mem: Seq::empty(),
        gpus: Seq::empty(),
    }
}

pub open spec fn empty_draft() -> ManualRunDraftView {
    ManualRunDraftView {
        name: Seq::empty(),
        host_alias: Seq::empty(),
        cwd: Seq::empty(),
        command: Seq::empty(),
        time: Seq::empty(),
        pool: Seq::empty(),
        account: Seq::empty(),
        cpus: Seq::empty(),
        mem: Seq::empty(),
        gpus: Seq::empty(),
    }
}

fn no_retry() -> (draft: RetryDraft)
    ensures
        draft@ == empty_retry(),
{
    RetryDraft {
        run_id: String::new(),
        expected_attempt_no: 0,
        request_id: String::new(),
        time: String::new(),
        pool: String::new(),
        account: String::new(),
        cpus: String::new(),
        mem: String::new(),
        gpus: String::new(),
    }
}

impl RunsViewState {
    pub fn new() -> (page: Self)
        ensures
            page@ == (RunsViewStateView {
                all_rows: Seq::empty(),
                table_rows: Seq::empty(),
                table_ids: Seq::empty(),
                filter: RunFilter::Active,
                sort: RunSort::Priority,
                query: Seq::empty(),
                active: "0"@,
                attention: "0"@,
                recent_terminal: "0"@,
                total: "0"@,
                daemon: "Connecting to runwatchd..."@,
                selected_id: Seq::empty(),
                detail_request: 0,
                detail_title: "Select a Run to inspect"@,
                selected_attempt_no: 0,
                attempt_numbers: Seq::empty(),
                attempt_label: "No Attempt"@,
                overview: "Double-click a row or use Open."@,
                logs: "No Run selected."@,
                artifacts: "No Run selected."@,
                timeline: "No Run selected."@,
                continuation: "No Run selected."@,
                log_tail: 80,
                event_limit: 80,
                log_wrap: false,
                can_cancel: false,
                cancel_dialog: false,
                manual_submit_supported: false,
                retry_supported: false,
                retry_available: false,
                retry_dialog: false,
                retry_pending: false,
                retry_message: Seq::empty(),
                retry_runner: RunnerKind::Process,
                retry_identity: Seq::empty(),
                retry: empty_retry(),
                create_dialog: false,
                create_runner: ManualRunner::Process,
                create_pending: false,
                create_message: Seq::empty(),
                create: empty_draft(),
            }),
    {
        let page = RunsViewState {
            all_rows: Vec::new(),
            table_rows: Vec::new(),
            table_ids: Vec::new(),
            filter: RunFilter::Active,
            sort: RunSort::Priority,
            query: String::new(),
            active: "0".to_owned(),
            attention: "0".to_owned(),
            recent_terminal: "0".to_owned(),
            total: "0".to_owned(),
            daemon: "Connecting to runwatchd...".to_owned(),
            selected_id: String::new(),
            detail_request: 0,
            detail_title: "Select a Run to inspect".to_owned(),
            selected_attempt_no: 0,
            attempt_numbers: Vec::new(),
            attempt_label: "No Attempt".to_owned(),
            overview: "Double-click a row or use Open.".to_owned(),
            logs: "No Run selected.".to_owned(),
            artifacts: "No Run selected.".to_owned(),
            timeline: "No Run selected.".to_owned(),
            continuation: "No Run selected.".to_owned(),
            log_tail: 80,
            event_limit: 80,
            log_wrap: false,
            can_cancel: false,
            cancel_dialog: false,
            manual_submit_supported: false,
            retry_supported: false,
            retry_available: false,
            retry_dialog: false,
            retry_pending: false,
            retry_message: String::new(),
            retry_runner: RunnerKind::Process,
            retry_identity: String::new(),
            retry: no_retry(),
            create_dialog: false,
            create_runner: ManualRunner::Process,
            create_pending: false,
            create_message: String::new(),
            create: ManualRunDraft::default(),
        };
        assert(page@.all_rows =~= Seq::empty());
        assert(page@.table_rows =~= Seq::empty());
        assert(page@.table_ids =~= Seq::empty());
        page
    }
}

// ---------------------------------------------------------------------------
// The list
// ---------------------------------------------------------------------------

pub open spec fn row_id() -> spec_fn(RunRowView) -> Seq<char> {
    |row: RunRowView| row.run_id
}

pub open spec fn row_cells() -> spec_fn(RunRowView) -> Seq<Seq<char>> {
    |row: RunRowView| model::cells_of(row)
}

/// Holds of the row of a run.
pub open spec fn is_row_of(run_id: Seq<char>) -> spec_fn(RunRowView) -> bool {
    |row: RunRowView| row.run_id == run_id
}

impl RunsViewStateView {
    /// The runs that the list shows, in its order.
    pub open spec fn visible(self) -> Seq<RunRowView> {
        model::sorted_rows(
            self.all_rows.filter(
                model::is_shown(
                    self.filter,
                    model::lowercase_text(text::trimmed(self.query)),
                ),
            ),
            self.sort,
        )
    }

    /// The page with its list made anew.
    pub open spec fn relisted(self) -> Self {
        RunsViewStateView {
            table_ids: self.visible().map_values(row_id()),
            table_rows: self.visible().map_values(row_cells()),
            ..self
        }
    }

    pub open spec fn with_snapshot(self, snapshot: DashboardSnapshotView) -> Self {
        RunsViewStateView {
            manual_submit_supported: snapshot.manual_submit_supported,
            retry_supported: snapshot.retry_supported,
            active: text::decimal(snapshot.active as nat),
            attention: text::decimal(snapshot.attention as nat),
            recent_terminal: text::decimal(snapshot.recent_terminal as nat),
            total: text::decimal(snapshot.total as nat),
            daemon: "runwatchd "@ + snapshot.daemon_version + " · pid "@ + text::decimal(
                snapshot.daemon_pid as nat,
            ) + " · "@ + (if snapshot.paused {
                "paused"@
            } else {
                "connected"@
            }),
            all_rows: snapshot.rows,
            ..self
        }.relisted()
    }

    pub open spec fn without_daemon(self, error: Seq<char>) -> Self {
        RunsViewStateView {
            manual_submit_supported: false,
            retry_supported: false,
            retry_available: false,
            daemon: "runwatchd unavailable · "@ + error,
            ..self
        }
    }

    /// The run that is shown, where the list of all runs has it.
    pub open spec fn selected(self) -> Option<RunRowView> {
        seqs::first(self.all_rows, is_row_of(self.selected_id))
    }
}

impl RunsViewState {
    /// Makes the list anew.
    pub fn rebuild_visible(&mut self)
        ensures
            final(self)@ == old(self)@.relisted(),
    {
        let mut rows = filter_rows(&self.all_rows, self.filter, self.query.as_str());
        sort_rows(&mut rows, self.sort);
        let ghost visible = rows.deep_view();
        assert(visible == self@.visible());
        let mut ids: Vec<String> = Vec::new();
        let mut cells: Vec<Vec<String>> = Vec::new();
        let mut i: usize = 0;
        while i < rows.len()
            invariant
                i <= rows@.len(),
                visible == rows.deep_view(),
                text::texts(ids@) =~= visible.map_values(row_id()).take(i as int),
                cells.deep_view() =~= visible.map_values(row_cells()).take(i as int),
            decreases rows@.len() - i,
        {
            let id = rows[i].run_id.clone();
            let line = rows[i].table_cells();
            let ghost before = cells;
            proof {
                assert(visible[i as int] == rows@[i as int]@);
                text::lemma_texts_push(ids@, id);
            }
            ids.push(id);
            cells.push(line);
            proof {
                seqs::lemma_deep_push(before, cells, line);
            }
            i += 1;
        }
        assert(text::texts(ids@) =~= visible.map_values(row_id()));
        assert(cells.deep_view() =~= visible.map_values(row_cells()));
        self.table_ids = ids;
        self.table_rows = cells;
    }

    pub fn apply_snapshot(&mut self, snapshot: DashboardSnapshot)
        ensures
            final(self)@ == old(self)@.with_snapshot(snapshot@),
    {
        self.manual_submit_supported = snapshot.manual_submit_supported;
        self.retry_supported = snapshot.retry_supported;
        self.active = decimal_text(snapshot.active as u64);
        self.attention = decimal_text(snapshot.attention as u64);
        self.recent_terminal = decimal_text(snapshot.recent_terminal as u64);
        self.total = decimal_text(snapshot.total as u64);
        let mut daemon = "runwatchd ".to_owned();
        daemon.append(snapshot.daemon_version.as_str());
        daemon.append(" · pid ");
        daemon.append(decimal_text(snapshot.daemon_pid).as_str());
        daemon.append(" · ");
        daemon.append(if snapshot.paused { "paused" } else { "connected" });
        self.daemon = daemon;
        self.all_rows = snapshot.rows;
        self.rebuild_visible();
    }

    pub fn daemon_unavailable(&mut self, error: &str)
        ensures
            final(self)@ == old(self)@.without_daemon(error@),
    {
        self.manual_submit_supported = false;
        self.retry_supported = false;
        self.retry_available = false;
        let mut daemon = "runwatchd unavailable · ".to_owned();
        daemon.append(error);
        self.daemon = daemon;
    }

    pub fn set_filter(&mut self, filter: RunFilter)
        ensures
            final(self)@ == (RunsViewStateView { filter, ..old(self)@ }).relisted(),
    {
        self.filter = filter;
        self.rebuild_visible();
    }

    pub fn set_sort(&mut self, sort: RunSort)
        ensures
            final(self)@ == (RunsViewStateView { sort, ..old(self)@ }).relisted(),
    {
        self.sort = sort;
        self.rebuild_visible();
    }

    pub fn clear_query(&mut self)
        ensures
            final(self)@ == (RunsViewStateView { query: Seq::empty(), ..old(self)@ }).relisted(),
    {
        self.query = String::new();
        self.rebuild_visible();
    }

    /// The run that is shown, where the list of all runs has it.
    pub fn selected_row(&self) -> (row: Option<RunRow>)
        ensures
            row.deep_view() == self@.selected(),
    {
        let test = |row: &RunRow| -> (yes: bool)
            ensures
                yes == is_row_of(self.selected_id@)(row.deep_view()),
            {
                same(row.run_id.as_str(), self.selected_id.as_str())
            };
        let at = position(&self.all_rows, test, Ghost(is_row_of(self.selected_id@)));
        assert(self.all_rows.deep_view().len() == self.all_rows@.len());
        if at < self.all_rows.len() {
            Some(self.all_rows[at].clone())
        } else {
            None
        }
    }
}

// ---------------------------------------------------------------------------
// One run
// ---------------------------------------------------------------------------

pub open spec fn or_empty(value: Option<Seq<char>>) -> Seq<char> {
    match value {
        Some(value) => value,
        None => Seq::empty(),
    }
}

pub open spec fn count_text(value: Option<u32>) -> Seq<char> {
    match value {
        Some(value) => text::decimal(value as nat),
        None => Seq::empty(),
    }
}

fn show_count(value: Option<u32>) -> (shown: String)
    ensures
        shown@ == count_text(value),
{
    match value {
        Some(value) => decimal_text(value as u64),
        None => String::new(),
    }
}

fn text_of(value: &Option<String>) -> (shown: String)
    ensures
        shown@ == or_empty(text::text_opt(*value)),
{
    match value {
        Some(value) => value.clone(),
        None => String::new(),
    }
}

/// What stays the same when a run is tried again.
pub open spec fn identity_text(context: RetryContextViewView) -> Seq<char> {
    "Run ID: "@ + context.run_id + "\nAttempt: "@ + text::decimal(
        context.expected_attempt_no as nat,
    ) + "\nRunner: "@ + submission::runner_name(context.runner) + "\nHost: "@ + context.host
        + "\nWorkspace: "@ + context.workdir + "\n\nCommand (read-only)\n"@ + context.command
}

/// The partition or the queue that a run was given to.
pub open spec fn pool_of(runner: RunnerKind, resources: RunResourcesView) -> Seq<char> {
    match runner {
        RunnerKind::Slurm => or_empty(resources.partition),
        RunnerKind::Lsf => or_empty(resources.queue),
        _ => Seq::empty(),
    }
}

pub open spec fn loading_text(number: u32) -> Seq<char> {
    "Loading Attempt "@ + text::decimal(number as nat) + "..."@
}

impl RunsViewStateView {
    /// The page with what is known of trying the run again.
    pub open spec fn with_retry(self, context: Option<RetryContextViewView>) -> Self {
        match context {
            None => RunsViewStateView {
                retry_available: false,
                retry_identity: Seq::empty(),
                retry: RetryDraftView {
                    run_id: Seq::empty(),
                    expected_attempt_no: 0,
                    ..self.retry
                },
                ..self
            },
            Some(context) => RunsViewStateView {
                retry_available: true,
                retry_runner: context.runner,
                retry_identity: identity_text(context),
                retry: RetryDraftView {
                    run_id: context.run_id,
                    expected_attempt_no: context.expected_attempt_no,
                    request_id: self.retry.request_id,
                    time: or_empty(context.resources.time),
                    pool: pool_of(context.runner, context.resources),
                    account: or_empty(context.resources.account),
                    cpus: count_text(context.resources.cpus),
                    mem: or_empty(context.resources.mem),
                    gpus: count_text(context.resources.gpus),
                },
                ..self
            },
        }
    }

    /// Whether an answer is the one that was last asked for.
    pub open spec fn awaits(self, request_id: u64, run_id: Seq<char>) -> bool {
        request_id == self.detail_request && run_id == self.selected_id
    }

    /// The page with an answer: only the one that was last asked for is shown,
    /// and what is being tried again is not changed under the user's eyes.
    pub open spec fn with_detail(self, request_id: u64, detail: RunDetailViewView) -> Self {
        if !self.awaits(request_id, detail.run_id) {
            self
        } else {
            let shown = RunsViewStateView {
                detail_title: detail.title,
                selected_attempt_no: detail.selected_attempt_no.unwrap_or(0),
                attempt_numbers: detail.attempt_numbers,
                attempt_label: detail.attempt_label,
                overview: detail.overview,
                logs: detail.logs,
                artifacts: detail.artifacts,
                timeline: detail.timeline,
                continuation: detail.continuation,
                can_cancel: detail.can_cancel,
                ..self
            };
            if self.retry_dialog {
                shown
            } else {
                shown.with_retry(detail.retry_context)
            }
        }
    }

    /// The number of the next question.
    pub open spec fn next_request(self) -> u64 {
        if self.detail_request == u64::MAX {
            u64::MAX
        } else {
            (self.detail_request + 1) as u64
        }
    }

    /// The attempt that is asked for, where one is shown.
    pub open spec fn shown_attempt(self) -> Option<u32> {
        if self.selected_attempt_no > 0 {
            Some(self.selected_attempt_no)
        } else {
            None
        }
    }

    /// The question about a run, and the page that awaits its answer.
    pub open spec fn asking(self, run_id: Seq<char>, attempt_no: Option<u32>) -> (
        Self,
        ReactionView,
    ) {
        (
            RunsViewStateView { detail_request: self.next_request(), ..self },
            ReactionView::Send(
                CommandView::LoadDetail {
                    request_id: self.next_request(),
                    run_id,
                    attempt_no,
                    tail: self.log_tail,
                    event_limit: self.event_limit,
                },
            ),
        )
    }

    /// The question about the run that is shown, if any.
    pub open spec fn reloading(self) -> (Self, ReactionView) {
        if self.selected_id.len() == 0 {
            (self, ReactionView::Nothing)
        } else {
            self.asking(self.selected_id, self.shown_attempt())
        }
    }

    /// A line of the list is opened.
    pub open spec fn opening(self, row: int) -> (Self, ReactionView) {
        if row < 0 || row >= self.table_ids.len() {
            (self, ReactionView::Nothing)
        } else {
            RunsViewStateView {
                selected_id: self.table_ids[row],
                selected_attempt_no: 0,
                attempt_numbers: Seq::empty(),
                attempt_label: "Loading current Attempt..."@,
                detail_title: "Loading "@ + self.table_ids[row] + "..."@,
                can_cancel: false,
                ..self
            }.asking(self.table_ids[row], None)
        }
    }

    /// Where the attempt that is shown stands; an unknown one stands last.
    pub open spec fn attempt_place(self) -> int {
        let at = seqs::until(self.attempt_numbers, model::is_number(self.selected_attempt_no));
        if at < self.attempt_numbers.len() {
            at as int
        } else {
            self.attempt_numbers.len() - 1
        }
    }

    /// The attempt that stands `delta` places on, where there is one.
    pub open spec fn attempt_beside(self, delta: int) -> Option<u32> {
        let next = self.attempt_place() + delta;
        if self.attempt_numbers.len() == 0 || next < 0 || next >= self.attempt_numbers.len()
            || self.selected_id.len() == 0 {
            None
        } else {
            Some(self.attempt_numbers[next])
        }
    }

    /// The attempt `delta` places on is opened, or else `toast` is shown.
    pub open spec fn moving(self, delta: int, toast: Seq<char>) -> (Self, ReactionView) {
        match self.attempt_beside(delta) {
            None => (self, ReactionView::Toast(toast)),
            Some(number) => RunsViewStateView {
                selected_attempt_no: number,
                attempt_label: loading_text(number),
                ..self
            }.asking(self.selected_id, Some(number)),
        }
    }
}

fn show_loading(number: u32) -> (label: String)
    ensures
        label@ == loading_text(number),
{
    let mut label = "Loading Attempt ".to_owned();
    label.append(decimal_text(number as u64).as_str());
    label.append("...");
    label
}

impl RunsViewState {
    fn apply_retry_context(&mut self, context: &Option<RetryContextView>)
        ensures
            final(self)@ == old(self)@.with_retry(context.deep_view()),
    {
        match context {
            None => {
                self.retry_available = false;
                self.retry.run_id = String::new();
                self.retry.expected_attempt_no = 0;
                self.retry_identity = String::new();
            },
            Some(context) => {
                let pool = match context.runner {
                    RunnerKind::Slurm => text_of(&context.resources.partition),
                    RunnerKind::Lsf => text_of(&context.resources.queue),
                    _ => String::new(),
                };
                let mut identity = "Run ID: ".to_owned();
                identity.append(context.run_id.as_str());
                identity.append("\nAttempt: ");
                identity.append(decimal_text(context.expected_attempt_no as u64).as_str());
                identity.append("\nRunner: ");
                identity.append(show_runner(context.runner).as_str());
                identity.append("\nHost: ");
                identity.append(context.host.as_str());
                identity.append("\nWorkspace: ");
                identity.append(context.workdir.as_str());
                identity.append("\n\nCommand (read-only)\n");
                identity.append(context.command.as_str());
                self.retry_available = true;
                self.retry_runner = context.runner;
                self.retry_identity = identity;
                self.retry.run_id = context.run_id.clone();
                self.retry.expected_attempt_no = context.expected_attempt_no;
                self.retry.time = text_of(&context.resources.time);
                self.retry.pool = pool;
                self.retry.account = text_of(&context.resources.account);
                self.retry.cpus = show_count(context.resources.cpus);
                self.retry.mem = text_of(&context.resources.mem);
                self.retry.gpus = show_count(context.resources.gpus);
            },
        }
    }

    pub fn apply_detail(&mut self, request_id: u64, detail: RunDetailView)
        ensures
            final(self)@ == old(self)@.with_detail(request_id, detail@),
    {
        if request_id != self.detail_request || !same(
            self.selected_id.as_str(),
            detail.run_id.as_str(),
        ) {
            return ;
        }
        self.detail_title = detail.title;
        self.selected_attempt_no = match detail.selected_attempt_no {
            Some(number) => number,
            None => 0,
        };
        self.attempt_numbers = detail.attempt_numbers;
        self.attempt_label = detail.attempt_label;
        self.overview = detail.overview;
        self.logs = detail.logs;
        self.artifacts = detail.artifacts;
        self.timeline = detail.timeline;
        self.continuation = detail.continuation;
        self.can_cancel = detail.can_cancel;
        if !self.retry_dialog {
            self.apply_retry_context(&detail.retry_context);
        }
    }

    fn next_detail_request(&mut self) -> (request_id: u64)
        ensures
            request_id == old(self)@.next_request(),
            final(self)@ == (RunsViewStateView { detail_request: request_id, ..old(self)@ }),
    {
        let next: u64 = if self.detail_request == u64::MAX {
            u64::MAX
        } else {
            self.detail_request + 1
        };
        self.detail_request = next;
        next
    }

    /// Asks about a run.
    pub fn request_detail(&mut self, run_id: String, attempt_no: Option<u32>) -> (reaction: Reaction)
        ensures
            (final(self)@, reaction@) == old(self)@.asking(run_id@, attempt_no),
    {
        let request_id = self.next_detail_request();
        Reaction::Send(
            Command::LoadDetail {
                request_id,
                run_id,
                attempt_no,
                tail: self.log_tail,
                event_limit: self.event_limit,
            },
        )
    }

    /// Opens a line of the list.
    pub fn load_row(&mut self, row: usize) -> (reaction: Reaction)
        ensures
            (final(self)@, reaction@) == old(self)@.opening(row as int),
    {
        assert(text::texts(self.table_ids@).len() == self.table_ids@.len());
        if row >= self.table_ids.len() {
            return Reaction::Nothing;
        }
        let run_id = self.table_ids[row].clone();
        assert(run_id@ == self@.table_ids[row as int]);
        self.selected_id = run_id.clone();
        self.selected_attempt_no = 0;
        self.attempt_numbers = Vec::new();
        self.attempt_label = "Loading current Attempt...".to_owned();
        let mut title = "Loading ".to_owned();
        title.append(run_id.as_str());
        title.append("...");
        self.detail_title = title;
        self.can_cancel = false;
        assert(self@.attempt_numbers =~= Seq::empty());
        self.request_detail(run_id, None)
    }

    /// Asks about the run that is shown once more.
    pub fn reload(&mut self) -> (reaction: Reaction)
        ensures
            (final(self)@, reaction@) == old(self)@.reloading(),
    {
        if self.selected_id.as_str().is_empty() {
            return Reaction::Nothing;
        }
        let attempt_no = if self.selected_attempt_no > 0 {
            Some(self.selected_attempt_no)
        } else {
            None
        };
        let run_id = self.selected_id.clone();
        self.request_detail(run_id, attempt_no)
    }

    /// Asks for more or fewer lines of the logs.
    pub fn reload_with_tail(&mut self, tail: usize) -> (reaction: Reaction)
        ensures
            (final(self)@, reaction@) == (RunsViewStateView {
                log_tail: tail,
                ..old(self)@
            }).reloading(),
    {
        self.log_tail = tail;
        self.reload()
    }

    /// Asks for more or fewer events.
    pub fn reload_with_events(&mut self, event_limit: usize) -> (reaction: Reaction)
        ensures
            (final(self)@, reaction@) == (RunsViewStateView {
                event_limit: if event_limit < 1 {
                    1
                } else if event_limit > MAX_SHOWN_EVENTS {
                    MAX_SHOWN_EVENTS
                } else {
                    event_limit
                },
                ..old(self)@
            }).reloading(),
    {
        self.event_limit = if event_limit < 1 {
            1
        } else if event_limit > MAX_SHOWN_EVENTS {
            MAX_SHOWN_EVENTS
        } else {
            event_limit
        };
        self.reload()
    }

    /// Where the attempt that is shown stands.
    fn find_attempt(&self) -> (at: usize)
        requires
            self.attempt_numbers@.len() > 0,
        ensures
            at == self@.attempt_place(),
            at < self.attempt_numbers@.len(),
    {
        let selected = self.selected_attempt_no;
        let mut at: usize = 0;
        while at < self.attempt_numbers.len() && self.attempt_numbers[at] != selected
            invariant
                at <= self.attempt_numbers@.len(),
                forall|j: int|
                    0 <= j < at ==> !model::is_number(selected)(
                        #[trigger] self.attempt_numbers@[j],
                    ),
            decreases self.attempt_numbers@.len() - at,
        {
            at += 1;
        }
        proof {
            seqs::lemma_until(self.attempt_numbers@, model::is_number(selected), at as nat);
        }
        if at == self.attempt_numbers.len() {
            at - 1
        } else {
            at
        }
    }

    /// The attempt `delta` places on.
    fn attempt_on(&self, delta: isize) -> (number: Option<u32>)
        ensures
            number == self@.attempt_beside(delta as int),
    {
        if self.attempt_numbers.len() == 0 || self.selected_id.as_str().is_empty() {
            return None;
        }
        let next: i128 = self.find_attempt() as i128 + delta as i128;
        if next < 0 || next >= self.attempt_numbers.len() as i128 {
            return None;
        }
        Some(self.attempt_numbers[next as usize])
    }

    /// Opens the attempt `delta` places on, or else shows `toast`.
    fn move_attempt(&mut self, delta: isize, toast: &'static str) -> (reaction: Reaction)
        ensures
            (final(self)@, reaction@) == old(self)@.moving(delta as int, toast@),
    {
        match self.attempt_on(delta) {
            None => Reaction::Toast(toast),
            Some(number) => {
                let run_id = self.selected_id.clone();
                self.selected_attempt_no = number;
                self.attempt_label = show_loading(number);
                self.request_detail(run_id, Some(number))
            },
        }
    }

    pub fn older_attempt(&mut self) -> (reaction: Reaction)
        ensures
            (final(self)@, reaction@) == old(self)@.moving(-1, "No earlier Attempt"@),
    {
        self.move_attempt(-1, "No earlier Attempt")
    }

    pub fn newer_attempt(&mut self) -> (reaction: Reaction)
        ensures
            (final(self)@, reaction@) == old(self)@.moving(1, "No later Attempt"@),
    {
        self.move_attempt(1, "No later Attempt")
    }

    /// Has the run that is shown looked at.
    pub fn probe(&self) -> (reaction: Reaction)
        ensures
            reaction@ == match self@.selected() {
                None => ReactionView::Toast("Select a Run first"@),
                Some(row) => if row.active {
                    ReactionView::Send(CommandView::Probe(row.run_id))
                } else {
                    ReactionView::Toast("Terminal Runs do not need an execution probe"@)
                },
            },
    {
        match self.selected_row() {
            None => Reaction::Toast("Select a Run first"),
            Some(row) => if row.active {
                Reaction::Send(Command::Probe(row.run_id))
            } else {
                Reaction::Toast("Terminal Runs do not need an execution probe")
            },
        }
    }

    pub fn copy_id(&self) -> (reaction: Reaction)
        ensures
            reaction@ == if self@.selected_id.len() == 0 {
                ReactionView::Nothing
            } else {
                ReactionView::Copy { value: self@.selected_id, toast: "Run ID copied"@ }
            },
    {
        if self.selected_id.as_str().is_empty() {
            Reaction::Nothing
        } else {
            Reaction::Copy { value: self.selected_id.clone(), toast: "Run ID copied" }
        }
    }

    pub fn copy_handle(&self) -> (reaction: Reaction)
        ensures
            reaction@ == match self@.selected() {
                None => ReactionView::Nothing,
                Some(row) => ReactionView::Copy { value: row.handle, toast: "Run handle copied"@ },
            },
    {
        match self.selected_row() {
            None => Reaction::Nothing,
            Some(row) => Reaction::Copy { value: row.handle, toast: "Run handle copied" },
        }
    }

    pub fn copy_workspace(&self) -> (reaction: Reaction)
        ensures
            reaction@ == match self@.selected() {
                None => ReactionView::Nothing,
                Some(row) => ReactionView::Copy {
                    value: row.workspace,
                    toast: "Workspace copied"@,
                },
            },
    {
        match self.selected_row() {
            None => Reaction::Nothing,
            Some(row) => Reaction::Copy { value: row.workspace, toast: "Workspace copied" },
        }
    }

    pub fn copy_logs(&self) -> (reaction: Reaction)
        ensures
            reaction@ == (ReactionView::Copy { value: self@.logs, toast: "Logs copied"@ }),
    {
        Reaction::Copy { value: self.logs.clone(), toast: "Logs copied" }
    }

    pub fn copy_artifacts(&self) -> (reaction: Reaction)
        ensures
            reaction@ == (ReactionView::Copy {
                value: self@.artifacts,
                toast: "Artifact inventory copied"@,
            }),
    {
        Reaction::Copy { value: self.artifacts.clone(), toast: "Artifact inventory copied" }
    }

    pub fn toggle_wrap(&mut self)
        ensures
            final(self)@ == (RunsViewStateView { log_wrap: !old(self)@.log_wrap, ..old(self)@ }),
    {
        self.log_wrap = !self.log_wrap;
    }
}

// ---------------------------------------------------------------------------
// Cancelling
// ---------------------------------------------------------------------------

impl RunsViewState {
    /// Asks the user whether the run is to be cancelled.
    pub fn ask_cancel(&mut self) -> (reaction: Reaction)
        ensures
            (final(self)@, reaction@) == if old(self)@.can_cancel {
                (
                    RunsViewStateView { cancel_dialog: true, ..old(self)@ },
                    ReactionView::Nothing,
                )
            } else {
                (old(self)@, ReactionView::Toast("Select a non-terminal Run first"@))
            },
    {
        if self.can_cancel {
            self.cancel_dialog = true;
            Reaction::Nothing
        } else {
            Reaction::Toast("Select a non-terminal Run first")
        }
    }

    pub fn close_cancel(&mut self)
        ensures
            final(self)@ == (RunsViewStateView { cancel_dialog: false, ..old(self)@ }),
    {
        self.cancel_dialog = false;
    }

    /// The user wants the run cancelled.
    pub fn confirm_cancel(&mut self) -> (reaction: Reaction)
        ensures
            final(self)@ == (RunsViewStateView { cancel_dialog: false, ..old(self)@ }),
            reaction@ == if old(self)@.selected_id.len() > 0 && old(self)@.can_cancel {
                ReactionView::Send(CommandView::Cancel(old(self)@.selected_id))
            } else {
                ReactionView::Nothing
            },
    {
        self.cancel_dialog = false;
        if !self.selected_id.as_str().is_empty() && self.can_cancel {
            Reaction::Send(Command::Cancel(self.selected_id.clone()))
        } else {
            Reaction::Nothing
        }
    }
}

// ---------------------------------------------------------------------------
// Trying a run again
// ---------------------------------------------------------------------------

/// What the review of a retry opens with.
pub const RETRY_REVIEW: &'static str = "Review the immutable Run identity and scheduler resources. A failed/uncertain retry response keeps the same request identity for safe replay.";

impl RunsViewStateView {
    pub open spec fn reviewing(self, request_id: Seq<char>) -> (Self, ReactionView) {
        if !self.retry_supported {
            (self, ReactionView::Toast("This runwatchd does not advertise retry_run_v1"@))
        } else if !self.retry_available {
            (
                self,
                ReactionView::Toast("This selected Attempt is not eligible for human Retry"@),
            )
        } else {
            (
                RunsViewStateView {
                    retry: RetryDraftView { request_id, ..self.retry },
                    retry_message: RETRY_REVIEW@,
                    retry_dialog: true,
                    ..self
                },
                ReactionView::Nothing,
            )
        }
    }

    /// The page after a request was made, or why it was not.
    pub open spec fn retrying_with(self, drafted: Result<RetryRunSpecView, Seq<char>>) -> (
        Self,
        ReactionView,
    ) {
        match drafted {
            Err(why) => (
                RunsViewStateView {
                    retry_message: "Check the resource review: "@ + why,
                    ..self
                },
                ReactionView::Nothing,
            ),
            Ok(spec) => (
                RunsViewStateView {
                    retry_pending: true,
                    retry_message: creating_text(spec),
                    ..self
                },
                ReactionView::Send(CommandView::Retry(spec)),
            ),
        }
    }

    /// The request is sent once; until it is answered it is not sent again.
    pub open spec fn retrying(self) -> (Self, ReactionView) {
        if self.retry_pending {
            (self, ReactionView::Toast("Retry submission is already in progress"@))
        } else {
            self.retrying_with(drafts::retry_drafted(self.retry, self.retry_runner))
        }
    }

    pub open spec fn retried(self) -> Self {
        RunsViewStateView {
            retry_pending: false,
            retry_dialog: false,
            retry_available: false,
            retry: RetryDraftView { request_id: Seq::empty(), ..self.retry },
            retry_message: Seq::empty(),
            selected_attempt_no: 0,
            attempt_label: "Retry submitted · reload current Attempt"@,
            can_cancel: false,
            ..self
        }
    }

    pub open spec fn not_retried(self, error: Seq<char>) -> Self {
        RunsViewStateView {
            retry_pending: false,
            retry_message: "Retry failed: "@ + error
                + "\nThe same request identity is retained; retrying this dialog is idempotent."@,
            ..self
        }
    }
}

/// The number after an attempt's, as far as there is one.
pub open spec fn next_number(number: u32) -> nat {
    if number == u32::MAX {
        u32::MAX as nat
    } else {
        (number + 1) as nat
    }
}

/// What is said while an attempt is made.
pub open spec fn creating_text(spec: RetryRunSpecView) -> Seq<char> {
    "Creating Attempt "@ + text::decimal(next_number(spec.expected_attempt_no))
        + " with durable request "@ + spec.request_id + "..."@
}

fn show_creating(spec: &RetryRunSpec) -> (message: String)
    ensures
        message@ == creating_text(spec@),
{
    let next: u64 = if spec.expected_attempt_no == u32::MAX {
        u32::MAX as u64
    } else {
        spec.expected_attempt_no as u64 + 1
    };
    let mut message = "Creating Attempt ".to_owned();
    message.append(decimal_text(next).as_str());
    message.append(" with durable request ");
    message.append(spec.request_id.as_str());
    message.append("...");
    message
}

impl RunsViewState {
    /// What the review asks for.
    pub fn retry_draft(&self) -> (draft: RetryDraft)
        ensures
            draft@ == self@.retry,
    {
        self.retry.clone()
    }

    /// Opens the review, under a request of its own.
    pub fn begin_retry_review(&mut self, request_id: &str) -> (reaction: Reaction)
        ensures
            (final(self)@, reaction@) == old(self)@.reviewing(request_id@),
    {
        if !self.retry_supported {
            return Reaction::Toast("This runwatchd does not advertise retry_run_v1");
        }
        if !self.retry_available {
            return Reaction::Toast("This selected Attempt is not eligible for human Retry");
        }
        self.retry.request_id = request_id.to_owned();
        self.retry_message = RETRY_REVIEW.to_owned();
        self.retry_dialog = true;
        Reaction::Nothing
    }

    /// Closes the review, unless its request is under way.
    pub fn close_retry(&mut self) -> (reaction: Reaction)
        ensures
            (final(self)@, reaction@) == if old(self)@.retry_pending {
                (old(self)@, ReactionView::Toast("Retry submission is in progress"@))
            } else {
                (
                    RunsViewStateView {
                        retry_dialog: false,
                        retry: RetryDraftView { request_id: Seq::empty(), ..old(self)@.retry },
                        retry_message: Seq::empty(),
                        ..old(self)@
                    },
                    ReactionView::Nothing,
                )
            },
    {
        if self.retry_pending {
            return Reaction::Toast("Retry submission is in progress");
        }
        self.retry_dialog = false;
        self.retry.request_id = String::new();
        self.retry_message = String::new();
        Reaction::Nothing
    }

    fn send_retry(&mut self, result: Result<RetryRunSpec, String>) -> (reaction: Reaction)
        ensures
            (final(self)@, reaction@) == old(self)@.retrying_with(
                match result {
                    Ok(spec) => Ok(spec@),
                    Err(reason) => Err(reason@),
                },
            ),
    {
        match result {
            Ok(spec) => {
                self.retry_pending = true;
                self.retry_message = show_creating(&spec);
                Reaction::Send(Command::Retry(spec))
            },
            Err(reason) => {
                let mut message = "Check the resource review: ".to_owned();
                message.append(reason.as_str());
                self.retry_message = message;
                Reaction::Nothing
            },
        }
    }

    pub fn submit_retry(&mut self) -> (reaction: Reaction)
        ensures
            (final(self)@, reaction@) == old(self)@.retrying(),
    {
        if self.retry_pending {
            return Reaction::Toast("Retry submission is already in progress");
        }
        let result = self.retry_draft().build_spec(self.retry_runner);
        self.send_retry(result)
    }

    /// Nobody was there to take the request.
    pub fn retry_unsent(&mut self)
        ensures
            final(self)@ == (RunsViewStateView {
                retry_pending: false,
                retry_message:
                    "Retry failed: GUI controller is unavailable. The request identity is retained."@,
                ..old(self)@
            }),
    {
        self.retry_pending = false;
        self.retry_message =
        "Retry failed: GUI controller is unavailable. The request identity is retained.".to_owned();
    }

    pub fn retry_succeeded(&mut self)
        ensures
            final(self)@ == old(self)@.retried(),
    {
        self.retry_pending = false;
        self.retry_dialog = false;
        self.retry_available = false;
        self.retry.request_id = String::new();
        self.retry_message = String::new();
        self.selected_attempt_no = 0;
        self.attempt_label = "Retry submitted · reload current Attempt".to_owned();
        self.can_cancel = false;
    }

    pub fn retry_failed(&mut self, error: &str)
        ensures
            final(self)@ == old(self)@.not_retried(error@),
    {
        self.retry_pending = false;
        let mut message = "Retry failed: ".to_owned();
        message.append(error);
        message.append(
            "\nThe same request identity is retained; retrying this dialog is idempotent.",
        );
        self.retry_message = message;
    }
}

// ---------------------------------------------------------------------------
// Starting a run
// ---------------------------------------------------------------------------

/// What the form of a new run opens with.
pub const CREATE_HINT: &'static str = "Manual Runs are not bound to Pi/Codex continuation. runwatchd remains the sole submission authority.";

impl RunsViewStateView {
    pub open spec fn creating(self, drafted: Result<
        SubmitRunSpecView,
        Seq<char>,
    >) -> (Self, ReactionView) {
        if self.create_pending {
            (self, ReactionView::Toast("Submission is already in progress"@))
        } else {
            match drafted {
                Err(why) => (
                    RunsViewStateView {
                        create_message: "Check the form: "@ + why,
                        ..self
                    },
                    ReactionView::Nothing,
                ),
                Ok(spec) => (
                    RunsViewStateView {
                        create_pending: true,
                        create_message: "Submitting "@ + spec.run_id + "..."@,
                        ..self
                    },
                    ReactionView::Send(CommandView::SubmitManual(spec)),
                ),
            }
        }
    }

    pub open spec fn created(self) -> Self {
        RunsViewStateView {
            create_pending: false,
            create_dialog: false,
            create_message: Seq::empty(),
            create: empty_draft(),
            ..self
        }
    }

    pub open spec fn not_created(self, error: Seq<char>) -> Self {
        RunsViewStateView {
            create_pending: false,
            create_message: "Submission failed: "@ + error,
            ..self
        }
    }
}

impl RunsViewState {
    /// What the form asks for.
    pub fn manual_draft(&self) -> (draft: ManualRunDraft)
        ensures
            draft@ == self@.create,
    {
        self.create.clone()
    }

    pub fn open_create(&mut self) -> (reaction: Reaction)
        ensures
            (final(self)@, reaction@) == if old(self)@.manual_submit_supported {
                (
                    RunsViewStateView {
                        create_message: CREATE_HINT@,
                        create_dialog: true,
                        ..old(self)@
                    },
                    ReactionView::Nothing,
                )
            } else {
                (
                    old(self)@,
                    ReactionView::Toast("This runwatchd does not advertise submit_run_v2"@),
                )
            },
    {
        if !self.manual_submit_supported {
            return Reaction::Toast("This runwatchd does not advertise submit_run_v2");
        }
        self.create_message = CREATE_HINT.to_owned();
        self.create_dialog = true;
        Reaction::Nothing
    }

    pub fn choose_runner(&mut self, runner: ManualRunner)
        ensures
            final(self)@ == (RunsViewStateView { create_runner: runner, ..old(self)@ }),
    {
        self.create_runner = runner;
    }

    /// Closes the form, unless its run is being submitted.
    pub fn close_create(&mut self) -> (reaction: Reaction)
        ensures
            (final(self)@, reaction@) == if old(self)@.create_pending {
                (old(self)@, ReactionView::Toast("Submission is in progress"@))
            } else {
                (
                    RunsViewStateView { create_dialog: false, ..old(self)@ },
                    ReactionView::Nothing,
                )
            },
    {
        if self.create_pending {
            return Reaction::Toast("Submission is in progress");
        }
        self.create_dialog = false;
        Reaction::Nothing
    }

    /// Submits the run that the form stands for: `nonce` counts the drafts of
    /// the process `pid`.
    pub fn submit_create(&mut self, now: Timestamp, nonce: u32, pid: u32) -> (reaction: Reaction)
        requires
            now.dated(),
        ensures
            (final(self)@, reaction@) == old(self)@.creating(
                drafts::drafted(
                    old(self)@.create,
                    old(self)@.create_runner,
                    now,
                    nonce ^ pid ^ (now.fraction() as u32),
                ),
            ),
    {
        if self.create_pending {
            return Reaction::Toast("Submission is already in progress");
        }
        match self.manual_draft().build_spec(self.create_runner, now, nonce, pid) {
            Ok(spec) => {
                let mut message = "Submitting ".to_owned();
                message.append(spec.run_id.as_str());
                message.append("...");
                self.create_pending = true;
                self.create_message = message;
                Reaction::Send(Command::SubmitManual(spec))
            },
            Err(reason) => {
                let mut message = "Check the form: ".to_owned();
                message.append(reason.as_str());
                self.create_message = message;
                Reaction::Nothing
            },
        }
    }

    /// Nobody was there to take the run.
    pub fn create_unsent(&mut self)
        ensures
            final(self)@ == old(self)@.not_created("GUI controller is unavailable"@),
    {
        self.manual_submit_failed("GUI controller is unavailable");
    }

    pub fn manual_submit_succeeded(&mut self)
        ensures
            final(self)@ == old(self)@.created(),
    {
        self.create_pending = false;
        self.create_dialog = false;
        self.create_message = String::new();
        self.create = ManualRunDraft::default();
    }

    pub fn manual_submit_failed(&mut self, error: &str)
        ensures
            final(self)@ == old(self)@.not_created(error@),
    {
        self.create_pending = false;
        let mut message = "Submission failed: ".to_owned();
        message.append(error);
        self.create_message = message;
    }
}

// ---------------------------------------------------------------------------
// Laws
// ---------------------------------------------------------------------------

/// Whatever was asked before, or about another run, changes nothing when its
/// answer comes late.
pub proof fn stale_detail_is_ignored(
    page: RunsViewStateView,
    request_id: u64,
    detail: RunDetailViewView,
)
    ensures
        request_id != page.detail_request ==> page.with_detail(request_id, detail) == page,
        detail.run_id != page.selected_id ==> page.with_detail(request_id, detail) == page,
        request_id == page.detail_request && detail.run_id == page.selected_id ==> {
            &&& page.with_detail(request_id, detail).detail_title == detail.title
            &&& page.with_detail(request_id, detail).logs == detail.logs
        },
{
}

/// A new question makes the answers to all earlier ones stale. The questions
/// are numbered; one asked after the last number is not told from that one.
pub proof fn new_question_makes_earlier_ones_stale(
    page: RunsViewStateView,
    run_id: Seq<char>,
    attempt_no: Option<u32>,
    earlier: u64,
    detail: RunDetailViewView,
)
    requires
        earlier <= page.detail_request < u64::MAX,
    ensures
        page.asking(run_id, attempt_no).0.with_detail(earlier, detail) == page.asking(
            run_id,
            attempt_no,
        ).0,
{
}

/// A retry that failed, or whose answer was lost, is sent again under the same
/// request; only success or leaving the review ends the request.
pub proof fn failed_retry_keeps_its_request(page: RunsViewStateView, error: Seq<char>)
    ensures
        page.not_retried(error).retry == page.retry,
        page.not_retried(error).retry_dialog == page.retry_dialog,
        !page.not_retried(error).retry_pending,
        page.retrying().1 matches ReactionView::Send(command) ==> page.retrying().0.not_retried(
            error,
        ).retrying().1 == ReactionView::Send(command),
        page.retried().retry.request_id.len() == 0,
        !page.retried().retry_dialog,
        !page.retried().retry_pending,
        !page.retried().retry_available,
{
}

/// While the review is open, no answer changes what is tried again.
pub proof fn open_review_keeps_its_draft(
    page: RunsViewStateView,
    request_id: u64,
    detail: RunDetailViewView,
)
    requires
        page.retry_dialog,
    ensures
        page.with_detail(request_id, detail).retry == page.retry,
        page.with_detail(request_id, detail).retry_runner == page.retry_runner,
        page.with_detail(request_id, detail).retry_identity == page.retry_identity,
{
}

/// While a request is under way, no second one is sent.
pub proof fn pending_request_is_not_sent_twice(
    page: RunsViewStateView,
    drafted: Result<SubmitRunSpecView, Seq<char>>,
)
    ensures
        page.retrying().1 is Send ==> page.retrying().0.retrying() == (
            page.retrying().0,
            ReactionView::Toast("Retry submission is already in progress"@),
        ),
        page.creating(drafted).1 is Send ==> page.creating(drafted).0.creating(drafted) == (
            page.creating(drafted).0,
            ReactionView::Toast("Submission is already in progress"@),
        ),
{
}

/// A failed submission leaves the form as the user filled it in.
pub proof fn failed_submission_keeps_the_form(page: RunsViewStateView, error: Seq<char>)
    ensures
        page.not_created(error).create == page.create,
        page.not_created(error).create_dialog == page.create_dialog,
        !page.not_created(error).create_pending,
        page.created().create == empty_draft(),
{
}

/// The list has a line for every run that it shows, and each line opens its own
/// run.
pub proof fn line_opens_its_run(page: RunsViewStateView, row: int)
    requires
        0 <= row < page.visible().len(),
    ensures
        page.relisted().table_ids.len() == page.relisted().table_rows.len(),
        page.relisted().table_ids.len() == page.visible().len(),
        page.relisted().opening(row).0.selected_id == page.visible()[row].run_id,
        page.relisted().table_rows[row] == model::cells_of(page.visible()[row]),
{
}

} // verus!
