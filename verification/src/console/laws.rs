//! What the console shows of runs, stated on the runs themselves.
use crate::console::drafts;
use crate::console::drafts::{ManualRunDraftView, ManualRunner, RetryDraftView};
use crate::console::model;
use crate::console::model::{DetailParts, RunFilter, RunRowView, RunSort};
use crate::console::notifications;
use crate::console::notifications::{NoticeKind, NoticeView, PreviousRowView};
use crate::console::settings;
use crate::console::settings::{Choice, GuiSettings, GuiSettingsStateView, SettingsFile};
use crate::seqs;
use crate::text;
use crate::time::Timestamp;
use crate::types::{
    ObservationHealth, ObservationRecordView, ObservationSource, RunAttemptRecordView,
    RunContinuationStatusView, RunRecordView, RunResourcesView, RunStatus, RunnerKind,
};
use vstd::prelude::*;

verus! {

// ---------------------------------------------------------------------------
// Words
// ---------------------------------------------------------------------------

/// The word for a status is its name in small letters.
#[verifier::spinoff_prover]
#[verifier::rlimit(40)]
pub proof fn status_word_is_the_name(status: RunStatus)
    ensures
        model::status_word(status) == text::ascii_lower(status.name()),
{
    reveal_strlit("submitting");
    reveal_strlit("Submitting");
    reveal_strlit("queued");
    reveal_strlit("Queued");
    reveal_strlit("running");
    reveal_strlit("Running");
    reveal_strlit("succeeded");
    reveal_strlit("Succeeded");
    reveal_strlit("failed");
    reveal_strlit("Failed");
    reveal_strlit("cancelled");
    reveal_strlit("Cancelled");
    reveal_strlit("unknown");
    reveal_strlit("Unknown");
    assert(model::status_word(status) =~= text::ascii_lower(status.name()));
}

/// The names of the statuses are what they stand for.
#[verifier::rlimit(40)]
pub proof fn statuses_have_names(status: RunStatus)
    ensures
        status.name() == "Submitting"@ <==> status == RunStatus::Submitting,
        status.name() == "Queued"@ <==> status == RunStatus::Queued,
        status.name() == "Running"@ <==> status == RunStatus::Running,
        status.name() == "Succeeded"@ <==> status == RunStatus::Succeeded,
        status.name() == "Failed"@ <==> status == RunStatus::Failed,
        status.name() == "Cancelled"@ <==> status == RunStatus::Cancelled,
        status.name() == "Unknown"@ <==> status == RunStatus::Unknown,
        status.terminal() <==> status == RunStatus::Succeeded || status == RunStatus::Failed
            || status == RunStatus::Cancelled,
{
    reveal_strlit("Submitting");
    reveal_strlit("Queued");
    reveal_strlit("Running");
    reveal_strlit("Succeeded");
    reveal_strlit("Failed");
    reveal_strlit("Cancelled");
    reveal_strlit("Unknown");
    assert("Submitting"@.len() == 10);
    assert("Queued"@.len() == 6 && "Queued"@[0] == 'Q');
    assert("Failed"@.len() == 6 && "Failed"@[0] == 'F');
    assert("Running"@.len() == 7 && "Running"@[0] == 'R');
    assert("Unknown"@.len() == 7 && "Unknown"@[0] == 'U');
    assert("Succeeded"@.len() == 9 && "Succeeded"@[0] == 'S');
    assert("Cancelled"@.len() == 9 && "Cancelled"@[0] == 'C');
}

/// Each health and each source has a word of its own.
#[verifier::rlimit(40)]
pub proof fn sightings_have_words(
    health: ObservationHealth,
    source: ObservationSource,
    runner: RunnerKind,
)
    ensures
        model::health_word(health) == "fresh"@ <==> health == ObservationHealth::Fresh,
        model::health_word(health) == "probe error"@ <==> health == ObservationHealth::ProbeError,
        model::health_word(health) == "unreachable"@ <==> health == ObservationHealth::Unreachable,
        model::source_word(source) == "local process"@ <==> source
            == ObservationSource::LocalProcess,
        model::source_word(source) == "sentinel"@ <==> source == ObservationSource::Sentinel,
        model::source_word(source) == "scheduler"@ <==> source == ObservationSource::Scheduler,
        model::source_word(source) == "compatibility"@ <==> source
            == ObservationSource::Compatibility,
        model::source_word(source) == "transport"@ <==> source == ObservationSource::Transport,
        runner == RunnerKind::Slurm ==> model::runner_word(runner) == "Slurm"@,
        runner == RunnerKind::Lsf ==> model::runner_word(runner) == "LSF"@,
        runner == RunnerKind::Process ==> model::runner_word(runner) == "Process"@,
        runner == RunnerKind::File ==> model::runner_word(runner) == "File"@,
        runner == RunnerKind::Powershell ==> model::runner_word(runner) == "PowerShell"@,
{
    reveal_strlit("fresh");
    reveal_strlit("probe error");
    reveal_strlit("unreachable");
    reveal_strlit("local process");
    reveal_strlit("sentinel");
    reveal_strlit("scheduler");
    reveal_strlit("compatibility");
    reveal_strlit("transport");
    assert("fresh"@.len() == 5);
    assert("probe error"@.len() == 11 && "probe error"@[0] == 'p');
    assert("unreachable"@.len() == 11 && "unreachable"@[0] == 'u');
    assert("local process"@.len() == 13 && "local process"@[0] == 'l');
    assert("sentinel"@.len() == 8);
    assert("scheduler"@.len() == 9 && "scheduler"@[0] == 's');
    assert("compatibility"@.len() == 13 && "compatibility"@[0] == 'c');
    assert("transport"@.len() == 9 && "transport"@[0] == 't');
}

/// An age is the whole seconds that have passed, and is told in the largest unit
/// of which one has passed.
pub proof fn age_is_told(at: Timestamp, now: Timestamp, seconds: nat)
    ensures
        now.nanos <= at.nanos ==> model::age_of(at, now) == 0,
        now.nanos > at.nanos && (now.nanos - at.nanos) / 1_000_000_000 <= 9_223_372_036_854_775_807
            ==> model::age_of(at, now) == (now.nanos - at.nanos) / 1_000_000_000,
        seconds < 60 ==> model::age_text(seconds) == text::decimal(seconds) + "s"@,
        60 <= seconds < 3600 ==> model::age_text(seconds) == text::decimal(seconds / 60) + "m"@,
        3600 <= seconds < 86_400 ==> model::age_text(seconds) == text::decimal(seconds / 3600)
            + "h"@,
        86_400 <= seconds ==> model::age_text(seconds) == text::decimal(seconds / 86_400) + "d"@,
{
}

/// A long name is shown by its two ends, a short one as it is.
pub proof fn long_name_is_shown_by_its_ends(value: Seq<char>)
    ensures
        value.len() <= 18 ==> model::shortened(value) == value,
        value.len() > 18 ==> model::shortened(value).len() == 17 && model::shortened(value).take(8)
            == value.take(8) && model::shortened(value).skip(11) == value.skip(value.len() - 6),
{
    reveal_strlit("...");
    if value.len() > 18 {
        let short = model::shortened(value);
        assert(short.take(8) =~= value.take(8));
        assert(short.skip(11) =~= value.skip(value.len() - 6));
    }
}

// ---------------------------------------------------------------------------
// Rows
// ---------------------------------------------------------------------------

/// A run calls for attention where it failed, where its notices need a new
/// binding or are tried again, where it could not be read or reached, where it has
/// not ended and was not seen for two minutes, or where it was told to stop and
/// has not ended; and nowhere else.
pub proof fn attention_has_a_reason(
    run: RunRecordView,
    observation: Option<ObservationRecordView>,
    continuation: Option<RunContinuationStatusView>,
    now: Timestamp,
)
    ensures
        ({
            let live = run.status != RunStatus::Succeeded && run.status != RunStatus::Failed
                && run.status != RunStatus::Cancelled;
            let reason = model::attention_of(run, observation, continuation, now);
            &&& reason is Some <==> ({
                ||| run.status == RunStatus::Failed
                ||| continuation is Some && continuation->0.needs_rebind > 0
                ||| continuation is Some && continuation->0.retrying > 0
                ||| observation is Some && observation->0.health != ObservationHealth::Fresh
                ||| live && observation is Some && model::age_of(observation->0.observed_at, now)
                    > 120
                ||| live && run.note is Some && text::has_part(
                    text::ascii_lower(run.note->0),
                    "cancel requested"@,
                )
            })
            &&& run.status == RunStatus::Failed ==> reason == Some("Run failed"@)
            &&& run.status != RunStatus::Failed && continuation is Some
                && continuation->0.needs_rebind > 0 ==> reason == Some(
                "Continuation needs explicit rebind"@,
            )
        }),
{
}

/// A row shows its run: its name, status, runner, host and job, whether it has
/// ended, and how long ago it changed.
pub proof fn row_shows_its_run(
    run: RunRecordView,
    observation: Option<ObservationRecordView>,
    continuation: Option<RunContinuationStatusView>,
    now: Timestamp,
)
    ensures
        ({
            let row = model::row_of(run, observation, continuation, now);
            &&& row.run_id == run.run_id
            &&& row.status == run.status
            &&& row.runner == run.runner
            &&& row.host == run.host
            &&& run.job_id is Some ==> row.handle == run.job_id->0
            &&& run.job_id is None ==> row.handle == "-"@
            &&& run.name is Some && text::trimmed(run.name->0).len() > 0 ==> row.name
                == run.name->0
            &&& run.name is None ==> row.name == model::shortened(run.run_id)
            &&& row.active <==> run.status != RunStatus::Succeeded && run.status
                != RunStatus::Failed && run.status != RunStatus::Cancelled
            &&& row.updated_at == run.updated_at
            &&& row.updated == model::age_text(model::age_of(run.updated_at, now))
            &&& run.workspace is Some ==> row.workspace == run.workspace->0.cwd
            &&& row.attention <==> row.attention_reason is Some
        }),
{
}

/// A line of the table shows the row, each part in its column.
pub proof fn table_shows_the_row(row: RunRowView)
    ensures
        ({
            let cells = model::cells_of(row);
            &&& cells.len() == 8
            &&& row.attention ==> cells[0] == "! "@ + model::status_word(row.status)
            &&& !row.attention ==> cells[0] == model::status_word(row.status)
            &&& cells[1] == row.name
            &&& cells[2] == model::runner_word(row.runner)
            &&& cells[3] == row.host
            &&& cells[4] == row.handle
            &&& cells[5] == row.observation
            &&& cells[6] == row.continuation
            &&& cells[7] == row.updated
        }),
{
}

/// What is told of the notices of a run is the most urgent that there is to tell.
pub proof fn most_urgent_is_told(status: RunContinuationStatusView)
    ensures
        ({
            let word = model::continuation_word(Some(status));
            &&& status.needs_rebind > 0 ==> word == "needs rebind"@ + " ("@ + text::decimal(
                status.needs_rebind as nat,
            ) + ")"@
            &&& status.needs_rebind == 0 && status.retrying > 0 ==> word == "retrying"@ + " ("@
                + text::decimal(status.retrying as nat) + ")"@
            &&& status.needs_rebind == 0 && status.retrying == 0 && status.delivering > 0 ==> word
                == "delivering"@ + " ("@ + text::decimal(status.delivering as nat) + ")"@
            &&& status.needs_rebind == 0 && status.retrying == 0 && status.delivering == 0
                && status.pending > 0 ==> word == "pending"@ + " ("@ + text::decimal(
                status.pending as nat,
            ) + ")"@
        }),
        model::continuation_word(None) == "-"@,
{
}

/// What a row says of a sighting: that there is none, how old it is where it is
/// too old, and otherwise its health, its source and its age.
pub proof fn sighting_is_shown(seen: ObservationRecordView, now: Timestamp)
    ensures
        model::observation_word(None, false, now) == "no observation"@,
        ({
            let age = model::age_text(model::age_of(seen.observed_at, now));
            &&& model::observation_word(Some(seen), true, now) == "stale "@ + age + " / "@
                + model::health_word(seen.health)
            &&& model::observation_word(Some(seen), false, now) == model::health_word(seen.health)
                + " / "@ + model::source_word(seen.source) + " / "@ + age
        }),
{
}

/// The sighting that is shown for a run is the latest of the attempt at which the
/// run is; one of another run or attempt does not count.
pub proof fn latest_sighting_is_shown(
    observations: Seq<ObservationRecordView>,
    run: RunRecordView,
    i: int,
)
    requires
        0 <= i < observations.len(),
        run.attempt_no is Some,
        observations[i].run_id == run.run_id,
        observations[i].attempt_no == run.attempt_no->0,
        forall|j: int|
            i < j < observations.len() ==> (#[trigger] observations[j]).run_id != run.run_id
                || observations[j].attempt_no != run.attempt_no->0,
    ensures
        model::observation_in(observations, run) == Some(observations[i]),
{
    lemma_last_wanted(observations, model::sees(run.run_id, run.attempt_no->0), i);
}

proof fn lemma_last_wanted<T>(items: Seq<T>, wanted: spec_fn(T) -> bool, i: int)
    requires
        0 <= i < items.len(),
        wanted(items[i]),
        forall|j: int| i < j < items.len() ==> !wanted(#[trigger] items[j]),
    ensures
        model::last_wanted(items, wanted) == Some(items[i]),
    decreases items.len(),
{
    let rest = items.drop_last();
    if i < rest.len() {
        assert(!wanted(items[items.len() - 1]));
        assert(rest[i] == items[i]);
        assert forall|j: int| i < j < rest.len() implies !wanted(#[trigger] rest[j]) by {
            assert(rest[j] == items[j]);
        }
        lemma_last_wanted(rest, wanted, i);
    }
}

// ---------------------------------------------------------------------------
// Lists
// ---------------------------------------------------------------------------

/// On the dashboard the runs that call for attention come first, then those that
/// have not ended, and among equals the latest.
pub proof fn urgent_runs_come_first(
    runs: Seq<RunRecordView>,
    observations: Seq<ObservationRecordView>,
    continuations: Seq<RunContinuationStatusView>,
    now: Timestamp,
    i: int,
    j: int,
)
    requires
        0 <= i < j < model::dashboard_rows(runs, observations, continuations, now).len(),
    ensures
        ({
            let rows = model::dashboard_rows(runs, observations, continuations, now);
            &&& rows[j].attention ==> rows[i].attention
            &&& rows[i].attention == rows[j].attention && rows[j].active ==> rows[i].active
            &&& rows[i].attention == rows[j].attention && rows[i].active == rows[j].active
                ==> rows[i].updated_at.nanos >= rows[j].updated_at.nanos
        }),
{
    let made = runs.map_values(model::projected(observations, continuations, now));
    model::sorting_orders_rows(made);
    seqs::sort_is_ordered(made, model::priority_order());
    let rows = model::dashboard_rows(runs, observations, continuations, now);
    assert(!model::priority_order()(rows[j], rows[i]));
}

/// The list is in the order that was chosen: by the time of the last change, the
/// latest first; by name; or by host.
pub proof fn list_is_in_the_chosen_order(rows: Seq<RunRowView>, i: int, j: int)
    ensures
        model::sorted_rows(rows, RunSort::Priority) == rows,
        0 <= i < j < model::sorted_rows(rows, RunSort::Newest).len() ==> model::sorted_rows(
            rows,
            RunSort::Newest,
        )[i].updated_at.nanos >= model::sorted_rows(rows, RunSort::Newest)[j].updated_at.nanos,
        0 <= i < j < model::sorted_rows(rows, RunSort::Name).len() ==> !text::precedes(
            text::ascii_lower(model::sorted_rows(rows, RunSort::Name)[j].name),
            text::ascii_lower(model::sorted_rows(rows, RunSort::Name)[i].name),
        ),
        0 <= i < j < model::sorted_rows(rows, RunSort::Host).len() ==> !text::precedes(
            text::ascii_lower(model::sorted_rows(rows, RunSort::Host)[j].host),
            text::ascii_lower(model::sorted_rows(rows, RunSort::Host)[i].host),
        ),
{
    model::sorting_orders_rows(rows);
    text::precedes_is_an_order();
    let newest = model::sorted_rows(rows, RunSort::Newest);
    let named = model::sorted_rows(rows, RunSort::Name);
    let hosted = model::sorted_rows(rows, RunSort::Host);
    if 0 <= i < j < newest.len() {
        assert(!model::newest_order()(newest[j], newest[i]));
    }
    if 0 <= i < j < named.len() {
        assert(!model::run_name_order()(named[j], named[i]));
    }
    if 0 <= i < j < hosted.len() {
        assert(!model::host_order()(hosted[j], hosted[i]));
    }
}

/// A run is shown where it passes the filter and holds what is searched for: in
/// its name, its handle, its host, its job or its directory.
pub proof fn filter_shows_what_it_says(row: RunRowView, filter: RunFilter, query: Seq<char>)
    ensures
        model::passes(row, RunFilter::Active) <==> row.active,
        model::passes(row, RunFilter::Attention) <==> row.attention,
        model::passes(row, RunFilter::All),
        query.len() == 0 ==> (model::is_shown(filter, query)(row) <==> model::passes(row, filter)),
        model::is_shown(filter, query)(row) <==> model::passes(row, filter) && (query.len() == 0
            || text::has_part(
            model::lowercase_text(
                row.name + "\n"@ + row.run_id + "\n"@ + row.host + "\n"@ + row.handle + "\n"@
                    + row.workspace,
            ),
            query,
        )),
{
}

/// A host is shown with the number of runs on it that have not ended.
pub proof fn hosts_show_their_live_runs(
    host: model::HostCardViewView,
    rows: Seq<RunRowView>,
    live_runs: nat,
)
    requires
        rows.len() <= usize::MAX,
    ensures
        model::used_host(host, rows).alias == host.alias,
        model::used_host(host, rows).endpoint == host.endpoint,
        model::used_host(host, rows).route == host.route,
        model::used_host(host, rows).live_runs == rows.filter(
            |row: RunRowView| row.active && row.host == host.alias,
        ).len(),
        live_runs == 1 ==> model::usage_word(live_runs) == "1 live Run"@,
        live_runs > 1 ==> model::usage_word(live_runs) == text::decimal(live_runs) + " live Runs"@,
{
    let wanted = |row: RunRowView| row.active && row.host == host.alias;
    assert(model::live_on(host.alias) =~= wanted);
    lemma_filter_bound(rows, wanted);
}

proof fn lemma_filter_bound(rows: Seq<RunRowView>, wanted: spec_fn(RunRowView) -> bool)
    ensures
        rows.filter(wanted).len() <= rows.len(),
    decreases rows.len(),
{
    reveal(Seq::filter);
    if rows.len() > 0 {
        lemma_filter_bound(rows.drop_last(), wanted);
    }
}

/// What the dashboard counts are the rows of which it says so.
pub proof fn dashboard_counts_what_it_says(row: RunRowView, now: Timestamp)
    ensures
        model::is_active()(row) <==> row.active,
        model::needs_attention()(row) <==> row.attention,
        model::ended_lately(now)(row) <==> !row.active && model::age_of(row.updated_at, now)
            <= 86_400,
{
}

// ---------------------------------------------------------------------------
// Details
// ---------------------------------------------------------------------------

/// A run can be tried again where it has failed or was cancelled, the attempt at
/// which it is is selected and has ended so too, and no agent is bound to it; what
/// is offered is that attempt.
pub proof fn retry_is_offered_for_the_attempt(
    run: RunRecordView,
    attempt: Option<RunAttemptRecordView>,
    selected: Option<u32>,
    continuation: RunContinuationStatusView,
    continuation_error: Option<Seq<char>>,
)
    ensures
        ({
            let offer = model::retry_of(run, attempt, selected, continuation, continuation_error);
            &&& offer is Some <==> ({
                &&& selected is Some && selected == run.attempt_no
                &&& continuation_error is None && !continuation.configured
                &&& run.status == RunStatus::Failed || run.status == RunStatus::Cancelled
                &&& attempt is Some
                &&& attempt->0.status == RunStatus::Failed || attempt->0.status
                    == RunStatus::Cancelled
            })
            &&& offer is Some ==> offer->0.run_id == run.run_id && offer->0.expected_attempt_no
                == attempt->0.attempt_no && offer->0.runner == attempt->0.runner && offer->0.host
                == attempt->0.host && offer->0.workdir == attempt->0.workdir && offer->0.command
                == attempt->0.command && offer->0.resources == attempt->0.resources
        }),
{
}

/// The details are those of the run: its logs and files as they came, its
/// attempts in their order, and that it can be stopped while it has not ended and
/// the attempt at which it is is selected.
pub proof fn details_are_those_of_the_run(parts: DetailParts, i: int)
    ensures
        ({
            let run = parts.run@;
            let detail = model::detail_of(parts);
            &&& detail.run_id == run.run_id
            &&& detail.logs == parts.logs@
            &&& detail.artifacts == parts.artifacts@
            &&& detail.selected_attempt_no == parts.selected_attempt_no
            &&& detail.attempt_numbers.len() == parts.attempts@.len()
            &&& 0 <= i < parts.attempts@.len() ==> detail.attempt_numbers[i]
                == parts.attempts@[i].attempt_no
            &&& detail.can_cancel <==> parts.selected_attempt_no == run.attempt_no && run.status
                != RunStatus::Succeeded && run.status != RunStatus::Failed && run.status
                != RunStatus::Cancelled
        }),
{
}

// ---------------------------------------------------------------------------
// Notifications
// ---------------------------------------------------------------------------

/// A run that ends is told: a success as a success, every other end as a call for
/// attention. A run that newly calls for attention is told with its reason, and
/// nothing else is told.
pub proof fn change_is_told_as_it_is(previous: PreviousRowView, row: RunRowView)
    ensures
        ({
            let notice = notifications::change_of(previous, row);
            let ended = !previous.status.terminal() && row.status.terminal();
            let called = !previous.attention && row.attention;
            &&& notice is Some <==> ended || called
            &&& notice is Some ==> notice->0.title == row.name
            &&& ended && row.status == RunStatus::Succeeded ==> notice->0.kind
                == NoticeKind::Success
            &&& ended && row.status != RunStatus::Succeeded ==> notice->0.kind
                == NoticeKind::Attention
            &&& ended ==> notice->0.body == model::status_word(previous.status) + " -> "@
                + model::status_word(row.status)
            &&& !ended && called ==> notice->0.kind == NoticeKind::Attention
            &&& !ended && called && row.attention_reason is Some ==> notice->0.body
                == row.attention_reason->0
        }),
{
}

/// The desktop is told only what was chosen to be told: nothing where it is
/// switched off, one change by itself, and several together with how many of them
/// there are.
pub proof fn desktop_is_told_what_was_chosen(notices: Seq<NoticeView>, settings: GuiSettings)
    ensures
        ({
            let chosen = |notice: NoticeView|
                (notice.kind == NoticeKind::Success && settings.notify_success) || (notice.kind
                    == NoticeKind::Attention && settings.notify_attention);
            let told = notices.filter(chosen);
            let calls = told.filter(|notice: NoticeView| notice.kind == NoticeKind::Attention).len();
            let native = notifications::coalesced(notices, settings);
            &&& native is None <==> !settings.native_notifications || told.len() == 0
            &&& native is Some && told.len() == 1 ==> native->0.kind == told[0].kind
            &&& native is Some && told.len() > 1 ==> (native->0.kind == NoticeKind::Attention
                <==> calls > 0)
            &&& native is Some && told.len() > 1 && calls == 0 ==> native->0.body == text::decimal(
                told.len(),
            ) + " runs completed"@
            &&& native is Some && told.len() > 1 && calls == told.len() ==> native->0.body
                == text::decimal(calls) + " runs need attention"@
            &&& native is Some && told.len() > 1 && 0 < calls < told.len() ==> native->0.body
                == text::decimal(calls) + " need attention · "@ + text::decimal(
                (told.len() - calls) as nat,
            ) + " completed"@
        }),
{
    let chosen = |notice: NoticeView|
        (notice.kind == NoticeKind::Success && settings.notify_success) || (notice.kind
            == NoticeKind::Attention && settings.notify_attention);
    assert(notifications::wanted(settings) =~= chosen);
    assert(notifications::calls_attention() =~= (|notice: NoticeView|
        notice.kind == NoticeKind::Attention));
    lemma_notice_bound(
        notices.filter(chosen),
        |notice: NoticeView| notice.kind == NoticeKind::Attention,
    );
}

proof fn lemma_notice_bound(notices: Seq<NoticeView>, wanted: spec_fn(NoticeView) -> bool)
    ensures
        notices.filter(wanted).len() <= notices.len(),
    decreases notices.len(),
{
    reveal(Seq::filter);
    if notices.len() > 0 {
        lemma_notice_bound(notices.drop_last(), wanted);
    }
}

// ---------------------------------------------------------------------------
// Forms
// ---------------------------------------------------------------------------

/// A form becomes the run that it describes: with its command, directory and
/// host, without white around them, for the runner that was chosen and without an
/// agent. A run on this machine asks for no resources.
pub proof fn form_becomes_its_run(
    draft: ManualRunDraftView,
    runner: ManualRunner,
    now: Timestamp,
    salt: u32,
)
    ensures
        drafts::drafted(draft, runner, now, salt) matches Ok(spec) ==> ({
            &&& spec.command == text::trimmed(draft.command) && spec.command.len() > 0
            &&& spec.workspace.cwd == text::trimmed(draft.cwd) && spec.workspace.cwd.len() > 0
            &&& spec.continuation is None
            &&& runner == ManualRunner::Process ==> spec.runner == RunnerKind::Process
                && spec.workspace.host_alias == "local"@ && spec.resources
                == crate::types::RunResources::none_view()
            &&& runner == ManualRunner::Slurm ==> spec.runner == RunnerKind::Slurm
            &&& runner == ManualRunner::Lsf ==> spec.runner == RunnerKind::Lsf
            &&& runner != ManualRunner::Process ==> spec.workspace.host_alias == text::trimmed(
                draft.host_alias,
            ) && spec.workspace.host_alias.len() > 0 && drafts::resources_in(
                spec.runner,
                draft.time,
                draft.pool,
                draft.account,
                draft.cpus,
                draft.mem,
                draft.gpus,
            ) == Ok::<RunResourcesView, Seq<char>>(spec.resources)
            &&& text::trimmed(draft.name).len() > 0 ==> spec.name == Some(text::trimmed(draft.name))
            &&& text::has_prefix(spec.run_id, "manual-"@)
        }),
        text::trimmed(draft.command).len() == 0 || text::trimmed(draft.cwd).len() == 0
            ==> drafts::drafted(draft, runner, now, salt) is Err,
{
    if let Ok(spec) = drafts::drafted(draft, runner, now, salt) {
        let rest = drafts::stem_of(spec.name->0) + "-"@ + drafts::mark_of(now, salt);
        assert(spec.run_id =~= "manual-"@ + rest);
        text::lemma_without_prefix("manual-"@, rest);
    }
}

/// Each field of a form goes to the resource that it is for: the pool is the
/// partition of Slurm and the queue of LSF, a number is a number, and what was
/// left empty is not asked for.
pub proof fn fields_go_to_their_resources(
    runner: RunnerKind,
    time: Seq<char>,
    pool: Seq<char>,
    account: Seq<char>,
    cpus: nat,
    mem: Seq<char>,
    gpus: nat,
)
    requires
        0 < cpus <= u32::MAX,
        0 < gpus <= u32::MAX,
    ensures
        drafts::resources_in(
            runner,
            time,
            pool,
            account,
            text::decimal(cpus),
            mem,
            text::decimal(gpus),
        ) matches Ok(resources) && ({
            &&& resources.cpus == Some(cpus as u32)
            &&& resources.gpus == Some(gpus as u32)
            &&& asked_for(resources.time, time)
            &&& asked_for(resources.account, account)
            &&& asked_for(resources.mem, mem)
            &&& runner == RunnerKind::Slurm ==> asked_for(resources.partition, pool)
                && resources.queue is None
            &&& runner == RunnerKind::Lsf ==> asked_for(resources.queue, pool)
                && resources.partition is None
        }),
{
    crate::probe::laws::lemma_decimal_trimmed(cpus);
    crate::probe::laws::lemma_decimal_trimmed(gpus);
    text::decimal_is_read_back(cpus);
    text::decimal_is_read_back(gpus);
    text::lemma_decimal_digits(cpus);
    text::lemma_decimal_digits(gpus);
}

/// Whether a resource is what a field says, without white around it, and not
/// asked for where the field is empty.
pub open spec fn asked_for(resource: Option<Seq<char>>, field: Seq<char>) -> bool {
    if text::trimmed(field).len() == 0 {
        resource is None
    } else {
        resource == Some(text::trimmed(field))
    }
}

/// A count that is no number, or none, is refused; an empty one is not asked for.
pub proof fn counts_are_numbers(label: Seq<char>, value: Seq<char>)
    ensures
        text::trimmed(value).len() == 0 ==> drafts::count_in(label, value) == Ok::<
            Option<u32>,
            Seq<char>,
        >(None),
        drafts::count_in(label, value) matches Ok(Some(count)) ==> count > 0 && text::parse_up_to(
            text::trimmed(value),
            u32::MAX as nat,
        ) == Some(count as nat),
        text::trimmed(value).len() > 0 && text::parse_up_to(text::trimmed(value), u32::MAX as nat)
            is None ==> drafts::count_in(label, value) is Err,
        text::trimmed(value).len() > 0 && text::parse_up_to(text::trimmed(value), u32::MAX as nat)
            == Some(0nat) ==> drafts::count_in(label, value) is Err,
{
}

/// A review becomes the retry of the attempt that was reviewed, under the name
/// that the review was given. A process asks for no resources, a job for those in
/// the form.
pub proof fn review_becomes_its_retry(draft: RetryDraftView, runner: RunnerKind)
    ensures
        drafts::retry_drafted(draft, runner) matches Ok(spec) ==> ({
            &&& spec.run_id == draft.run_id && text::trimmed(spec.run_id).len() > 0
            &&& spec.expected_attempt_no == draft.expected_attempt_no && spec.expected_attempt_no
                > 0
            &&& spec.request_id == draft.request_id && text::trimmed(spec.request_id).len() > 0
            &&& runner == RunnerKind::Process ==> spec.resources is None
            &&& runner == RunnerKind::Slurm || runner == RunnerKind::Lsf ==> spec.resources is Some
                && drafts::resources_in(
                runner,
                draft.time,
                draft.pool,
                draft.account,
                draft.cpus,
                draft.mem,
                draft.gpus,
            ) == Ok::<RunResourcesView, Seq<char>>(spec.resources->0)
            &&& runner == RunnerKind::Process || runner == RunnerKind::Slurm || runner
                == RunnerKind::Lsf
        }),
{
}

// ---------------------------------------------------------------------------
// Settings
// ---------------------------------------------------------------------------

/// Settings that were read are used as they are where they are of the current
/// form; otherwise the usual ones are used, which tell everything and leave the
/// desktop alone, and where something went wrong there is a warning.
pub proof fn settings_are_used_or_usual(file: SettingsFile)
    ensures
        ({
            let used = settings::loaded(file);
            let usual = GuiSettings {
                version: 1,
                native_notifications: false,
                notify_success: true,
                notify_attention: true,
                include_run_name: true,
            };
            &&& file matches SettingsFile::Read { path, settings } ==> (if settings.version == 1 {
                used.settings == settings && used.warning is None
            } else {
                used.settings == usual && used.warning is Some
            })
            &&& file is Missing ==> used.settings == usual && used.warning is None
            &&& file is NoPath || file is Unreadable || file is Malformed ==> used.settings == usual
                && used.warning is Some
        }),
{
}

/// A choice changes the one setting that it is for, and a second time changes it
/// back.
pub proof fn choice_changes_its_setting(state: GuiSettingsStateView, choice: Choice)
    ensures
        ({
            let after = state.with_choice(choice);
            &&& after.with_choice(choice) == state
            &&& after.native_notifications != state.native_notifications
                <==> choice is NativeNotifications
            &&& after.notify_success != state.notify_success <==> choice is Success
            &&& after.notify_attention != state.notify_attention <==> choice is Attention
            &&& after.include_run_name != state.include_run_name <==> choice is RunName
            &&& after.warning == state.warning
        }),
{
}

/// What is saved are the settings that are shown.
pub proof fn shown_settings_are_saved(state: GuiSettingsStateView)
    ensures
        state.chosen().version == 1,
        state.chosen().native_notifications == state.native_notifications,
        state.chosen().notify_success == state.notify_success,
        state.chosen().notify_attention == state.notify_attention,
        state.chosen().include_run_name == state.include_run_name,
{
}

/// An attempt is shown under its number, with its place among the attempts of the
/// run, and as the current one exactly where it is.
pub proof fn shown_attempt_is_named(number: u32, numbers: Seq<u32>, current: Option<u32>)
    ensures
        text::has_prefix(
            model::selection_text(Some(number), numbers, current),
            "Attempt "@ + text::decimal(number as nat) + " · "@,
        ),
        current == Some(number) ==> " · current"@.is_suffix_of(
            model::selection_text(Some(number), numbers, current),
        ),
        current != Some(number) ==> " · historical"@.is_suffix_of(
            model::selection_text(Some(number), numbers, current),
        ),
        model::selection_text(None, numbers, current) == "No Attempt"@,
{
    let shown = model::selection_text(Some(number), numbers, current);
    let head = "Attempt "@ + text::decimal(number as nat) + " · "@;
    assert(shown.take(head.len() as int) =~= head);
    reveal_strlit(" · ");
    reveal_strlit("current");
    reveal_strlit("historical");
    reveal_strlit(" · current");
    reveal_strlit(" · historical");
    let tail = if current == Some(number) {
        " · current"@
    } else {
        " · historical"@
    };
    assert(shown.subrange(shown.len() - tail.len(), shown.len() as int) =~= tail);
}

} // verus!
