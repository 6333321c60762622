//! What the pages of the console do, stated on what they show and send.
use crate::console::controller;
use crate::console::controller::{ArtifactLineView, CommandView, DetailAnswers, ReactionView};
use crate::console::desk::{DeskView, UiEvent};
use crate::console::drafts;
use crate::console::hosts;
use crate::console::hosts::HostsViewStateView;
use crate::console::model;
use crate::console::model::{
    DashboardSnapshotView, DetailParts, HostCardViewView, RetryContextViewView, RunDetailViewView,
};
use crate::console::notifications::NoticeKind;
use crate::console::runs;
use crate::console::runs::RunsViewStateView;
use crate::seqs;
use crate::text;
use crate::types::{RunnerKind, SubmitRunSpecView};
use vstd::prelude::*;

verus! {

// ---------------------------------------------------------------------------
// The list of runs
// ---------------------------------------------------------------------------

/// The table and the names behind it belong together: each line is the row of the
/// run that is opened with it, and the rows are those that pass the filter and
/// the search, in the order that was chosen.
pub proof fn lines_and_names_agree(page: RunsViewStateView, i: int)
    ensures
        ({
            let shown = page.relisted();
            let rows = model::sorted_rows(
                page.all_rows.filter(
                    model::is_shown(page.filter, model::lowercase_text(text::trimmed(page.query))),
                ),
                page.sort,
            );
            &&& shown.table_ids.len() == rows.len()
            &&& shown.table_rows.len() == rows.len()
            &&& 0 <= i < rows.len() ==> shown.table_ids[i] == rows[i].run_id
                && shown.table_rows[i] == model::cells_of(rows[i])
            &&& shown.all_rows == page.all_rows
            &&& shown.selected_id == page.selected_id
        }),
{
}

/// A picture of the daemon is what the page shows: its counts, its rows, what it
/// can do, and whether it is paused.
pub proof fn picture_is_shown(page: RunsViewStateView, snapshot: DashboardSnapshotView)
    ensures
        ({
            let shown = page.with_snapshot(snapshot);
            &&& shown.all_rows == snapshot.rows
            &&& shown.active == text::decimal(snapshot.active as nat)
            &&& shown.attention == text::decimal(snapshot.attention as nat)
            &&& shown.recent_terminal == text::decimal(snapshot.recent_terminal as nat)
            &&& shown.total == text::decimal(snapshot.total as nat)
            &&& shown.manual_submit_supported == snapshot.manual_submit_supported
            &&& shown.retry_supported == snapshot.retry_supported
            &&& snapshot.paused ==> shown.daemon == "runwatchd "@ + snapshot.daemon_version
                + " · pid "@ + text::decimal(snapshot.daemon_pid as nat) + " · "@ + "paused"@
            &&& !snapshot.paused ==> shown.daemon == "runwatchd "@ + snapshot.daemon_version
                + " · pid "@ + text::decimal(snapshot.daemon_pid as nat) + " · "@ + "connected"@
            &&& shown.selected_id == page.selected_id
            &&& shown.filter == page.filter
            &&& shown.sort == page.sort
            &&& shown.query == page.query
        }),
{
}

/// Without the daemon nothing can be submitted or tried again, and what was shown
/// stays.
pub proof fn lost_daemon_takes_the_offers_away(page: RunsViewStateView, error: Seq<char>)
    ensures
        ({
            let shown = page.without_daemon(error);
            &&& !shown.manual_submit_supported
            &&& !shown.retry_supported
            &&& !shown.retry_available
            &&& shown.daemon == "runwatchd unavailable · "@ + error
            &&& shown.all_rows == page.all_rows
            &&& shown.table_rows == page.table_rows
            &&& shown.table_ids == page.table_ids
            &&& shown.selected_id == page.selected_id
        }),
{
}

// ---------------------------------------------------------------------------
// One run
// ---------------------------------------------------------------------------

/// Opening a line asks for the run of that line, at the attempt at which it is,
/// and shows nothing of the run before.
pub proof fn opened_line_asks_for_its_run(page: RunsViewStateView, row: int)
    requires
        0 <= row < page.table_ids.len(),
    ensures
        ({
            let (after, reaction) = page.opening(row);
            &&& after.selected_id == page.table_ids[row]
            &&& !after.can_cancel
            &&& after.attempt_numbers.len() == 0
            &&& reaction matches ReactionView::Send(
                CommandView::LoadDetail { request_id, run_id, attempt_no, tail, event_limit },
            ) && run_id == page.table_ids[row] && attempt_no is None && request_id
                == after.detail_request && tail == page.log_tail && event_limit
                == page.event_limit
        }),
{
}

/// A question has a number of its own, which the page then awaits.
pub proof fn question_has_its_number(
    page: RunsViewStateView,
    asked: Seq<char>,
    number: Option<u32>,
)
    requires
        page.detail_request < u64::MAX,
    ensures
        ({
            let (after, reaction) = page.asking(asked, number);
            &&& after.detail_request == page.detail_request + 1
            &&& reaction matches ReactionView::Send(
                CommandView::LoadDetail { request_id, run_id, attempt_no, tail, event_limit },
            ) && request_id == page.detail_request + 1 && run_id == asked && attempt_no == number
                && tail == page.log_tail && event_limit == page.event_limit
        }),
{
}

/// The answer that was awaited is shown as it came, each part in its place.
pub proof fn awaited_answer_is_shown(page: RunsViewStateView, detail: RunDetailViewView)
    requires
        detail.run_id == page.selected_id,
    ensures
        ({
            let shown = page.with_detail(page.detail_request, detail);
            &&& shown.detail_title == detail.title
            &&& shown.attempt_numbers == detail.attempt_numbers
            &&& shown.attempt_label == detail.attempt_label
            &&& shown.overview == detail.overview
            &&& shown.logs == detail.logs
            &&& shown.artifacts == detail.artifacts
            &&& shown.timeline == detail.timeline
            &&& shown.continuation == detail.continuation
            &&& shown.can_cancel == detail.can_cancel
            &&& detail.selected_attempt_no is Some ==> shown.selected_attempt_no
                == detail.selected_attempt_no->0
            &&& detail.selected_attempt_no is None ==> shown.selected_attempt_no == 0
            &&& !page.retry_dialog ==> shown.retry_available == (detail.retry_context is Some)
        }),
{
}

/// What can be tried again is reviewed as it was: the attempt, and in the form
/// its own resources, the pool being the partition of Slurm and the queue of LSF.
pub proof fn review_shows_the_attempt(page: RunsViewStateView, context: RetryContextViewView)
    ensures
        ({
            let shown = page.with_retry(Some(context));
            &&& shown.retry_available
            &&& shown.retry_runner == context.runner
            &&& shown.retry.run_id == context.run_id
            &&& shown.retry.expected_attempt_no == context.expected_attempt_no
            &&& shown.retry.request_id == page.retry.request_id
            &&& in_form(shown.retry.time, context.resources.time)
            &&& in_form(shown.retry.account, context.resources.account)
            &&& in_form(shown.retry.mem, context.resources.mem)
            &&& context.runner == RunnerKind::Slurm ==> in_form(
                shown.retry.pool,
                context.resources.partition,
            )
            &&& context.runner == RunnerKind::Lsf ==> in_form(
                shown.retry.pool,
                context.resources.queue,
            )
            &&& context.resources.cpus is Some ==> shown.retry.cpus == text::decimal(
                context.resources.cpus->0 as nat,
            )
            &&& context.resources.gpus is Some ==> shown.retry.gpus == text::decimal(
                context.resources.gpus->0 as nat,
            )
            &&& context.resources.cpus is None ==> shown.retry.cpus.len() == 0
            &&& context.resources.gpus is None ==> shown.retry.gpus.len() == 0
        }),
        !page.with_retry(None).retry_available,
{
}

/// Whether a field of a form holds a resource, and nothing where there is none.
pub open spec fn in_form(field: Seq<char>, resource: Option<Seq<char>>) -> bool {
    match resource {
        Some(value) => field == value,
        None => field.len() == 0,
    }
}

/// Going to the attempt beside the one that is shown asks for that attempt of the
/// same run; at the ends of the list nothing is asked.
pub proof fn neighbour_attempt_is_asked_for(
    page: RunsViewStateView,
    i: int,
    delta: int,
    toast: Seq<char>,
)
    requires
        0 <= i < page.attempt_numbers.len(),
        page.attempt_numbers[i] == page.selected_attempt_no,
        forall|j: int| 0 <= j < i ==> #[trigger] page.attempt_numbers[j] != page.selected_attempt_no,
        page.selected_id.len() > 0,
    ensures
        0 <= i + delta < page.attempt_numbers.len() ==> ({
            let (after, reaction) = page.moving(delta, toast);
            &&& after.selected_attempt_no == page.attempt_numbers[i + delta]
            &&& after.selected_id == page.selected_id
            &&& reaction matches ReactionView::Send(
                CommandView::LoadDetail { request_id, run_id, attempt_no, tail, event_limit },
            ) && run_id == page.selected_id && attempt_no == Some(page.attempt_numbers[i + delta])
        }),
        !(0 <= i + delta < page.attempt_numbers.len()) ==> page.moving(delta, toast) == (
            page,
            ReactionView::Toast(toast),
        ),
{
    seqs::lemma_until(
        page.attempt_numbers,
        model::is_number(page.selected_attempt_no),
        i as nat,
    );
}

/// The run that is shown is the one whose name was chosen.
pub proof fn shown_run_is_the_chosen_one(page: RunsViewStateView)
    ensures
        page.selected() matches Some(row) ==> row.run_id == page.selected_id
            && page.all_rows.contains(row),
{
    seqs::lemma_present(page.all_rows, runs::is_row_of(page.selected_id));
}

// ---------------------------------------------------------------------------
// Sending
// ---------------------------------------------------------------------------

/// A retry that was reviewed is sent as it was drafted, once; a form that is not
/// right is not sent, and says why.
pub proof fn reviewed_retry_is_sent(page: RunsViewStateView)
    ensures
        page.retry_pending ==> !(page.retrying().1 is Send) && page.retrying().0 == page,
        !page.retry_pending ==> (match drafts::retry_drafted(page.retry, page.retry_runner) {
            Ok(spec) => page.retrying().1 == ReactionView::Send(CommandView::Retry(spec))
                && page.retrying().0.retry_pending,
            Err(why) => page.retrying().1 is Nothing && !page.retrying().0.retry_pending
                && page.retrying().0.retry_message == "Check the resource review: "@ + why,
        }),
{
}

/// A form is sent as the run that it describes, once; one that is not right is
/// not sent, and says why.
pub proof fn filled_form_is_sent(
    page: RunsViewStateView,
    drafted: Result<SubmitRunSpecView, Seq<char>>,
)
    ensures
        page.create_pending ==> !(page.creating(drafted).1 is Send) && page.creating(drafted).0
            == page,
        !page.create_pending ==> (match drafted {
            Ok(spec) => page.creating(drafted).1 == ReactionView::Send(
                CommandView::SubmitManual(spec),
            ) && page.creating(drafted).0.create_pending,
            Err(why) => page.creating(drafted).1 is Nothing && !page.creating(
                drafted,
            ).0.create_pending && page.creating(drafted).0.create_message == "Check the form: "@
                + why,
        }),
{
}

/// What was submitted leaves an empty form; what failed leaves the form as it was
/// filled, and says why.
pub proof fn submission_clears_the_form(page: RunsViewStateView, error: Seq<char>)
    ensures
        !page.created().create_pending && !page.created().create_dialog,
        page.created().create.command.len() == 0 && page.created().create.name.len() == 0
            && page.created().create.cwd.len() == 0,
        !page.not_created(error).create_pending,
        page.not_created(error).create == page.create,
        page.not_created(error).create_dialog == page.create_dialog,
        page.not_created(error).create_message == "Submission failed: "@ + error,
{
}

/// A review is opened only where the daemon can try again and the attempt can be
/// tried again, and under the name that was given for it.
pub proof fn review_is_opened_with_care(page: RunsViewStateView, request_id: Seq<char>)
    ensures
        ({
            let (after, reaction) = page.reviewing(request_id);
            &&& page.retry_supported && page.retry_available ==> after.retry_dialog
                && after.retry.request_id == request_id && after.retry.run_id == page.retry.run_id
                && after.retry.expected_attempt_no == page.retry.expected_attempt_no && reaction
                is Nothing
            &&& !(page.retry_supported && page.retry_available) ==> after == page && reaction
                is Toast
        }),
{
}

// ---------------------------------------------------------------------------
// The desk
// ---------------------------------------------------------------------------

/// Each message goes to the pages that it is for: a picture to the runs, the
/// hosts and the service, an answer to the runs, the hosts to their page; and each
/// is told as it says.
pub proof fn messages_go_to_their_pages(desk: DeskView, event: UiEvent)
    ensures
        event matches UiEvent::Snapshot { snapshot, notices } ==> desk.after(event).0.paused
            == snapshot@.paused && desk.after(event).0.runs == desk.runs.with_snapshot(snapshot@)
            && desk.after(event).0.hosts == desk.hosts.with_rows(snapshot@.rows) && desk.after(
            event,
        ).1 == notices.deep_view(),
        event matches UiEvent::DaemonUnavailable(error) ==> desk.after(event).0.runs
            == desk.runs.without_daemon(error@) && desk.after(event).0.paused == desk.paused
            && desk.after(event).0.hosts == desk.hosts && desk.after(event).1.len() == 0,
        event matches UiEvent::Detail { request_id, detail } ==> desk.after(event).0.runs
            == desk.runs.with_detail(request_id, detail@) && desk.after(event).1.len() == 0,
        event matches UiEvent::ManualSubmitResult { run_id, error } ==> (error is None
            ==> desk.after(event).0.runs == desk.runs.created() && desk.after(event).1[0].kind
            == NoticeKind::Success && desk.after(event).1[0].body == run_id@) && (error is Some
            ==> desk.after(event).0.runs == desk.runs.not_created(error->0@) && desk.after(
            event,
        ).1[0].kind == NoticeKind::Attention && desk.after(event).1[0].body == error->0@),
        event matches UiEvent::RetryResult { run_id, error } ==> (error is None ==> desk.after(
            event,
        ).0.runs == desk.runs.retried() && desk.after(event).1[0].kind == NoticeKind::Success) && (
        error is Some ==> desk.after(event).0.runs == desk.runs.not_retried(error->0@)
            && desk.after(event).1[0].kind == NoticeKind::Attention && desk.after(event).1[0].body
            == error->0@),
        event matches UiEvent::AutostartState { daemon_enabled, gui_enabled, notice }
            ==> desk.after(event).0.daemon_autostart == daemon_enabled && desk.after(
            event,
        ).0.gui_autostart == gui_enabled,
        event matches UiEvent::Notice(notice) ==> desk.after(event).0 == desk && desk.after(event).1
            == seq![notice@],
{
}

/// The page of the service tells what the daemon is and whether it looks at runs.
pub proof fn service_is_told(desk: DeskView, snapshot: DashboardSnapshotView)
    ensures
        text::has_prefix(
            desk.with_snapshot(snapshot).service,
            "runwatchd "@ + snapshot.daemon_version + "\nprotocol: "@ + text::decimal(
                snapshot.daemon_protocol as nat,
            ) + " · capabilities: "@ + text::decimal(snapshot.daemon_capabilities as nat)
                + "\npid: "@ + text::decimal(snapshot.daemon_pid as nat) + "\npolling: "@ + (
            if snapshot.paused {
                "paused"@
            } else {
                "active"@
            }),
        ),
{
    let head = "runwatchd "@ + snapshot.daemon_version + "\nprotocol: "@ + text::decimal(
        snapshot.daemon_protocol as nat,
    ) + " · capabilities: "@ + text::decimal(snapshot.daemon_capabilities as nat) + "\npid: "@
        + text::decimal(snapshot.daemon_pid as nat) + "\npolling: "@ + (if snapshot.paused {
        "paused"@
    } else {
        "active"@
    });
    let service = desk.with_snapshot(snapshot).service;
    assert(service.take(head.len() as int) =~= head);
}

// ---------------------------------------------------------------------------
// Hosts
// ---------------------------------------------------------------------------

/// The wall keeps to its window: it uses all but eighty points of it, and no less
/// than 220; a card is 280 to 390 points wide unless the wall is narrower.
pub proof fn cards_keep_their_size(viewport_width: int, cards: Seq<HostCardViewView>)
    ensures
        viewport_width >= 300 ==> hosts::wall_width(viewport_width) == viewport_width - 80,
        viewport_width < 300 ==> hosts::wall_width(viewport_width) == 220,
        280 <= hosts::preferred_width(cards) <= 390,
        hosts::card_width_in(viewport_width, cards) <= hosts::wall_width(viewport_width),
        hosts::card_width_in(viewport_width, cards) == hosts::preferred_width(cards)
            || hosts::card_width_in(viewport_width, cards) == hosts::wall_width(viewport_width),
        cards.len() == 0 ==> hosts::preferred_width(cards) == 280,
{
}

/// Wide characters count twice, and texts put together count together.
pub proof fn width_counts_characters(value: Seq<char>, ch: char)
    ensures
        hosts::units(Seq::empty()) == 0,
        (ch as u32) < 128 ==> hosts::units(value.push(ch)) == hosts::units(value) + 1,
        (ch as u32) >= 128 ==> hosts::units(value.push(ch)) == hosts::units(value) + 2,
{
    assert(value.push(ch).drop_last() =~= value);
}

/// A route has as many lines as it needs, at least one and at most three, and the
/// card grows by eighteen points for each line more.
pub proof fn card_grows_with_its_route(
    viewport_width: int,
    capacity: nat,
    cards: Seq<HostCardViewView>,
)
    ensures
        1 <= hosts::route_lines_in(capacity, cards) <= 3,
        ({
            let wall = hosts::laid_out(viewport_width, cards);
            &&& 1 <= wall.route_lines <= 3
            &&& wall.card_height == 168 + (wall.route_lines - 1) * 18
            &&& wall.hosts == cards
        }),
{
}

/// The page shows the hosts that were found, each with its live runs, and says so
/// where they could not be read.
pub proof fn found_hosts_are_shown(
    page: HostsViewStateView,
    found: Seq<HostCardViewView>,
    error: Seq<char>,
    i: int,
)
    ensures
        ({
            let shown = page.with_hosts(Ok(found));
            &&& shown.hosts.len() == found.len()
            &&& 0 <= i < found.len() ==> shown.hosts[i].alias == found[i].alias
                && shown.hosts[i].endpoint == found[i].endpoint && shown.hosts[i].route
                == found[i].route
            &&& found.len() == 1 ==> shown.status == text::decimal(1) + " exact OpenSSH Host alias"@
                + ""@ + " · read-only projection from ssh -G"@
            &&& found.len() > 1 ==> shown.status == text::decimal(found.len())
                + " exact OpenSSH Host alias"@ + "es"@ + " · read-only projection from ssh -G"@
        }),
        page.with_hosts(Err(error)).hosts.len() == 0,
        page.with_hosts(Err(error)).status == "Could not resolve OpenSSH Host aliases.\n"@ + error
            + "\nThis is a configuration error, not an empty Host list."@,
        page.with_rows(Seq::empty()).hosts.len() == page.hosts.len(),
{
}

/// Where a host is reached is told with its user, its name and its port, and how:
/// directly, or over the hosts between in their order.
pub proof fn way_to_a_host_is_told(
    user: Seq<char>,
    hostname: Seq<char>,
    port: u16,
    jumps: Seq<Seq<char>>,
)
    ensures
        controller::endpoint_text(Some(user), hostname, port) == user + "@"@ + hostname + ":"@
            + text::decimal(port as nat),
        controller::endpoint_text(None, hostname, port) == "?"@ + "@"@ + hostname + ":"@
            + text::decimal(port as nat),
        jumps.len() == 0 ==> controller::route_text(jumps) == "Direct"@,
        jumps.len() > 0 ==> controller::route_text(jumps) == "ProxyJump · "@ + text::joined(
            jumps,
            " → "@,
        ),
{
}

// ---------------------------------------------------------------------------
// Answers
// ---------------------------------------------------------------------------

/// What was asked of the daemon is what is shown: the two logs under their
/// headings, the files with their paths, and the reason where one could not be
/// had.
pub proof fn answers_are_shown(answers: DetailAnswers, parts: DetailParts)
    requires
        answers.makes(parts),
    ensures
        parts.run@ == answers.run@,
        answers.logs matches Ok(logs) ==> parts.logs@ == "STDOUT\n"@ + logs.0@ + "\n\nSTDERR\n"@
            + logs.1@,
        answers.logs matches Err(error) ==> parts.logs@ == "Logs unavailable\n"@ + error@,
        answers.requested_attempt_no is Some ==> parts.selected_attempt_no
            == answers.requested_attempt_no,
        answers.requested_attempt_no is None ==> parts.selected_attempt_no
            == answers.run.attempt_no,
        answers.attempt matches Err(error) ==> parts.attempt is None && parts.attempt_error is Some,
        answers.continuation matches Err(error) ==> parts.continuation_error is Some,
{
}

/// A file is shown with its kind and its path.
pub proof fn file_is_shown(line: ArtifactLineView)
    ensures
        line.kind is Some && line.path is Some ==> controller::artifact_item()(line)
            == line.kind->0 + "\n"@ + line.path->0,
        controller::artifacts_text(seq![line]) == controller::artifact_item()(line),
{
    let shown = seq![line].map_values(controller::artifact_item());
    assert(shown =~= seq![controller::artifact_item()(line)]);
}

/// A count is what was asked for, at least one and at most as many as there may
/// be.
pub proof fn counts_are_bounded(value: int, most: int)
    requires
        most >= 1,
    ensures
        1 <= controller::clamped(value, most) <= most,
        1 <= value <= most ==> controller::clamped(value, most) == value,
{
}

/// What was sent is told as a success under the name of the run where it went
/// well, and otherwise as something to attend to, with the error.
pub proof fn outcome_of_a_request_is_told(run_id: Seq<char>, error: Option<Seq<char>>)
    ensures
        controller::submitted_notice(run_id, error).kind == (if error is None {
            NoticeKind::Success
        } else {
            NoticeKind::Attention
        }),
        controller::retried_notice(run_id, error).kind == (if error is None {
            NoticeKind::Success
        } else {
            NoticeKind::Attention
        }),
        error is None ==> controller::submitted_notice(run_id, error).body == run_id
            && text::has_prefix(controller::retried_notice(run_id, error).body, run_id),
        error matches Some(reason) ==> controller::submitted_notice(run_id, error).body == reason
            && controller::retried_notice(run_id, error).body == reason,
{
    let body = controller::retried_notice(run_id, None).body;
    assert(body.take(run_id.len() as int) =~= run_id);
}

/// A program is named as missing exactly where it is.
pub proof fn missing_programs_are_named(runwatch: bool, mcp: bool, gui: bool)
    ensures
        ({
            let names = controller::missing_names(runwatch, mcp, gui);
            &&& names.contains("runwatch.exe"@) <==> !runwatch
            &&& names.contains("runwatch-mcp.exe"@) <==> !mcp
            &&& names.contains("runwatch-gui.exe"@) <==> !gui
        }),
{
    reveal_strlit("runwatch.exe");
    reveal_strlit("runwatch-mcp.exe");
    reveal_strlit("runwatch-gui.exe");
    assert("runwatch.exe"@.len() == 12);
    assert("runwatch-mcp.exe"@.len() == 16);
    assert("runwatch-gui.exe"@.len() == 16);
    assert("runwatch-mcp.exe"@[9] == 'm');
    assert("runwatch-gui.exe"@[9] == 'g');
    let names = controller::missing_names(runwatch, mcp, gui);
    if !runwatch {
        assert(names[0] == "runwatch.exe"@);
    }
    if !mcp {
        let at = if runwatch {
            0int
        } else {
            1
        };
        assert(names[at] == "runwatch-mcp.exe"@);
    }
    if !gui {
        assert(names[names.len() - 1] == "runwatch-gui.exe"@);
    }
}

} // verus!
