//! What each request to the daemon does, stated on the answer and on the ledger.
use crate::ipc;
use crate::ipc::frames;
use crate::ipc::frames::BoundedLineView;
use crate::ipc::{ReplyView, RequestView, Route};
use crate::operations;
use crate::seqs;
use crate::store;
use crate::store::deliveries;
use crate::store::notices;
use crate::store::offline;
use crate::store::{DeliveryState, StoreView};
use crate::text;
use crate::time::Timestamp;
use vstd::prelude::*;

verus! {

/// The operations have names that differ.
#[verifier::spinoff_prover]
#[verifier::rlimit(60)]
proof fn lemma_names_differ()
    ensures
        "hello"@.len() == 5,
        "daemon_status"@.len() == 13 && "daemon_status"@[0] == 'd',
        "set_paused"@.len() == 10 && "set_paused"@[0] == 's',
        "list_runs"@.len() == 9 && "list_runs"@[0] == 'l',
        "get_run"@.len() == 7,
        "get_observation"@.len() == 15 && "get_observation"@[0] == 'g',
        "adopt_run_v1"@.len() == 12 && "adopt_run_v1"@[1] == 'd',
        "rebind_continuation"@.len() == 19,
        "register_agent_session"@.len() == 22,
        "release_agent_session"@.len() == 21,
        "claim_deliveries"@.len() == 16,
        "delivery_status"@.len() == 15 && "delivery_status"@[0] == 'd',
        "verify_offline_invocation"@.len() == 25,
        "ack_delivery"@.len() == 12 && "ack_delivery"@[1] == 'c',
        "tick"@.len() == 4 && "tick"@[0] == 't',
        "wait_run"@.len() == 8,
        "submit_run_v2"@.len() == 13 && "submit_run_v2"@[0] == 's',
        "logs"@.len() == 4 && "logs"@[0] == 'l',
        "artifacts"@.len() == 9 && "artifacts"@[0] == 'a',
        "cancel_run"@.len() == 10 && "cancel_run"@[0] == 'c',
{
    reveal_strlit("hello");
    reveal_strlit("daemon_status");
    reveal_strlit("set_paused");
    reveal_strlit("list_runs");
    reveal_strlit("get_run");
    reveal_strlit("get_observation");
    reveal_strlit("adopt_run_v1");
    reveal_strlit("rebind_continuation");
    reveal_strlit("register_agent_session");
    reveal_strlit("release_agent_session");
    reveal_strlit("claim_deliveries");
    reveal_strlit("delivery_status");
    reveal_strlit("verify_offline_invocation");
    reveal_strlit("ack_delivery");
    reveal_strlit("tick");
    reveal_strlit("wait_run");
    reveal_strlit("submit_run_v2");
    reveal_strlit("logs");
    reveal_strlit("artifacts");
    reveal_strlit("cancel_run");
}

/// Asking changes nothing: the ledger and the pause are after the greeting, the
/// status, the lists and the counts what they were before.
pub proof fn questions_change_nothing(
    s: StoreView,
    paused: bool,
    pid: u32,
    request: RequestView,
    now: Timestamp,
)
    requires
        request.op == "hello"@ || request.op == "daemon_status"@ || request.op == "list_runs"@
            || request.op == "get_run"@ || request.op == "get_observation"@ || request.op
            == "delivery_status"@ || request.op == "verify_offline_invocation"@,
    ensures
        ipc::control(s, paused, pid, request, now).store == s,
        ipc::control(s, paused, pid, request, now).paused == paused,
{
    lemma_names_differ();
}

/// What the daemon tells of itself and of the runs is what it has: its own pause
/// and number, all runs of the ledger, the run that was named, and the sighting of
/// the attempt at which that run is.
pub proof fn answers_tell_the_ledger(
    s: StoreView,
    paused: bool,
    pid: u32,
    request: RequestView,
    now: Timestamp,
)
    ensures
        ({
            let answer = ipc::control(s, paused, pid, request, now).answer;
            &&& request.op == "daemon_status"@ ==> answer == Ok::<ReplyView, Seq<char>>(
                ReplyView::DaemonStatus { paused, pid },
            )
            &&& request.op == "hello"@ ==> (answer matches Ok(ReplyView::Hello(hello))
                && hello.protocol_version == 1 && hello.service == "runwatchd"@ && hello.storage
                == "sqlite-wal"@)
            &&& request.op == "list_runs"@ ==> (answer matches Ok(ReplyView::Runs { runs, .. })
                && runs == s.runs)
            &&& request.op == "get_run"@ && request.run_id is Some ==> (answer matches Ok(
                ReplyView::Run { run, observation },
            ) && run == s.run(request.run_id->0) && observation == current_sighting(
                s,
                request.run_id->0,
            ))
            &&& request.op == "get_run"@ && request.run_id is None ==> answer is Err
            &&& request.op == "get_observation"@ && request.run_id is Some && s.run(
                request.run_id->0,
            ) is Some ==> answer == Ok::<ReplyView, Seq<char>>(
                ReplyView::Observation(current_sighting(s, request.run_id->0)),
            )
            &&& request.op == "get_observation"@ && (request.run_id is None || s.run(
                request.run_id->0,
            ) is None) ==> answer is Err
        }),
{
    lemma_names_differ();
    if let Some(run_id) = request.run_id {
        seqs::lemma_present(s.runs, store::by_run(run_id));
    }
}

/// The sighting of the attempt at which a run is.
pub open spec fn current_sighting(s: StoreView, run_id: Seq<char>) -> Option<
    crate::types::ObservationRecordView,
> {
    match s.run(run_id) {
        Some(run) => match run.attempt_no {
            Some(number) => seqs::first(s.observations, store::by_observed(run_id, number)),
            None => None,
        },
        None => None,
    }
}

/// The daemon is paused exactly as it was told, and says so; nothing else pauses
/// it or lets it go on.
pub proof fn only_pausing_pauses(
    s: StoreView,
    paused: bool,
    pid: u32,
    request: RequestView,
    now: Timestamp,
)
    ensures
        request.op == "set_paused"@ && request.paused is Some ==> ipc::control(
            s,
            paused,
            pid,
            request,
            now,
        ).paused == request.paused->0 && ipc::control(s, paused, pid, request, now).answer == Ok::<
            ReplyView,
            Seq<char>,
        >(ReplyView::Paused(request.paused->0)) && ipc::control(
            s,
            paused,
            pid,
            request,
            now,
        ).store == s,
        request.op != "set_paused"@ || request.paused is None ==> ipc::control(
            s,
            paused,
            pid,
            request,
            now,
        ).paused == paused,
{
    lemma_names_differ();
}

/// A session is taken in the name of the instance that asks, for thirty-five
/// seconds, unless another one holds it; and given up only by the one that has
/// it.
pub proof fn sessions_are_taken_and_given_up(
    s: StoreView,
    paused: bool,
    pid: u32,
    request: RequestView,
    now: Timestamp,
)
    requires
        now.clocked(),
    ensures
        request.op == "register_agent_session"@ && request.registration is Some ==> ({
            let registration = request.registration->0;
            let after = ipc::control(s, paused, pid, request, now);
            &&& after.answer is Err <==> deliveries::lease_conflict(s, registration, now) is Some
            &&& after.answer matches Ok(ReplyView::Registered { expires_at }) ==> expires_at.nanos
                == now.nanos + 35_000_000_000 && notices::holds_session(
                after.store,
                registration.agent_kind,
                registration.session_id,
                registration.owner_instance_id,
                now,
            )
            &&& after.answer is Ok ==> (after.answer matches Ok(ReplyView::Registered { .. }))
        }),
        request.op == "release_agent_session"@ && request.agent_kind is Some && request.session_id
            is Some && request.owner_instance_id is Some ==> ({
            let after = ipc::control(s, paused, pid, request, now);
            let owned = store::by_owned_session(
                request.agent_kind->0,
                request.session_id->0,
                request.owner_instance_id->0,
            );
            &&& after.answer == Ok::<ReplyView, Seq<char>>(
                ReplyView::Released(seqs::present(s.leases, owned)),
            )
            &&& after.store.leases == seqs::removed(s.leases, owned)
            &&& after.store.deliveries == s.deliveries
        }),
{
    lemma_names_differ();
    if let Some(registration) = request.registration {
        notices::taken_session_is_held(s, registration, 35, now, now);
    }
}

/// Notices are claimed, counted and acknowledged for the session and by the
/// instance that the request names, and only where that instance holds that
/// session. Eight are handed out where the request does not say how many.
#[verifier::rlimit(40)]
pub proof fn notices_go_to_the_asker(
    s: StoreView,
    paused: bool,
    pid: u32,
    request: RequestView,
    now: Timestamp,
)
    requires
        request.agent_kind is Some,
        request.session_id is Some,
        request.owner_instance_id is Some,
    ensures
        ({
            let kind = request.agent_kind->0;
            let session = request.session_id->0;
            let owner = request.owner_instance_id->0;
            let held = notices::holds_session(s, kind, session, owner, now);
            let after = ipc::control(s, paused, pid, request, now);
            let limit = match request.limit {
                Some(limit) => limit,
                None => 8,
            };
            let ready = deliveries::requeued(s, now);
            let walk = deliveries::claim_walk(
                ready.deliveries,
                kind,
                session,
                deliveries::claim_limit(limit),
                now,
            );
            &&& request.op == "claim_deliveries"@ && held ==> after.answer == Ok::<
                ReplyView,
                Seq<char>,
            >(ReplyView::Deliveries(walk.taken)) && after.store.deliveries == walk.rows
            &&& request.op == "delivery_status"@ && held ==> after.answer == Ok::<
                ReplyView,
                Seq<char>,
            >(
                ReplyView::Status {
                    pending: deliveries::count_state(
                        s.deliveries,
                        kind,
                        session,
                        DeliveryState::Pending,
                    ),
                    delivering: deliveries::count_state(
                        s.deliveries,
                        kind,
                        session,
                        DeliveryState::Delivering,
                    ),
                    retrying: deliveries::count_state(
                        s.deliveries,
                        kind,
                        session,
                        DeliveryState::Retrying,
                    ),
                    needs_rebind: deliveries::count_state(
                        s.deliveries,
                        kind,
                        session,
                        DeliveryState::NeedsRebind,
                    ),
                },
            )
            &&& (request.op == "claim_deliveries"@ || request.op == "delivery_status"@ || (
            request.op == "ack_delivery"@)) && !held ==> after.answer is Err && after.store == s
            &&& request.op == "ack_delivery"@ && held && request.delivery_id is Some
                && request.outcome is Some && deliveries::finish_refusal(
                s,
                kind,
                session,
                owner,
                request.delivery_id->0,
                request.outcome->0,
                now,
            ) is None ==> ({
                let id = request.delivery_id->0;
                let open = s.delivery(id) is Some && s.delivery(id)->0.state
                    == DeliveryState::Delivering;
                &&& after.answer == Ok::<ReplyView, Seq<char>>(ReplyView::Updated(open))
                &&& open ==> after.store == deliveries::finished(
                    s,
                    id,
                    request.outcome->0,
                    request.error,
                    now,
                )
                &&& !open ==> after.store == s
            })
        }),
{
    lemma_names_differ();
}

/// A run is bound anew under the name and to the agent that the request gives,
/// and the answer tells how many notices that set free; a process is told whether
/// it still has its notice; a run that was seen elsewhere is taken over as it was
/// given.
pub proof fn runs_are_bound_and_taken_over(
    s: StoreView,
    paused: bool,
    pid: u32,
    request: RequestView,
    now: Timestamp,
)
    ensures
        ({
            let after = ipc::control(s, paused, pid, request, now);
            &&& request.op == "rebind_continuation"@ && request.run_id is Some && request.binding
                is Some && deliveries::rebind_refusal(s, request.run_id->0) is None ==> after.store
                == deliveries::rebound(s, request.run_id->0, request.binding->0, now)
                && after.answer == Ok::<ReplyView, Seq<char>>(
                ReplyView::Rebound {
                    reset_deliveries: deliveries::blocked_count(s.deliveries, request.run_id->0),
                },
            )
            &&& request.op == "rebind_continuation"@ && (request.run_id is None || request.binding
                is None) ==> after.answer is Err
            &&& request.op == "verify_offline_invocation"@ && request.invocation_id is Some
                && request.delivery_id is Some && request.owner_instance_id is Some ==> after.answer
                == Ok::<ReplyView, Seq<char>>(
                ReplyView::Owned(
                    offline::still_owned(
                        s,
                        request.invocation_id->0,
                        request.delivery_id->0,
                        request.owner_instance_id->0,
                        now,
                    ),
                ),
            )
            &&& request.op == "adopt_run_v1"@ && request.run is Some ==> ({
                let run = request.run->0;
                let named = text::trimmed(run.run_id).len() > 0 && text::trimmed(run.host).len()
                    > 0;
                &&& named ==> after.answer == Ok::<ReplyView, Seq<char>>(ReplyView::Adopted(run))
                    && after.store.run(run.run_id) == Some(run)
                &&& !named ==> after.answer is Err && after.store == s
            })
        }),
{
    lemma_names_differ();
    if let Some(run) = request.run {
        store::laws::stored_run_is_read_back(s, run, run.run_id);
    }
}

/// What is not answered at once goes where the request says: to the run that it
/// names, with what it gives.
pub proof fn requests_go_where_they_say(request: RequestView, route: Route)
    requires
        ipc::routes(request, route),
    ensures
        request.op == "tick"@ ==> route is Tick,
        request.op == "wait_run"@ && request.run_id is Some ==> (route matches Route::Wait {
            run_id,
            timeout_sec,
        } && run_id@ == request.run_id->0),
        request.op == "submit_run_v2"@ && request.spec is Some ==> (route matches Route::Submit(
            spec,
        ) && spec@ == request.spec->0),
        request.op == "logs"@ && request.run_id is Some ==> (route matches Route::Logs {
            run_id,
            tail,
        } && run_id@ == request.run_id->0 && tail == request.tail),
        request.op == "artifacts"@ && request.run_id is Some ==> (route matches Route::Artifacts {
            run_id,
        } && run_id@ == request.run_id->0),
        request.op == "cancel_run"@ && request.run_id is Some ==> (route matches Route::Cancel {
            run_id,
        } && run_id@ == request.run_id->0),
        route is Tick ==> request.op == "tick"@,
        route is Wait ==> request.op == "wait_run"@,
        route is Submit ==> request.op == "submit_run_v2"@,
        route is Logs ==> request.op == "logs"@,
        route is Artifacts ==> request.op == "artifacts"@,
        route is Cancel ==> request.op == "cancel_run"@,
{
    lemma_names_differ();
}

/// A run is waited for as long as was asked, for an hour where nothing was said,
/// and for a day at most.
pub proof fn waits_are_bounded(timeout_sec: Option<u64>)
    ensures
        timeout_sec is None ==> ipc::wait_seconds(timeout_sec) == 3600,
        timeout_sec is Some && timeout_sec->0 <= 86_400 ==> ipc::wait_seconds(timeout_sec)
            == timeout_sec->0,
        timeout_sec is Some && timeout_sec->0 > 86_400 ==> ipc::wait_seconds(timeout_sec)
            == 86_400,
{
}

/// A reply is taken only where it is to the question that was asked and says
/// that all went well.
pub proof fn only_the_own_reply_is_taken(
    op: Seq<char>,
    id: Seq<char>,
    reply_id: Option<Seq<char>>,
    ok: Option<bool>,
    error: Option<Seq<char>>,
)
    ensures
        ipc::reply_refusal(op, id, reply_id, ok, error) is None <==> reply_id == Some(id) && ok
            == Some(true),
        reply_id == Some(id) && ok != Some(true) && error is Some ==> ipc::reply_refusal(
            op,
            id,
            reply_id,
            ok,
            error,
        ) == Some("runwatch IPC "@ + op + " failed: "@ + error->0),
{
}

/// The pipe is open to the system and to the one user who owns it, and to nobody
/// else.
pub proof fn pipe_is_the_users_own(user_sid: Seq<char>)
    ensures
        ipc::descriptor_of(user_sid) == "O:"@ + user_sid + "D:P(A;;GA;;;SY)(A;;GA;;;"@ + user_sid
            + ")"@,
{
}

/// A request is the bytes up to the first line end: whatever stands before that,
/// up to 262144 bytes, is given back as it came, and more is refused.
pub proof fn request_is_one_line(line: Seq<u8>, rest: Seq<u8>)
    requires
        forall|i: int| 0 <= i < line.len() ==> #[trigger] line[i] != 10u8,
    ensures
        line.len() <= 262_144 ==> frames::read_whole(line + seq![10u8] + rest)
            == BoundedLineView::Line(line),
        line.len() > 262_144 ==> frames::read_whole(line + seq![10u8] + rest)
            == BoundedLineView::TooLarge,
        0 < line.len() <= 262_144 ==> frames::read_whole(line) == BoundedLineView::Line(line),
        frames::read_whole(Seq::empty()) == BoundedLineView::Eof,
{
    let stop = operations::is_line_end();
    let whole = line + seq![10u8] + rest;
    assert forall|j: int| 0 <= j < line.len() implies !stop(#[trigger] whole[j]) by {
        assert(whole[j] == line[j]);
    }
    assert(whole[line.len() as int] == 10u8);
    seqs::lemma_until(whole, stop, line.len());
    assert(whole.take(line.len() as int) =~= line);
    assert forall|j: int| 0 <= j < line.len() implies !stop(#[trigger] line[j]) by {}
    seqs::lemma_until(line, stop, line.len());
    assert(line.take(line.len() as int) =~= line);
    seqs::lemma_until(Seq::<u8>::empty(), stop, 0);
}

} // verus!
