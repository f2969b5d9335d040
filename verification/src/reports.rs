//! What is reported of a mint, over all that is recorded of it.

use crate::accounts::Milestone;
use crate::actions::ActionModel;
use crate::clock::{latency, Timestamp};
use crate::double::percent_change;
use crate::handouts::{handing_out_changes_nothing_else, recorded, Step};
use crate::history::Operation;
use crate::json::JsonModel;
use crate::laws::{field, logged, moved_on};
use crate::run::RunModel;
use vstd::prelude::*;

verus! {

impl Operation {
    /// The type of the event that the operation reports, if it reports one.
    pub open spec fn event_type(self) -> Option<Seq<char>> {
        match self {
            Operation::ConfigExported { .. } => None,
            Operation::SnapshotExported { .. } => None,
            Operation::CandidateEmitted { .. } => Some("creator_candidate"@),
            Operation::MintObserved { .. } => Some("mint_observed"@),
            Operation::CandidateRejected { .. } => Some("candidate_rejected"@),
            Operation::EntrySignalled { .. } => Some("entry_signal"@),
            Operation::EntryAttempted { .. } => Some("entry_attempt"@),
            Operation::EntryRejected { .. } => Some("entry_rejected"@),
            Operation::EntryFilled { .. } => Some("entry_fill"@),
            Operation::SessionUpdated { .. } => Some("session_update"@),
            Operation::ExitSignalled { .. } => Some("exit_signal"@),
            Operation::ExitFilled { .. } => Some("exit_fill"@),
            Operation::PositionClosed { .. } => Some("position_closed"@),
            Operation::WoundUp { .. } => Some("run_summary"@),
        }
    }
}

/// Whether an event has a type.
pub open spec fn has_type(event: JsonModel, event_type: Seq<char>) -> bool {
    field(event, "event_type"@) == JsonModel::Str(event_type)
}

/// Whether an event is about a mint.
pub open spec fn is_about(event: JsonModel, mint: Seq<char>) -> bool {
    field(event, "mint"@) == JsonModel::Str(mint)
}

/// How many events of a type a log holds about a mint.
pub open spec fn reported(log: Seq<JsonModel>, event_type: Seq<char>, mint: Seq<char>) -> nat
    decreases log.len(),
{
    if log.len() == 0 {
        0
    } else {
        let before = reported(log.drop_last(), event_type, mint);
        if has_type(log.last(), event_type) && is_about(log.last(), mint) {
            before + 1
        } else {
            before
        }
    }
}

/// Whether the log of a run has grown by one event, of the given type and about the given mint.
pub open spec fn reports_one(
    run: RunModel,
    next: RunModel,
    event_type: Option<Seq<char>>,
    mint: Option<Seq<char>>,
) -> bool {
    let event = logged(next.outbox).last();
    &&& logged(next.outbox) == logged(run.outbox).push(event)
    &&& event_type matches Some(t) && has_type(event, t)
    &&& mint matches Some(m) ==> is_about(event, m)
}

proof fn emission_reports_one(
    run: RunModel,
    event_type: Seq<char>,
    payload: JsonModel,
    session_id: Option<Seq<char>>,
    mint: Option<Seq<char>>,
    creator: Option<Seq<char>>,
    ts: Timestamp,
)
    ensures
        ({
            let next = run.emitted(event_type, payload, session_id, mint, creator, ts);
            &&& reports_one(run, next, Some(event_type), mint)
            &&& field(logged(next.outbox).last(), "payload"@) == payload
        }),
{
    crate::laws::emission_is_logged(run, event_type, payload, session_id, mint, creator, ts);
    crate::laws::event_is_attributed(
        run.counted(event_type),
        event_type,
        payload,
        session_id,
        mint,
        creator,
        ts,
    );
}

/// An operation reports nothing, or one event of its own type and about its own mint; which of the
/// two, the number of events tells.
pub proof fn operation_reports_its_event(run: RunModel, operation: Operation)
    ensures
        ({
            let next = run.after(operation);
            if next.event_index == run.event_index {
                logged(next.outbox) == logged(run.outbox)
            } else {
                &&& next.event_index == run.event_index + 1
                &&& reports_one(run, next, operation.event_type(), operation.mint())
            }
        }),
{
    assert forall|
        r: RunModel,
        event_type: Seq<char>,
        payload: JsonModel,
        session_id: Option<Seq<char>>,
        mint: Option<Seq<char>>,
        creator: Option<Seq<char>>,
        ts: Timestamp,
    |
        reports_one(
            r,
            #[trigger] r.emitted(event_type, payload, session_id, mint, creator, ts),
            Some(event_type),
            mint,
        ) by {
        emission_reports_one(r, event_type, payload, session_id, mint, creator, ts);
    }
    assert forall|r: RunModel, path: crate::paths::PathModel, document: JsonModel| #[trigger]
        logged(
            r.asked(ActionModel::WriteDocument { path, document }).outbox,
        ) == logged(r.outbox) by {
        crate::laws::quiet_request_logs_nothing(r, path, document);
    }
    match operation {
        Operation::ConfigExported { .. } => {},
        Operation::SnapshotExported { .. } => {},
        Operation::CandidateEmitted { .. } => {},
        Operation::MintObserved { .. } => {},
        Operation::CandidateRejected { .. } => {},
        Operation::EntrySignalled { .. } => {},
        Operation::EntryAttempted { .. } => {},
        Operation::EntryRejected { .. } => {},
        Operation::EntryFilled { .. } => {},
        Operation::SessionUpdated { .. } => {},
        Operation::ExitSignalled { .. } => {},
        Operation::ExitFilled { .. } => {},
        Operation::PositionClosed { .. } => {},
        Operation::WoundUp { .. } => {},
    }
}

/// Over any history, a step of a session is reported once for the mint whose session has taken it,
/// and not at all for any other mint: however often a mint is observed, signalled or closed, the
/// log holds one such event about it.
pub proof fn each_mint_is_reported_once(
    start: RunModel,
    operations: Seq<Operation>,
    milestone: Milestone,
    mint: Seq<char>,
)
    requires
        start.just_begun(),
    ensures
        reported(logged(start.after_all(operations).outbox), milestone.event_type(), mint)
            == if milestone.reached_by(start.after_all(operations).session_of(mint)) {
            1nat
        } else {
            0nat
        },
    decreases operations.len(),
{
    if operations.len() == 0 {
        crate::laws::nothing_is_logged_yet(start);
    } else {
        let run = start.after_all(operations.drop_last());
        let operation = operations.last();
        let next = run.after(operation);
        each_mint_is_reported_once(start, operations.drop_last(), milestone, mint);
        operation_reports_its_event(run, operation);
        crate::accounts::event_types_differ();
        let log = logged(next.outbox);
        if next.event_index != run.event_index {
            assert(log.drop_last() =~= logged(run.outbox));
        }
        match milestone {
            Milestone::Observed => match operation {
                Operation::ConfigExported { .. } => {},
                Operation::SnapshotExported { .. } => {},
                Operation::CandidateEmitted { .. } => {},
                Operation::MintObserved { .. } => {},
                Operation::CandidateRejected { .. } => {},
                Operation::EntrySignalled { .. } => {},
                Operation::EntryAttempted { .. } => {},
                Operation::EntryRejected { .. } => {},
                Operation::EntryFilled { .. } => {},
                Operation::SessionUpdated { .. } => {},
                Operation::ExitSignalled { .. } => {},
                Operation::ExitFilled { .. } => {},
                Operation::PositionClosed { .. } => {},
                Operation::WoundUp { .. } => {},
            },
            Milestone::EntrySignalled => match operation {
                Operation::ConfigExported { .. } => {},
                Operation::SnapshotExported { .. } => {},
                Operation::CandidateEmitted { .. } => {},
                Operation::MintObserved { .. } => {},
                Operation::CandidateRejected { .. } => {},
                Operation::EntrySignalled { .. } => {},
                Operation::EntryAttempted { .. } => {},
                Operation::EntryRejected { .. } => {},
                Operation::EntryFilled { .. } => {},
                Operation::SessionUpdated { .. } => {},
                Operation::ExitSignalled { .. } => {},
                Operation::ExitFilled { .. } => {},
                Operation::PositionClosed { .. } => {},
                Operation::WoundUp { .. } => {},
            },
            Milestone::ExitSignalled => match operation {
                Operation::ConfigExported { .. } => {},
                Operation::SnapshotExported { .. } => {},
                Operation::CandidateEmitted { .. } => {},
                Operation::MintObserved { .. } => {},
                Operation::CandidateRejected { .. } => {},
                Operation::EntrySignalled { .. } => {},
                Operation::EntryAttempted { .. } => {},
                Operation::EntryRejected { .. } => {},
                Operation::EntryFilled { .. } => {},
                Operation::SessionUpdated { .. } => {},
                Operation::ExitSignalled { .. } => {},
                Operation::ExitFilled { .. } => {},
                Operation::PositionClosed { .. } => {},
                Operation::WoundUp { .. } => {},
            },
            Milestone::Closed => match operation {
                Operation::ConfigExported { .. } => {},
                Operation::SnapshotExported { .. } => {},
                Operation::CandidateEmitted { .. } => {},
                Operation::MintObserved { .. } => {},
                Operation::CandidateRejected { .. } => {},
                Operation::EntrySignalled { .. } => {},
                Operation::EntryAttempted { .. } => {},
                Operation::EntryRejected { .. } => {},
                Operation::EntryFilled { .. } => {},
                Operation::SessionUpdated { .. } => {},
                Operation::ExitSignalled { .. } => {},
                Operation::ExitFilled { .. } => {},
                Operation::PositionClosed { .. } => {},
                Operation::WoundUp { .. } => {},
            },
        }
    }
}

/// The same holds whenever the requests are handed out: of the events in all hand-outs and those
/// that still wait, one reports the step of each mint whose session has taken it.
pub proof fn each_mint_is_reported_once_despite_hand_outs(
    start: RunModel,
    steps: Seq<Step>,
    milestone: Milestone,
    mint: Seq<char>,
)
    requires
        start.just_begun(),
    ensures
        reported(logged(start.after_steps(steps).asked()), milestone.event_type(), mint)
            == if milestone.reached_by(start.after_steps(steps).run.session_of(mint)) {
            1nat
        } else {
            0nat
        },
{
    handing_out_changes_nothing_else(start, steps);
    each_mint_is_reported_once(start, recorded(steps), milestone, mint);
}

/// Over any steps no session is lost, and none falls back.
pub proof fn steps_move_sessions_on(run: RunModel, steps: Seq<Step>, mint: Seq<char>)
    requires
        run.sessions.contains_key(mint),
    ensures
        run.after_steps(steps).run.sessions.contains_key(mint),
        moved_on(run.sessions[mint], run.after_steps(steps).run.sessions[mint]),
{
    handing_out_changes_nothing_else(run, steps);
    crate::laws::history_moves_sessions_on(run, recorded(steps), mint);
}

/// However often an entry is signalled for a mint, and whatever happens in between: the first
/// signal is reported, timed from the observation of the mint, or with no latency where it was
/// never observed; no later one is reported, and what the first noted stays noted, while the
/// session's creator, market, source and pool are those of the last signal.
pub proof fn entry_is_signalled_once(
    run: RunModel,
    first: Operation,
    between: Seq<Step>,
    again: Operation,
    mint: Seq<char>,
)
    requires
        first is EntrySignalled,
        first.mint() == Some(mint),
        again is EntrySignalled,
        again.mint() == Some(mint),
        run.session_of(mint).signal_at is None,
    ensures
        ({
            let one = run.after(first);
            let before = one.after_steps(between).run;
            let after = before.after(again);
            let now = first->EntrySignalled_now;
            let observed_at = run.session_of(mint).observed_at;
            let payload = field(logged(one.outbox).last(), "payload"@);
            let kept = after.sessions[mint];
            &&& reports_one(run, one, Some("entry_signal"@), Some(mint))
            &&& field(payload, "signal_latency_ms"@) == JsonModel::Int(
                latency(observed_at.unwrap_or(now), now),
            )
            &&& observed_at is None ==> field(payload, "signal_latency_ms"@) == JsonModel::Int(0)
            &&& field(payload, "signal_price"@) == JsonModel::Float(
                first->EntrySignalled_signal_price.sanitized(),
            )
            &&& after.outbox == before.outbox
            &&& after.event_counts == before.event_counts
            &&& after.event_index == before.event_index
            &&& kept.signal_at == Some(now)
            &&& kept.signal_price == Some(first->EntrySignalled_signal_price)
            &&& kept.signal_slot == Some(first->EntrySignalled_signal_slot)
            &&& kept.creator == Some(again->EntrySignalled_creator)
            &&& kept.market == Some(again->EntrySignalled_market)
            &&& kept.candidate_source == Some(again->EntrySignalled_candidate_source)
            &&& kept.pool_id == Some(again->EntrySignalled_pool_id)
        }),
{
    let one = run.after(first);
    let now = first->EntrySignalled_now;
    operation_reports_its_event(run, first);
    steps_move_sessions_on(one, between, mint);
    crate::laws::operation_moves_sessions_on(one.after_steps(between).run, again, mint);
    match first {
        Operation::EntrySignalled {
            creator,
            candidate_source,
            market,
            signal_reason,
            signal_price,
            signal_slot,
            pool_id,
            ..
        } => {
            let session = run.session_of(mint).described(
                Some(creator),
                Some(market),
                Some(candidate_source),
                Some(pool_id),
            );
            emission_reports_one(
                run.with_session(mint, session.signalled(now, signal_price, signal_slot)),
                "entry_signal"@,
                crate::events::entry_signal_model(
                    candidate_source,
                    market,
                    signal_reason,
                    signal_price,
                    signal_slot,
                    latency(session.observed_at.unwrap_or(now), now),
                    pool_id,
                ),
                Some(session.session_id),
                Some(mint),
                Some(creator),
                now,
            );
        },
        _ => {},
    }
    reveal_strlit("signal_price");
    reveal_strlit("signal_slot");
    reveal_strlit("signal_latency_ms");
    reveal_strlit("pool_id");
    assert("signal_price"@.len() == 12 && "signal_slot"@.len() == 11);
    assert("signal_latency_ms"@.len() == 17 && "pool_id"@.len() == 7);
}

/// However often an exit is signalled for a mint, and whatever happens in between: the first
/// signal is reported, with the gap to the best price, which is zero where the signal's price is
/// not above zero; no later one is reported, and what the first noted stays noted, while the
/// session's creator is the one of the last signal.
pub proof fn exit_is_signalled_once(
    run: RunModel,
    first: Operation,
    between: Seq<Step>,
    again: Operation,
    mint: Seq<char>,
)
    requires
        first is ExitSignalled,
        first.mint() == Some(mint),
        again is ExitSignalled,
        again.mint() == Some(mint),
        run.session_of(mint).exit_signal_at is None,
    ensures
        ({
            let one = run.after(first);
            let before = one.after_steps(between).run;
            let after = before.after(again);
            let price = first->ExitSignalled_signal_price;
            let gap = percent_change(
                Some(price),
                Some(first->ExitSignalled_theoretical_best_price),
            );
            let payload = field(logged(one.outbox).last(), "payload"@);
            let known = before.sessions[mint];
            let kept = after.sessions[mint];
            &&& reports_one(run, one, Some("exit_signal"@), Some(mint))
            &&& field(payload, "realized_vs_peak_gap_pct"@) == JsonModel::Percent(gap)
            &&& price.at_most(crate::double::Double::zero()) ==> gap is Zero
            &&& after.outbox == before.outbox
            &&& after.event_counts == before.event_counts
            &&& after.event_index == before.event_index
            &&& kept.exit_signal_at == Some(first->ExitSignalled_now)
            &&& kept.exit_signal_price == Some(price)
            &&& kept.exit_reason == Some(first->ExitSignalled_exit_reason)
            &&& kept == crate::session::SessionModel {
                creator: Some(again->ExitSignalled_creator),
                ..known
            }
        }),
{
    let one = run.after(first);
    operation_reports_its_event(run, first);
    steps_move_sessions_on(one, between, mint);
    crate::laws::operation_moves_sessions_on(one.after_steps(between).run, again, mint);
    match first {
        Operation::ExitSignalled {
            creator,
            exit_reason,
            signal_price,
            theoretical_best_price,
            now,
            ..
        } => {
            let session = run.session_of(mint).described(Some(creator), None, None, None);
            emission_reports_one(
                run.with_session(mint, session.exit_signalled(now, exit_reason, signal_price)),
                "exit_signal"@,
                crate::events::exit_signal_model(exit_reason, signal_price, theoretical_best_price),
                Some(session.session_id),
                Some(mint),
                Some(creator),
                now,
            );
        },
        _ => {},
    }
}

/// How many of a list of operations attempt an entry for a mint.
pub open spec fn attempts_in(operations: Seq<Operation>, mint: Seq<char>) -> nat
    decreases operations.len(),
{
    if operations.len() == 0 {
        0
    } else {
        let before = attempts_in(operations.drop_last(), mint);
        if operations.last() is EntryAttempted && operations.last().mint() == Some(mint) {
            before + 1
        } else {
            before
        }
    }
}

/// After `k` attempts for a mint the next one has the number `k + 1`, whatever else was recorded
/// and whenever the requests were handed out.
pub proof fn attempts_are_counted_despite_hand_outs(
    start: RunModel,
    steps: Seq<Step>,
    mint: Seq<char>,
)
    requires
        start.just_begun(),
        recorded(steps).len() <= usize::MAX,
    ensures
        start.after_steps(steps).run.next_attempt(mint) == attempts_in(recorded(steps), mint) + 1,
{
    handing_out_changes_nothing_else(start, steps);
    attempts_are_counted_for_each_mint(start, recorded(steps), mint);
}

/// After `k` attempts for a mint the next one has the number `k + 1`, whatever else was recorded.
pub proof fn attempts_are_counted_for_each_mint(
    start: RunModel,
    operations: Seq<Operation>,
    mint: Seq<char>,
)
    requires
        start.just_begun(),
        operations.len() <= usize::MAX,
    ensures
        start.after_all(operations).next_attempt(mint) == attempts_in(operations, mint) + 1,
        attempts_in(operations, mint) <= operations.len(),
    decreases operations.len(),
{
    if operations.len() > 0 {
        let run = start.after_all(operations.drop_last());
        let operation = operations.last();
        attempts_are_counted_for_each_mint(start, operations.drop_last(), mint);
        if operation.mint() != Some(mint) {
            crate::laws::operation_touches_one_mint(run, operation, mint);
        } else {
            match operation {
                Operation::ConfigExported { .. } => {},
                Operation::SnapshotExported { .. } => {},
                Operation::CandidateEmitted { .. } => {},
                Operation::MintObserved { .. } => {},
                Operation::CandidateRejected { .. } => {},
                Operation::EntrySignalled { .. } => {},
                Operation::EntryAttempted { .. } => {},
                Operation::EntryRejected { .. } => {},
                Operation::EntryFilled { .. } => {},
                Operation::SessionUpdated { .. } => {},
                Operation::ExitSignalled { .. } => {},
                Operation::ExitFilled { .. } => {},
                Operation::PositionClosed { .. } => {},
                Operation::WoundUp { .. } => {},
            }
        }
    }
}

/// An attempt is reported under its number, with finite figures; the session keeps its pool, and
/// the attempts for every other mint are numbered on as before.
pub proof fn attempt_is_reported(run: RunModel, operation: Operation, mint: Seq<char>)
    requires
        run.wf(),
        run.has_room(),
        operation is EntryAttempted,
        operation.mint() == Some(mint),
    ensures
        ({
            let next = run.after(operation);
            let payload = field(logged(next.outbox).last(), "payload"@);
            let quote = operation->EntryAttempted_quote_price;
            let expected = operation->EntryAttempted_expected_tokens_out;
            let available = operation->EntryAttempted_wallet_available_before;
            &&& reports_one(run, next, Some("entry_attempt"@), Some(mint))
            &&& field(payload, "attempt_index"@) == JsonModel::Int(run.next_attempt(mint))
            &&& field(payload, "quote_price"@) == JsonModel::Float(quote.sanitized())
            &&& field(payload, "expected_tokens_out"@) == JsonModel::Float(expected.sanitized())
            &&& field(payload, "wallet_available_before"@) == JsonModel::Float(
                available.sanitized(),
            )
            &&& quote.sanitized().finite()
            &&& expected.sanitized().finite()
            &&& available.sanitized().finite()
            &&& next.sessions[mint].pool_id == run.session_of(mint).pool_id
            &&& next.next_attempt(mint) == run.next_attempt(mint) + 1
            &&& forall|other: Seq<char>|
                other != mint ==> #[trigger] next.next_attempt(other) == run.next_attempt(other)
        }),
{
    operation_reports_its_event(run, operation);
    match operation {
        Operation::EntryAttempted {
            creator,
            candidate_source,
            market,
            route,
            quote_price,
            expected_tokens_out,
            slippage_bps,
            wallet_available_before,
            tx_strategy,
            transport_path,
            priority_fee_lamports,
            tip_lamports,
            retries,
            started_at,
            now,
            ..
        } => {
            let index = run.next_attempt(mint) as usize;
            let session = run.session_of(mint).described(
                Some(creator),
                Some(market),
                Some(candidate_source),
                None,
            );
            emission_reports_one(
                RunModel {
                    attempt_counters: run.attempt_counters.insert(mint, index),
                    ..run
                }.with_session(mint, session.attempted(index, started_at)),
                "entry_attempt"@,
                crate::events::entry_attempt_model(
                    index,
                    market,
                    route,
                    quote_price,
                    expected_tokens_out,
                    slippage_bps,
                    wallet_available_before,
                    tx_strategy,
                    transport_path,
                    candidate_source,
                    priority_fee_lamports,
                    tip_lamports,
                    retries,
                ),
                Some(session.session_id),
                Some(mint),
                Some(creator),
                now,
            );
        },
        _ => {},
    }
    attempt_fields_differ();
}

proof fn attempt_fields_differ()
    ensures
        forall|key: Seq<char>|
            #![trigger key.len()]
            key == "attempt_index"@ || key == "quote_price"@ || key == "expected_tokens_out"@ || key
                == "wallet_available_before"@ ==> {
                &&& key != "market"@
                &&& key != "route"@
                &&& key != "slippage_bps"@
                &&& key != "tx_strategy"@
                &&& key != "transport_path"@
                &&& key != "candidate_source"@
                &&& key != "priority_fee_lamports"@
                &&& key != "tip_lamports"@
                &&& key != "retries"@
            },
        "attempt_index"@.len() == 13,
        "quote_price"@.len() == 11,
        "expected_tokens_out"@.len() == 19,
        "wallet_available_before"@.len() == 23,
{
    reveal_strlit("attempt_index");
    reveal_strlit("market");
    reveal_strlit("route");
    reveal_strlit("quote_price");
    reveal_strlit("expected_tokens_out");
    reveal_strlit("slippage_bps");
    reveal_strlit("wallet_available_before");
    reveal_strlit("tx_strategy");
    reveal_strlit("transport_path");
    reveal_strlit("candidate_source");
    reveal_strlit("priority_fee_lamports");
    reveal_strlit("tip_lamports");
    reveal_strlit("retries");
    assert("market"@.len() == 6 && "route"@.len() == 5 && "slippage_bps"@.len() == 12);
    assert("transport_path"@.len() == 14 && "candidate_source"@.len() == 16);
    assert("priority_fee_lamports"@.len() == 21 && "tip_lamports"@.len() == 12);
    assert("retries"@.len() == 7 && "tx_strategy"@.len() == 11);
    assert("tx_strategy"@[0] == 't' && "quote_price"@[0] == 'q');
}

/// How many events of a type a log holds.
pub open spec fn lines_of(log: Seq<JsonModel>, event_type: Seq<char>) -> nat
    decreases log.len(),
{
    if log.len() == 0 {
        0
    } else {
        let before = lines_of(log.drop_last(), event_type);
        if has_type(log.last(), event_type) {
            before + 1
        } else {
            before
        }
    }
}

/// Over any history a run counts of each type the events of that type in its log.
pub proof fn counts_match_the_log(
    start: RunModel,
    operations: Seq<Operation>,
    event_type: Seq<char>,
)
    requires
        start.just_begun(),
    ensures
        crate::counts::count_of(start.after_all(operations).event_counts, event_type) == lines_of(
            logged(start.after_all(operations).outbox),
            event_type,
        ),
    decreases operations.len(),
{
    if operations.len() == 0 {
        crate::laws::nothing_is_logged_yet(start);
    } else {
        let run = start.after_all(operations.drop_last());
        let operation = operations.last();
        let next = run.after(operation);
        counts_match_the_log(start, operations.drop_last(), event_type);
        operation_reports_its_event(run, operation);
        if next.event_index != run.event_index {
            assert(logged(next.outbox).drop_last() =~= logged(run.outbox));
        }
        match operation {
            Operation::ConfigExported { .. } => {},
            Operation::SnapshotExported { .. } => {},
            Operation::CandidateEmitted { .. } => {},
            Operation::MintObserved { .. } => {},
            Operation::CandidateRejected { .. } => {},
            Operation::EntrySignalled { .. } => {},
            Operation::EntryAttempted { .. } => {},
            Operation::EntryRejected { .. } => {},
            Operation::EntryFilled { .. } => {},
            Operation::SessionUpdated { .. } => {},
            Operation::ExitSignalled { .. } => {},
            Operation::ExitFilled { .. } => {},
            Operation::PositionClosed { .. } => {},
            Operation::WoundUp { .. } => {},
        }
    }
}

/// The summary of a run gives the lines of its log: the candidates, the attempts, the fills and the
/// closings under their own names, and all lines with its own; whatever was recorded before, and
/// whenever the requests were handed out.
pub proof fn the_summary_counts_the_log(start: RunModel, steps: Seq<Step>, now: Timestamp)
    requires
        start.just_begun(),
        !start.after_steps(steps).run.finalized,
    ensures
        ({
            let run = start.after_steps(steps).run;
            let log = logged(start.after_steps(steps).asked());
            let payload = crate::payloads::new_payload(run, run.wound_up(now));
            &&& field(payload, "candidate_count"@) == JsonModel::Int(
                lines_of(log, "creator_candidate"@) as int,
            )
            &&& field(payload, "entry_attempt_count"@) == JsonModel::Int(
                lines_of(log, "entry_attempt"@) as int,
            )
            &&& field(payload, "entry_fill_count"@) == JsonModel::Int(
                lines_of(log, "entry_fill"@) as int,
            )
            &&& field(payload, "position_closed_count"@) == JsonModel::Int(
                lines_of(log, "position_closed"@) as int,
            )
            &&& field(payload, "event_count"@) == JsonModel::Int(log.len() + 1int)
        }),
{
    handing_out_changes_nothing_else(start, steps);
    let operations = recorded(steps);
    counts_match_the_log(start, operations, "creator_candidate"@);
    counts_match_the_log(start, operations, "entry_attempt"@);
    counts_match_the_log(start, operations, "entry_fill"@);
    counts_match_the_log(start, operations, "position_closed"@);
    crate::laws::counts_add_up(start, operations);
    crate::laws::log_is_numbered_from_one(start, operations);
    crate::payloads::winding_up_reports_the_counts(start.after_steps(steps).run, now);
}

} // verus!
