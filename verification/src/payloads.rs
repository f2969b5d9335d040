//! What every operation reports, in terms of what it was given.

use crate::actions::ActionModel;
use crate::candidates::ObservationModel;
use crate::clock::{latency, Timestamp};
use crate::counts::count_of;
use crate::documents::{is_change, keys_of, shown, tells_outcome};
use crate::double::Double;
use crate::json::JsonModel;
use crate::laws::{field, logged};
use crate::paths::PathModel;
use crate::run::{event_id_for, RunModel};
use crate::session::SessionModel;
use vstd::prelude::*;

verus! {

/// The event that a run logs first on the way to a later state.
pub open spec fn new_event(run: RunModel, next: RunModel) -> JsonModel {
    next.outbox[run.outbox.len() as int]->line
}

/// The payload of that event.
pub open spec fn new_payload(run: RunModel, next: RunModel) -> JsonModel {
    field(new_event(run, next), "payload"@)
}

/// Whether the event that a run logs next has the given type, session, mint, creator and time, and
/// says where it comes from; what it is not about, it does not mention.
pub open spec fn logs_event(
    run: RunModel,
    next: RunModel,
    event_type: Seq<char>,
    session_id: Option<Seq<char>>,
    mint: Option<Seq<char>>,
    creator: Option<Seq<char>>,
    ts: Timestamp,
) -> bool {
    let n = run.outbox.len() as int;
    let event = new_event(run, next);
    &&& next.outbox.len() > n
    &&& next.outbox.take(n) == run.outbox
    &&& next.outbox[n] is AppendLine
    &&& next.outbox[n]->AppendLine_path == run.event_path
    &&& next.event_index == run.event_index + 1
    &&& forall|name: Seq<char>| #[trigger]
        count_of(next.event_counts, name) == count_of(run.event_counts, name) + if name
            == event_type {
            1nat
        } else {
            0nat
        }
    &&& field(event, "run_id"@) == JsonModel::Str(run.run_id)
    &&& field(event, "event_id"@) == JsonModel::Str(
        event_id_for(run.run_id, run.event_index + 1),
    )
    &&& field(event, "event_type"@) == JsonModel::Str(event_type)
    &&& field(event, "ts_utc"@) == JsonModel::Str(ts.iso())
    &&& field(event, "source_system"@) == JsonModel::Str("mewx"@)
    &&& field(event, "source_commit"@) == JsonModel::Str(run.source_commit)
    &&& field(event, "mode"@) == JsonModel::Str(run.mode)
    &&& field(event, "transport_mode"@) == JsonModel::Str(run.transport_mode)
    &&& told(event, "session_id"@, session_id)
    &&& told(event, "mint"@, mint)
    &&& told(event, "creator"@, creator)
    &&& keys_of(event).subset_of(
        set![
            "run_id"@,
            "event_id"@,
            "event_type"@,
            "ts_utc"@,
            "source_system"@,
            "source_commit"@,
            "mode"@,
            "transport_mode"@,
            "payload"@,
            "session_id"@,
            "mint"@,
            "creator"@,
        ],
    )
}

/// Whether an event tells a text under a name, or has no such name where there is none.
pub open spec fn told(event: JsonModel, name: Seq<char>, text: Option<Seq<char>>) -> bool {
    if text is Some {
        keys_of(event).contains(name) && field(event, name) == JsonModel::Str(text->0)
    } else {
        !keys_of(event).contains(name)
    }
}

/// Whether nothing changed but the sessions, the attempts, the summaries, the counts and what was
/// asked for.
pub open spec fn keeps_the_rest(run: RunModel, next: RunModel) -> bool {
    &&& run.same_run(next)
    &&& next.config_path == run.config_path
    &&& next.candidate_snapshot_paths == run.candidate_snapshot_paths
    &&& next.finalized == run.finalized
    &&& next.ended_at == run.ended_at
}

/// The session of a mint is the one that is kept for it, or a fresh one of this run.
pub proof fn sessions_are_kept_by_mint(run: RunModel, mint: Seq<char>, session: SessionModel)
    ensures
        run.sessions.contains_key(mint) ==> run.session_of(mint) == run.sessions[mint],
        !run.sessions.contains_key(mint) ==> run.session_of(mint) == SessionModel::fresh(
            mint,
            run.started_at,
        ),
        run.with_session(mint, session).session_of(mint) == session,
        forall|other: Seq<char>|
            other != mint ==> #[trigger] run.with_session(mint, session).session_of(other)
                == run.session_of(other),
        run.with_session(mint, session).outbox == run.outbox,
{
}

proof fn emission_is_exact(
    run: RunModel,
    event_type: Seq<char>,
    payload: JsonModel,
    session_id: Option<Seq<char>>,
    mint: Option<Seq<char>>,
    creator: Option<Seq<char>>,
    ts: Timestamp,
)
    ensures
        ({
            let next = run.emitted(event_type, payload, session_id, mint, creator, ts);
            &&& logs_event(run, next, event_type, session_id, mint, creator, ts)
            &&& new_payload(run, next) == payload
            &&& next.outbox.len() == run.outbox.len() + 2
            &&& next.outbox.last() == ActionModel::WriteDocument {
                path: run.state_path,
                document: next.state_document("running"@),
            }
            &&& next.sessions == run.sessions
            &&& next.attempt_counters == run.attempt_counters
            &&& next.session_summary_paths == run.session_summary_paths
            &&& keeps_the_rest(run, next)
        }),
{
    reveal_strlit("run_id");
    reveal_strlit("event_id");
    reveal_strlit("event_type");
    reveal_strlit("ts_utc");
    reveal_strlit("source_system");
    reveal_strlit("source_commit");
    reveal_strlit("mode");
    reveal_strlit("transport_mode");
    reveal_strlit("payload");
    reveal_strlit("session_id");
    reveal_strlit("mint");
    reveal_strlit("creator");
    assert("run_id"@.len() == 6);
    assert("event_id"@.len() == 8);
    assert("event_type"@.len() == 10);
    assert("ts_utc"@.len() == 6);
    assert("source_system"@.len() == 13);
    assert("source_commit"@.len() == 13);
    assert("mode"@.len() == 4);
    assert("transport_mode"@.len() == 14);
    assert("payload"@.len() == 7);
    assert("session_id"@.len() == 10);
    assert("mint"@.len() == 4);
    assert("creator"@.len() == 7);
    assert("creator"@[0] == 'c');
    assert("event_type"@[0] == 'e');
    assert("mint"@[1] == 'i');
    assert("mode"@[1] == 'o');
    assert("payload"@[0] == 'p');
    assert("run_id"@[0] == 'r');
    assert("session_id"@[0] == 's');
    assert("source_commit"@[7] == 'c');
    assert("source_system"@[7] == 's');
    assert("ts_utc"@[0] == 't');
    let next = run.emitted(event_type, payload, session_id, mint, creator, ts);
    assert(next.outbox.take(run.outbox.len() as int) =~= run.outbox);
}

/// The first sighting of a mint is reported with what was given, overridden by the extra fields,
/// and noted with its time and price; a later one only describes the session.
pub open spec fn sighting_is_told(
    run: RunModel,
    next: RunModel,
    mint: Seq<char>,
    creator: Seq<char>,
    market: Seq<char>,
    candidate_source: Option<Seq<char>>,
    pool_id: Seq<char>,
    first_seen_slot: u64,
    open_price: Double,
    is_migrated: bool,
    extra: JsonModel,
    now: Timestamp,
) -> bool {
    let known = run.session_of(mint);
    let payload = new_payload(run, next);
    let added = keys_of(extra);
    &&& known.observed_at is None ==> {
        &&& logs_event(
            run,
            next,
            "mint_observed"@,
            Some(known.session_id),
            Some(mint),
            Some(creator),
            now,
        )
        &&& next.outbox.len() == run.outbox.len() + 2
        &&& keys_of(payload) =~= set![
            "market"@,
            "pool_id"@,
            "first_seen_slot"@,
            "open_price"@,
            "is_migrated"@,
            "candidate_source"@,
        ].union(added)
        &&& !added.contains("market"@) ==> field(payload, "market"@) == JsonModel::Str(market)
        &&& !added.contains("pool_id"@) ==> field(payload, "pool_id"@) == JsonModel::Str(pool_id)
        &&& !added.contains("first_seen_slot"@) ==> field(
            payload,
            "first_seen_slot"@,
        ) == JsonModel::Int(first_seen_slot as int)
        &&& !added.contains("open_price"@) ==> field(
            payload,
            "open_price"@,
        ) == JsonModel::Float(open_price.sanitized())
        &&& !added.contains("is_migrated"@) ==> field(
            payload,
            "is_migrated"@,
        ) == JsonModel::Bool(is_migrated)
        &&& !added.contains("candidate_source"@) ==> field(
            payload,
            "candidate_source"@,
        ) == shown(candidate_source)
        &&& forall|key: Seq<char>| #[trigger]
            added.contains(key) ==> field(payload, key) == field(extra, key)
        &&& next.sessions == run.sessions.insert(
            mint,
            known.described(
                Some(creator),
                Some(market),
                candidate_source,
                Some(pool_id),
            ).observed(now, open_price),
        )
        &&& next.attempt_counters == run.attempt_counters
        &&& next.session_summary_paths == run.session_summary_paths
        &&& keeps_the_rest(run, next)
    }
    &&& known.observed_at is Some ==> {
        &&& next.outbox == run.outbox
        &&& next.event_counts == run.event_counts
        &&& next.event_index == run.event_index
        &&& next.sessions == run.sessions.insert(
            mint,
            known.described(Some(creator), Some(market), candidate_source, Some(pool_id)),
        )
        &&& next.attempt_counters == run.attempt_counters
        &&& next.session_summary_paths == run.session_summary_paths
        &&& keeps_the_rest(run, next)
    }
}

/// The first sighting of a mint is reported with what was given, overridden by the extra fields,
/// and noted with its time and price; a later one only describes the session.
pub proof fn a_sighting_reports_what_was_given(
    run: RunModel,
    mint: Seq<char>,
    creator: Seq<char>,
    market: Seq<char>,
    candidate_source: Option<Seq<char>>,
    pool_id: Seq<char>,
    first_seen_slot: u64,
    open_price: Double,
    is_migrated: bool,
    extra: JsonModel,
    now: Timestamp,
)
    ensures
        sighting_is_told(
            run,
            run.mint_observed(
                mint,
                creator,
                market,
                candidate_source,
                pool_id,
                first_seen_slot,
                open_price,
                is_migrated,
                extra,
                now,
            ),
            mint,
            creator,
            market,
            candidate_source,
            pool_id,
            first_seen_slot,
            open_price,
            is_migrated,
            extra,
            now,
        ),
{
    let known = run.session_of(mint);
    emission_is_exact(
        run.with_session(
            mint,
            known.described(
                Some(creator),
                Some(market),
                candidate_source,
                Some(pool_id),
            ).observed(now, open_price),
        ),
        "mint_observed"@,
        crate::events::mint_observed_model(
            market,
            pool_id,
            first_seen_slot,
            open_price,
            is_migrated,
            candidate_source,
            extra,
        ),
        Some(known.session_id),
        Some(mint),
        Some(creator),
        now,
    );
    reveal_strlit("market");
    reveal_strlit("pool_id");
    reveal_strlit("first_seen_slot");
    reveal_strlit("open_price");
    reveal_strlit("is_migrated");
    reveal_strlit("candidate_source");
    assert("market"@.len() == 6);
    assert("pool_id"@.len() == 7);
    assert("first_seen_slot"@.len() == 15);
    assert("open_price"@.len() == 10);
    assert("is_migrated"@.len() == 11);
    assert("candidate_source"@.len() == 16);
}

/// A document that was given, or `null`.
pub open spec fn given_or_null(details: Option<JsonModel>) -> JsonModel {
    if details is Some {
        details->0
    } else {
        JsonModel::Null
    }
}

/// A candidate that was turned down is reported with the source, the reason and what stopped it,
/// overridden by the details.
pub open spec fn rejection_is_told(
    run: RunModel,
    next: RunModel,
    mint: Seq<char>,
    creator: Seq<char>,
    candidate_source: Seq<char>,
    reject_reason: Seq<char>,
    gate_name: Seq<char>,
    details: Option<JsonModel>,
    now: Timestamp,
) -> bool {
    let known = run.session_of(mint);
    let payload = new_payload(run, next);
    let added = keys_of(given_or_null(details));
    &&& logs_event(
        run,
        next,
        "candidate_rejected"@,
        Some(known.session_id),
        Some(mint),
        Some(creator),
        now,
    )
    &&& next.outbox.len() == run.outbox.len() + 2
    &&& keys_of(payload) =~= set![
        "candidate_source"@,
        "reject_reason"@,
        "gate_name"@,
    ].union(added)
    &&& !added.contains("candidate_source"@) ==> field(
        payload,
        "candidate_source"@,
    ) == JsonModel::Str(candidate_source)
    &&& !added.contains("reject_reason"@) ==> field(
        payload,
        "reject_reason"@,
    ) == JsonModel::Str(reject_reason)
    &&& !added.contains("gate_name"@) ==> field(payload, "gate_name"@) == JsonModel::Str(gate_name)
    &&& forall|key: Seq<char>| #[trigger]
        added.contains(key) ==> field(payload, key) == field(given_or_null(details), key)
    &&& next.sessions == run.sessions.insert(
        mint,
        known.described(Some(creator), None, Some(candidate_source), None),
    )
    &&& next.attempt_counters == run.attempt_counters
    &&& next.session_summary_paths == run.session_summary_paths
    &&& keeps_the_rest(run, next)
}

/// A candidate that was turned down is reported with the source, the reason and what stopped it,
/// overridden by the details.
pub proof fn a_rejection_reports_what_was_given(
    run: RunModel,
    mint: Seq<char>,
    creator: Seq<char>,
    candidate_source: Seq<char>,
    reject_reason: Seq<char>,
    gate_name: Seq<char>,
    details: Option<JsonModel>,
    now: Timestamp,
)
    ensures
        rejection_is_told(
            run,
            run.candidate_rejected(
                mint,
                creator,
                candidate_source,
                reject_reason,
                gate_name,
                details,
                now,
            ),
            mint,
            creator,
            candidate_source,
            reject_reason,
            gate_name,
            details,
            now,
        ),
{
    let known = run.session_of(mint);
    emission_is_exact(
        run.with_session(mint, known.described(Some(creator), None, Some(candidate_source), None)),
        "candidate_rejected"@,
        crate::events::candidate_rejected_model(
            candidate_source,
            reject_reason,
            gate_name,
            details,
        ),
        Some(known.session_id),
        Some(mint),
        Some(creator),
        now,
    );
    reveal_strlit("candidate_source");
    reveal_strlit("reject_reason");
    reveal_strlit("gate_name");
    assert("candidate_source"@.len() == 16);
    assert("reject_reason"@.len() == 13);
    assert("gate_name"@.len() == 9);
}

/// The first entry signal is reported with what was given and timed from the observation, and noted
/// with its time, price and slot; a later one only describes the session.
pub open spec fn entry_signal_is_told(
    run: RunModel,
    next: RunModel,
    mint: Seq<char>,
    creator: Seq<char>,
    candidate_source: Seq<char>,
    market: Seq<char>,
    signal_reason: Seq<char>,
    signal_price: Double,
    signal_slot: u64,
    pool_id: Seq<char>,
    now: Timestamp,
) -> bool {
    let known = run.session_of(mint);
    let payload = new_payload(run, next);
    &&& known.signal_at is None ==> {
        &&& logs_event(
            run,
            next,
            "entry_signal"@,
            Some(known.session_id),
            Some(mint),
            Some(creator),
            now,
        )
        &&& next.outbox.len() == run.outbox.len() + 2
        &&& keys_of(payload) =~= set![
            "candidate_source"@,
            "market"@,
            "signal_reason"@,
            "signal_price"@,
            "signal_slot"@,
            "signal_latency_ms"@,
            "pool_id"@,
        ]
        &&& field(payload, "candidate_source"@) == JsonModel::Str(candidate_source)
        &&& field(payload, "market"@) == JsonModel::Str(market)
        &&& field(payload, "signal_reason"@) == JsonModel::Str(signal_reason)
        &&& field(payload, "signal_price"@) == JsonModel::Float(signal_price.sanitized())
        &&& field(payload, "signal_slot"@) == JsonModel::Int(signal_slot as int)
        &&& field(payload, "signal_latency_ms"@) == match known.observed_at {
            Some(seen) => JsonModel::Int(latency(seen, now)),
            None => JsonModel::Int(0),
        }
        &&& field(payload, "pool_id"@) == JsonModel::Str(pool_id)
        &&& next.sessions == run.sessions.insert(
            mint,
            known.described(
                Some(creator),
                Some(market),
                Some(candidate_source),
                Some(pool_id),
            ).signalled(now, signal_price, signal_slot),
        )
        &&& next.attempt_counters == run.attempt_counters
        &&& next.session_summary_paths == run.session_summary_paths
        &&& keeps_the_rest(run, next)
    }
    &&& known.signal_at is Some ==> {
        &&& next.outbox == run.outbox
        &&& next.event_counts == run.event_counts
        &&& next.event_index == run.event_index
        &&& next.sessions == run.sessions.insert(
            mint,
            known.described(Some(creator), Some(market), Some(candidate_source), Some(pool_id)),
        )
        &&& next.attempt_counters == run.attempt_counters
        &&& next.session_summary_paths == run.session_summary_paths
        &&& keeps_the_rest(run, next)
    }
}

/// The first entry signal is reported with what was given and timed from the observation, and noted
/// with its time, price and slot; a later one only describes the session.
pub proof fn an_entry_signal_reports_what_was_given(
    run: RunModel,
    mint: Seq<char>,
    creator: Seq<char>,
    candidate_source: Seq<char>,
    market: Seq<char>,
    signal_reason: Seq<char>,
    signal_price: Double,
    signal_slot: u64,
    pool_id: Seq<char>,
    now: Timestamp,
)
    ensures
        entry_signal_is_told(
            run,
            run.entry_signalled(
                mint,
                creator,
                candidate_source,
                market,
                signal_reason,
                signal_price,
                signal_slot,
                pool_id,
                now,
            ),
            mint,
            creator,
            candidate_source,
            market,
            signal_reason,
            signal_price,
            signal_slot,
            pool_id,
            now,
        ),
{
    let known = run.session_of(mint);
    emission_is_exact(
        run.with_session(
            mint,
            known.described(
                Some(creator),
                Some(market),
                Some(candidate_source),
                Some(pool_id),
            ).signalled(now, signal_price, signal_slot),
        ),
        "entry_signal"@,
        crate::events::entry_signal_model(
            candidate_source,
            market,
            signal_reason,
            signal_price,
            signal_slot,
            latency(known.observed_at.unwrap_or(now), now),
            pool_id,
        ),
        Some(known.session_id),
        Some(mint),
        Some(creator),
        now,
    );
    reveal_strlit("candidate_source");
    reveal_strlit("market");
    reveal_strlit("signal_reason");
    reveal_strlit("signal_price");
    reveal_strlit("signal_slot");
    reveal_strlit("signal_latency_ms");
    reveal_strlit("pool_id");
    assert("candidate_source"@.len() == 16);
    assert("market"@.len() == 6);
    assert("signal_reason"@.len() == 13);
    assert("signal_price"@.len() == 12);
    assert("signal_slot"@.len() == 11);
    assert("signal_latency_ms"@.len() == 17);
    assert("pool_id"@.len() == 7);
}

/// An attempt is reported with what was given under the number that follows the last one for the
/// mint, and noted under it with its time.
pub open spec fn attempt_is_told(
    run: RunModel,
    next: RunModel,
    mint: Seq<char>,
    creator: Seq<char>,
    candidate_source: Seq<char>,
    market: Seq<char>,
    route: Seq<char>,
    quote_price: Double,
    expected_tokens_out: Double,
    slippage_bps: u64,
    wallet_available_before: Double,
    tx_strategy: Seq<char>,
    transport_path: Seq<char>,
    priority_fee_lamports: u64,
    tip_lamports: u64,
    retries: u32,
    started_at: Timestamp,
    now: Timestamp,
) -> bool {
    let known = run.session_of(mint);
    let index = if run.attempt_counters.contains_key(mint) {
        (run.attempt_counters[mint] + 1) as usize
    } else {
        1usize
    };
    let payload = new_payload(run, next);
    &&& logs_event(
        run,
        next,
        "entry_attempt"@,
        Some(known.session_id),
        Some(mint),
        Some(creator),
        now,
    )
    &&& next.outbox.len() == run.outbox.len() + 2
    &&& keys_of(payload) =~= set![
        "attempt_index"@,
        "market"@,
        "route"@,
        "quote_price"@,
        "expected_tokens_out"@,
        "slippage_bps"@,
        "wallet_available_before"@,
        "tx_strategy"@,
        "transport_path"@,
        "candidate_source"@,
        "priority_fee_lamports"@,
        "tip_lamports"@,
        "retries"@,
    ]
    &&& field(payload, "attempt_index"@) == JsonModel::Int(index as int)
    &&& field(payload, "market"@) == JsonModel::Str(market)
    &&& field(payload, "route"@) == JsonModel::Str(route)
    &&& field(payload, "quote_price"@) == JsonModel::Float(quote_price.sanitized())
    &&& field(payload, "expected_tokens_out"@) == JsonModel::Float(expected_tokens_out.sanitized())
    &&& field(payload, "slippage_bps"@) == JsonModel::Int(slippage_bps as int)
    &&& field(
        payload,
        "wallet_available_before"@,
    ) == JsonModel::Float(wallet_available_before.sanitized())
    &&& field(payload, "tx_strategy"@) == JsonModel::Str(tx_strategy)
    &&& field(payload, "transport_path"@) == JsonModel::Str(transport_path)
    &&& field(payload, "candidate_source"@) == JsonModel::Str(candidate_source)
    &&& field(payload, "priority_fee_lamports"@) == JsonModel::Int(priority_fee_lamports as int)
    &&& field(payload, "tip_lamports"@) == JsonModel::Int(tip_lamports as int)
    &&& field(payload, "retries"@) == JsonModel::Int(retries as int)
    &&& next.sessions == run.sessions.insert(
        mint,
        known.described(
            Some(creator),
            Some(market),
            Some(candidate_source),
            None,
        ).attempted(index, started_at),
    )
    &&& next.session_summary_paths == run.session_summary_paths
    &&& keeps_the_rest(run, next)
    &&& next.attempt_counters == run.attempt_counters.insert(mint, index)
}

/// An attempt is reported with what was given under the number that follows the last one for the
/// mint, and noted under it with its time.
pub proof fn an_attempt_reports_what_was_given(
    run: RunModel,
    mint: Seq<char>,
    creator: Seq<char>,
    candidate_source: Seq<char>,
    market: Seq<char>,
    route: Seq<char>,
    quote_price: Double,
    expected_tokens_out: Double,
    slippage_bps: u64,
    wallet_available_before: Double,
    tx_strategy: Seq<char>,
    transport_path: Seq<char>,
    priority_fee_lamports: u64,
    tip_lamports: u64,
    retries: u32,
    started_at: Timestamp,
    now: Timestamp,
)
    ensures
        attempt_is_told(
            run,
            run.entry_attempted(
                mint,
                creator,
                candidate_source,
                market,
                route,
                quote_price,
                expected_tokens_out,
                slippage_bps,
                wallet_available_before,
                tx_strategy,
                transport_path,
                priority_fee_lamports,
                tip_lamports,
                retries,
                started_at,
                now,
            ),
            mint,
            creator,
            candidate_source,
            market,
            route,
            quote_price,
            expected_tokens_out,
            slippage_bps,
            wallet_available_before,
            tx_strategy,
            transport_path,
            priority_fee_lamports,
            tip_lamports,
            retries,
            started_at,
            now,
        ),
{
    let index = run.next_attempt(mint) as usize;
    let known = run.session_of(mint);
    emission_is_exact(
        RunModel {
            attempt_counters: run.attempt_counters.insert(mint, index),
            ..run
        }.with_session(
            mint,
            known.described(
                Some(creator),
                Some(market),
                Some(candidate_source),
                None,
            ).attempted(index, started_at),
        ),
        "entry_attempt"@,
        crate::events::entry_attempt_model(
            index,
            market,
            route,
            quote_price,
            expected_tokens_out,
            slippage_bps,
            wallet_available_before,
            tx_strategy,
            transport_path,
            candidate_source,
            priority_fee_lamports,
            tip_lamports,
            retries,
        ),
        Some(known.session_id),
        Some(mint),
        Some(creator),
        now,
    );
    reveal_strlit("attempt_index");
    reveal_strlit("market");
    reveal_strlit("route");
    reveal_strlit("quote_price");
    reveal_strlit("expected_tokens_out");
    reveal_strlit("slippage_bps");
    reveal_strlit("wallet_available_before");
    reveal_strlit("tx_strategy");
    reveal_strlit("transport_path");
    reveal_strlit("candidate_source");
    reveal_strlit("priority_fee_lamports");
    reveal_strlit("tip_lamports");
    reveal_strlit("retries");
    assert("attempt_index"@.len() == 13);
    assert("market"@.len() == 6);
    assert("route"@.len() == 5);
    assert("quote_price"@.len() == 11);
    assert("expected_tokens_out"@.len() == 19);
    assert("slippage_bps"@.len() == 12);
    assert("wallet_available_before"@.len() == 23);
    assert("tx_strategy"@.len() == 11);
    assert("transport_path"@.len() == 14);
    assert("candidate_source"@.len() == 16);
    assert("priority_fee_lamports"@.len() == 21);
    assert("tip_lamports"@.len() == 12);
    assert("retries"@.len() == 7);
    assert("quote_price"@[0] == 'q');
    assert("slippage_bps"@[0] == 's');
    assert("tip_lamports"@[0] == 't');
    assert("tx_strategy"@[0] == 't');
}

/// A refused entry is reported with its attempt, counted from one, its reason and its transaction,
/// overridden by the details.
pub open spec fn refusal_is_told(
    run: RunModel,
    next: RunModel,
    mint: Seq<char>,
    creator: Seq<char>,
    reject_reason: Seq<char>,
    tx_signature: Seq<char>,
    attempt_index: usize,
    details: Option<JsonModel>,
    now: Timestamp,
) -> bool {
    let known = run.session_of(mint);
    let payload = new_payload(run, next);
    let added = keys_of(given_or_null(details));
    &&& logs_event(
        run,
        next,
        "entry_rejected"@,
        Some(known.session_id),
        Some(mint),
        Some(creator),
        now,
    )
    &&& next.outbox.len() == run.outbox.len() + 2
    &&& keys_of(payload) =~= set![
        "attempt_index"@,
        "reject_reason"@,
        "tx_signature"@,
    ].union(added)
    &&& !added.contains("attempt_index"@) ==> field(payload, "attempt_index"@) == JsonModel::Int(
        if attempt_index == 0 {
            1
        } else {
            attempt_index as int
        },
    )
    &&& !added.contains("reject_reason"@) ==> field(
        payload,
        "reject_reason"@,
    ) == JsonModel::Str(reject_reason)
    &&& !added.contains("tx_signature"@) ==> field(
        payload,
        "tx_signature"@,
    ) == JsonModel::Str(tx_signature)
    &&& forall|key: Seq<char>| #[trigger]
        added.contains(key) ==> field(payload, key) == field(given_or_null(details), key)
    &&& next.sessions == run.sessions.insert(
        mint,
        known.described(Some(creator), None, None, None),
    )
    &&& next.attempt_counters == run.attempt_counters
    &&& next.session_summary_paths == run.session_summary_paths
    &&& keeps_the_rest(run, next)
}

/// A refused entry is reported with its attempt, counted from one, its reason and its transaction,
/// overridden by the details.
pub proof fn a_refusal_reports_attempt_and_reason(
    run: RunModel,
    mint: Seq<char>,
    creator: Seq<char>,
    reject_reason: Seq<char>,
    tx_signature: Seq<char>,
    attempt_index: usize,
    details: Option<JsonModel>,
    now: Timestamp,
)
    ensures
        refusal_is_told(
            run,
            run.entry_rejected(
                mint,
                creator,
                reject_reason,
                tx_signature,
                attempt_index,
                details,
                now,
            ),
            mint,
            creator,
            reject_reason,
            tx_signature,
            attempt_index,
            details,
            now,
        ),
{
    let known = run.session_of(mint);
    emission_is_exact(
        run.with_session(mint, known.described(Some(creator), None, None, None)),
        "entry_rejected"@,
        crate::events::entry_rejected_model(attempt_index, reject_reason, tx_signature, details),
        Some(known.session_id),
        Some(mint),
        Some(creator),
        now,
    );
    reveal_strlit("attempt_index");
    reveal_strlit("reject_reason");
    reveal_strlit("tx_signature");
    assert("attempt_index"@.len() == 13);
    assert("reject_reason"@.len() == 13);
    assert("tx_signature"@.len() == 12);
    assert("attempt_index"@[0] == 'a');
    assert("reject_reason"@[0] == 'r');
}

/// A filled entry is reported with what was given, its attempt counted from one, and timed from
/// that attempt, else from the entry signal; it is noted with its time and price.
pub open spec fn entry_fill_is_told(
    run: RunModel,
    next: RunModel,
    mint: Seq<char>,
    creator: Seq<char>,
    fill_price: Double,
    fill_qty: Double,
    tx_signature: Seq<char>,
    wallet_balance_after: Double,
    confirmation_source: Seq<char>,
    attempt_index: usize,
    now: Timestamp,
) -> bool {
    let known = run.session_of(mint);
    let payload = new_payload(run, next);
    &&& logs_event(
        run,
        next,
        "entry_fill"@,
        Some(known.session_id),
        Some(mint),
        Some(creator),
        now,
    )
    &&& next.outbox.len() == run.outbox.len() + 2
    &&& keys_of(payload) =~= set![
        "attempt_index"@,
        "fill_price"@,
        "fill_qty"@,
        "fill_latency_ms"@,
        "tx_signature"@,
        "wallet_balance_after"@,
        "confirmation_source"@,
    ]
    &&& field(payload, "attempt_index"@) == JsonModel::Int(
        if attempt_index == 0 {
            1
        } else {
            attempt_index as int
        },
    )
    &&& field(payload, "fill_price"@) == JsonModel::Float(fill_price.sanitized())
    &&& field(payload, "fill_qty"@) == JsonModel::Float(fill_qty.sanitized())
    &&& field(payload, "fill_latency_ms"@) == JsonModel::Int(
        if known.attempts.contains_key(attempt_index) {
            latency(known.attempts[attempt_index].started_at, now)
        } else if known.signal_at is Some {
            latency(known.signal_at->0, now)
        } else {
            0
        },
    )
    &&& field(payload, "tx_signature"@) == JsonModel::Str(tx_signature)
    &&& field(
        payload,
        "wallet_balance_after"@,
    ) == JsonModel::Float(wallet_balance_after.sanitized())
    &&& field(payload, "confirmation_source"@) == JsonModel::Str(confirmation_source)
    &&& next.sessions == run.sessions.insert(
        mint,
        known.described(Some(creator), None, None, None).filled(now, fill_price),
    )
    &&& next.attempt_counters == run.attempt_counters
    &&& next.session_summary_paths == run.session_summary_paths
    &&& keeps_the_rest(run, next)
}

/// A filled entry is reported with what was given, its attempt counted from one, and timed from
/// that attempt, else from the entry signal; it is noted with its time and price.
pub proof fn an_entry_fill_reports_what_was_given(
    run: RunModel,
    mint: Seq<char>,
    creator: Seq<char>,
    fill_price: Double,
    fill_qty: Double,
    tx_signature: Seq<char>,
    wallet_balance_after: Double,
    confirmation_source: Seq<char>,
    attempt_index: usize,
    now: Timestamp,
)
    ensures
        entry_fill_is_told(
            run,
            run.entry_filled(
                mint,
                creator,
                fill_price,
                fill_qty,
                tx_signature,
                wallet_balance_after,
                confirmation_source,
                attempt_index,
                now,
            ),
            mint,
            creator,
            fill_price,
            fill_qty,
            tx_signature,
            wallet_balance_after,
            confirmation_source,
            attempt_index,
            now,
        ),
{
    let known = run.session_of(mint);
    emission_is_exact(
        run.with_session(
            mint,
            known.described(Some(creator), None, None, None).filled(now, fill_price),
        ),
        "entry_fill"@,
        crate::events::entry_fill_model(
            attempt_index,
            fill_price,
            fill_qty,
            latency(known.attempt_start(attempt_index, now), now),
            tx_signature,
            wallet_balance_after,
            confirmation_source,
        ),
        Some(known.session_id),
        Some(mint),
        Some(creator),
        now,
    );
    reveal_strlit("attempt_index");
    reveal_strlit("fill_price");
    reveal_strlit("fill_qty");
    reveal_strlit("fill_latency_ms");
    reveal_strlit("tx_signature");
    reveal_strlit("wallet_balance_after");
    reveal_strlit("confirmation_source");
    assert("attempt_index"@.len() == 13);
    assert("fill_price"@.len() == 10);
    assert("fill_qty"@.len() == 8);
    assert("fill_latency_ms"@.len() == 15);
    assert("tx_signature"@.len() == 12);
    assert("wallet_balance_after"@.len() == 20);
    assert("confirmation_source"@.len() == 19);
}

/// A tick is reported with what was given and with the changes from the entry to the peak and to
/// the low that the session then has.
pub open spec fn tick_is_told(
    run: RunModel,
    next: RunModel,
    mint: Seq<char>,
    creator: Seq<char>,
    price: Double,
    highest_price: Double,
    buys: i64,
    sells: i64,
    liquidity: Double,
    state_reason: Seq<char>,
    creator_token_amount: Double,
    creator_sold: bool,
    txns_in_zero: i64,
    txns_in_n: i64,
    now: Timestamp,
) -> bool {
    let known = run.session_of(mint);
    let ticked = next.sessions[mint];
    let entry = if known.entry_fill_price is Some {
        known.entry_fill_price
    } else if known.signal_price is Some {
        known.signal_price
    } else {
        known.observed_open_price
    };
    let payload = new_payload(run, next);
    &&& logs_event(
        run,
        next,
        "session_update"@,
        Some(known.session_id),
        Some(mint),
        Some(creator),
        now,
    )
    &&& next.outbox.len() == run.outbox.len() + 2
    &&& keys_of(payload) =~= set![
        "price"@,
        "highest_price"@,
        "buys"@,
        "sells"@,
        "liquidity"@,
        "mfe_pct"@,
        "mae_pct"@,
        "state_reason"@,
        "creator_token_amount"@,
        "creator_sold"@,
        "txns_in_zero"@,
        "txns_in_n"@,
    ]
    &&& field(payload, "price"@) == JsonModel::Float(price.sanitized())
    &&& field(payload, "highest_price"@) == JsonModel::Float(
        SessionModel::tick_high(price, highest_price),
    )
    &&& field(payload, "buys"@) == JsonModel::Int(buys as int)
    &&& field(payload, "sells"@) == JsonModel::Int(sells as int)
    &&& field(payload, "liquidity"@) == JsonModel::Float(liquidity.sanitized())
    &&& is_change(field(payload, "mfe_pct"@), entry, ticked.peak_price)
    &&& is_change(field(payload, "mae_pct"@), entry, ticked.low_price)
    &&& field(payload, "state_reason"@) == JsonModel::Str(state_reason)
    &&& field(
        payload,
        "creator_token_amount"@,
    ) == JsonModel::Float(creator_token_amount.sanitized())
    &&& field(payload, "creator_sold"@) == JsonModel::Bool(creator_sold)
    &&& field(payload, "txns_in_zero"@) == JsonModel::Int(txns_in_zero as int)
    &&& field(payload, "txns_in_n"@) == JsonModel::Int(txns_in_n as int)
    &&& next.sessions == run.sessions.insert(
        mint,
        known.described(Some(creator), None, None, None).ticked(
            now,
            price,
            highest_price,
        ),
    )
    &&& next.attempt_counters == run.attempt_counters
    &&& next.session_summary_paths == run.session_summary_paths
    &&& keeps_the_rest(run, next)
}

/// A tick is reported with what was given and with the changes from the entry to the peak and to
/// the low that the session then has.
pub proof fn a_tick_reports_what_was_given(
    run: RunModel,
    mint: Seq<char>,
    creator: Seq<char>,
    price: Double,
    highest_price: Double,
    buys: i64,
    sells: i64,
    liquidity: Double,
    state_reason: Seq<char>,
    creator_token_amount: Double,
    creator_sold: bool,
    txns_in_zero: i64,
    txns_in_n: i64,
    now: Timestamp,
)
    ensures
        tick_is_told(
            run,
            run.session_updated(
                mint,
                creator,
                price,
                highest_price,
                buys,
                sells,
                liquidity,
                state_reason,
                creator_token_amount,
                creator_sold,
                txns_in_zero,
                txns_in_n,
                now,
            ),
            mint,
            creator,
            price,
            highest_price,
            buys,
            sells,
            liquidity,
            state_reason,
            creator_token_amount,
            creator_sold,
            txns_in_zero,
            txns_in_n,
            now,
        ),
{
    let ticked = run.session_of(mint).described(Some(creator), None, None, None).ticked(
        now,
        price,
        highest_price,
    );
    crate::figures::changes_are_measured_from_the_entry(ticked.entry_price(), ticked.peak_price);
    crate::figures::changes_are_measured_from_the_entry(ticked.entry_price(), ticked.low_price);
    let known = run.session_of(mint);
    emission_is_exact(
        run.with_session(mint, ticked),
        "session_update"@,
        crate::events::session_update_model(
            price.sanitized(),
            SessionModel::tick_high(price, highest_price),
            buys,
            sells,
            liquidity,
            ticked.entry_price(),
            ticked.peak_price,
            ticked.low_price,
            state_reason,
            creator_token_amount,
            creator_sold,
            txns_in_zero,
            txns_in_n,
        ),
        Some(known.session_id),
        Some(mint),
        Some(creator),
        now,
    );
    reveal_strlit("price");
    reveal_strlit("highest_price");
    reveal_strlit("buys");
    reveal_strlit("sells");
    reveal_strlit("liquidity");
    reveal_strlit("mfe_pct");
    reveal_strlit("mae_pct");
    reveal_strlit("state_reason");
    reveal_strlit("creator_token_amount");
    reveal_strlit("creator_sold");
    reveal_strlit("txns_in_zero");
    reveal_strlit("txns_in_n");
    assert("price"@.len() == 5);
    assert("highest_price"@.len() == 13);
    assert("buys"@.len() == 4);
    assert("sells"@.len() == 5);
    assert("liquidity"@.len() == 9);
    assert("mfe_pct"@.len() == 7);
    assert("mae_pct"@.len() == 7);
    assert("state_reason"@.len() == 12);
    assert("creator_token_amount"@.len() == 20);
    assert("creator_sold"@.len() == 12);
    assert("txns_in_zero"@.len() == 12);
    assert("txns_in_n"@.len() == 9);
    assert("creator_sold"@[0] == 'c');
    assert("liquidity"@[0] == 'l');
    assert("mae_pct"@[1] == 'a');
    assert("mfe_pct"@[1] == 'f');
    assert("price"@[0] == 'p');
    assert("sells"@[0] == 's');
    assert("state_reason"@[0] == 's');
    assert("txns_in_n"@[0] == 't');
    assert("txns_in_zero"@[0] == 't');
}

/// The first exit signal is reported with what was given and with the change from its price to the
/// best one, and noted with its reason, time and price; a later one only tells the creator.
pub open spec fn exit_signal_is_told(
    run: RunModel,
    next: RunModel,
    mint: Seq<char>,
    creator: Seq<char>,
    exit_reason: Seq<char>,
    signal_price: Double,
    theoretical_best_price: Double,
    now: Timestamp,
) -> bool {
    let known = run.session_of(mint);
    let payload = new_payload(run, next);
    &&& known.exit_signal_at is None ==> {
        &&& logs_event(
            run,
            next,
            "exit_signal"@,
            Some(known.session_id),
            Some(mint),
            Some(creator),
            now,
        )
        &&& next.outbox.len() == run.outbox.len() + 2
        &&& keys_of(payload) =~= set![
            "exit_reason"@,
            "signal_price"@,
            "theoretical_best_price"@,
            "realized_vs_peak_gap_pct"@,
        ]
        &&& field(payload, "exit_reason"@) == JsonModel::Str(exit_reason)
        &&& field(payload, "signal_price"@) == JsonModel::Float(signal_price.sanitized())
        &&& field(
            payload,
            "theoretical_best_price"@,
        ) == JsonModel::Float(theoretical_best_price.sanitized())
        &&& is_change(
            field(payload, "realized_vs_peak_gap_pct"@),
            Some(signal_price),
            Some(theoretical_best_price),
        )
        &&& next.sessions == run.sessions.insert(
            mint,
            known.described(Some(creator), None, None, None).exit_signalled(
                now,
                exit_reason,
                signal_price,
            ),
        )
        &&& next.attempt_counters == run.attempt_counters
        &&& next.session_summary_paths == run.session_summary_paths
        &&& keeps_the_rest(run, next)
    }
    &&& known.exit_signal_at is Some ==> {
        &&& next.outbox == run.outbox
        &&& next.event_counts == run.event_counts
        &&& next.event_index == run.event_index
        &&& next.sessions == run.sessions.insert(
            mint,
            known.described(Some(creator), None, None, None),
        )
        &&& next.attempt_counters == run.attempt_counters
        &&& next.session_summary_paths == run.session_summary_paths
        &&& keeps_the_rest(run, next)
    }
}

/// The first exit signal is reported with what was given and with the change from its price to the
/// best one, and noted with its reason, time and price; a later one only tells the creator.
pub proof fn an_exit_signal_reports_what_was_given(
    run: RunModel,
    mint: Seq<char>,
    creator: Seq<char>,
    exit_reason: Seq<char>,
    signal_price: Double,
    theoretical_best_price: Double,
    now: Timestamp,
)
    ensures
        exit_signal_is_told(
            run,
            run.exit_signalled(
                mint,
                creator,
                exit_reason,
                signal_price,
                theoretical_best_price,
                now,
            ),
            mint,
            creator,
            exit_reason,
            signal_price,
            theoretical_best_price,
            now,
        ),
{
    crate::figures::changes_are_measured_from_the_entry(
        Some(signal_price),
        Some(theoretical_best_price),
    );
    let known = run.session_of(mint);
    emission_is_exact(
        run.with_session(
            mint,
            known.described(Some(creator), None, None, None).exit_signalled(
                now,
                exit_reason,
                signal_price,
            ),
        ),
        "exit_signal"@,
        crate::events::exit_signal_model(exit_reason, signal_price, theoretical_best_price),
        Some(known.session_id),
        Some(mint),
        Some(creator),
        now,
    );
    reveal_strlit("exit_reason");
    reveal_strlit("signal_price");
    reveal_strlit("theoretical_best_price");
    reveal_strlit("realized_vs_peak_gap_pct");
    assert("exit_reason"@.len() == 11);
    assert("signal_price"@.len() == 12);
    assert("theoretical_best_price"@.len() == 22);
    assert("realized_vs_peak_gap_pct"@.len() == 24);
}

/// A filled exit is reported with what was given and timed from the exit signal, and noted with its
/// time and price.
pub open spec fn exit_fill_is_told(
    run: RunModel,
    next: RunModel,
    mint: Seq<char>,
    creator: Seq<char>,
    fill_price: Double,
    fill_qty: Double,
    tx_signature: Seq<char>,
    exit_reason: Seq<char>,
    wallet_balance_after: Double,
    now: Timestamp,
) -> bool {
    let known = run.session_of(mint);
    let payload = new_payload(run, next);
    &&& logs_event(
        run,
        next,
        "exit_fill"@,
        Some(known.session_id),
        Some(mint),
        Some(creator),
        now,
    )
    &&& next.outbox.len() == run.outbox.len() + 2
    &&& keys_of(payload) =~= set![
        "fill_price"@,
        "fill_qty"@,
        "fill_latency_ms"@,
        "tx_signature"@,
        "exit_reason"@,
        "wallet_balance_after"@,
    ]
    &&& field(payload, "fill_price"@) == JsonModel::Float(fill_price.sanitized())
    &&& field(payload, "fill_qty"@) == JsonModel::Float(fill_qty.sanitized())
    &&& field(payload, "fill_latency_ms"@) == JsonModel::Int(
        if known.exit_signal_at is Some {
            latency(known.exit_signal_at->0, now)
        } else {
            0
        },
    )
    &&& field(payload, "tx_signature"@) == JsonModel::Str(tx_signature)
    &&& field(payload, "exit_reason"@) == JsonModel::Str(exit_reason)
    &&& field(
        payload,
        "wallet_balance_after"@,
    ) == JsonModel::Float(wallet_balance_after.sanitized())
    &&& next.sessions == run.sessions.insert(
        mint,
        known.described(Some(creator), None, None, None).exit_filled(now, fill_price),
    )
    &&& next.attempt_counters == run.attempt_counters
    &&& next.session_summary_paths == run.session_summary_paths
    &&& keeps_the_rest(run, next)
}

/// A filled exit is reported with what was given and timed from the exit signal, and noted with its
/// time and price.
pub proof fn an_exit_fill_reports_what_was_given(
    run: RunModel,
    mint: Seq<char>,
    creator: Seq<char>,
    fill_price: Double,
    fill_qty: Double,
    tx_signature: Seq<char>,
    exit_reason: Seq<char>,
    wallet_balance_after: Double,
    now: Timestamp,
)
    ensures
        exit_fill_is_told(
            run,
            run.exit_filled(
                mint,
                creator,
                fill_price,
                fill_qty,
                tx_signature,
                exit_reason,
                wallet_balance_after,
                now,
            ),
            mint,
            creator,
            fill_price,
            fill_qty,
            tx_signature,
            exit_reason,
            wallet_balance_after,
            now,
        ),
{
    let known = run.session_of(mint);
    emission_is_exact(
        run.with_session(
            mint,
            known.described(Some(creator), None, None, None).exit_filled(now, fill_price),
        ),
        "exit_fill"@,
        crate::events::exit_fill_model(
            fill_price,
            fill_qty,
            latency(known.exit_signal_at.unwrap_or(now), now),
            tx_signature,
            exit_reason,
            wallet_balance_after,
        ),
        Some(known.session_id),
        Some(mint),
        Some(creator),
        now,
    );
    reveal_strlit("fill_price");
    reveal_strlit("fill_qty");
    reveal_strlit("fill_latency_ms");
    reveal_strlit("tx_signature");
    reveal_strlit("exit_reason");
    reveal_strlit("wallet_balance_after");
    assert("fill_price"@.len() == 10);
    assert("fill_qty"@.len() == 8);
    assert("fill_latency_ms"@.len() == 15);
    assert("tx_signature"@.len() == 12);
    assert("exit_reason"@.len() == 11);
    assert("wallet_balance_after"@.len() == 20);
}

/// A candidate that the filter lets pass is reported with what is known of it and the given reason;
/// any other leaves the run as it is.
pub proof fn a_candidate_reports_what_is_known(
    run: RunModel,
    observation: ObservationModel,
    reason: Seq<char>,
    filter: Option<Seq<Seq<char>>>,
    now: Timestamp,
)
    ensures
        ({
            let next = run.candidate_emitted(observation, reason, filter, now);
            let payload = new_payload(run, next);
            let key = observation.source_label + "::"@ + observation.creator;
            let wanted = filter is None || exists|i: int|
                0 <= i < filter->0.len() && #[trigger] filter->0[i] == key;
            &&& !wanted ==> next == run
            &&& wanted ==> {
                &&& logs_event(
                    run,
                    next,
                    "creator_candidate"@,
                    None,
                    None,
                    Some(observation.creator),
                    now,
                )
                &&& next.outbox.len() == run.outbox.len() + 2
                &&& keys_of(payload) == set![
                    "candidate_source"@,
                    "score_components"@,
                    "score_total"@,
                    "cohort_size"@,
                    "reason"@,
                    "source_reason"@,
                ]
                &&& field(payload, "candidate_source"@) == JsonModel::Str(observation.source_label)
                &&& field(payload, "score_components"@) == observation.score_components
                &&& field(payload, "score_total"@) == JsonModel::Float(observation.score_total)
                &&& field(payload, "cohort_size"@) == JsonModel::Int(
                    observation.cohort_size as int,
                )
                &&& field(payload, "reason"@) == JsonModel::Str(reason)
                &&& field(payload, "source_reason"@) == JsonModel::Str(observation.reason)
                &&& next.sessions == run.sessions
                &&& next.attempt_counters == run.attempt_counters
                &&& next.session_summary_paths == run.session_summary_paths
                &&& keeps_the_rest(run, next)
            }
        }),
{
    emission_is_exact(
        run,
        "creator_candidate"@,
        observation.payload(reason),
        None,
        None,
        Some(observation.creator),
        now,
    );
    if filter is Some {
        let key = observation.key();
        if filter->0.contains(key) {
            let i = choose|i: int| 0 <= i < filter->0.len() && filter->0[i] == key;
            assert(filter->0[i] == key);
        }
    }
    reveal_strlit("candidate_source");
    reveal_strlit("score_components");
    reveal_strlit("score_total");
    reveal_strlit("cohort_size");
    reveal_strlit("reason");
    reveal_strlit("source_reason");
    assert("candidate_source"@.len() == 16);
    assert("score_components"@.len() == 16);
    assert("score_total"@.len() == 11);
    assert("cohort_size"@.len() == 11);
    assert("reason"@.len() == 6);
    assert("source_reason"@.len() == 13);
    assert("candidate_source"@[0] == 'c');
    assert("cohort_size"@[0] == 'c');
    assert("score_components"@[0] == 's');
    assert("score_total"@[0] == 's');
}

/// The first closing of a position reports its outcome at the time when the exit was filled, else
/// signalled, else at the given time; it marks the session as closed and writes a summary that
/// tells the outcome. A later one only tells the creator.
pub proof fn a_closing_reports_the_outcome(
    run: RunModel,
    mint: Seq<char>,
    creator: Seq<char>,
    stale: bool,
    now: Timestamp,
    summary_now: Timestamp,
)
    ensures
        ({
            let next = run.position_closed(mint, creator, stale, now, summary_now);
            let known = run.session_of(mint);
            let payload = new_payload(run, next);
            let n = run.outbox.len() as int;
            let summary = next.outbox[n + 2];
            let left_at = if known.exit_fill_at is Some {
                known.exit_fill_at
            } else {
                known.exit_signal_at
            };
            let closed_at = if left_at is Some {
                left_at->0
            } else {
                now
            };
            let summed_up_at = if left_at is Some {
                left_at->0
            } else if run.ended_at is Some {
                run.ended_at->0
            } else {
                summary_now
            };
            &&& known.closed ==> {
                &&& next.outbox == run.outbox
                &&& next.event_counts == run.event_counts
                &&& next.event_index == run.event_index
                &&& next.session_summary_paths == run.session_summary_paths
                &&& next.sessions == run.sessions.insert(
                    mint,
                    known.described(Some(creator), None, None, None),
                )
            }
            &&& !known.closed ==> {
                &&& logs_event(
                    run,
                    next,
                    "position_closed"@,
                    Some(known.session_id),
                    Some(mint),
                    Some(creator),
                    closed_at,
                )
                &&& tells_outcome(payload, known, run.started_at, closed_at)
                &&& field(payload, "stale_position_flag"@) == JsonModel::Bool(stale)
                &&& next.sessions == run.sessions.insert(
                    mint,
                    known.described(Some(creator), None, None, None).settled(),
                )
                &&& next.outbox.len() == n + 4
                &&& summary is WriteDocument
                &&& summary->WriteDocument_path.root == run.layout.export_dir.root
                &&& summary->WriteDocument_path.segments == run.layout.export_dir.segments + seq![
                    "sessions"@,
                    known.session_id + ".json"@,
                ]
                &&& tells_outcome(summary->document, known, run.started_at, summed_up_at)
                &&& field(summary->document, "session_id"@) == JsonModel::Str(known.session_id)
                &&& field(summary->document, "mint"@) == JsonModel::Str(known.mint)
                &&& field(summary->document, "creator"@) == JsonModel::Str(creator)
                &&& field(summary->document, "exit_reason"@) == shown(known.exit_reason)
                &&& field(summary->document, "closed_at_utc"@) == JsonModel::Str(
                    summed_up_at.iso(),
                )
                &&& next.session_summary_paths == run.session_summary_paths.push(
                    summary->WriteDocument_path,
                )
                &&& next.outbox.last() == ActionModel::WriteDocument {
                    path: run.state_path,
                    document: next.state_document("session_closed"@),
                }
            }
            &&& next.attempt_counters == run.attempt_counters
            &&& keeps_the_rest(run, next)
        }),
{
    let known = run.session_of(mint);
    if !known.closed {
        let session = known.described(Some(creator), None, None, None);
        let closed_at = session.closed_time(now);
        let closing = run.with_session(mint, session.settled());
        let payload = crate::events::position_closed_model(
            session,
            run.started_at,
            closed_at,
            stale,
        );
        emission_is_exact(
            closing,
            "position_closed"@,
            payload,
            Some(known.session_id),
            Some(mint),
            Some(creator),
            closed_at,
        );
        crate::documents::a_closing_tells_the_outcome(session, run.started_at, closed_at, stale);
        let emitted = closing.emitted(
            "position_closed"@,
            payload,
            Some(known.session_id),
            Some(mint),
            Some(creator),
            closed_at,
        );
        let summed_up_at = session.closed_time(run.ended_at.unwrap_or(summary_now));
        crate::documents::a_summary_tells_the_outcome(emitted, session, summed_up_at);
        let next = run.position_closed(mint, creator, stale, now, summary_now);
        assert(next.outbox.take(run.outbox.len() as int) =~= run.outbox);
        assert(run.summary_path(session).segments =~= run.layout.export_dir.segments + seq![
            "sessions"@,
            known.session_id + ".json"@,
        ]);
    }
}

/// A configuration is written below the configuration directory under the run's name, and listed.
pub proof fn a_configuration_is_written_and_listed(run: RunModel, document: JsonModel)
    ensures
        ({
            let next = run.config_exported(document);
            let n = run.outbox.len() as int;
            &&& next.outbox.len() == n + 2
            &&& next.outbox.take(n) == run.outbox
            &&& next.outbox[n] is WriteDocument
            &&& next.outbox[n]->document == document
            &&& next.outbox[n]->WriteDocument_path.root == run.layout.config_dir.root
            &&& next.outbox[n]->WriteDocument_path.segments == run.layout.config_dir.segments.push(
                run.run_id + ".config.json"@,
            )
            &&& next.outbox[n + 1] == ActionModel::WriteDocument {
                path: run.state_path,
                document: next.state_document("config_exported"@),
            }
            &&& next.config_path == Some(next.outbox[n]->WriteDocument_path)
            &&& run.config_export_path() == next.outbox[n]->WriteDocument_path
            &&& next == RunModel {
                config_path: next.config_path,
                outbox: next.outbox,
                ..run
            }
        }),
{
    let next = run.config_exported(document);
    assert(next.outbox.take(run.outbox.len() as int) =~= run.outbox);
}

/// A snapshot is written below the candidates under the run's name and its label, without spaces,
/// and listed after the others.
pub proof fn a_snapshot_is_written_and_listed(
    run: RunModel,
    label: Seq<char>,
    document: JsonModel,
)
    ensures
        ({
            let next = run.snapshot_exported(label, document);
            let n = run.outbox.len() as int;
            &&& next.outbox.len() == n + 2
            &&& next.outbox.take(n) == run.outbox
            &&& next.outbox[n] is WriteDocument
            &&& next.outbox[n]->document == document
            &&& next.outbox[n]->WriteDocument_path.root == run.layout.export_dir.root
            &&& next.outbox[n]->WriteDocument_path.segments == run.layout.export_dir.segments
                + seq![
                "candidates"@,
                run.run_id + ".candidates."@ + crate::text::replaced(label, ' ', '_') + ".json"@,
            ]
            &&& next.outbox[n + 1] == ActionModel::WriteDocument {
                path: run.state_path,
                document: next.state_document("candidate_snapshot_exported"@),
            }
            &&& next.candidate_snapshot_paths == run.candidate_snapshot_paths.push(
                next.outbox[n]->WriteDocument_path,
            )
            &&& run.snapshot_path(label) == next.outbox[n]->WriteDocument_path
            &&& next == RunModel {
                candidate_snapshot_paths: next.candidate_snapshot_paths,
                outbox: next.outbox,
                ..run
            }
        }),
{
    let next = run.snapshot_exported(label, document);
    assert(next.outbox.take(run.outbox.len() as int) =~= run.outbox);
    assert(run.snapshot_path(label).segments =~= run.layout.export_dir.segments + seq![
        "candidates"@,
        run.run_id + ".candidates."@ + crate::text::replaced(label, ' ', '_') + ".json"@,
    ]);
}

/// Winding up reports, once, each count under its own name, the number of all events with the
/// report itself, and whether the run can be replayed; it notes the end.
pub proof fn winding_up_reports_the_counts(run: RunModel, now: Timestamp)
    ensures
        ({
            let next = run.wound_up(now);
            let payload = new_payload(run, next);
            let counts = run.event_counts;
            &&& run.finalized ==> next == run
            &&& !run.finalized ==> {
                &&& logs_event(run, next, "run_summary"@, None, None, None, now)
                &&& keys_of(payload) == set![
                    "candidate_count"@,
                    "entry_attempt_count"@,
                    "entry_fill_count"@,
                    "position_closed_count"@,
                    "event_count"@,
                    "replayable"@,
                ]
                &&& field(payload, "candidate_count"@) == JsonModel::Int(
                    count_of(counts, "creator_candidate"@) as int,
                )
                &&& field(payload, "entry_attempt_count"@) == JsonModel::Int(
                    count_of(counts, "entry_attempt"@) as int,
                )
                &&& field(payload, "entry_fill_count"@) == JsonModel::Int(
                    count_of(counts, "entry_fill"@) as int,
                )
                &&& field(payload, "position_closed_count"@) == JsonModel::Int(
                    count_of(counts, "position_closed"@) as int,
                )
                &&& field(payload, "event_count"@) == JsonModel::Int(
                    crate::counts::total_of(counts) + 1int,
                )
                &&& field(payload, "replayable"@) == JsonModel::Bool(
                    run.config_path is Some && run.candidate_snapshot_paths.len() != 0,
                )
                &&& next.finalized
                &&& next.ended_at == Some(now)
                &&& next.sessions == run.sessions
                &&& next.outbox.len() == run.outbox.len() + 3
                &&& next.outbox.last() == ActionModel::WriteDocument {
                    path: run.state_path,
                    document: next.state_document("completed"@),
                }
            }
        }),
{
    if !run.finalized {
        let closing = RunModel { finalized: true, ended_at: Some(now), ..run };
        emission_is_exact(
            closing,
            "run_summary"@,
            run.summary_payload(),
            None,
            None,
            None,
            now,
        );
        let next = run.wound_up(now);
        assert(next.outbox.take(run.outbox.len() as int) =~= run.outbox);
        reveal_strlit("candidate_count");
        reveal_strlit("entry_attempt_count");
        reveal_strlit("entry_fill_count");
        reveal_strlit("position_closed_count");
        reveal_strlit("event_count");
        reveal_strlit("replayable");
        assert("candidate_count"@.len() == 15);
        assert("entry_attempt_count"@.len() == 19);
        assert("entry_fill_count"@.len() == 16);
        assert("position_closed_count"@.len() == 21);
        assert("event_count"@.len() == 11);
        assert("replayable"@.len() == 10);
    }
}

} // verus!
