//! The payloads of the events that a run emits.

use crate::clock::Timestamp;
use crate::double::{as_f64, pct_change, Double};
use crate::json::{
    json_opt_float, json_str, opt_float_model, opt_str_model, Json, JsonModel, ObjectBuilder,
};
use crate::session::{SessionModel, SessionState};
use vstd::prelude::*;

verus! {

/// The number that an attempt is reported under: attempts count from one.
pub open spec fn reported_attempt(index: usize) -> usize {
    if index == 0 {
        1
    } else {
        index
    }
}

/// The number that an attempt is reported under.
pub fn attempt_number(index: usize) -> (number: usize)
    ensures
        number == reported_attempt(index),
{
    if index == 0 {
        1
    } else {
        index
    }
}

/// A JSON string, or `null` where there is none.
pub fn json_opt_slice(s: Option<&str>) -> (out: Json)
    ensures
        out.model() == opt_str_model(crate::session::opt_str_view(s)),
{
    match s {
        Some(text) => json_str(text),
        None => Json::Null,
    }
}

/// The fields of an object together with those of `extra`, if there is one and it is an object.
pub open spec fn merged_option(
    fields: Map<Seq<char>, JsonModel>,
    extra: Option<JsonModel>,
) -> Map<Seq<char>, JsonModel> {
    match extra {
        Some(document) => crate::json::merged(fields, document),
        None => fields,
    }
}

/// The model of an optional document.
pub open spec fn option_model(document: Option<Json>) -> Option<JsonModel> {
    match document {
        Some(json) => Some(json.model()),
        None => None,
    }
}

/// What is reported of a mint seen for the first time.
pub open spec fn mint_observed_model(
    market: Seq<char>,
    pool_id: Seq<char>,
    first_seen_slot: u64,
    open_price: Double,
    is_migrated: bool,
    candidate_source: Option<Seq<char>>,
    extra: JsonModel,
) -> JsonModel {
    JsonModel::Object(
        crate::json::merged(
            map![
                "market"@ => JsonModel::Str(market),
                "pool_id"@ => JsonModel::Str(pool_id),
                "first_seen_slot"@ => JsonModel::Int(first_seen_slot as int),
                "open_price"@ => JsonModel::Float(open_price.sanitized()),
                "is_migrated"@ => JsonModel::Bool(is_migrated),
                "candidate_source"@ => opt_str_model(candidate_source),
            ],
            extra,
        ),
    )
}

/// What is reported of a mint seen for the first time.
pub fn mint_observed_payload(
    market: &str,
    pool_id: &str,
    first_seen_slot: u64,
    open_price: Double,
    is_migrated: bool,
    candidate_source: Option<&str>,
    extra: Json,
) -> (payload: Json)
    ensures
        payload.model() == mint_observed_model(
            market@,
            pool_id@,
            first_seen_slot,
            open_price,
            is_migrated,
            crate::session::opt_str_view(candidate_source),
            extra.model(),
        ),
{
    let mut o = ObjectBuilder::new();
    o.put("market", json_str(market));
    o.put("pool_id", json_str(pool_id));
    o.put("first_seen_slot", Json::UInt(first_seen_slot));
    o.put("open_price", Json::Float(as_f64(open_price)));
    o.put("is_migrated", Json::Bool(is_migrated));
    o.put("candidate_source", json_opt_slice(candidate_source));
    o.merge(extra);
    o.build()
}

/// What is reported of a candidate that a gate turned down.
pub open spec fn candidate_rejected_model(
    candidate_source: Seq<char>,
    reject_reason: Seq<char>,
    gate_name: Seq<char>,
    details: Option<JsonModel>,
) -> JsonModel {
    JsonModel::Object(
        merged_option(
            map![
                "candidate_source"@ => JsonModel::Str(candidate_source),
                "reject_reason"@ => JsonModel::Str(reject_reason),
                "gate_name"@ => JsonModel::Str(gate_name),
            ],
            details,
        ),
    )
}

/// What is reported of a candidate that a gate turned down.
pub fn candidate_rejected_payload(
    candidate_source: &str,
    reject_reason: &str,
    gate_name: &str,
    details: Option<Json>,
) -> (payload: Json)
    ensures
        payload.model() == candidate_rejected_model(
            candidate_source@,
            reject_reason@,
            gate_name@,
            option_model(details),
        ),
{
    let mut o = ObjectBuilder::new();
    o.put("candidate_source", json_str(candidate_source));
    o.put("reject_reason", json_str(reject_reason));
    o.put("gate_name", json_str(gate_name));
    if let Some(document) = details {
        o.merge(document);
    }
    o.build()
}

/// What is reported of a signal to enter.
pub open spec fn entry_signal_model(
    candidate_source: Seq<char>,
    market: Seq<char>,
    signal_reason: Seq<char>,
    signal_price: Double,
    signal_slot: u64,
    signal_latency_ms: int,
    pool_id: Seq<char>,
) -> JsonModel {
    JsonModel::Object(
        map![
            "candidate_source"@ => JsonModel::Str(candidate_source),
            "market"@ => JsonModel::Str(market),
            "signal_reason"@ => JsonModel::Str(signal_reason),
            "signal_price"@ => JsonModel::Float(signal_price.sanitized()),
            "signal_slot"@ => JsonModel::Int(signal_slot as int),
            "signal_latency_ms"@ => JsonModel::Int(signal_latency_ms),
            "pool_id"@ => JsonModel::Str(pool_id),
        ],
    )
}

/// What is reported of a signal to enter.
pub fn entry_signal_payload(
    candidate_source: &str,
    market: &str,
    signal_reason: &str,
    signal_price: Double,
    signal_slot: u64,
    signal_latency_ms: i64,
    pool_id: &str,
) -> (payload: Json)
    ensures
        payload.model() == entry_signal_model(
            candidate_source@,
            market@,
            signal_reason@,
            signal_price,
            signal_slot,
            signal_latency_ms as int,
            pool_id@,
        ),
{
    let mut o = ObjectBuilder::new();
    o.put("candidate_source", json_str(candidate_source));
    o.put("market", json_str(market));
    o.put("signal_reason", json_str(signal_reason));
    o.put("signal_price", Json::Float(as_f64(signal_price)));
    o.put("signal_slot", Json::UInt(signal_slot));
    o.put("signal_latency_ms", Json::Int(signal_latency_ms));
    o.put("pool_id", json_str(pool_id));
    o.build()
}

/// What is reported of an attempt to enter.
pub open spec fn entry_attempt_model(
    attempt_index: usize,
    market: Seq<char>,
    route: Seq<char>,
    quote_price: Double,
    expected_tokens_out: Double,
    slippage_bps: u64,
    wallet_available_before: Double,
    tx_strategy: Seq<char>,
    transport_path: Seq<char>,
    candidate_source: Seq<char>,
    priority_fee_lamports: u64,
    tip_lamports: u64,
    retries: u32,
) -> JsonModel {
    JsonModel::Object(
        map![
            "attempt_index"@ => JsonModel::Int(attempt_index as int),
            "market"@ => JsonModel::Str(market),
            "route"@ => JsonModel::Str(route),
            "quote_price"@ => JsonModel::Float(quote_price.sanitized()),
            "expected_tokens_out"@ => JsonModel::Float(expected_tokens_out.sanitized()),
            "slippage_bps"@ => JsonModel::Int(slippage_bps as int),
            "wallet_available_before"@ => JsonModel::Float(wallet_available_before.sanitized()),
            "tx_strategy"@ => JsonModel::Str(tx_strategy),
            "transport_path"@ => JsonModel::Str(transport_path),
            "candidate_source"@ => JsonModel::Str(candidate_source),
            "priority_fee_lamports"@ => JsonModel::Int(priority_fee_lamports as int),
            "tip_lamports"@ => JsonModel::Int(tip_lamports as int),
            "retries"@ => JsonModel::Int(retries as int),
        ],
    )
}

/// What is reported of an attempt to enter.
pub fn entry_attempt_payload(
    attempt_index: usize,
    market: &str,
    route: &str,
    quote_price: Double,
    expected_tokens_out: Double,
    slippage_bps: u64,
    wallet_available_before: Double,
    tx_strategy: &str,
    transport_path: &str,
    candidate_source: &str,
    priority_fee_lamports: u64,
    tip_lamports: u64,
    retries: u32,
) -> (payload: Json)
    ensures
        payload.model() == entry_attempt_model(
            attempt_index,
            market@,
            route@,
            quote_price,
            expected_tokens_out,
            slippage_bps,
            wallet_available_before,
            tx_strategy@,
            transport_path@,
            candidate_source@,
            priority_fee_lamports,
            tip_lamports,
            retries,
        ),
{
    let mut o = ObjectBuilder::new();
    o.put("attempt_index", Json::UInt(attempt_index as u64));
    o.put("market", json_str(market));
    o.put("route", json_str(route));
    o.put("quote_price", Json::Float(as_f64(quote_price)));
    o.put("expected_tokens_out", Json::Float(as_f64(expected_tokens_out)));
    o.put("slippage_bps", Json::UInt(slippage_bps));
    o.put("wallet_available_before", Json::Float(as_f64(wallet_available_before)));
    o.put("tx_strategy", json_str(tx_strategy));
    o.put("transport_path", json_str(transport_path));
    o.put("candidate_source", json_str(candidate_source));
    o.put("priority_fee_lamports", Json::UInt(priority_fee_lamports));
    o.put("tip_lamports", Json::UInt(tip_lamports));
    o.put("retries", Json::UInt(retries as u64));
    o.build()
}

/// What is reported of an entry that was refused.
pub open spec fn entry_rejected_model(
    attempt_index: usize,
    reject_reason: Seq<char>,
    tx_signature: Seq<char>,
    details: Option<JsonModel>,
) -> JsonModel {
    JsonModel::Object(
        merged_option(
            map![
                "attempt_index"@ => JsonModel::Int(reported_attempt(attempt_index) as int),
                "reject_reason"@ => JsonModel::Str(reject_reason),
                "tx_signature"@ => JsonModel::Str(tx_signature),
            ],
            details,
        ),
    )
}

/// What is reported of an entry that was refused.
pub fn entry_rejected_payload(
    attempt_index: usize,
    reject_reason: &str,
    tx_signature: &str,
    details: Option<Json>,
) -> (payload: Json)
    ensures
        payload.model() == entry_rejected_model(
            attempt_index,
            reject_reason@,
            tx_signature@,
            option_model(details),
        ),
{
    let mut o = ObjectBuilder::new();
    o.put("attempt_index", Json::UInt(attempt_number(attempt_index) as u64));
    o.put("reject_reason", json_str(reject_reason));
    o.put("tx_signature", json_str(tx_signature));
    if let Some(document) = details {
        o.merge(document);
    }
    o.build()
}

/// What is reported of a filled entry.
pub open spec fn entry_fill_model(
    attempt_index: usize,
    fill_price: Double,
    fill_qty: Double,
    fill_latency_ms: int,
    tx_signature: Seq<char>,
    wallet_balance_after: Double,
    confirmation_source: Seq<char>,
) -> JsonModel {
    JsonModel::Object(
        map![
            "attempt_index"@ => JsonModel::Int(reported_attempt(attempt_index) as int),
            "fill_price"@ => JsonModel::Float(fill_price.sanitized()),
            "fill_qty"@ => JsonModel::Float(fill_qty.sanitized()),
            "fill_latency_ms"@ => JsonModel::Int(fill_latency_ms),
            "tx_signature"@ => JsonModel::Str(tx_signature),
            "wallet_balance_after"@ => JsonModel::Float(wallet_balance_after.sanitized()),
            "confirmation_source"@ => JsonModel::Str(confirmation_source),
        ],
    )
}

/// What is reported of a filled entry.
pub fn entry_fill_payload(
    attempt_index: usize,
    fill_price: Double,
    fill_qty: Double,
    fill_latency_ms: i64,
    tx_signature: &str,
    wallet_balance_after: Double,
    confirmation_source: &str,
) -> (payload: Json)
    ensures
        payload.model() == entry_fill_model(
            attempt_index,
            fill_price,
            fill_qty,
            fill_latency_ms as int,
            tx_signature@,
            wallet_balance_after,
            confirmation_source@,
        ),
{
    let mut o = ObjectBuilder::new();
    o.put("attempt_index", Json::UInt(attempt_number(attempt_index) as u64));
    o.put("fill_price", Json::Float(as_f64(fill_price)));
    o.put("fill_qty", Json::Float(as_f64(fill_qty)));
    o.put("fill_latency_ms", Json::Int(fill_latency_ms));
    o.put("tx_signature", json_str(tx_signature));
    o.put("wallet_balance_after", Json::Float(as_f64(wallet_balance_after)));
    o.put("confirmation_source", json_str(confirmation_source));
    o.build()
}

/// What is reported of a price tick.
pub open spec fn session_update_model(
    price: Double,
    highest_price: Double,
    buys: i64,
    sells: i64,
    liquidity: Double,
    entry_basis: Option<Double>,
    peak_price: Option<Double>,
    low_price: Option<Double>,
    state_reason: Seq<char>,
    creator_token_amount: Double,
    creator_sold: bool,
    txns_in_zero: i64,
    txns_in_n: i64,
) -> JsonModel {
    JsonModel::Object(
        map![
            "price"@ => JsonModel::Float(price),
            "highest_price"@ => JsonModel::Float(highest_price),
            "buys"@ => JsonModel::Int(buys as int),
            "sells"@ => JsonModel::Int(sells as int),
            "liquidity"@ => JsonModel::Float(liquidity.sanitized()),
            "mfe_pct"@ => JsonModel::Percent(
                crate::double::percent_change(entry_basis, peak_price),
            ),
            "mae_pct"@ => JsonModel::Percent(crate::double::percent_change(entry_basis, low_price)),
            "state_reason"@ => JsonModel::Str(state_reason),
            "creator_token_amount"@ => JsonModel::Float(creator_token_amount.sanitized()),
            "creator_sold"@ => JsonModel::Bool(creator_sold),
            "txns_in_zero"@ => JsonModel::Int(txns_in_zero as int),
            "txns_in_n"@ => JsonModel::Int(txns_in_n as int),
        ],
    )
}

/// What is reported of a price tick.
pub fn session_update_payload(
    price: Double,
    highest_price: Double,
    buys: i64,
    sells: i64,
    liquidity: Double,
    entry_basis: Option<Double>,
    peak_price: Option<Double>,
    low_price: Option<Double>,
    state_reason: &str,
    creator_token_amount: Double,
    creator_sold: bool,
    txns_in_zero: i64,
    txns_in_n: i64,
) -> (payload: Json)
    ensures
        payload.model() == session_update_model(
            price,
            highest_price,
            buys,
            sells,
            liquidity,
            entry_basis,
            peak_price,
            low_price,
            state_reason@,
            creator_token_amount,
            creator_sold,
            txns_in_zero,
            txns_in_n,
        ),
{
    let mut o = ObjectBuilder::new();
    o.put("price", Json::Float(price));
    o.put("highest_price", Json::Float(highest_price));
    o.put("buys", Json::Int(buys));
    o.put("sells", Json::Int(sells));
    o.put("liquidity", Json::Float(as_f64(liquidity)));
    o.put("mfe_pct", Json::Percent(pct_change(entry_basis, peak_price)));
    o.put("mae_pct", Json::Percent(pct_change(entry_basis, low_price)));
    o.put("state_reason", json_str(state_reason));
    o.put("creator_token_amount", Json::Float(as_f64(creator_token_amount)));
    o.put("creator_sold", Json::Bool(creator_sold));
    o.put("txns_in_zero", Json::Int(txns_in_zero));
    o.put("txns_in_n", Json::Int(txns_in_n));
    o.build()
}

/// What is reported of a signal to leave.
pub open spec fn exit_signal_model(
    exit_reason: Seq<char>,
    signal_price: Double,
    theoretical_best_price: Double,
) -> JsonModel {
    JsonModel::Object(
        map![
            "exit_reason"@ => JsonModel::Str(exit_reason),
            "signal_price"@ => JsonModel::Float(signal_price.sanitized()),
            "theoretical_best_price"@ => JsonModel::Float(theoretical_best_price.sanitized()),
            "realized_vs_peak_gap_pct"@ => JsonModel::Percent(
                crate::double::percent_change(Some(signal_price), Some(theoretical_best_price)),
            ),
        ],
    )
}

/// What is reported of a signal to leave.
pub fn exit_signal_payload(
    exit_reason: &str,
    signal_price: Double,
    theoretical_best_price: Double,
) -> (payload: Json)
    ensures
        payload.model() == exit_signal_model(exit_reason@, signal_price, theoretical_best_price),
{
    let mut o = ObjectBuilder::new();
    o.put("exit_reason", json_str(exit_reason));
    o.put("signal_price", Json::Float(as_f64(signal_price)));
    o.put("theoretical_best_price", Json::Float(as_f64(theoretical_best_price)));
    o.put(
        "realized_vs_peak_gap_pct",
        Json::Percent(pct_change(Some(signal_price), Some(theoretical_best_price))),
    );
    o.build()
}

/// What is reported of a filled exit.
pub open spec fn exit_fill_model(
    fill_price: Double,
    fill_qty: Double,
    fill_latency_ms: int,
    tx_signature: Seq<char>,
    exit_reason: Seq<char>,
    wallet_balance_after: Double,
) -> JsonModel {
    JsonModel::Object(
        map![
            "fill_price"@ => JsonModel::Float(fill_price.sanitized()),
            "fill_qty"@ => JsonModel::Float(fill_qty.sanitized()),
            "fill_latency_ms"@ => JsonModel::Int(fill_latency_ms),
            "tx_signature"@ => JsonModel::Str(tx_signature),
            "exit_reason"@ => JsonModel::Str(exit_reason),
            "wallet_balance_after"@ => JsonModel::Float(wallet_balance_after.sanitized()),
        ],
    )
}

/// What is reported of a filled exit.
pub fn exit_fill_payload(
    fill_price: Double,
    fill_qty: Double,
    fill_latency_ms: i64,
    tx_signature: &str,
    exit_reason: &str,
    wallet_balance_after: Double,
) -> (payload: Json)
    ensures
        payload.model() == exit_fill_model(
            fill_price,
            fill_qty,
            fill_latency_ms as int,
            tx_signature@,
            exit_reason@,
            wallet_balance_after,
        ),
{
    let mut o = ObjectBuilder::new();
    o.put("fill_price", Json::Float(as_f64(fill_price)));
    o.put("fill_qty", Json::Float(as_f64(fill_qty)));
    o.put("fill_latency_ms", Json::Int(fill_latency_ms));
    o.put("tx_signature", json_str(tx_signature));
    o.put("exit_reason", json_str(exit_reason));
    o.put("wallet_balance_after", Json::Float(as_f64(wallet_balance_after)));
    o.build()
}

/// What a closed session gained and how long it took.
pub open spec fn outcome_fields(
    session: SessionModel,
    started_at: Timestamp,
    closed_time: Timestamp,
) -> Map<Seq<char>, JsonModel> {
    let entry = session.entry_price();
    map![
        "entry_price"@ => opt_float_model(entry),
        "exit_price"@ => opt_float_model(session.exit_price()),
        "realized_return_pct"@ => JsonModel::Percent(
            crate::double::percent_change(entry, session.exit_price()),
        ),
        "mfe_pct"@ => JsonModel::Percent(crate::double::percent_change(entry, session.top_price())),
        "mae_pct"@ => JsonModel::Percent(
            crate::double::percent_change(entry, session.bottom_price()),
        ),
        "time_to_peak_ms"@ => JsonModel::Int(
            session.peak_time(started_at).millis_after(session.fill_time(started_at)),
        ),
        "session_duration_ms"@ => JsonModel::Int(
            closed_time.millis_after(session.fill_time(started_at)),
        ),
    ]
}

/// Adds what a closed session gained and how long it took.
pub fn put_outcome(
    o: &mut ObjectBuilder,
    session: &SessionState,
    started_at: Timestamp,
    closed_time: Timestamp,
)
    ensures
        final(o)@ == old(o)@.union_prefer_right(
            outcome_fields(session.model(), started_at, closed_time),
        ),
{
    let entry_price = session.entry_price();
    let exit_price = session.exit_price();
    let fill_time = session.fill_time(started_at);
    let peak_time = session.peak_time(started_at);
    o.put("entry_price", json_opt_float(entry_price));
    o.put("exit_price", json_opt_float(exit_price));
    o.put("realized_return_pct", Json::Percent(pct_change(entry_price, exit_price)));
    o.put("mfe_pct", Json::Percent(pct_change(entry_price, session.top_price())));
    o.put("mae_pct", Json::Percent(pct_change(entry_price, session.bottom_price())));
    o.put("time_to_peak_ms", Json::Int(peak_time.millis_since(fill_time)));
    o.put("session_duration_ms", Json::Int(closed_time.millis_since(fill_time)));
    assert(o@ =~= old(o)@.union_prefer_right(
        outcome_fields(session.model(), started_at, closed_time),
    ));
}

/// What is reported of a closed position.
pub open spec fn position_closed_model(
    session: SessionModel,
    started_at: Timestamp,
    closed_time: Timestamp,
    stale_position_flag: bool,
) -> JsonModel {
    JsonModel::Object(
        outcome_fields(session, started_at, closed_time).insert(
            "stale_position_flag"@,
            JsonModel::Bool(stale_position_flag),
        ),
    )
}

/// What is reported of a closed position.
pub fn position_closed_payload(
    session: &SessionState,
    started_at: Timestamp,
    closed_time: Timestamp,
    stale_position_flag: bool,
) -> (payload: Json)
    ensures
        payload.model() == position_closed_model(
            session.model(),
            started_at,
            closed_time,
            stale_position_flag,
        ),
{
    let mut o = ObjectBuilder::new();
    put_outcome(&mut o, session, started_at, closed_time);
    assert(o@ =~= outcome_fields(session.model(), started_at, closed_time));
    o.put("stale_position_flag", Json::Bool(stale_position_flag));
    o.build()
}

} // verus!
