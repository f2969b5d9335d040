//! What can be recorded in a run, one thing after the other.

use crate::candidates::ObservationModel;
use crate::clock::Timestamp;
use crate::double::Double;
use crate::json::JsonModel;
use crate::run::RunModel;
use vstd::prelude::*;

verus! {

/// Something that is recorded in a run.
pub enum Operation {
    ConfigExported { document: JsonModel },
    SnapshotExported { label: Seq<char>, document: JsonModel },
    CandidateEmitted {
        observation: ObservationModel,
        reason_override: Seq<char>,
        filter: Option<Seq<Seq<char>>>,
        now: Timestamp,
    },
    MintObserved {
        mint: Seq<char>,
        creator: Seq<char>,
        market: Seq<char>,
        known_source: Option<Seq<char>>,
        pool_id: Seq<char>,
        first_seen_slot: u64,
        open_price: Double,
        is_migrated: bool,
        extra: JsonModel,
        now: Timestamp,
    },
    CandidateRejected {
        mint: Seq<char>,
        creator: Seq<char>,
        candidate_source: Seq<char>,
        reject_reason: Seq<char>,
        gate_name: Seq<char>,
        details: Option<JsonModel>,
        now: Timestamp,
    },
    EntrySignalled {
        mint: Seq<char>,
        creator: Seq<char>,
        candidate_source: Seq<char>,
        market: Seq<char>,
        signal_reason: Seq<char>,
        signal_price: Double,
        signal_slot: u64,
        pool_id: Seq<char>,
        now: Timestamp,
    },
    EntryAttempted {
        mint: Seq<char>,
        creator: Seq<char>,
        candidate_source: Seq<char>,
        market: Seq<char>,
        route: Seq<char>,
        quote_price: Double,
        expected_tokens_out: Double,
        slippage_bps: u64,
        wallet_available_before: Double,
        tx_strategy: Seq<char>,
        transport_path: Seq<char>,
        priority_fee_lamports: u64,
        tip_lamports: u64,
        retries: u32,
        started_at: Timestamp,
        now: Timestamp,
    },
    EntryRejected {
        mint: Seq<char>,
        creator: Seq<char>,
        reject_reason: Seq<char>,
        tx_signature: Seq<char>,
        attempt_index: usize,
        details: Option<JsonModel>,
        now: Timestamp,
    },
    EntryFilled {
        mint: Seq<char>,
        creator: Seq<char>,
        fill_price: Double,
        fill_qty: Double,
        tx_signature: Seq<char>,
        wallet_balance_after: Double,
        confirmation_source: Seq<char>,
        attempt_index: usize,
        now: Timestamp,
    },
    SessionUpdated {
        mint: Seq<char>,
        creator: Seq<char>,
        price: Double,
        highest_price: Double,
        buys: i64,
        sells: i64,
        liquidity: Double,
        state_reason: Seq<char>,
        creator_token_amount: Double,
        creator_sold: bool,
        txns_in_zero: i64,
        txns_in_n: i64,
        now: Timestamp,
    },
    ExitSignalled {
        mint: Seq<char>,
        creator: Seq<char>,
        exit_reason: Seq<char>,
        signal_price: Double,
        theoretical_best_price: Double,
        now: Timestamp,
    },
    ExitFilled {
        mint: Seq<char>,
        creator: Seq<char>,
        fill_price: Double,
        fill_qty: Double,
        tx_signature: Seq<char>,
        exit_reason: Seq<char>,
        wallet_balance_after: Double,
        now: Timestamp,
    },
    PositionClosed {
        mint: Seq<char>,
        creator: Seq<char>,
        stale_position_flag: bool,
        now: Timestamp,
        summary_now: Timestamp,
    },
    WoundUp { now: Timestamp },
}

impl Operation {
    /// The mint that the operation is about, if it is about one.
    pub open spec fn mint(self) -> Option<Seq<char>> {
        match self {
            Operation::ConfigExported { .. } => None,
            Operation::SnapshotExported { .. } => None,
            Operation::CandidateEmitted { .. } => None,
            Operation::WoundUp { .. } => None,
            Operation::MintObserved { mint, .. } => Some(mint),
            Operation::CandidateRejected { mint, .. } => Some(mint),
            Operation::EntrySignalled { mint, .. } => Some(mint),
            Operation::EntryAttempted { mint, .. } => Some(mint),
            Operation::EntryRejected { mint, .. } => Some(mint),
            Operation::EntryFilled { mint, .. } => Some(mint),
            Operation::SessionUpdated { mint, .. } => Some(mint),
            Operation::ExitSignalled { mint, .. } => Some(mint),
            Operation::ExitFilled { mint, .. } => Some(mint),
            Operation::PositionClosed { mint, .. } => Some(mint),
        }
    }
}

impl RunModel {
    /// The run once an operation has been recorded.
    pub open spec fn after(self, operation: Operation) -> RunModel {
        match operation {
            Operation::ConfigExported { document } => self.config_exported(document),
            Operation::SnapshotExported { label, document } => self.snapshot_exported(
                label,
                document,
            ),
            Operation::CandidateEmitted {
                observation,
                reason_override,
                filter,
                now,
            } => self.candidate_emitted(
                observation,
                reason_override,
                filter,
                now,
            ),
            Operation::MintObserved {
                mint,
                creator,
                market,
                known_source,
                pool_id,
                first_seen_slot,
                open_price,
                is_migrated,
                extra,
                now,
            } => self.mint_observed(
                mint,
                creator,
                market,
                known_source,
                pool_id,
                first_seen_slot,
                open_price,
                is_migrated,
                extra,
                now,
            ),
            Operation::CandidateRejected {
                mint,
                creator,
                candidate_source,
                reject_reason,
                gate_name,
                details,
                now,
            } => self.candidate_rejected(
                mint,
                creator,
                candidate_source,
                reject_reason,
                gate_name,
                details,
                now,
            ),
            Operation::EntrySignalled {
                mint,
                creator,
                candidate_source,
                market,
                signal_reason,
                signal_price,
                signal_slot,
                pool_id,
                now,
            } => self.entry_signalled(
                mint,
                creator,
                candidate_source,
                market,
                signal_reason,
                signal_price,
                signal_slot,
                pool_id,
                now,
            ),
            Operation::EntryAttempted {
                mint,
                creator,
                candidate_source,
                market,
                route,
                quote_price,
                expected_tokens_out,
                slippage_bps,
                wallet_available_before,
                tx_strategy,
                transport_path,
                priority_fee_lamports,
                tip_lamports,
                retries,
                started_at,
                now,
            } => self.entry_attempted(
                mint,
                creator,
                candidate_source,
                market,
                route,
                quote_price,
                expected_tokens_out,
                slippage_bps,
                wallet_available_before,
                tx_strategy,
                transport_path,
                priority_fee_lamports,
                tip_lamports,
                retries,
                started_at,
                now,
            ),
            Operation::EntryRejected {
                mint,
                creator,
                reject_reason,
                tx_signature,
                attempt_index,
                details,
                now,
            } => self.entry_rejected(
                mint,
                creator,
                reject_reason,
                tx_signature,
                attempt_index,
                details,
                now,
            ),
            Operation::EntryFilled {
                mint,
                creator,
                fill_price,
                fill_qty,
                tx_signature,
                wallet_balance_after,
                confirmation_source,
                attempt_index,
                now,
            } => self.entry_filled(
                mint,
                creator,
                fill_price,
                fill_qty,
                tx_signature,
                wallet_balance_after,
                confirmation_source,
                attempt_index,
                now,
            ),
            Operation::SessionUpdated {
                mint,
                creator,
                price,
                highest_price,
                buys,
                sells,
                liquidity,
                state_reason,
                creator_token_amount,
                creator_sold,
                txns_in_zero,
                txns_in_n,
                now,
            } => self.session_updated(
                mint,
                creator,
                price,
                highest_price,
                buys,
                sells,
                liquidity,
                state_reason,
                creator_token_amount,
                creator_sold,
                txns_in_zero,
                txns_in_n,
                now,
            ),
            Operation::ExitSignalled {
                mint,
                creator,
                exit_reason,
                signal_price,
                theoretical_best_price,
                now,
            } => self.exit_signalled(
                mint,
                creator,
                exit_reason,
                signal_price,
                theoretical_best_price,
                now,
            ),
            Operation::ExitFilled {
                mint,
                creator,
                fill_price,
                fill_qty,
                tx_signature,
                exit_reason,
                wallet_balance_after,
                now,
            } => self.exit_filled(
                mint,
                creator,
                fill_price,
                fill_qty,
                tx_signature,
                exit_reason,
                wallet_balance_after,
                now,
            ),
            Operation::PositionClosed {
                mint,
                creator,
                stale_position_flag,
                now,
                summary_now,
            } => self.position_closed(
                mint,
                creator,
                stale_position_flag,
                now,
                summary_now,
            ),
            Operation::WoundUp { now } => self.wound_up(now),
        }
    }

    /// The run once a list of operations has been recorded, in order.
    pub open spec fn after_all(self, operations: Seq<Operation>) -> RunModel
        decreases operations.len(),
    {
        if operations.len() == 0 {
            self
        } else {
            self.after_all(operations.drop_last()).after(operations.last())
        }
    }

    /// Whether two runs are the same one at different times: what identifies it has not changed.
    pub open spec fn same_run(self, later: RunModel) -> bool {
        &&& later.layout == self.layout
        &&& later.run_id == self.run_id
        &&& later.source_commit == self.source_commit
        &&& later.mode == self.mode
        &&& later.transport_mode == self.transport_mode
        &&& later.started_at == self.started_at
        &&& later.host_role == self.host_role
        &&& later.event_path == self.event_path
        &&& later.state_path == self.state_path
    }
}

} // verus!
