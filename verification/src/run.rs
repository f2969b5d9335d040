//! A run as a mathematical value, and what each operation makes of it.

use crate::actions::ActionModel;
use crate::candidates::ObservationModel;
use crate::clock::Timestamp;
use crate::double::Double;
use crate::json::JsonModel;
use crate::layout::LayoutModel;
use crate::paths::PathModel;
use crate::session::SessionModel;
use vstd::prelude::*;

verus! {

/// A run.
#[verifier::ext_equal]
pub struct RunModel {
    /// Its directories.
    pub layout: LayoutModel,
    /// Its identifier.
    pub run_id: Seq<char>,
    /// The commit that it was built from.
    pub source_commit: Seq<char>,
    /// Its mode, as reported.
    pub mode: Seq<char>,
    /// Its transport, as reported.
    pub transport_mode: Seq<char>,
    /// When it began.
    pub started_at: Timestamp,
    /// When it ended, once it has.
    pub ended_at: Option<Timestamp>,
    /// The role of its host.
    pub host_role: Seq<char>,
    /// Its event log.
    pub event_path: PathModel,
    /// Its state document.
    pub state_path: PathModel,
    /// The exported configuration, once there is one.
    pub config_path: Option<PathModel>,
    /// The exported candidate snapshots, in order.
    pub candidate_snapshot_paths: Seq<PathModel>,
    /// The exported session summaries, in order.
    pub session_summary_paths: Seq<PathModel>,
    /// How many events of each type were emitted.
    pub event_counts: Map<Seq<char>, nat>,
    /// How many events were emitted.
    pub event_index: nat,
    /// How many entries were attempted for each mint.
    pub attempt_counters: Map<Seq<char>, usize>,
    /// The session of each mint.
    pub sessions: Map<Seq<char>, SessionModel>,
    /// Whether the run has been wound up.
    pub finalized: bool,
    /// What was asked of the file system and not yet handed out.
    pub outbox: Seq<ActionModel>,
}

/// The identifier of the `n`th event of a run.
pub open spec fn event_id_for(run_id: Seq<char>, n: nat) -> Seq<char> {
    run_id + "-"@ + crate::text::zero_padded(n, 6)
}

/// A path, or `null` where there is none.
pub open spec fn opt_path_model(path: Option<PathModel>) -> JsonModel {
    match path {
        Some(p) => JsonModel::Path(p),
        None => JsonModel::Null,
    }
}

/// A point in time, or `null` where there is none.
pub open spec fn opt_time_model(time: Option<Timestamp>) -> JsonModel {
    match time {
        Some(t) => JsonModel::Str(t.iso()),
        None => JsonModel::Null,
    }
}

/// A list of paths as a JSON array.
pub open spec fn paths_model(paths: Seq<PathModel>) -> JsonModel {
    JsonModel::Array(paths.map_values(|p: PathModel| JsonModel::Path(p)))
}

/// An object with one more string, where that is known.
pub open spec fn with_known(
    fields: Map<Seq<char>, JsonModel>,
    key: Seq<char>,
    text: Option<Seq<char>>,
) -> Map<Seq<char>, JsonModel> {
    match text {
        Some(t) => fields.insert(key, JsonModel::Str(t)),
        None => fields,
    }
}

impl RunModel {
    /// What holds of every run: each event is counted once, no mint was attempted more often than
    /// there were events, and every session is the one of its mint.
    pub open spec fn wf(self) -> bool {
        &&& self.event_counts.dom().finite()
        &&& crate::counts::total_of(self.event_counts) == self.event_index
        &&& self.event_index <= usize::MAX
        &&& forall|mint: Seq<char>| #[trigger]
            self.attempt_counters.contains_key(mint) ==> self.attempt_counters[mint]
                <= self.event_index
        &&& forall|mint: Seq<char>| #[trigger]
            self.sessions.contains_key(mint) ==> self.owns_session(mint, self.sessions[mint])
    }

    /// Whether a session is one of this run for the given mint.
    pub open spec fn owns_session(self, mint: Seq<char>, session: SessionModel) -> bool {
        &&& session.mint == mint
        &&& session.session_id == crate::session::session_id_for(mint, self.started_at)
    }

    /// Whether one more event can be counted.
    pub open spec fn has_room(self) -> bool {
        self.event_index < usize::MAX
    }

    /// The session of a mint as it is known so far, or a fresh one.
    pub open spec fn session_of(self, mint: Seq<char>) -> SessionModel {
        crate::session::SessionTable::known_or_fresh(self.sessions, mint, self.started_at)
    }

    /// The run with the given session for a mint.
    pub open spec fn with_session(self, mint: Seq<char>, session: SessionModel) -> RunModel {
        RunModel { sessions: self.sessions.insert(mint, session), ..self }
    }

    /// The run with one more request to the file system.
    pub open spec fn asked(self, action: ActionModel) -> RunModel {
        RunModel { outbox: self.outbox.push(action), ..self }
    }

    /// The state document.
    pub open spec fn state_document(self, status: Seq<char>) -> JsonModel {
        JsonModel::Object(
            map![
                "run_id"@ => JsonModel::Str(self.run_id),
                "status"@ => JsonModel::Str(status),
                "source_system"@ => JsonModel::Str("mewx"@),
                "source_commit"@ => JsonModel::Str(self.source_commit),
                "mode"@ => JsonModel::Str(self.mode),
                "transport_mode"@ => JsonModel::Str(self.transport_mode),
                "host_role"@ => JsonModel::Str(self.host_role),
                "started_at_utc"@ => JsonModel::Str(self.started_at.iso()),
                "ended_at_utc"@ => opt_time_model(self.ended_at),
                "paths"@ => JsonModel::Object(
                    map![
                        "runtime_layout"@ => self.layout.metadata(),
                        "raw_events_file"@ => JsonModel::Path(self.event_path),
                        "config_snapshot"@ => opt_path_model(self.config_path),
                        "candidate_snapshots"@ => paths_model(self.candidate_snapshot_paths),
                        "session_summaries"@ => paths_model(self.session_summary_paths),
                    ],
                ),
                "event_counts"@ => crate::counts::counts_json(self.event_counts),
            ],
        )
    }

    /// The run once its state document has been written.
    pub open spec fn wrote_state(self, status: Seq<char>) -> RunModel {
        self.asked(
            ActionModel::WriteDocument {
                path: self.state_path,
                document: self.state_document(status),
            },
        )
    }

    /// The event that a run logs under its current event number.
    pub open spec fn event_document(
        self,
        event_type: Seq<char>,
        payload: JsonModel,
        session_id: Option<Seq<char>>,
        mint: Option<Seq<char>>,
        creator: Option<Seq<char>>,
        ts: Timestamp,
    ) -> JsonModel {
        let header = map![
            "run_id"@ => JsonModel::Str(self.run_id),
            "event_id"@ => JsonModel::Str(event_id_for(self.run_id, self.event_index)),
            "event_type"@ => JsonModel::Str(event_type),
            "ts_utc"@ => JsonModel::Str(ts.iso()),
            "source_system"@ => JsonModel::Str("mewx"@),
            "source_commit"@ => JsonModel::Str(self.source_commit),
            "mode"@ => JsonModel::Str(self.mode),
            "transport_mode"@ => JsonModel::Str(self.transport_mode),
            "payload"@ => payload,
        ];
        JsonModel::Object(
            with_known(
                with_known(with_known(header, "session_id"@, session_id), "mint"@, mint),
                "creator"@,
                creator,
            ),
        )
    }

    /// The run with one more event counted.
    pub open spec fn counted(self, event_type: Seq<char>) -> RunModel {
        RunModel {
            event_index: self.event_index + 1,
            event_counts: self.event_counts.insert(
                event_type,
                crate::counts::count_of(self.event_counts, event_type) + 1,
            ),
            ..self
        }
    }

    /// The run once an event has been emitted: it is counted, logged, and the state is written.
    pub open spec fn emitted(
        self,
        event_type: Seq<char>,
        payload: JsonModel,
        session_id: Option<Seq<char>>,
        mint: Option<Seq<char>>,
        creator: Option<Seq<char>>,
        ts: Timestamp,
    ) -> RunModel {
        let next = self.counted(event_type);
        next.asked(
            ActionModel::AppendLine {
                path: self.event_path,
                line: next.event_document(event_type, payload, session_id, mint, creator, ts),
            },
        ).wrote_state("running"@)
    }

    /// The run once an event of a session has been emitted.
    pub open spec fn emitted_for(
        self,
        event_type: Seq<char>,
        payload: JsonModel,
        session: SessionModel,
        mint: Seq<char>,
        creator: Seq<char>,
        ts: Timestamp,
    ) -> RunModel {
        self.emitted(event_type, payload, Some(session.session_id), Some(mint), Some(creator), ts)
    }

    /// A run that has just begun: its directories are asked for and its state is written.
    pub open spec fn begun(
        layout: LayoutModel,
        run_id: Seq<char>,
        source_commit: Seq<char>,
        mode: Seq<char>,
        transport_mode: Seq<char>,
        started_at: Timestamp,
    ) -> RunModel {
        RunModel {
            layout,
            run_id,
            source_commit,
            mode,
            transport_mode,
            started_at,
            ended_at: None,
            host_role: "windows_runtime"@,
            event_path: layout.raw_dir.join(run_id + ".ndjson"@),
            state_path: layout.export_dir.join(run_id + ".state.json"@),
            config_path: None,
            candidate_snapshot_paths: Seq::empty(),
            session_summary_paths: Seq::empty(),
            event_counts: Map::empty(),
            event_index: 0,
            attempt_counters: Map::empty(),
            sessions: Map::empty(),
            finalized: false,
            outbox: layout.directories().map_values(|p: PathModel| ActionModel::EnsureDir(p)),
        }.wrote_state("initialized"@)
    }

    /// Whether the run has just begun, and nothing was recorded in it yet.
    pub open spec fn just_begun(self) -> bool {
        self == RunModel::begun(
            self.layout,
            self.run_id,
            self.source_commit,
            self.mode,
            self.transport_mode,
            self.started_at,
        )
    }

    /// The run once everything that was asked of the file system has been handed out.
    pub open spec fn handed_out(self) -> RunModel {
        RunModel { outbox: Seq::empty(), ..self }
    }

    /// The run once a document has been exported under a path.
    pub open spec fn wrote(self, path: PathModel, document: JsonModel) -> RunModel {
        self.asked(ActionModel::WriteDocument { path, document })
    }

    /// Where the configuration is exported to.
    pub open spec fn config_export_path(self) -> PathModel {
        self.layout.config_dir.join(self.run_id + ".config.json"@)
    }

    /// The run once its configuration has been exported.
    pub open spec fn config_exported(self, document: JsonModel) -> RunModel {
        let path = self.config_export_path();
        RunModel { config_path: Some(path), ..self.wrote(path, document) }.wrote_state(
            "config_exported"@,
        )
    }

    /// Where a candidate snapshot is exported to: spaces in the label become underscores.
    pub open spec fn snapshot_path(self, label: Seq<char>) -> PathModel {
        self.layout.export_dir.join("candidates"@).join(
            self.run_id + ".candidates."@ + crate::text::replaced(label, ' ', '_') + ".json"@,
        )
    }

    /// A candidate snapshot.
    pub open spec fn snapshot_document(
        self,
        label: Seq<char>,
        source_counts: Map<Seq<char>, nat>,
        observations: Seq<ObservationModel>,
        added_keys: Seq<Seq<char>>,
        removed_keys: Seq<Seq<char>>,
        captured_at: Timestamp,
    ) -> JsonModel {
        JsonModel::Object(
            map![
                "run_id"@ => JsonModel::Str(self.run_id),
                "captured_at_utc"@ => JsonModel::Str(captured_at.iso()),
                "source_commit"@ => JsonModel::Str(self.source_commit),
                "label"@ => JsonModel::Str(label),
                "source_counts"@ => crate::counts::counts_json(source_counts),
                "added_keys"@ => JsonModel::Array(
                    added_keys.map_values(|key: Seq<char>| JsonModel::Str(key)),
                ),
                "removed_keys"@ => JsonModel::Array(
                    removed_keys.map_values(|key: Seq<char>| JsonModel::Str(key)),
                ),
                "observations"@ => JsonModel::Array(
                    observations.map_values(|o: ObservationModel| o.document()),
                ),
            ],
        )
    }

    /// The run once a candidate snapshot has been exported.
    pub open spec fn snapshot_exported(self, label: Seq<char>, document: JsonModel) -> RunModel {
        let path = self.snapshot_path(label);
        RunModel {
            candidate_snapshot_paths: self.candidate_snapshot_paths.push(path),
            ..self.wrote(path, document)
        }.wrote_state("candidate_snapshot_exported"@)
    }

    /// The run once a candidate has been reported, if the filter lets it pass.
    pub open spec fn candidate_emitted(
        self,
        observation: ObservationModel,
        reason_override: Seq<char>,
        filter: Option<Seq<Seq<char>>>,
        now: Timestamp,
    ) -> RunModel {
        if crate::candidates::passes(filter, observation.key()) {
            self.emitted(
                "creator_candidate"@,
                observation.payload(reason_override),
                None,
                None,
                Some(observation.creator),
                now,
            )
        } else {
            self
        }
    }

    /// The run once a list of candidates has been reported, each at its own time.
    pub open spec fn candidates_emitted(
        self,
        observations: Seq<ObservationModel>,
        reason_override: Seq<char>,
        filter: Option<Seq<Seq<char>>>,
        times: Seq<Timestamp>,
    ) -> RunModel
        decreases observations.len(),
    {
        if observations.len() == 0 {
            self
        } else {
            self.candidates_emitted(
                observations.drop_last(),
                reason_override,
                filter,
                times.drop_last(),
            ).candidate_emitted(observations.last(), reason_override, filter, times.last())
        }
    }

    /// The run once a mint has been seen: the first sighting is noted and reported.
    pub open spec fn mint_observed(
        self,
        mint: Seq<char>,
        creator: Seq<char>,
        market: Seq<char>,
        candidate_source: Option<Seq<char>>,
        pool_id: Seq<char>,
        first_seen_slot: u64,
        open_price: Double,
        is_migrated: bool,
        extra: JsonModel,
        now: Timestamp,
    ) -> RunModel {
        let session = self.session_of(mint).described(
            Some(creator),
            Some(market),
            candidate_source,
            Some(pool_id),
        );
        if session.observed_at is Some {
            self.with_session(mint, session)
        } else {
            self.with_session(mint, session.observed(now, open_price)).emitted_for(
                "mint_observed"@,
                crate::events::mint_observed_model(
                    market,
                    pool_id,
                    first_seen_slot,
                    open_price,
                    is_migrated,
                    candidate_source,
                    extra,
                ),
                session,
                mint,
                creator,
                now,
            )
        }
    }

    /// The run once a candidate has been turned down.
    pub open spec fn candidate_rejected(
        self,
        mint: Seq<char>,
        creator: Seq<char>,
        candidate_source: Seq<char>,
        reject_reason: Seq<char>,
        gate_name: Seq<char>,
        details: Option<JsonModel>,
        now: Timestamp,
    ) -> RunModel {
        let session = self.session_of(mint).described(
            Some(creator),
            None,
            Some(candidate_source),
            None,
        );
        self.with_session(mint, session).emitted_for(
            "candidate_rejected"@,
            crate::events::candidate_rejected_model(
                candidate_source,
                reject_reason,
                gate_name,
                details,
            ),
            session,
            mint,
            creator,
            now,
        )
    }

    /// The run once an entry has been signalled: only the first signal is noted and reported.
    pub open spec fn entry_signalled(
        self,
        mint: Seq<char>,
        creator: Seq<char>,
        candidate_source: Seq<char>,
        market: Seq<char>,
        signal_reason: Seq<char>,
        signal_price: Double,
        signal_slot: u64,
        pool_id: Seq<char>,
        now: Timestamp,
    ) -> RunModel {
        let session = self.session_of(mint).described(
            Some(creator),
            Some(market),
            Some(candidate_source),
            Some(pool_id),
        );
        if session.signal_at is Some {
            self.with_session(mint, session)
        } else {
            self.with_session(
                mint,
                session.signalled(now, signal_price, signal_slot),
            ).emitted_for(
                "entry_signal"@,
                crate::events::entry_signal_model(
                    candidate_source,
                    market,
                    signal_reason,
                    signal_price,
                    signal_slot,
                    crate::clock::latency(session.observed_at.unwrap_or(now), now),
                    pool_id,
                ),
                session,
                mint,
                creator,
                now,
            )
        }
    }

    /// The number of the next entry attempt for a mint.
    pub open spec fn next_attempt(self, mint: Seq<char>) -> int {
        if self.attempt_counters.contains_key(mint) {
            self.attempt_counters[mint] + 1
        } else {
            1
        }
    }

    /// The run once an entry has been attempted.
    pub open spec fn entry_attempted(
        self,
        mint: Seq<char>,
        creator: Seq<char>,
        candidate_source: Seq<char>,
        market: Seq<char>,
        route: Seq<char>,
        quote_price: Double,
        expected_tokens_out: Double,
        slippage_bps: u64,
        wallet_available_before: Double,
        tx_strategy: Seq<char>,
        transport_path: Seq<char>,
        priority_fee_lamports: u64,
        tip_lamports: u64,
        retries: u32,
        started_at: Timestamp,
        now: Timestamp,
    ) -> RunModel {
        let index = self.next_attempt(mint) as usize;
        let session = self.session_of(mint).described(
            Some(creator),
            Some(market),
            Some(candidate_source),
            None,
        );
        RunModel { attempt_counters: self.attempt_counters.insert(
            mint,
            index,
        ), ..self }.with_session(
            mint,
            session.attempted(index, started_at),
        ).emitted_for(
            "entry_attempt"@,
            crate::events::entry_attempt_model(
                index,
                market,
                route,
                quote_price,
                expected_tokens_out,
                slippage_bps,
                wallet_available_before,
                tx_strategy,
                transport_path,
                candidate_source,
                priority_fee_lamports,
                tip_lamports,
                retries,
            ),
            session,
            mint,
            creator,
            now,
        )
    }

    /// The run once an entry has been refused.
    pub open spec fn entry_rejected(
        self,
        mint: Seq<char>,
        creator: Seq<char>,
        reject_reason: Seq<char>,
        tx_signature: Seq<char>,
        attempt_index: usize,
        details: Option<JsonModel>,
        now: Timestamp,
    ) -> RunModel {
        let session = self.session_of(mint).described(Some(creator), None, None, None);
        self.with_session(mint, session).emitted_for(
            "entry_rejected"@,
            crate::events::entry_rejected_model(
                attempt_index,
                reject_reason,
                tx_signature,
                details,
            ),
            session,
            mint,
            creator,
            now,
        )
    }

    /// The run once an entry has been filled.
    pub open spec fn entry_filled(
        self,
        mint: Seq<char>,
        creator: Seq<char>,
        fill_price: Double,
        fill_qty: Double,
        tx_signature: Seq<char>,
        wallet_balance_after: Double,
        confirmation_source: Seq<char>,
        attempt_index: usize,
        now: Timestamp,
    ) -> RunModel {
        let session = self.session_of(mint).described(Some(creator), None, None, None);
        self.with_session(mint, session.filled(now, fill_price)).emitted_for(
            "entry_fill"@,
            crate::events::entry_fill_model(
                attempt_index,
                fill_price,
                fill_qty,
                crate::clock::latency(session.attempt_start(attempt_index, now), now),
                tx_signature,
                wallet_balance_after,
                confirmation_source,
            ),
            session,
            mint,
            creator,
            now,
        )
    }

    /// The run after a price tick.
    pub open spec fn session_updated(
        self,
        mint: Seq<char>,
        creator: Seq<char>,
        price: Double,
        highest_price: Double,
        buys: i64,
        sells: i64,
        liquidity: Double,
        state_reason: Seq<char>,
        creator_token_amount: Double,
        creator_sold: bool,
        txns_in_zero: i64,
        txns_in_n: i64,
        now: Timestamp,
    ) -> RunModel {
        let session = self.session_of(mint).described(Some(creator), None, None, None).ticked(
            now,
            price,
            highest_price,
        );
        self.with_session(mint, session).emitted_for(
            "session_update"@,
            crate::events::session_update_model(
                price.sanitized(),
                SessionModel::tick_high(price, highest_price),
                buys,
                sells,
                liquidity,
                session.entry_price(),
                session.peak_price,
                session.low_price,
                state_reason,
                creator_token_amount,
                creator_sold,
                txns_in_zero,
                txns_in_n,
            ),
            session,
            mint,
            creator,
            now,
        )
    }

    /// The run once an exit has been signalled: only the first signal is noted and reported.
    pub open spec fn exit_signalled(
        self,
        mint: Seq<char>,
        creator: Seq<char>,
        exit_reason: Seq<char>,
        signal_price: Double,
        theoretical_best_price: Double,
        now: Timestamp,
    ) -> RunModel {
        let session = self.session_of(mint).described(Some(creator), None, None, None);
        if session.exit_signal_at is Some {
            self.with_session(mint, session)
        } else {
            self.with_session(
                mint,
                session.exit_signalled(now, exit_reason, signal_price),
            ).emitted_for(
                "exit_signal"@,
                crate::events::exit_signal_model(exit_reason, signal_price, theoretical_best_price),
                session,
                mint,
                creator,
                now,
            )
        }
    }

    /// The run once an exit has been filled.
    pub open spec fn exit_filled(
        self,
        mint: Seq<char>,
        creator: Seq<char>,
        fill_price: Double,
        fill_qty: Double,
        tx_signature: Seq<char>,
        exit_reason: Seq<char>,
        wallet_balance_after: Double,
        now: Timestamp,
    ) -> RunModel {
        let session = self.session_of(mint).described(Some(creator), None, None, None);
        self.with_session(mint, session.exit_filled(now, fill_price)).emitted_for(
            "exit_fill"@,
            crate::events::exit_fill_model(
                fill_price,
                fill_qty,
                crate::clock::latency(session.exit_signal_at.unwrap_or(now), now),
                tx_signature,
                exit_reason,
                wallet_balance_after,
            ),
            session,
            mint,
            creator,
            now,
        )
    }

    /// Where a session summary is exported to.
    pub open spec fn summary_path(self, session: SessionModel) -> PathModel {
        self.layout.export_dir.join("sessions"@).join(session.session_id + ".json"@)
    }

    /// A session summary.
    pub open spec fn summary_document(
        self,
        session: SessionModel,
        closed_time: Timestamp,
    ) -> JsonModel {
        JsonModel::Object(
            map![
                "run_id"@ => JsonModel::Str(self.run_id),
                "session_id"@ => JsonModel::Str(session.session_id),
                "mint"@ => JsonModel::Str(session.mint),
                "creator"@ => crate::json::opt_str_model(session.creator),
                "candidate_source"@ => crate::json::opt_str_model(session.candidate_source),
                "market"@ => crate::json::opt_str_model(session.market),
                "pool_id"@ => crate::json::opt_str_model(session.pool_id),
            ].union_prefer_right(
                crate::events::outcome_fields(session, self.started_at, closed_time),
            ).insert("closed_at_utc"@, JsonModel::Str(closed_time.iso())).insert(
                "exit_reason"@,
                crate::json::opt_str_model(session.exit_reason),
            ),
        )
    }

    /// The run once a session has been summed up.
    pub open spec fn summarized(self, session: SessionModel, now: Timestamp) -> RunModel {
        let path = self.summary_path(session);
        let closed_time = session.closed_time(self.ended_at.unwrap_or(now));
        RunModel {
            session_summary_paths: self.session_summary_paths.push(path),
            ..self.wrote(path, self.summary_document(session, closed_time))
        }
    }

    /// The run once a position has been closed: only the first time it is reported and summed up.
    pub open spec fn position_closed(
        self,
        mint: Seq<char>,
        creator: Seq<char>,
        stale_position_flag: bool,
        now: Timestamp,
        summary_now: Timestamp,
    ) -> RunModel {
        let session = self.session_of(mint).described(Some(creator), None, None, None);
        if session.closed {
            self.with_session(mint, session)
        } else {
            let closed_time = session.closed_time(now);
            self.with_session(mint, session.settled()).emitted_for(
                "position_closed"@,
                crate::events::position_closed_model(
                    session,
                    self.started_at,
                    closed_time,
                    stale_position_flag,
                ),
                session,
                mint,
                creator,
                closed_time,
            ).summarized(session, summary_now).wrote_state("session_closed"@)
        }
    }

    /// What a run reports of itself at its end.
    pub open spec fn summary_payload(self) -> JsonModel {
        JsonModel::Object(
            map![
                "candidate_count"@ => JsonModel::Int(
                    crate::counts::count_of(self.event_counts, "creator_candidate"@) as int,
                ),
                "entry_attempt_count"@ => JsonModel::Int(
                    crate::counts::count_of(self.event_counts, "entry_attempt"@) as int,
                ),
                "entry_fill_count"@ => JsonModel::Int(
                    crate::counts::count_of(self.event_counts, "entry_fill"@) as int,
                ),
                "position_closed_count"@ => JsonModel::Int(
                    crate::counts::count_of(self.event_counts, "position_closed"@) as int,
                ),
                "event_count"@ => JsonModel::Int(
                    crate::counts::total_of(self.event_counts) as int + 1,
                ),
                "replayable"@ => JsonModel::Bool(
                    self.config_path is Some && self.candidate_snapshot_paths.len() > 0,
                ),
            ],
        )
    }

    /// The run once it has been wound up: the first time it is reported, then nothing happens.
    pub open spec fn wound_up(self, now: Timestamp) -> RunModel {
        if self.finalized {
            self
        } else {
            RunModel { finalized: true, ended_at: Some(now), ..self }.emitted(
                "run_summary"@,
                self.summary_payload(),
                None,
                None,
                None,
                now,
            ).wrote_state("completed"@)
        }
    }
}

} // verus!
