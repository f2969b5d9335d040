//! The recorder of a run: it keeps the sessions, numbers the events and says what is to be written.

use crate::actions::{Action, ActionModel};
use crate::candidates::{
    filter_view, key_passes, observations_view, passes, passing, passing_grows,
    CandidateObservation, CandidateSelectionReport,
};
use crate::clock::{isoformat_utc, latency_ms, Timestamp};
use crate::counts::{counts_model, json_counts, Counters, NamedCount};
use crate::double::Double;
use crate::events::{
    candidate_rejected_payload, entry_attempt_payload, entry_fill_payload, entry_rejected_payload,
    entry_signal_payload, exit_fill_payload, exit_signal_payload, mint_observed_payload,
    option_model, position_closed_payload, put_outcome, session_update_payload,
};
use crate::export::{exportable, put_settings, ExportEnvironment};
use crate::identity::{host_name, run_id, source_commit};
use crate::json::{json_opt_str, json_paths, json_str, json_strings, Json, ObjectBuilder};
use crate::layout::{LayoutEnvironment, LayoutModel, RuntimeLayout};
use crate::paths::{strings_view, PathModel, RuntimePath};
use crate::payloads::{
    a_refusal_reports_attempt_and_reason, a_rejection_reports_what_was_given,
    a_sighting_reports_what_was_given, a_tick_reports_what_was_given,
    an_attempt_reports_what_was_given, an_entry_fill_reports_what_was_given,
    an_entry_signal_reports_what_was_given, an_exit_fill_reports_what_was_given,
    an_exit_signal_reports_what_was_given, attempt_is_told, entry_fill_is_told,
    entry_signal_is_told, exit_fill_is_told, exit_signal_is_told, refusal_is_told,
    rejection_is_told, sighting_is_told, tick_is_told,
};
use crate::run::RunModel;
use crate::session::{SessionState, SessionTable};
use crate::settings::{
    resolve_mode, resolve_transport_mode, AlgoConfig, Config, SnipeConfig, StratsConfig, TxSettings,
};
use crate::text::{join2, join3, option_view, replace_char, to_zero_padded};
use vstd::hash_map::StringHashMap;
use vstd::prelude::*;

verus! {

/// What a run takes from the surroundings of the process when it begins.
#[derive(Debug)]
pub struct RunEnvironment {
    /// What the directories depend on.
    pub layout: LayoutEnvironment,
    /// `MEWX_SOURCE_COMMIT`, if set.
    pub source_commit: Option<String>,
    /// What `git rev-parse HEAD` printed, if it ran.
    pub git_head: Option<Vec<u8>>,
    /// `VEXTER_RUN_ID`, if set.
    pub run_id: Option<String>,
    /// `HOSTNAME`, if set.
    pub hostname: Option<String>,
    /// `COMPUTERNAME`, if set.
    pub computername: Option<String>,
    /// The configured mode.
    pub mode: String,
    /// Whether events are taken in over gRPC.
    pub use_grpc: bool,
    /// How transactions are sent.
    pub tx_settings: TxSettings,
}

impl RunEnvironment {
    /// The run that begins at `started_at` in these surroundings.
    pub open spec fn begun(self, stamp: Timestamp, started_at: Timestamp) -> RunModel {
        RunModel::begun(
            LayoutModel::under(
                crate::layout::output_root_for(
                    option_view(self.layout.output_root),
                    self.layout.windows,
                    self.layout.preferred_root_exists,
                ),
                crate::layout::runtime_root_for(option_view(self.layout.runtime_root)),
            ),
            crate::identity::run_id_for(
                option_view(self.run_id),
                crate::identity::reported_host(
                    option_view(self.hostname),
                    option_view(self.computername),
                ),
                stamp,
            ),
            crate::identity::reported_commit(
                option_view(self.source_commit),
                crate::identity::bytes_view(self.git_head),
            ),
            crate::settings::reported_mode(self.mode@),
            crate::settings::reported_transport(self.tx_settings.tx_strat@, self.use_grpc),
            started_at,
        )
    }
}

/// The recorder of a run.
pub struct MewInstrumentation {
    layout: RuntimeLayout,
    run_id: String,
    source_commit: String,
    mode: String,
    transport_mode: String,
    started_at: Timestamp,
    ended_at: Option<Timestamp>,
    host_role: String,
    event_path: RuntimePath,
    state_path: RuntimePath,
    config_path: Option<RuntimePath>,
    candidate_snapshot_paths: Vec<RuntimePath>,
    session_summary_paths: Vec<RuntimePath>,
    event_counts: Counters,
    event_index: usize,
    attempt_counters: StringHashMap<usize>,
    sessions: SessionTable,
    finalized: bool,
    outbox: Vec<Action>,
}

/// Whether each of a list of times lies at or after the Unix epoch.
pub open spec fn after_epoch(times: Seq<Timestamp>) -> bool {
    forall|i: int| 0 <= i < times.len() ==> (#[trigger] times[i]).seconds() >= 0
}

/// The model of an optional path.
pub open spec fn opt_path_view(path: Option<RuntimePath>) -> Option<PathModel> {
    match path {
        Some(p) => Some(p.model()),
        None => None,
    }
}

impl View for MewInstrumentation {
    type V = RunModel;

    closed spec fn view(&self) -> RunModel {
        RunModel {
            layout: self.layout.model(),
            run_id: self.run_id@,
            source_commit: self.source_commit@,
            mode: self.mode@,
            transport_mode: self.transport_mode@,
            started_at: self.started_at,
            ended_at: self.ended_at,
            host_role: self.host_role@,
            event_path: self.event_path.model(),
            state_path: self.state_path.model(),
            config_path: opt_path_view(self.config_path),
            candidate_snapshot_paths: crate::paths::paths_view(self.candidate_snapshot_paths@),
            session_summary_paths: crate::paths::paths_view(self.session_summary_paths@),
            event_counts: self.event_counts@,
            event_index: self.event_index as nat,
            attempt_counters: self.attempt_counters@,
            sessions: self.sessions@,
            finalized: self.finalized,
            outbox: crate::actions::actions_view(self.outbox@),
        }
    }
}

impl MewInstrumentation {
    /// The tables are consistent and the run is one that can occur.
    pub closed spec fn wf(&self) -> bool {
        &&& self.event_counts.wf()
        &&& self.sessions.wf()
        &&& self@.wf()
    }

    /// The run behind a recorder is one that can occur: what holds of every such run holds of it.
    pub proof fn recorder_holds_a_run(&self)
        requires
            self.wf(),
        ensures
            self@.wf(),
    {
    }

    fn ask(&mut self, action: Action)
        requires
            old(self).wf(),
        ensures
            final(self).wf(),
            final(self)@ == old(self)@.asked(action.model()),
    {
        self.outbox.push(action);
        assert(self@.outbox =~= old(self)@.outbox.push(action.model()));
    }

    fn write_state_locked(&mut self, status: &str)
        requires
            old(self).wf(),
        ensures
            final(self).wf(),
            final(self)@ == old(self)@.wrote_state(status@),
    {
        let ended = match self.ended_at {
            Some(time) => Json::Str(isoformat_utc(time)),
            None => Json::Null,
        };
        let config = match &self.config_path {
            Some(path) => Json::Path(path.copy()),
            None => Json::Null,
        };
        let mut paths = ObjectBuilder::new();
        paths.put("runtime_layout", self.layout.metadata());
        paths.put("raw_events_file", Json::Path(self.event_path.copy()));
        paths.put("config_snapshot", config);
        paths.put("candidate_snapshots", json_paths(&self.candidate_snapshot_paths));
        paths.put("session_summaries", json_paths(&self.session_summary_paths));
        let mut o = ObjectBuilder::new();
        o.put("run_id", json_str(self.run_id.as_str()));
        o.put("status", json_str(status));
        o.put("source_system", json_str("mewx"));
        o.put("source_commit", json_str(self.source_commit.as_str()));
        o.put("mode", json_str(self.mode.as_str()));
        o.put("transport_mode", json_str(self.transport_mode.as_str()));
        o.put("host_role", json_str(self.host_role.as_str()));
        o.put("started_at_utc", Json::Str(isoformat_utc(self.started_at)));
        o.put("ended_at_utc", ended);
        o.put("paths", paths.build());
        o.put("event_counts", self.event_counts.to_json());
        let path = self.state_path.copy();
        let document = o.build();
        assert(document.model() == self@.state_document(status@));
        self.ask(Action::WriteDocument { path, document });
    }

    fn emit_locked(
        &mut self,
        event_type: &str,
        payload: Json,
        session_id: Option<&str>,
        mint: Option<&str>,
        creator: Option<&str>,
        ts: Timestamp,
    ) -> (event_id: String)
        requires
            old(self).wf(),
            old(self)@.has_room(),
        ensures
            final(self).wf(),
            final(self)@ == old(self)@.emitted(
                event_type@,
                payload.model(),
                crate::session::opt_str_view(session_id),
                crate::session::opt_str_view(mint),
                crate::session::opt_str_view(creator),
                ts,
            ),
            event_id@ == crate::run::event_id_for(old(self)@.run_id, old(self)@.event_index + 1),
    {
        proof {
            crate::counts::total_bounds(self@.event_counts, event_type@);
            crate::counts::total_after_insert(
                self@.event_counts,
                event_type@,
                crate::counts::count_of(self@.event_counts, event_type@) + 1,
            );
        }
        self.event_index = self.event_index + 1;
        self.event_counts.increment(event_type);
        assert(self@ == old(self)@.counted(event_type@));
        assert(self.wf());
        let number = to_zero_padded(self.event_index as u64, 6);
        let event_id = join3(self.run_id.as_str(), "-", number.as_str());
        let mut o = ObjectBuilder::new();
        o.put("run_id", json_str(self.run_id.as_str()));
        o.put("event_id", json_str(event_id.as_str()));
        o.put("event_type", json_str(event_type));
        o.put("ts_utc", Json::Str(isoformat_utc(ts)));
        o.put("source_system", json_str("mewx"));
        o.put("source_commit", json_str(self.source_commit.as_str()));
        o.put("mode", json_str(self.mode.as_str()));
        o.put("transport_mode", json_str(self.transport_mode.as_str()));
        o.put("payload", payload);
        if let Some(session_id) = session_id {
            o.put("session_id", json_str(session_id));
        }
        if let Some(mint) = mint {
            o.put("mint", json_str(mint));
        }
        if let Some(creator) = creator {
            o.put("creator", json_str(creator));
        }
        let path = self.event_path.copy();
        self.ask(Action::AppendLine { path, line: o.build() });
        self.write_state_locked("running");
        event_id
    }

    fn ensure_session_locked(
        &mut self,
        mint_id: &str,
        creator: Option<&str>,
        market: Option<&str>,
        candidate_source: Option<&str>,
        pool_id: Option<&str>,
    ) -> (session: &mut SessionState)
        requires
            old(self).wf(),
        ensures
            session.model() == old(self)@.session_of(mint_id@).described(
                crate::session::opt_str_view(creator),
                crate::session::opt_str_view(market),
                crate::session::opt_str_view(candidate_source),
                crate::session::opt_str_view(pool_id),
            ),
            old(self)@.owns_session(mint_id@, session.model()),
            old(self)@.owns_session(mint_id@, final(session).model()) ==> {
                &&& final(self).wf()
                &&& final(self)@ == old(self)@.with_session(mint_id@, final(session).model())
            },
    {
        let started_at = self.started_at;
        let session = self.sessions.entry(mint_id, started_at);
        session.describe(creator, market, candidate_source, pool_id);
        session
    }

    /// A run that begins at `started_at`; `stamp` goes into its identifier where none is
    /// configured.
    pub fn new_at(env: &RunEnvironment, stamp: Timestamp, started_at: Timestamp) -> (run: Self)
        ensures
            run.wf(),
            run@ == env.begun(stamp, started_at),
            run@.just_begun(),
    {
        let layout = RuntimeLayout::new(&env.layout);
        let dirs = layout.ensure();
        let mut outbox: Vec<Action> = Vec::new();
        let ghost asked = layout.model().directories().map_values(
            |p: PathModel| ActionModel::EnsureDir(p),
        );
        let mut i: usize = 0;
        while i < dirs.len()
            invariant
                i <= dirs.len(),
                crate::paths::paths_view(dirs@) == layout.model().directories(),
                asked == layout.model().directories().map_values(
                    |p: PathModel| ActionModel::EnsureDir(p),
                ),
                crate::actions::actions_view(outbox@) == asked.take(i as int),
            decreases dirs.len() - i,
        {
            let action = Action::EnsureDir(dirs[i].copy());
            assert(crate::paths::paths_view(dirs@)[i as int] == dirs@[i as int].model());
            assert(asked.take(i + 1) =~= asked.take(i as int).push(action.model()));
            assert(crate::actions::actions_view(outbox@.push(action))
                =~= crate::actions::actions_view(outbox@).push(action.model()));
            outbox.push(action);
            i = i + 1;
        }
        assert(asked.take(i as int) =~= asked);
        let host = host_name(&env.hostname, &env.computername);
        let run_id = run_id(&env.run_id, host.as_str(), stamp);
        let state_path = layout.export_dir.join(join2(run_id.as_str(), ".state.json").as_str());
        let event_path = layout.raw_dir.join(join2(run_id.as_str(), ".ndjson").as_str());
        let mut run = MewInstrumentation {
            layout,
            run_id,
            source_commit: source_commit(&env.source_commit, &env.git_head),
            mode: resolve_mode(env.mode.as_str()),
            transport_mode: resolve_transport_mode(&env.tx_settings, env.use_grpc),
            started_at,
            ended_at: None,
            host_role: "windows_runtime".to_owned(),
            event_path,
            state_path,
            config_path: None,
            candidate_snapshot_paths: Vec::new(),
            session_summary_paths: Vec::new(),
            event_counts: Counters::new(),
            event_index: 0,
            attempt_counters: StringHashMap::new(),
            sessions: SessionTable::new(),
            finalized: false,
            outbox,
        };
        assert(run@.candidate_snapshot_paths =~= Seq::empty());
        assert(run@.session_summary_paths =~= Seq::empty());
        run.write_state_locked("initialized");
        run
    }

    /// A run that begins now.
    pub fn new(env: &RunEnvironment) -> (run: Self)
        ensures
            run.wf(),
            run@.just_begun(),
            exists|stamp: Timestamp, started_at: Timestamp|
                stamp.seconds() >= 0 && started_at.seconds() >= 0 && run@ == #[trigger] env.begun(
                    stamp,
                    started_at,
                ),
    {
        let stamp = Timestamp::now();
        let started_at = Timestamp::now();
        Self::new_at(env, stamp, started_at)
    }

    /// Whether the given number of further events can be counted.
    pub fn room_for(&self, events: usize) -> (yes: bool)
        requires
            self.wf(),
        ensures
            yes == (self@.event_index + events <= usize::MAX),
    {
        self.event_index <= usize::MAX - events
    }

    /// Whether the run has been wound up.
    pub fn is_finalized(&self) -> (yes: bool)
        ensures
            yes == self@.finalized,
    {
        self.finalized
    }

    /// The session of a mint, if there is one.
    pub fn session(&self, mint_id: &str) -> (session: Option<&SessionState>)
        requires
            self.wf(),
        ensures
            session is Some <==> self@.sessions.contains_key(mint_id@),
            session matches Some(known) ==> known.model() == self@.sessions[mint_id@],
    {
        self.sessions.get(mint_id)
    }

    /// Hands out what was asked of the file system since the last time, in order.
    pub fn take_actions(&mut self) -> (actions: Vec<Action>)
        requires
            old(self).wf(),
        ensures
            final(self).wf(),
            crate::actions::actions_view(actions@) == old(self)@.outbox,
            final(self)@ == old(self)@.handed_out(),
    {
        let mut actions: Vec<Action> = Vec::new();
        std::mem::swap(&mut actions, &mut self.outbox);
        assert(self@.outbox =~= Seq::empty());
        actions
    }

    /// Exports the configuration with every secret masked; returns where to.
    pub fn export_masked_config_at(
        &mut self,
        config_payload: &Config,
        algo_config: &AlgoConfig,
        snipe_config: &SnipeConfig,
        strats_config: &StratsConfig,
        tx_settings: &TxSettings,
        initial_source_counts: &Vec<NamedCount>,
        environment: &ExportEnvironment,
        now: Timestamp,
    ) -> (path: Option<RuntimePath>)
        requires
            old(self).wf(),
            exportable(*config_payload, *tx_settings, *environment),
        ensures
            final(self).wf(),
            opt_path_view(path) == Some(old(self)@.config_export_path()),
            final(self)@ == old(self)@.config_exported(
                old(self)@.config_document(
                    *config_payload,
                    *algo_config,
                    *snipe_config,
                    *strats_config,
                    *tx_settings,
                    counts_model(initial_source_counts@),
                    *environment,
                    now,
                ),
            ),
    {
        let mut o = ObjectBuilder::new();
        o.put("run_id", json_str(self.run_id.as_str()));
        o.put("captured_at_utc", Json::Str(isoformat_utc(now)));
        o.put("source_commit", json_str(self.source_commit.as_str()));
        o.put("paths", self.layout.metadata());
        put_settings(
            &mut o,
            self.mode.as_str(),
            self.transport_mode.as_str(),
            config_payload,
            algo_config,
            snipe_config,
            strats_config,
            tx_settings,
            initial_source_counts,
            environment,
        );
        let file_name = join2(self.run_id.as_str(), ".config.json");
        let path = self.layout.config_dir.join(file_name.as_str());
        self.ask(Action::WriteDocument { path: path.copy(), document: o.build() });
        self.config_path = Some(path.copy());
        self.write_state_locked("config_exported");
        Some(path)
    }

    /// Exports the configuration with every secret masked, at the current time; returns where to.
    pub fn export_masked_config(
        &mut self,
        config_payload: &Config,
        algo_config: &AlgoConfig,
        snipe_config: &SnipeConfig,
        strats_config: &StratsConfig,
        tx_settings: &TxSettings,
        initial_source_counts: &Vec<NamedCount>,
        environment: &ExportEnvironment,
    ) -> (path: Option<RuntimePath>)
        requires
            old(self).wf(),
            exportable(*config_payload, *tx_settings, *environment),
        ensures
            final(self).wf(),
            opt_path_view(path) == Some(old(self)@.config_export_path()),
            exists|now: Timestamp|
                now.seconds() >= 0 && final(self)@ == old(self)@.config_exported(
                    #[trigger] old(self)@.config_document(
                        *config_payload,
                        *algo_config,
                        *snipe_config,
                        *strats_config,
                        *tx_settings,
                        counts_model(initial_source_counts@),
                        *environment,
                        now,
                    ),
                ),
    {
        let now = Timestamp::now();
        self.export_masked_config_at(
            config_payload,
            algo_config,
            snipe_config,
            strats_config,
            tx_settings,
            initial_source_counts,
            environment,
            now,
        )
    }

    /// Exports a candidate snapshot; returns where to.
    pub fn export_candidate_snapshot_at(
        &mut self,
        label: &str,
        report: &CandidateSelectionReport,
        added_keys: &Vec<String>,
        removed_keys: &Vec<String>,
        now: Timestamp,
    ) -> (path: Option<RuntimePath>)
        requires
            old(self).wf(),
        ensures
            final(self).wf(),
            opt_path_view(path) == Some(old(self)@.snapshot_path(label@)),
            final(self)@ == old(self)@.snapshot_exported(
                label@,
                old(self)@.snapshot_document(
                    label@,
                    counts_model(report.source_counts@),
                    observations_view(report.observations@),
                    strings_view(added_keys@),
                    strings_view(removed_keys@),
                    now,
                ),
            ),
    {
        let mut o = ObjectBuilder::new();
        o.put("run_id", json_str(self.run_id.as_str()));
        o.put("captured_at_utc", Json::Str(isoformat_utc(now)));
        o.put("source_commit", json_str(self.source_commit.as_str()));
        o.put("label", json_str(label));
        o.put("source_counts", json_counts(&report.source_counts));
        o.put("added_keys", json_strings(added_keys));
        o.put("removed_keys", json_strings(removed_keys));
        o.put("observations", report.observations_json());
        let prefix = join2(self.run_id.as_str(), ".candidates.");
        let file_label = replace_char(label, ' ', '_');
        let file_name = join3(prefix.as_str(), file_label.as_str(), ".json");
        let path = self.layout.export_dir.join("candidates").join(file_name.as_str());
        self.ask(Action::WriteDocument { path: path.copy(), document: o.build() });
        let ghost listed = self@.candidate_snapshot_paths;
        self.candidate_snapshot_paths.push(path.copy());
        assert(self@.candidate_snapshot_paths =~= listed.push(path.model()));
        self.write_state_locked("candidate_snapshot_exported");
        Some(path)
    }

    /// Exports a candidate snapshot, at the current time; returns where to.
    pub fn export_candidate_snapshot(
        &mut self,
        label: &str,
        report: &CandidateSelectionReport,
        added_keys: &Vec<String>,
        removed_keys: &Vec<String>,
    ) -> (path: Option<RuntimePath>)
        requires
            old(self).wf(),
        ensures
            final(self).wf(),
            opt_path_view(path) == Some(old(self)@.snapshot_path(label@)),
            exists|now: Timestamp|
                now.seconds() >= 0 && final(self)@ == old(self)@.snapshot_exported(
                    label@,
                    #[trigger] old(self)@.snapshot_document(
                        label@,
                        counts_model(report.source_counts@),
                        observations_view(report.observations@),
                        strings_view(added_keys@),
                        strings_view(removed_keys@),
                        now,
                    ),
                ),
    {
        let now = Timestamp::now();
        self.export_candidate_snapshot_at(label, report, added_keys, removed_keys, now)
    }

    /// Reports one candidate, if the filter lets it pass.
    pub fn emit_creator_candidate_at(
        &mut self,
        observation: &CandidateObservation,
        reason_override: &str,
        filter_keys: Option<&Vec<String>>,
        now: Timestamp,
    )
        requires
            old(self).wf(),
            !passes(filter_view(filter_keys), observation.model().key()) || old(self)@.has_room(),
        ensures
            final(self).wf(),
            final(self)@ == old(self)@.candidate_emitted(
                observation.model(),
                reason_override@,
                filter_view(filter_keys),
                now,
            ),
    {
        let key = observation.key();
        if !key_passes(filter_keys, key.as_str()) {
            return ;
        }
        let payload = observation.payload(reason_override);
        self.emit_locked(
            "creator_candidate",
            payload,
            None,
            None,
            Some(observation.creator.as_str()),
            now,
        );
    }

    /// Reports the candidates of a selection that the filter lets pass, in order.
    pub fn emit_creator_candidates(
        &mut self,
        report: &CandidateSelectionReport,
        reason_override: &str,
        filter_keys: Option<&Vec<String>>,
    )
        requires
            old(self).wf(),
            old(self)@.event_index + passing(
                observations_view(report.observations@),
                filter_view(filter_keys),
            ) <= usize::MAX,
        ensures
            final(self).wf(),
            exists|times: Seq<Timestamp>|
                times.len() == report.observations@.len() && after_epoch(times) && final(self)@
                    == #[trigger] old(self)@.candidates_emitted(
                    observations_view(report.observations@),
                    reason_override@,
                    filter_view(filter_keys),
                    times,
                ),
    {
        let ghost mut times: Seq<Timestamp> = Seq::empty();
        let ghost all = observations_view(report.observations@);
        let ghost filter = filter_view(filter_keys);
        let mut i: usize = 0;
        assert(all.take(0) =~= Seq::empty());
        while i < report.observations.len()
            invariant
                self.wf(),
                i <= report.observations.len(),
                times.len() == i,
                after_epoch(times),
                all == observations_view(report.observations@),
                filter == filter_view(filter_keys),
                self@.event_index == old(self)@.event_index + passing(all.take(i as int), filter),
                old(self)@.event_index + passing(all, filter) <= usize::MAX,
                self@ == old(self)@.candidates_emitted(
                    all.take(i as int),
                    reason_override@,
                    filter,
                    times,
                ),
            decreases report.observations.len() - i,
        {
            proof {
                assert(all.take(i + 1).drop_last() =~= all.take(i as int));
                passing_grows(all, filter, i + 1);
            }
            let now = Timestamp::now();
            self.emit_creator_candidate_at(
                &report.observations[i],
                reason_override,
                filter_keys,
                now,
            );
            proof {
                assert(times.push(now).drop_last() =~= times);
                times = times.push(now);
            }
            i = i + 1;
        }
        assert(all.take(i as int) =~= all);
    }

    /// Notes that a mint was seen and reports its first sighting; returns the mint's session.
    pub fn observe_mint_at(
        &mut self,
        mint_id: &str,
        creator: &str,
        market: &str,
        candidate_source: Option<&str>,
        pool_id: &str,
        first_seen_slot: u64,
        open_price: Double,
        is_migrated: bool,
        extra: Json,
        now: Timestamp,
    ) -> (session_id: String)
        requires
            old(self).wf(),
            old(self)@.session_of(mint_id@).observed_at is Some || old(self)@.has_room(),
        ensures
            final(self).wf(),
            final(self)@ == old(self)@.mint_observed(
                mint_id@,
                creator@,
                market@,
                crate::session::opt_str_view(candidate_source),
                pool_id@,
                first_seen_slot,
                open_price,
                is_migrated,
                extra.model(),
                now,
            ),
            sighting_is_told(
                old(self)@,
                final(self)@,
                mint_id@,
                creator@,
                market@,
                crate::session::opt_str_view(candidate_source),
                pool_id@,
                first_seen_slot,
                open_price,
                is_migrated,
                extra.model(),
                now,
            ),
            session_id@ == old(self)@.session_of(mint_id@).session_id,
    {
        proof {
            a_sighting_reports_what_was_given(
                self@,
                mint_id@,
                creator@,
                market@,
                crate::session::opt_str_view(candidate_source),
                pool_id@,
                first_seen_slot,
                open_price,
                is_migrated,
                extra.model(),
                now,
            );
        }
        let session = self.ensure_session_locked(
            mint_id,
            Some(creator),
            Some(market),
            candidate_source,
            Some(pool_id),
        );
        let session_id = session.session_id.clone();
        if session.observed_at.is_some() {
            return session_id;
        }
        session.note_observed(now, open_price);
        let payload = mint_observed_payload(
            market,
            pool_id,
            first_seen_slot,
            open_price,
            is_migrated,
            candidate_source,
            extra,
        );
        self.emit_locked(
            "mint_observed",
            payload,
            Some(session_id.as_str()),
            Some(mint_id),
            Some(creator),
            now,
        );
        session_id
    }

    /// Notes that a mint was seen now and reports its first sighting; returns the mint's session.
    pub fn observe_mint(
        &mut self,
        mint_id: &str,
        creator: &str,
        market: &str,
        candidate_source: Option<&str>,
        pool_id: &str,
        first_seen_slot: u64,
        open_price: Double,
        is_migrated: bool,
        extra: Json,
    ) -> (session_id: String)
        requires
            old(self).wf(),
            old(self)@.session_of(mint_id@).observed_at is Some || old(self)@.has_room(),
        ensures
            final(self).wf(),
            exists|now: Timestamp|
                now.seconds() >= 0 && final(self)@ == #[trigger] old(self)@.mint_observed(
                    mint_id@,
                    creator@,
                    market@,
                    crate::session::opt_str_view(candidate_source),
                    pool_id@,
                    first_seen_slot,
                    open_price,
                    is_migrated,
                    extra.model(),
                    now,
                ) && sighting_is_told(
                    old(self)@,
                    final(self)@,
                    mint_id@,
                    creator@,
                    market@,
                    crate::session::opt_str_view(candidate_source),
                    pool_id@,
                    first_seen_slot,
                    open_price,
                    is_migrated,
                    extra.model(),
                    now,
                ),
            session_id@ == old(self)@.session_of(mint_id@).session_id,
    {
        let now = Timestamp::now();
        self.observe_mint_at(
            mint_id,
            creator,
            market,
            candidate_source,
            pool_id,
            first_seen_slot,
            open_price,
            is_migrated,
            extra,
            now,
        )
    }

    /// Reports that a gate turned a candidate down.
    pub fn record_candidate_rejected_at(
        &mut self,
        mint_id: &str,
        creator: &str,
        candidate_source: &str,
        reject_reason: &str,
        gate_name: &str,
        details: Option<Json>,
        now: Timestamp,
    )
        requires
            old(self).wf(),
            old(self)@.has_room(),
        ensures
            final(self).wf(),
            final(self)@ == old(self)@.candidate_rejected(
                mint_id@,
                creator@,
                candidate_source@,
                reject_reason@,
                gate_name@,
                option_model(details),
                now,
            ),
            rejection_is_told(
                old(self)@,
                final(self)@,
                mint_id@,
                creator@,
                candidate_source@,
                reject_reason@,
                gate_name@,
                option_model(details),
                now,
            ),
    {
        proof {
            a_rejection_reports_what_was_given(
                self@,
                mint_id@,
                creator@,
                candidate_source@,
                reject_reason@,
                gate_name@,
                option_model(details),
                now,
            );
        }
        let session = self.ensure_session_locked(
            mint_id,
            Some(creator),
            None,
            Some(candidate_source),
            None,
        );
        let session_id = session.session_id.clone();
        let payload = candidate_rejected_payload(
            candidate_source,
            reject_reason,
            gate_name,
            details,
        );
        self.emit_locked(
            "candidate_rejected",
            payload,
            Some(session_id.as_str()),
            Some(mint_id),
            Some(creator),
            now,
        );
    }

    /// Reports that a gate turned a candidate down, at the current time.
    pub fn record_candidate_rejected(
        &mut self,
        mint_id: &str,
        creator: &str,
        candidate_source: &str,
        reject_reason: &str,
        gate_name: &str,
        details: Option<Json>,
    )
        requires
            old(self).wf(),
            old(self)@.has_room(),
        ensures
            final(self).wf(),
            exists|now: Timestamp|
                now.seconds() >= 0 && final(self)@ == #[trigger] old(self)@.candidate_rejected(
                    mint_id@,
                    creator@,
                    candidate_source@,
                    reject_reason@,
                    gate_name@,
                    option_model(details),
                    now,
                ) && rejection_is_told(
                    old(self)@,
                    final(self)@,
                    mint_id@,
                    creator@,
                    candidate_source@,
                    reject_reason@,
                    gate_name@,
                    option_model(details),
                    now,
                ),
    {
        let now = Timestamp::now();
        self.record_candidate_rejected_at(
            mint_id,
            creator,
            candidate_source,
            reject_reason,
            gate_name,
            details,
            now,
        );
    }

    /// Notes and reports the first signal to enter.
    pub fn record_entry_signal_at(
        &mut self,
        mint_id: &str,
        creator: &str,
        candidate_source: &str,
        market: &str,
        signal_reason: &str,
        signal_price: Double,
        signal_slot: u64,
        pool_id: &str,
        now: Timestamp,
    )
        requires
            old(self).wf(),
            old(self)@.session_of(mint_id@).signal_at is Some || old(self)@.has_room(),
        ensures
            final(self).wf(),
            final(self)@ == old(self)@.entry_signalled(
                mint_id@,
                creator@,
                candidate_source@,
                market@,
                signal_reason@,
                signal_price,
                signal_slot,
                pool_id@,
                now,
            ),
            entry_signal_is_told(
                old(self)@,
                final(self)@,
                mint_id@,
                creator@,
                candidate_source@,
                market@,
                signal_reason@,
                signal_price,
                signal_slot,
                pool_id@,
                now,
            ),
    {
        proof {
            an_entry_signal_reports_what_was_given(
                self@,
                mint_id@,
                creator@,
                candidate_source@,
                market@,
                signal_reason@,
                signal_price,
                signal_slot,
                pool_id@,
                now,
            );
        }
        let session = self.ensure_session_locked(
            mint_id,
            Some(creator),
            Some(market),
            Some(candidate_source),
            Some(pool_id),
        );
        if session.signal_at.is_some() {
            return ;
        }
        let session_id = session.session_id.clone();
        let observed_at = session.observed_at.unwrap_or(now);
        session.note_signal(now, signal_price, signal_slot);
        let payload = entry_signal_payload(
            candidate_source,
            market,
            signal_reason,
            signal_price,
            signal_slot,
            latency_ms(observed_at, now),
            pool_id,
        );
        self.emit_locked(
            "entry_signal",
            payload,
            Some(session_id.as_str()),
            Some(mint_id),
            Some(creator),
            now,
        );
    }

    /// Notes and reports the first signal to enter, at the current time.
    pub fn record_entry_signal(
        &mut self,
        mint_id: &str,
        creator: &str,
        candidate_source: &str,
        market: &str,
        signal_reason: &str,
        signal_price: Double,
        signal_slot: u64,
        pool_id: &str,
    )
        requires
            old(self).wf(),
            old(self)@.session_of(mint_id@).signal_at is Some || old(self)@.has_room(),
        ensures
            final(self).wf(),
            exists|now: Timestamp|
                now.seconds() >= 0 && final(self)@ == #[trigger] old(self)@.entry_signalled(
                    mint_id@,
                    creator@,
                    candidate_source@,
                    market@,
                    signal_reason@,
                    signal_price,
                    signal_slot,
                    pool_id@,
                    now,
                ) && entry_signal_is_told(
                    old(self)@,
                    final(self)@,
                    mint_id@,
                    creator@,
                    candidate_source@,
                    market@,
                    signal_reason@,
                    signal_price,
                    signal_slot,
                    pool_id@,
                    now,
                ),
    {
        let now = Timestamp::now();
        self.record_entry_signal_at(
            mint_id,
            creator,
            candidate_source,
            market,
            signal_reason,
            signal_price,
            signal_slot,
            pool_id,
            now,
        );
    }

    /// Notes and reports an attempt to enter; returns its number for the mint.
    pub fn record_entry_attempt_at(
        &mut self,
        mint_id: &str,
        creator: &str,
        candidate_source: &str,
        market: &str,
        route: &str,
        quote_price: Double,
        expected_tokens_out: Double,
        slippage_bps: u64,
        wallet_available_before: Double,
        tx_strategy: &str,
        transport_path: &str,
        priority_fee_lamports: u64,
        tip_lamports: u64,
        retries: u32,
        started_at: Timestamp,
        now: Timestamp,
    ) -> (attempt_index: usize)
        requires
            old(self).wf(),
            old(self)@.has_room(),
        ensures
            final(self).wf(),
            final(self)@ == old(self)@.entry_attempted(
                mint_id@,
                creator@,
                candidate_source@,
                market@,
                route@,
                quote_price,
                expected_tokens_out,
                slippage_bps,
                wallet_available_before,
                tx_strategy@,
                transport_path@,
                priority_fee_lamports,
                tip_lamports,
                retries,
                started_at,
                now,
            ),
            attempt_is_told(
                old(self)@,
                final(self)@,
                mint_id@,
                creator@,
                candidate_source@,
                market@,
                route@,
                quote_price,
                expected_tokens_out,
                slippage_bps,
                wallet_available_before,
                tx_strategy@,
                transport_path@,
                priority_fee_lamports,
                tip_lamports,
                retries,
                started_at,
                now,
            ),
            attempt_index == old(self)@.next_attempt(mint_id@),
    {
        proof {
            an_attempt_reports_what_was_given(
                self@,
                mint_id@,
                creator@,
                candidate_source@,
                market@,
                route@,
                quote_price,
                expected_tokens_out,
                slippage_bps,
                wallet_available_before,
                tx_strategy@,
                transport_path@,
                priority_fee_lamports,
                tip_lamports,
                retries,
                started_at,
                now,
            );
        }
        let attempt_index: usize = match self.attempt_counters.get(mint_id) {
            Some(count) => *count + 1,
            None => 1,
        };
        let session = self.ensure_session_locked(
            mint_id,
            Some(creator),
            Some(market),
            Some(candidate_source),
            None,
        );
        let session_id = session.session_id.clone();
        session.note_attempt(attempt_index, started_at);
        let payload = entry_attempt_payload(
            attempt_index,
            market,
            route,
            quote_price,
            expected_tokens_out,
            slippage_bps,
            wallet_available_before,
            tx_strategy,
            transport_path,
            candidate_source,
            priority_fee_lamports,
            tip_lamports,
            retries,
        );
        self.emit_locked(
            "entry_attempt",
            payload,
            Some(session_id.as_str()),
            Some(mint_id),
            Some(creator),
            now,
        );
        self.attempt_counters.insert(mint_id.to_owned(), attempt_index);
        attempt_index
    }

    /// Notes and reports an attempt to enter, at the current time; returns its number for the mint.
    pub fn record_entry_attempt(
        &mut self,
        mint_id: &str,
        creator: &str,
        candidate_source: &str,
        market: &str,
        route: &str,
        quote_price: Double,
        expected_tokens_out: Double,
        slippage_bps: u64,
        wallet_available_before: Double,
        tx_strategy: &str,
        transport_path: &str,
        priority_fee_lamports: u64,
        tip_lamports: u64,
        retries: u32,
    ) -> (attempt_index: usize)
        requires
            old(self).wf(),
            old(self)@.has_room(),
        ensures
            final(self).wf(),
            exists|started_at: Timestamp, now: Timestamp|
                started_at.seconds() >= 0 && now.seconds() >= 0 && final(self)@
                    == #[trigger] old(self)@.entry_attempted(
                    mint_id@,
                    creator@,
                    candidate_source@,
                    market@,
                    route@,
                    quote_price,
                    expected_tokens_out,
                    slippage_bps,
                    wallet_available_before,
                    tx_strategy@,
                    transport_path@,
                    priority_fee_lamports,
                    tip_lamports,
                    retries,
                    started_at,
                    now,
                ) && attempt_is_told(
                    old(self)@,
                    final(self)@,
                    mint_id@,
                    creator@,
                    candidate_source@,
                    market@,
                    route@,
                    quote_price,
                    expected_tokens_out,
                    slippage_bps,
                    wallet_available_before,
                    tx_strategy@,
                    transport_path@,
                    priority_fee_lamports,
                    tip_lamports,
                    retries,
                    started_at,
                    now,
                ),
            attempt_index == old(self)@.next_attempt(mint_id@),
    {
        let started_at = Timestamp::now();
        let now = Timestamp::now();
        self.record_entry_attempt_at(
            mint_id,
            creator,
            candidate_source,
            market,
            route,
            quote_price,
            expected_tokens_out,
            slippage_bps,
            wallet_available_before,
            tx_strategy,
            transport_path,
            priority_fee_lamports,
            tip_lamports,
            retries,
            started_at,
            now,
        )
    }

    /// Reports that an entry was refused.
    pub fn record_entry_rejected_at(
        &mut self,
        mint_id: &str,
        creator: &str,
        reject_reason: &str,
        tx_signature: &str,
        attempt_index: usize,
        details: Option<Json>,
        now: Timestamp,
    )
        requires
            old(self).wf(),
            old(self)@.has_room(),
        ensures
            final(self).wf(),
            final(self)@ == old(self)@.entry_rejected(
                mint_id@,
                creator@,
                reject_reason@,
                tx_signature@,
                attempt_index,
                option_model(details),
                now,
            ),
            refusal_is_told(
                old(self)@,
                final(self)@,
                mint_id@,
                creator@,
                reject_reason@,
                tx_signature@,
                attempt_index,
                option_model(details),
                now,
            ),
    {
        proof {
            a_refusal_reports_attempt_and_reason(
                self@,
                mint_id@,
                creator@,
                reject_reason@,
                tx_signature@,
                attempt_index,
                option_model(details),
                now,
            );
        }
        let session = self.ensure_session_locked(mint_id, Some(creator), None, None, None);
        let session_id = session.session_id.clone();
        let payload = entry_rejected_payload(attempt_index, reject_reason, tx_signature, details);
        self.emit_locked(
            "entry_rejected",
            payload,
            Some(session_id.as_str()),
            Some(mint_id),
            Some(creator),
            now,
        );
    }

    /// Reports that an entry was refused, at the current time.
    pub fn record_entry_rejected(
        &mut self,
        mint_id: &str,
        creator: &str,
        reject_reason: &str,
        tx_signature: &str,
        attempt_index: usize,
        details: Option<Json>,
    )
        requires
            old(self).wf(),
            old(self)@.has_room(),
        ensures
            final(self).wf(),
            exists|now: Timestamp|
                now.seconds() >= 0 && final(self)@ == #[trigger] old(self)@.entry_rejected(
                    mint_id@,
                    creator@,
                    reject_reason@,
                    tx_signature@,
                    attempt_index,
                    option_model(details),
                    now,
                ) && refusal_is_told(
                    old(self)@,
                    final(self)@,
                    mint_id@,
                    creator@,
                    reject_reason@,
                    tx_signature@,
                    attempt_index,
                    option_model(details),
                    now,
                ),
    {
        let now = Timestamp::now();
        self.record_entry_rejected_at(
            mint_id,
            creator,
            reject_reason,
            tx_signature,
            attempt_index,
            details,
            now,
        );
    }

    /// Notes and reports a filled entry.
    pub fn record_entry_fill_at(
        &mut self,
        mint_id: &str,
        creator: &str,
        fill_price: Double,
        fill_qty: Double,
        tx_signature: &str,
        wallet_balance_after: Double,
        confirmation_source: &str,
        attempt_index: usize,
        now: Timestamp,
    )
        requires
            old(self).wf(),
            old(self)@.has_room(),
        ensures
            final(self).wf(),
            final(self)@ == old(self)@.entry_filled(
                mint_id@,
                creator@,
                fill_price,
                fill_qty,
                tx_signature@,
                wallet_balance_after,
                confirmation_source@,
                attempt_index,
                now,
            ),
            entry_fill_is_told(
                old(self)@,
                final(self)@,
                mint_id@,
                creator@,
                fill_price,
                fill_qty,
                tx_signature@,
                wallet_balance_after,
                confirmation_source@,
                attempt_index,
                now,
            ),
    {
        proof {
            an_entry_fill_reports_what_was_given(
                self@,
                mint_id@,
                creator@,
                fill_price,
                fill_qty,
                tx_signature@,
                wallet_balance_after,
                confirmation_source@,
                attempt_index,
                now,
            );
        }
        let session = self.ensure_session_locked(mint_id, Some(creator), None, None, None);
        let session_id = session.session_id.clone();
        let started_at = session.attempt_start(attempt_index, now);
        session.note_fill(now, fill_price);
        let payload = entry_fill_payload(
            attempt_index,
            fill_price,
            fill_qty,
            latency_ms(started_at, now),
            tx_signature,
            wallet_balance_after,
            confirmation_source,
        );
        self.emit_locked(
            "entry_fill",
            payload,
            Some(session_id.as_str()),
            Some(mint_id),
            Some(creator),
            now,
        );
    }

    /// Notes and reports a filled entry, at the current time.
    pub fn record_entry_fill(
        &mut self,
        mint_id: &str,
        creator: &str,
        fill_price: Double,
        fill_qty: Double,
        tx_signature: &str,
        wallet_balance_after: Double,
        confirmation_source: &str,
        attempt_index: usize,
    )
        requires
            old(self).wf(),
            old(self)@.has_room(),
        ensures
            final(self).wf(),
            exists|now: Timestamp|
                now.seconds() >= 0 && final(self)@ == #[trigger] old(self)@.entry_filled(
                    mint_id@,
                    creator@,
                    fill_price,
                    fill_qty,
                    tx_signature@,
                    wallet_balance_after,
                    confirmation_source@,
                    attempt_index,
                    now,
                ) && entry_fill_is_told(
                    old(self)@,
                    final(self)@,
                    mint_id@,
                    creator@,
                    fill_price,
                    fill_qty,
                    tx_signature@,
                    wallet_balance_after,
                    confirmation_source@,
                    attempt_index,
                    now,
                ),
    {
        let now = Timestamp::now();
        self.record_entry_fill_at(
            mint_id,
            creator,
            fill_price,
            fill_qty,
            tx_signature,
            wallet_balance_after,
            confirmation_source,
            attempt_index,
            now,
        );
    }

    /// Notes and reports a price tick.
    pub fn record_session_update_at(
        &mut self,
        mint_id: &str,
        creator: &str,
        price: Double,
        highest_price: Double,
        buys: i64,
        sells: i64,
        liquidity: Double,
        state_reason: &str,
        creator_token_amount: Double,
        creator_sold: bool,
        txns_in_zero: i64,
        txns_in_n: i64,
        now: Timestamp,
    )
        requires
            old(self).wf(),
            old(self)@.has_room(),
        ensures
            final(self).wf(),
            final(self)@ == old(self)@.session_updated(
                mint_id@,
                creator@,
                price,
                highest_price,
                buys,
                sells,
                liquidity,
                state_reason@,
                creator_token_amount,
                creator_sold,
                txns_in_zero,
                txns_in_n,
                now,
            ),
            tick_is_told(
                old(self)@,
                final(self)@,
                mint_id@,
                creator@,
                price,
                highest_price,
                buys,
                sells,
                liquidity,
                state_reason@,
                creator_token_amount,
                creator_sold,
                txns_in_zero,
                txns_in_n,
                now,
            ),
    {
        proof {
            a_tick_reports_what_was_given(
                self@,
                mint_id@,
                creator@,
                price,
                highest_price,
                buys,
                sells,
                liquidity,
                state_reason@,
                creator_token_amount,
                creator_sold,
                txns_in_zero,
                txns_in_n,
                now,
            );
        }
        let session = self.ensure_session_locked(mint_id, Some(creator), None, None, None);
        let session_id = session.session_id.clone();
        let (price, high) = session.note_tick(now, price, highest_price);
        let entry_basis = session.entry_price();
        let peak_price = session.peak_price;
        let low_price = session.low_price;
        let payload = session_update_payload(
            price,
            high,
            buys,
            sells,
            liquidity,
            entry_basis,
            peak_price,
            low_price,
            state_reason,
            creator_token_amount,
            creator_sold,
            txns_in_zero,
            txns_in_n,
        );
        self.emit_locked(
            "session_update",
            payload,
            Some(session_id.as_str()),
            Some(mint_id),
            Some(creator),
            now,
        );
    }

    /// Notes and reports a price tick, at the current time.
    pub fn record_session_update(
        &mut self,
        mint_id: &str,
        creator: &str,
        price: Double,
        highest_price: Double,
        buys: i64,
        sells: i64,
        liquidity: Double,
        state_reason: &str,
        creator_token_amount: Double,
        creator_sold: bool,
        txns_in_zero: i64,
        txns_in_n: i64,
    )
        requires
            old(self).wf(),
            old(self)@.has_room(),
        ensures
            final(self).wf(),
            exists|now: Timestamp|
                now.seconds() >= 0 && final(self)@ == #[trigger] old(self)@.session_updated(
                    mint_id@,
                    creator@,
                    price,
                    highest_price,
                    buys,
                    sells,
                    liquidity,
                    state_reason@,
                    creator_token_amount,
                    creator_sold,
                    txns_in_zero,
                    txns_in_n,
                    now,
                ) && tick_is_told(
                    old(self)@,
                    final(self)@,
                    mint_id@,
                    creator@,
                    price,
                    highest_price,
                    buys,
                    sells,
                    liquidity,
                    state_reason@,
                    creator_token_amount,
                    creator_sold,
                    txns_in_zero,
                    txns_in_n,
                    now,
                ),
    {
        let now = Timestamp::now();
        self.record_session_update_at(
            mint_id,
            creator,
            price,
            highest_price,
            buys,
            sells,
            liquidity,
            state_reason,
            creator_token_amount,
            creator_sold,
            txns_in_zero,
            txns_in_n,
            now,
        );
    }

    /// Notes and reports the first signal to leave.
    pub fn record_exit_signal_at(
        &mut self,
        mint_id: &str,
        creator: &str,
        exit_reason: &str,
        signal_price: Double,
        theoretical_best_price: Double,
        now: Timestamp,
    )
        requires
            old(self).wf(),
            old(self)@.session_of(mint_id@).exit_signal_at is Some || old(self)@.has_room(),
        ensures
            final(self).wf(),
            final(self)@ == old(self)@.exit_signalled(
                mint_id@,
                creator@,
                exit_reason@,
                signal_price,
                theoretical_best_price,
                now,
            ),
            exit_signal_is_told(
                old(self)@,
                final(self)@,
                mint_id@,
                creator@,
                exit_reason@,
                signal_price,
                theoretical_best_price,
                now,
            ),
    {
        proof {
            an_exit_signal_reports_what_was_given(
                self@,
                mint_id@,
                creator@,
                exit_reason@,
                signal_price,
                theoretical_best_price,
                now,
            );
        }
        let session = self.ensure_session_locked(mint_id, Some(creator), None, None, None);
        if session.exit_signal_at.is_some() {
            return ;
        }
        let session_id = session.session_id.clone();
        session.note_exit_signal(now, exit_reason, signal_price);
        let payload = exit_signal_payload(exit_reason, signal_price, theoretical_best_price);
        self.emit_locked(
            "exit_signal",
            payload,
            Some(session_id.as_str()),
            Some(mint_id),
            Some(creator),
            now,
        );
    }

    /// Notes and reports the first signal to leave, at the current time.
    pub fn record_exit_signal(
        &mut self,
        mint_id: &str,
        creator: &str,
        exit_reason: &str,
        signal_price: Double,
        theoretical_best_price: Double,
    )
        requires
            old(self).wf(),
            old(self)@.session_of(mint_id@).exit_signal_at is Some || old(self)@.has_room(),
        ensures
            final(self).wf(),
            exists|now: Timestamp|
                now.seconds() >= 0 && final(self)@ == #[trigger] old(self)@.exit_signalled(
                    mint_id@,
                    creator@,
                    exit_reason@,
                    signal_price,
                    theoretical_best_price,
                    now,
                ) && exit_signal_is_told(
                    old(self)@,
                    final(self)@,
                    mint_id@,
                    creator@,
                    exit_reason@,
                    signal_price,
                    theoretical_best_price,
                    now,
                ),
    {
        let now = Timestamp::now();
        self.record_exit_signal_at(
            mint_id,
            creator,
            exit_reason,
            signal_price,
            theoretical_best_price,
            now,
        );
    }

    /// Notes and reports a filled exit.
    pub fn record_exit_fill_at(
        &mut self,
        mint_id: &str,
        creator: &str,
        fill_price: Double,
        fill_qty: Double,
        tx_signature: &str,
        exit_reason: &str,
        wallet_balance_after: Double,
        now: Timestamp,
    )
        requires
            old(self).wf(),
            old(self)@.has_room(),
        ensures
            final(self).wf(),
            final(self)@ == old(self)@.exit_filled(
                mint_id@,
                creator@,
                fill_price,
                fill_qty,
                tx_signature@,
                exit_reason@,
                wallet_balance_after,
                now,
            ),
            exit_fill_is_told(
                old(self)@,
                final(self)@,
                mint_id@,
                creator@,
                fill_price,
                fill_qty,
                tx_signature@,
                exit_reason@,
                wallet_balance_after,
                now,
            ),
    {
        proof {
            an_exit_fill_reports_what_was_given(
                self@,
                mint_id@,
                creator@,
                fill_price,
                fill_qty,
                tx_signature@,
                exit_reason@,
                wallet_balance_after,
                now,
            );
        }
        let session = self.ensure_session_locked(mint_id, Some(creator), None, None, None);
        let session_id = session.session_id.clone();
        let signal_time = session.exit_signal_at.unwrap_or(now);
        session.note_exit_fill(now, fill_price);
        let payload = exit_fill_payload(
            fill_price,
            fill_qty,
            latency_ms(signal_time, now),
            tx_signature,
            exit_reason,
            wallet_balance_after,
        );
        self.emit_locked(
            "exit_fill",
            payload,
            Some(session_id.as_str()),
            Some(mint_id),
            Some(creator),
            now,
        );
    }

    /// Notes and reports a filled exit, at the current time.
    pub fn record_exit_fill(
        &mut self,
        mint_id: &str,
        creator: &str,
        fill_price: Double,
        fill_qty: Double,
        tx_signature: &str,
        exit_reason: &str,
        wallet_balance_after: Double,
    )
        requires
            old(self).wf(),
            old(self)@.has_room(),
        ensures
            final(self).wf(),
            exists|now: Timestamp|
                now.seconds() >= 0 && final(self)@ == #[trigger] old(self)@.exit_filled(
                    mint_id@,
                    creator@,
                    fill_price,
                    fill_qty,
                    tx_signature@,
                    exit_reason@,
                    wallet_balance_after,
                    now,
                ) && exit_fill_is_told(
                    old(self)@,
                    final(self)@,
                    mint_id@,
                    creator@,
                    fill_price,
                    fill_qty,
                    tx_signature@,
                    exit_reason@,
                    wallet_balance_after,
                    now,
                ),
    {
        let now = Timestamp::now();
        self.record_exit_fill_at(
            mint_id,
            creator,
            fill_price,
            fill_qty,
            tx_signature,
            exit_reason,
            wallet_balance_after,
            now,
        );
    }

    fn export_session_summary_locked(&mut self, mint_id: &str, now: Timestamp)
        requires
            old(self).wf(),
            old(self)@.sessions.contains_key(mint_id@),
        ensures
            final(self).wf(),
            final(self)@ == old(self)@.summarized(old(self)@.sessions[mint_id@], now),
    {
        let session = match self.sessions.get(mint_id) {
            Some(session) => session,
            None => {
                return ;
            },
        };
        let closed_time = session.closed_time(self.ended_at.unwrap_or(now));
        let mut o = ObjectBuilder::new();
        o.put("run_id", json_str(self.run_id.as_str()));
        o.put("session_id", json_str(session.session_id.as_str()));
        o.put("mint", json_str(session.mint.as_str()));
        o.put("creator", json_opt_str(&session.creator));
        o.put("candidate_source", json_opt_str(&session.candidate_source));
        o.put("market", json_opt_str(&session.market));
        o.put("pool_id", json_opt_str(&session.pool_id));
        put_outcome(&mut o, session, self.started_at, closed_time);
        o.put("closed_at_utc", Json::Str(isoformat_utc(closed_time)));
        o.put("exit_reason", json_opt_str(&session.exit_reason));
        let file_name = join2(session.session_id.as_str(), ".json");
        let path = self.layout.export_dir.join("sessions").join(file_name.as_str());
        self.ask(Action::WriteDocument { path: path.copy(), document: o.build() });
        let ghost listed = self@.session_summary_paths;
        self.session_summary_paths.push(path.copy());
        assert(self@.session_summary_paths =~= listed.push(path.model()));
    }

    /// Notes, reports and sums up that a position was closed, the first time.
    pub fn record_position_closed_at(
        &mut self,
        mint_id: &str,
        creator: &str,
        stale_position_flag: bool,
        now: Timestamp,
        summary_now: Timestamp,
    )
        requires
            old(self).wf(),
            old(self)@.session_of(mint_id@).closed || old(self)@.has_room(),
        ensures
            final(self).wf(),
            final(self)@ == old(self)@.position_closed(
                mint_id@,
                creator@,
                stale_position_flag,
                now,
                summary_now,
            ),
    {
        let started_at = self.started_at;
        let session = self.ensure_session_locked(mint_id, Some(creator), None, None, None);
        if session.closed {
            return ;
        }
        let session_id = session.session_id.clone();
        let closed_time = session.closed_time(now);
        let payload = position_closed_payload(
            session,
            started_at,
            closed_time,
            stale_position_flag,
        );
        session.note_closed();
        self.emit_locked(
            "position_closed",
            payload,
            Some(session_id.as_str()),
            Some(mint_id),
            Some(creator),
            closed_time,
        );
        self.export_session_summary_locked(mint_id, summary_now);
        self.write_state_locked("session_closed");
    }

    /// Notes, reports and sums up, at the current time, that a position was closed, the first time.
    pub fn record_position_closed(
        &mut self,
        mint_id: &str,
        creator: &str,
        stale_position_flag: bool,
    )
        requires
            old(self).wf(),
            old(self)@.session_of(mint_id@).closed || old(self)@.has_room(),
        ensures
            final(self).wf(),
            exists|now: Timestamp, summary_now: Timestamp|
                now.seconds() >= 0 && summary_now.seconds() >= 0 && final(self)@
                    == #[trigger] old(self)@.position_closed(
                    mint_id@,
                    creator@,
                    stale_position_flag,
                    now,
                    summary_now,
                ),
    {
        let now = Timestamp::now();
        let summary_now = Timestamp::now();
        self.record_position_closed_at(mint_id, creator, stale_position_flag, now, summary_now);
    }

    /// Winds the run up and reports it, the first time.
    pub fn finalize_at(&mut self, now: Timestamp)
        requires
            old(self).wf(),
            old(self)@.finalized || old(self)@.has_room(),
        ensures
            final(self).wf(),
            final(self)@ == old(self)@.wound_up(now),
    {
        if self.finalized {
            return ;
        }
        let events = self.event_counts.total();
        let replayable = self.config_path.is_some() && self.candidate_snapshot_paths.len() > 0;
        let mut o = ObjectBuilder::new();
        o.put("candidate_count", Json::UInt(self.event_counts.get("creator_candidate") as u64));
        o.put("entry_attempt_count", Json::UInt(self.event_counts.get("entry_attempt") as u64));
        o.put("entry_fill_count", Json::UInt(self.event_counts.get("entry_fill") as u64));
        o.put("position_closed_count", Json::UInt(self.event_counts.get("position_closed") as u64));
        o.put("event_count", Json::UInt((events + 1) as u64));
        o.put("replayable", Json::Bool(replayable));
        let payload = o.build();
        assert(payload.model() == self@.summary_payload());
        self.finalized = true;
        self.ended_at = Some(now);
        self.emit_locked("run_summary", payload, None, None, None, now);
        self.write_state_locked("completed");
    }

    /// Winds the run up now and reports it, the first time.
    pub fn finalize(&mut self)
        requires
            old(self).wf(),
            old(self)@.finalized || old(self)@.has_room(),
        ensures
            final(self).wf(),
            exists|now: Timestamp|
                now.seconds() >= 0 && final(self)@ == #[trigger] old(self)@.wound_up(now),
    {
        let now = Timestamp::now();
        self.finalize_at(now);
    }
}

} // verus!
