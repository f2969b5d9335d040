//! The recorder of a run, from its first document to its summary.

use mew::actions::Action;
use mew::candidates::{passing_count, CandidateObservation, CandidateSelectionReport};
use mew::clock::{isoformat_utc, Timestamp};
use mew::counts::NamedCount;
use mew::double::{Double, Percent};
use mew::export::{can_export, ExportEnvironment};
use mew::instrumentation::{MewInstrumentation, RunEnvironment};
use mew::json::{json_str, Field, Json};
use mew::layout::{LayoutEnvironment, FIXED_WINDOWS_ROOT};
use mew::paths::RuntimePath;
use mew::render::{document_contents, event_line};
use mew::settings::{AlgoConfig, Config, GrandChillers, SnipeConfig, StratsConfig, TxSettings};
use serde_json::Value;

fn text(s: &str) -> String {
    s.to_string()
}

fn double(x: f64) -> Double {
    Double { bits: x.to_bits() }
}

fn at(secs: i64, millis: u32) -> Timestamp {
    Timestamp::new(secs, millis * 1_000_000).unwrap()
}

fn tx_settings() -> TxSettings {
    TxSettings {
        tx_strat: text("rpc"),
        nextblock_key: text("nextblock-key"),
        zero_slot_key: text("zero-slot-key"),
        temporal_key: text("temporal-key"),
        blox_key: text("blox-key"),
        tip_lamports: 1234,
    }
}

fn environment() -> RunEnvironment {
    RunEnvironment {
        layout: LayoutEnvironment {
            runtime_root: Some(text(FIXED_WINDOWS_ROOT)),
            output_root: Some(text("/tmp/out")),
            windows: false,
            preferred_root_exists: false,
        },
        source_commit: Some(text("deadbeef")),
        git_head: None,
        run_id: Some(text("mewx-test-run")),
        hostname: None,
        computername: None,
        mode: text("sim"),
        use_grpc: false,
        tx_settings: tx_settings(),
    }
}

/// A run that began at second 1000, with nothing left to do.
fn quiet_run() -> MewInstrumentation {
    let mut run = MewInstrumentation::new_at(&environment(), at(999, 0), at(1000, 0));
    run.take_actions();
    run
}

fn path_text(path: &RuntimePath) -> String {
    let mut out = path.root.clone();
    for segment in &path.segments {
        out.push('/');
        out.push_str(segment);
    }
    out
}

fn number(x: Double) -> Value {
    Value::from(f64::from_bits(x.bits))
}

fn value(json: &Json) -> Value {
    match json {
        Json::Null => Value::Null,
        Json::Bool(b) => Value::from(*b),
        Json::UInt(n) => Value::from(*n),
        Json::Int(n) => Value::from(*n),
        Json::Float(x) => number(*x),
        Json::Percent(Percent::Zero) => Value::from(0.0),
        Json::Percent(Percent::Change { entry, value }) => {
            let entry = f64::from_bits(entry.bits);
            let value = f64::from_bits(value.bits);
            Value::from(((value - entry) / entry) * 100.0)
        }
        Json::Str(s) => Value::from(s.as_str()),
        Json::Path(p) => Value::from(path_text(p)),
        Json::Array(items) => Value::Array(items.iter().map(value).collect()),
        Json::Object(fields) => {
            let mut map = serde_json::Map::new();
            for field in fields {
                map.insert(field.key.clone(), value(&field.value));
            }
            Value::Object(map)
        }
    }
}

/// The events among the actions, and the last document under each path.
fn perform(actions: Vec<Action>) -> (Vec<Value>, Vec<(String, Value)>) {
    let mut events = Vec::new();
    let mut documents: Vec<(String, Value)> = Vec::new();
    for action in actions {
        match action {
            Action::EnsureDir(_) => {}
            Action::AppendLine { path, line } => {
                assert_eq!(path_text(&path), "/tmp/out/data/raw/mewx/mewx-test-run.ndjson");
                let line = event_line(&value(&line));
                assert!(line.ends_with('\n'));
                events.push(serde_json::from_str(line.as_str()).unwrap());
            }
            Action::WriteDocument { path, document } => {
                let contents = document_contents(&value(&document)).unwrap();
                let path = path_text(&path);
                documents.retain(|entry| entry.0 != path);
                documents.push((path, serde_json::from_str(contents.as_str()).unwrap()));
            }
        }
    }
    (events, documents)
}

fn events_of(run: &mut MewInstrumentation) -> Vec<Value> {
    perform(run.take_actions()).0
}

fn document<'a>(documents: &'a [(String, Value)], path: &str) -> &'a Value {
    &documents.iter().find(|entry| entry.0 == path).unwrap().1
}

fn state_of(run: &mut MewInstrumentation) -> Value {
    let documents = perform(run.take_actions()).1;
    document(&documents, STATE_PATH).clone()
}

const STATE_PATH: &str = "/tmp/out/runtime/mewx/export/mewx-test-run.state.json";

fn algo_config() -> AlgoConfig {
    AlgoConfig {
        limit: 5,
        use_vc: true,
        use_deagles: true,
        min_volume: double(10.0),
        min_buys: 2,
        min_mints: 1,
        min_deagle_sol: Some(double(20.0)),
        grand_chillers: None,
    }
}

fn snipe_config() -> SnipeConfig {
    SnipeConfig {
        buy_amount: double(0.01),
        slippage: double(2.0),
        max_loss: double(10.0),
        take_profit: double(20.0),
        use_chp: true,
        chp_lower: double(0.1),
        chp_upper: double(0.2),
        use_tiz: true,
        tiz_lower: 3,
        tiz_upper: 21,
        max_no_activity_ms: 1000,
        max_na_on_start_ms: 250,
        min_dev_sold: 1,
    }
}

fn strats_config() -> StratsConfig {
    StratsConfig {
        enable_abs: true,
        abs_min_buys: 2,
        abs_min_volume: double(5.0),
        abs_n: 2,
        enable_mtd: true,
        mtd_pct: 10,
        mtd_stable_time: 10,
        mtd_max_loss: double(10.0),
        mtd_take_profit: double(15.0),
        mtd_min_mc: double(100.0),
        enable_dbf: true,
        dbf_max_chp: double(0.25),
    }
}

fn config() -> Config {
    Config::new(
        text("https://rpc.example.com"),
        text("secret"),
        text("wss://ws.example.com"),
        Some(text("https://grpc.example.com")),
        Some(text("grpc-token")),
        Some(text("nonce-account")),
    )
}

fn initial_counts() -> Vec<NamedCount> {
    vec![
        NamedCount { name: text("deagle"), count: 1 },
        NamedCount { name: text("vol_creators"), count: 1 },
    ]
}

fn export_environment() -> ExportEnvironment {
    ExportEnvironment {
        private_key: Some(text("super-secret-private-key")),
        db_url: Some(text("postgres://db.example.com")),
        regions: None,
    }
}

fn observation(source: &str, creator: &str) -> CandidateObservation {
    CandidateObservation {
        creator: text(creator),
        source_label: text(source),
        score_components: Json::Object(vec![Field {
            key: text("deagle_sol_amount"),
            value: Json::Float(double(42.0)),
        }]),
        score_total: double(42.0),
        cohort_size: 1,
        reason: text("deagle_transfer_threshold"),
    }
}

fn report() -> CandidateSelectionReport {
    CandidateSelectionReport {
        creators: Vec::new(),
        observations: vec![observation("deagle", "creator-1")],
        source_counts: initial_counts(),
    }
}

fn export_config(run: &mut MewInstrumentation) -> Option<RuntimePath> {
    assert!(can_export(&config(), &tx_settings(), &export_environment()));
    run.export_masked_config_at(
        &config(),
        &algo_config(),
        &snipe_config(),
        &strats_config(),
        &tx_settings(),
        &initial_counts(),
        &export_environment(),
        at(1001, 0),
    )
}

fn observe(run: &mut MewInstrumentation, mint: &str, price: f64, now: Timestamp) -> String {
    run.observe_mint_at(
        mint,
        "creator-1",
        "pump_fun",
        Some("deagle"),
        "pool-1",
        42,
        double(price),
        false,
        Json::Null,
        now,
    )
}

fn signal_entry(run: &mut MewInstrumentation, mint: &str, price: f64, now: Timestamp) {
    run.record_entry_signal_at(
        mint,
        "creator-1",
        "deagle",
        "pump_fun",
        "matched_creator_candidate",
        double(price),
        42,
        "pool-1",
        now,
    );
}

fn attempt(run: &mut MewInstrumentation, mint: &str, started_at: Timestamp) -> usize {
    run.record_entry_attempt_at(
        mint,
        "creator-1",
        "deagle",
        "pump_fun",
        "pump_fun",
        double(0.00013),
        double(1000.0),
        200,
        double(10.0),
        "rpc",
        "rpc",
        123,
        0,
        3,
        started_at,
        started_at,
    )
}

fn fill(run: &mut MewInstrumentation, mint: &str, price: f64, index: usize, now: Timestamp) {
    run.record_entry_fill_at(
        mint,
        "creator-1",
        double(price),
        double(950.0),
        "buy-tx",
        double(9.5),
        "transport_ack",
        index,
        now,
    );
}

fn tick(run: &mut MewInstrumentation, mint: &str, price: f64, highest: f64, now: Timestamp) {
    run.record_session_update_at(
        mint,
        "creator-1",
        double(price),
        double(highest),
        10,
        2,
        double(2500.0),
        "price_tick",
        double(0.0),
        false,
        1,
        5,
        now,
    );
}

fn approx(value: &Value, expected: f64) -> bool {
    (value.as_f64().unwrap() - expected).abs() < 1e-9
}

#[test]
fn instrumentation_writes_expected_artifacts() {
    let mut writer = MewInstrumentation::new(&environment());
    let report = report();
    let config_path = writer
        .export_masked_config(
            &config(),
            &algo_config(),
            &snipe_config(),
            &strats_config(),
            &tx_settings(),
            &initial_counts(),
            &export_environment(),
        )
        .unwrap();
    let snapshot_path = writer
        .export_candidate_snapshot("initial", &report, &vec![text("deagle::creator-1")], &vec![])
        .unwrap();
    writer.emit_creator_candidates(&report, "initial_load", None);
    writer.observe_mint(
        "mint-1",
        "creator-1",
        "pump_fun",
        Some("deagle"),
        "pool-1",
        42,
        double(0.00012),
        false,
        Json::Object(vec![Field { key: text("name"), value: json_str("Mint One") }]),
    );
    writer.record_entry_signal(
        "mint-1",
        "creator-1",
        "deagle",
        "pump_fun",
        "matched_creator_candidate",
        double(0.00013),
        42,
        "pool-1",
    );
    let attempt_index = writer.record_entry_attempt(
        "mint-1",
        "creator-1",
        "deagle",
        "pump_fun",
        "pump_fun",
        double(0.00013),
        double(1000.0),
        200,
        double(10.0),
        "rpc",
        "rpc",
        123,
        0,
        0,
    );
    writer.record_entry_fill(
        "mint-1",
        "creator-1",
        double(0.00014),
        double(950.0),
        "buy-tx",
        double(9.5),
        "transport_ack",
        attempt_index,
    );
    writer.record_session_update(
        "mint-1",
        "creator-1",
        double(0.00016),
        double(0.00018),
        10,
        2,
        double(2500.0),
        "price_tick",
        double(0.0),
        false,
        1,
        5,
    );
    writer.record_exit_signal(
        "mint-1",
        "creator-1",
        "take_profit",
        double(0.00017),
        double(0.00018),
    );
    writer.record_exit_fill(
        "mint-1",
        "creator-1",
        double(0.00017),
        double(950.0),
        "sell-tx",
        "take_profit",
        double(10.1),
    );
    writer.record_position_closed("mint-1", "creator-1", false);
    writer.finalize();

    let (events, documents) = perform(writer.take_actions());
    let expected = "/tmp/out/runtime/mewx/config/mewx-test-run.config.json";
    assert_eq!(path_text(&config_path), expected);
    assert!(document(&documents, expected).is_object());
    let expected = "/tmp/out/runtime/mewx/export/candidates/mewx-test-run.candidates.initial.json";
    assert_eq!(path_text(&snapshot_path), expected);
    assert!(document(&documents, expected).is_object());

    let event_types: Vec<&str> =
        events.iter().filter_map(|event| event["event_type"].as_str()).collect();
    assert!(event_types.contains(&"creator_candidate"));
    assert!(event_types.contains(&"mint_observed"));
    assert!(event_types.contains(&"entry_fill"));
    assert!(event_types.contains(&"position_closed"));
    assert_eq!(event_types.last().copied(), Some("run_summary"));
    assert_eq!(events.len(), 10);
    assert_eq!(events[1]["payload"]["name"], Value::from("Mint One"));
    for event in &events {
        assert_eq!(event["ts_utc"].as_str().unwrap().len(), 24);
        assert_eq!(event["mode"], Value::from("sim_live"));
        assert_eq!(event["transport_mode"], Value::from("mixed"));
    }
    assert_eq!(events[9]["payload"]["replayable"], Value::from(true));
    assert_eq!(events[9]["payload"]["event_count"], Value::from(10));
    assert_eq!(document(&documents, STATE_PATH)["status"], Value::from("completed"));
}

#[test]
fn a_run_begins_with_its_directories_and_its_state() {
    let mut run = MewInstrumentation::new_at(&environment(), at(999, 0), at(1000, 7));
    let actions = run.take_actions();
    assert_eq!(actions.len(), 7);
    let expected = [
        "/tmp/out/runtime/mewx/config",
        "/tmp/out/runtime/mewx/export",
        "/tmp/out/data/raw/mewx",
        "/tmp/out/data/logs/mewx",
        "/tmp/out/data/replays/mewx",
        "/tmp/out/data/postgres/mewx",
    ];
    for i in 0..6 {
        match &actions[i] {
            Action::EnsureDir(path) => assert_eq!(path_text(path), expected[i]),
            other => panic!("unexpected {:?}", other),
        }
    }
    let (events, documents) = perform(actions);
    assert!(events.is_empty());
    let state = document(&documents, STATE_PATH);
    assert_eq!(state["run_id"], Value::from("mewx-test-run"));
    assert_eq!(state["status"], Value::from("initialized"));
    assert_eq!(state["source_system"], Value::from("mewx"));
    assert_eq!(state["source_commit"], Value::from("deadbeef"));
    assert_eq!(state["mode"], Value::from("sim_live"));
    assert_eq!(state["transport_mode"], Value::from("mixed"));
    assert_eq!(state["host_role"], Value::from("windows_runtime"));
    assert_eq!(state["started_at_utc"], Value::from("1970-01-01T00:16:40.007Z"));
    assert_eq!(state["ended_at_utc"], Value::Null);
    assert_eq!(state["event_counts"].as_object().unwrap().len(), 0);
    let paths = &state["paths"];
    assert_eq!(
        paths["raw_events_file"],
        Value::from("/tmp/out/data/raw/mewx/mewx-test-run.ndjson")
    );
    assert_eq!(paths["config_snapshot"], Value::Null);
    assert_eq!(paths["candidate_snapshots"].as_array().unwrap().len(), 0);
    assert_eq!(paths["session_summaries"].as_array().unwrap().len(), 0);
    assert_eq!(
        paths["runtime_layout"]["db_exports_dir"],
        Value::from("C:\\Users\\bot\\quant\\Vexter\\data\\postgres\\mewx")
    );
}

#[test]
fn an_unnamed_run_is_named_after_host_and_time() {
    let mut env = environment();
    env.run_id = Some(String::new());
    env.hostname = None;
    env.computername = Some(text("BOX-7"));
    let mut run = MewInstrumentation::new_at(&env, at(1_700_000_000, 0), at(1_700_000_001, 0));
    let (_, documents) = perform(run.take_actions());
    let id = "mewx-box-7-20231114T221320Z";
    let state =
        document(&documents, &format!("/tmp/out/runtime/mewx/export/{}.state.json", id));
    assert_eq!(state["run_id"], Value::from(id));
}

#[test]
fn requests_are_handed_out_once() {
    let mut run = MewInstrumentation::new_at(&environment(), at(999, 0), at(1000, 0));
    assert_eq!(run.take_actions().len(), 7);
    assert_eq!(run.take_actions().len(), 0);
    observe(&mut run, "mint-1", 0.1, at(1001, 0));
    assert_eq!(run.take_actions().len(), 2);
}

#[test]
fn room_is_what_the_counter_leaves() {
    let mut run = quiet_run();
    assert!(run.room_for(usize::MAX));
    observe(&mut run, "mint-1", 0.1, at(1001, 0));
    assert!(run.room_for(usize::MAX - 1));
    assert!(!run.room_for(usize::MAX));
}

#[test]
fn events_are_numbered_and_attributed() {
    let mut run = quiet_run();
    observe(&mut run, "mint-1", 0.00012, at(1001, 5));
    run.emit_creator_candidate_at(&observation("deagle", "c-9"), "initial_load", None, at(1002, 0));
    let events = events_of(&mut run);
    assert_eq!(events[0]["event_id"], Value::from("mewx-test-run-000001"));
    assert_eq!(events[0]["run_id"], Value::from("mewx-test-run"));
    assert_eq!(events[0]["ts_utc"], Value::from("1970-01-01T00:16:41.005Z"));
    assert_eq!(events[0]["session_id"], Value::from("mint-1-1000000"));
    assert_eq!(events[0]["mint"], Value::from("mint-1"));
    assert_eq!(events[0]["creator"], Value::from("creator-1"));
    assert_eq!(events[1]["event_id"], Value::from("mewx-test-run-000002"));
    assert_eq!(events[1]["event_type"], Value::from("creator_candidate"));
    assert_eq!(events[1]["creator"], Value::from("c-9"));
    assert!(events[1].get("session_id").is_none());
    assert!(events[1].get("mint").is_none());
    for i in 0..1200 {
        tick(&mut run, "mint-1", 1.0, 1.0, at(2000 + i, 0));
    }
    let events = events_of(&mut run);
    assert_eq!(events[1199]["event_id"], Value::from("mewx-test-run-001202"));
}

#[test]
fn the_state_follows_every_event() {
    let mut run = quiet_run();
    observe(&mut run, "mint-1", 0.1, at(1001, 0));
    tick(&mut run, "mint-1", 0.2, 0.2, at(1002, 0));
    tick(&mut run, "mint-1", 0.3, 0.3, at(1003, 0));
    let state = state_of(&mut run);
    assert_eq!(state["status"], Value::from("running"));
    assert_eq!(state["event_counts"]["mint_observed"], Value::from(1));
    assert_eq!(state["event_counts"]["session_update"], Value::from(2));
    assert_eq!(state["event_counts"].as_object().unwrap().len(), 2);
}

#[test]
fn a_mint_is_observed_once() {
    let mut run = quiet_run();
    let first = observe(&mut run, "mint-1", f64::NAN, at(1001, 0));
    let again = observe(&mut run, "mint-1", 0.5, at(1002, 0));
    assert_eq!(first, "mint-1-1000000");
    assert_eq!(again, first);
    let events = events_of(&mut run);
    assert_eq!(events.len(), 1);
    let payload = &events[0]["payload"];
    assert_eq!(payload["market"], Value::from("pump_fun"));
    assert_eq!(payload["pool_id"], Value::from("pool-1"));
    assert_eq!(payload["first_seen_slot"], Value::from(42));
    assert_eq!(payload["open_price"], Value::from(0.0));
    assert_eq!(payload["is_migrated"], Value::from(false));
    assert_eq!(payload["candidate_source"], Value::from("deagle"));
}

#[test]
fn extra_fields_override_the_reported_ones() {
    let mut run = quiet_run();
    let extra = Json::Object(vec![
        Field { key: text("market"), value: json_str("elsewhere") },
        Field { key: text("name"), value: json_str("Mint Two") },
    ]);
    run.observe_mint_at(
        "mint-2",
        "creator-1",
        "pump_swap",
        None,
        "pool-2",
        7,
        double(0.5),
        true,
        extra,
        at(1001, 0),
    );
    let payload = events_of(&mut run)[0]["payload"].clone();
    assert_eq!(payload["market"], Value::from("elsewhere"));
    assert_eq!(payload["name"], Value::from("Mint Two"));
    assert_eq!(payload["candidate_source"], Value::Null);
    assert_eq!(payload["is_migrated"], Value::from(true));
}

#[test]
fn rejections_carry_their_details() {
    let mut run = quiet_run();
    let details = Json::Object(vec![Field { key: text("limit"), value: Json::Int(-3) }]);
    run.record_candidate_rejected_at(
        "mint-1",
        "creator-1",
        "deagle",
        "too_old",
        "age",
        Some(details),
        at(1001, 0),
    );
    run.record_candidate_rejected_at(
        "mint-1",
        "creator-1",
        "deagle",
        "too_old",
        "age",
        Some(Json::Bool(true)),
        at(1002, 0),
    );
    run.record_entry_rejected_at(
        "mint-1",
        "creator-1",
        "slippage",
        "tx-1",
        0,
        None,
        at(1003, 0),
    );
    run.record_entry_rejected_at(
        "mint-1",
        "creator-1",
        "slippage",
        "tx-2",
        4,
        Some(Json::Object(vec![Field { key: text("reject_reason"), value: Json::Null }])),
        at(1004, 0),
    );
    let events = events_of(&mut run);
    assert_eq!(events[0]["event_type"], Value::from("candidate_rejected"));
    assert_eq!(events[0]["payload"]["limit"], Value::from(-3));
    assert_eq!(events[0]["payload"]["gate_name"], Value::from("age"));
    assert_eq!(events[0]["payload"]["candidate_source"], Value::from("deagle"));
    assert_eq!(events[1]["payload"].as_object().unwrap().len(), 3);
    assert_eq!(events[2]["event_type"], Value::from("entry_rejected"));
    assert_eq!(events[2]["payload"]["attempt_index"], Value::from(1));
    assert_eq!(events[2]["payload"]["tx_signature"], Value::from("tx-1"));
    assert_eq!(events[3]["payload"]["attempt_index"], Value::from(4));
    assert_eq!(events[3]["payload"]["reject_reason"], Value::Null);
}

#[test]
fn an_entry_is_signalled_once_and_timed() {
    let mut run = quiet_run();
    observe(&mut run, "mint-1", 0.1, at(1001, 0));
    signal_entry(&mut run, "mint-1", 0.00013, at(1003, 250));
    signal_entry(&mut run, "mint-1", 0.5, at(1009, 0));
    signal_entry(&mut run, "mint-2", f64::INFINITY, at(1009, 0));
    let events = events_of(&mut run);
    assert_eq!(events.len(), 3);
    assert_eq!(events[1]["event_type"], Value::from("entry_signal"));
    assert_eq!(events[1]["payload"]["signal_latency_ms"], Value::from(2250));
    assert_eq!(events[1]["payload"]["signal_price"], Value::from(0.00013));
    assert_eq!(events[1]["payload"]["signal_slot"], Value::from(42));
    assert_eq!(events[1]["payload"]["signal_reason"], Value::from("matched_creator_candidate"));
    assert_eq!(events[2]["payload"]["signal_latency_ms"], Value::from(0));
    assert_eq!(events[2]["payload"]["signal_price"], Value::from(0.0));
}

#[test]
fn a_clock_that_runs_backwards_yields_no_negative_latency() {
    let mut run = quiet_run();
    observe(&mut run, "mint-1", 0.1, at(1010, 0));
    signal_entry(&mut run, "mint-1", 0.1, at(1001, 0));
    let events = events_of(&mut run);
    assert_eq!(events[1]["payload"]["signal_latency_ms"], Value::from(0));
}

#[test]
fn attempts_are_numbered_for_each_mint() {
    let mut run = quiet_run();
    assert_eq!(attempt(&mut run, "mint-1", at(1001, 0)), 1);
    assert_eq!(attempt(&mut run, "mint-1", at(1002, 0)), 2);
    assert_eq!(attempt(&mut run, "mint-2", at(1003, 0)), 1);
    assert_eq!(attempt(&mut run, "mint-1", at(1004, 0)), 3);
    let events = events_of(&mut run);
    let payload = &events[3]["payload"];
    assert_eq!(payload["attempt_index"], Value::from(3));
    assert_eq!(payload["route"], Value::from("pump_fun"));
    assert_eq!(payload["quote_price"], Value::from(0.00013));
    assert_eq!(payload["expected_tokens_out"], Value::from(1000.0));
    assert_eq!(payload["slippage_bps"], Value::from(200));
    assert_eq!(payload["wallet_available_before"], Value::from(10.0));
    assert_eq!(payload["tx_strategy"], Value::from("rpc"));
    assert_eq!(payload["transport_path"], Value::from("rpc"));
    assert_eq!(payload["priority_fee_lamports"], Value::from(123));
    assert_eq!(payload["tip_lamports"], Value::from(0));
    assert_eq!(payload["retries"], Value::from(3));
}

#[test]
fn a_fill_is_timed_from_its_attempt() {
    let mut run = quiet_run();
    fill(&mut run, "mint-1", 0.1, 1, at(1001, 0));
    signal_entry(&mut run, "mint-1", 0.1, at(1002, 0));
    fill(&mut run, "mint-1", 0.1, 1, at(1005, 0));
    attempt(&mut run, "mint-1", at(1006, 0));
    attempt(&mut run, "mint-1", at(1007, 0));
    fill(&mut run, "mint-1", 0.1, 1, at(1008, 500));
    fill(&mut run, "mint-1", 0.1, 2, at(1008, 500));
    fill(&mut run, "mint-1", 0.1, 0, at(1008, 500));
    let events = events_of(&mut run);
    let latencies: Vec<i64> = events
        .iter()
        .filter(|event| event["event_type"] == Value::from("entry_fill"))
        .map(|event| event["payload"]["fill_latency_ms"].as_i64().unwrap())
        .collect();
    assert_eq!(latencies, vec![0, 3000, 2500, 1500, 6500]);
    let last = &events[events.len() - 1]["payload"];
    assert_eq!(last["attempt_index"], Value::from(1));
    assert_eq!(last["fill_qty"], Value::from(950.0));
    assert_eq!(last["confirmation_source"], Value::from("transport_ack"));
    assert_eq!(last["wallet_balance_after"], Value::from(9.5));
}

#[test]
fn ticks_widen_the_price_range() {
    let mut run = quiet_run();
    fill(&mut run, "mint-1", 2.0, 1, at(1001, 0));
    tick(&mut run, "mint-1", 3.0, 4.0, at(1002, 0));
    tick(&mut run, "mint-1", 1.0, 2.0, at(1003, 0));
    tick(&mut run, "mint-1", f64::NAN, f64::NAN, at(1004, 0));
    tick(&mut run, "mint-1", 1.5, f64::INFINITY, at(1005, 0));
    tick(&mut run, "mint-1", 5.0, 1.0, at(1006, 0));
    let events = events_of(&mut run);
    let payload = |i: usize| &events[i]["payload"];
    assert_eq!(payload(1)["price"], Value::from(3.0));
    assert_eq!(payload(1)["highest_price"], Value::from(4.0));
    assert_eq!(payload(1)["mfe_pct"], Value::from(100.0));
    assert_eq!(payload(1)["mae_pct"], Value::from(0.0));
    assert_eq!(payload(2)["mfe_pct"], Value::from(100.0));
    assert_eq!(payload(2)["mae_pct"], Value::from(-50.0));
    assert_eq!(payload(3)["price"], Value::from(0.0));
    assert_eq!(payload(3)["highest_price"], Value::from(0.0));
    assert_eq!(payload(3)["mae_pct"], Value::from(-100.0));
    assert_eq!(payload(4)["highest_price"], Value::from(0.0));
    assert_eq!(payload(4)["mfe_pct"], Value::from(100.0));
    assert_eq!(payload(5)["highest_price"], Value::from(5.0));
    assert_eq!(payload(5)["mfe_pct"], Value::from(150.0));
    assert_eq!(payload(5)["buys"], Value::from(10));
    assert_eq!(payload(5)["sells"], Value::from(2));
    assert_eq!(payload(5)["liquidity"], Value::from(2500.0));
    assert_eq!(payload(5)["state_reason"], Value::from("price_tick"));
    assert_eq!(payload(5)["creator_sold"], Value::from(false));
    assert_eq!(payload(5)["txns_in_zero"], Value::from(1));
    assert_eq!(payload(5)["txns_in_n"], Value::from(5));
}

#[test]
fn an_exit_is_signalled_once() {
    let mut run = quiet_run();
    run.record_exit_signal_at("m", "c", "take_profit", double(4.0), double(5.0), at(1001, 0));
    run.record_exit_signal_at("m", "c", "stop_loss", double(1.0), double(5.0), at(1002, 0));
    run.record_exit_fill_at(
        "m",
        "c",
        double(3.5),
        double(10.0),
        "sell-tx",
        "take_profit",
        double(f64::NEG_INFINITY),
        at(1001, 750),
    );
    let events = events_of(&mut run);
    assert_eq!(events.len(), 2);
    assert_eq!(events[0]["event_type"], Value::from("exit_signal"));
    assert_eq!(events[0]["payload"]["exit_reason"], Value::from("take_profit"));
    assert_eq!(events[0]["payload"]["signal_price"], Value::from(4.0));
    assert_eq!(events[0]["payload"]["theoretical_best_price"], Value::from(5.0));
    assert_eq!(events[0]["payload"]["realized_vs_peak_gap_pct"], Value::from(25.0));
    assert_eq!(events[1]["event_type"], Value::from("exit_fill"));
    assert_eq!(events[1]["payload"]["fill_latency_ms"], Value::from(750));
    assert_eq!(events[1]["payload"]["wallet_balance_after"], Value::from(0.0));
}

#[test]
fn a_closed_position_is_reported_and_summed_up_once() {
    let mut run = quiet_run();
    observe(&mut run, "mint-1", 0.5, at(1001, 0));
    fill(&mut run, "mint-1", 2.0, 1, at(1002, 0));
    tick(&mut run, "mint-1", 1.0, 3.0, at(1004, 0));
    run.record_exit_signal_at(
        "mint-1",
        "creator-1",
        "take_profit",
        double(2.5),
        double(3.0),
        at(1005, 0),
    );
    run.record_exit_fill_at(
        "mint-1",
        "creator-1",
        double(2.4),
        double(10.0),
        "sell-tx",
        "take_profit",
        double(1.0),
        at(1006, 0),
    );
    run.take_actions();
    run.record_position_closed_at("mint-1", "creator-1", true, at(1010, 0), at(1011, 0));
    run.record_position_closed_at("mint-1", "creator-1", false, at(1020, 0), at(1021, 0));
    let (events, documents) = perform(run.take_actions());
    assert_eq!(events.len(), 1);
    assert_eq!(events[0]["event_type"], Value::from("position_closed"));
    assert_eq!(events[0]["ts_utc"], Value::from("1970-01-01T00:16:46.000Z"));
    let payload = &events[0]["payload"];
    assert_eq!(payload["entry_price"], Value::from(2.0));
    assert_eq!(payload["exit_price"], Value::from(2.4));
    assert!(approx(&payload["realized_return_pct"], 20.0));
    assert_eq!(payload["mfe_pct"], Value::from(50.0));
    assert_eq!(payload["mae_pct"], Value::from(-50.0));
    assert_eq!(payload["time_to_peak_ms"], Value::from(2000));
    assert_eq!(payload["session_duration_ms"], Value::from(4000));
    assert_eq!(payload["stale_position_flag"], Value::from(true));
    let path = "/tmp/out/runtime/mewx/export/sessions/mint-1-1000000.json";
    let summary = document(&documents, path);
    assert_eq!(summary["run_id"], Value::from("mewx-test-run"));
    assert_eq!(summary["session_id"], Value::from("mint-1-1000000"));
    assert_eq!(summary["mint"], Value::from("mint-1"));
    assert_eq!(summary["creator"], Value::from("creator-1"));
    assert_eq!(summary["candidate_source"], Value::from("deagle"));
    assert_eq!(summary["market"], Value::from("pump_fun"));
    assert_eq!(summary["pool_id"], Value::from("pool-1"));
    assert_eq!(summary["session_duration_ms"], Value::from(4000));
    assert_eq!(summary["closed_at_utc"], Value::from("1970-01-01T00:16:46.000Z"));
    assert_eq!(summary["exit_reason"], Value::from("take_profit"));
    assert_eq!(summary.as_object().unwrap().len(), 16);
    let state = document(&documents, STATE_PATH);
    assert_eq!(state["status"], Value::from("session_closed"));
    assert_eq!(state["paths"]["session_summaries"][0], Value::from(path));
}

#[test]
fn an_unknown_position_is_closed_from_what_is_known() {
    let mut run = quiet_run();
    run.record_position_closed_at("m", "c", false, at(1004, 0), at(1005, 0));
    let (events, documents) = perform(run.take_actions());
    let payload = &events[0]["payload"];
    assert_eq!(payload["entry_price"], Value::Null);
    assert_eq!(payload["exit_price"], Value::Null);
    assert_eq!(payload["realized_return_pct"], Value::from(0.0));
    assert_eq!(payload["time_to_peak_ms"], Value::from(0));
    assert_eq!(payload["session_duration_ms"], Value::from(4000));
    let summary = document(&documents, "/tmp/out/runtime/mewx/export/sessions/m-1000000.json");
    assert_eq!(summary["closed_at_utc"], Value::from("1970-01-01T00:16:45.000Z"));
    assert_eq!(summary["session_duration_ms"], Value::from(5000));
    assert_eq!(summary["exit_reason"], Value::Null);
    assert_eq!(summary["market"], Value::Null);
}

#[test]
fn a_position_closed_after_the_run_ended_ends_with_it() {
    let mut run = quiet_run();
    run.finalize_at(at(1002, 0));
    run.take_actions();
    run.record_position_closed_at("m", "c", false, at(1004, 0), at(1005, 0));
    let (events, documents) = perform(run.take_actions());
    assert_eq!(events[0]["ts_utc"], Value::from("1970-01-01T00:16:44.000Z"));
    let summary = document(&documents, "/tmp/out/runtime/mewx/export/sessions/m-1000000.json");
    assert_eq!(summary["closed_at_utc"], Value::from("1970-01-01T00:16:42.000Z"));
}

#[test]
fn prices_fall_back_from_fill_to_signal_to_observation() {
    let mut run = quiet_run();
    observe(&mut run, "a", 8.0, at(1001, 0));
    observe(&mut run, "b", 8.0, at(1001, 0));
    signal_entry(&mut run, "b", 4.0, at(1003, 0));
    run.take_actions();
    run.record_position_closed_at("a", "creator-1", false, at(1005, 0), at(1005, 0));
    run.record_position_closed_at("b", "creator-1", false, at(1005, 0), at(1005, 0));
    let events = events_of(&mut run);
    assert_eq!(events[0]["payload"]["entry_price"], Value::from(8.0));
    assert_eq!(events[0]["payload"]["exit_price"], Value::from(8.0));
    assert_eq!(events[0]["payload"]["session_duration_ms"], Value::from(4000));
    assert_eq!(events[1]["payload"]["entry_price"], Value::from(4.0));
    assert_eq!(events[1]["payload"]["session_duration_ms"], Value::from(2000));
}

#[test]
fn a_price_that_is_no_number_is_written_as_null() {
    let mut run = quiet_run();
    fill(&mut run, "m", f64::NAN, 1, at(1001, 0));
    run.take_actions();
    run.record_position_closed_at("m", "creator-1", false, at(1005, 0), at(1005, 0));
    let events = events_of(&mut run);
    assert_eq!(events[0]["payload"]["entry_price"], Value::Null);
    assert_eq!(events[0]["payload"]["realized_return_pct"], Value::Null);
}

#[test]
fn the_summary_counts_every_event() {
    let mut run = quiet_run();
    run.emit_creator_candidates(&report(), "initial_load", None);
    attempt(&mut run, "mint-1", at(1001, 0));
    attempt(&mut run, "mint-1", at(1002, 0));
    fill(&mut run, "mint-1", 1.0, 2, at(1003, 0));
    run.record_position_closed_at("mint-1", "creator-1", false, at(1004, 0), at(1004, 0));
    run.take_actions();
    run.finalize_at(at(1005, 0));
    run.finalize_at(at(1006, 0));
    run.finalize();
    let (events, documents) = perform(run.take_actions());
    assert_eq!(events.len(), 1);
    assert_eq!(events[0]["event_type"], Value::from("run_summary"));
    assert_eq!(events[0]["event_id"], Value::from("mewx-test-run-000006"));
    let payload = &events[0]["payload"];
    assert_eq!(payload["candidate_count"], Value::from(1));
    assert_eq!(payload["entry_attempt_count"], Value::from(2));
    assert_eq!(payload["entry_fill_count"], Value::from(1));
    assert_eq!(payload["position_closed_count"], Value::from(1));
    assert_eq!(payload["event_count"], Value::from(6));
    assert_eq!(payload["replayable"], Value::from(false));
    let state = document(&documents, STATE_PATH);
    assert_eq!(state["status"], Value::from("completed"));
    assert_eq!(state["ended_at_utc"], Value::from("1970-01-01T00:16:45.000Z"));
    assert_eq!(state["event_counts"]["run_summary"], Value::from(1));
}

#[test]
fn a_run_is_replayable_once_both_exports_are_there() {
    let mut run = quiet_run();
    export_config(&mut run);
    run.export_candidate_snapshot_at("first", &report(), &vec![], &vec![], at(1002, 0));
    run.take_actions();
    run.finalize_at(at(1003, 0));
    assert_eq!(events_of(&mut run)[0]["payload"]["replayable"], Value::from(true));
    let mut run = quiet_run();
    export_config(&mut run);
    run.take_actions();
    run.finalize_at(at(1003, 0));
    assert_eq!(events_of(&mut run)[0]["payload"]["replayable"], Value::from(false));
}

#[test]
fn an_exported_configuration_shows_no_secret() {
    let mut run = quiet_run();
    let path = export_config(&mut run).unwrap();
    let (events, documents) = perform(run.take_actions());
    assert!(events.is_empty());
    let exported = document(&documents, &path_text(&path));
    assert_eq!(exported["captured_at_utc"], Value::from("1970-01-01T00:16:41.000Z"));
    assert_eq!(exported["config"]["mode"], Value::from("sim_live"));
    assert_eq!(exported["config"]["rpc_url"], Value::from("http....com"));
    assert_eq!(exported["config"]["ws_url"], Value::from("wss:....com"));
    assert_eq!(exported["config"]["grpc_url"], Value::from("http....com"));
    assert_eq!(exported["config"]["grpc_token"], Value::from("grpc...oken"));
    assert_eq!(exported["config"]["nonce_account"], Value::from("nonce-account"));
    assert_eq!(exported["tx_settings"]["tx_strat"], Value::from("rpc"));
    assert_eq!(exported["tx_settings"]["tip_lamports"], Value::from(1234));
    assert_eq!(exported["tx_settings"]["nextblock_key"], Value::from("next...-key"));
    assert_eq!(exported["tx_settings"]["blox_key"], Value::from("********"));
    assert_eq!(exported["environment"]["PRIVATE_KEY"], Value::from("supe...-key"));
    assert_eq!(exported["environment"]["DB_URL"], Value::from("post....com"));
    assert_eq!(exported["environment"]["REGIONS"], Value::Null);
    assert_eq!(exported["algorithm"]["min_deagle_sol"], Value::from(20.0));
    assert_eq!(exported["algorithm"]["use_vol_creators"], Value::from(true));
    assert_eq!(exported["algorithm"]["grand_chillers"], Value::Null);
    assert_eq!(exported["snipe"]["tiz_upper"], Value::from(21));
    assert_eq!(exported["strategies"]["dbf_max_chp"], Value::from(0.25));
    assert_eq!(exported["initial_source_counts"]["vol_creators"], Value::from(1));
    assert_eq!(
        exported["paths"]["config_dir"],
        Value::from("C:\\Users\\bot\\quant\\Vexter\\runtime\\mewx\\config")
    );
    let all = exported.to_string();
    assert!(!all.contains("super-secret-private-key"));
    assert!(!all.contains("\"secret\""));
    let state = document(&documents, STATE_PATH);
    assert_eq!(state["status"], Value::from("config_exported"));
    assert_eq!(state["paths"]["config_snapshot"], Value::from(path_text(&path)));
}

#[test]
fn grand_chillers_are_exported_where_they_are_used() {
    let mut algo = algo_config();
    algo.min_deagle_sol = None;
    algo.grand_chillers = Some(GrandChillers {
        use_gc: true,
        min_hmc: double(1.5),
        min_mints: 3,
        min_buys: 4,
    });
    let exported = value(&algo.to_json());
    assert_eq!(exported["min_deagle_sol"], Value::Null);
    assert_eq!(exported["grand_chillers"]["use_gc"], Value::from(true));
    assert_eq!(exported["grand_chillers"]["min_hmc"], Value::from(1.5));
    assert_eq!(exported["grand_chillers"]["min_mints"], Value::from(3));
    assert_eq!(exported["grand_chillers"]["min_buys"], Value::from(4));
}

#[test]
fn secrets_that_cannot_be_cut_stop_an_export() {
    let mut settings = tx_settings();
    settings.blox_key = text("123\u{e9}45678");
    assert!(!can_export(&config(), &settings, &export_environment()));
    settings.blox_key = text("12\u{e9}45678");
    assert!(can_export(&config(), &settings, &export_environment()));
}

#[test]
fn a_snapshot_keeps_its_label_and_its_candidates() {
    let mut run = quiet_run();
    let path = run
        .export_candidate_snapshot_at(
            "after refresh 2",
            &report(),
            &vec![text("deagle::creator-1")],
            &vec![text("deagle::gone"), text("x::y")],
            at(1007, 0),
        )
        .unwrap();
    let expected =
        "/tmp/out/runtime/mewx/export/candidates/mewx-test-run.candidates.after_refresh_2.json";
    assert_eq!(path_text(&path), expected);
    let documents = perform(run.take_actions()).1;
    let snapshot = document(&documents, expected);
    assert_eq!(snapshot["label"], Value::from("after refresh 2"));
    assert_eq!(snapshot["source_counts"]["deagle"], Value::from(1));
    assert_eq!(snapshot["added_keys"][0], Value::from("deagle::creator-1"));
    assert_eq!(snapshot["removed_keys"][1], Value::from("x::y"));
    let observed = &snapshot["observations"][0];
    assert_eq!(observed["creator"], Value::from("creator-1"));
    assert_eq!(observed["source_label"], Value::from("deagle"));
    assert_eq!(observed["score_components"]["deagle_sol_amount"], Value::from(42.0));
    assert_eq!(observed["score_total"], Value::from(42.0));
    assert_eq!(observed["cohort_size"], Value::from(1));
    assert_eq!(observed["reason"], Value::from("deagle_transfer_threshold"));
    let state = document(&documents, STATE_PATH);
    assert_eq!(state["status"], Value::from("candidate_snapshot_exported"));
    assert_eq!(state["paths"]["candidate_snapshots"][0], Value::from(expected));
}

#[test]
fn a_filter_selects_candidates_by_source_and_creator() {
    let mut run = quiet_run();
    let report = CandidateSelectionReport {
        creators: Vec::new(),
        observations: vec![
            observation("deagle", "a"),
            observation("vol", "a"),
            observation("deagle", "b"),
        ],
        source_counts: vec![],
    };
    let filter = vec![text("vol::a"), text("deagle::b")];
    assert_eq!(passing_count(&report.observations, Some(&filter)), 2);
    assert_eq!(passing_count(&report.observations, Some(&vec![])), 0);
    assert_eq!(passing_count(&report.observations, None), 3);
    run.emit_creator_candidates(&report, "refresh", Some(&filter));
    let events = events_of(&mut run);
    assert_eq!(events.len(), 2);
    assert_eq!(events[0]["payload"]["candidate_source"], Value::from("vol"));
    assert_eq!(events[0]["creator"], Value::from("a"));
    assert_eq!(events[0]["payload"]["reason"], Value::from("refresh"));
    assert_eq!(events[0]["payload"]["source_reason"], Value::from("deagle_transfer_threshold"));
    assert_eq!(events[1]["creator"], Value::from("b"));
    run.emit_creator_candidates(&report, "refresh", Some(&vec![]));
    assert!(events_of(&mut run).is_empty());
    run.emit_creator_candidates(&report, "refresh", None);
    assert_eq!(events_of(&mut run).len(), 3);
}

#[test]
fn mints_do_not_disturb_each_other() {
    let mut run = quiet_run();
    observe(&mut run, "a", 1.0, at(1001, 0));
    fill(&mut run, "b", 2.0, 1, at(1002, 0));
    tick(&mut run, "b", 9.0, 9.0, at(1003, 0));
    run.record_position_closed_at("b", "creator-1", false, at(1004, 0), at(1004, 0));
    run.take_actions();
    run.record_position_closed_at("a", "creator-1", false, at(1005, 0), at(1005, 0));
    let events = events_of(&mut run);
    assert_eq!(events.len(), 1);
    assert_eq!(events[0]["payload"]["entry_price"], Value::from(1.0));
    assert_eq!(events[0]["payload"]["mfe_pct"], Value::from(0.0));
}

#[test]
fn what_is_learnt_later_replaces_what_was_known() {
    let mut run = quiet_run();
    observe(&mut run, "m", 1.0, at(1001, 0));
    run.observe_mint_at(
        "m",
        "creator-2",
        "pump_swap",
        None,
        "pool-2",
        1,
        double(1.0),
        true,
        Json::Null,
        at(1002, 0),
    );
    run.record_position_closed_at("m", "creator-3", false, at(1003, 0), at(1003, 0));
    let documents = perform(run.take_actions()).1;
    let summary = document(&documents, "/tmp/out/runtime/mewx/export/sessions/m-1000000.json");
    assert_eq!(summary["creator"], Value::from("creator-3"));
    assert_eq!(summary["market"], Value::from("pump_swap"));
    assert_eq!(summary["candidate_source"], Value::from("deagle"));
    assert_eq!(summary["pool_id"], Value::from("pool-2"));
}

#[test]
fn events_are_numbered_on_across_hand_outs() {
    let mut whole = quiet_run();
    let mut taken = quiet_run();
    let mut lines = Vec::new();
    for i in 0..5 {
        for run in [&mut whole, &mut taken] {
            observe(run, "mint-1", 0.1, at(1001 + i, 0));
            tick(run, "mint-1", 1.0, 1.0, at(1001 + i, 500));
        }
        lines.append(&mut events_of(&mut taken));
    }
    assert_eq!(lines.len(), 6);
    for (i, line) in lines.iter().enumerate() {
        assert_eq!(line["event_id"], Value::from(format!("mewx-test-run-{:06}", i + 1)));
    }
    assert_eq!(events_of(&mut whole), lines);
}

#[test]
fn signals_are_noted_once_across_hand_outs() {
    let mut run = quiet_run();
    signal_entry(&mut run, "m", 4.0, at(1001, 0));
    run.record_exit_signal_at("m", "c-1", "take_profit", double(0.0), double(5.0), at(1002, 0));
    let events = events_of(&mut run);
    assert_eq!(events[0]["payload"]["signal_latency_ms"], Value::from(0));
    assert_eq!(events[1]["payload"]["realized_vs_peak_gap_pct"], Value::from(0.0));
    run.record_entry_signal_at(
        "m",
        "c-2",
        "vol",
        "pump_swap",
        "x",
        double(9.0),
        7,
        "p-2",
        at(1003, 0),
    );
    run.record_exit_signal_at("m", "c-3", "stop_loss", double(1.0), double(5.0), at(1004, 0));
    assert!(run.take_actions().is_empty());
    let session = run.session("m").unwrap();
    assert_eq!(session.signal_at, Some(at(1001, 0)));
    assert_eq!(session.signal_price, Some(double(4.0)));
    assert_eq!(session.signal_slot, Some(42));
    assert_eq!(session.exit_signal_at, Some(at(1002, 0)));
    assert_eq!(session.exit_signal_price, Some(double(0.0)));
    assert_eq!(session.exit_reason.as_deref(), Some("take_profit"));
    assert_eq!(session.creator.as_deref(), Some("c-3"));
    assert_eq!(session.market.as_deref(), Some("pump_swap"));
    assert_eq!(session.candidate_source.as_deref(), Some("vol"));
    assert_eq!(session.pool_id.as_deref(), Some("p-2"));
    assert!(run.session("other").is_none());
}

#[test]
fn a_run_is_summed_up_once() {
    let mut run = quiet_run();
    assert!(!run.is_finalized());
    for i in 0..3 {
        run.finalize_at(at(1001 + i, 0));
        tick(&mut run, "m", 1.0, 1.0, at(1002 + i, 0));
    }
    assert!(run.is_finalized());
    let summaries = events_of(&mut run)
        .iter()
        .filter(|event| event["event_type"] == Value::from("run_summary"))
        .count();
    assert_eq!(summaries, 1);
}

#[test]
fn the_clock_is_read_where_no_time_is_given() {
    let before = isoformat_utc(Timestamp::now());
    let mut run = MewInstrumentation::new(&environment());
    run.record_position_closed("m", "c", false);
    run.record_candidate_rejected("m", "c", "deagle", "too_old", "age", None);
    run.record_entry_rejected("m", "c", "slippage", "tx", 2, None);
    run.finalize();
    let after = isoformat_utc(Timestamp::now());
    let events = events_of(&mut run);
    assert_eq!(events.len(), 4);
    for event in &events {
        let ts = event["ts_utc"].as_str().unwrap();
        assert!(before.as_str() <= ts && ts <= after.as_str());
    }
}
