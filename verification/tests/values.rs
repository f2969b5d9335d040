//! Times, numbers, texts, secrets and names.

use mew::clock::{isoformat_utc, latency_ms, Timestamp, MAX_SECONDS, MIN_SECONDS};
use mew::counts::Counters;
use mew::double::{as_f64, pct_change, Double, Percent};
use mew::identity::{host_name, needs_git_head, run_id, source_commit};
use mew::json::{json_str, Field, Json, ObjectBuilder};
use mew::layout::{
    LayoutEnvironment, RuntimeLayout, FIXED_WINDOWS_ROOT, PREFERRED_WINDOWS_ROOT,
};
use mew::render::{as_line, document_contents, event_line};
use mew::secrets::{can_mask, can_mask_option, mask_secret};
use mew::session::SessionState;
use mew::settings::{resolve_mode, resolve_transport_mode, TxSettings};
use mew::text::{replace_char, to_ascii_lower, to_decimal, to_signed_decimal, to_zero_padded, trim};
use serde_json::Value;

fn text(s: &str) -> String {
    s.to_string()
}

fn double(x: f64) -> Double {
    Double { bits: x.to_bits() }
}

fn point(secs: i64, nanos: u32) -> Timestamp {
    Timestamp::new(secs, nanos).unwrap()
}

fn transport(tx_strat: &str, use_grpc: bool) -> String {
    let settings = TxSettings {
        tx_strat: text(tx_strat),
        nextblock_key: String::new(),
        zero_slot_key: String::new(),
        temporal_key: String::new(),
        blox_key: String::new(),
        tip_lamports: 0,
    };
    resolve_transport_mode(&settings, use_grpc)
}

#[test]
fn times_are_rendered_with_milliseconds() {
    assert_eq!(isoformat_utc(point(1_700_000_000, 123_456_789)), "2023-11-14T22:13:20.123Z");
    assert_eq!(isoformat_utc(point(0, 0)), "1970-01-01T00:00:00.000Z");
    assert_eq!(isoformat_utc(point(-1, 999_999_999)), "1969-12-31T23:59:59.999Z");
}

#[test]
fn times_are_rendered_compactly() {
    assert_eq!(point(1_700_000_000, 999_999_999).compact_text(), "20231114T221320Z");
    assert_eq!(point(0, 0).compact_text(), "19700101T000000Z");
}

#[test]
fn the_calendar_has_bounds() {
    assert_eq!(isoformat_utc(point(MIN_SECONDS, 0)), "-262143-01-01T00:00:00.000Z");
    assert_eq!(isoformat_utc(point(MAX_SECONDS, 999_999_999)), "+262142-12-31T23:59:59.999Z");
    assert!(Timestamp::new(MIN_SECONDS - 1, 0).is_none());
    assert!(Timestamp::new(MAX_SECONDS + 1, 0).is_none());
    assert!(Timestamp::new(0, 1_000_000_000).is_none());
    let whole = point(MAX_SECONDS, 999_999_999).millis_since(point(MIN_SECONDS, 0));
    assert_eq!(whole, (MAX_SECONDS - MIN_SECONDS) * 1000 + 999);
    assert_eq!(point(MIN_SECONDS, 0).timestamp_millis(), MIN_SECONDS * 1000);
    assert_eq!(point(MAX_SECONDS, 999_999_999).timestamp_millis(), MAX_SECONDS * 1000 + 999);
    assert!(!point(MIN_SECONDS, 0).compact_text().is_empty());
}

#[test]
fn milliseconds_round_down_since_the_epoch_and_towards_zero_between() {
    assert_eq!(point(1_700_000_000, 123_999_999).timestamp_millis(), 1_700_000_000_123);
    assert_eq!(point(-1, 999_000_000).timestamp_millis(), -1);
    assert_eq!(point(-1, 999_999_999).timestamp_millis(), -1);
    assert_eq!(point(0, 1_999_999).millis_since(point(0, 0)), 1);
    assert_eq!(point(0, 0).millis_since(point(0, 1_999_999)), -1);
    assert_eq!(point(5, 0).millis_since(point(3, 999_999_999)), 1000);
}

#[test]
fn a_latency_is_never_negative() {
    assert_eq!(latency_ms(point(10, 0), point(12, 500_000_000)), 2500);
    assert_eq!(latency_ms(point(12, 0), point(10, 0)), 0);
    assert_eq!(latency_ms(point(12, 0), point(12, 0)), 0);
}

#[test]
fn now_lies_after_the_epoch() {
    let now = Timestamp::now();
    assert!(now.timestamp_millis() > 1_500_000_000_000);
    assert!(Timestamp::now().millis_since(now) >= 0);
}

#[test]
fn a_session_is_named_after_its_mint_and_the_start_of_the_run() {
    assert_eq!(SessionState::new("mint-1", point(12, 345_678_901)).session_id, "mint-1-12345");
    assert_eq!(SessionState::new("m", point(-1, 0)).session_id, "m--1000");
    assert!(!SessionState::new("m", point(0, 0)).closed);
}

#[test]
fn only_finite_numbers_are_kept() {
    for x in [0.0, -0.0, 1.5, -2.25, f64::MAX, f64::MIN, f64::MIN_POSITIVE, 5e-324] {
        assert_eq!(as_f64(double(x)).bits, x.to_bits());
        assert!(double(x).is_finite());
        assert!(!double(x).is_nan());
    }
    for x in [f64::INFINITY, f64::NEG_INFINITY, f64::NAN, -f64::NAN] {
        assert_eq!(as_f64(double(x)).bits, 0.0f64.to_bits());
        assert!(!double(x).is_finite());
        assert_eq!(double(x).is_nan(), x.is_nan());
    }
}

#[test]
fn numbers_are_ordered_as_their_values() {
    let samples = [
        f64::NEG_INFINITY,
        f64::MIN,
        -1.0,
        -5e-324,
        -0.0,
        0.0,
        5e-324,
        1.0,
        1.0000000000000002,
        f64::MAX,
        f64::INFINITY,
        f64::NAN,
        -f64::NAN,
    ];
    for a in samples {
        for b in samples {
            assert_eq!(double(a).le(double(b)), a <= b);
            let larger = f64::from_bits(double(a).max(double(b)).bits);
            let expected = a.max(b);
            assert!(larger == expected || (larger.is_nan() && expected.is_nan()));
        }
    }
}

#[test]
fn a_change_is_measured_from_a_positive_entry_only() {
    let two = double(2.0);
    let three = double(3.0);
    assert_eq!(pct_change(Some(two), Some(three)), Percent::Change { entry: two, value: three });
    assert_eq!(
        pct_change(Some(two), None),
        Percent::Change { entry: two, value: double(0.0) }
    );
    assert_eq!(pct_change(None, Some(three)), Percent::Zero);
    assert_eq!(pct_change(Some(double(-0.0)), Some(three)), Percent::Zero);
    assert_eq!(pct_change(Some(double(-1.0)), Some(three)), Percent::Zero);
    let nan = double(f64::NAN);
    assert_eq!(pct_change(Some(nan), Some(three)), Percent::Change { entry: nan, value: three });
}

#[test]
fn decimal_renderings() {
    assert_eq!(to_decimal(0), "0");
    assert_eq!(to_decimal(1205), "1205");
    assert_eq!(to_decimal(u64::MAX), u64::MAX.to_string());
    assert_eq!(to_signed_decimal(i64::MIN), i64::MIN.to_string());
    assert_eq!(to_signed_decimal(-7), "-7");
    assert_eq!(to_signed_decimal(i64::MAX), i64::MAX.to_string());
    assert_eq!(to_zero_padded(7, 6), "000007");
    assert_eq!(to_zero_padded(1234567, 6), "1234567");
    assert_eq!(to_zero_padded(0, 0), "0");
}

#[test]
fn white_space_is_trimmed_at_both_ends() {
    let samples =
        ["", " ", "a", " a b\t\n", "\u{3000}x\u{a0}", "\u{200b}x", "\u{85}\u{1680}y z\u{2029}"];
    for s in samples {
        assert_eq!(trim(s), s.trim());
        assert_eq!(trim(trim(s).as_str()), trim(s));
    }
}

#[test]
fn characters_are_replaced_and_lowered() {
    assert_eq!(replace_char("a b  c", ' ', '_'), "a_b__c");
    assert_eq!(replace_char("", ' ', '_'), "");
    for s in ["BOX-7", "\u{c4}B", "already low", "Z[@A"] {
        assert_eq!(to_ascii_lower(s), s.to_ascii_lowercase());
    }
}

#[test]
fn secrets_are_masked() {
    assert_eq!(mask_secret(None), None);
    assert_eq!(mask_secret(Some(String::new())), None);
    assert_eq!(mask_secret(Some(text("abc"))), Some(text("***")));
    assert_eq!(mask_secret(Some(text("12345678"))), Some(text("********")));
    assert_eq!(mask_secret(Some(text("123456789"))), Some(text("1234...6789")));
    assert_eq!(mask_secret(Some(text("super-secret-private-key"))), Some(text("supe...-key")));
    assert_eq!(mask_secret(Some(text("\u{e9}\u{e9}"))), Some(text("****")));
    assert_eq!(
        mask_secret(Some(text("\u{e9}\u{e9}middle\u{20ac}x"))),
        Some(text("\u{e9}\u{e9}...\u{20ac}x"))
    );
}

#[test]
fn secrets_with_the_same_ends_look_the_same() {
    assert_eq!(mask_secret(Some(text("abcd1wxyz"))), mask_secret(Some(text("abcd-22222-wxyz"))));
    assert_eq!(mask_secret(Some(text("abcd"))), mask_secret(Some(text("wxyz"))));
}

#[test]
fn masking_twice_is_masking_once() {
    for secret in ["abc", "12345678", "super-secret-private-key", "\u{e9}\u{e9}middle\u{20ac}x"] {
        let shown = mask_secret(Some(text(secret))).unwrap();
        assert!(can_mask(shown.as_str()));
        assert_eq!(mask_secret(Some(shown.clone())), Some(shown));
    }
}

#[test]
fn a_secret_is_cut_between_characters_only() {
    assert!(can_mask("plain ascii text"));
    assert!(can_mask("\u{e9}\u{e9}\u{e9}\u{e9}"));
    assert!(!can_mask("abc\u{e9}fghij"));
    assert!(!can_mask("abcdefg\u{20ac}xy"));
    assert!(can_mask_option(&None));
    assert!(!can_mask_option(&Some(text("abc\u{e9}fghij"))));
}

#[test]
fn modes_are_reported_as_live() {
    assert_eq!(resolve_mode("sim"), "sim_live");
    assert_eq!(resolve_mode("trade"), "trade_live");
    assert_eq!(resolve_mode("replay"), "replay");
    assert_eq!(resolve_mode("SIM"), "SIM");
    assert_eq!(resolve_mode(resolve_mode("sim").as_str()), "sim_live");
}

#[test]
fn the_transport_combines_intake_and_strategy() {
    assert_eq!(transport("", true), "grpc");
    assert_eq!(transport("  ", false), "ws");
    assert_eq!(transport("grpc", true), "grpc");
    assert_eq!(transport("grpc", false), "grpc");
    assert_eq!(transport(" ws\n", false), "ws");
    assert_eq!(transport("rpc", false), "mixed");
    assert_eq!(transport(" swqos ", true), "mixed");
    assert_eq!(transport(" jito ", true), "jito");
}

fn layout(output: Option<&str>, windows: bool, preferred: bool) -> RuntimeLayout {
    RuntimeLayout::new(&LayoutEnvironment {
        runtime_root: None,
        output_root: output.map(text),
        windows,
        preferred_root_exists: preferred,
    })
}

#[test]
fn the_output_root_depends_on_the_platform() {
    assert_eq!(layout(Some("/x"), true, true).output_root.root, "/x");
    assert_eq!(layout(None, true, true).output_root.root, PREFERRED_WINDOWS_ROOT);
    assert_eq!(layout(None, true, false).output_root.root, FIXED_WINDOWS_ROOT);
    let plain = layout(None, false, true);
    assert_eq!(plain.output_root.root, "dev");
    assert_eq!(plain.output_root.segments, vec!["vexter_runtime"]);
    assert_eq!(plain.config_dir.segments, vec!["vexter_runtime", "runtime", "mewx", "config"]);
    assert_eq!(plain.runtime_root, FIXED_WINDOWS_ROOT);
    assert_eq!(plain.clone().db_dir.segments, plain.db_dir.segments);
}

#[test]
fn the_directories_of_a_layout_are_apart() {
    let dirs = layout(Some("/x"), false, false).ensure();
    assert_eq!(dirs.len(), 6);
    for i in 0..6 {
        assert_eq!(dirs[i].root, "/x");
        assert_eq!(dirs[i].segments.len(), 3);
        for j in 0..i {
            assert_ne!(dirs[i].segments, dirs[j].segments);
        }
    }
}

#[test]
fn the_metadata_names_the_reported_root() {
    let layout = RuntimeLayout::new(&LayoutEnvironment {
        runtime_root: Some(text("R")),
        output_root: Some(text("/x")),
        windows: false,
        preferred_root_exists: false,
    });
    match layout.metadata() {
        Json::Object(fields) => {
            assert_eq!(fields.len(), 7);
            for field in &fields {
                let expected = match field.key.as_str() {
                    "runtime_root" => "R",
                    "config_dir" => "R\\runtime\\mewx\\config",
                    "export_dir" => "R\\runtime\\mewx\\export",
                    "raw_events_dir" => "R\\data\\raw\\mewx",
                    "logs_dir" => "R\\data\\logs\\mewx",
                    "replays_dir" => "R\\data\\replays\\mewx",
                    "db_exports_dir" => "R\\data\\postgres\\mewx",
                    other => panic!("unexpected {}", other),
                };
                assert!(matches!(&field.value, Json::Str(s) if s == expected));
            }
        }
        other => panic!("unexpected {:?}", other),
    }
}

#[test]
fn the_commit_falls_back_to_git_and_to_unknown() {
    let head = Some(b" abc123 \n".to_vec());
    assert_eq!(source_commit(&Some(text("deadbeef")), &head), "deadbeef");
    assert_eq!(source_commit(&Some(String::new()), &head), "abc123");
    assert_eq!(source_commit(&None, &head), "abc123");
    assert_eq!(source_commit(&None, &Some("\u{a0}caf\u{e9}\n".as_bytes().to_vec())), "caf\u{e9}");
    assert_eq!(source_commit(&None, &Some(b" \n".to_vec())), "unknown");
    assert_eq!(source_commit(&None, &Some(vec![b'a', 0xff])), "unknown");
    assert_eq!(source_commit(&None, &Some(vec![])), "unknown");
    assert_eq!(source_commit(&None, &None), "unknown");
    assert!(needs_git_head(&None));
    assert!(needs_git_head(&Some(String::new())));
    assert!(!needs_git_head(&Some(text("x"))));
}

#[test]
fn the_host_is_the_first_that_is_known() {
    assert_eq!(host_name(&Some(text("HostA")), &Some(text("B"))), "hosta");
    assert_eq!(host_name(&None, &Some(text("BOX"))), "box");
    assert_eq!(host_name(&None, &None), "unknown-host");
    assert_eq!(host_name(&Some(String::new()), &Some(text("B"))), "");
}

#[test]
fn a_configured_run_id_is_kept() {
    let stamp = point(1_700_000_000, 0);
    assert_eq!(run_id(&Some(text("r-1")), "host", stamp), "r-1");
    assert_eq!(run_id(&Some(String::new()), "host", stamp), "mewx-host-20231114T221320Z");
    assert_eq!(run_id(&None, "host", stamp), "mewx-host-20231114T221320Z");
}

#[test]
fn counters_count_by_name() {
    let mut counters = Counters::new();
    assert_eq!(counters.total(), 0);
    counters.increment("a");
    counters.increment("b");
    counters.increment("a");
    assert_eq!(counters.get("a"), 2);
    assert_eq!(counters.get("b"), 1);
    assert_eq!(counters.get("c"), 0);
    assert_eq!(counters.total(), 3);
    assert!(matches!(counters.to_json(), Json::Object(fields) if fields.len() == 2));
}

#[test]
fn only_objects_are_merged() {
    let mut object = ObjectBuilder::new();
    object.put("a", Json::Int(1));
    object.merge(Json::Array(vec![Json::Null]));
    object.merge(Json::Object(vec![Field { key: text("b"), value: json_str("x") }]));
    match object.build().copy() {
        Json::Object(fields) => {
            assert_eq!(fields.len(), 2);
            assert_eq!(fields[1].key, "b");
        }
        other => panic!("unexpected {:?}", other),
    }
}

fn sample() -> Value {
    let mut object = serde_json::Map::new();
    object.insert(text("b"), Value::from(1));
    object.insert(text("a"), Value::Array(vec![Value::Null, Value::from("x\ny")]));
    Value::Object(object)
}

#[test]
fn an_event_takes_one_line() {
    let line = event_line(&sample());
    assert_eq!(line, "{\"a\":[null,\"x\\ny\"],\"b\":1}\n");
    assert_eq!(as_line("x"), "x\n");
}

#[test]
fn a_document_is_indented_and_ends_with_a_line_feed() {
    let contents = document_contents(&sample()).unwrap();
    assert_eq!(contents, "{\n  \"a\": [\n    null,\n    \"x\\ny\"\n  ],\n  \"b\": 1\n}\n");
}
