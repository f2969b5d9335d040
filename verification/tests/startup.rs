//! The decisions around the start of the program.

use mew::candidates::Source;
use mew::startup::{
    after_subscription, backoff_secs, init_dbs, load_initial_creators, tally_sources, DexterTrust,
    LoadOutcome, LoadStep, Venue,
};

fn text(s: &str) -> String {
    s.to_string()
}

#[test]
fn waits_grow_to_a_minute() {
    assert_eq!(backoff_secs(1), 5);
    assert_eq!(backoff_secs(2), 10);
    assert_eq!(backoff_secs(12), 60);
    assert_eq!(backoff_secs(13), 60);
    assert_eq!(backoff_secs(u32::MAX), 60);
    for attempt in 1..40 {
        assert!(backoff_secs(attempt) <= backoff_secs(attempt + 1));
    }
}

#[test]
fn creators_end_the_loading() {
    let creators = vec![(text("a"), Source::Deagle)];
    match load_initial_creators(u32::MAX, LoadOutcome::Loaded(creators)) {
        LoadStep::Done(creators) => {
            assert_eq!(creators.len(), 1);
            assert_eq!(creators[0].0, "a");
        }
        other => panic!("unexpected {:?}", other),
    }
}

#[test]
fn an_empty_load_is_repeated() {
    match load_initial_creators(0, LoadOutcome::Loaded(vec![])) {
        LoadStep::Retry { attempt, backoff_secs, warning } => {
            assert_eq!(attempt, 1);
            assert_eq!(backoff_secs, 5);
            assert_eq!(
                warning,
                "Initial creator load returned 0 creators (attempt 1); retrying in 5s"
            );
        }
        other => panic!("unexpected {:?}", other),
    }
}

#[test]
fn a_failed_load_is_repeated() {
    match load_initial_creators(19, LoadOutcome::Failed(text("db down"))) {
        LoadStep::Retry { attempt, backoff_secs, warning } => {
            assert_eq!(attempt, 20);
            assert_eq!(backoff_secs, 60);
            assert_eq!(
                warning,
                "Initial creator load failed: db down (attempt 20); retrying in 60s"
            );
        }
        other => panic!("unexpected {:?}", other),
    }
}

#[test]
fn creators_are_tallied_by_source() {
    let creators = vec![
        (text("a"), Source::Deagle),
        (text("b"), Source::VolCreators),
        (text("c"), Source::Deagle),
        (text("d"), Source::Other),
        (text("e"), Source::DexterTrust),
        (text("f"), Source::GrandChillers),
    ];
    let tally = tally_sources(&creators);
    assert_eq!(tally.deagles, 2);
    assert_eq!(tally.vol_creators, 1);
    assert_eq!(tally.grand_chillers, 1);
    assert_eq!(tally.dexter_trust, 1);
    assert_eq!(tally.total, 6);
    assert_eq!(
        tally.announcement(),
        "Deagles: 2\nVolume Creators: 1\nGrand Chillers: 1\nDexter Trust: 1\nTotal Creators: 6"
    );
}

#[test]
fn databases_follow_the_settings() {
    let trust = Some(DexterTrust { use_dexter_trust: true, db_url: text("postgres://trust") });
    let plan = init_dbs("postgres://db", true, &trust);
    assert_eq!(plan.vacation_url, "postgres://db/vacation");
    assert_eq!(plan.goldmine_url, "postgres://db/goldmine");
    assert_eq!(plan.fill_limit, Some(500));
    assert_eq!(plan.trust_url.as_deref(), Some("postgres://trust"));
    assert_eq!(init_dbs("x", false, &None).fill_limit, None);
    assert_eq!(init_dbs("x", false, &None).trust_url, None);
    let unused = Some(DexterTrust { use_dexter_trust: false, db_url: text("postgres://trust") });
    assert_eq!(init_dbs("x", false, &unused).trust_url, None);
    let unnamed = Some(DexterTrust { use_dexter_trust: true, db_url: String::new() });
    assert_eq!(init_dbs("x", false, &unnamed).trust_url, None);
}

#[test]
fn subscriptions_are_taken_up_again() {
    let quiet = after_subscription(Venue::PumpFun, true, &None);
    assert_eq!(quiet.warning, None);
    assert_eq!(quiet.delay_secs, 5);
    assert_eq!(quiet.notice, "Reconnecting PumpFun subscription...");
    let failed = after_subscription(Venue::PumpSwap, false, &Some(text("eof")));
    assert_eq!(
        failed.warning.as_deref(),
        Some("PumpSwap WS crashed: eof \u{2014} reconnecting in 5s")
    );
    assert_eq!(failed.notice, "Reconnecting PumpSwap subscription...");
    let failed = after_subscription(Venue::PumpFun, true, &Some(text("eof")));
    assert_eq!(
        failed.warning.as_deref(),
        Some("PumpFun snipe crashed: eof \u{2014} reconnecting in 5s")
    );
}
