//! The decisions that the program takes while it starts and while it keeps its subscriptions up.

use crate::candidates::Source;
use crate::text::{join2, to_decimal};
use vstd::prelude::*;
use vstd::string::*;

verus! {

/// Seconds that the first retry waits, and by which each further one waits longer.
pub const BACKOFF_STEP_SECS: u64 = 5;

/// The longest wait between two retries, in seconds.
pub const BACKOFF_LIMIT_SECS: u64 = 60;

/// Seconds until a subscription that ended is taken up again.
pub const RECONNECT_SECS: u64 = 5;

/// How many validators are located when the validator database is filled.
pub const VACATION_FILL_LIMIT: u64 = 500;

/// Seconds to wait after the given attempt.
pub open spec fn backoff_after(attempt: nat) -> nat {
    if BACKOFF_STEP_SECS * attempt <= BACKOFF_LIMIT_SECS {
        (BACKOFF_STEP_SECS * attempt) as nat
    } else {
        BACKOFF_LIMIT_SECS as nat
    }
}

/// Seconds to wait after the given attempt.
pub fn backoff_secs(attempt: u32) -> (secs: u64)
    ensures
        secs == backoff_after(attempt as nat),
{
    let secs: u64 = BACKOFF_STEP_SECS * attempt as u64;
    if secs <= BACKOFF_LIMIT_SECS {
        secs
    } else {
        BACKOFF_LIMIT_SECS
    }
}

/// What a load of the creators came back with.
#[derive(Debug)]
pub enum LoadOutcome {
    /// The creators that were chosen.
    Loaded(Vec<(String, Source)>),
    /// The reason why the load failed.
    Failed(String),
}

/// What is done after a load of the creators.
#[derive(Debug)]
pub enum LoadStep {
    /// Go on with these creators.
    Done(Vec<(String, Source)>),
    /// Warn, wait and load again.
    Retry { attempt: u32, backoff_secs: u64, warning: String },
}

/// The end of a warning about a load that has to be repeated.
pub open spec fn retry_suffix(attempt: nat) -> Seq<char> {
    " (attempt "@ + crate::text::decimal(attempt) + "); retrying in "@ + crate::text::decimal(
        backoff_after(attempt),
    ) + "s"@
}

/// The warning about a load that has to be repeated.
pub open spec fn retry_warning(outcome: LoadOutcome, attempt: nat) -> Seq<char> {
    match outcome {
        LoadOutcome::Loaded(_) => "Initial creator load returned 0 creators"@ + retry_suffix(
            attempt,
        ),
        LoadOutcome::Failed(reason) => "Initial creator load failed: "@ + reason@ + retry_suffix(
            attempt,
        ),
    }
}

fn push_retry_suffix(out: &mut String, attempt: u32)
    ensures
        final(out)@ == old(out)@ + retry_suffix(attempt as nat),
{
    let number = to_decimal(attempt as u64);
    let secs = to_decimal(backoff_secs(attempt));
    out.append(" (attempt ");
    out.append(number.as_str());
    out.append("); retrying in ");
    out.append(secs.as_str());
    out.append("s");
    assert(out@ =~= old(out)@ + retry_suffix(attempt as nat));
}

/// What is done after a load of the creators, `attempt` loads having failed before: it is repeated
/// until it yields any.
pub fn load_initial_creators(attempt: u32, outcome: LoadOutcome) -> (step: LoadStep)
    requires
        attempt < u32::MAX || (outcome matches LoadOutcome::Loaded(creators) && creators@.len()
            > 0),
    ensures
        match outcome {
            LoadOutcome::Loaded(
                creators,
            ) if creators@.len() > 0 => step == LoadStep::Done(creators),
            _ => {
                &&& step matches LoadStep::Retry { attempt: next, backoff_secs, warning }
                &&& next == attempt + 1
                &&& backoff_secs == backoff_after((attempt + 1) as nat)
                &&& warning@ == retry_warning(outcome, (attempt + 1) as nat)
            },
        },
{
    let mut warning = String::new();
    match outcome {
        LoadOutcome::Loaded(creators) => {
            if creators.len() > 0 {
                return LoadStep::Done(creators);
            }
            warning.append("Initial creator load returned 0 creators");
        },
        LoadOutcome::Failed(reason) => {
            warning.append("Initial creator load failed: ");
            warning.append(reason.as_str());
        },
    }
    let next = attempt + 1;
    push_retry_suffix(&mut warning, next);
    assert(warning@ =~= retry_warning(outcome, next as nat));
    LoadStep::Retry { attempt: next, backoff_secs: backoff_secs(next), warning }
}

/// How many creators come from each source.
#[derive(Clone, Copy, Debug, PartialEq, Eq, Structural)]
pub struct SourceTally {
    pub deagles: usize,
    pub vol_creators: usize,
    pub grand_chillers: usize,
    pub dexter_trust: usize,
    pub total: usize,
}

/// How many of the creators come from a source.
pub open spec fn from_source(creators: Seq<(String, Source)>, source: Source) -> nat {
    creators.filter(|c: (String, Source)| c.1 == source).len()
}

proof fn from_source_step(creators: Seq<(String, Source)>, i: int, source: Source)
    requires
        0 <= i < creators.len(),
    ensures
        from_source(
            creators.take(i + 1),
            source,
        ) == from_source(creators.take(i), source) + if creators[i].1
            == source {
            1nat
        } else {
            0nat
        },
        from_source(creators.take(i), source) <= i,
{
    reveal(Seq::filter);
    let wanted = |c: (String, Source)| c.1 == source;
    assert(creators.take(i + 1).drop_last() =~= creators.take(i));
    creators.take(i).lemma_filter_len(wanted);
}

/// Counts the creators by their source.
pub fn tally_sources(creators: &Vec<(String, Source)>) -> (tally: SourceTally)
    ensures
        tally.deagles == from_source(creators@, Source::Deagle),
        tally.vol_creators == from_source(creators@, Source::VolCreators),
        tally.grand_chillers == from_source(creators@, Source::GrandChillers),
        tally.dexter_trust == from_source(creators@, Source::DexterTrust),
        tally.total == creators@.len(),
{
    let mut tally = SourceTally {
        deagles: 0,
        vol_creators: 0,
        grand_chillers: 0,
        dexter_trust: 0,
        total: creators.len(),
    };
    let mut i: usize = 0;
    proof {
        reveal(Seq::filter);
    }
    while i < creators.len()
        invariant
            i <= creators.len(),
            tally.total == creators@.len(),
            tally.deagles == from_source(creators@.take(i as int), Source::Deagle),
            tally.vol_creators == from_source(creators@.take(i as int), Source::VolCreators),
            tally.grand_chillers == from_source(creators@.take(i as int), Source::GrandChillers),
            tally.dexter_trust == from_source(creators@.take(i as int), Source::DexterTrust),
        decreases creators.len() - i,
    {
        proof {
            from_source_step(creators@, i as int, Source::Deagle);
            from_source_step(creators@, i as int, Source::VolCreators);
            from_source_step(creators@, i as int, Source::GrandChillers);
            from_source_step(creators@, i as int, Source::DexterTrust);
        }
        match creators[i].1 {
            Source::Deagle => {
                tally.deagles = tally.deagles + 1;
            },
            Source::VolCreators => {
                tally.vol_creators = tally.vol_creators + 1;
            },
            Source::GrandChillers => {
                tally.grand_chillers = tally.grand_chillers + 1;
            },
            Source::DexterTrust => {
                tally.dexter_trust = tally.dexter_trust + 1;
            },
            Source::Other => {},
        }
        i = i + 1;
    }
    assert(creators@.take(i as int) =~= creators@);
    tally
}

/// How the program announces the creators that it starts with.
pub open spec fn tally_text(tally: SourceTally) -> Seq<char> {
    "Deagles: "@ + crate::text::decimal(tally.deagles as nat) + "\nVolume Creators: "@
        + crate::text::decimal(tally.vol_creators as nat) + "\nGrand Chillers: "@
        + crate::text::decimal(tally.grand_chillers as nat) + "\nDexter Trust: "@
        + crate::text::decimal(tally.dexter_trust as nat) + "\nTotal Creators: "@
        + crate::text::decimal(tally.total as nat)
}

impl SourceTally {
    /// How the program announces the creators that it starts with.
    pub fn announcement(&self) -> (text: String)
        ensures
            text@ == tally_text(*self),
    {
        let mut out = "Deagles: ".to_owned();
        out.append(to_decimal(self.deagles as u64).as_str());
        out.append("\nVolume Creators: ");
        out.append(to_decimal(self.vol_creators as u64).as_str());
        out.append("\nGrand Chillers: ");
        out.append(to_decimal(self.grand_chillers as u64).as_str());
        out.append("\nDexter Trust: ");
        out.append(to_decimal(self.dexter_trust as u64).as_str());
        out.append("\nTotal Creators: ");
        out.append(to_decimal(self.total as u64).as_str());
        out
    }
}

/// The settings of the trust database.
#[derive(Debug)]
pub struct DexterTrust {
    pub use_dexter_trust: bool,
    pub db_url: String,
}

/// Which databases are opened at the start, and how.
#[derive(Debug)]
pub struct DatabasePlan {
    /// Where validators are located.
    pub vacation_url: String,
    /// How many validators to locate, where any.
    pub fill_limit: Option<u64>,
    /// Where tokens are kept.
    pub goldmine_url: String,
    /// Where the trust factors are, if they are used.
    pub trust_url: Option<String>,
}

/// The trust database that is connected to: the configured one, if it is used and named.
pub open spec fn trust_url_for(trust: Option<DexterTrust>) -> Option<Seq<char>> {
    match trust {
        Some(t) => if t.use_dexter_trust && t.db_url@.len() > 0 {
            Some(t.db_url@)
        } else {
            None
        },
        None => None,
    }
}

/// Which databases are opened at the start.
pub fn init_dbs(db_url: &str, use_regions: bool, trust: &Option<DexterTrust>) -> (plan:
    DatabasePlan)
    ensures
        plan.vacation_url@ == db_url@ + "/vacation"@,
        plan.fill_limit == if use_regions {
            Some(VACATION_FILL_LIMIT)
        } else {
            None
        },
        plan.goldmine_url@ == db_url@ + "/goldmine"@,
        crate::text::option_view(plan.trust_url) == trust_url_for(*trust),
{
    let trust_url = match trust {
        Some(t) => if t.use_dexter_trust && !t.db_url.as_str().is_empty() {
            Some(t.db_url.clone())
        } else {
            None
        },
        None => None,
    };
    DatabasePlan {
        vacation_url: join2(db_url, "/vacation"),
        fill_limit: if use_regions {
            Some(VACATION_FILL_LIMIT)
        } else {
            None
        },
        goldmine_url: join2(db_url, "/goldmine"),
        trust_url,
    }
}

/// A market that the program subscribes to.
#[derive(Clone, Copy, Debug, PartialEq, Eq, Structural)]
pub enum Venue {
    PumpFun,
    PumpSwap,
}

impl Venue {
    /// The name of the market.
    pub open spec fn label(self) -> Seq<char> {
        match self {
            Venue::PumpFun => "PumpFun"@,
            Venue::PumpSwap => "PumpSwap"@,
        }
    }

    /// The name of the market.
    pub fn name(self) -> (name: &'static str)
        ensures
            name@ == self.label(),
    {
        match self {
            Venue::PumpFun => "PumpFun",
            Venue::PumpSwap => "PumpSwap",
        }
    }
}

/// The warning about a subscription that broke down.
pub open spec fn crash_warning(venue: Venue, use_grpc: bool, reason: Seq<char>) -> Seq<char> {
    venue.label() + (if use_grpc {
        " snipe crashed: "@
    } else {
        " WS crashed: "@
    }) + reason + " \u{2014} reconnecting in "@ + crate::text::decimal(RECONNECT_SECS as nat) + "s"@
}

/// What is done once a subscription has ended.
#[derive(Debug)]
pub struct Reconnect {
    /// What to warn about first, if it broke down.
    pub warning: Option<String>,
    /// Seconds to wait.
    pub delay_secs: u64,
    /// What to say before it is taken up again.
    pub notice: String,
}

/// What is done once a subscription has ended, with the reason if it broke down.
pub fn after_subscription(venue: Venue, use_grpc: bool, failure: &Option<String>) -> (step:
    Reconnect)
    ensures
        crate::text::option_view(step.warning) == match *failure {
            Some(reason) => Some(crash_warning(venue, use_grpc, reason@)),
            None => None,
        },
        step.delay_secs == RECONNECT_SECS,
        step.notice@ == "Reconnecting "@ + venue.label() + " subscription..."@,
{
    let warning = match failure {
        Some(reason) => {
            let mut out = venue.name().to_owned();
            if use_grpc {
                out.append(" snipe crashed: ");
            } else {
                out.append(" WS crashed: ");
            }
            out.append(reason.as_str());
            out.append(" \u{2014} reconnecting in ");
            out.append(to_decimal(RECONNECT_SECS).as_str());
            out.append("s");
            Some(out)
        },
        None => None,
    };
    Reconnect {
        warning,
        delay_secs: RECONNECT_SECS,
        notice: crate::text::join3("Reconnecting ", venue.name(), " subscription..."),
    }
}

/// The waits between retries never get shorter, and lie between the first wait and the limit.
pub proof fn backoff_grows_to_its_limit(earlier: nat, later: nat)
    requires
        1 <= earlier <= later,
    ensures
        BACKOFF_STEP_SECS <= backoff_after(earlier) <= backoff_after(later) <= BACKOFF_LIMIT_SECS,
{
}

/// No creator is counted under two sources.
pub proof fn tallies_fit_the_total(creators: Seq<(String, Source)>)
    ensures
        from_source(creators, Source::Deagle) + from_source(creators, Source::VolCreators)
            + from_source(creators, Source::GrandChillers) + from_source(
            creators,
            Source::DexterTrust,
        ) + from_source(creators, Source::Other) == creators.len(),
    decreases creators.len(),
{
    reveal(Seq::filter);
    if creators.len() > 0 {
        let n = creators.len() - 1;
        assert(creators.take(n) =~= creators.drop_last());
        assert(creators.take(n + 1) =~= creators);
        from_source_step(creators, n, Source::Deagle);
        from_source_step(creators, n, Source::VolCreators);
        from_source_step(creators, n, Source::GrandChillers);
        from_source_step(creators, n, Source::DexterTrust);
        from_source_step(creators, n, Source::Other);
        tallies_fit_the_total(creators.drop_last());
    }
}

/// The wait after an attempt is five seconds for each attempt so far, up to a minute.
pub proof fn backoff_is_five_seconds_an_attempt(attempt: nat)
    ensures
        attempt <= 12 ==> backoff_after(attempt) == 5 * attempt,
        attempt >= 12 ==> backoff_after(attempt) == 60,
{
}

/// A warning about a repeated load says what came back, which attempt it was and how long the wait
/// is.
pub proof fn retry_warnings_tell_the_reason(
    creators: Vec<(String, Source)>,
    reason: String,
    attempt: nat,
)
    ensures
        ({
            let number = crate::text::decimal(attempt);
            let wait = crate::text::decimal(
                if attempt <= 12 {
                    5 * attempt
                } else {
                    60
                },
            );
            let suffix = " (attempt "@ + number + "); retrying in "@ + wait + "s"@;
            &&& retry_warning(LoadOutcome::Loaded(creators), attempt)
                == "Initial creator load returned 0 creators"@ + suffix
            &&& retry_warning(LoadOutcome::Failed(reason), attempt)
                == "Initial creator load failed: "@ + reason@ + suffix
        }),
{
}

/// One more creator is one more of its source, and of no other.
pub proof fn creators_count_for_their_source(
    creators: Seq<(String, Source)>,
    creator: (String, Source),
    source: Source,
)
    ensures
        creator.1 == source ==> from_source(creators.push(creator), source) == from_source(
            creators,
            source,
        ) + 1,
        creator.1 != source ==> from_source(creators.push(creator), source) == from_source(
            creators,
            source,
        ),
        from_source(Seq::empty(), source) == 0,
{
    reveal(Seq::filter);
    assert(creators.push(creator).drop_last() =~= creators);
}

/// An announcement gives each count on a line of its own, under its own name.
pub proof fn announcements_name_each_source(tally: SourceTally)
    ensures
        ({
            let number = |n: usize| crate::text::decimal(n as nat);
            let lines = seq![
                "Deagles: "@ + number(tally.deagles),
                "\nVolume Creators: "@ + number(tally.vol_creators),
                "\nGrand Chillers: "@ + number(tally.grand_chillers),
                "\nDexter Trust: "@ + number(tally.dexter_trust),
                "\nTotal Creators: "@ + number(tally.total),
            ];
            tally_text(tally) == lines[0] + lines[1] + lines[2] + lines[3] + lines[4]
        }),
{
    let number = |n: usize| crate::text::decimal(n as nat);
    assert(tally_text(tally) =~= ("Deagles: "@ + number(tally.deagles)) + (
    "\nVolume Creators: "@ + number(tally.vol_creators)) + ("\nGrand Chillers: "@ + number(
        tally.grand_chillers,
    )) + ("\nDexter Trust: "@ + number(tally.dexter_trust)) + ("\nTotal Creators: "@ + number(
        tally.total,
    )));
}

/// The trust database is connected to exactly if it is configured, used and named, and then under
/// that name.
pub proof fn trust_is_connected_where_it_is_used(trust: Option<DexterTrust>)
    ensures
        trust is None ==> trust_url_for(trust) is None,
        trust matches Some(t) ==> {
            &&& t.use_dexter_trust && t.db_url@.len() > 0 ==> trust_url_for(trust) == Some(
                t.db_url@,
            )
            &&& !t.use_dexter_trust || t.db_url@.len() == 0 ==> trust_url_for(trust) is None
        },
{
}

/// The warning about a broken subscription names the market, the intake, the reason and the wait.
pub proof fn crash_warnings_tell_the_reason(reason: Seq<char>)
    ensures
        ({
            let rest = reason + " \u{2014} reconnecting in "@ + crate::text::decimal(5) + "s"@;
            &&& crash_warning(Venue::PumpFun, true, reason) == "PumpFun"@ + (
            " snipe crashed: "@ + rest)
            &&& crash_warning(Venue::PumpFun, false, reason) == "PumpFun"@ + (
            " WS crashed: "@ + rest)
            &&& crash_warning(Venue::PumpSwap, true, reason) == "PumpSwap"@ + (
            " snipe crashed: "@ + rest)
            &&& crash_warning(Venue::PumpSwap, false, reason) == "PumpSwap"@ + (
            " WS crashed: "@ + rest)
        }),
{
    let rest = reason + " \u{2014} reconnecting in "@ + crate::text::decimal(5) + "s"@;
    assert(crash_warning(Venue::PumpFun, true, reason) =~= "PumpFun"@ + (" snipe crashed: "@
        + rest));
    assert(crash_warning(Venue::PumpFun, false, reason) =~= "PumpFun"@ + (" WS crashed: "@ + rest));
    assert(crash_warning(Venue::PumpSwap, true, reason) =~= "PumpSwap"@ + (" snipe crashed: "@
        + rest));
    assert(crash_warning(Venue::PumpSwap, false, reason) =~= "PumpSwap"@ + (" WS crashed: "@
        + rest));
}

} // verus!
