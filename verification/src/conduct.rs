//! What each step makes of a session, and what is read off a session then.

use crate::clock::Timestamp;
use crate::double::Double;
use crate::session::{SessionModel, SessionState};
use vstd::prelude::*;

verus! {

/// A session begins with nothing known but its mint and its identifier.
pub proof fn a_fresh_session_knows_its_mint(mint: Seq<char>, started_at: Timestamp)
    ensures
        ({
            let session = SessionModel::fresh(mint, started_at);
            &&& session.mint == mint
            &&& session.session_id == crate::session::session_id_for(mint, started_at)
            &&& session.creator is None
            &&& session.market is None
            &&& session.candidate_source is None
            &&& session.pool_id is None
            &&& session.observed_at is None
            &&& session.observed_open_price is None
            &&& session.signal_at is None
            &&& session.signal_price is None
            &&& session.signal_slot is None
            &&& session.entry_fill_at is None
            &&& session.entry_fill_price is None
            &&& session.exit_reason is None
            &&& session.exit_signal_at is None
            &&& session.exit_signal_price is None
            &&& session.exit_fill_at is None
            &&& session.exit_fill_price is None
            &&& session.peak_price is None
            &&& session.peak_price_at is None
            &&& session.low_price is None
            &&& session.attempts == Map::<usize, crate::session::AttemptState>::empty()
            &&& !session.closed
        }),
{
}

/// What becomes known of the origin replaces what was known; what is not told stays, and so does
/// all else.
pub proof fn descriptions_replace_what_was_known(
    session: SessionModel,
    creator: Option<Seq<char>>,
    market: Option<Seq<char>>,
    candidate_source: Option<Seq<char>>,
    pool_id: Option<Seq<char>>,
)
    ensures
        ({
            let next = session.described(creator, market, candidate_source, pool_id);
            &&& creator is Some ==> next.creator == creator
            &&& creator is None ==> next.creator == session.creator
            &&& market is Some ==> next.market == market
            &&& market is None ==> next.market == session.market
            &&& candidate_source is Some ==> next.candidate_source == candidate_source
            &&& candidate_source is None ==> next.candidate_source == session.candidate_source
            &&& pool_id is Some ==> next.pool_id == pool_id
            &&& pool_id is None ==> next.pool_id == session.pool_id
            &&& next.session_id == session.session_id
            &&& next.mint == session.mint
            &&& next.observed_at == session.observed_at
            &&& next.observed_open_price == session.observed_open_price
            &&& next.signal_at == session.signal_at
            &&& next.signal_price == session.signal_price
            &&& next.signal_slot == session.signal_slot
            &&& next.entry_fill_at == session.entry_fill_at
            &&& next.entry_fill_price == session.entry_fill_price
            &&& next.exit_reason == session.exit_reason
            &&& next.exit_signal_at == session.exit_signal_at
            &&& next.exit_signal_price == session.exit_signal_price
            &&& next.exit_fill_at == session.exit_fill_at
            &&& next.exit_fill_price == session.exit_fill_price
            &&& next.peak_price == session.peak_price
            &&& next.peak_price_at == session.peak_price_at
            &&& next.low_price == session.low_price
            &&& next.attempts == session.attempts
            &&& next.closed == session.closed
        }),
{
}

/// An observation notes its time and its price, and nothing else.
pub proof fn observations_note_time_and_price(
    session: SessionModel,
    now: Timestamp,
    open_price: Double,
)
    ensures
        ({
            let next = session.observed(now, open_price);
            &&& next.observed_at == Some(now)
            &&& next.observed_open_price == Some(open_price)
            &&& next.session_id == session.session_id
            &&& next.mint == session.mint
            &&& next.creator == session.creator
            &&& next.market == session.market
            &&& next.candidate_source == session.candidate_source
            &&& next.pool_id == session.pool_id
            &&& next.signal_at == session.signal_at
            &&& next.signal_price == session.signal_price
            &&& next.signal_slot == session.signal_slot
            &&& next.entry_fill_at == session.entry_fill_at
            &&& next.entry_fill_price == session.entry_fill_price
            &&& next.exit_reason == session.exit_reason
            &&& next.exit_signal_at == session.exit_signal_at
            &&& next.exit_signal_price == session.exit_signal_price
            &&& next.exit_fill_at == session.exit_fill_at
            &&& next.exit_fill_price == session.exit_fill_price
            &&& next.peak_price == session.peak_price
            &&& next.peak_price_at == session.peak_price_at
            &&& next.low_price == session.low_price
            &&& next.attempts == session.attempts
            &&& next.closed == session.closed
        }),
{
}

/// An entry signal notes its time, its price and its slot, and nothing else.
pub proof fn signals_note_time_price_and_slot(
    session: SessionModel,
    now: Timestamp,
    price: Double,
    slot: u64,
)
    ensures
        ({
            let next = session.signalled(now, price, slot);
            &&& next.signal_at == Some(now)
            &&& next.signal_price == Some(price)
            &&& next.signal_slot == Some(slot)
            &&& next.session_id == session.session_id
            &&& next.mint == session.mint
            &&& next.creator == session.creator
            &&& next.market == session.market
            &&& next.candidate_source == session.candidate_source
            &&& next.pool_id == session.pool_id
            &&& next.observed_at == session.observed_at
            &&& next.observed_open_price == session.observed_open_price
            &&& next.entry_fill_at == session.entry_fill_at
            &&& next.entry_fill_price == session.entry_fill_price
            &&& next.exit_reason == session.exit_reason
            &&& next.exit_signal_at == session.exit_signal_at
            &&& next.exit_signal_price == session.exit_signal_price
            &&& next.exit_fill_at == session.exit_fill_at
            &&& next.exit_fill_price == session.exit_fill_price
            &&& next.peak_price == session.peak_price
            &&& next.peak_price_at == session.peak_price_at
            &&& next.low_price == session.low_price
            &&& next.attempts == session.attempts
            &&& next.closed == session.closed
        }),
{
}

/// An attempt is noted under its number, beside the earlier ones, and nothing else is.
pub proof fn attempts_are_noted_beside_each_other(
    session: SessionModel,
    index: usize,
    started_at: Timestamp,
    other: usize,
)
    ensures
        ({
            let next = session.attempted(index, started_at);
            &&& next.attempts.contains_key(index)
            &&& next.attempts[index].started_at == started_at
            &&& other != index ==> next.attempts.contains_key(other)
                == session.attempts.contains_key(other)
            &&& other != index ==> next.attempts[other] == session.attempts[other]
            &&& next.session_id == session.session_id
            &&& next.mint == session.mint
            &&& next.creator == session.creator
            &&& next.market == session.market
            &&& next.candidate_source == session.candidate_source
            &&& next.pool_id == session.pool_id
            &&& next.observed_at == session.observed_at
            &&& next.observed_open_price == session.observed_open_price
            &&& next.signal_at == session.signal_at
            &&& next.signal_price == session.signal_price
            &&& next.signal_slot == session.signal_slot
            &&& next.entry_fill_at == session.entry_fill_at
            &&& next.entry_fill_price == session.entry_fill_price
            &&& next.exit_reason == session.exit_reason
            &&& next.exit_signal_at == session.exit_signal_at
            &&& next.exit_signal_price == session.exit_signal_price
            &&& next.exit_fill_at == session.exit_fill_at
            &&& next.exit_fill_price == session.exit_fill_price
            &&& next.peak_price == session.peak_price
            &&& next.peak_price_at == session.peak_price_at
            &&& next.low_price == session.low_price
            &&& next.closed == session.closed
        }),
{
}

/// A fill notes its time and its price; it begins the price range where there is none yet, and
/// leaves it alone where there is one.
pub proof fn fills_begin_the_price_range(
    session: SessionModel,
    now: Timestamp,
    price: Double,
)
    ensures
        ({
            let next = session.filled(now, price);
            &&& next.entry_fill_at == Some(now)
            &&& next.entry_fill_price == Some(price)
            &&& session.peak_price is None ==> next.peak_price == Some(price)
            &&& session.peak_price is Some ==> next.peak_price == session.peak_price
            &&& session.peak_price_at is None ==> next.peak_price_at == Some(now)
            &&& session.peak_price_at is Some ==> next.peak_price_at == session.peak_price_at
            &&& session.low_price is None ==> next.low_price == Some(price)
            &&& session.low_price is Some ==> next.low_price == session.low_price
            &&& next.session_id == session.session_id
            &&& next.mint == session.mint
            &&& next.creator == session.creator
            &&& next.market == session.market
            &&& next.candidate_source == session.candidate_source
            &&& next.pool_id == session.pool_id
            &&& next.observed_at == session.observed_at
            &&& next.observed_open_price == session.observed_open_price
            &&& next.signal_at == session.signal_at
            &&& next.signal_price == session.signal_price
            &&& next.signal_slot == session.signal_slot
            &&& next.exit_reason == session.exit_reason
            &&& next.exit_signal_at == session.exit_signal_at
            &&& next.exit_signal_price == session.exit_signal_price
            &&& next.exit_fill_at == session.exit_fill_at
            &&& next.exit_fill_price == session.exit_fill_price
            &&& next.attempts == session.attempts
            &&& next.closed == session.closed
        }),
{
}

/// A tick whose high reaches the peak sets the peak to the high and its time to the tick's own; any
/// other tick leaves both as they are. A tick whose price is at or below the low sets the low to
/// it; any other leaves it. Nothing else changes.
pub proof fn ticks_move_peak_and_low(
    session: SessionModel,
    now: Timestamp,
    price: Double,
    highest_price: Double,
)
    ensures
        ({
            let next = session.ticked(now, price, highest_price);
            &&& session.peak_price is None ==> next.peak_price == Some(
                SessionModel::tick_high(price, highest_price),
            ) && next.peak_price_at == Some(now)
            &&& session.peak_price matches Some(peak) ==> {
                &&& peak.at_most(SessionModel::tick_high(price, highest_price)) ==> next.peak_price
                    == Some(SessionModel::tick_high(price, highest_price)) && next.peak_price_at
                    == Some(now)
                &&& !peak.at_most(SessionModel::tick_high(price, highest_price)) ==> next.peak_price
                    == session.peak_price && next.peak_price_at == session.peak_price_at
            }
            &&& session.low_price is None ==> next.low_price == Some(price.sanitized())
            &&& session.low_price matches Some(low) ==> {
                &&& price.sanitized().at_most(low) ==> next.low_price == Some(price.sanitized())
                &&& !price.sanitized().at_most(low) ==> next.low_price == session.low_price
            }
            &&& next.session_id == session.session_id
            &&& next.mint == session.mint
            &&& next.creator == session.creator
            &&& next.market == session.market
            &&& next.candidate_source == session.candidate_source
            &&& next.pool_id == session.pool_id
            &&& next.observed_at == session.observed_at
            &&& next.observed_open_price == session.observed_open_price
            &&& next.signal_at == session.signal_at
            &&& next.signal_price == session.signal_price
            &&& next.signal_slot == session.signal_slot
            &&& next.entry_fill_at == session.entry_fill_at
            &&& next.entry_fill_price == session.entry_fill_price
            &&& next.exit_reason == session.exit_reason
            &&& next.exit_signal_at == session.exit_signal_at
            &&& next.exit_signal_price == session.exit_signal_price
            &&& next.exit_fill_at == session.exit_fill_at
            &&& next.exit_fill_price == session.exit_fill_price
            &&& next.attempts == session.attempts
            &&& next.closed == session.closed
        }),
{
    crate::figures::sanitizing_replaces_by_zero(price);
}

/// The high of a tick is finite. With a finite figure for what was seen it is that figure or the
/// price, whichever is more; with a NaN or what lies below all numbers it is the price, and with
/// what lies above all numbers it is zero.
pub proof fn the_high_of_a_tick_bounds_its_price(price: Double, highest_price: Double)
    ensures
        ({
            let high = SessionModel::tick_high(price, highest_price);
            let known = price.sanitized();
            &&& high.finite()
            &&& highest_price.finite() ==> {
                &&& high == highest_price || high == known
                &&& known.at_most(high)
                &&& highest_price.at_most(high)
            }
            &&& highest_price.nan() ==> high == known
            &&& highest_price.bits == 0x7ff0_0000_0000_0000 ==> high.bits == 0
            &&& highest_price.bits == 0xfff0_0000_0000_0000 ==> high == known
        }),
{
}

/// An exit signal notes its reason, its time and its price, and nothing else.
pub proof fn exit_signals_note_reason_time_and_price(
    session: SessionModel,
    now: Timestamp,
    reason: Seq<char>,
    price: Double,
)
    ensures
        ({
            let next = session.exit_signalled(now, reason, price);
            &&& next.exit_reason == Some(reason)
            &&& next.exit_signal_at == Some(now)
            &&& next.exit_signal_price == Some(price)
            &&& next.session_id == session.session_id
            &&& next.mint == session.mint
            &&& next.creator == session.creator
            &&& next.market == session.market
            &&& next.candidate_source == session.candidate_source
            &&& next.pool_id == session.pool_id
            &&& next.observed_at == session.observed_at
            &&& next.observed_open_price == session.observed_open_price
            &&& next.signal_at == session.signal_at
            &&& next.signal_price == session.signal_price
            &&& next.signal_slot == session.signal_slot
            &&& next.entry_fill_at == session.entry_fill_at
            &&& next.entry_fill_price == session.entry_fill_price
            &&& next.exit_fill_at == session.exit_fill_at
            &&& next.exit_fill_price == session.exit_fill_price
            &&& next.peak_price == session.peak_price
            &&& next.peak_price_at == session.peak_price_at
            &&& next.low_price == session.low_price
            &&& next.attempts == session.attempts
            &&& next.closed == session.closed
        }),
{
}

/// An exit fill notes its time and its price, and nothing else.
pub proof fn exit_fills_note_time_and_price(
    session: SessionModel,
    now: Timestamp,
    price: Double,
)
    ensures
        ({
            let next = session.exit_filled(now, price);
            &&& next.exit_fill_at == Some(now)
            &&& next.exit_fill_price == Some(price)
            &&& next.session_id == session.session_id
            &&& next.mint == session.mint
            &&& next.creator == session.creator
            &&& next.market == session.market
            &&& next.candidate_source == session.candidate_source
            &&& next.pool_id == session.pool_id
            &&& next.observed_at == session.observed_at
            &&& next.observed_open_price == session.observed_open_price
            &&& next.signal_at == session.signal_at
            &&& next.signal_price == session.signal_price
            &&& next.signal_slot == session.signal_slot
            &&& next.entry_fill_at == session.entry_fill_at
            &&& next.entry_fill_price == session.entry_fill_price
            &&& next.exit_reason == session.exit_reason
            &&& next.exit_signal_at == session.exit_signal_at
            &&& next.exit_signal_price == session.exit_signal_price
            &&& next.peak_price == session.peak_price
            &&& next.peak_price_at == session.peak_price_at
            &&& next.low_price == session.low_price
            &&& next.attempts == session.attempts
            &&& next.closed == session.closed
        }),
{
}

/// Closing marks the session as closed, and changes nothing else.
pub proof fn closing_marks_the_session(
    session: SessionModel,
)
    ensures
        ({
            let next = session.settled();
            &&& next.closed
            &&& next.session_id == session.session_id
            &&& next.mint == session.mint
            &&& next.creator == session.creator
            &&& next.market == session.market
            &&& next.candidate_source == session.candidate_source
            &&& next.pool_id == session.pool_id
            &&& next.observed_at == session.observed_at
            &&& next.observed_open_price == session.observed_open_price
            &&& next.signal_at == session.signal_at
            &&& next.signal_price == session.signal_price
            &&& next.signal_slot == session.signal_slot
            &&& next.entry_fill_at == session.entry_fill_at
            &&& next.entry_fill_price == session.entry_fill_price
            &&& next.exit_reason == session.exit_reason
            &&& next.exit_signal_at == session.exit_signal_at
            &&& next.exit_signal_price == session.exit_signal_price
            &&& next.exit_fill_at == session.exit_fill_at
            &&& next.exit_fill_price == session.exit_fill_price
            &&& next.peak_price == session.peak_price
            &&& next.peak_price_at == session.peak_price_at
            &&& next.low_price == session.low_price
            &&& next.attempts == session.attempts
        }),
{
}

/// The entry price is the one that was filled, else the one that was signalled, else the one that
/// was observed; the exit price is the one that was filled, else the one that was signalled, else
/// the entry's; the top and the bottom are the peak and the low, else the entry's.
pub proof fn prices_fall_back_to_what_is_known(session: SessionModel)
    ensures
        session.entry_fill_price is Some ==> session.entry_price() == session.entry_fill_price,
        session.entry_fill_price is None && session.signal_price is Some ==> session.entry_price()
            == session.signal_price,
        session.entry_fill_price is None && session.signal_price is None ==> session.entry_price()
            == session.observed_open_price,
        session.exit_fill_price is Some ==> session.exit_price() == session.exit_fill_price,
        session.exit_fill_price is None && session.exit_signal_price is Some
            ==> session.exit_price() == session.exit_signal_price,
        session.exit_fill_price is None && session.exit_signal_price is None
            ==> session.exit_price() == session.entry_price(),
        session.peak_price is Some ==> session.top_price() == session.peak_price,
        session.peak_price is None ==> session.top_price() == session.entry_price(),
        session.low_price is Some ==> session.bottom_price() == session.low_price,
        session.low_price is None ==> session.bottom_price() == session.entry_price(),
{
}

/// The position was entered when it was filled, else when it was signalled, else when the mint was
/// observed, else when the run began; it was left when it was filled, else when that was signalled,
/// else at the given time; the price was highest when the peak was reached, else at the entry.
pub proof fn times_fall_back_to_what_is_known(
    session: SessionModel,
    started_at: Timestamp,
    otherwise: Timestamp,
)
    ensures
        session.entry_fill_at matches Some(t) ==> session.fill_time(started_at) == t,
        session.entry_fill_at is None ==> {
            &&& session.signal_at matches Some(t) ==> session.fill_time(started_at) == t
            &&& session.signal_at is None ==> {
                &&& session.observed_at matches Some(t) ==> session.fill_time(started_at) == t
                &&& session.observed_at is None ==> session.fill_time(started_at) == started_at
            }
        },
        session.exit_fill_at matches Some(t) ==> session.closed_time(otherwise) == t,
        session.exit_fill_at is None ==> {
            &&& session.exit_signal_at matches Some(t) ==> session.closed_time(otherwise) == t
            &&& session.exit_signal_at is None ==> session.closed_time(otherwise) == otherwise
        },
        session.peak_price_at matches Some(t) ==> session.peak_time(started_at) == t,
        session.peak_price_at is None ==> session.peak_time(started_at) == session.fill_time(
            started_at,
        ),
{
}

/// A fill belongs to the attempt of its number; without one it is timed from the entry signal, and
/// without that from the given time.
pub proof fn fills_are_timed_from_attempt_or_signal(
    session: SessionModel,
    index: usize,
    otherwise: Timestamp,
)
    ensures
        session.attempts.contains_key(index) ==> session.attempt_start(index, otherwise)
            == session.attempts[index].started_at,
        !session.attempts.contains_key(index) ==> {
            &&& session.signal_at matches Some(t) ==> session.attempt_start(index, otherwise) == t
            &&& session.signal_at is None ==> session.attempt_start(index, otherwise) == otherwise
        },
{
}

/// A price tick.
pub struct Tick {
    pub at: Timestamp,
    pub price: Double,
    pub highest_price: Double,
}

impl Tick {
    /// The high of the tick.
    pub open spec fn high(self) -> Double {
        SessionModel::tick_high(self.price, self.highest_price)
    }
}

/// A session after a list of ticks, in order.
pub open spec fn after_ticks(session: SessionModel, ticks: Seq<Tick>) -> SessionModel
    decreases ticks.len(),
{
    if ticks.len() == 0 {
        session
    } else {
        let last = ticks.last();
        after_ticks(session, ticks.drop_last()).ticked(last.at, last.price, last.highest_price)
    }
}

/// Whether the tick at a place is the last one that reached the peak: the peak is its high, its
/// time is the tick's, and no later tick reaches it.
pub open spec fn peaked_at(session: SessionModel, ticks: Seq<Tick>, k: int) -> bool {
    let peak = ticks[k].high();
    &&& 0 <= k < ticks.len()
    &&& session.peak_price == Some(peak)
    &&& session.peak_price_at == Some(ticks[k].at)
    &&& forall|j: int| k < j < ticks.len() ==> !peak.at_most(#[trigger] ticks[j].high())
}

/// Over any ticks the peak is not exceeded by any of them, and its time is the time of the last
/// tick that reached it; where none reached the peak that was known before, peak and time are as
/// before. The low exceeds no price.
pub proof fn peak_and_low_over_all_ticks(session: SessionModel, ticks: Seq<Tick>)
    requires
        ticks.len() > 0,
        session.peak_price matches Some(peak) ==> !peak.nan(),
        session.low_price matches Some(low) ==> !low.nan(),
    ensures
        ({
            let next = after_ticks(session, ticks);
            &&& next.peak_price matches Some(peak) && !peak.nan() && forall|i: int|
                0 <= i < ticks.len() ==> (#[trigger] ticks[i].high()).at_most(peak)
            &&& next.low_price matches Some(low) && !low.nan() && forall|i: int|
                0 <= i < ticks.len() ==> low.at_most(#[trigger] ticks[i].price.sanitized())
            &&& (exists|k: int| peaked_at(next, ticks, k)) || {
                &&& session.peak_price matches Some(known)
                &&& next.peak_price == session.peak_price
                &&& next.peak_price_at == session.peak_price_at
                &&& forall|i: int|
                    0 <= i < ticks.len() ==> !known.at_most(#[trigger] ticks[i].high())
            }
        }),
    decreases ticks.len(),
{
    let earlier = ticks.drop_last();
    let middle = after_ticks(session, earlier);
    let last = ticks.last();
    let next = after_ticks(session, ticks);
    let n = ticks.len() - 1;
    ticks_move_peak_and_low(middle, last.at, last.price, last.highest_price);
    the_high_of_a_tick_bounds_its_price(last.price, last.highest_price);
    crate::laws::sanitizing_yields_finite(last.price);
    assert(ticks[n] == last);
    if earlier.len() > 0 {
        peak_and_low_over_all_ticks(session, earlier);
        assert forall|i: int| 0 <= i < n implies #[trigger] ticks[i] == earlier[i] by {}
        assert forall|i: int| 0 <= i < ticks.len() implies (
        #[trigger] ticks[i].high()).at_most(next.peak_price->0) by {
            if i < n {
                assert(earlier[i].high().at_most(middle.peak_price->0));
            }
        }
        assert forall|i: int| 0 <= i < ticks.len() implies next.low_price->0.at_most(
            #[trigger] ticks[i].price.sanitized(),
        ) by {
            if i < n {
                assert(middle.low_price->0.at_most(earlier[i].price.sanitized()));
            }
        }
    }
    if session_peak_reached(middle, last) {
        assert(peaked_at(next, ticks, n));
    } else if earlier.len() > 0 && exists|k: int| peaked_at(middle, earlier, k) {
        let k = choose|k: int| peaked_at(middle, earlier, k);
        assert forall|j: int| k < j < ticks.len() implies !ticks[k].high().at_most(
            #[trigger] ticks[j].high(),
        ) by {
            if j < n {
                assert(!earlier[k].high().at_most(earlier[j].high()));
            }
        }
        assert(peaked_at(next, ticks, k));
    } else {
        assert forall|i: int| 0 <= i < ticks.len() implies !session.peak_price->0.at_most(
            #[trigger] ticks[i].high(),
        ) by {
            if i < n {
                assert(!session.peak_price->0.at_most(earlier[i].high()));
            }
        }
    }
}

spec fn session_peak_reached(session: SessionModel, tick: Tick) -> bool {
    match session.peak_price {
        Some(peak) => peak.at_most(tick.high()),
        None => true,
    }
}

/// What is known of a session as a mathematical value is what the session itself holds.
pub proof fn sessions_are_modelled_field_by_field(session: SessionState)
    ensures
        session.model().session_id == session.session_id@,
        session.model().mint == session.mint@,
        session.creator matches Some(text) ==> session.model().creator == Some(
            text@,
        ),
        session.creator is None ==> session.model().creator is None,
        session.market matches Some(text) ==> session.model().market == Some(
            text@,
        ),
        session.market is None ==> session.model().market is None,
        session.candidate_source matches Some(text) ==> session.model().candidate_source == Some(
            text@,
        ),
        session.candidate_source is None ==> session.model().candidate_source is None,
        session.pool_id matches Some(text) ==> session.model().pool_id == Some(
            text@,
        ),
        session.pool_id is None ==> session.model().pool_id is None,
        session.model().observed_at == session.observed_at,
        session.model().observed_open_price == session.observed_open_price,
        session.model().signal_at == session.signal_at,
        session.model().signal_price == session.signal_price,
        session.model().signal_slot == session.signal_slot,
        session.model().entry_fill_at == session.entry_fill_at,
        session.model().entry_fill_price == session.entry_fill_price,
        session.exit_reason matches Some(text) ==> session.model().exit_reason == Some(
            text@,
        ),
        session.exit_reason is None ==> session.model().exit_reason is None,
        session.model().exit_signal_at == session.exit_signal_at,
        session.model().exit_signal_price == session.exit_signal_price,
        session.model().exit_fill_at == session.exit_fill_at,
        session.model().exit_fill_price == session.exit_fill_price,
        session.model().peak_price == session.peak_price,
        session.model().peak_price_at == session.peak_price_at,
        session.model().low_price == session.low_price,
        session.model().attempts == session.attempts@,
        session.model().closed == session.closed,
{
}

} // verus!
