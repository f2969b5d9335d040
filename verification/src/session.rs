//! What is known of one mint's session: from its first observation to the closed position.

use crate::clock::Timestamp;
use crate::double::{as_f64, Double};
use crate::known::or_else;
use crate::text::to_signed_decimal;
use std::collections::HashMap;
use vstd::hash_map::StringHashMap;
use vstd::prelude::*;

verus! {

broadcast use vstd::std_specs::hash::group_hash_axioms;

/// An attempt to enter a position.
#[derive(Clone, Copy, Debug, PartialEq, Eq, Structural)]
pub struct AttemptState {
    /// When the attempt was made.
    pub started_at: Timestamp,
}

/// The session of one mint.
#[derive(Debug)]
pub struct SessionState {
    pub session_id: String,
    pub mint: String,
    pub creator: Option<String>,
    pub market: Option<String>,
    pub candidate_source: Option<String>,
    pub pool_id: Option<String>,
    pub observed_at: Option<Timestamp>,
    pub observed_open_price: Option<Double>,
    pub signal_at: Option<Timestamp>,
    pub signal_price: Option<Double>,
    pub signal_slot: Option<u64>,
    pub entry_fill_at: Option<Timestamp>,
    pub entry_fill_price: Option<Double>,
    pub exit_reason: Option<String>,
    pub exit_signal_at: Option<Timestamp>,
    pub exit_signal_price: Option<Double>,
    pub exit_fill_at: Option<Timestamp>,
    pub exit_fill_price: Option<Double>,
    pub peak_price: Option<Double>,
    pub peak_price_at: Option<Timestamp>,
    pub low_price: Option<Double>,
    pub attempts: HashMap<usize, AttemptState>,
    pub closed: bool,
}

/// The session of one mint as a mathematical value.
#[verifier::ext_equal]
pub struct SessionModel {
    pub session_id: Seq<char>,
    pub mint: Seq<char>,
    pub creator: Option<Seq<char>>,
    pub market: Option<Seq<char>>,
    pub candidate_source: Option<Seq<char>>,
    pub pool_id: Option<Seq<char>>,
    pub observed_at: Option<Timestamp>,
    pub observed_open_price: Option<Double>,
    pub signal_at: Option<Timestamp>,
    pub signal_price: Option<Double>,
    pub signal_slot: Option<u64>,
    pub entry_fill_at: Option<Timestamp>,
    pub entry_fill_price: Option<Double>,
    pub exit_reason: Option<Seq<char>>,
    pub exit_signal_at: Option<Timestamp>,
    pub exit_signal_price: Option<Double>,
    pub exit_fill_at: Option<Timestamp>,
    pub exit_fill_price: Option<Double>,
    pub peak_price: Option<Double>,
    pub peak_price_at: Option<Timestamp>,
    pub low_price: Option<Double>,
    pub attempts: Map<usize, AttemptState>,
    pub closed: bool,
}

/// The identifier of a mint's session: the mint and the start of the run in milliseconds.
pub open spec fn session_id_for(mint: Seq<char>, started_at: Timestamp) -> Seq<char> {
    mint + "-"@ + crate::text::signed_decimal(started_at.epoch_millis())
}

/// The later of two texts where there is one, the earlier otherwise.
pub open spec fn overridden(known: Option<Seq<char>>, new: Option<Seq<char>>) -> Option<Seq<char>> {
    crate::known::first_known(new, known)
}

/// The characters of an optional string slice.
pub open spec fn opt_str_view(s: Option<&str>) -> Option<Seq<char>> {
    match s {
        Some(text) => Some(text@),
        None => None,
    }
}

impl SessionModel {
    /// A session of which only the mint is known.
    pub open spec fn fresh(mint: Seq<char>, started_at: Timestamp) -> SessionModel {
        SessionModel {
            session_id: session_id_for(mint, started_at),
            mint,
            creator: None,
            market: None,
            candidate_source: None,
            pool_id: None,
            observed_at: None,
            observed_open_price: None,
            signal_at: None,
            signal_price: None,
            signal_slot: None,
            entry_fill_at: None,
            entry_fill_price: None,
            exit_reason: None,
            exit_signal_at: None,
            exit_signal_price: None,
            exit_fill_at: None,
            exit_fill_price: None,
            peak_price: None,
            peak_price_at: None,
            low_price: None,
            attempts: Map::empty(),
            closed: false,
        }
    }

    /// The session with what has become known of its origin.
    pub open spec fn described(
        self,
        creator: Option<Seq<char>>,
        market: Option<Seq<char>>,
        candidate_source: Option<Seq<char>>,
        pool_id: Option<Seq<char>>,
    ) -> SessionModel {
        SessionModel {
            creator: overridden(self.creator, creator),
            market: overridden(self.market, market),
            candidate_source: overridden(self.candidate_source, candidate_source),
            pool_id: overridden(self.pool_id, pool_id),
            ..self
        }
    }

    /// The session once the mint has been observed.
    pub open spec fn observed(self, now: Timestamp, open_price: Double) -> SessionModel {
        SessionModel {
            observed_at: Some(now),
            observed_open_price: Some(open_price),
            ..self
        }
    }

    /// The session once an entry has been signalled.
    pub open spec fn signalled(self, now: Timestamp, price: Double, slot: u64) -> SessionModel {
        SessionModel {
            signal_at: Some(now),
            signal_price: Some(price),
            signal_slot: Some(slot),
            ..self
        }
    }

    /// The session with one more entry attempt.
    pub open spec fn attempted(self, index: usize, started_at: Timestamp) -> SessionModel {
        SessionModel { attempts: self.attempts.insert(index, AttemptState { started_at }), ..self }
    }

    /// The session once an entry has been filled: the first fill starts the price range.
    pub open spec fn filled(self, now: Timestamp, price: Double) -> SessionModel {
        SessionModel {
            entry_fill_at: Some(now),
            entry_fill_price: Some(price),
            peak_price: crate::known::first_known(self.peak_price, Some(price)),
            peak_price_at: crate::known::first_known(self.peak_price_at, Some(now)),
            low_price: crate::known::first_known(self.low_price, Some(price)),
            ..self
        }
    }

    /// The highest price that a tick reports: what was seen, or the price itself if that is more.
    pub open spec fn tick_high(price: Double, highest_price: Double) -> Double {
        highest_price.larger(price.sanitized()).sanitized()
    }

    /// Whether a price reaches the peak so far.
    pub open spec fn reaches_peak(self, high: Double) -> bool {
        match self.peak_price {
            Some(peak) => peak.at_most(high),
            None => true,
        }
    }

    /// Whether a price reaches the low so far.
    pub open spec fn reaches_low(self, price: Double) -> bool {
        match self.low_price {
            Some(low) => price.at_most(low),
            None => true,
        }
    }

    /// The session after a price tick.
    pub open spec fn ticked(
        self,
        now: Timestamp,
        price: Double,
        highest_price: Double,
    ) -> SessionModel {
        let price = price.sanitized();
        let high = SessionModel::tick_high(price, highest_price);
        SessionModel {
            peak_price: if self.reaches_peak(high) {
                Some(high)
            } else {
                self.peak_price
            },
            peak_price_at: if self.reaches_peak(high) {
                Some(now)
            } else {
                self.peak_price_at
            },
            low_price: if self.reaches_low(price) {
                Some(price)
            } else {
                self.low_price
            },
            ..self
        }
    }

    /// The session once an exit has been signalled.
    pub open spec fn exit_signalled(
        self,
        now: Timestamp,
        reason: Seq<char>,
        price: Double,
    ) -> SessionModel {
        SessionModel {
            exit_reason: Some(reason),
            exit_signal_at: Some(now),
            exit_signal_price: Some(price),
            ..self
        }
    }

    /// The session once an exit has been filled.
    pub open spec fn exit_filled(self, now: Timestamp, price: Double) -> SessionModel {
        SessionModel { exit_fill_at: Some(now), exit_fill_price: Some(price), ..self }
    }

    /// The session once its position is closed.
    pub open spec fn settled(self) -> SessionModel {
        SessionModel { closed: true, ..self }
    }

    /// The price that gains and losses are measured from.
    pub open spec fn entry_price(self) -> Option<Double> {
        crate::known::first_known(
            crate::known::first_known(self.entry_fill_price, self.signal_price),
            self.observed_open_price,
        )
    }

    /// The price that the position was left at.
    pub open spec fn exit_price(self) -> Option<Double> {
        crate::known::first_known(
            crate::known::first_known(self.exit_fill_price, self.exit_signal_price),
            self.entry_price(),
        )
    }

    /// The highest price of the session.
    pub open spec fn top_price(self) -> Option<Double> {
        crate::known::first_known(self.peak_price, self.entry_price())
    }

    /// The lowest price of the session.
    pub open spec fn bottom_price(self) -> Option<Double> {
        crate::known::first_known(self.low_price, self.entry_price())
    }

    /// When the position was entered, or else the best that is known.
    pub open spec fn fill_time(self, started_at: Timestamp) -> Timestamp {
        crate::known::first_known(
            crate::known::first_known(self.entry_fill_at, self.signal_at),
            self.observed_at,
        ).unwrap_or(started_at)
    }

    /// When the position was left, or else the given time.
    pub open spec fn closed_time(self, otherwise: Timestamp) -> Timestamp {
        crate::known::first_known(self.exit_fill_at, self.exit_signal_at).unwrap_or(otherwise)
    }

    /// When the price was highest.
    pub open spec fn peak_time(self, started_at: Timestamp) -> Timestamp {
        self.peak_price_at.unwrap_or(self.fill_time(started_at))
    }

    /// When the attempt that a fill belongs to was made, or else when the entry was signalled.
    pub open spec fn attempt_start(self, index: usize, otherwise: Timestamp) -> Timestamp {
        if self.attempts.contains_key(index) {
            self.attempts[index].started_at
        } else {
            self.signal_at.unwrap_or(otherwise)
        }
    }
}

fn set_if_known(slot: &mut Option<String>, new: Option<&str>)
    ensures
        crate::text::option_view(*final(slot)) == overridden(
            crate::text::option_view(*old(slot)),
            opt_str_view(new),
        ),
{
    if let Some(text) = new {
        *slot = Some(text.to_owned());
    }
}

impl SessionState {
    /// The session as a mathematical value.
    pub open spec fn model(self) -> SessionModel {
        SessionModel {
            session_id: self.session_id@,
            mint: self.mint@,
            creator: crate::text::option_view(self.creator),
            market: crate::text::option_view(self.market),
            candidate_source: crate::text::option_view(self.candidate_source),
            pool_id: crate::text::option_view(self.pool_id),
            observed_at: self.observed_at,
            observed_open_price: self.observed_open_price,
            signal_at: self.signal_at,
            signal_price: self.signal_price,
            signal_slot: self.signal_slot,
            entry_fill_at: self.entry_fill_at,
            entry_fill_price: self.entry_fill_price,
            exit_reason: crate::text::option_view(self.exit_reason),
            exit_signal_at: self.exit_signal_at,
            exit_signal_price: self.exit_signal_price,
            exit_fill_at: self.exit_fill_at,
            exit_fill_price: self.exit_fill_price,
            peak_price: self.peak_price,
            peak_price_at: self.peak_price_at,
            low_price: self.low_price,
            attempts: self.attempts@,
            closed: self.closed,
        }
    }

    /// A session of which only the mint is known.
    pub fn new(mint: &str, started_at: Timestamp) -> (session: SessionState)
        ensures
            session.model() == SessionModel::fresh(mint@, started_at),
    {
        let millis = to_signed_decimal(started_at.timestamp_millis());
        SessionState {
            session_id: crate::text::join3(mint, "-", millis.as_str()),
            mint: mint.to_owned(),
            creator: None,
            market: None,
            candidate_source: None,
            pool_id: None,
            observed_at: None,
            observed_open_price: None,
            signal_at: None,
            signal_price: None,
            signal_slot: None,
            entry_fill_at: None,
            entry_fill_price: None,
            exit_reason: None,
            exit_signal_at: None,
            exit_signal_price: None,
            exit_fill_at: None,
            exit_fill_price: None,
            peak_price: None,
            peak_price_at: None,
            low_price: None,
            attempts: HashMap::new(),
            closed: false,
        }
    }

    /// Notes what has become known of the session's origin.
    pub fn describe(
        &mut self,
        creator: Option<&str>,
        market: Option<&str>,
        candidate_source: Option<&str>,
        pool_id: Option<&str>,
    )
        ensures
            final(self).model() == old(self).model().described(
                opt_str_view(creator),
                opt_str_view(market),
                opt_str_view(candidate_source),
                opt_str_view(pool_id),
            ),
    {
        set_if_known(&mut self.creator, creator);
        set_if_known(&mut self.market, market);
        set_if_known(&mut self.candidate_source, candidate_source);
        set_if_known(&mut self.pool_id, pool_id);
    }

    /// Notes the first observation of the mint.
    pub fn note_observed(&mut self, now: Timestamp, open_price: Double)
        ensures
            final(self).model() == old(self).model().observed(now, open_price),
    {
        self.observed_at = Some(now);
        self.observed_open_price = Some(open_price);
    }

    /// Notes an entry signal.
    pub fn note_signal(&mut self, now: Timestamp, price: Double, slot: u64)
        ensures
            final(self).model() == old(self).model().signalled(now, price, slot),
    {
        self.signal_at = Some(now);
        self.signal_price = Some(price);
        self.signal_slot = Some(slot);
    }

    /// Notes an entry attempt.
    pub fn note_attempt(&mut self, index: usize, started_at: Timestamp)
        ensures
            final(self).model() == old(self).model().attempted(index, started_at),
    {
        self.attempts.insert(index, AttemptState { started_at });
    }

    /// Notes an entry fill.
    pub fn note_fill(&mut self, now: Timestamp, price: Double)
        ensures
            final(self).model() == old(self).model().filled(now, price),
    {
        self.entry_fill_at = Some(now);
        self.entry_fill_price = Some(price);
        self.peak_price = or_else(self.peak_price, Some(price));
        self.peak_price_at = or_else(self.peak_price_at, Some(now));
        self.low_price = or_else(self.low_price, Some(price));
    }

    /// Notes a price tick and returns the sanitized price and high.
    pub fn note_tick(&mut self, now: Timestamp, price: Double, highest_price: Double) -> (seen: (
        Double,
        Double,
    ))
        ensures
            final(self).model() == old(self).model().ticked(now, price, highest_price),
            seen.0 == price.sanitized(),
            seen.1 == SessionModel::tick_high(price, highest_price),
    {
        let price = as_f64(price);
        let high = as_f64(highest_price.max(price));
        let new_peak = match self.peak_price {
            Some(peak) => peak.le(high),
            None => true,
        };
        if new_peak {
            self.peak_price = Some(high);
            self.peak_price_at = Some(now);
        }
        let new_low = match self.low_price {
            Some(low) => price.le(low),
            None => true,
        };
        if new_low {
            self.low_price = Some(price);
        }
        (price, high)
    }

    /// Notes an exit signal.
    pub fn note_exit_signal(&mut self, now: Timestamp, reason: &str, price: Double)
        ensures
            final(self).model() == old(self).model().exit_signalled(now, reason@, price),
    {
        self.exit_reason = Some(reason.to_owned());
        self.exit_signal_at = Some(now);
        self.exit_signal_price = Some(price);
    }

    /// Notes an exit fill.
    pub fn note_exit_fill(&mut self, now: Timestamp, price: Double)
        ensures
            final(self).model() == old(self).model().exit_filled(now, price),
    {
        self.exit_fill_at = Some(now);
        self.exit_fill_price = Some(price);
    }

    /// Notes that the position is closed.
    pub fn note_closed(&mut self)
        ensures
            final(self).model() == old(self).model().settled(),
    {
        self.closed = true;
    }

    /// The price that gains and losses are measured from.
    pub fn entry_price(&self) -> (price: Option<Double>)
        ensures
            price == self.model().entry_price(),
    {
        or_else(or_else(self.entry_fill_price, self.signal_price), self.observed_open_price)
    }

    /// The price that the position was left at.
    pub fn exit_price(&self) -> (price: Option<Double>)
        ensures
            price == self.model().exit_price(),
    {
        or_else(or_else(self.exit_fill_price, self.exit_signal_price), self.entry_price())
    }

    /// The highest price of the session.
    pub fn top_price(&self) -> (price: Option<Double>)
        ensures
            price == self.model().top_price(),
    {
        or_else(self.peak_price, self.entry_price())
    }

    /// The lowest price of the session.
    pub fn bottom_price(&self) -> (price: Option<Double>)
        ensures
            price == self.model().bottom_price(),
    {
        or_else(self.low_price, self.entry_price())
    }

    /// When the position was entered, or else the best that is known.
    pub fn fill_time(&self, started_at: Timestamp) -> (time: Timestamp)
        ensures
            time == self.model().fill_time(started_at),
    {
        or_else(or_else(self.entry_fill_at, self.signal_at), self.observed_at).unwrap_or(started_at)
    }

    /// When the position was left, or else the given time.
    pub fn closed_time(&self, otherwise: Timestamp) -> (time: Timestamp)
        ensures
            time == self.model().closed_time(otherwise),
    {
        or_else(self.exit_fill_at, self.exit_signal_at).unwrap_or(otherwise)
    }

    /// When the price was highest.
    pub fn peak_time(&self, started_at: Timestamp) -> (time: Timestamp)
        ensures
            time == self.model().peak_time(started_at),
    {
        self.peak_price_at.unwrap_or(self.fill_time(started_at))
    }

    /// When the attempt that a fill belongs to was made, or else when the entry was signalled.
    pub fn attempt_start(&self, index: usize, otherwise: Timestamp) -> (time: Timestamp)
        ensures
            time == self.model().attempt_start(index, otherwise),
    {
        match self.attempts.get(&index) {
            Some(attempt) => attempt.started_at,
            None => self.signal_at.unwrap_or(otherwise),
        }
    }
}

/// The sessions of a run, by mint.
pub struct SessionTable {
    index: StringHashMap<usize>,
    rows: Vec<SessionState>,
}

impl View for SessionTable {
    type V = Map<Seq<char>, SessionModel>;

    closed spec fn view(&self) -> Map<Seq<char>, SessionModel> {
        Map::new(
            |mint: Seq<char>| self.index@.contains_key(mint),
            |mint: Seq<char>| self.rows@[self.index@[mint] as int].model(),
        )
    }
}

impl SessionTable {
    /// Every session is found under its own mint, and only there.
    pub closed spec fn wf(&self) -> bool {
        &&& forall|mint: Seq<char>| #[trigger]
            self.index@.contains_key(mint) ==> self.index@[mint] < self.rows@.len()
                && self.rows@[self.index@[mint] as int].mint@ == mint
        &&& forall|i: int|
            0 <= i < self.rows@.len() ==> self.index@.contains_key(
                (#[trigger] self.rows@[i]).mint@,
            ) && self.index@[self.rows@[i].mint@] == i
    }

    /// A table without sessions.
    pub fn new() -> (table: SessionTable)
        ensures
            table.wf(),
            table@ == Map::<Seq<char>, SessionModel>::empty(),
    {
        let table = SessionTable { index: StringHashMap::new(), rows: Vec::new() };
        assert(table@ =~= Map::<Seq<char>, SessionModel>::empty());
        table
    }

    /// The session of a mint as it is known so far, or a fresh one.
    pub open spec fn known_or_fresh(
        sessions: Map<Seq<char>, SessionModel>,
        mint: Seq<char>,
        started_at: Timestamp,
    ) -> SessionModel {
        if sessions.contains_key(mint) {
            sessions[mint]
        } else {
            SessionModel::fresh(mint, started_at)
        }
    }

    /// The session of a mint, if there is one.
    pub fn get(&self, mint: &str) -> (session: Option<&SessionState>)
        requires
            self.wf(),
        ensures
            session is Some <==> self@.contains_key(mint@),
            session matches Some(known) ==> known.model() == self@[mint@],
    {
        match self.index.get(mint) {
            Some(row) => Some(&self.rows[*row]),
            None => None,
        }
    }

    /// The session of a mint, begun if there is none yet.
    pub fn entry(&mut self, mint: &str, started_at: Timestamp) -> (session: &mut SessionState)
        requires
            old(self).wf(),
        ensures
            session.model() == Self::known_or_fresh(old(self)@, mint@, started_at),
            session.mint@ == mint@,
            final(session).mint@ == mint@ ==> {
                &&& final(self).wf()
                &&& final(self)@ == old(self)@.insert(mint@, final(session).model())
            },
    {
        let row: usize = match self.index.get(mint) {
            Some(row) => *row,
            None => {
                let row = self.rows.len();
                self.index.insert(mint.to_owned(), row);
                self.rows.push(SessionState::new(mint, started_at));
                row
            },
        };
        &mut self.rows[row]
    }
}

} // verus!
