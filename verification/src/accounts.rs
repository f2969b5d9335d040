//! How the reported events and the noted sessions account for each other.

use crate::candidates::{passing, ObservationModel};
use crate::clock::Timestamp;
use crate::history::Operation;
use crate::run::RunModel;
use crate::session::SessionModel;
use vstd::prelude::*;

verus! {

/// A step that a session takes once.
pub enum Milestone {
    /// The mint was observed.
    Observed,
    /// An entry was signalled.
    EntrySignalled,
    /// An exit was signalled.
    ExitSignalled,
    /// The position was closed.
    Closed,
}

impl Milestone {
    /// Whether a session has taken the step.
    pub open spec fn reached_by(self, session: SessionModel) -> bool {
        match self {
            Milestone::Observed => session.observed_at is Some,
            Milestone::EntrySignalled => session.signal_at is Some,
            Milestone::ExitSignalled => session.exit_signal_at is Some,
            Milestone::Closed => session.closed,
        }
    }

    /// The type of the event that reports the step.
    pub open spec fn event_type(self) -> Seq<char> {
        match self {
            Milestone::Observed => "mint_observed"@,
            Milestone::EntrySignalled => "entry_signal"@,
            Milestone::ExitSignalled => "exit_signal"@,
            Milestone::Closed => "position_closed"@,
        }
    }
}

impl RunModel {
    /// The mints whose sessions have taken a step.
    pub open spec fn mints_at(self, milestone: Milestone) -> Set<Seq<char>> {
        Set::new(
            |mint: Seq<char>|
                self.sessions.contains_key(mint) && milestone.reached_by(self.sessions[mint]),
        )
    }

    /// Whether the step was reported exactly once for each session that has taken it.
    pub open spec fn accounts_for(self, milestone: Milestone) -> bool {
        &&& self.mints_at(milestone).finite()
        &&& self.mints_at(milestone).len() == crate::counts::count_of(
            self.event_counts,
            milestone.event_type(),
        )
    }
}

pub(crate) proof fn event_types_differ()
    ensures
        "mint_observed"@ != "creator_candidate"@,
        "mint_observed"@ != "candidate_rejected"@,
        "mint_observed"@ != "entry_signal"@,
        "mint_observed"@ != "entry_attempt"@,
        "mint_observed"@ != "entry_rejected"@,
        "mint_observed"@ != "entry_fill"@,
        "mint_observed"@ != "session_update"@,
        "mint_observed"@ != "exit_signal"@,
        "mint_observed"@ != "exit_fill"@,
        "mint_observed"@ != "position_closed"@,
        "mint_observed"@ != "run_summary"@,
        "entry_signal"@ != "creator_candidate"@,
        "entry_signal"@ != "mint_observed"@,
        "entry_signal"@ != "candidate_rejected"@,
        "entry_signal"@ != "entry_attempt"@,
        "entry_signal"@ != "entry_rejected"@,
        "entry_signal"@ != "entry_fill"@,
        "entry_signal"@ != "session_update"@,
        "entry_signal"@ != "exit_signal"@,
        "entry_signal"@ != "exit_fill"@,
        "entry_signal"@ != "position_closed"@,
        "entry_signal"@ != "run_summary"@,
        "exit_signal"@ != "creator_candidate"@,
        "exit_signal"@ != "mint_observed"@,
        "exit_signal"@ != "candidate_rejected"@,
        "exit_signal"@ != "entry_signal"@,
        "exit_signal"@ != "entry_attempt"@,
        "exit_signal"@ != "entry_rejected"@,
        "exit_signal"@ != "entry_fill"@,
        "exit_signal"@ != "session_update"@,
        "exit_signal"@ != "exit_fill"@,
        "exit_signal"@ != "position_closed"@,
        "exit_signal"@ != "run_summary"@,
        "position_closed"@ != "creator_candidate"@,
        "position_closed"@ != "mint_observed"@,
        "position_closed"@ != "candidate_rejected"@,
        "position_closed"@ != "entry_signal"@,
        "position_closed"@ != "entry_attempt"@,
        "position_closed"@ != "entry_rejected"@,
        "position_closed"@ != "entry_fill"@,
        "position_closed"@ != "session_update"@,
        "position_closed"@ != "exit_signal"@,
        "position_closed"@ != "exit_fill"@,
        "position_closed"@ != "run_summary"@,
        "run_summary"@ != "creator_candidate"@,
        "run_summary"@ != "candidate_rejected"@,
        "run_summary"@ != "entry_attempt"@,
        "run_summary"@ != "entry_rejected"@,
        "run_summary"@ != "entry_fill"@,
        "run_summary"@ != "session_update"@,
        "run_summary"@ != "exit_fill"@,
{
    reveal_strlit("creator_candidate");
    reveal_strlit("mint_observed");
    reveal_strlit("candidate_rejected");
    reveal_strlit("entry_signal");
    reveal_strlit("entry_attempt");
    reveal_strlit("entry_rejected");
    reveal_strlit("entry_fill");
    reveal_strlit("session_update");
    reveal_strlit("exit_signal");
    reveal_strlit("exit_fill");
    reveal_strlit("position_closed");
    reveal_strlit("run_summary");
    assert("creator_candidate"@.len() == 17);
    assert("mint_observed"@.len() == 13);
    assert("candidate_rejected"@.len() == 18);
    assert("entry_signal"@.len() == 12);
    assert("entry_attempt"@.len() == 13);
    assert("entry_rejected"@.len() == 14);
    assert("entry_fill"@.len() == 10);
    assert("session_update"@.len() == 14);
    assert("exit_signal"@.len() == 11);
    assert("exit_fill"@.len() == 9);
    assert("position_closed"@.len() == 15);
    assert("run_summary"@.len() == 11);
    assert("mint_observed"@[0] == 'm' && "entry_attempt"@[0] == 'e');
    assert("exit_signal"@[0] == 'e' && "run_summary"@[0] == 'r');
}

/// A run in which one session was replaced: the step is newly taken by its mint, or by nobody.
proof fn one_session_replaced(
    run: RunModel,
    next: RunModel,
    mint: Seq<char>,
    session: SessionModel,
    milestone: Milestone,
)
    requires
        next.sessions == run.sessions.insert(mint, session),
        run.mints_at(milestone).contains(mint) ==> milestone.reached_by(session),
    ensures
        milestone.reached_by(session) && !run.mints_at(milestone).contains(mint) ==> next.mints_at(
            milestone,
        ) == run.mints_at(milestone).insert(mint),
        !milestone.reached_by(session) || run.mints_at(milestone).contains(mint) ==> next.mints_at(
            milestone,
        ) == run.mints_at(milestone),
{
    if milestone.reached_by(session) && !run.mints_at(milestone).contains(mint) {
        assert(next.mints_at(milestone) =~= run.mints_at(milestone).insert(mint));
    } else {
        assert(next.mints_at(milestone) =~= run.mints_at(milestone));
    }
}

/// Whatever is recorded, every first sighting, entry signal, exit signal and closing is reported
/// exactly once for each session that it was noted in.
pub proof fn operation_keeps_account(run: RunModel, operation: Operation, milestone: Milestone)
    requires
        run.accounts_for(milestone),
    ensures
        run.after(operation).accounts_for(milestone),
{
    event_types_differ();
    let next = run.after(operation);
    match operation.mint() {
        Some(mint) => {
            let session = next.sessions[mint];
            assert(next.sessions =~= run.sessions.insert(mint, session)) by {
                match operation {
                    Operation::ConfigExported { .. } => {},
                    Operation::SnapshotExported { .. } => {},
                    Operation::CandidateEmitted { .. } => {},
                    Operation::MintObserved { .. } => {},
                    Operation::CandidateRejected { .. } => {},
                    Operation::EntrySignalled { .. } => {},
                    Operation::EntryAttempted { .. } => {},
                    Operation::EntryRejected { .. } => {},
                    Operation::EntryFilled { .. } => {},
                    Operation::SessionUpdated { .. } => {},
                    Operation::ExitSignalled { .. } => {},
                    Operation::ExitFilled { .. } => {},
                    Operation::PositionClosed { .. } => {},
                    Operation::WoundUp { .. } => {},
                }
            }
            if run.mints_at(milestone).contains(mint) {
                crate::laws::operation_moves_sessions_on(run, operation, mint);
                match milestone {
                    Milestone::Observed => {},
                    Milestone::EntrySignalled => {},
                    Milestone::ExitSignalled => {},
                    Milestone::Closed => {},
                }
            }
            one_session_replaced(run, next, mint, session, milestone);
            match operation {
                Operation::ConfigExported { .. } => {},
                Operation::SnapshotExported { .. } => {},
                Operation::CandidateEmitted { .. } => {},
                Operation::MintObserved { .. } => {},
                Operation::CandidateRejected { .. } => {},
                Operation::EntrySignalled { .. } => {},
                Operation::EntryAttempted { .. } => {},
                Operation::EntryRejected { .. } => {},
                Operation::EntryFilled { .. } => {},
                Operation::SessionUpdated { .. } => {},
                Operation::ExitSignalled { .. } => {},
                Operation::ExitFilled { .. } => {},
                Operation::PositionClosed { .. } => {},
                Operation::WoundUp { .. } => {},
            }
        },
        None => {
            assert(next.sessions == run.sessions);
            assert(next.mints_at(milestone) =~= run.mints_at(milestone));
        },
    }
}

/// Over any history of a run, each of these steps is reported exactly once for each session that
/// it was noted in.
pub proof fn milestones_are_reported_once(
    start: RunModel,
    operations: Seq<Operation>,
    milestone: Milestone,
)
    requires
        start.just_begun(),
    ensures
        start.after_all(operations).accounts_for(milestone),
    decreases operations.len(),
{
    if operations.len() == 0 {
        assert(start.mints_at(milestone) =~= Set::empty());
    } else {
        let earlier = operations.drop_last();
        milestones_are_reported_once(start, earlier, milestone);
        operation_keeps_account(start.after_all(earlier), operations.last(), milestone);
    }
}

/// Whatever is recorded, there is one session summary for each closed position.
pub proof fn operation_keeps_summaries(run: RunModel, operation: Operation)
    requires
        run.session_summary_paths.len() == crate::counts::count_of(
            run.event_counts,
            "position_closed"@,
        ),
    ensures
        run.after(operation).session_summary_paths.len() == crate::counts::count_of(
            run.after(operation).event_counts,
            "position_closed"@,
        ),
{
    event_types_differ();
    match operation {
        Operation::ConfigExported { .. } => {},
        Operation::SnapshotExported { .. } => {},
        Operation::CandidateEmitted { .. } => {},
        Operation::MintObserved { .. } => {},
        Operation::CandidateRejected { .. } => {},
        Operation::EntrySignalled { .. } => {},
        Operation::EntryAttempted { .. } => {},
        Operation::EntryRejected { .. } => {},
        Operation::EntryFilled { .. } => {},
        Operation::SessionUpdated { .. } => {},
        Operation::ExitSignalled { .. } => {},
        Operation::ExitFilled { .. } => {},
        Operation::PositionClosed { .. } => {},
        Operation::WoundUp { .. } => {},
    }
}

/// Over any history of a run there is one session summary for each closed position.
pub proof fn closings_are_summed_up_once(start: RunModel, operations: Seq<Operation>)
    requires
        start.just_begun(),
    ensures
        start.after_all(operations).session_summary_paths.len() == crate::counts::count_of(
            start.after_all(operations).event_counts,
            "position_closed"@,
        ),
    decreases operations.len(),
{
    if operations.len() > 0 {
        let earlier = operations.drop_last();
        closings_are_summed_up_once(start, earlier);
        operation_keeps_summaries(start.after_all(earlier), operations.last());
    }
}

/// Over any history a run is summed up once if it was wound up, and not at all before.
pub proof fn a_run_is_summed_up_once(start: RunModel, operations: Seq<Operation>)
    requires
        start.just_begun(),
    ensures
        crate::counts::count_of(start.after_all(operations).event_counts, "run_summary"@)
            == if start.after_all(operations).finalized {
            1nat
        } else {
            0nat
        },
    decreases operations.len(),
{
    if operations.len() > 0 {
        a_run_is_summed_up_once(start, operations.drop_last());
        event_types_differ();
        match operations.last() {
            Operation::ConfigExported { .. } => {},
            Operation::SnapshotExported { .. } => {},
            Operation::CandidateEmitted { .. } => {},
            Operation::MintObserved { .. } => {},
            Operation::CandidateRejected { .. } => {},
            Operation::EntrySignalled { .. } => {},
            Operation::EntryAttempted { .. } => {},
            Operation::EntryRejected { .. } => {},
            Operation::EntryFilled { .. } => {},
            Operation::SessionUpdated { .. } => {},
            Operation::ExitSignalled { .. } => {},
            Operation::ExitFilled { .. } => {},
            Operation::PositionClosed { .. } => {},
            Operation::WoundUp { .. } => {},
        }
    }
}

/// A list of candidates is reported one by one: one event for each that the filter lets pass, and
/// no session is touched.
pub proof fn candidates_are_reported_once(
    run: RunModel,
    observations: Seq<ObservationModel>,
    reason_override: Seq<char>,
    filter: Option<Seq<Seq<char>>>,
    times: Seq<Timestamp>,
)
    requires
        times.len() == observations.len(),
    ensures
        ({
            let next = run.candidates_emitted(observations, reason_override, filter, times);
            &&& next.event_index == run.event_index + passing(observations, filter)
            &&& crate::counts::count_of(next.event_counts, "creator_candidate"@)
                == crate::counts::count_of(run.event_counts, "creator_candidate"@) + passing(
                observations,
                filter,
            )
            &&& next.sessions == run.sessions
            &&& crate::laws::log_continues(run, next)
        }),
    decreases observations.len(),
{
    if observations.len() > 0 {
        let rest = observations.drop_last();
        let middle = run.candidates_emitted(rest, reason_override, filter, times.drop_last());
        candidates_are_reported_once(run, rest, reason_override, filter, times.drop_last());
        let operation = Operation::CandidateEmitted {
            observation: observations.last(),
            reason_override,
            filter,
            now: times.last(),
        };
        assert(middle.after(operation) == run.candidates_emitted(
            observations,
            reason_override,
            filter,
            times,
        ));
        crate::laws::operation_continues_log(middle, operation);
        crate::laws::log_continuation_is_transitive(run, middle, middle.after(operation));
    }
}

/// Reporting a list of candidates, one operation for each.
pub open spec fn candidate_operations(
    observations: Seq<ObservationModel>,
    reason_override: Seq<char>,
    filter: Option<Seq<Seq<char>>>,
    times: Seq<Timestamp>,
) -> Seq<Operation> {
    Seq::new(
        observations.len(),
        |i: int|
            Operation::CandidateEmitted {
                observation: observations[i],
                reason_override,
                filter,
                now: times[i],
            },
    )
}

/// Reporting a list of candidates is a history of single reports: what holds of every history
/// holds of it.
pub proof fn candidates_are_a_history(
    run: RunModel,
    observations: Seq<ObservationModel>,
    reason_override: Seq<char>,
    filter: Option<Seq<Seq<char>>>,
    times: Seq<Timestamp>,
)
    requires
        times.len() == observations.len(),
    ensures
        run.candidates_emitted(observations, reason_override, filter, times) == run.after_all(
            candidate_operations(observations, reason_override, filter, times),
        ),
    decreases observations.len(),
{
    if observations.len() > 0 {
        let rest = observations.drop_last();
        candidates_are_a_history(run, rest, reason_override, filter, times.drop_last());
        assert(candidate_operations(
            observations,
            reason_override,
            filter,
            times,
        ).drop_last() =~= candidate_operations(rest, reason_override, filter, times.drop_last()));
    }
}

} // verus!
