//! A run whose requests are handed out while it goes on.

use crate::actions::ActionModel;
use crate::artifacts::exports_are_written;
use crate::history::Operation;
use crate::json::JsonModel;
use crate::laws::{field, logged};
use crate::run::{event_id_for, RunModel};
use vstd::prelude::*;

verus! {

/// What happens to a run.
pub enum Step {
    /// Something is recorded.
    Recorded(Operation),
    /// What was asked for since the last time is handed out.
    HandedOut,
}

/// What is recorded in a list of steps, in order.
pub open spec fn recorded(steps: Seq<Step>) -> Seq<Operation>
    decreases steps.len(),
{
    if steps.len() == 0 {
        Seq::empty()
    } else {
        match steps.last() {
            Step::Recorded(operation) => recorded(steps.drop_last()).push(operation),
            Step::HandedOut => recorded(steps.drop_last()),
        }
    }
}

/// A run and all that it has handed out, one hand-out after the other.
#[verifier::ext_equal]
pub struct Progress {
    pub run: RunModel,
    pub handed_out: Seq<ActionModel>,
}

impl Progress {
    /// What was asked for so far, handed out or not.
    pub open spec fn asked(self) -> Seq<ActionModel> {
        self.handed_out + self.run.outbox
    }

    /// The run as it would be if nothing had been handed out.
    pub open spec fn whole(self) -> RunModel {
        RunModel { outbox: self.asked(), ..self.run }
    }

    /// The progress after one more step.
    pub open spec fn after(self, step: Step) -> Progress {
        match step {
            Step::Recorded(operation) => Progress { run: self.run.after(operation), ..self },
            Step::HandedOut => Progress {
                run: self.run.handed_out(),
                handed_out: self.handed_out + self.run.outbox,
            },
        }
    }
}

impl RunModel {
    /// The progress of a run after a list of steps, in order.
    pub open spec fn after_steps(self, steps: Seq<Step>) -> Progress
        decreases steps.len(),
    {
        if steps.len() == 0 {
            Progress { run: self, handed_out: Seq::empty() }
        } else {
            self.after_steps(steps.drop_last()).after(steps.last())
        }
    }

    /// The run with requests that came before its own.
    pub open spec fn behind(self, earlier: Seq<ActionModel>) -> RunModel {
        RunModel { outbox: earlier + self.outbox, ..self }
    }
}

proof fn asking_behind(run: RunModel, earlier: Seq<ActionModel>, action: ActionModel)
    ensures
        run.behind(earlier).asked(action) == run.asked(action).behind(earlier),
{
    assert(earlier + run.outbox.push(action) =~= (earlier + run.outbox).push(action));
}

proof fn writing_behind(run: RunModel, earlier: Seq<ActionModel>, status: Seq<char>)
    ensures
        run.behind(earlier).wrote_state(status) == run.wrote_state(status).behind(earlier),
{
    asking_behind(
        run,
        earlier,
        ActionModel::WriteDocument {
            path: run.state_path,
            document: run.state_document(status),
        },
    );
}

proof fn emitting_behind(
    run: RunModel,
    earlier: Seq<ActionModel>,
    event_type: Seq<char>,
    payload: JsonModel,
    session_id: Option<Seq<char>>,
    mint: Option<Seq<char>>,
    creator: Option<Seq<char>>,
    ts: crate::clock::Timestamp,
)
    ensures
        run.behind(earlier).emitted(event_type, payload, session_id, mint, creator, ts)
            == run.emitted(event_type, payload, session_id, mint, creator, ts).behind(earlier),
{
    let next = run.counted(event_type);
    let line = ActionModel::AppendLine {
        path: run.event_path,
        line: next.event_document(event_type, payload, session_id, mint, creator, ts),
    };
    assert(run.behind(earlier).counted(event_type) == next.behind(earlier));
    asking_behind(next, earlier, line);
    writing_behind(next.asked(line), earlier, "running"@);
}

/// What an operation makes of a run does not depend on the requests that are still waiting.
pub proof fn operation_ignores_what_waits(
    run: RunModel,
    earlier: Seq<ActionModel>,
    operation: Operation,
)
    ensures
        run.behind(earlier).after(operation) == run.after(operation).behind(earlier),
{
    assert forall|r: RunModel, action: ActionModel| #[trigger]
        r.behind(earlier).asked(action) == r.asked(action).behind(earlier) by {
        asking_behind(r, earlier, action);
    }
    assert forall|r: RunModel, status: Seq<char>| #[trigger]
        r.behind(earlier).wrote_state(status) == r.wrote_state(status).behind(earlier) by {
        writing_behind(r, earlier, status);
    }
    assert forall|
        r: RunModel,
        event_type: Seq<char>,
        payload: JsonModel,
        session_id: Option<Seq<char>>,
        mint: Option<Seq<char>>,
        creator: Option<Seq<char>>,
        ts: crate::clock::Timestamp,
    |
        #[trigger] r.behind(earlier).emitted(event_type, payload, session_id, mint, creator, ts)
            == r.emitted(event_type, payload, session_id, mint, creator, ts).behind(earlier) by {
        emitting_behind(r, earlier, event_type, payload, session_id, mint, creator, ts);
    }
    match operation {
        Operation::ConfigExported { .. } => {},
        Operation::SnapshotExported { .. } => {},
        Operation::CandidateEmitted { .. } => {},
        Operation::MintObserved { .. } => {},
        Operation::CandidateRejected { .. } => {},
        Operation::EntrySignalled { .. } => {},
        Operation::EntryAttempted { .. } => {},
        Operation::EntryRejected { .. } => {},
        Operation::EntryFilled { .. } => {},
        Operation::SessionUpdated { .. } => {},
        Operation::ExitSignalled { .. } => {},
        Operation::ExitFilled { .. } => {},
        Operation::PositionClosed { .. } => {},
        Operation::WoundUp { .. } => {},
    }
}

/// Handing requests out changes nothing else: over any steps, the run is what it would be without
/// any hand-out, and what was handed out together with what waits is what would wait then. What
/// holds of every history so holds of every run, whenever its requests are taken.
pub proof fn handing_out_changes_nothing_else(run: RunModel, steps: Seq<Step>)
    ensures
        run.after_steps(steps).whole() == run.after_all(recorded(steps)),
    decreases steps.len(),
{
    if steps.len() == 0 {
        assert(run.after_steps(steps).asked() =~= run.outbox);
    } else {
        let before = run.after_steps(steps.drop_last());
        handing_out_changes_nothing_else(run, steps.drop_last());
        match steps.last() {
            Step::Recorded(operation) => {
                operation_ignores_what_waits(before.run, before.handed_out, operation);
                assert(recorded(steps).drop_last() =~= recorded(steps.drop_last()));
            },
            Step::HandedOut => {
                assert(before.after(Step::HandedOut).asked() =~= before.asked());
            },
        }
    }
}

/// Once everything was handed out, nothing waits, and what was asked for is what was handed out.
pub proof fn a_hand_out_leaves_nothing(run: RunModel, steps: Seq<Step>)
    requires
        steps.len() > 0,
        steps.last() is HandedOut,
    ensures
        run.after_steps(steps).run.outbox.len() == 0,
        run.after_steps(steps).asked() == run.after_steps(steps).handed_out,
{
    assert(run.after_steps(steps).asked() =~= run.after_steps(steps).handed_out);
}

/// Whenever its requests are handed out, a run logs one line for each event that it counts: the
/// `k`th line has the number `k`, no two lines share an identifier, and the counts of all types
/// add up to the number of events.
pub proof fn handed_out_log_is_numbered(start: RunModel, steps: Seq<Step>)
    requires
        start.just_begun(),
    ensures
        ({
            let progress = start.after_steps(steps);
            let log = logged(progress.asked());
            &&& log.len() == progress.run.event_index
            &&& crate::counts::total_of(progress.run.event_counts) == progress.run.event_index
            &&& forall|i: int|
                0 <= i < log.len() ==> field(#[trigger] log[i], "event_id"@) == JsonModel::Str(
                    event_id_for(start.run_id, (i + 1) as nat),
                )
            &&& forall|i: int, j: int|
                0 <= i < j < log.len() ==> field(#[trigger] log[i], "event_id"@) != field(
                    #[trigger] log[j],
                    "event_id"@,
                )
            &&& steps.len() > 0 && steps.last() is HandedOut ==> progress.asked()
                == progress.handed_out
        }),
{
    let progress = start.after_steps(steps);
    let log = logged(progress.asked());
    handing_out_changes_nothing_else(start, steps);
    crate::laws::log_is_numbered_from_one(start, recorded(steps));
    crate::laws::counts_add_up(start, recorded(steps));
    if steps.len() > 0 && steps.last() is HandedOut {
        a_hand_out_leaves_nothing(start, steps);
    }
    assert forall|i: int, j: int| 0 <= i < j < log.len() implies field(
        #[trigger] log[i],
        "event_id"@,
    ) != field(#[trigger] log[j], "event_id"@) by {
        if event_id_for(start.run_id, (i + 1) as nat) == event_id_for(
            start.run_id,
            (j + 1) as nat,
        ) {
            crate::laws::event_ids_are_unique(start.run_id, (i + 1) as nat, (j + 1) as nat);
        }
    }
}

/// Whenever its requests are handed out, every export that a run lists was asked to be written;
/// right after a hand-out, each was asked for in one of the hand-outs.
pub proof fn handed_out_exports_are_written(start: RunModel, steps: Seq<Step>)
    requires
        start.just_begun(),
    ensures
        exports_are_written(start.after_steps(steps).whole()),
        steps.len() > 0 && steps.last() is HandedOut ==> start.after_steps(steps).whole().outbox
            == start.after_steps(steps).handed_out,
{
    handing_out_changes_nothing_else(start, steps);
    crate::artifacts::listed_exports_are_written(start, recorded(steps));
    if steps.len() > 0 && steps.last() is HandedOut {
        a_hand_out_leaves_nothing(start, steps);
    }
}

/// Whenever its requests are handed out, a run is summed up once if it was wound up, and not at
/// all before.
pub proof fn a_run_is_summed_up_once_despite_hand_outs(start: RunModel, steps: Seq<Step>)
    requires
        start.just_begun(),
    ensures
        crate::counts::count_of(start.after_steps(steps).run.event_counts, "run_summary"@)
            == if start.after_steps(steps).run.finalized {
            1nat
        } else {
            0nat
        },
{
    handing_out_changes_nothing_else(start, steps);
    crate::accounts::a_run_is_summed_up_once(start, recorded(steps));
}

proof fn waiting_requests_do_not_matter(progress: Progress, run: RunModel)
    requires
        progress.whole().wf(),
        run.same_run(progress.whole()),
    ensures
        progress.run.wf(),
        run.same_run(progress.run),
{
    assert forall|mint: Seq<char>| #[trigger]
        progress.run.attempt_counters.contains_key(
            mint,
        ) implies progress.run.attempt_counters[mint] <= progress.run.event_index by {
        assert(progress.whole().attempt_counters.contains_key(mint));
    }
    assert forall|mint: Seq<char>| #[trigger]
        progress.run.sessions.contains_key(mint) implies progress.run.owns_session(
        mint,
        progress.run.sessions[mint],
    ) by {
        assert(progress.whole().owns_session(mint, progress.whole().sessions[mint]));
    }
}

/// Whenever its requests are handed out, a run that the counter can number stays consistent and
/// keeps its identity.
pub proof fn steps_keep_consistency(run: RunModel, steps: Seq<Step>)
    requires
        run.wf(),
        run.event_index + recorded(steps).len() <= usize::MAX,
    ensures
        run.after_steps(steps).run.wf(),
        run.same_run(run.after_steps(steps).run),
{
    handing_out_changes_nothing_else(run, steps);
    crate::laws::history_keeps_consistency(run, recorded(steps));
    waiting_requests_do_not_matter(run.after_steps(steps), run);
}

} // verus!
