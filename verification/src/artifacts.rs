//! How the files that a run leaves behind agree with what it knows.

use crate::actions::ActionModel;
use crate::history::Operation;
use crate::paths::PathModel;
use crate::run::RunModel;
use vstd::prelude::*;

verus! {

impl Operation {
    /// The status that the state document has after the operation.
    pub open spec fn status(self) -> Seq<char> {
        match self {
            Operation::ConfigExported { .. } => "config_exported"@,
            Operation::SnapshotExported { .. } => "candidate_snapshot_exported"@,
            Operation::PositionClosed { .. } => "session_closed"@,
            Operation::WoundUp { .. } => "completed"@,
            _ => "running"@,
        }
    }
}

/// Whatever an operation asks for, it asks last for the state document, as it then is.
pub proof fn state_is_written_last(run: RunModel, operation: Operation)
    ensures
        ({
            let next = run.after(operation);
            next.outbox != run.outbox ==> next.outbox.len() > run.outbox.len()
                && next.outbox.last() == ActionModel::WriteDocument {
                path: run.state_path,
                document: next.state_document(operation.status()),
            }
        }),
{
    match operation {
        Operation::ConfigExported { .. } => {},
        Operation::SnapshotExported { .. } => {},
        Operation::CandidateEmitted { .. } => {},
        Operation::MintObserved { .. } => {},
        Operation::CandidateRejected { .. } => {},
        Operation::EntrySignalled { .. } => {},
        Operation::EntryAttempted { .. } => {},
        Operation::EntryRejected { .. } => {},
        Operation::EntryFilled { .. } => {},
        Operation::SessionUpdated { .. } => {},
        Operation::ExitSignalled { .. } => {},
        Operation::ExitFilled { .. } => {},
        Operation::PositionClosed { .. } => {},
        Operation::WoundUp { .. } => {},
    }
}

/// Whether a document was asked to be written under a path.
pub open spec fn written(outbox: Seq<ActionModel>, path: PathModel) -> bool {
    exists|i: int|
        0 <= i < outbox.len() && (#[trigger] outbox[i] matches ActionModel::WriteDocument {
            path: p,
            ..
        } && p == path)
}

/// Whether every export that a run lists was asked to be written.
pub open spec fn exports_are_written(run: RunModel) -> bool {
    &&& run.config_path matches Some(path) ==> written(run.outbox, path)
    &&& forall|i: int|
        0 <= i < run.candidate_snapshot_paths.len() ==> written(
            run.outbox,
            #[trigger] run.candidate_snapshot_paths[i],
        )
    &&& forall|i: int|
        0 <= i < run.session_summary_paths.len() ==> written(
            run.outbox,
            #[trigger] run.session_summary_paths[i],
        )
}

proof fn written_stays(earlier: Seq<ActionModel>, later: Seq<ActionModel>, path: PathModel)
    requires
        written(earlier, path),
        crate::laws::extends(earlier, later),
    ensures
        written(later, path),
{
    let i = choose|i: int|
        0 <= i < earlier.len() && (#[trigger] earlier[i] matches ActionModel::WriteDocument {
            path: p,
            ..
        } && p == path);
    assert(later[i] == earlier[i]);
}

/// Whatever is recorded, every export that a run lists was asked to be written.
pub proof fn operation_writes_its_exports(run: RunModel, operation: Operation)
    requires
        exports_are_written(run),
    ensures
        exports_are_written(run.after(operation)),
{
    let next = run.after(operation);
    crate::laws::operation_only_appends(run, operation);
    assert forall|path: PathModel| written(run.outbox, path) implies #[trigger] written(
        next.outbox,
        path,
    ) by {
        written_stays(run.outbox, next.outbox, path);
    }
    match operation {
        Operation::ConfigExported { .. } => {
            assert(next.outbox[run.outbox.len() as int] is WriteDocument);
        },
        Operation::SnapshotExported { .. } => {
            assert(next.outbox[run.outbox.len() as int] is WriteDocument);
        },
        Operation::PositionClosed { .. } => {
            if next.outbox.len() > run.outbox.len() {
                assert(next.outbox[run.outbox.len() + 2int] is WriteDocument);
            }
        },
        _ => {},
    }
}

/// Over any history of a run, every export that it lists was asked to be written.
pub proof fn listed_exports_are_written(start: RunModel, operations: Seq<Operation>)
    requires
        start.just_begun(),
    ensures
        exports_are_written(start.after_all(operations)),
    decreases operations.len(),
{
    if operations.len() > 0 {
        let earlier = operations.drop_last();
        listed_exports_are_written(start, earlier);
        operation_writes_its_exports(start.after_all(earlier), operations.last());
    }
}

} // verus!
