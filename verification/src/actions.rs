//! What a run asks its surroundings to do.

use crate::json::{Json, JsonModel};
use crate::paths::{PathModel, RuntimePath};
use vstd::prelude::*;

verus! {

/// A request to the file system; a failure of any of them is not reported back.
#[derive(Debug)]
pub enum Action {
    /// Create a directory and its parents.
    EnsureDir(RuntimePath),
    /// Replace a file by the document, indented and followed by a line feed; the parent directory
    /// is created first.
    WriteDocument { path: RuntimePath, document: Json },
    /// Append the document to a file, on one line; the parent directory is created first.
    AppendLine { path: RuntimePath, line: Json },
}

/// A request to the file system as a mathematical value.
#[verifier::ext_equal]
pub enum ActionModel {
    EnsureDir(PathModel),
    WriteDocument { path: PathModel, document: JsonModel },
    AppendLine { path: PathModel, line: JsonModel },
}

impl Action {
    /// The request as a mathematical value.
    pub open spec fn model(self) -> ActionModel {
        match self {
            Action::EnsureDir(path) => ActionModel::EnsureDir(path.model()),
            Action::WriteDocument { path, document } => ActionModel::WriteDocument {
                path: path.model(),
                document: document.model(),
            },
            Action::AppendLine { path, line } => ActionModel::AppendLine {
                path: path.model(),
                line: line.model(),
            },
        }
    }
}

/// The models of a list of requests.
pub open spec fn actions_view(actions: Seq<Action>) -> Seq<ActionModel> {
    actions.map_values(|a: Action| a.model())
}

/// A request stands for what it asks: which directory to create, or which document to write or to
/// append under which path; a list of requests stands for each, in their order.
pub proof fn requests_stand_for_what_they_ask(
    path: RuntimePath,
    document: Json,
    actions: Seq<Action>,
    i: int,
)
    ensures
        Action::EnsureDir(path).model() == ActionModel::EnsureDir(path.model()),
        (Action::WriteDocument { path, document }).model() is WriteDocument,
        (Action::WriteDocument { path, document }).model()->WriteDocument_path == path.model(),
        (Action::WriteDocument { path, document }).model()->document == document.model(),
        (Action::AppendLine { path, line: document }).model() is AppendLine,
        (Action::AppendLine { path, line: document }).model()->AppendLine_path == path.model(),
        (Action::AppendLine { path, line: document }).model()->line == document.model(),
        actions_view(actions).len() == actions.len(),
        0 <= i < actions.len() ==> actions_view(actions)[i] == actions[i].model(),
{
}

} // verus!
