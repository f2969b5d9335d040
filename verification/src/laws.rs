//! What a run promises, whatever is recorded in it and in whatever order.

use crate::actions::ActionModel;
use crate::clock::Timestamp;
use crate::double::Double;
use crate::history::Operation;
use crate::json::JsonModel;
use crate::run::{event_id_for, RunModel};
use crate::session::SessionModel;
use vstd::prelude::*;

verus! {

/// What identifies a run never changes.
pub proof fn operation_keeps_identity(run: RunModel, operation: Operation)
    ensures
        run.same_run(run.after(operation)),
{
}

/// Counting an event keeps the sum of all counts in step with the number of events.
proof fn counting_one_more(run: RunModel)
    requires
        run.event_counts.dom().finite(),
        crate::counts::total_of(run.event_counts) == run.event_index,
    ensures
        forall|event_type: Seq<char>|
            #![
                trigger run.event_counts.insert(
                    event_type,
                    crate::counts::count_of(run.event_counts, event_type) + 1,
                ),
            ]
            {
                let counts = run.event_counts.insert(
                    event_type,
                    crate::counts::count_of(run.event_counts, event_type) + 1,
                );
                counts.dom().finite() && crate::counts::total_of(counts) == run.event_index + 1
            },
{
    assert forall|event_type: Seq<char>|
        #![
            trigger run.event_counts.insert(
                event_type,
                crate::counts::count_of(run.event_counts, event_type) + 1,
            ),
        ]
        {
            let counts = run.event_counts.insert(
                event_type,
                crate::counts::count_of(run.event_counts, event_type) + 1,
            );
            counts.dom().finite() && crate::counts::total_of(counts) == run.event_index + 1
        } by {
        crate::counts::total_after_insert(
            run.event_counts,
            event_type,
            crate::counts::count_of(run.event_counts, event_type) + 1,
        );
    }
}

/// A run stays consistent, and an operation counts at most one event.
pub proof fn operation_keeps_consistency(run: RunModel, operation: Operation)
    requires
        run.wf(),
        run.has_room(),
    ensures
        run.after(operation).wf(),
        run.event_index <= run.after(operation).event_index <= run.event_index + 1,
{
    counting_one_more(run);
    match operation {
        Operation::ConfigExported { .. } => {},
        Operation::SnapshotExported { .. } => {},
        Operation::CandidateEmitted { .. } => {},
        Operation::MintObserved { .. } => {},
        Operation::CandidateRejected { .. } => {},
        Operation::EntrySignalled { .. } => {},
        Operation::EntryAttempted { .. } => {},
        Operation::EntryRejected { .. } => {},
        Operation::EntryFilled { .. } => {},
        Operation::SessionUpdated { .. } => {},
        Operation::ExitSignalled { .. } => {},
        Operation::ExitFilled { .. } => {},
        Operation::PositionClosed { .. } => {},
        Operation::WoundUp { .. } => {},
    }
}

/// What was once asked of the file system is neither withdrawn nor reordered.
pub proof fn operation_only_appends(run: RunModel, operation: Operation)
    ensures
        extends(run.outbox, run.after(operation).outbox),
        extends(run.candidate_snapshot_paths, run.after(operation).candidate_snapshot_paths),
        extends(run.session_summary_paths, run.after(operation).session_summary_paths),
{
    match operation {
        Operation::ConfigExported { .. } => {},
        Operation::SnapshotExported { .. } => {},
        Operation::CandidateEmitted { .. } => {},
        Operation::MintObserved { .. } => {},
        Operation::CandidateRejected { .. } => {},
        Operation::EntrySignalled { .. } => {},
        Operation::EntryAttempted { .. } => {},
        Operation::EntryRejected { .. } => {},
        Operation::EntryFilled { .. } => {},
        Operation::SessionUpdated { .. } => {},
        Operation::ExitSignalled { .. } => {},
        Operation::ExitFilled { .. } => {},
        Operation::PositionClosed { .. } => {},
        Operation::WoundUp { .. } => {},
    }
}

/// Whether a list begins with another one.
pub open spec fn extends<T>(earlier: Seq<T>, later: Seq<T>) -> bool {
    &&& earlier.len() <= later.len()
    &&& forall|i: int| 0 <= i < earlier.len() ==> #[trigger] later[i] == earlier[i]
}

/// A field of an object.
pub open spec fn field(document: JsonModel, key: Seq<char>) -> JsonModel {
    match document {
        JsonModel::Object(fields) => fields[key],
        _ => JsonModel::Null,
    }
}

/// Every event carries the run, its own number, its type, its time and its payload, and the
/// session, mint and creator that it is about.
pub proof fn event_is_attributed(
    run: RunModel,
    event_type: Seq<char>,
    payload: JsonModel,
    session_id: Option<Seq<char>>,
    mint: Option<Seq<char>>,
    creator: Option<Seq<char>>,
    ts: Timestamp,
)
    ensures
        ({
            let event = run.event_document(event_type, payload, session_id, mint, creator, ts);
            &&& field(event, "run_id"@) == JsonModel::Str(run.run_id)
            &&& field(event, "event_id"@) == JsonModel::Str(
                event_id_for(run.run_id, run.event_index),
            )
            &&& field(event, "event_type"@) == JsonModel::Str(event_type)
            &&& field(event, "ts_utc"@) == JsonModel::Str(ts.iso())
            &&& field(event, "payload"@) == payload
            &&& session_id matches Some(id) ==> field(event, "session_id"@) == JsonModel::Str(id)
            &&& mint matches Some(m) ==> field(event, "mint"@) == JsonModel::Str(m)
            &&& creator matches Some(c) ==> field(event, "creator"@) == JsonModel::Str(c)
        }),
{
    reveal_strlit("run_id");
    reveal_strlit("event_id");
    reveal_strlit("event_type");
    reveal_strlit("ts_utc");
    reveal_strlit("source_system");
    reveal_strlit("source_commit");
    reveal_strlit("mode");
    reveal_strlit("transport_mode");
    reveal_strlit("payload");
    reveal_strlit("session_id");
    reveal_strlit("mint");
    reveal_strlit("creator");
    assert("run_id"@.len() == 6);
    assert("event_id"@.len() == 8);
    assert("event_type"@.len() == 10);
    assert("ts_utc"@.len() == 6);
    assert("source_system"@.len() == 13);
    assert("source_commit"@.len() == 13);
    assert("mode"@.len() == 4);
    assert("transport_mode"@.len() == 14);
    assert("payload"@.len() == 7);
    assert("session_id"@.len() == 10);
    assert("mint"@.len() == 4);
    assert("creator"@.len() == 7);
    assert("run_id"@[0] == 'r' && "ts_utc"@[0] == 't');
    assert("mode"@[1] == 'o' && "mint"@[1] == 'i');
    assert("event_type"@[0] == 'e' && "session_id"@[0] == 's');
    assert("payload"@[0] == 'p' && "creator"@[0] == 'c');
}

/// The events among a list of requests, in order.
pub open spec fn logged(outbox: Seq<ActionModel>) -> Seq<JsonModel>
    decreases outbox.len(),
{
    if outbox.len() == 0 {
        Seq::empty()
    } else {
        match outbox.last() {
            ActionModel::AppendLine { line, .. } => logged(outbox.drop_last()).push(line),
            _ => logged(outbox.drop_last()),
        }
    }
}

proof fn logged_push(outbox: Seq<ActionModel>, action: ActionModel)
    ensures
        logged(outbox.push(action)) == match action {
            ActionModel::AppendLine { line, .. } => logged(outbox).push(line),
            _ => logged(outbox),
        },
{
    assert(outbox.push(action).drop_last() =~= outbox);
}

/// An emitted event is logged under the next number, and nothing else is logged with it.
pub proof fn emission_is_logged(
    run: RunModel,
    event_type: Seq<char>,
    payload: JsonModel,
    session_id: Option<Seq<char>>,
    mint: Option<Seq<char>>,
    creator: Option<Seq<char>>,
    ts: Timestamp,
)
    ensures
        ({
            let next = run.emitted(event_type, payload, session_id, mint, creator, ts);
            &&& logged(next.outbox) == logged(run.outbox).push(
                run.counted(event_type).event_document(
                    event_type,
                    payload,
                    session_id,
                    mint,
                    creator,
                    ts,
                ),
            )
            &&& next.event_index == run.event_index + 1
        }),
{
    let counted = run.counted(event_type);
    let line = ActionModel::AppendLine {
        path: run.event_path,
        line: counted.event_document(event_type, payload, session_id, mint, creator, ts),
    };
    logged_push(run.outbox, line);
    let logged_run = counted.asked(line);
    logged_push(
        logged_run.outbox,
        ActionModel::WriteDocument {
            path: logged_run.state_path,
            document: logged_run.state_document("running"@),
        },
    );
}

/// Whether the log of a run has grown by events that are numbered on without a gap.
pub open spec fn log_continues(run: RunModel, next: RunModel) -> bool {
    let before = logged(run.outbox);
    let after = logged(next.outbox);
    &&& extends(before, after)
    &&& next.run_id == run.run_id
    &&& after.len() - before.len() == next.event_index - run.event_index
    &&& forall|i: int|
        before.len() <= i < after.len() ==> field(#[trigger] after[i], "event_id"@)
            == JsonModel::Str(
            event_id_for(run.run_id, (run.event_index + 1 + i - before.len()) as nat),
        )
}

proof fn emission_continues(
    run: RunModel,
    event_type: Seq<char>,
    payload: JsonModel,
    session_id: Option<Seq<char>>,
    mint: Option<Seq<char>>,
    creator: Option<Seq<char>>,
    ts: Timestamp,
)
    ensures
        log_continues(run, run.emitted(event_type, payload, session_id, mint, creator, ts)),
{
    emission_is_logged(run, event_type, payload, session_id, mint, creator, ts);
    event_is_attributed(
        run.counted(event_type),
        event_type,
        payload,
        session_id,
        mint,
        creator,
        ts,
    );
}

pub(crate) proof fn quiet_request_logs_nothing(
    run: RunModel,
    path: crate::paths::PathModel,
    document: JsonModel,
)
    ensures
        logged(run.wrote(path, document).outbox) == logged(run.outbox),
{
    logged_push(run.outbox, ActionModel::WriteDocument { path, document });
}

/// Whatever is recorded, the event log continues without a gap.
pub proof fn operation_continues_log(run: RunModel, operation: Operation)
    ensures
        log_continues(run, run.after(operation)),
{
    assert forall|
        r: RunModel,
        event_type: Seq<char>,
        payload: JsonModel,
        session_id: Option<Seq<char>>,
        mint: Option<Seq<char>>,
        creator: Option<Seq<char>>,
        ts: Timestamp,
    |
        log_continues(
            r,
            #[trigger] r.emitted(event_type, payload, session_id, mint, creator, ts),
        ) by {
        emission_continues(r, event_type, payload, session_id, mint, creator, ts);
    }
    assert forall|r: RunModel, path: crate::paths::PathModel, document: JsonModel| #[trigger]
        logged(
            r.asked(ActionModel::WriteDocument { path, document }).outbox,
        ) == logged(r.outbox) by {
        quiet_request_logs_nothing(r, path, document);
    }
    match operation {
        Operation::ConfigExported { .. } => {},
        Operation::SnapshotExported { .. } => {},
        Operation::CandidateEmitted { .. } => {},
        Operation::MintObserved { .. } => {},
        Operation::CandidateRejected { .. } => {},
        Operation::EntrySignalled { .. } => {},
        Operation::EntryAttempted { .. } => {},
        Operation::EntryRejected { .. } => {},
        Operation::EntryFilled { .. } => {},
        Operation::SessionUpdated { .. } => {},
        Operation::ExitSignalled { .. } => {},
        Operation::ExitFilled { .. } => {},
        Operation::PositionClosed { .. } => {},
        Operation::WoundUp { .. } => {},
    }
}

/// What continues a continuation of a log continues the log.
pub proof fn log_continuation_is_transitive(run: RunModel, middle: RunModel, next: RunModel)
    requires
        log_continues(run, middle),
        log_continues(middle, next),
    ensures
        log_continues(run, next),
{
    let before = logged(run.outbox);
    let between = logged(middle.outbox);
    let after = logged(next.outbox);
    assert forall|i: int| before.len() <= i < after.len() implies field(
        #[trigger] after[i],
        "event_id"@,
    ) == JsonModel::Str(
        event_id_for(run.run_id, (run.event_index + 1 + i - before.len()) as nat),
    ) by {
        if i < between.len() {
            assert(after[i] == between[i]);
        }
    }
    assert forall|i: int| 0 <= i < before.len() implies #[trigger] after[i] == before[i] by {
        assert(after[i] == between[i]);
    }
}

/// Over any history the event log continues without a gap.
pub proof fn history_continues_log(run: RunModel, operations: Seq<Operation>)
    ensures
        log_continues(run, run.after_all(operations)),
    decreases operations.len(),
{
    if operations.len() > 0 {
        let middle = run.after_all(operations.drop_last());
        history_continues_log(run, operations.drop_last());
        operation_continues_log(middle, operations.last());
        log_continuation_is_transitive(run, middle, run.after_all(operations));
    }
}

/// Over any history the counts of all event types add up to the number of events.
pub proof fn counts_add_up(start: RunModel, operations: Seq<Operation>)
    requires
        start.just_begun(),
    ensures
        start.after_all(operations).event_counts.dom().finite(),
        crate::counts::total_of(start.after_all(operations).event_counts) == start.after_all(
            operations,
        ).event_index,
    decreases operations.len(),
{
    if operations.len() > 0 {
        let run = start.after_all(operations.drop_last());
        counts_add_up(start, operations.drop_last());
        counting_one_more(run);
        match operations.last() {
            Operation::ConfigExported { .. } => {},
            Operation::SnapshotExported { .. } => {},
            Operation::CandidateEmitted { .. } => {},
            Operation::MintObserved { .. } => {},
            Operation::CandidateRejected { .. } => {},
            Operation::EntrySignalled { .. } => {},
            Operation::EntryAttempted { .. } => {},
            Operation::EntryRejected { .. } => {},
            Operation::EntryFilled { .. } => {},
            Operation::SessionUpdated { .. } => {},
            Operation::ExitSignalled { .. } => {},
            Operation::ExitFilled { .. } => {},
            Operation::PositionClosed { .. } => {},
            Operation::WoundUp { .. } => {},
        }
    }
}

/// Over any history that the counter can number, a run stays consistent, keeps its identity and
/// withdraws nothing.
pub proof fn history_keeps_consistency(run: RunModel, operations: Seq<Operation>)
    requires
        run.wf(),
        run.event_index + operations.len() <= usize::MAX,
    ensures
        run.after_all(operations).wf(),
        run.same_run(run.after_all(operations)),
        run.event_index <= run.after_all(operations).event_index <= run.event_index
            + operations.len(),
        extends(run.outbox, run.after_all(operations).outbox),
    decreases operations.len(),
{
    if operations.len() > 0 {
        let middle = run.after_all(operations.drop_last());
        history_keeps_consistency(run, operations.drop_last());
        operation_keeps_consistency(middle, operations.last());
        operation_keeps_identity(middle, operations.last());
        operation_only_appends(middle, operations.last());
        assert forall|i: int| 0 <= i < run.outbox.len() implies #[trigger] run.after_all(
            operations,
        ).outbox[i] == run.outbox[i] by {
            assert(middle.outbox[i] == run.outbox[i]);
        }
    }
}

/// The log of a run numbers its events from one, without a gap.
pub proof fn log_is_numbered_from_one(start: RunModel, operations: Seq<Operation>)
    requires
        start.just_begun(),
    ensures
        ({
            let run = start.after_all(operations);
            let log = logged(run.outbox);
            &&& log.len() == run.event_index
            &&& forall|i: int|
                0 <= i < log.len() ==> field(#[trigger] log[i], "event_id"@) == JsonModel::Str(
                    event_id_for(start.run_id, (i + 1) as nat),
                )
        }),
{
    nothing_is_logged_yet(start);
    history_continues_log(start, operations);
}

/// A run that has just begun has logged nothing.
pub proof fn nothing_is_logged_yet(start: RunModel)
    requires
        start.just_begun(),
    ensures
        logged(start.outbox) == Seq::<JsonModel>::empty(),
        start.event_index == 0,
{
    let dirs = start.layout.directories().map_values(
        |p: crate::paths::PathModel| ActionModel::EnsureDir(p),
    );
    directories_log_nothing(dirs);
    assert(start.outbox.drop_last() =~= dirs);
    assert(logged(start.outbox) =~= Seq::empty());
}

proof fn directories_log_nothing(actions: Seq<ActionModel>)
    requires
        forall|i: int| 0 <= i < actions.len() ==> #[trigger] actions[i] is EnsureDir,
    ensures
        logged(actions).len() == 0,
    decreases actions.len(),
{
    if actions.len() > 0 {
        directories_log_nothing(actions.drop_last());
    }
}

/// No two events of a run share an identifier.
pub proof fn event_ids_are_unique(run_id: Seq<char>, a: nat, b: nat)
    requires
        event_id_for(run_id, a) == event_id_for(run_id, b),
    ensures
        a == b,
{
    let prefix = run_id + "-"@;
    let pa = crate::text::zero_padded(a, 6);
    let pb = crate::text::zero_padded(b, 6);
    assert(pa =~= event_id_for(run_id, a).skip(prefix.len() as int));
    assert(pb =~= event_id_for(run_id, b).skip(prefix.len() as int));
    crate::text::zero_padded_is_injective(a, b, 6);
}

/// No two mints share a session.
pub proof fn session_ids_are_unique(a: Seq<char>, b: Seq<char>, started_at: Timestamp)
    requires
        crate::session::session_id_for(a, started_at) == crate::session::session_id_for(
            b,
            started_at,
        ),
    ensures
        a == b,
{
    let suffix = "-"@ + crate::text::signed_decimal(started_at.epoch_millis());
    let id = crate::session::session_id_for(a, started_at);
    assert(id =~= a + suffix);
    assert(crate::session::session_id_for(b, started_at) =~= b + suffix);
    assert(a =~= id.take(id.len() - suffix.len()));
    assert(b =~= id.take(id.len() - suffix.len()));
}

/// An operation on one mint touches no other mint's session or attempts; one that is about no mint
/// touches none.
pub proof fn operation_touches_one_mint(run: RunModel, operation: Operation, other: Seq<char>)
    requires
        operation.mint() != Some(other),
    ensures
        run.after(operation).sessions.contains_key(other) == run.sessions.contains_key(other),
        run.sessions.contains_key(other) ==> run.after(operation).sessions[other]
            == run.sessions[other],
        run.after(operation).next_attempt(other) == run.next_attempt(other),
{
    match operation {
        Operation::ConfigExported { .. } => {},
        Operation::SnapshotExported { .. } => {},
        Operation::CandidateEmitted { .. } => {},
        Operation::MintObserved { .. } => {},
        Operation::CandidateRejected { .. } => {},
        Operation::EntrySignalled { .. } => {},
        Operation::EntryAttempted { .. } => {},
        Operation::EntryRejected { .. } => {},
        Operation::EntryFilled { .. } => {},
        Operation::SessionUpdated { .. } => {},
        Operation::ExitSignalled { .. } => {},
        Operation::ExitFilled { .. } => {},
        Operation::PositionClosed { .. } => {},
        Operation::WoundUp { .. } => {},
    }
}

/// Whether a session has only moved on: what is noted once stays as it was noted.
pub open spec fn moved_on(earlier: SessionModel, later: SessionModel) -> bool {
    &&& later.session_id == earlier.session_id
    &&& later.mint == earlier.mint
    &&& earlier.observed_at is Some ==> {
        &&& later.observed_at == earlier.observed_at
        &&& later.observed_open_price == earlier.observed_open_price
    }
    &&& earlier.signal_at is Some ==> {
        &&& later.signal_at == earlier.signal_at
        &&& later.signal_price == earlier.signal_price
        &&& later.signal_slot == earlier.signal_slot
    }
    &&& earlier.exit_signal_at is Some ==> {
        &&& later.exit_signal_at == earlier.exit_signal_at
        &&& later.exit_signal_price == earlier.exit_signal_price
        &&& later.exit_reason == earlier.exit_reason
    }
    &&& earlier.creator is Some ==> later.creator is Some
    &&& earlier.market is Some ==> later.market is Some
    &&& earlier.candidate_source is Some ==> later.candidate_source is Some
    &&& earlier.pool_id is Some ==> later.pool_id is Some
    &&& earlier.entry_fill_at is Some ==> later.entry_fill_at is Some
    &&& earlier.exit_fill_at is Some ==> later.exit_fill_at is Some
    &&& earlier.closed ==> later.closed
}

/// No session is ever lost, and none falls back.
pub proof fn operation_moves_sessions_on(run: RunModel, operation: Operation, mint: Seq<char>)
    requires
        run.sessions.contains_key(mint),
    ensures
        run.after(operation).sessions.contains_key(mint),
        moved_on(run.sessions[mint], run.after(operation).sessions[mint]),
{
    match operation {
        Operation::ConfigExported { .. } => {},
        Operation::SnapshotExported { .. } => {},
        Operation::CandidateEmitted { .. } => {},
        Operation::MintObserved { .. } => {},
        Operation::CandidateRejected { .. } => {},
        Operation::EntrySignalled { .. } => {},
        Operation::EntryAttempted { .. } => {},
        Operation::EntryRejected { .. } => {},
        Operation::EntryFilled { .. } => {},
        Operation::SessionUpdated { .. } => {},
        Operation::ExitSignalled { .. } => {},
        Operation::ExitFilled { .. } => {},
        Operation::PositionClosed { .. } => {},
        Operation::WoundUp { .. } => {},
    }
}

/// What has moved on from where a session had moved on to has moved on.
pub proof fn moving_on_is_transitive(a: SessionModel, b: SessionModel, c: SessionModel)
    requires
        moved_on(a, b),
        moved_on(b, c),
    ensures
        moved_on(a, c),
{
}

/// Over any history no session is lost, and none falls back.
pub proof fn history_moves_sessions_on(
    run: RunModel,
    operations: Seq<Operation>,
    mint: Seq<char>,
)
    requires
        run.sessions.contains_key(mint),
    ensures
        run.after_all(operations).sessions.contains_key(mint),
        moved_on(run.sessions[mint], run.after_all(operations).sessions[mint]),
    decreases operations.len(),
{
    if operations.len() > 0 {
        let middle = run.after_all(operations.drop_last());
        history_moves_sessions_on(run, operations.drop_last(), mint);
        operation_moves_sessions_on(middle, operations.last(), mint);
        moving_on_is_transitive(
            run.sessions[mint],
            middle.sessions[mint],
            run.after_all(operations).sessions[mint],
        );
    }
}

/// A run that was wound up stays so, with the end it had; what makes it replayable is not undone.
pub proof fn operation_keeps_outcome(run: RunModel, operation: Operation)
    ensures
        run.finalized ==> run.after(operation).finalized && run.after(operation).ended_at
            == run.ended_at,
        run.config_path is Some ==> run.after(operation).config_path is Some,
        run.candidate_snapshot_paths.len() <= run.after(
            operation,
        ).candidate_snapshot_paths.len(),
{
    match operation {
        Operation::ConfigExported { .. } => {},
        Operation::SnapshotExported { .. } => {},
        Operation::CandidateEmitted { .. } => {},
        Operation::MintObserved { .. } => {},
        Operation::CandidateRejected { .. } => {},
        Operation::EntrySignalled { .. } => {},
        Operation::EntryAttempted { .. } => {},
        Operation::EntryRejected { .. } => {},
        Operation::EntryFilled { .. } => {},
        Operation::SessionUpdated { .. } => {},
        Operation::ExitSignalled { .. } => {},
        Operation::ExitFilled { .. } => {},
        Operation::PositionClosed { .. } => {},
        Operation::WoundUp { .. } => {},
    }
}

/// A mint that was observed before is not reported again.
pub proof fn observation_once(run: RunModel, operation: Operation, mint: Seq<char>)
    requires
        operation is MintObserved,
        operation.mint() == Some(mint),
        run.sessions.contains_key(mint),
        run.sessions[mint].observed_at is Some,
    ensures
        run.after(operation).event_index == run.event_index,
        run.after(operation).event_counts == run.event_counts,
        run.after(operation).outbox == run.outbox,
{
}

/// The first sighting of a mint is reported and noted.
pub proof fn observation_first(run: RunModel, operation: Operation, mint: Seq<char>)
    requires
        operation is MintObserved,
        operation.mint() == Some(mint),
        run.sessions.contains_key(mint) ==> !(run.sessions[mint].observed_at is Some),
    ensures
        run.after(operation).event_index == run.event_index + 1,
        crate::counts::count_of(run.after(operation).event_counts, "mint_observed"@)
            == crate::counts::count_of(run.event_counts, "mint_observed"@) + 1,
        run.after(operation).sessions.contains_key(mint),
        run.after(operation).sessions[mint].observed_at is Some,
{
}

/// A session whose entry was signalled before signals no other one.
pub proof fn entry_signal_once(run: RunModel, operation: Operation, mint: Seq<char>)
    requires
        operation is EntrySignalled,
        operation.mint() == Some(mint),
        run.sessions.contains_key(mint),
        run.sessions[mint].signal_at is Some,
    ensures
        run.after(operation).event_index == run.event_index,
        run.after(operation).event_counts == run.event_counts,
        run.after(operation).outbox == run.outbox,
{
}

/// The first entry signal of a session is reported and noted.
pub proof fn entry_signal_first(run: RunModel, operation: Operation, mint: Seq<char>)
    requires
        operation is EntrySignalled,
        operation.mint() == Some(mint),
        run.sessions.contains_key(mint) ==> !(run.sessions[mint].signal_at is Some),
    ensures
        run.after(operation).event_index == run.event_index + 1,
        crate::counts::count_of(run.after(operation).event_counts, "entry_signal"@)
            == crate::counts::count_of(run.event_counts, "entry_signal"@) + 1,
        run.after(operation).sessions.contains_key(mint),
        run.after(operation).sessions[mint].signal_at is Some,
{
}

/// A session whose exit was signalled before signals no other one.
pub proof fn exit_signal_once(run: RunModel, operation: Operation, mint: Seq<char>)
    requires
        operation is ExitSignalled,
        operation.mint() == Some(mint),
        run.sessions.contains_key(mint),
        run.sessions[mint].exit_signal_at is Some,
    ensures
        run.after(operation).event_index == run.event_index,
        run.after(operation).event_counts == run.event_counts,
        run.after(operation).outbox == run.outbox,
{
}

/// The first exit signal of a session is reported and noted.
pub proof fn exit_signal_first(run: RunModel, operation: Operation, mint: Seq<char>)
    requires
        operation is ExitSignalled,
        operation.mint() == Some(mint),
        run.sessions.contains_key(mint) ==> !(run.sessions[mint].exit_signal_at is Some),
    ensures
        run.after(operation).event_index == run.event_index + 1,
        crate::counts::count_of(run.after(operation).event_counts, "exit_signal"@)
            == crate::counts::count_of(run.event_counts, "exit_signal"@) + 1,
        run.after(operation).sessions.contains_key(mint),
        run.after(operation).sessions[mint].exit_signal_at is Some,
{
}

/// A closed position is not closed again.
pub proof fn closing_once(run: RunModel, operation: Operation, mint: Seq<char>)
    requires
        operation is PositionClosed,
        operation.mint() == Some(mint),
        run.sessions.contains_key(mint),
        run.sessions[mint].closed,
    ensures
        run.after(operation).event_index == run.event_index,
        run.after(operation).event_counts == run.event_counts,
        run.after(operation).outbox == run.outbox,
{
}

/// The first closing of a position is reported and noted.
pub proof fn closing_first(run: RunModel, operation: Operation, mint: Seq<char>)
    requires
        operation is PositionClosed,
        operation.mint() == Some(mint),
        run.sessions.contains_key(mint) ==> !(run.sessions[mint].closed),
    ensures
        run.after(operation).event_index == run.event_index + 1,
        crate::counts::count_of(run.after(operation).event_counts, "position_closed"@)
            == crate::counts::count_of(run.event_counts, "position_closed"@) + 1,
        run.after(operation).sessions.contains_key(mint),
        run.after(operation).sessions[mint].closed,
{
}

/// Winding up twice is winding up once.
pub proof fn winding_up_is_idempotent(run: RunModel, first: Timestamp, second: Timestamp)
    ensures
        run.wound_up(first).wound_up(second) == run.wound_up(first),
        run.wound_up(first).finalized,
{
}

/// The last event of a run that is being wound up is its summary, which counts every event that
/// was logged, itself included, and calls the run replayable exactly if both its configuration and
/// a candidate snapshot were exported.
pub proof fn summary_comes_last(run: RunModel, now: Timestamp)
    requires
        run.wf(),
        !run.finalized,
    ensures
        ({
            let next = run.wound_up(now);
            let log = logged(next.outbox);
            let payload = field(log.last(), "payload"@);
            &&& log.len() == logged(run.outbox).len() + 1
            &&& field(log.last(), "event_type"@) == JsonModel::Str("run_summary"@)
            &&& field(payload, "event_count"@) == JsonModel::Int(next.event_index as int)
            &&& field(payload, "replayable"@) == JsonModel::Bool(
                run.config_path is Some && run.candidate_snapshot_paths.len() > 0,
            )
            &&& next.ended_at == Some(now)
        }),
{
    let closing = RunModel { finalized: true, ended_at: Some(now), ..run };
    let payload = run.summary_payload();
    let emitted = closing.emitted("run_summary"@, payload, None, None, None, now);
    emission_is_logged(closing, "run_summary"@, payload, None, None, None, now);
    event_is_attributed(
        closing.counted("run_summary"@),
        "run_summary"@,
        payload,
        None,
        None,
        None,
        now,
    );
    quiet_request_logs_nothing(emitted, emitted.state_path, emitted.state_document("completed"@));
    reveal_strlit("event_count");
    reveal_strlit("replayable");
    assert("event_count"@.len() == 11 && "replayable"@.len() == 10);
}

/// The attempts for a mint are numbered one after the other, from one.
pub proof fn attempts_are_numbered(run: RunModel, operation: Operation, mint: Seq<char>)
    requires
        run.wf(),
        run.has_room(),
        operation is EntryAttempted,
        operation.mint() == Some(mint),
    ensures
        !run.attempt_counters.contains_key(mint) ==> run.next_attempt(mint) == 1,
        run.after(operation).next_attempt(mint) == run.next_attempt(mint) + 1,
        run.after(operation).sessions[mint].attempts.contains_key(run.next_attempt(mint) as usize),
        run.after(operation).sessions[mint].attempts[run.next_attempt(mint) as usize].started_at
            == operation->EntryAttempted_started_at,
{
}

/// A fill is timed from the attempt that it names: what was noted of the attempt is what is read.
pub proof fn fill_is_timed_from_its_attempt(
    session: SessionModel,
    index: usize,
    started_at: Timestamp,
    now: Timestamp,
)
    ensures
        session.attempted(index, started_at).attempt_start(index, now) == started_at,
{
}

/// Whether the attempts of every session are numbered from one to the mint's counter.
pub open spec fn attempts_match_counters(run: RunModel) -> bool {
    &&& forall|mint: Seq<char>| #[trigger]
        run.attempt_counters.contains_key(mint) ==> run.sessions.contains_key(mint)
    &&& forall|mint: Seq<char>, index: usize|
        run.sessions.contains_key(mint) ==> (
        #[trigger] run.sessions[mint].attempts.contains_key(index) <==> 1 <= index
            < run.next_attempt(mint))
}

/// Whatever is recorded, the attempts that a session remembers are exactly those that were
/// counted.
pub proof fn operation_keeps_attempts(run: RunModel, operation: Operation)
    requires
        run.wf(),
        run.has_room(),
        attempts_match_counters(run),
    ensures
        attempts_match_counters(run.after(operation)),
{
    match operation {
        Operation::ConfigExported { .. } => {},
        Operation::SnapshotExported { .. } => {},
        Operation::CandidateEmitted { .. } => {},
        Operation::MintObserved { .. } => {},
        Operation::CandidateRejected { .. } => {},
        Operation::EntrySignalled { .. } => {},
        Operation::EntryAttempted { .. } => {},
        Operation::EntryRejected { .. } => {},
        Operation::EntryFilled { .. } => {},
        Operation::SessionUpdated { .. } => {},
        Operation::ExitSignalled { .. } => {},
        Operation::ExitFilled { .. } => {},
        Operation::PositionClosed { .. } => {},
        Operation::WoundUp { .. } => {},
    }
}

/// A run that has just begun is consistent, and over any history that the counter can number the
/// attempts that a session remembers are exactly those that were counted.
pub proof fn attempts_are_those_counted(start: RunModel, operations: Seq<Operation>)
    requires
        start.just_begun(),
        operations.len() <= usize::MAX,
    ensures
        start.wf(),
        attempts_match_counters(start.after_all(operations)),
    decreases operations.len(),
{
    if operations.len() > 0 {
        let earlier = operations.drop_last();
        attempts_are_those_counted(start, earlier);
        history_keeps_consistency(start, earlier);
        operation_keeps_attempts(start.after_all(earlier), operations.last());
    }
}

/// A price tick never lowers the peak nor raises the low.
pub proof fn ticks_widen_the_range(
    session: SessionModel,
    now: Timestamp,
    price: Double,
    highest_price: Double,
)
    ensures
        session.peak_price matches Some(peak) ==> {
            &&& session.ticked(now, price, highest_price).peak_price matches Some(next)
            &&& next == peak || peak.at_most(next)
        },
        session.low_price matches Some(low) ==> {
            &&& session.ticked(now, price, highest_price).low_price matches Some(next)
            &&& next == low || next.at_most(low)
        },
{
}

/// After a tick with finite figures the range includes the price, unless it was begun by a fill at
/// a price that is not a number.
pub proof fn ticks_stay_in_range(
    session: SessionModel,
    now: Timestamp,
    price: Double,
    highest_price: Double,
)
    requires
        price.finite(),
        highest_price.finite(),
        session.peak_price matches Some(peak) ==> !peak.nan(),
        session.low_price matches Some(low) ==> !low.nan(),
    ensures
        session.ticked(now, price, highest_price).peak_price matches Some(peak) && price.at_most(
            peak,
        ) && highest_price.at_most(peak),
        session.ticked(now, price, highest_price).low_price matches Some(low) && low.at_most(price),
{
}

/// A sanitized number is finite, and sanitizing it again changes nothing.
pub proof fn sanitizing_yields_finite(value: Double)
    ensures
        value.sanitized().finite(),
        value.sanitized().sanitized() == value.sanitized(),
        value.finite() ==> value.sanitized() == value,
{
}

/// Nothing is gained or lost on an entry that is unknown or not above zero.
pub proof fn no_entry_no_change(entry: Option<Double>, value: Option<Double>)
    ensures
        entry is None ==> crate::double::percent_change(entry, value) is Zero,
        entry matches Some(e) && e.at_most(Double::zero()) ==> crate::double::percent_change(
            entry,
            value,
        ) is Zero,
{
}

/// A latency is never negative, and it is zero in one of the two directions.
pub proof fn latencies_are_not_negative(a: Timestamp, b: Timestamp)
    ensures
        crate::clock::latency(a, b) >= 0,
        crate::clock::latency(a, b) == 0 || crate::clock::latency(b, a) == 0,
        b.millis_after(a) == -a.millis_after(b),
{
}

} // verus!
