//! What an interrupted operation on whole files leaves once it is undone.

use vstd::prelude::*;

use crate::action::{ActionKindV1, DeclarativeActionV1, PathRole};
use crate::context::RuntimeContext;
use crate::execution::{changes_of, guard_verdict, guards_of};
use crate::execution_laws::{
    after_execution, guarded_role, guards_hold, is_interrupted, lemma_first_changes,
    starting_content,
};
use crate::execution_run::prepared_content;
use crate::journal::AppOperationJournalV1;
use crate::manifest::{lemma_source_index, owns, source_index, AppEntryView};
use crate::path::same_path;
use crate::plan::{DigestView, PLAN_APPROVAL_SCHEMA_VERSION, PlanActionV1, PlanApprovalV1, PlanV1};
use crate::receipts::{previous_receipt_matches, receipt_matches};
use crate::recovery::FileView;
use crate::recovery_apply::{rollback_of, RecoveryMutation};
use crate::recovery_laws::{
    after_change, after_changes, findings_of, is_whole_file, law_blocked_action_is_not_undone,
    lemma_changes_one, lemma_changes_three, lemma_changes_two,
};
use crate::recovery_machine::{
    gives, lemma_one_verdict, recovery_planner_of, RecoveryDemand, RecoveryPhase, RecoveryRunView,
};
use crate::recovery_plan::{observed_roles, recovery_decision};
use crate::recovery_planner::{
    action_conflicts, is_plan_of, is_receipt_committed, law_blocked_iff_some_step_is,
    law_plan_is_ready_iff_unblocked, planner_after, planner_start, PlannerView, RecoveryPlanError,
};
use crate::recovery_run::steps_of_all;

verus! {

/// Whether undoing an operation that stopped after its first `count` changes succeeds,
/// reports the action as undone, and leaves each path of the action with exactly what
/// it held before the operation.
pub open spec fn is_restored(
    kind: ActionKindV1,
    previous_receipt: bool,
    files: Map<PathRole, FileView>,
    content: Seq<u8>,
    mode: Option<u32>,
    count: nat,
) -> bool {
    let written = prepared_content(kind, content, starting_content(kind, files))->Ok_0;
    let after = after_execution(files, changes_of(kind), count, written, mode);
    let rollback = rollback_of(kind, false, false, previous_receipt, findings_of(kind, after));
    &&& rollback is Ok
    &&& rollback->Ok_0.undone
    &&& forall|role: PathRole| #[trigger]
        observed_roles(kind).contains(role) ==> after_changes(
            after,
            rollback->Ok_0.mutations,
        )[role] == files[role]
}

proof fn lemma_same_findings(
    kind: ActionKindV1,
    before: Map<PathRole, FileView>,
    after: Map<PathRole, FileView>,
)
    requires
        findings_of(kind, before) == findings_of(kind, after),
    ensures
        forall|role: PathRole| #[trigger]
            observed_roles(kind).contains(role) ==> before[role] == after[role],
{
    let roles = observed_roles(kind);
    assert forall|role: PathRole| #[trigger] roles.contains(role) implies before[role]
        == after[role] by {
        let i = choose|i: int| 0 <= i < roles.len() && roles[i] == role;
        assert(findings_of(kind, before)[i] == before[role]);
        assert(findings_of(kind, after)[i] == after[role]);
    }
}

proof fn lemma_changes(files: Map<PathRole, FileView>, changes: Seq<RecoveryMutation>)
    requires
        changes.len() <= 3,
    ensures
        changes.len() == 0 ==> after_changes(files, changes) == files,
        changes.len() == 1 ==> after_changes(files, changes) == after_change(
            files,
            changes[0],
        ),
        changes.len() == 2 ==> after_changes(files, changes) == after_change(
            after_change(files, changes[0]),
            changes[1],
        ),
        changes.len() == 3 ==> after_changes(files, changes) == after_change(
            after_change(
                after_change(files, changes[0]),
                changes[1],
            ),
            changes[2],
        ),
{
    if changes.len() == 1 {
        assert(changes =~= seq![changes[0]]);
        lemma_changes_one(files, changes[0]);
    } else if changes.len() == 2 {
        assert(changes =~= seq![changes[0], changes[1]]);
        lemma_changes_two(files, changes[0], changes[1]);
    } else if changes.len() == 3 {
        assert(changes =~= seq![changes[0], changes[1], changes[2]]);
        lemma_changes_three(files, changes[0], changes[1], changes[2]);
    }
}

proof fn lemma_restored_creation(
    entries: Seq<AppEntryView>,
    action: DeclarativeActionV1,
    previous_receipt: bool,
    files: Map<PathRole, FileView>,
    content: Seq<u8>,
    mode: Option<u32>,
    count: nat,
)
    requires
        action.kind is CreateManagedFile,
        is_interrupted(entries, action, files, content, mode, count),
    ensures
        is_restored(action.kind, previous_receipt, files, content, mode, count),
{
    let kind = action.kind;
    let guards = guards_of(entries, action)->Ok_0;
    let changes = changes_of(kind);
    let written = prepared_content(kind, content, starting_content(kind, files))->Ok_0;
    let after = after_execution(files, changes, count, written, mode);
    let found = findings_of(kind, after);
    lemma_first_changes(files, changes, count, written, mode);
    assert(guard_verdict(kind, guards[0], files[PathRole::Destination]) is Ok);
    assert(found[0] == after[PathRole::Destination]);
    let rollback = rollback_of(kind, false, false, previous_receipt, found)->Ok_0;
    lemma_changes(after, rollback.mutations);
    assert(findings_of(kind, after_changes(after, rollback.mutations)) =~= findings_of(
        kind,
        files,
    ));
    lemma_same_findings(kind, after_changes(after, rollback.mutations), files);
}

proof fn lemma_restored_backup_creation(
    entries: Seq<AppEntryView>,
    action: DeclarativeActionV1,
    previous_receipt: bool,
    files: Map<PathRole, FileView>,
    content: Seq<u8>,
    mode: Option<u32>,
    count: nat,
)
    requires
        action.kind is CreateManagedFileWithBackup,
        is_interrupted(entries, action, files, content, mode, count),
    ensures
        is_restored(action.kind, previous_receipt, files, content, mode, count),
{
    let kind = action.kind;
    let guards = guards_of(entries, action)->Ok_0;
    let changes = changes_of(kind);
    let written = prepared_content(kind, content, starting_content(kind, files))->Ok_0;
    let after = after_execution(files, changes, count, written, mode);
    let found = findings_of(kind, after);
    lemma_first_changes(files, changes, count, written, mode);
    assert(guard_verdict(kind, guards[0], files[PathRole::Destination]) is Ok);
    assert(guard_verdict(kind, guards[1], files[PathRole::Backup]) is Ok);
    assert(found[0] == after[PathRole::Destination]);
    assert(found[1] == after[PathRole::Backup]);
    let rollback = rollback_of(kind, false, false, previous_receipt, found)->Ok_0;
    lemma_changes(after, rollback.mutations);
    assert(findings_of(kind, after_changes(after, rollback.mutations)) =~= findings_of(
        kind,
        files,
    ));
    lemma_same_findings(kind, after_changes(after, rollback.mutations), files);
}

proof fn lemma_restored_update(
    entries: Seq<AppEntryView>,
    action: DeclarativeActionV1,
    previous_receipt: bool,
    files: Map<PathRole, FileView>,
    content: Seq<u8>,
    mode: Option<u32>,
    count: nat,
)
    requires
        action.kind is UpdateManagedFile,
        is_interrupted(entries, action, files, content, mode, count),
    ensures
        is_restored(action.kind, previous_receipt, files, content, mode, count),
{
    let kind = action.kind;
    let guards = guards_of(entries, action)->Ok_0;
    let changes = changes_of(kind);
    let written = prepared_content(kind, content, starting_content(kind, files))->Ok_0;
    let after = after_execution(files, changes, count, written, mode);
    let found = findings_of(kind, after);
    lemma_first_changes(files, changes, count, written, mode);
    assert(guard_verdict(kind, guards[0], files[PathRole::Destination]) is Ok);
    assert(guard_verdict(kind, guards[1], files[PathRole::Rollback]) is Ok);
    assert(found[0] == after[PathRole::Destination]);
    assert(found[1] == after[PathRole::Rollback]);
    let rollback = rollback_of(kind, false, false, previous_receipt, found)->Ok_0;
    lemma_changes(after, rollback.mutations);
    assert(findings_of(kind, after_changes(after, rollback.mutations)) =~= findings_of(
        kind,
        files,
    ));
    lemma_same_findings(kind, after_changes(after, rollback.mutations), files);
}

proof fn lemma_restored_relocation(
    entries: Seq<AppEntryView>,
    action: DeclarativeActionV1,
    previous_receipt: bool,
    files: Map<PathRole, FileView>,
    content: Seq<u8>,
    mode: Option<u32>,
    count: nat,
)
    requires
        action.kind is RelocateManagedFile,
        is_interrupted(entries, action, files, content, mode, count),
    ensures
        is_restored(action.kind, previous_receipt, files, content, mode, count),
{
    let kind = action.kind;
    let guards = guards_of(entries, action)->Ok_0;
    let changes = changes_of(kind);
    let written = prepared_content(kind, content, starting_content(kind, files))->Ok_0;
    let after = after_execution(files, changes, count, written, mode);
    let found = findings_of(kind, after);
    lemma_first_changes(files, changes, count, written, mode);
    assert(guard_verdict(kind, guards[0], files[PathRole::PreviousRollback]) is Ok);
    assert(guard_verdict(kind, guards[1], files[PathRole::DesiredDestination]) is Ok);
    assert(guard_verdict(kind, guards[2], files[PathRole::PreviousDestination]) is Ok);
    assert(found[0] == after[PathRole::PreviousDestination]);
    assert(found[1] == after[PathRole::PreviousRollback]);
    assert(found[2] == after[PathRole::DesiredDestination]);
    if let ActionKindV1::RelocateManagedFile { previous_backup, .. } = kind {
        if previous_backup is Some {
            assert(guard_verdict(kind, guards[3], files[guarded_role(guards[3])]) is Ok);
            assert(guard_verdict(kind, guards[3], files[PathRole::PreviousBackup]) is Ok);
            assert(found[3] == after[PathRole::PreviousBackup]);
        }
    }
    let rollback = rollback_of(kind, false, false, previous_receipt, found)->Ok_0;
    lemma_changes(after, rollback.mutations);
    assert(findings_of(kind, after_changes(after, rollback.mutations)) =~= findings_of(
        kind,
        files,
    ));
    lemma_same_findings(kind, after_changes(after, rollback.mutations), files);
}

proof fn lemma_restored_removal(
    entries: Seq<AppEntryView>,
    action: DeclarativeActionV1,
    previous_receipt: bool,
    files: Map<PathRole, FileView>,
    content: Seq<u8>,
    mode: Option<u32>,
    count: nat,
)
    requires
        action.kind is RemoveManagedFile,
        is_interrupted(entries, action, files, content, mode, count),
    ensures
        is_restored(action.kind, previous_receipt, files, content, mode, count),
{
    let kind = action.kind;
    let guards = guards_of(entries, action)->Ok_0;
    let changes = changes_of(kind);
    let written = prepared_content(kind, content, starting_content(kind, files))->Ok_0;
    let after = after_execution(files, changes, count, written, mode);
    let found = findings_of(kind, after);
    lemma_first_changes(files, changes, count, written, mode);
    assert(guard_verdict(kind, guards[0], files[PathRole::Destination]) is Ok);
    assert(guard_verdict(kind, guards[1], files[PathRole::Rollback]) is Ok);
    assert(found[0] == after[PathRole::Destination]);
    assert(found[1] == after[PathRole::Rollback]);
    let rollback = rollback_of(kind, false, false, previous_receipt, found)->Ok_0;
    lemma_changes(after, rollback.mutations);
    assert(findings_of(kind, after_changes(after, rollback.mutations)) =~= findings_of(
        kind,
        files,
    ));
    lemma_same_findings(kind, after_changes(after, rollback.mutations), files);
}

proof fn lemma_restored_backup_removal(
    entries: Seq<AppEntryView>,
    action: DeclarativeActionV1,
    previous_receipt: bool,
    files: Map<PathRole, FileView>,
    content: Seq<u8>,
    mode: Option<u32>,
    count: nat,
)
    requires
        action.kind is RemoveManagedFileWithBackup,
        is_interrupted(entries, action, files, content, mode, count),
    ensures
        is_restored(action.kind, previous_receipt, files, content, mode, count),
{
    let kind = action.kind;
    let guards = guards_of(entries, action)->Ok_0;
    let changes = changes_of(kind);
    let written = prepared_content(kind, content, starting_content(kind, files))->Ok_0;
    let after = after_execution(files, changes, count, written, mode);
    let found = findings_of(kind, after);
    lemma_first_changes(files, changes, count, written, mode);
    assert(guard_verdict(kind, guards[0], files[PathRole::Destination]) is Ok);
    assert(guard_verdict(kind, guards[1], files[PathRole::Rollback]) is Ok);
    assert(guard_verdict(kind, guards[2], files[guarded_role(guards[2])]) is Ok);
    assert(guard_verdict(kind, guards[2], files[PathRole::Backup]) is Ok);
    assert(found[0] == after[PathRole::Destination]);
    assert(found[1] == after[PathRole::Backup]);
    assert(found[2] == after[PathRole::Rollback]);
    let rollback = rollback_of(kind, false, false, previous_receipt, found)->Ok_0;
    lemma_changes(after, rollback.mutations);
    assert(findings_of(kind, after_changes(after, rollback.mutations)) =~= findings_of(
        kind,
        files,
    ));
    lemma_same_findings(kind, after_changes(after, rollback.mutations), files);
}

proof fn lemma_restored_forced_removal(
    entries: Seq<AppEntryView>,
    action: DeclarativeActionV1,
    previous_receipt: bool,
    files: Map<PathRole, FileView>,
    content: Seq<u8>,
    mode: Option<u32>,
    count: nat,
)
    requires
        action.kind is ForceRemoveManagedFile,
        is_interrupted(entries, action, files, content, mode, count),
    ensures
        is_restored(action.kind, previous_receipt, files, content, mode, count),
{
    let kind = action.kind;
    let guards = guards_of(entries, action)->Ok_0;
    let changes = changes_of(kind);
    let written = prepared_content(kind, content, starting_content(kind, files))->Ok_0;
    let after = after_execution(files, changes, count, written, mode);
    let found = findings_of(kind, after);
    lemma_first_changes(files, changes, count, written, mode);
    assert(guard_verdict(kind, guards[0], files[PathRole::Destination]) is Ok);
    assert(guard_verdict(kind, guards[1], files[PathRole::Rollback]) is Ok);
    assert(found[0] == after[PathRole::Destination]);
    assert(found[1] == after[PathRole::Rollback]);
    if let ActionKindV1::ForceRemoveManagedFile { persistent_backup, .. } = kind {
        if persistent_backup is Some {
            assert(guard_verdict(kind, guards[2], files[guarded_role(guards[2])]) is Ok);
            assert(guard_verdict(kind, guards[2], files[PathRole::Backup]) is Ok);
            assert(found[2] == after[PathRole::Backup]);
        }
    }
    let rollback = rollback_of(kind, false, false, previous_receipt, found)->Ok_0;
    lemma_changes(after, rollback.mutations);
    assert(findings_of(kind, after_changes(after, rollback.mutations)) =~= findings_of(
        kind,
        files,
    ));
    lemma_same_findings(kind, after_changes(after, rollback.mutations), files);
}

/// An operation on whole files that was interrupted at any point is undone without a
/// trace: every path of the action holds exactly what it held before the operation,
/// content and mode.
pub proof fn law_interrupted_whole_files_are_restored(
    entries: Seq<AppEntryView>,
    action: DeclarativeActionV1,
    previous_receipt: bool,
    files: Map<PathRole, FileView>,
    content: Seq<u8>,
    mode: Option<u32>,
    count: nat,
)
    requires
        is_whole_file(action.kind),
        is_interrupted(entries, action, files, content, mode, count),
    ensures
        is_restored(action.kind, previous_receipt, files, content, mode, count),
{
    match action.kind {
        ActionKindV1::CreateManagedFile { .. } => {
            lemma_restored_creation(entries, action, previous_receipt, files, content, mode, count);
        },
        ActionKindV1::CreateManagedFileWithBackup { .. } => {
            lemma_restored_backup_creation(entries, action, previous_receipt, files, content, mode, count);
        },
        ActionKindV1::UpdateManagedFile { .. } => {
            lemma_restored_update(entries, action, previous_receipt, files, content, mode, count);
        },
        ActionKindV1::RelocateManagedFile { .. } => {
            lemma_restored_relocation(entries, action, previous_receipt, files, content, mode, count);
        },
        ActionKindV1::RemoveManagedFile { .. } => {
            lemma_restored_removal(entries, action, previous_receipt, files, content, mode, count);
        },
        ActionKindV1::RemoveManagedFileWithBackup { .. } => {
            lemma_restored_backup_removal(entries, action, previous_receipt, files, content, mode, count);
        },
        ActionKindV1::ForceRemoveManagedFile { .. } => {
            lemma_restored_forced_removal(entries, action, previous_receipt, files, content, mode, count);
        },
        _ => {},
    }
}

/// Receipts that let an operation through do not stand in the way of its recovery, and
/// none of them is the one that the operation leaves. An update to the very content
/// that stands there already leaves the receipt that it started from.
proof fn lemma_receipts_allow_recovery(
    entries: Seq<AppEntryView>,
    action: DeclarativeActionV1,
    files: Map<PathRole, FileView>,
)
    requires
        is_whole_file(action.kind),
        guards_of(entries, action) is Ok,
        guards_hold(action.kind, guards_of(entries, action)->Ok_0, files),
        action.kind is UpdateManagedFile ==> !receipt_matches(entries, action),
    ensures
        !receipt_matches(entries, action),
        !action_conflicts(entries, action, false),
{
    let kind = action.kind;
    let guards = guards_of(entries, action)->Ok_0;
    assert(guard_verdict(kind, guards[0], files[guarded_role(guards[0])]) is Ok);
    if guards.len() > 1 {
        assert(guard_verdict(kind, guards[1], files[guarded_role(guards[1])]) is Ok);
    }
    lemma_source_index(entries, action.source());
    if let ActionKindV1::RelocateManagedFile { desired_destination, .. } = kind {
        if receipt_matches(entries, action) {
            let index = source_index(entries, action.source())->0;
            assert(same_path(entries[index].destination, desired_destination@));
            assert(owns(entries, desired_destination@));
        }
    }
}

/// The steps of changes that move and remove whole files can always be written down.
proof fn lemma_whole_steps(
    kind: ActionKindV1,
    files: Seq<FileView>,
    mutations: Seq<RecoveryMutation>,
)
    requires
        forall|i: int| 0 <= i < mutations.len() ==> !(#[trigger] mutations[i] is DropKeys),
    ensures
        steps_of_all(kind, files, mutations) is Ok,
    decreases mutations.len(),
{
    if mutations.len() > 0 {
        assert(!(mutations[mutations.len() - 1] is DropKeys));
        assert forall|i: int| 0 <= i < mutations.drop_last().len() implies !(
        #[trigger] mutations.drop_last()[i] is DropKeys) by {
            assert(mutations.drop_last()[i] == mutations[i]);
        }
        lemma_whole_steps(kind, files, mutations.drop_last());
    }
}

proof fn lemma_whole_rollback(kind: ActionKindV1, previous_receipt: bool, files: Seq<FileView>)
    requires
        is_whole_file(kind),
        rollback_of(kind, false, false, previous_receipt, files) is Ok,
    ensures
        ({
            let mutations = rollback_of(
                kind,
                false,
                false,
                previous_receipt,
                files,
            )->Ok_0.mutations;
            forall|i: int| 0 <= i < mutations.len() ==> !(#[trigger] mutations[i] is DropKeys)
        }),
{
}

/// What is found at the paths of an action after the first `count` changes of its
/// operation.
pub open spec fn found_after_interruption(
    kind: ActionKindV1,
    files: Map<PathRole, FileView>,
    content: Seq<u8>,
    mode: Option<u32>,
    count: nat,
) -> Seq<FileView> {
    let written = prepared_content(kind, content, starting_content(kind, files))->Ok_0;
    findings_of(kind, after_execution(files, changes_of(kind), count, written, mode))
}

/// From an interruption to the end of its recovery. The journal of an operation on
/// whole files was saved; the operation was interrupted, and nothing else changed.
/// Then recovery can be planned, and nothing in the plan is blocked. An approval of the
/// reviewed plan holds for it, when recovery starts and under the lock. The one action
/// is undone by steps that can be taken, the journal goes, and the action is reported
/// as undone.
pub proof fn law_interrupted_operation_is_recovered(
    context: RuntimeContext,
    journal: AppOperationJournalV1,
    journal_bytes: Seq<u8>,
    version: u32,
    entries: Seq<AppEntryView>,
    manifest_bytes: Option<Seq<u8>>,
    files: Map<PathRole, FileView>,
    content: Seq<u8>,
    mode: Option<u32>,
    count: nat,
    preset: DigestView,
    plan: PlanV1,
    approval: PlanApprovalV1,
    kept: PlanApprovalV1,
)
    requires
        journal.action_ir.actions@.len() == 1,
        journal.state_of(journal.action_ir.actions@[0].action_id@) is Some,
        !is_receipt_committed(journal, 0),
        is_whole_file(journal.action_ir.actions@[0].kind),
        is_interrupted(entries, journal.action_ir.actions@[0], files, content, mode, count),
        journal.action_ir.actions@[0].kind is UpdateManagedFile ==> !receipt_matches(
            entries,
            journal.action_ir.actions@[0],
        ),
        ({
            let found = found_after_interruption(
                journal.action_ir.actions@[0].kind,
                files,
                content,
                mode,
                count,
            );
            let planner = recovery_planner_of(
                context,
                journal,
                journal_bytes,
                entries,
                manifest_bytes,
                seq![found],
            );
            planner is Ok ==> is_plan_of(plan, preset, planner->Ok_0)
        }),
        approval.schema_version == PLAN_APPROVAL_SCHEMA_VERSION,
        approval.reviewed(plan),
        kept.agrees(approval),
    ensures
        ({
            let action = journal.action_ir.actions@[0];
            let found = found_after_interruption(action.kind, files, content, mode, count);
            let planner = recovery_planner_of(
                context,
                journal,
                journal_bytes,
                entries,
                manifest_bytes,
                seq![found],
            );
            let started = RecoveryRunView::begun(kept, journal, version, entries);
            let locked = RecoveryRunView { phase: RecoveryPhase::Planning, ..started };
            let undoing = locked.after_planned(journal, version, entries);
            let undone = undoing.after_observed(found);
            let last = RecoveryRunView { taken: undone->Ok_0.steps.len() as int, ..undone->Ok_0 };
            let done = RecoveryRunView { phase: RecoveryPhase::Done, ..last };
            // The plan.
            &&& planner is Ok
            &&& plan.ready()
            // The approval, at the start and under the lock.
            &&& gives(approval, preset, planner->Ok_0, Ok(()))
            &&& gives(kept, preset, planner->Ok_0, Ok(()))
            &&& started.demand() is Lock
            &&& locked.demand() is PlanAgain
            &&& undoing.demand() == (RecoveryDemand::Observe { index: 0 })
            // Undoing.
            &&& undone is Ok
            &&& undone->Ok_0.steps == steps_of_all(
                action.kind,
                found,
                rollback_of(
                    action.kind,
                    false,
                    false,
                    previous_receipt_matches(entries, action),
                    found,
                )->Ok_0.mutations,
            )->Ok_0
            &&& is_restored(
                action.kind,
                previous_receipt_matches(entries, action),
                files,
                content,
                mode,
                count,
            )
            // The end.
            &&& last.demand() is RemoveJournal
            &&& done.demand() is Finish
            &&& done.undone == seq![action.action_id@]
        }),
{
    let action = journal.action_ir.actions@[0];
    let kind = action.kind;
    let found = found_after_interruption(kind, files, content, mode, count);
    let previous = previous_receipt_matches(entries, action);
    let start = planner_start(context, journal_bytes, manifest_bytes);
    lemma_receipts_allow_recovery(entries, action, files);
    law_interrupted_whole_files_are_restored(
        entries,
        action,
        previous,
        files,
        content,
        mode,
        count,
    );
    lemma_undone_is_unblocked(kind, previous, found);
    assert(planner_after(context, entries, journal, seq![found], start, 0) == Ok::<
        PlannerView,
        RecoveryPlanError,
    >(start));
    let planner = planner_after(context, entries, journal, seq![found], start, 1)->Ok_0;
    law_blocked_iff_some_step_is(
        context,
        entries,
        journal,
        seq![found],
        journal_bytes,
        manifest_bytes,
        1,
    );
    law_plan_is_ready_iff_unblocked(plan, preset, planner);
    lemma_one_verdict(approval, approval, preset, planner, plan);
    assert(approval.agrees(kept));
    lemma_one_verdict(kept, approval, preset, planner, plan);
    lemma_whole_rollback(kind, previous, found);
    lemma_whole_steps(
        kind,
        found,
        rollback_of(kind, false, false, previous, found)->Ok_0.mutations,
    );
    assert(Seq::<Seq<char>>::empty().push(action.action_id@) =~= seq![action.action_id@]);
}

proof fn lemma_undone_is_unblocked(
    kind: ActionKindV1,
    previous_receipt: bool,
    files: Seq<FileView>,
)
    requires
        is_whole_file(kind),
        rollback_of(kind, false, false, previous_receipt, files) is Ok,
    ensures
        recovery_decision(kind, false, false, previous_receipt, files) is Ok,
        recovery_decision(kind, false, false, previous_receipt, files)->Ok_0.action
            != PlanActionV1::Blocked,
{
    law_blocked_action_is_not_undone(kind, false, false, previous_receipt, files);
}

} // verus!
