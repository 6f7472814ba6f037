//! Which operations were permitted: what an approval covers, what an operation needs, and
//! what a journal may hold.

use vstd::prelude::*;
use vstd::string::*;

use crate::action::{
    action_accesses, action_ids, action_needs_admin, action_permissions, all_permissions,
    permissions_known, role_text, ActionIrV1, ActionKindV1, DeclarativeActionV1, PathRole,
    RollbackSupportV1,
};
use crate::commit::material_is_privileged;
use crate::context::{review_text, RuntimeContext};
use crate::execution::{authorization, changes_of, ExecutionChange};
use crate::execution_fault::ExecutionKind;
use crate::execution_laws::backup_has_file;
use crate::journal::{first_path_fault, path_fault, AppOperationJournalV1, JournalActionStateV1};
use crate::path::same_path;
use crate::plan::{
    step_views, FilesystemAccessV1, PermissionView, PlanActionV1, PlanApprovalV1, PlanOperationV1,
    PlanStepV1, PlanV1,
};
use crate::text::texts;

verus! {

/// Whether a permission is that to take the path of a part away.
pub open spec fn is_taking(
    context: RuntimeContext,
    kind: ActionKindV1,
    role: PathRole,
    permission: PermissionView,
) -> bool {
    permission == (PermissionView::Filesystem {
        access: FilesystemAccessV1::Remove,
        path: review_text(context, role_text(kind, role).unwrap_or(Seq::empty())),
    })
}

/// Whether a permission is that to write the path of a part.
pub open spec fn is_writing(
    context: RuntimeContext,
    kind: ActionKindV1,
    role: PathRole,
    permission: PermissionView,
) -> bool {
    permission == (PermissionView::Filesystem {
        access: FilesystemAccessV1::Write,
        path: review_text(context, role_text(kind, role).unwrap_or(Seq::empty())),
    })
}

/// Whether a change needs a permission: a move takes one path away and writes another, and
/// what it puts aside is taken away in the end; a write writes; what is done with
/// administrator rights needs those.
pub open spec fn change_needs(
    context: RuntimeContext,
    kind: ActionKindV1,
    change: ExecutionChange,
    permission: PermissionView,
) -> bool {
    match change {
        ExecutionChange::Move { from, to, privileged } => {
            ||| is_taking(context, kind, from, permission)
            ||| is_writing(context, kind, to, permission)
            ||| (to == PathRole::Rollback || to == PathRole::PreviousRollback) && is_taking(
                context,
                kind,
                to,
                permission,
            )
            ||| privileged && permission == PermissionView::Administrator
        },
        ExecutionChange::Write { role, privileged } => {
            ||| is_writing(context, kind, role, permission)
            ||| privileged && permission == PermissionView::Administrator
        },
        ExecutionChange::WriteRemaining { role } => is_writing(context, kind, role, permission),
        ExecutionChange::SetMode { role, privileged, .. } => {
            ||| is_writing(context, kind, role, permission)
            ||| privileged && permission == PermissionView::Administrator
        },
    }
}

/// Whether some change of an action needs a permission.
pub open spec fn is_needed(
    context: RuntimeContext,
    kind: ActionKindV1,
    permission: PermissionView,
) -> bool {
    exists|i: int|
        0 <= i < changes_of(kind).len() && change_needs(
            context,
            kind,
            #[trigger] changes_of(kind)[i],
            permission,
        )
}

/// An action needs the permissions that its changes need, and no others.
#[verifier::spinoff_prover]
#[verifier::rlimit(60)]
pub proof fn law_permissions_are_those_of_the_changes(
    context: RuntimeContext,
    kind: ActionKindV1,
    permission: PermissionView,
)
    requires
        backup_has_file(kind),
    ensures
        action_permissions(context, kind).contains(permission) <==> is_needed(
            context,
            kind,
            permission,
        ),
{
    let accesses = action_accesses(kind);
    let changes = changes_of(kind);
    assert(accesses.len() <= 6 && changes.len() <= 4);
    let (a0, a1, a2) = (accesses[0], accesses[1], accesses[2]);
    let (a3, a4, a5) = (accesses[3], accesses[4], accesses[5]);
    let (c0, c1, c2, c3) = (changes[0], changes[1], changes[2], changes[3]);
    assert(is_needed(context, kind, permission) <==> {
        ||| changes.len() > 0 && change_needs(context, kind, c0, permission)
        ||| changes.len() > 1 && change_needs(context, kind, c1, permission)
        ||| changes.len() > 2 && change_needs(context, kind, c2, permission)
        ||| changes.len() > 3 && change_needs(context, kind, c3, permission)
    });
    assert(action_permissions(context, kind).contains(permission) <==> {
        ||| accesses.len() > 0 && permission == crate::action::access_permission(context, kind, a0)
        ||| accesses.len() > 1 && permission == crate::action::access_permission(context, kind, a1)
        ||| accesses.len() > 2 && permission == crate::action::access_permission(context, kind, a2)
        ||| accesses.len() > 3 && permission == crate::action::access_permission(context, kind, a3)
        ||| accesses.len() > 4 && permission == crate::action::access_permission(context, kind, a4)
        ||| accesses.len() > 5 && permission == crate::action::access_permission(context, kind, a5)
        ||| action_needs_admin(kind) && permission == PermissionView::Administrator
    });
}

/// Each part of an action has the path that the action names for it, and an action has no
/// other parts.
pub proof fn law_parts_have_the_paths_of_the_action(kind: ActionKindV1, role: PathRole)
    ensures
        role_text(kind, role) == match role {
            PathRole::Destination => match kind {
                ActionKindV1::CreateManagedFile { destination, .. } => Some(destination@),
                ActionKindV1::CreateManagedFileWithBackup { destination, .. } => Some(destination@),
                ActionKindV1::UpdateManagedFile { destination, .. } => Some(destination@),
                ActionKindV1::RemoveManagedFile { destination, .. } => Some(destination@),
                ActionKindV1::RemoveManagedFileWithBackup { destination, .. } => Some(destination@),
                ActionKindV1::ForceRemoveManagedFile { destination, .. } => Some(destination@),
                ActionKindV1::MergeManagedJson { destination, .. } => Some(destination@),
                ActionKindV1::RemoveManagedJson { destination, .. } => Some(destination@),
                _ => None,
            },
            PathRole::Backup => match kind {
                ActionKindV1::CreateManagedFileWithBackup { backup, .. } => Some(backup@),
                ActionKindV1::RemoveManagedFileWithBackup { backup, .. } => Some(backup@),
                ActionKindV1::ForceRemoveManagedFile { persistent_backup, .. } =>
                    if persistent_backup is Some {
                        Some(persistent_backup->0.path@)
                    } else {
                        None
                    },
                _ => None,
            },
            PathRole::Rollback => match kind {
                ActionKindV1::UpdateManagedFile { rollback, .. } => Some(rollback@),
                ActionKindV1::RemoveManagedFile { rollback, .. } => Some(rollback@),
                ActionKindV1::RemoveManagedFileWithBackup { rollback, .. } => Some(rollback@),
                ActionKindV1::ForceRemoveManagedFile { rollback, .. } => Some(rollback@),
                ActionKindV1::MergeManagedJson { rollback, .. } => Some(rollback@),
                ActionKindV1::RemoveManagedJson { rollback, .. } => Some(rollback@),
                _ => None,
            },
            PathRole::PreviousDestination => match kind {
                ActionKindV1::RelocateManagedFile { previous_destination, .. } => Some(
                    previous_destination@,
                ),
                ActionKindV1::RelocateManagedJson { previous_destination, .. } => Some(
                    previous_destination@,
                ),
                _ => None,
            },
            PathRole::PreviousBackup => match kind {
                ActionKindV1::RelocateManagedFile { previous_backup, .. } =>
                    if previous_backup is Some {
                        Some(previous_backup->0.path@)
                    } else {
                        None
                    },
                _ => None,
            },
            PathRole::PreviousRollback => match kind {
                ActionKindV1::RelocateManagedFile { previous_rollback, .. } => Some(
                    previous_rollback@,
                ),
                ActionKindV1::RelocateManagedJson { previous_rollback, .. } => Some(
                    previous_rollback@,
                ),
                _ => None,
            },
            PathRole::DesiredDestination => match kind {
                ActionKindV1::RelocateManagedFile { desired_destination, .. } => Some(
                    desired_destination@,
                ),
                ActionKindV1::RelocateManagedJson { desired_destination, .. } => Some(
                    desired_destination@,
                ),
                _ => None,
            },
        },
{
}

/// Whether an approval is one of this plan, and the plan one that could be approved.
pub open spec fn was_reviewed(approval: PlanApprovalV1, plan: PlanV1) -> bool {
    &&& approval.schema_version == 1
    &&& approval.operation == plan.operation
    &&& approval.inputs.preset@ == plan.inputs.preset@
    &&& approval.inputs.state@ == plan.inputs.state@
    &&& step_views(approval.steps@) == step_views(plan.steps@)
    &&& approval.approved_permissions@ == plan.permissions.required@
    &&& forall|i: int|
        0 <= i < plan.steps@.len() ==> (#[trigger] plan.steps@[i]).action != PlanActionV1::Blocked
    &&& plan.permissions.missing_declarations.items@.len() == 0
    &&& plan.permissions.uncomputable_codes@.len() == 0
}

/// An approval holds for the plans that say what was reviewed, none of whose steps is
/// blocked and whose permissions are all known and declared, and for no others.
pub proof fn law_approval_holds_for_what_was_reviewed(approval: PlanApprovalV1, plan: PlanV1)
    ensures
        approval.verdict(plan) is Ok <==> was_reviewed(approval, plan),
{
}

/// Whether a step of a plan does this to the resource of an action.
pub open spec fn step_says(
    step: PlanStepV1,
    action: DeclarativeActionV1,
    does: PlanActionV1,
) -> bool {
    &&& step.target@ == action.target@
    &&& step.resource is Some && step.resource->0@ == action.resource@
    &&& step.action == does
}

/// Whether a plan says that it does this to the resource of an action.
pub open spec fn plan_says(plan: PlanV1, action: DeclarativeActionV1, does: PlanActionV1) -> bool {
    exists|i: int| 0 <= i < plan.steps@.len() && step_says(#[trigger] plan.steps@[i], action, does)
}

/// Whether a plan says so, and says with this code why.
pub open spec fn plan_says_why(
    plan: PlanV1,
    action: DeclarativeActionV1,
    does: PlanActionV1,
    code: Seq<char>,
) -> bool {
    exists|i: int|
        0 <= i < plan.steps@.len() && step_says(#[trigger] plan.steps@[i], action, does) && texts(
            plan.steps@[i].diagnostic_codes@,
        ).contains(code)
}

/// Whether a plan says that it removes what an action removes: an uninstall that overrides
/// a user's change says so, and an upgrade removes only what has lost its source and was
/// not changed.
pub open spec fn removal_was_said(
    plan: PlanV1,
    action: DeclarativeActionV1,
    changed: bool,
) -> bool {
    if plan.operation == PlanOperationV1::Uninstall {
        if changed {
            plan_says_why(
                plan,
                action,
                PlanActionV1::Remove,
                "app_user_modification_override"@,
            )
        } else {
            plan_says(plan, action, PlanActionV1::Remove)
        }
    } else {
        plan.operation == PlanOperationV1::Upgrade && !changed && plan_says_why(
            plan,
            action,
            PlanActionV1::Remove,
            "app_stale_source_pruned"@,
        )
    }
}

/// Whether an action is of the operation's kind, can be undone as it says, and is what the
/// plan says.
pub open spec fn was_said(kind: ExecutionKind, plan: PlanV1, action: DeclarativeActionV1) -> bool {
    let adds = plan.operation == PlanOperationV1::Install;
    let upgrades = plan.operation == PlanOperationV1::Upgrade;
    match action.kind {
        ActionKindV1::CreateManagedFile { .. } => kind == ExecutionKind::FileCreation && adds
            && action.rollback == RollbackSupportV1::RemoveCreatedIfUnchanged && plan_says(
            plan,
            action,
            PlanActionV1::Create,
        ),
        ActionKindV1::CreateManagedFileWithBackup { .. } => kind == ExecutionKind::FileCreation
            && adds && action.rollback == RollbackSupportV1::RestoreBackupIfUnchanged && plan_says(
            plan,
            action,
            PlanActionV1::Create,
        ),
        ActionKindV1::UpdateManagedFile { .. } => kind == ExecutionKind::FileUpdate && (adds
            || upgrades) && action.rollback == RollbackSupportV1::RestorePreviousIfUnchanged
            && plan_says(plan, action, PlanActionV1::Update),
        ActionKindV1::RelocateManagedFile { .. } => kind == ExecutionKind::FileRelocation
            && upgrades && action.rollback
            == RollbackSupportV1::RestoreRelocatedPreviousIfUnchanged && plan_says_why(
            plan,
            action,
            PlanActionV1::Update,
            "app_destination_relocated"@,
        ),
        ActionKindV1::RelocateManagedJson { .. } => kind == ExecutionKind::JsonRelocation
            && upgrades && action.rollback
            == RollbackSupportV1::RestoreRelocatedJsonKeysIfUnchanged && plan_says_why(
            plan,
            action,
            PlanActionV1::Update,
            "app_destination_relocated"@,
        ),
        ActionKindV1::MergeManagedJson { .. } => kind == ExecutionKind::JsonMerge && (adds
            || upgrades) && action.rollback == RollbackSupportV1::RestoreJsonKeysIfUnchanged && (
        plan_says(plan, action, PlanActionV1::Create) || plan_says(
            plan,
            action,
            PlanActionV1::Update,
        )),
        ActionKindV1::RemoveManagedJson { receipt_managed_hash, current_managed_hash, .. } => kind
            == ExecutionKind::JsonRemoval && action.rollback
            == RollbackSupportV1::RestoreRemovedJsonKeysIfUnchanged && removal_was_said(
            plan,
            action,
            receipt_managed_hash != current_managed_hash,
        ),
        ActionKindV1::RemoveManagedFile { .. } => kind == ExecutionKind::FileRemoval
            && action.rollback == RollbackSupportV1::RestorePreviousIfUnchanged
            && removal_was_said(plan, action, false),
        ActionKindV1::RemoveManagedFileWithBackup { .. } => kind == ExecutionKind::FileRemoval
            && action.rollback == RollbackSupportV1::RestorePreviousWithBackupIfUnchanged
            && removal_was_said(plan, action, false),
        ActionKindV1::ForceRemoveManagedFile { .. } => kind == ExecutionKind::FileRemoval
            && action.rollback == RollbackSupportV1::RestoreForcedPreviousIfUnchanged
            && removal_was_said(plan, action, true),
        ActionKindV1::Foreign(_) => false,
    }
}

proof fn lemma_said(plan: PlanV1, action: DeclarativeActionV1, does: PlanActionV1, code: Seq<char>)
    ensures
        plan.has_step(action.target@, action.resource@, does) <==> plan_says(plan, action, does),
        plan.has_coded_step(action.target@, action.resource@, does, code) <==> plan_says_why(
            plan,
            action,
            does,
            code,
        ),
{
    assert forall|i: int| 0 <= i < plan.steps@.len() implies ((
    #[trigger] plan.steps@[i]).describes(action.target@, action.resource@) && plan.steps@[i].action
        == does <==> step_says(plan.steps@[i], action, does)) by {}
    if plan.has_step(action.target@, action.resource@, does) {
        let i = choose|i: int|
            0 <= i < plan.steps@.len() && (#[trigger] plan.steps@[i]).describes(
                action.target@,
                action.resource@,
            ) && plan.steps@[i].action == does;
        assert(step_says(plan.steps@[i], action, does));
    }
    if plan_says(plan, action, does) {
        let i = choose|i: int|
            0 <= i < plan.steps@.len() && step_says(#[trigger] plan.steps@[i], action, does);
        assert(plan.steps@[i].describes(action.target@, action.resource@));
    }
    if plan.has_coded_step(action.target@, action.resource@, does, code) {
        let i = choose|i: int|
            0 <= i < plan.steps@.len() && (#[trigger] plan.steps@[i]).describes(
                action.target@,
                action.resource@,
            ) && plan.steps@[i].action == does && texts(
                plan.steps@[i].diagnostic_codes@,
            ).contains(code);
        assert(step_says(plan.steps@[i], action, does));
    }
    if plan_says_why(plan, action, does, code) {
        let i = choose|i: int|
            0 <= i < plan.steps@.len() && step_says(#[trigger] plan.steps@[i], action, does)
                && texts(plan.steps@[i].diagnostic_codes@).contains(code);
        assert(plan.steps@[i].describes(action.target@, action.resource@));
    }
}

/// An operation is authorized exactly where its plan was reviewed and approved, it is one
/// action that has a name and is what the plan says, and every permission that its changes
/// need was approved.
pub proof fn law_operations_are_authorized_by_their_review(
    kind: ExecutionKind,
    context: RuntimeContext,
    plan: PlanV1,
    approval: PlanApprovalV1,
    ir: ActionIrV1,
)
    requires
        ir.actions@.len() == 1 ==> backup_has_file(ir.actions@[0].kind),
    ensures
        authorization(kind, context, plan, approval, ir) is Ok <==> {
            &&& was_reviewed(approval, plan)
            &&& ir.schema_version == 1
            &&& ir.operation_id@.len() > 0
            &&& ir.actions@.len() == 1
            &&& ir.actions@[0].action_id@.len() > 0
            &&& was_said(kind, plan, ir.actions@[0])
            &&& forall|permission: PermissionView|
                is_needed(context, ir.actions@[0].kind, permission)
                    ==> #[trigger] approval.approved_permissions@.contains(permission)
        },
{
    law_approval_holds_for_what_was_reviewed(approval, plan);
    let actions = ir.actions@;
    if actions.len() == 1 {
        let action = actions[0];
        assert(action_ids(actions).no_duplicates());
        assert(all_permissions(context, actions) =~= action_permissions(context, action.kind)) by {
            reveal_with_fuel(all_permissions, 2);
            assert(actions.last() == action);
        }
        assert forall|permission: PermissionView|
            action_permissions(context, action.kind).contains(permission) <==> is_needed(
                context,
                action.kind,
                permission,
            ) by {
            law_permissions_are_those_of_the_changes(context, action.kind, permission);
        }
        assert(all_permissions(context, actions).subset_of(approval.approved_permissions@) <==> (
        forall|permission: PermissionView|
            is_needed(context, action.kind, permission)
                ==> #[trigger] approval.approved_permissions@.contains(permission)));
        lemma_said(plan, action, PlanActionV1::Create, "app_destination_relocated"@);
        lemma_said(plan, action, PlanActionV1::Update, "app_destination_relocated"@);
        lemma_said(plan, action, PlanActionV1::Remove, "app_user_modification_override"@);
        lemma_said(plan, action, PlanActionV1::Remove, "app_stale_source_pruned"@);
        assert(permissions_known(actions) <==> !(action.kind is Foreign));
    }
}

/// Whether a path is the one beside a destination with this ending.
pub open spec fn stands_beside(path: Seq<char>, destination: Seq<char>, ending: Seq<char>) -> bool {
    same_path(destination + ending, path)
}

/// Whether the material of an action stands beside the place that it is for.
pub open spec fn material_stands_beside(kind: ActionKindV1) -> bool {
    match kind {
        ActionKindV1::CreateManagedFile { .. } => true,
        ActionKindV1::CreateManagedFileWithBackup { destination, backup, .. } => stands_beside(
            backup@,
            destination@,
            ".shine-backup"@,
        ),
        ActionKindV1::UpdateManagedFile { destination, rollback, .. } => stands_beside(
            rollback@,
            destination@,
            ".shine-rollback"@,
        ),
        ActionKindV1::RelocateManagedFile {
            previous_destination,
            previous_backup,
            previous_rollback,
            ..
        } => stands_beside(previous_rollback@, previous_destination@, ".shine-rollback"@) && (
        previous_backup is Some ==> stands_beside(
            previous_backup->0.path@,
            previous_destination@,
            ".shine-backup"@,
        )),
        ActionKindV1::RelocateManagedJson { previous_destination, previous_rollback, .. } =>
            stands_beside(previous_rollback@, previous_destination@, ".shine-rollback"@),
        ActionKindV1::RemoveManagedFile { destination, rollback, .. } => stands_beside(
            rollback@,
            destination@,
            ".shine-rollback"@,
        ),
        ActionKindV1::RemoveManagedFileWithBackup { destination, backup, rollback, .. } =>
            stands_beside(rollback@, destination@, ".shine-rollback"@) && stands_beside(
                backup@,
                destination@,
                ".shine-backup"@,
            ),
        ActionKindV1::ForceRemoveManagedFile { destination, persistent_backup, rollback, .. } =>
            stands_beside(rollback@, destination@, ".shine-rollback"@) && (
            persistent_backup is Some ==> stands_beside(
                persistent_backup->0.path@,
                destination@,
                ".shine-backup"@,
            )),
        ActionKindV1::MergeManagedJson { destination, rollback, .. } => stands_beside(
            rollback@,
            destination@,
            ".shine-rollback"@,
        ),
        ActionKindV1::RemoveManagedJson { destination, rollback, .. } => stands_beside(
            rollback@,
            destination@,
            ".shine-rollback"@,
        ),
        ActionKindV1::Foreign(_) => true,
    }
}

proof fn lemma_first_path_fault(actions: Seq<DeclarativeActionV1>)
    ensures
        first_path_fault(actions) is None <==> forall|i: int|
            0 <= i < actions.len() ==> material_stands_beside((#[trigger] actions[i]).kind),
    decreases actions.len(),
{
    if actions.len() > 0 {
        let head = actions.drop_last();
        lemma_first_path_fault(head);
        assert(path_fault(actions.last().kind) is None <==> material_stands_beside(
            actions.last().kind,
        ));
        assert(actions.last() == actions[actions.len() - 1]);
        assert(forall|i: int| 0 <= i < head.len() ==> head[i] == #[trigger] actions[i]);
        if first_path_fault(head) is Some {
            let i = choose|i: int|
                0 <= i < head.len() && !material_stands_beside((#[trigger] head[i]).kind);
            assert(actions[i] == head[i]);
        }
    }
}

/// A journal is valid exactly where its versions are known, its operation and each of its
/// actions has a name, no two have the same, the material of each action stands beside its
/// place, each action has its state, and only removals are committed by a missing
/// receipt.
pub proof fn law_valid_journals(journal: AppOperationJournalV1)
    ensures
        journal.verdict() is Ok <==> {
            let actions = journal.action_ir.actions@;
            &&& journal.schema_version == 1 && journal.action_ir.schema_version == 1
                && journal.approval.schema_version == 1
            &&& journal.action_ir.operation_id@.len() > 0
            &&& forall|i: int|
                0 <= i < actions.len() ==> (#[trigger] actions[i]).action_id@.len() > 0
            &&& forall|i: int, j: int|
                0 <= i < j < actions.len() ==> (#[trigger] actions[i]).action_id@ != (
                #[trigger] actions[j]).action_id@
            &&& forall|i: int|
                0 <= i < actions.len() ==> material_stands_beside((#[trigger] actions[i]).kind)
            &&& journal.actions@.len() == actions.len()
            &&& forall|i: int|
                0 <= i < actions.len() ==> (#[trigger] journal.actions@[i]).action_id@
                    == actions[i].action_id@
            &&& forall|i: int|
                0 <= i < actions.len() && (#[trigger] journal.actions@[i]).state
                    == JournalActionStateV1::ReceiptCommitted ==> (
                actions[i].kind is RemoveManagedFile
                    || actions[i].kind is RemoveManagedFileWithBackup
                    || actions[i].kind is ForceRemoveManagedFile
                    || actions[i].kind is RemoveManagedJson)
        },
{
    let actions = journal.action_ir.actions@;
    lemma_first_path_fault(actions);
    let ids = action_ids(actions);
    assert(ids.len() == actions.len());
    assert(forall|i: int| 0 <= i < actions.len() ==> ids[i] == (#[trigger] actions[i]).action_id@);
    assert(ids.no_duplicates() <==> forall|i: int, j: int|
        0 <= i < j < actions.len() ==> (#[trigger] actions[i]).action_id@ != (
        #[trigger] actions[j]).action_id@) by {
        if ids.no_duplicates() {
            assert forall|i: int, j: int| 0 <= i < j < actions.len() implies (
            #[trigger] actions[i]).action_id@ != (#[trigger] actions[j]).action_id@ by {
                assert(ids[i] != ids[j]);
            }
        } else {
            let (i, j) = choose|i: int, j: int|
                0 <= i < ids.len() && 0 <= j < ids.len() && i != j && #[trigger] ids[i]
                    == #[trigger] ids[j];
            if i < j {
                assert(actions[i].action_id@ == actions[j].action_id@);
            } else {
                assert(actions[j].action_id@ == actions[i].action_id@);
            }
        }
    }
}

/// Material is taken away in the end with administrator rights exactly where it was put
/// aside with them.
pub proof fn law_material_goes_as_it_came(kind: ActionKindV1, index: int)
    requires
        0 <= index < changes_of(kind).len(),
    ensures
        match changes_of(kind)[index] {
            ExecutionChange::Move { to, privileged, .. } => to == PathRole::Rollback || to
                == PathRole::PreviousRollback ==> material_is_privileged(kind) == privileged,
            _ => true,
        },
{
}

/// A file is changed with administrator rights exactly where its action says that it needs
/// them; the two places of a file that moves each have their own. Managed keys never need
/// them.
#[verifier::spinoff_prover]
#[verifier::rlimit(60)]
pub proof fn law_changes_use_the_rights_of_the_file(kind: ActionKindV1, index: int)
    requires
        0 <= index < changes_of(kind).len(),
    ensures
        ({
            let privileged = match changes_of(kind)[index] {
                ExecutionChange::Move { privileged, .. } => privileged,
                ExecutionChange::Write { privileged, .. } => privileged,
                ExecutionChange::WriteRemaining { .. } => false,
                ExecutionChange::SetMode { privileged, .. } => privileged,
            };
            let desired = changes_of(kind)[index] matches ExecutionChange::Write {
                role: PathRole::DesiredDestination,
                ..
            };
            match kind {
                ActionKindV1::CreateManagedFile { requires_admin, .. } => privileged
                    == requires_admin,
                ActionKindV1::CreateManagedFileWithBackup { requires_admin, .. } => privileged
                    == requires_admin,
                ActionKindV1::UpdateManagedFile { requires_admin, .. } => privileged
                    == requires_admin,
                ActionKindV1::RemoveManagedFile { requires_admin, .. } => privileged
                    == requires_admin,
                ActionKindV1::RemoveManagedFileWithBackup { requires_admin, .. } => privileged
                    == requires_admin,
                ActionKindV1::ForceRemoveManagedFile { requires_admin, .. } => privileged
                    == requires_admin,
                ActionKindV1::RelocateManagedFile {
                    previous_requires_admin,
                    desired_requires_admin,
                    ..
                } => privileged == if desired {
                    desired_requires_admin
                } else {
                    previous_requires_admin
                },
                _ => !privileged,
            }
        }),
{
    let changes = changes_of(kind);
    match kind {
        ActionKindV1::RelocateManagedFile { previous_backup, previous_present, .. } => {
            assert(changes.len() <= 3);
            if previous_present && previous_backup is Some {
                assert(index == 0 || index == 1 || index == 2);
            } else if previous_present || previous_backup is Some {
                assert(index == 0 || index == 1);
            } else {
                assert(index == 0);
            }
        },
        ActionKindV1::RelocateManagedJson { .. } => {
            assert(changes.len() <= 4);
            assert(index == 0 || index == 1 || index == 2 || index == 3);
        },
        _ => {
            assert(changes.len() <= 3);
            assert(index == 0 || index == 1 || index == 2);
        },
    }
}

} // verus!
