//! What holds between the recovery plan that is reviewed and the recovery that
//! is carried out.

use vstd::prelude::*;

use crate::action::{access_permission, removes, writes, ActionKindV1, PathRole, RoleAccess};
use crate::context::{permissions_touch, review_text, review_texts, RuntimeContext};
use crate::plan::{PermissionView, PlanActionV1};
use crate::recovery::{
    json_merge_assessment, json_remove_assessment, rollback_exactness, FileView,
    JsonRecoveryAssessment, JsonRelocationRecoveryAssessment, RelocationRecoveryAssessment,
};
use crate::recovery_apply::{
    backup_removal_rollback, json_desired_rollback, json_merge_rollback, json_previous_rollback,
    json_relocation_rollback, json_removal_rollback, plan_allows, plan_allows_all,
    relocation_rollback, removal_rollback, rollback_of, settled_json_rollback, RecoveryMutation,
    RollbackFault, RollbackView,
};
use crate::recovery_plan::{
    backup_removal_codes, backup_removal_decision, forced_removal_codes, json_desired_needs,
    json_merge_decision, json_previous_needs, json_relocation_decision, json_relocation_state,
    json_removal_decision, observed_roles, recovery_decision, relocation_decision, relocation_needs,
    relocation_state, removal_codes, removal_decision, restore_both_needs, restore_needs,
    settled_json_decision, DecisionView, RecoveryCode, RemovalCodes,
};
use crate::recovery_planner::{
    admin_roles, manifest_permission, permissions_after, role_or_empty, role_paths, with_accesses,
};
use crate::text::texts;

verus! {

proof fn lemma_restore_needs(destination: PathRole, material: PathRole, remove: bool)
    ensures
        restore_needs(destination, material, remove).contains(writes(destination)),
        restore_needs(destination, material, remove).contains(removes(material)),
        remove ==> restore_needs(destination, material, remove).contains(removes(destination)),
{
    let needs = restore_needs(destination, material, remove);
    assert(needs[0] == writes(destination));
    assert(needs[1] == removes(material));
    if remove {
        assert(needs[2] == removes(destination));
    }
}

proof fn lemma_restore_both_needs()
    ensures
        restore_both_needs().contains(removes(PathRole::Destination)),
        restore_both_needs().contains(writes(PathRole::Destination)),
        restore_both_needs().contains(writes(PathRole::Backup)),
        restore_both_needs().contains(removes(PathRole::Rollback)),
{
    let needs = restore_both_needs();
    assert(needs[0] == removes(PathRole::Destination));
    assert(needs[1] == writes(PathRole::Destination));
    assert(needs[2] == writes(PathRole::Backup));
    assert(needs[3] == removes(PathRole::Rollback));
}

proof fn lemma_relocation_needs(remove_desired: bool, restore_backup: bool)
    ensures
        ({
            let needs = relocation_needs(remove_desired, restore_backup);
            &&& needs.contains(writes(PathRole::PreviousDestination))
            &&& needs.contains(removes(PathRole::PreviousRollback))
            &&& remove_desired ==> needs.contains(removes(PathRole::DesiredDestination))
            &&& restore_backup ==> needs.contains(removes(PathRole::PreviousDestination))
            &&& restore_backup ==> needs.contains(writes(PathRole::PreviousBackup))
        }),
{
    let needs = relocation_needs(remove_desired, restore_backup);
    let n = needs.len() as int;
    assert(needs[n - 2] == writes(PathRole::PreviousDestination));
    assert(needs[n - 1] == removes(PathRole::PreviousRollback));
    if remove_desired {
        assert(needs[0] == removes(PathRole::DesiredDestination));
    }
    if restore_backup {
        assert(needs[n - 4] == removes(PathRole::PreviousDestination));
        assert(needs[n - 3] == writes(PathRole::PreviousBackup));
    }
}

proof fn lemma_single(access: RoleAccess)
    ensures
        seq![access].contains(access),
{
    assert(seq![access][0] == access);
}

proof fn lemma_concat_contains(left: Seq<RoleAccess>, right: Seq<RoleAccess>, access: RoleAccess)
    ensures
        left.contains(access) || right.contains(access) ==> (left + right).contains(access),
{
    if left.contains(access) {
        let i = choose|i: int| 0 <= i < left.len() && left[i] == access;
        assert((left + right)[i] == access);
    }
    if right.contains(access) {
        let i = choose|i: int| 0 <= i < right.len() && right[i] == access;
        assert((left + right)[left.len() + i] == access);
    }
}

proof fn lemma_json_relocation_allowed(
    previous: Option<JsonRecoveryAssessment>,
    desired: JsonRecoveryAssessment,
    rollback: FileView,
    decision: DecisionView,
)
    requires
        decision.needs == json_previous_needs(previous, rollback) + json_desired_needs(desired),
    ensures
        plan_allows_all(
            decision,
            json_desired_rollback(desired) + json_previous_rollback(previous, rollback),
        ),
{
    let first = json_previous_needs(previous, rollback);
    let second = json_desired_needs(desired);
    let changes = json_desired_rollback(desired) + json_previous_rollback(previous, rollback);
    assert forall|i: int| 0 <= i < changes.len() implies plan_allows(
        decision,
        #[trigger] changes[i],
    ) by {
        lemma_concat_contains(first, second, removes(PathRole::DesiredDestination));
        lemma_concat_contains(first, second, writes(PathRole::DesiredDestination));
        lemma_concat_contains(first, second, removes(PathRole::PreviousRollback));
        lemma_concat_contains(first, second, writes(PathRole::PreviousDestination));
        if i < json_desired_rollback(desired).len() {
            assert(changes[i] == json_desired_rollback(desired)[i]);
            if second.len() > 0 {
                assert(second.contains(second[0]));
            }
        } else {
            assert(changes[i] == json_previous_rollback(previous, rollback)[i
                - json_desired_rollback(desired).len()]);
            if first.len() > 0 {
                assert(first.contains(first[0]));
            }
            if first.len() > 1 {
                assert(first.contains(first[1]));
            }
        }
    }
}

/// Whether a decision that does not block goes with changes that it allows, each
/// privileged one on one of the given parts.
pub open spec fn goes_with(
    decision: DecisionView,
    outcome: Result<RollbackView, RollbackFault>,
    parts: Seq<PathRole>,
) -> bool {
    decision.action != PlanActionV1::Blocked ==> outcome is Ok && plan_allows_all(
        decision,
        outcome->Ok_0.mutations,
    ) && forall|i: int|
        0 <= i < outcome->Ok_0.mutations.len() && is_privileged(
            #[trigger] outcome->Ok_0.mutations[i],
        ) ==> parts.contains(named_part(outcome->Ok_0.mutations[i]))
}

proof fn lemma_removal_goes_with(
    codes: RemovalCodes,
    committed: bool,
    previous_receipt: bool,
    hash: u64,
    mode: Option<u32>,
    privileged: bool,
    destination: FileView,
    rollback: FileView,
    first: RollbackFault,
    second: RollbackFault,
    parts: Seq<PathRole>,
)
    requires
        privileged ==> parts.contains(PathRole::Rollback),
    ensures
        goes_with(
            removal_decision(
                codes,
                committed,
                previous_receipt,
                hash,
                mode,
                destination,
                rollback,
            ),
            removal_rollback(
                committed,
                previous_receipt,
                hash,
                mode,
                privileged,
                destination,
                rollback,
                first,
                second,
            ),
            parts,
        ),
{
    lemma_restore_needs(PathRole::Destination, PathRole::Rollback, false);
    lemma_single(removes(PathRole::Rollback));
}

proof fn lemma_backup_removal_goes_with(
    codes: RemovalCodes,
    committed: bool,
    previous_receipt: bool,
    managed_hash: u64,
    managed_mode: Option<u32>,
    backup_hash: u64,
    backup_mode: Option<u32>,
    privileged: bool,
    destination: FileView,
    backup: FileView,
    rollback: FileView,
    first: RollbackFault,
    second: RollbackFault,
    parts: Seq<PathRole>,
)
    requires
        privileged ==> parts.contains(PathRole::Rollback) && parts.contains(PathRole::Destination),
    ensures
        goes_with(
            backup_removal_decision(
                codes,
                committed,
                previous_receipt,
                managed_hash,
                managed_mode,
                backup_hash,
                backup_mode,
                destination,
                backup,
                rollback,
            ),
            backup_removal_rollback(
                committed,
                previous_receipt,
                managed_hash,
                managed_mode,
                backup_hash,
                backup_mode,
                privileged,
                destination,
                backup,
                rollback,
                first,
                second,
            ),
            parts,
        ),
{
    lemma_restore_needs(PathRole::Destination, PathRole::Rollback, false);
    lemma_restore_both_needs();
    lemma_single(removes(PathRole::Rollback));
}

proof fn lemma_relocation_goes_with(
    assessment: RelocationRecoveryAssessment,
    previous_privileged: bool,
    desired_privileged: bool,
    parts: Seq<PathRole>,
)
    requires
        previous_privileged ==> parts.contains(PathRole::PreviousRollback) && parts.contains(
            PathRole::PreviousDestination,
        ),
        desired_privileged ==> parts.contains(PathRole::DesiredDestination),
    ensures
        goes_with(
            relocation_decision(assessment),
            relocation_rollback(assessment, previous_privileged, desired_privileged),
            parts,
        ),
{
    lemma_single(removes(PathRole::PreviousRollback));
    lemma_single(removes(PathRole::DesiredDestination));
    if let RelocationRecoveryAssessment::Restore { remove_desired, restore_backup } = assessment {
        lemma_relocation_needs(remove_desired, restore_backup);
    }
}

proof fn lemma_json_relocation_goes_with(
    assessment: JsonRelocationRecoveryAssessment,
    rollback: FileView,
    parts: Seq<PathRole>,
)
    ensures
        goes_with(
            json_relocation_decision(assessment, rollback),
            json_relocation_rollback(assessment, rollback),
            parts,
        ),
{
    lemma_single(removes(PathRole::PreviousRollback));
    if let JsonRelocationRecoveryAssessment::Uncommitted { previous, desired } = assessment {
        let decision = json_relocation_decision(assessment, rollback);
        let needs = json_previous_needs(previous, rollback) + json_desired_needs(desired);
        assert(decision.needs =~= needs);
        lemma_json_relocation_allowed(previous, desired, rollback, decision);
        let left = json_desired_rollback(desired);
        let right = json_previous_rollback(previous, rollback);
        assert forall|i: int| 0 <= i < (left + right).len() implies !is_privileged(
            #[trigger] (left + right)[i],
        ) by {
            if i < left.len() {
                assert((left + right)[i] == left[i]);
            } else {
                assert((left + right)[i] == right[i - left.len()]);
            }
        }
    }
}

proof fn lemma_settled_json_goes_with(
    exact: Option<bool>,
    settled: RecoveryCode,
    changed: RollbackFault,
    parts: Seq<PathRole>,
)
    ensures
        goes_with(
            settled_json_decision(exact, settled),
            settled_json_rollback(exact, changed),
            parts,
        ),
{
    lemma_single(removes(PathRole::Rollback));
}

proof fn lemma_json_merge_goes_with(
    assessment: JsonRecoveryAssessment,
    rollback: FileView,
    parts: Seq<PathRole>,
)
    ensures
        goes_with(
            json_merge_decision(assessment, rollback),
            json_merge_rollback(assessment, rollback),
            parts,
        ),
{
    lemma_restore_needs(PathRole::Destination, PathRole::Rollback, false);
    lemma_single(removes(PathRole::Rollback));
    lemma_single(removes(PathRole::Destination));
    lemma_single(writes(PathRole::Destination));
}

proof fn lemma_json_removal_goes_with(
    assessment: JsonRecoveryAssessment,
    previous_receipt: bool,
    parts: Seq<PathRole>,
)
    ensures
        goes_with(
            json_removal_decision(assessment, previous_receipt),
            json_removal_rollback(assessment, previous_receipt),
            parts,
        ),
{
    lemma_restore_needs(PathRole::Destination, PathRole::Rollback, false);
    lemma_single(removes(PathRole::Rollback));
}

proof fn lemma_create_goes_with(
    kind: ActionKindV1,
    committed: bool,
    receipt: bool,
    previous_receipt: bool,
    files: Seq<FileView>,
)
    requires
        kind is CreateManagedFile || kind is CreateManagedFileWithBackup
            || kind is UpdateManagedFile,
    ensures
        recovery_decision(kind, committed, receipt, previous_receipt, files) is Ok,
        goes_with(
            recovery_decision(kind, committed, receipt, previous_receipt, files)->Ok_0,
            rollback_of(kind, committed, receipt, previous_receipt, files),
            admin_roles(kind, receipt),
        ),
{
    let roles = admin_roles(kind, receipt);
    if roles.len() > 0 {
        assert(roles.contains(roles[0]));
    }
    if roles.len() > 1 {
        assert(roles.contains(roles[1]));
    }
    lemma_restore_needs(PathRole::Destination, PathRole::Backup, true);
    lemma_restore_needs(PathRole::Destination, PathRole::Backup, false);
    lemma_restore_needs(PathRole::Destination, PathRole::Rollback, true);
    lemma_restore_needs(PathRole::Destination, PathRole::Rollback, false);
    lemma_single(removes(PathRole::Destination));
    lemma_single(removes(PathRole::Rollback));
}

proof fn lemma_decision_goes_with(
    kind: ActionKindV1,
    committed: bool,
    receipt: bool,
    previous_receipt: bool,
    files: Seq<FileView>,
)
    requires
        recovery_decision(kind, committed, receipt, previous_receipt, files) is Ok,
    ensures
        goes_with(
            recovery_decision(kind, committed, receipt, previous_receipt, files)->Ok_0,
            rollback_of(kind, committed, receipt, previous_receipt, files),
            admin_roles(kind, receipt),
        ),
{
    let parts = admin_roles(kind, receipt);
    match kind {
        ActionKindV1::RelocateManagedFile {
            previous_requires_admin,
            desired_requires_admin,
            ..
        } => {
            if previous_requires_admin {
                assert(parts.contains(parts[0]));
                assert(parts.contains(parts[1]));
            }
            if desired_requires_admin {
                assert(parts.contains(parts[parts.len() - 1]));
            }
            lemma_relocation_goes_with(
                relocation_state(kind, receipt, files),
                previous_requires_admin,
                desired_requires_admin,
                parts,
            );
        },
        ActionKindV1::RelocateManagedJson { .. } => {
            lemma_json_relocation_goes_with(
                json_relocation_state(kind, receipt, files)->Ok_0,
                files[1],
                parts,
            );
        },
        ActionKindV1::RemoveManagedFile { original_mode, original_hash, requires_admin, .. } => {
            if requires_admin {
                assert(parts.contains(parts[1]));
            }
            lemma_removal_goes_with(
                removal_codes(),
                committed,
                previous_receipt,
                original_hash,
                original_mode,
                requires_admin,
                files[0],
                files[1],
                RollbackFault::CommittedRemovalChanged,
                RollbackFault::RemovalChanged,
                parts,
            );
        },
        ActionKindV1::RemoveManagedFileWithBackup {
            managed_mode,
            managed_hash,
            backup_mode,
            backup_hash,
            requires_admin,
            ..
        } => {
            if requires_admin {
                assert(parts.contains(parts[0]));
                assert(parts.contains(parts[2]));
            }
            lemma_backup_removal_goes_with(
                backup_removal_codes(),
                committed,
                previous_receipt,
                managed_hash,
                managed_mode,
                backup_hash,
                backup_mode,
                requires_admin,
                files[0],
                files[1],
                files[2],
                RollbackFault::CommittedBackupRemovalChanged,
                RollbackFault::BackupRemovalChanged,
                parts,
            );
        },
        ActionKindV1::ForceRemoveManagedFile {
            persistent_backup,
            current_mode,
            current_hash,
            requires_admin,
            ..
        } => {
            if requires_admin {
                assert(parts.contains(parts[0]));
                assert(parts.contains(parts[1]));
            }
            match persistent_backup {
                Some(backup) => {
                    lemma_backup_removal_goes_with(
                        forced_removal_codes(),
                        committed,
                        previous_receipt,
                        current_hash,
                        current_mode,
                        backup.hash,
                        backup.mode,
                        requires_admin,
                        files[0],
                        files[2],
                        files[1],
                        RollbackFault::CommittedForcedRemovalChanged,
                        RollbackFault::ForcedBackupRemovalChanged,
                        parts,
                    );
                },
                None => {
                    lemma_removal_goes_with(
                        forced_removal_codes(),
                        committed,
                        previous_receipt,
                        current_hash,
                        current_mode,
                        requires_admin,
                        files[0],
                        files[1],
                        RollbackFault::CommittedForcedRemovalChanged,
                        RollbackFault::ForcedRemovalChanged,
                        parts,
                    );
                },
            }
        },
        ActionKindV1::MergeManagedJson {
            original_mode,
            original_hash,
            desired_managed_hash,
            managed_keys,
            ..
        } => {
            if receipt {
                lemma_settled_json_goes_with(
                    rollback_exactness(files[1], original_hash, original_mode),
                    RecoveryCode::JsonReceiptAlreadyCommitted,
                    RollbackFault::CommittedJsonMergeChanged,
                    parts,
                );
            } else {
                lemma_json_merge_goes_with(
                    json_merge_assessment(
                        files[0],
                        files[1],
                        original_hash,
                        original_mode,
                        desired_managed_hash,
                        texts(managed_keys@),
                    )->Ok_0,
                    files[1],
                    parts,
                );
            }
        },
        ActionKindV1::RemoveManagedJson { original_mode, original_hash, managed_keys, .. } => {
            if committed {
                lemma_settled_json_goes_with(
                    rollback_exactness(files[1], Some(original_hash), original_mode),
                    RecoveryCode::JsonRemovalAlreadyCommitted,
                    RollbackFault::CommittedJsonRemovalChanged,
                    parts,
                );
            } else {
                lemma_json_removal_goes_with(
                    json_remove_assessment(
                        files[0],
                        files[1],
                        original_hash,
                        original_mode,
                        texts(managed_keys@),
                    )->Ok_0,
                    previous_receipt,
                    parts,
                );
            }
        },
        ActionKindV1::Foreign(_) => {},
        _ => {
            lemma_create_goes_with(kind, committed, receipt, previous_receipt, files);
        },
    }
}

/// A recovery does nothing that its reviewed plan does not allow, and it does not
/// refuse what the plan said could be undone.
pub proof fn law_recovery_stays_within_its_plan(
    kind: ActionKindV1,
    committed: bool,
    receipt: bool,
    previous_receipt: bool,
    files: Seq<FileView>,
)
    ensures
        match recovery_decision(kind, committed, receipt, previous_receipt, files) {
            Ok(decision) => decision.action != PlanActionV1::Blocked ==> {
                let outcome = rollback_of(kind, committed, receipt, previous_receipt, files);
                outcome is Ok && plan_allows_all(decision, outcome->Ok_0.mutations)
            },
            Err(_) => true,
        },
{
    if recovery_decision(kind, committed, receipt, previous_receipt, files) is Ok {
        lemma_decision_goes_with(kind, committed, receipt, previous_receipt, files);
    }
}

/// What blocks a plan is refused by the recovery too.
pub proof fn law_blocked_action_is_not_undone(
    kind: ActionKindV1,
    committed: bool,
    receipt: bool,
    previous_receipt: bool,
    files: Seq<FileView>,
)
    ensures
        match recovery_decision(kind, committed, receipt, previous_receipt, files) {
            Ok(decision) => decision.action == PlanActionV1::Blocked ==> rollback_of(
                kind,
                committed,
                receipt,
                previous_receipt,
                files,
            ) is Err,
            Err(fault) => rollback_of(kind, committed, receipt, previous_receipt, files) == Err::<
                RollbackView,
                RollbackFault,
            >(RollbackFault::Json { fault }),
        },
{
}

/// Whether a change is made with administrator rights.
pub open spec fn is_privileged(mutation: RecoveryMutation) -> bool {
    match mutation {
        RecoveryMutation::Remove { privileged, .. } => privileged,
        RecoveryMutation::Move { privileged, .. } => privileged,
        _ => false,
    }
}

proof fn lemma_with_accesses(
    context: RuntimeContext,
    kind: ActionKindV1,
    needs: Seq<RoleAccess>,
    before: Set<PermissionView>,
    access: RoleAccess,
)
    requires
        needs.contains(access),
    ensures
        with_accesses(context, kind, needs, before).contains(
            access_permission(context, kind, access),
        ),
    decreases needs.len(),
{
    let i = choose|i: int| 0 <= i < needs.len() && needs[i] == access;
    if i < needs.len() - 1 {
        assert(needs.drop_last()[i] == access);
        lemma_with_accesses(context, kind, needs.drop_last(), before, access);
    }
}

proof fn lemma_admin_follows(
    context: RuntimeContext,
    kind: ActionKindV1,
    receipt: bool,
    decision: DecisionView,
    before: Set<PermissionView>,
    access: RoleAccess,
)
    requires
        decision.needs.contains(access),
        admin_roles(kind, receipt).contains(access.role),
    ensures
        permissions_after(context, kind, receipt, decision, before).contains(
            PermissionView::Administrator,
        ),
{
    lemma_with_accesses(context, kind, decision.needs, before, access);
    let needed = with_accesses(context, kind, decision.needs, before);
    let receipted = if decision.restores_receipt {
        needed.insert(manifest_permission(context))
    } else {
        needed
    };
    let roles = admin_roles(kind, receipt);
    let paths = role_paths(kind, roles);
    let reviewed = review_texts(context, paths);
    let i = choose|i: int| 0 <= i < roles.len() && roles[i] == access.role;
    assert(paths[i] == role_or_empty(kind, access.role));
    assert(reviewed[i] == review_text(context, paths[i]));
    let path = review_text(context, role_or_empty(kind, access.role));
    assert(reviewed.contains(path));
    assert(receipted.contains(PermissionView::Filesystem { access: access.access, path }));
    assert(permissions_touch(receipted, reviewed));
}

/// The part of a privileged change that its plan names first.
pub open spec fn named_part(mutation: RecoveryMutation) -> PathRole {
    match mutation {
        RecoveryMutation::Remove { role, .. } => role,
        RecoveryMutation::Move { from, .. } => from,
        _ => PathRole::Destination,
    }
}

/// A recovery takes a privileged step only where its plan asked for
/// administrator rights.
pub proof fn law_privileged_recovery_was_reviewed(
    context: RuntimeContext,
    kind: ActionKindV1,
    committed: bool,
    receipt: bool,
    previous_receipt: bool,
    files: Seq<FileView>,
    before: Set<PermissionView>,
    index: int,
)
    requires
        recovery_decision(kind, committed, receipt, previous_receipt, files) is Ok,
        recovery_decision(kind, committed, receipt, previous_receipt, files)->Ok_0.action
            != PlanActionV1::Blocked,
        rollback_of(kind, committed, receipt, previous_receipt, files) is Ok,
        0 <= index < rollback_of(
            kind,
            committed,
            receipt,
            previous_receipt,
            files,
        )->Ok_0.mutations.len(),
        is_privileged(
            rollback_of(
                kind,
                committed,
                receipt,
                previous_receipt,
                files,
            )->Ok_0.mutations[index],
        ),
    ensures
        permissions_after(
            context,
            kind,
            receipt,
            recovery_decision(kind, committed, receipt, previous_receipt, files)->Ok_0,
            before,
        ).contains(PermissionView::Administrator),
{
    let decision = recovery_decision(kind, committed, receipt, previous_receipt, files)->Ok_0;
    let mutations = rollback_of(
        kind,
        committed,
        receipt,
        previous_receipt,
        files,
    )->Ok_0.mutations;
    lemma_decision_goes_with(kind, committed, receipt, previous_receipt, files);
    assert(plan_allows(decision, mutations[index]));
    lemma_admin_follows(
        context,
        kind,
        receipt,
        decision,
        before,
        removes(named_part(mutations[index])),
    );
}

/// The files after one change that moves or removes whole files.
pub open spec fn after_change(files: Map<PathRole, FileView>, mutation: RecoveryMutation) -> Map<
    PathRole,
    FileView,
> {
    match mutation {
        RecoveryMutation::Remove { role, .. } => files.insert(role, FileView::Missing),
        RecoveryMutation::Move { from, to, .. } => files.insert(to, files[from]).insert(
            from,
            FileView::Missing,
        ),
        _ => files,
    }
}

/// The files after a list of changes.
pub open spec fn after_changes(
    files: Map<PathRole, FileView>,
    mutations: Seq<RecoveryMutation>,
) -> Map<PathRole, FileView>
    decreases mutations.len(),
{
    if mutations.len() == 0 {
        files
    } else {
        after_change(after_changes(files, mutations.drop_last()), mutations.last())
    }
}

/// What is found for the parts of an action.
pub open spec fn findings_of(kind: ActionKindV1, files: Map<PathRole, FileView>) -> Seq<FileView> {
    observed_roles(kind).map_values(|role: PathRole| files[role])
}

/// Whether an action moves and removes whole files only.
pub open spec fn is_whole_file(kind: ActionKindV1) -> bool {
    kind is CreateManagedFile || kind is CreateManagedFileWithBackup || kind is UpdateManagedFile
        || kind is RelocateManagedFile || kind is RemoveManagedFile
        || kind is RemoveManagedFileWithBackup || kind is ForceRemoveManagedFile
}

pub proof fn lemma_changes_one(files: Map<PathRole, FileView>, a: RecoveryMutation)
    ensures
        after_changes(files, seq![a]) == after_change(files, a),
{
    assert(seq![a].drop_last() =~= Seq::<RecoveryMutation>::empty());
    assert(after_changes(files, Seq::<RecoveryMutation>::empty()) == files);
}

pub proof fn lemma_changes_two(
    files: Map<PathRole, FileView>,
    a: RecoveryMutation,
    b: RecoveryMutation,
)
    ensures
        after_changes(files, seq![a, b]) == after_change(after_change(files, a), b),
{
    assert(seq![a, b].drop_last() =~= seq![a]);
    lemma_changes_one(files, a);
}

pub proof fn lemma_changes_three(
    files: Map<PathRole, FileView>,
    a: RecoveryMutation,
    b: RecoveryMutation,
    c: RecoveryMutation,
)
    ensures
        after_changes(files, seq![a, b, c]) == after_change(
            after_change(after_change(files, a), b),
            c,
        ),
{
    assert(seq![a, b, c].drop_last() =~= seq![a, b]);
    lemma_changes_two(files, a, b);
}

/// Undoing an uncommitted action on whole files brings back what was there before
/// the operation: looked at again, with the receipt back, nothing is left to do.
#[verifier::spinoff_prover]
#[verifier::rlimit(60)]
pub proof fn law_undone_action_is_as_if_not_started(
    kind: ActionKindV1,
    previous_receipt: bool,
    files: Map<PathRole, FileView>,
)
    requires
        is_whole_file(kind),
        rollback_of(kind, false, false, previous_receipt, findings_of(kind, files)) is Ok,
    ensures
        ({
            let rollback = rollback_of(
                kind,
                false,
                false,
                previous_receipt,
                findings_of(kind, files),
            )->Ok_0;
            let after = findings_of(kind, after_changes(files, rollback.mutations));
            let again = recovery_decision(kind, false, false, true, after);
            again is Ok && again->Ok_0.action == PlanActionV1::Nothing
        }),
{
    let found = findings_of(kind, files);
    let rollback = rollback_of(kind, false, false, previous_receipt, found)->Ok_0;
    let changes = rollback.mutations;
    let after = after_changes(files, changes);
    let refound = findings_of(kind, after);
    let roles = observed_roles(kind);
    assert forall|i: int| 0 <= i < roles.len() implies #[trigger] found[i] == files[roles[i]] by {}
    assert forall|i: int| 0 <= i < roles.len() implies #[trigger] refound[i]
        == after[roles[i]] by {}
    if changes.len() == 0 {
        assert(after == files);
        assert(refound =~= found);
    } else if changes.len() == 1 {
        assert(changes =~= seq![changes[0]]);
        lemma_changes_one(files, changes[0]);
    } else if changes.len() == 2 {
        assert(changes =~= seq![changes[0], changes[1]]);
        lemma_changes_two(files, changes[0], changes[1]);
    } else {
        assert(changes.len() == 3);
        assert(changes =~= seq![changes[0], changes[1], changes[2]]);
        lemma_changes_three(files, changes[0], changes[1], changes[2]);
    }
    match kind {
        ActionKindV1::CreateManagedFile { .. } => {
            assert(refound[0] == after[PathRole::Destination]);
        },
        ActionKindV1::CreateManagedFileWithBackup { .. } => {
            assert(refound[0] == after[PathRole::Destination]);
            assert(refound[1] == after[PathRole::Backup]);
            assert(found[0] == files[PathRole::Destination]);
            assert(found[1] == files[PathRole::Backup]);
        },
        ActionKindV1::UpdateManagedFile { .. } => {
            assert(refound[0] == after[PathRole::Destination]);
            assert(refound[1] == after[PathRole::Rollback]);
            assert(found[0] == files[PathRole::Destination]);
            assert(found[1] == files[PathRole::Rollback]);
        },
        ActionKindV1::RelocateManagedFile { previous_backup, .. } => {
            assert(refound[0] == after[PathRole::PreviousDestination]);
            assert(refound[1] == after[PathRole::PreviousRollback]);
            assert(refound[2] == after[PathRole::DesiredDestination]);
            assert(found[0] == files[PathRole::PreviousDestination]);
            assert(found[1] == files[PathRole::PreviousRollback]);
            assert(found[2] == files[PathRole::DesiredDestination]);
            if previous_backup is Some {
                assert(refound[3] == after[PathRole::PreviousBackup]);
                assert(found[3] == files[PathRole::PreviousBackup]);
            }
        },
        ActionKindV1::RemoveManagedFile { .. } => {
            assert(refound[0] == after[PathRole::Destination]);
            assert(refound[1] == after[PathRole::Rollback]);
            assert(found[0] == files[PathRole::Destination]);
            assert(found[1] == files[PathRole::Rollback]);
        },
        ActionKindV1::RemoveManagedFileWithBackup { .. } => {
            assert(refound[0] == after[PathRole::Destination]);
            assert(refound[1] == after[PathRole::Backup]);
            assert(refound[2] == after[PathRole::Rollback]);
            assert(found[0] == files[PathRole::Destination]);
            assert(found[1] == files[PathRole::Backup]);
            assert(found[2] == files[PathRole::Rollback]);
        },
        ActionKindV1::ForceRemoveManagedFile { persistent_backup, .. } => {
            assert(refound[0] == after[PathRole::Destination]);
            assert(refound[1] == after[PathRole::Rollback]);
            assert(found[0] == files[PathRole::Destination]);
            assert(found[1] == files[PathRole::Rollback]);
            if persistent_backup is Some {
                assert(refound[2] == after[PathRole::Backup]);
                assert(found[2] == files[PathRole::Backup]);
            }
        },
        _ => {},
    }
}

} // verus!
