//! Carrying an approved operation out.
//!
//! An operation is first held against its approval and its plan, then against
//! the receipts, then against what stands at its paths. Only when all of that
//! fits does it change anything, and then by a fixed list of changes.

use vstd::prelude::*;
use vstd::string::*;

use crate::action::{
    all_permissions, permissions_known, ActionIrV1, ActionKindV1, DeclarativeActionV1, PathRole,
    RollbackSupportV1, action_source_identity,
};
use crate::content::{content_hash, hash_content};
use crate::context::RuntimeContext;
use crate::execution_fault::{ExecutionFault, ExecutionKind};
use crate::journal::{backup_belongs, is_backup_of, is_rollback_of, rollback_belongs};
use crate::json::{
    current_json_hash, desired_json_hash, installed_json_hash, managed_json_hash, JsonFault,
};
use crate::manifest::{entry_of_source, owns, AppEntryView, AppManifest};
use crate::path::{paths_match, same_path};
use crate::plan::{PlanActionV1, PlanApprovalV1, PlanOperationV1, PlanV1};
use crate::receipts::{
    app_removal_plan_authorizes, conflicting_app_receipt, matching_previous_app_receipt,
    plan_authorizes_removal, previous_receipt_matches, receipt_conflicts,
};
use crate::recovery::{FileView, RecoveryFileObservation};
use crate::text::texts;

verus! {

/// Whether an operation may be part of a plan of this kind.
pub open spec fn operation_fits(kind: ExecutionKind, operation: PlanOperationV1) -> bool {
    match kind {
        ExecutionKind::FileCreation => operation == PlanOperationV1::Install,
        ExecutionKind::FileUpdate => operation == PlanOperationV1::Install || operation
            == PlanOperationV1::Upgrade,
        ExecutionKind::FileRelocation => operation == PlanOperationV1::Upgrade,
        ExecutionKind::JsonRelocation => operation == PlanOperationV1::Upgrade,
        ExecutionKind::JsonMerge => operation == PlanOperationV1::Install || operation
            == PlanOperationV1::Upgrade,
        ExecutionKind::JsonRemoval => operation == PlanOperationV1::Uninstall || operation
            == PlanOperationV1::Upgrade,
        ExecutionKind::FileRemoval => operation == PlanOperationV1::Uninstall || operation
            == PlanOperationV1::Upgrade,
    }
}

/// Whether a removal overrides what a user changed.
pub open spec fn overrides_user(kind: ActionKindV1) -> bool {
    match kind {
        ActionKindV1::ForceRemoveManagedFile { .. } => true,
        ActionKindV1::RemoveManagedJson { receipt_managed_hash, current_managed_hash, .. } =>
            current_managed_hash != receipt_managed_hash,
        _ => false,
    }
}

/// Whether the plan describes the action.
pub open spec fn step_fits(
    kind: ExecutionKind,
    plan: PlanV1,
    action: DeclarativeActionV1,
) -> bool {
    let target = action.target@;
    let resource = action.resource@;
    match kind {
        ExecutionKind::FileCreation => plan.has_step(target, resource, PlanActionV1::Create),
        ExecutionKind::FileUpdate => plan.has_step(target, resource, PlanActionV1::Update),
        ExecutionKind::FileRelocation => plan.has_coded_step(
            target,
            resource,
            PlanActionV1::Update,
            "app_destination_relocated"@,
        ),
        ExecutionKind::JsonRelocation => plan.has_coded_step(
            target,
            resource,
            PlanActionV1::Update,
            "app_destination_relocated"@,
        ),
        ExecutionKind::JsonMerge => plan.has_step(target, resource, PlanActionV1::Create)
            || plan.has_step(target, resource, PlanActionV1::Update),
        ExecutionKind::JsonRemoval => plan_authorizes_removal(
            plan,
            action,
            overrides_user(action.kind),
        ),
        ExecutionKind::FileRemoval => plan_authorizes_removal(
            plan,
            action,
            overrides_user(action.kind),
        ),
    }
}

/// Whether the action is of the operation's kind and can be undone.
pub open spec fn is_reversible(kind: ExecutionKind, action: DeclarativeActionV1) -> bool {
    match kind {
        ExecutionKind::FileCreation => (action.kind is CreateManagedFile && action.rollback
            == RollbackSupportV1::RemoveCreatedIfUnchanged) || (
        action.kind is CreateManagedFileWithBackup && action.rollback
            == RollbackSupportV1::RestoreBackupIfUnchanged),
        ExecutionKind::FileUpdate => action.kind is UpdateManagedFile && action.rollback
            == RollbackSupportV1::RestorePreviousIfUnchanged,
        ExecutionKind::FileRelocation => action.kind is RelocateManagedFile && action.rollback
            == RollbackSupportV1::RestoreRelocatedPreviousIfUnchanged,
        ExecutionKind::JsonRelocation => action.kind is RelocateManagedJson && action.rollback
            == RollbackSupportV1::RestoreRelocatedJsonKeysIfUnchanged,
        ExecutionKind::JsonMerge => action.kind is MergeManagedJson && action.rollback
            == RollbackSupportV1::RestoreJsonKeysIfUnchanged,
        ExecutionKind::JsonRemoval => action.kind is RemoveManagedJson && action.rollback
            == RollbackSupportV1::RestoreRemovedJsonKeysIfUnchanged,
        ExecutionKind::FileRemoval => (action.kind is RemoveManagedFile && action.rollback
            == RollbackSupportV1::RestorePreviousIfUnchanged) || (
        action.kind is RemoveManagedFileWithBackup && action.rollback
            == RollbackSupportV1::RestorePreviousWithBackupIfUnchanged) || (
        action.kind is ForceRemoveManagedFile && action.rollback
            == RollbackSupportV1::RestoreForcedPreviousIfUnchanged),
    }
}

/// What holding an operation against its approval and its plan gives: the first
/// thing that does not fit.
pub open spec fn authorization(
    kind: ExecutionKind,
    context: RuntimeContext,
    plan: PlanV1,
    approval: PlanApprovalV1,
    ir: ActionIrV1,
) -> Result<(), ExecutionFault> {
    if approval.verdict(plan) is Err {
        Err(ExecutionFault::Approval { error: approval.verdict(plan)->Err_0 })
    } else if !operation_fits(kind, plan.operation) {
        Err(ExecutionFault::WrongOperation)
    } else if ir.verdict() is Err {
        Err(ExecutionFault::Actions { error: ir.verdict()->Err_0 })
    } else if !permissions_known(ir.actions@) {
        Err(ExecutionFault::PermissionsUnknown)
    } else if !all_permissions(context, ir.actions@).subset_of(approval.approved_permissions@) {
        Err(ExecutionFault::PermissionNotApproved)
    } else if ir.actions@.len() != 1 {
        Err(ExecutionFault::NotOneAction)
    } else if kind == ExecutionKind::JsonRemoval && !is_reversible(kind, ir.actions@[0]) {
        Err(ExecutionFault::NotReversible)
    } else if !step_fits(kind, plan, ir.actions@[0]) {
        Err(ExecutionFault::NotDescribed)
    } else if !is_reversible(kind, ir.actions@[0]) {
        Err(ExecutionFault::NotReversible)
    } else {
        Ok(())
    }
}

fn fits_operation(kind: ExecutionKind, operation: PlanOperationV1) -> (result: bool)
    ensures
        result == operation_fits(kind, operation),
{
    match kind {
        ExecutionKind::FileCreation => operation == PlanOperationV1::Install,
        ExecutionKind::FileUpdate => operation == PlanOperationV1::Install || operation
            == PlanOperationV1::Upgrade,
        ExecutionKind::FileRelocation => operation == PlanOperationV1::Upgrade,
        ExecutionKind::JsonRelocation => operation == PlanOperationV1::Upgrade,
        ExecutionKind::JsonMerge => operation == PlanOperationV1::Install || operation
            == PlanOperationV1::Upgrade,
        ExecutionKind::JsonRemoval => operation == PlanOperationV1::Uninstall || operation
            == PlanOperationV1::Upgrade,
        ExecutionKind::FileRemoval => operation == PlanOperationV1::Uninstall || operation
            == PlanOperationV1::Upgrade,
    }
}

/// Whether the removal overrides what a user changed.
pub fn is_forced(kind: &ActionKindV1) -> (result: bool)
    ensures
        result == overrides_user(*kind),
{
    match kind {
        ActionKindV1::ForceRemoveManagedFile { .. } => true,
        ActionKindV1::RemoveManagedJson { receipt_managed_hash, current_managed_hash, .. } =>
        *current_managed_hash != *receipt_managed_hash,
        _ => false,
    }
}

fn fits_step(kind: ExecutionKind, plan: &PlanV1, action: &DeclarativeActionV1) -> (result: bool)
    ensures
        result == step_fits(kind, *plan, *action),
{
    let target = action.target.as_str();
    let resource = action.resource.as_str();
    match kind {
        ExecutionKind::FileCreation => plan.describes_step(target, resource, PlanActionV1::Create),
        ExecutionKind::FileUpdate => plan.describes_step(target, resource, PlanActionV1::Update),
        ExecutionKind::FileRelocation => plan.describes_coded_step(
            target,
            resource,
            PlanActionV1::Update,
            "app_destination_relocated",
        ),
        ExecutionKind::JsonRelocation => plan.describes_coded_step(
            target,
            resource,
            PlanActionV1::Update,
            "app_destination_relocated",
        ),
        ExecutionKind::JsonMerge => plan.describes_step(target, resource, PlanActionV1::Create)
            || plan.describes_step(target, resource, PlanActionV1::Update),
        ExecutionKind::JsonRemoval => app_removal_plan_authorizes(
            plan,
            action,
            is_forced(&action.kind),
        ),
        ExecutionKind::FileRemoval => app_removal_plan_authorizes(
            plan,
            action,
            is_forced(&action.kind),
        ),
    }
}

fn can_be_undone(kind: ExecutionKind, action: &DeclarativeActionV1) -> (result: bool)
    ensures
        result == is_reversible(kind, *action),
{
    match (kind, &action.kind) {
        (ExecutionKind::FileCreation, ActionKindV1::CreateManagedFile { .. }) => action.rollback
            == RollbackSupportV1::RemoveCreatedIfUnchanged,
        (ExecutionKind::FileCreation, ActionKindV1::CreateManagedFileWithBackup { .. }) =>
        action.rollback == RollbackSupportV1::RestoreBackupIfUnchanged,
        (ExecutionKind::FileUpdate, ActionKindV1::UpdateManagedFile { .. }) => action.rollback
            == RollbackSupportV1::RestorePreviousIfUnchanged,
        (ExecutionKind::FileRelocation, ActionKindV1::RelocateManagedFile { .. }) =>
        action.rollback == RollbackSupportV1::RestoreRelocatedPreviousIfUnchanged,
        (ExecutionKind::JsonRelocation, ActionKindV1::RelocateManagedJson { .. }) =>
        action.rollback == RollbackSupportV1::RestoreRelocatedJsonKeysIfUnchanged,
        (ExecutionKind::JsonMerge, ActionKindV1::MergeManagedJson { .. }) => action.rollback
            == RollbackSupportV1::RestoreJsonKeysIfUnchanged,
        (ExecutionKind::JsonRemoval, ActionKindV1::RemoveManagedJson { .. }) => action.rollback
            == RollbackSupportV1::RestoreRemovedJsonKeysIfUnchanged,
        (ExecutionKind::FileRemoval, ActionKindV1::RemoveManagedFile { .. }) => action.rollback
            == RollbackSupportV1::RestorePreviousIfUnchanged,
        (ExecutionKind::FileRemoval, ActionKindV1::RemoveManagedFileWithBackup { .. }) =>
        action.rollback == RollbackSupportV1::RestorePreviousWithBackupIfUnchanged,
        (ExecutionKind::FileRemoval, ActionKindV1::ForceRemoveManagedFile { .. }) =>
        action.rollback == RollbackSupportV1::RestoreForcedPreviousIfUnchanged,
        _ => false,
    }
}

/// Holds an operation against its approval and its plan.
pub fn authorize_execution(
    kind: ExecutionKind,
    context: &RuntimeContext,
    plan: &PlanV1,
    approval: &PlanApprovalV1,
    ir: &ActionIrV1,
) -> (result: Result<(), ExecutionFault>)
    ensures
        result == authorization(kind, *context, *plan, *approval, *ir),
{
    if let Err(error) = approval.validate(plan) {
        return Err(ExecutionFault::Approval { error });
    }
    if !fits_operation(kind, plan.operation) {
        return Err(ExecutionFault::WrongOperation);
    }
    if let Err(error) = ir.validate() {
        return Err(ExecutionFault::Actions { error });
    }
    let requirements = ir.permission_requirements(context);
    if requirements.uncomputable_codes.len() > 0 {
        return Err(ExecutionFault::PermissionsUnknown);
    }
    if !requirements.required.is_covered_by(&approval.approved_permissions) {
        return Err(ExecutionFault::PermissionNotApproved);
    }
    if ir.actions.len() != 1 {
        return Err(ExecutionFault::NotOneAction);
    }
    let action = &ir.actions[0];
    if kind == ExecutionKind::JsonRemoval && !can_be_undone(kind, action) {
        return Err(ExecutionFault::NotReversible);
    }
    if !fits_step(kind, plan, action) {
        return Err(ExecutionFault::NotDescribed);
    }
    if !can_be_undone(kind, action) {
        return Err(ExecutionFault::NotReversible);
    }
    Ok(())
}

/// Whether the content to be written is the content that the action names.
pub open spec fn content_verdict(kind: ActionKindV1, content: Seq<u8>) -> Result<
    (),
    ExecutionFault,
> {
    match kind {
        ActionKindV1::CreateManagedFile { desired_hash, .. } => file_verdict(content, desired_hash),
        ActionKindV1::CreateManagedFileWithBackup { desired_hash, .. } => file_verdict(
            content,
            desired_hash,
        ),
        ActionKindV1::UpdateManagedFile { desired_hash, .. } => file_verdict(content, desired_hash),
        ActionKindV1::RelocateManagedFile { desired_hash, .. } => file_verdict(
            content,
            desired_hash,
        ),
        ActionKindV1::RelocateManagedJson { desired_managed_hash, desired_managed_keys, .. } =>
            keys_verdict(content, desired_managed_hash, texts(desired_managed_keys@)),
        ActionKindV1::MergeManagedJson { desired_managed_hash, managed_keys, .. } => keys_verdict(
            content,
            desired_managed_hash,
            texts(managed_keys@),
        ),
        _ => Ok(()),
    }
}

/// Whether content is the one with this identity.
pub open spec fn file_verdict(content: Seq<u8>, hash: u64) -> Result<(), ExecutionFault> {
    if content_hash(content) == hash {
        Ok(())
    } else {
        Err(ExecutionFault::ContentMismatch)
    }
}

/// Whether the managed keys of a source are the ones with this identity.
pub open spec fn keys_verdict(content: Seq<u8>, hash: u64, keys: Seq<Seq<char>>) -> Result<
    (),
    ExecutionFault,
> {
    match desired_json_hash(content, keys) {
        Err(fault) => Err(ExecutionFault::Json { fault }),
        Ok(found) => if found == hash {
            Ok(())
        } else {
            Err(ExecutionFault::ContentMismatch)
        },
    }
}

fn check_file(content: &[u8], hash: u64) -> (result: Result<(), ExecutionFault>)
    ensures
        result == file_verdict(content@, hash),
{
    if hash_content(content) == hash {
        Ok(())
    } else {
        Err(ExecutionFault::ContentMismatch)
    }
}

fn check_keys(content: &[u8], hash: u64, keys: &Vec<String>) -> (result: Result<(), ExecutionFault>)
    ensures
        result == keys_verdict(content@, hash, texts(keys@)),
{
    match managed_json_hash(content, keys.as_slice()) {
        Err(fault) => Err(ExecutionFault::Json { fault }),
        Ok(found) => if found == hash {
            Ok(())
        } else {
            Err(ExecutionFault::ContentMismatch)
        },
    }
}

/// Whether the content to be written is the content that the action names.
pub fn check_content(kind: &ActionKindV1, content: &[u8]) -> (result: Result<(), ExecutionFault>)
    ensures
        result == content_verdict(*kind, content@),
{
    match kind {
        ActionKindV1::CreateManagedFile { desired_hash, .. } => check_file(content, *desired_hash),
        ActionKindV1::CreateManagedFileWithBackup { desired_hash, .. } => check_file(
            content,
            *desired_hash,
        ),
        ActionKindV1::UpdateManagedFile { desired_hash, .. } => check_file(content, *desired_hash),
        ActionKindV1::RelocateManagedFile { desired_hash, .. } => check_file(
            content,
            *desired_hash,
        ),
        ActionKindV1::RelocateManagedJson { desired_managed_hash, desired_managed_keys, .. } =>
        check_keys(content, *desired_managed_hash, desired_managed_keys),
        ActionKindV1::MergeManagedJson { desired_managed_hash, managed_keys, .. } => check_keys(
            content,
            *desired_managed_hash,
            managed_keys,
        ),
        _ => Ok(()),
    }
}

/// Something that must hold at a path before anything is changed.
#[derive(Clone, Copy, Debug, PartialEq, Eq, Structural)]
pub enum Guard {
    /// Nothing can be read there.
    Unread { role: PathRole },
    /// Nothing is there, and no receipt claims it.
    Absent { role: PathRole, claimed: bool },
    /// A regular file with this content is there, with this mode where the mode
    /// counts, and with this identity of its managed keys where they count.
    Regular {
        role: PathRole,
        counts_mode: bool,
        mode: Option<u32>,
        hash: Option<u64>,
        managed_hash: Option<u64>,
    },
    /// The operation is refused at this point.
    Refuse { fault: ExecutionFault },
}

/// A regular file with exactly this content and mode.
pub open spec fn exact_file(role: PathRole, mode: Option<u32>, hash: u64) -> Guard {
    Guard::Regular { role, counts_mode: true, mode, hash: Some(hash), managed_hash: None }
}

/// What must hold of the paths of an action before it is carried out, in the
/// order in which it is looked at; the fault where the receipts already refuse it.
pub open spec fn guards_of(entries: Seq<AppEntryView>, action: DeclarativeActionV1) -> Result<
    Seq<Guard>,
    ExecutionFault,
> {
    let source_owned = entry_of_source(entries, action.source()) is Some;
    let previous = previous_receipt_matches(entries, action);
    match action.kind {
        ActionKindV1::CreateManagedFile { destination, .. } => if source_owned || owns(
            entries,
            destination@,
        ) {
            Err(ExecutionFault::Owned)
        } else {
            Ok(seq![Guard::Unread { role: PathRole::Destination }])
        },
        ActionKindV1::CreateManagedFileWithBackup { destination, backup, original_hash, .. } =>
        if source_owned || owns(entries, destination@) {
            Err(ExecutionFault::Owned)
        } else if !is_backup_of(backup@, destination@) {
            Err(ExecutionFault::BackupNonCanonical)
        } else {
            Ok(
                seq![
                    Guard::Regular {
                        role: PathRole::Destination,
                        counts_mode: false,
                        mode: None,
                        hash: Some(original_hash),
                        managed_hash: None,
                    },
                    Guard::Absent { role: PathRole::Backup, claimed: owns(entries, backup@) },
                ],
            )
        },
        ActionKindV1::UpdateManagedFile {
            destination,
            rollback,
            previous_backup,
            original_mode,
            original_hash,
            ..
        } => if !previous {
            Err(ExecutionFault::PreviousReceiptMissing)
        } else if (previous_backup is Some && same_path(previous_backup->0@, rollback@))
            || !is_rollback_of(rollback@, destination@) {
            Err(ExecutionFault::NonCanonicalPath)
        } else {
            Ok(
                seq![
                    exact_file(PathRole::Destination, original_mode, original_hash),
                    Guard::Absent { role: PathRole::Rollback, claimed: owns(entries, rollback@) },
                ],
            )
        },
        ActionKindV1::RelocateManagedFile {
            previous_destination,
            previous_backup,
            previous_rollback,
            desired_destination,
            previous_present,
            previous_mode,
            previous_hash,
            ..
        } => if !previous {
            Err(ExecutionFault::PreviousReceiptMissing)
        } else if receipt_conflicts(entries, action) {
            Err(ExecutionFault::ConflictingReceipt)
        } else {
            let places = seq![
                Guard::Absent {
                    role: PathRole::PreviousRollback,
                    claimed: !is_rollback_of(previous_rollback@, previous_destination@) || owns(
                        entries,
                        previous_rollback@,
                    ),
                },
                Guard::Absent {
                    role: PathRole::DesiredDestination,
                    claimed: owns(entries, desired_destination@),
                },
                if previous_present {
                    exact_file(PathRole::PreviousDestination, previous_mode, previous_hash)
                } else {
                    Guard::Absent { role: PathRole::PreviousDestination, claimed: false }
                },
            ];
            match previous_backup {
                None => Ok(places),
                Some(backup) => if !previous_present || !is_backup_of(
                    backup.path@,
                    previous_destination@,
                ) {
                    Ok(places.push(Guard::Refuse { fault: ExecutionFault::BackupNonCanonical }))
                } else {
                    Ok(places.push(exact_file(PathRole::PreviousBackup, backup.mode, backup.hash)))
                },
            }
        },
        ActionKindV1::RelocateManagedJson {
            previous_destination,
            previous_rollback,
            desired_destination,
            previous_present,
            previous_mode,
            previous_original_hash,
            previous_receipt_hash,
            ..
        } => if !previous {
            Err(ExecutionFault::PreviousReceiptMissing)
        } else if receipt_conflicts(entries, action) {
            Err(ExecutionFault::ConflictingReceipt)
        } else {
            Ok(
                seq![
                    Guard::Absent {
                        role: PathRole::PreviousRollback,
                        claimed: !is_rollback_of(previous_rollback@, previous_destination@)
                            || owns(entries, previous_rollback@),
                    },
                    Guard::Absent {
                        role: PathRole::DesiredDestination,
                        claimed: owns(entries, desired_destination@),
                    },
                    if previous_present {
                        Guard::Regular {
                            role: PathRole::PreviousDestination,
                            counts_mode: true,
                            mode: previous_mode,
                            hash: previous_original_hash,
                            managed_hash: Some(previous_receipt_hash),
                        }
                    } else {
                        Guard::Absent {
                            role: PathRole::PreviousDestination,
                            claimed: previous_original_hash is Some || previous_mode is Some,
                        }
                    },
                ],
            )
        },
        ActionKindV1::MergeManagedJson {
            destination,
            rollback,
            original_mode,
            original_hash,
            previous_receipt_hash,
            ..
        } => if previous_receipt_hash is Some && !previous {
            Err(ExecutionFault::PreviousReceiptMissing)
        } else if previous_receipt_hash is None && (source_owned || owns(entries, destination@)) {
            Err(ExecutionFault::Owned)
        } else {
            Ok(
                seq![
                    Guard::Absent {
                        role: PathRole::Rollback,
                        claimed: !is_rollback_of(rollback@, destination@) || owns(
                            entries,
                            rollback@,
                        ),
                    },
                    match original_hash {
                        Some(hash) => exact_file(PathRole::Destination, original_mode, hash),
                        None => Guard::Absent { role: PathRole::Destination, claimed: false },
                    },
                ],
            )
        },
        ActionKindV1::RemoveManagedJson {
            destination,
            rollback,
            original_mode,
            original_hash,
            current_managed_hash,
            ..
        } => if !previous {
            Err(ExecutionFault::PreviousReceiptMissing)
        } else {
            Ok(
                seq![
                    Guard::Absent {
                        role: PathRole::Rollback,
                        claimed: !is_rollback_of(rollback@, destination@) || owns(
                            entries,
                            rollback@,
                        ),
                    },
                    Guard::Regular {
                        role: PathRole::Destination,
                        counts_mode: true,
                        mode: original_mode,
                        hash: Some(original_hash),
                        managed_hash: Some(current_managed_hash),
                    },
                ],
            )
        },
        ActionKindV1::RemoveManagedFile {
            destination,
            rollback,
            original_mode,
            original_hash,
            ..
        } => if !previous {
            Err(ExecutionFault::PreviousReceiptMissing)
        } else if !is_rollback_of(rollback@, destination@) {
            Err(ExecutionFault::NonCanonicalPath)
        } else {
            Ok(
                seq![
                    exact_file(PathRole::Destination, original_mode, original_hash),
                    Guard::Absent { role: PathRole::Rollback, claimed: owns(entries, rollback@) },
                ],
            )
        },
        ActionKindV1::RemoveManagedFileWithBackup {
            destination,
            backup,
            rollback,
            managed_mode,
            managed_hash,
            backup_mode,
            backup_hash,
            ..
        } => if !previous {
            Err(ExecutionFault::PreviousReceiptMissing)
        } else if !is_rollback_of(rollback@, destination@) {
            Err(ExecutionFault::NonCanonicalPath)
        } else {
            Ok(
                seq![
                    exact_file(PathRole::Destination, managed_mode, managed_hash),
                    Guard::Absent { role: PathRole::Rollback, claimed: owns(entries, rollback@) },
                    if is_backup_of(backup@, destination@) {
                        exact_file(PathRole::Backup, backup_mode, backup_hash)
                    } else {
                        Guard::Refuse { fault: ExecutionFault::BackupNonCanonical }
                    },
                ],
            )
        },
        ActionKindV1::ForceRemoveManagedFile {
            destination,
            persistent_backup,
            rollback,
            current_mode,
            current_hash,
            ..
        } => if !previous {
            Err(ExecutionFault::PreviousReceiptMissing)
        } else if !is_rollback_of(rollback@, destination@) {
            Err(ExecutionFault::NonCanonicalPath)
        } else {
            let places = seq![
                exact_file(PathRole::Destination, current_mode, current_hash),
                Guard::Absent { role: PathRole::Rollback, claimed: owns(entries, rollback@) },
            ];
            match persistent_backup {
                None => Ok(places),
                Some(backup) => Ok(
                    places.push(
                        if is_backup_of(backup.path@, destination@) {
                            exact_file(PathRole::Backup, backup.mode, backup.hash)
                        } else {
                            Guard::Refuse { fault: ExecutionFault::BackupNonCanonical }
                        },
                    ),
                ),
            }
        },
        ActionKindV1::Foreign(_) => Err(ExecutionFault::NotReversible),
    }
}

fn guard_file(role: PathRole, mode: Option<u32>, hash: u64) -> (guard: Guard)
    ensures
        guard == exact_file(role, mode, hash),
{
    Guard::Regular { role, counts_mode: true, mode, hash: Some(hash), managed_hash: None }
}

fn guard_backup(destination: &str, path: &str, role: PathRole, mode: Option<u32>, hash: u64) -> (
    guard: Guard)
    ensures
        guard == if is_backup_of(path@, destination@) {
            exact_file(role, mode, hash)
        } else {
            Guard::Refuse { fault: ExecutionFault::BackupNonCanonical }
        },
{
    if backup_belongs(path, destination) {
        guard_file(role, mode, hash)
    } else {
        Guard::Refuse { fault: ExecutionFault::BackupNonCanonical }
    }
}

fn guard_rollback(manifest: &AppManifest, destination: &str, rollback: &str, role: PathRole) -> (
    guard: Guard)
    ensures
        guard == (Guard::Absent {
            role,
            claimed: !is_rollback_of(rollback@, destination@) || owns(manifest@, rollback@),
        }),
{
    let claimed = !rollback_belongs(rollback, destination) || manifest.owns_destination(rollback);
    Guard::Absent { role, claimed }
}

/// What must hold of the paths of the action before it is carried out.
pub fn execution_guards(manifest: &AppManifest, action: &DeclarativeActionV1) -> (result: Result<
    Vec<Guard>,
    ExecutionFault,
>)
    ensures
        match guards_of(manifest@, *action) {
            Ok(guards) => result is Ok && result->Ok_0@ == guards,
            Err(fault) => result is Err && result->Err_0 == fault,
        },
{
    let source = action_source_identity(action);
    let source_owned = manifest.find_by_source(source.as_str()).is_some();
    let previous = matching_previous_app_receipt(manifest, action);
    let mut guards: Vec<Guard> = Vec::new();
    match &action.kind {
        ActionKindV1::CreateManagedFile { destination, .. } => {
            if source_owned || manifest.owns_destination(destination.as_str()) {
                return Err(ExecutionFault::Owned);
            }
            guards.push(Guard::Unread { role: PathRole::Destination });
        },
        ActionKindV1::CreateManagedFileWithBackup { destination, backup, original_hash, .. } => {
            if source_owned || manifest.owns_destination(destination.as_str()) {
                return Err(ExecutionFault::Owned);
            }
            if !backup_belongs(backup.as_str(), destination.as_str()) {
                return Err(ExecutionFault::BackupNonCanonical);
            }
            guards.push(
                Guard::Regular {
                    role: PathRole::Destination,
                    counts_mode: false,
                    mode: None,
                    hash: Some(*original_hash),
                    managed_hash: None,
                },
            );
            let claimed = manifest.owns_destination(backup.as_str());
            guards.push(Guard::Absent { role: PathRole::Backup, claimed });
        },
        ActionKindV1::UpdateManagedFile {
            destination,
            rollback,
            previous_backup,
            original_mode,
            original_hash,
            ..
        } => {
            if !previous {
                return Err(ExecutionFault::PreviousReceiptMissing);
            }
            let collides = match previous_backup {
                Some(backup) => paths_match(backup.as_str(), rollback.as_str()),
                None => false,
            };
            if collides || !rollback_belongs(rollback.as_str(), destination.as_str()) {
                return Err(ExecutionFault::NonCanonicalPath);
            }
            guards.push(guard_file(PathRole::Destination, *original_mode, *original_hash));
            let claimed = manifest.owns_destination(rollback.as_str());
            guards.push(Guard::Absent { role: PathRole::Rollback, claimed });
        },
        ActionKindV1::RelocateManagedFile {
            previous_destination,
            previous_backup,
            previous_rollback,
            desired_destination,
            previous_present,
            previous_mode,
            previous_hash,
            ..
        } => {
            if !previous {
                return Err(ExecutionFault::PreviousReceiptMissing);
            }
            if conflicting_app_receipt(manifest, action) {
                return Err(ExecutionFault::ConflictingReceipt);
            }
            guards.push(
                guard_rollback(
                    manifest,
                    previous_destination.as_str(),
                    previous_rollback.as_str(),
                    PathRole::PreviousRollback,
                ),
            );
            let claimed = manifest.owns_destination(desired_destination.as_str());
            guards.push(Guard::Absent { role: PathRole::DesiredDestination, claimed });
            if *previous_present {
                guards.push(
                    guard_file(PathRole::PreviousDestination, *previous_mode, *previous_hash),
                );
            } else {
                guards.push(Guard::Absent { role: PathRole::PreviousDestination, claimed: false });
            }
            if let Some(backup) = previous_backup {
                if !*previous_present {
                    guards.push(Guard::Refuse { fault: ExecutionFault::BackupNonCanonical });
                } else {
                    guards.push(
                        guard_backup(
                            previous_destination.as_str(),
                            backup.path.as_str(),
                            PathRole::PreviousBackup,
                            backup.mode,
                            backup.hash,
                        ),
                    );
                }
            }
        },
        ActionKindV1::RelocateManagedJson {
            previous_destination,
            previous_rollback,
            desired_destination,
            previous_present,
            previous_mode,
            previous_original_hash,
            previous_receipt_hash,
            ..
        } => {
            if !previous {
                return Err(ExecutionFault::PreviousReceiptMissing);
            }
            if conflicting_app_receipt(manifest, action) {
                return Err(ExecutionFault::ConflictingReceipt);
            }
            guards.push(
                guard_rollback(
                    manifest,
                    previous_destination.as_str(),
                    previous_rollback.as_str(),
                    PathRole::PreviousRollback,
                ),
            );
            let claimed = manifest.owns_destination(desired_destination.as_str());
            guards.push(Guard::Absent { role: PathRole::DesiredDestination, claimed });
            if *previous_present {
                guards.push(
                    Guard::Regular {
                        role: PathRole::PreviousDestination,
                        counts_mode: true,
                        mode: *previous_mode,
                        hash: *previous_original_hash,
                        managed_hash: Some(*previous_receipt_hash),
                    },
                );
            } else {
                let claimed = previous_original_hash.is_some() || previous_mode.is_some();
                guards.push(Guard::Absent { role: PathRole::PreviousDestination, claimed });
            }
        },
        ActionKindV1::MergeManagedJson {
            destination,
            rollback,
            original_mode,
            original_hash,
            previous_receipt_hash,
            ..
        } => {
            if previous_receipt_hash.is_some() {
                if !previous {
                    return Err(ExecutionFault::PreviousReceiptMissing);
                }
            } else if source_owned || manifest.owns_destination(destination.as_str()) {
                return Err(ExecutionFault::Owned);
            }
            guards.push(
                guard_rollback(
                    manifest,
                    destination.as_str(),
                    rollback.as_str(),
                    PathRole::Rollback,
                ),
            );
            match original_hash {
                Some(hash) => {
                    guards.push(guard_file(PathRole::Destination, *original_mode, *hash));
                },
                None => {
                    guards.push(Guard::Absent { role: PathRole::Destination, claimed: false });
                },
            }
        },
        ActionKindV1::RemoveManagedJson {
            destination,
            rollback,
            original_mode,
            original_hash,
            current_managed_hash,
            ..
        } => {
            if !previous {
                return Err(ExecutionFault::PreviousReceiptMissing);
            }
            guards.push(
                guard_rollback(
                    manifest,
                    destination.as_str(),
                    rollback.as_str(),
                    PathRole::Rollback,
                ),
            );
            guards.push(
                Guard::Regular {
                    role: PathRole::Destination,
                    counts_mode: true,
                    mode: *original_mode,
                    hash: Some(*original_hash),
                    managed_hash: Some(*current_managed_hash),
                },
            );
        },
        ActionKindV1::RemoveManagedFile {
            destination,
            rollback,
            original_mode,
            original_hash,
            ..
        } => {
            if !previous {
                return Err(ExecutionFault::PreviousReceiptMissing);
            }
            if !rollback_belongs(rollback.as_str(), destination.as_str()) {
                return Err(ExecutionFault::NonCanonicalPath);
            }
            guards.push(guard_file(PathRole::Destination, *original_mode, *original_hash));
            let claimed = manifest.owns_destination(rollback.as_str());
            guards.push(Guard::Absent { role: PathRole::Rollback, claimed });
        },
        ActionKindV1::RemoveManagedFileWithBackup {
            destination,
            backup,
            rollback,
            managed_mode,
            managed_hash,
            backup_mode,
            backup_hash,
            ..
        } => {
            if !previous {
                return Err(ExecutionFault::PreviousReceiptMissing);
            }
            if !rollback_belongs(rollback.as_str(), destination.as_str()) {
                return Err(ExecutionFault::NonCanonicalPath);
            }
            guards.push(guard_file(PathRole::Destination, *managed_mode, *managed_hash));
            let claimed = manifest.owns_destination(rollback.as_str());
            guards.push(Guard::Absent { role: PathRole::Rollback, claimed });
            guards.push(
                guard_backup(
                    destination.as_str(),
                    backup.as_str(),
                    PathRole::Backup,
                    *backup_mode,
                    *backup_hash,
                ),
            );
        },
        ActionKindV1::ForceRemoveManagedFile {
            destination,
            persistent_backup,
            rollback,
            current_mode,
            current_hash,
            ..
        } => {
            if !previous {
                return Err(ExecutionFault::PreviousReceiptMissing);
            }
            if !rollback_belongs(rollback.as_str(), destination.as_str()) {
                return Err(ExecutionFault::NonCanonicalPath);
            }
            guards.push(guard_file(PathRole::Destination, *current_mode, *current_hash));
            let claimed = manifest.owns_destination(rollback.as_str());
            guards.push(Guard::Absent { role: PathRole::Rollback, claimed });
            if let Some(backup) = persistent_backup {
                guards.push(
                    guard_backup(
                        destination.as_str(),
                        backup.path.as_str(),
                        PathRole::Backup,
                        backup.mode,
                        backup.hash,
                    ),
                );
            }
        },
        ActionKindV1::Foreign(_) => {
            return Err(ExecutionFault::NotReversible);
        },
    }
    proof {
        assert(guards@ =~= guards_of(manifest@, *action)->Ok_0);
    }
    Ok(guards)
}

/// Whether a part is a kept backup.
pub open spec fn is_backup_role(role: PathRole) -> bool {
    role == PathRole::Backup || role == PathRole::PreviousBackup
}

/// The fault of something standing where nothing may stand.
pub open spec fn presence_fault(role: PathRole) -> ExecutionFault {
    match role {
        PathRole::Destination => ExecutionFault::DestinationPresent,
        PathRole::Backup => ExecutionFault::BackupPresent,
        PathRole::Rollback => ExecutionFault::RollbackPresent,
        PathRole::PreviousRollback => ExecutionFault::RollbackPresent,
        PathRole::DesiredDestination => ExecutionFault::DesiredPresent,
        PathRole::PreviousDestination => ExecutionFault::SourceAppeared,
        PathRole::PreviousBackup => ExecutionFault::BackupPresent,
    }
}

/// The managed keys that stand where an operation starts from.
pub open spec fn starting_keys(kind: ActionKindV1) -> Seq<Seq<char>> {
    match kind {
        ActionKindV1::RelocateManagedJson { previous_managed_keys, .. } => texts(
            previous_managed_keys@,
        ),
        ActionKindV1::RemoveManagedJson { managed_keys, .. } => texts(managed_keys@),
        _ => Seq::empty(),
    }
}

/// What holding a guard against what was found gives.
pub open spec fn guard_verdict(kind: ActionKindV1, guard: Guard, file: FileView) -> Result<
    (),
    ExecutionFault,
> {
    match guard {
        Guard::Unread { role } => if file is Missing {
            Ok(())
        } else {
            Err(presence_fault(role))
        },
        Guard::Absent { role, claimed } => if file is Missing && !claimed {
            Ok(())
        } else {
            Err(presence_fault(role))
        },
        Guard::Refuse { fault } => Err(fault),
        Guard::Regular { role, counts_mode, mode, hash, managed_hash } => match file {
            FileView::Missing => Err(
                if is_backup_role(role) {
                    ExecutionFault::BackupUninspectable
                } else {
                    ExecutionFault::Uninspectable
                },
            ),
            FileView::Other { .. } => Err(
                if is_backup_role(role) {
                    ExecutionFault::BackupNotRegular
                } else {
                    ExecutionFault::NotRegular
                },
            ),
            FileView::Regular { content, mode: found } => if counts_mode && found != mode {
                Err(
                    if is_backup_role(role) {
                        ExecutionFault::BackupModeChanged
                    } else {
                        ExecutionFault::ModeChanged
                    },
                )
            } else if Some(content_hash(content)) != hash {
                Err(
                    if is_backup_role(role) {
                        ExecutionFault::BackupChanged
                    } else {
                        ExecutionFault::Changed
                    },
                )
            } else {
                match managed_hash {
                    None => Ok(()),
                    Some(expected) => match current_json_hash(content, starting_keys(kind)) {
                        Err(fault) => Err(ExecutionFault::Json { fault }),
                        Ok(current) => if current == Some(expected) {
                            Ok(())
                        } else {
                            Err(ExecutionFault::Changed)
                        },
                    },
                }
            },
        },
    }
}

fn fault_of_presence(role: PathRole) -> (fault: ExecutionFault)
    ensures
        fault == presence_fault(role),
{
    match role {
        PathRole::Destination => ExecutionFault::DestinationPresent,
        PathRole::Backup => ExecutionFault::BackupPresent,
        PathRole::Rollback => ExecutionFault::RollbackPresent,
        PathRole::PreviousRollback => ExecutionFault::RollbackPresent,
        PathRole::DesiredDestination => ExecutionFault::DesiredPresent,
        PathRole::PreviousDestination => ExecutionFault::SourceAppeared,
        PathRole::PreviousBackup => ExecutionFault::BackupPresent,
    }
}

fn starting_hash(kind: &ActionKindV1, content: &[u8]) -> (result: Result<Option<u64>, JsonFault>)
    ensures
        result == current_json_hash(content@, starting_keys(*kind)),
{
    match kind {
        ActionKindV1::RelocateManagedJson { previous_managed_keys, .. } => installed_json_hash(
            content,
            previous_managed_keys.as_slice(),
        ),
        ActionKindV1::RemoveManagedJson { managed_keys, .. } => installed_json_hash(
            content,
            managed_keys.as_slice(),
        ),
        _ => {
            let none: Vec<String> = Vec::new();
            proof {
                assert(texts(none@) =~= Seq::<Seq<char>>::empty());
            }
            installed_json_hash(content, none.as_slice())
        },
    }
}

/// Holds a guard against what was found at its path.
pub fn check_guard(kind: &ActionKindV1, guard: Guard, file: &RecoveryFileObservation) -> (result:
    Result<(), ExecutionFault>)
    ensures
        result == guard_verdict(*kind, guard, file@),
{
    match guard {
        Guard::Unread { role } => if file.is_missing() {
            Ok(())
        } else {
            Err(fault_of_presence(role))
        },
        Guard::Absent { role, claimed } => if file.is_missing() && !claimed {
            Ok(())
        } else {
            Err(fault_of_presence(role))
        },
        Guard::Refuse { fault } => Err(fault),
        Guard::Regular { role, counts_mode, mode, hash, managed_hash } => {
            let backup = role == PathRole::Backup || role == PathRole::PreviousBackup;
            match file {
                RecoveryFileObservation::Missing => Err(
                    if backup {
                        ExecutionFault::BackupUninspectable
                    } else {
                        ExecutionFault::Uninspectable
                    },
                ),
                RecoveryFileObservation::Other(_) => Err(
                    if backup {
                        ExecutionFault::BackupNotRegular
                    } else {
                        ExecutionFault::NotRegular
                    },
                ),
                RecoveryFileObservation::Regular(content, found) => {
                    if counts_mode && !crate::recovery::recovery_mode_matches(*found, mode) {
                        return Err(
                            if backup {
                                ExecutionFault::BackupModeChanged
                            } else {
                                ExecutionFault::ModeChanged
                            },
                        );
                    }
                    let same = match hash {
                        Some(hash) => hash_content(content.as_slice()) == hash,
                        None => false,
                    };
                    if !same {
                        return Err(
                            if backup {
                                ExecutionFault::BackupChanged
                            } else {
                                ExecutionFault::Changed
                            },
                        );
                    }
                    match managed_hash {
                        None => Ok(()),
                        Some(expected) => match starting_hash(kind, content.as_slice()) {
                            Err(fault) => Err(ExecutionFault::Json { fault }),
                            Ok(current) => if current == Some(expected) {
                                Ok(())
                            } else {
                                Err(ExecutionFault::Changed)
                            },
                        },
                    }
                },
            }
        },
    }
}

/// One change of an operation.
#[derive(Clone, Copy, Debug, PartialEq, Eq, Structural)]
pub enum ExecutionChange {
    /// Move a file.
    Move { from: PathRole, to: PathRole, privileged: bool },
    /// Write the content that the operation brings.
    Write { role: PathRole, privileged: bool },
    /// Write what is left of an object without its managed keys.
    WriteRemaining { role: PathRole },
    /// Give a file the mode that it had before.
    SetMode { role: PathRole, mode: u32, privileged: bool },
}

/// Keeping a mode that is known.
pub open spec fn keep_mode(role: PathRole, mode: Option<u32>, privileged: bool) -> Seq<
    ExecutionChange,
> {
    match mode {
        Some(mode) => seq![ExecutionChange::SetMode { role, mode, privileged }],
        None => Seq::empty(),
    }
}

/// The changes that carry an action out, in order.
pub open spec fn changes_of(kind: ActionKindV1) -> Seq<ExecutionChange> {
    match kind {
        ActionKindV1::CreateManagedFile { requires_admin, .. } => seq![
            ExecutionChange::Write { role: PathRole::Destination, privileged: requires_admin },
        ],
        ActionKindV1::CreateManagedFileWithBackup { requires_admin, .. } => seq![
            ExecutionChange::Move {
                from: PathRole::Destination,
                to: PathRole::Backup,
                privileged: requires_admin,
            },
            ExecutionChange::Write { role: PathRole::Destination, privileged: requires_admin },
        ],
        ActionKindV1::UpdateManagedFile { original_mode, requires_admin, .. } => seq![
            ExecutionChange::Move {
                from: PathRole::Destination,
                to: PathRole::Rollback,
                privileged: requires_admin,
            },
            ExecutionChange::Write { role: PathRole::Destination, privileged: requires_admin },
        ] + keep_mode(PathRole::Destination, original_mode, requires_admin),
        ActionKindV1::RelocateManagedFile {
            previous_backup,
            previous_present,
            previous_requires_admin,
            desired_requires_admin,
            ..
        } => {
            let staged = if previous_present {
                seq![
                    ExecutionChange::Move {
                        from: PathRole::PreviousDestination,
                        to: PathRole::PreviousRollback,
                        privileged: previous_requires_admin,
                    },
                ]
            } else {
                Seq::empty()
            };
            let returned = if previous_backup is Some {
                seq![
                    ExecutionChange::Move {
                        from: PathRole::PreviousBackup,
                        to: PathRole::PreviousDestination,
                        privileged: previous_requires_admin,
                    },
                ]
            } else {
                Seq::empty()
            };
            staged + returned + seq![
                ExecutionChange::Write {
                    role: PathRole::DesiredDestination,
                    privileged: desired_requires_admin,
                },
            ]
        },
        ActionKindV1::RelocateManagedJson { previous_present, previous_mode, .. } => {
            let staged = if previous_present {
                seq![
                    ExecutionChange::Move {
                        from: PathRole::PreviousDestination,
                        to: PathRole::PreviousRollback,
                        privileged: false,
                    },
                    ExecutionChange::WriteRemaining { role: PathRole::PreviousDestination },
                ] + keep_mode(PathRole::PreviousDestination, previous_mode, false)
            } else {
                Seq::empty()
            };
            staged + seq![
                ExecutionChange::Write { role: PathRole::DesiredDestination, privileged: false },
            ]
        },
        ActionKindV1::RemoveManagedFile { requires_admin, .. } => seq![
            ExecutionChange::Move {
                from: PathRole::Destination,
                to: PathRole::Rollback,
                privileged: requires_admin,
            },
        ],
        ActionKindV1::RemoveManagedFileWithBackup { requires_admin, .. } => seq![
            ExecutionChange::Move {
                from: PathRole::Destination,
                to: PathRole::Rollback,
                privileged: requires_admin,
            },
            ExecutionChange::Move {
                from: PathRole::Backup,
                to: PathRole::Destination,
                privileged: requires_admin,
            },
        ],
        ActionKindV1::ForceRemoveManagedFile { persistent_backup, requires_admin, .. } => {
            let staged = seq![
                ExecutionChange::Move {
                    from: PathRole::Destination,
                    to: PathRole::Rollback,
                    privileged: requires_admin,
                },
            ];
            if persistent_backup is Some {
                staged.push(
                    ExecutionChange::Move {
                        from: PathRole::Backup,
                        to: PathRole::Destination,
                        privileged: requires_admin,
                    },
                )
            } else {
                staged
            }
        },
        ActionKindV1::MergeManagedJson { original_mode, original_hash, .. } => {
            let staged = if original_hash is Some {
                seq![
                    ExecutionChange::Move {
                        from: PathRole::Destination,
                        to: PathRole::Rollback,
                        privileged: false,
                    },
                ]
            } else {
                Seq::empty()
            };
            staged + seq![
                ExecutionChange::Write { role: PathRole::Destination, privileged: false },
            ] + keep_mode(PathRole::Destination, original_mode, false)
        },
        ActionKindV1::RemoveManagedJson { original_mode, .. } => seq![
            ExecutionChange::Move {
                from: PathRole::Destination,
                to: PathRole::Rollback,
                privileged: false,
            },
            ExecutionChange::WriteRemaining { role: PathRole::Destination },
        ] + keep_mode(PathRole::Destination, original_mode, false),
        ActionKindV1::Foreign(_) => Seq::empty(),
    }
}

/// The changes that carry the action out, in order.
pub fn execution_changes(kind: &ActionKindV1) -> (changes: Vec<ExecutionChange>)
    ensures
        changes@ == changes_of(*kind),
{
    let mut changes: Vec<ExecutionChange> = Vec::new();
    match kind {
        ActionKindV1::CreateManagedFile { requires_admin, .. } => {
            changes.push(
                ExecutionChange::Write { role: PathRole::Destination, privileged: *requires_admin },
            );
        },
        ActionKindV1::CreateManagedFileWithBackup { requires_admin, .. } => {
            changes.push(
                ExecutionChange::Move {
                    from: PathRole::Destination,
                    to: PathRole::Backup,
                    privileged: *requires_admin,
                },
            );
            changes.push(
                ExecutionChange::Write { role: PathRole::Destination, privileged: *requires_admin },
            );
        },
        ActionKindV1::UpdateManagedFile { original_mode, requires_admin, .. } => {
            changes.push(
                ExecutionChange::Move {
                    from: PathRole::Destination,
                    to: PathRole::Rollback,
                    privileged: *requires_admin,
                },
            );
            changes.push(
                ExecutionChange::Write { role: PathRole::Destination, privileged: *requires_admin },
            );
            if let Some(mode) = original_mode {
                changes.push(
                    ExecutionChange::SetMode {
                        role: PathRole::Destination,
                        mode: *mode,
                        privileged: *requires_admin,
                    },
                );
            }
        },
        ActionKindV1::RelocateManagedFile {
            previous_backup,
            previous_present,
            previous_requires_admin,
            desired_requires_admin,
            ..
        } => {
            if *previous_present {
                changes.push(
                    ExecutionChange::Move {
                        from: PathRole::PreviousDestination,
                        to: PathRole::PreviousRollback,
                        privileged: *previous_requires_admin,
                    },
                );
            }
            if previous_backup.is_some() {
                changes.push(
                    ExecutionChange::Move {
                        from: PathRole::PreviousBackup,
                        to: PathRole::PreviousDestination,
                        privileged: *previous_requires_admin,
                    },
                );
            }
            changes.push(
                ExecutionChange::Write {
                    role: PathRole::DesiredDestination,
                    privileged: *desired_requires_admin,
                },
            );
        },
        ActionKindV1::RelocateManagedJson { previous_present, previous_mode, .. } => {
            if *previous_present {
                changes.push(
                    ExecutionChange::Move {
                        from: PathRole::PreviousDestination,
                        to: PathRole::PreviousRollback,
                        privileged: false,
                    },
                );
                changes.push(
                    ExecutionChange::WriteRemaining { role: PathRole::PreviousDestination },
                );
                if let Some(mode) = previous_mode {
                    changes.push(
                        ExecutionChange::SetMode {
                            role: PathRole::PreviousDestination,
                            mode: *mode,
                            privileged: false,
                        },
                    );
                }
            }
            changes.push(
                ExecutionChange::Write { role: PathRole::DesiredDestination, privileged: false },
            );
        },
        ActionKindV1::RemoveManagedFile { requires_admin, .. } => {
            changes.push(
                ExecutionChange::Move {
                    from: PathRole::Destination,
                    to: PathRole::Rollback,
                    privileged: *requires_admin,
                },
            );
        },
        ActionKindV1::RemoveManagedFileWithBackup { requires_admin, .. } => {
            changes.push(
                ExecutionChange::Move {
                    from: PathRole::Destination,
                    to: PathRole::Rollback,
                    privileged: *requires_admin,
                },
            );
            changes.push(
                ExecutionChange::Move {
                    from: PathRole::Backup,
                    to: PathRole::Destination,
                    privileged: *requires_admin,
                },
            );
        },
        ActionKindV1::ForceRemoveManagedFile { persistent_backup, requires_admin, .. } => {
            changes.push(
                ExecutionChange::Move {
                    from: PathRole::Destination,
                    to: PathRole::Rollback,
                    privileged: *requires_admin,
                },
            );
            if persistent_backup.is_some() {
                changes.push(
                    ExecutionChange::Move {
                        from: PathRole::Backup,
                        to: PathRole::Destination,
                        privileged: *requires_admin,
                    },
                );
            }
        },
        ActionKindV1::MergeManagedJson { original_mode, original_hash, .. } => {
            if original_hash.is_some() {
                changes.push(
                    ExecutionChange::Move {
                        from: PathRole::Destination,
                        to: PathRole::Rollback,
                        privileged: false,
                    },
                );
            }
            changes.push(
                ExecutionChange::Write { role: PathRole::Destination, privileged: false },
            );
            if let Some(mode) = original_mode {
                changes.push(
                    ExecutionChange::SetMode {
                        role: PathRole::Destination,
                        mode: *mode,
                        privileged: false,
                    },
                );
            }
        },
        ActionKindV1::RemoveManagedJson { original_mode, .. } => {
            changes.push(
                ExecutionChange::Move {
                    from: PathRole::Destination,
                    to: PathRole::Rollback,
                    privileged: false,
                },
            );
            changes.push(ExecutionChange::WriteRemaining { role: PathRole::Destination });
            if let Some(mode) = original_mode {
                changes.push(
                    ExecutionChange::SetMode {
                        role: PathRole::Destination,
                        mode: *mode,
                        privileged: false,
                    },
                );
            }
        },
        ActionKindV1::Foreign(_) => {},
    }
    proof {
        assert(changes@ =~= changes_of(*kind));
    }
    changes
}

} // verus!
