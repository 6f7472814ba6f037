//! Committing an operation: its journal is cleared once the receipts that belong
//! to it are durable and its rollback material is gone.

use vstd::prelude::*;
use vstd::string::*;

use crate::action::{is_app_removal_action, removes_managed, ActionKindV1, DeclarativeActionV1,
    PathRole};
use crate::journal::{states_fit, AppOperationJournalV1, JournalActionStateV1, JournalActionV1};
use crate::json::JsonFault;
use crate::manifest::{AppEntryView, AppManifest};
use crate::receipts::{
    matching_app_receipt, receipt_matches, removal_committed, removed_app_receipt_committed,
};
use crate::recovery::{
    assess_committed_backup_remove_recovery, committed_backup_remove_assessment, is_file,
    json_rollback_is_exact, recovery_file_matches, rollback_exactness,
    CommittedBackupRemoveRecoveryAssessment, FileView, JsonRelocationRecoveryAssessment,
    RecoveryFileObservation,
};
use crate::recovery_plan::{
    assess_key_relocation, file_views, json_relocation_state, observed_roles,
};
use crate::recovery_planner::role_or_empty;
use crate::recovery_run::{HostStep, HostStepView};
use crate::text::same_text;

verus! {

/// Why an operation is not committed.
#[derive(Clone, Copy, Debug, PartialEq, Eq, Structural)]
pub enum CommitFault {
    IdentityChanged,
    NotApplied,
    ReceiptsMissing,
    ObservationMismatch,
    Json { fault: JsonFault },
    UpdateMaterialChanged,
    RelocationMaterialChanged,
    JsonRelocationChanged,
    RemovalDestinationChanged,
    RemovalMaterialChanged,
    BackupRemovalChanged,
    ForcedRemovalChanged,
    ForcedDestinationChanged,
    ForcedMaterialChanged,
    JsonMaterialChanged,
    JsonRemovalMaterialChanged,
}

impl CommitFault {
    pub open spec fn text(self) -> Seq<char> {
        match self {
            CommitFault::IdentityChanged => "App operation journal identity changed before commit"@,
            CommitFault::NotApplied =>
                "App operation journal cannot commit before every action is applied"@,
            CommitFault::ReceiptsMissing =>
                "App operation journal cannot commit before its matching manifest receipt state"@,
            CommitFault::ObservationMismatch =>
                "App operation commit was given findings that it did not ask for"@,
            CommitFault::Json { fault } => fault.text(),
            CommitFault::UpdateMaterialChanged =>
                "App update rollback material changed before commit; operation journal preserved"@,
            CommitFault::RelocationMaterialChanged =>
                "App relocation rollback material changed before commit; operation journal preserved"@,
            CommitFault::JsonRelocationChanged =>
                "managed JSON relocation state changed before commit; operation journal preserved"@,
            CommitFault::RemovalDestinationChanged =>
                "App removal destination changed before commit; operation journal preserved"@,
            CommitFault::RemovalMaterialChanged =>
                "App removal rollback material changed before commit; operation journal preserved"@,
            CommitFault::BackupRemovalChanged =>
                "backup-restoring App removal state changed before commit; operation journal preserved"@,
            CommitFault::ForcedRemovalChanged =>
                "forced App removal state changed before commit; operation journal preserved"@,
            CommitFault::ForcedDestinationChanged =>
                "forced App removal destination changed before commit; operation journal preserved"@,
            CommitFault::ForcedMaterialChanged =>
                "forced App removal rollback material changed before commit; operation journal preserved"@,
            CommitFault::JsonMaterialChanged =>
                "managed JSON rollback material changed before commit; operation journal preserved"@,
            CommitFault::JsonRemovalMaterialChanged =>
                "managed JSON removal rollback material changed before commit; operation journal preserved"@,
        }
    }

    /// The fault in words.
    pub fn message(self) -> (message: &'static str)
        ensures
            message@ == self.text(),
    {
        match self {
            CommitFault::IdentityChanged => "App operation journal identity changed before commit",
            CommitFault::NotApplied =>
                "App operation journal cannot commit before every action is applied",
            CommitFault::ReceiptsMissing =>
                "App operation journal cannot commit before its matching manifest receipt state",
            CommitFault::ObservationMismatch =>
                "App operation commit was given findings that it did not ask for",
            CommitFault::Json { fault } => fault.summary(),
            CommitFault::UpdateMaterialChanged =>
                "App update rollback material changed before commit; operation journal preserved",
            CommitFault::RelocationMaterialChanged =>
                "App relocation rollback material changed before commit; operation journal preserved",
            CommitFault::JsonRelocationChanged =>
                "managed JSON relocation state changed before commit; operation journal preserved",
            CommitFault::RemovalDestinationChanged =>
                "App removal destination changed before commit; operation journal preserved",
            CommitFault::RemovalMaterialChanged =>
                "App removal rollback material changed before commit; operation journal preserved",
            CommitFault::BackupRemovalChanged =>
                "backup-restoring App removal state changed before commit; operation journal preserved",
            CommitFault::ForcedRemovalChanged =>
                "forced App removal state changed before commit; operation journal preserved",
            CommitFault::ForcedDestinationChanged =>
                "forced App removal destination changed before commit; operation journal preserved",
            CommitFault::ForcedMaterialChanged =>
                "forced App removal rollback material changed before commit; operation journal preserved",
            CommitFault::JsonMaterialChanged =>
                "managed JSON rollback material changed before commit; operation journal preserved",
            CommitFault::JsonRemovalMaterialChanged =>
                "managed JSON removal rollback material changed before commit; operation journal preserved",
        }
    }
}

/// Whether the receipts are those that an action leaves: the one it wrote, or none
/// where it removes.
pub open spec fn receipt_state_fits(
    entries: Seq<AppEntryView>,
    action: DeclarativeActionV1,
) -> bool {
    if removes_managed(action.kind) {
        removal_committed(entries, action)
    } else {
        receipt_matches(entries, action)
    }
}

/// What beginning a commit gives: the first thing that stands in its way.
pub open spec fn commit_verdict(
    journal: AppOperationJournalV1,
    operation_id: Seq<char>,
    entries: Seq<AppEntryView>,
) -> Result<(), CommitFault> {
    if journal.action_ir.operation_id@ != operation_id {
        Err(CommitFault::IdentityChanged)
    } else if exists|i: int|
        0 <= i < journal.actions@.len() && (#[trigger] journal.actions@[i]).state
            == JournalActionStateV1::Prepared {
        Err(CommitFault::NotApplied)
    } else if exists|i: int|
        0 <= i < journal.action_ir.actions@.len() && !receipt_state_fits(
            entries,
            #[trigger] journal.action_ir.actions@[i],
        ) {
        Err(CommitFault::ReceiptsMissing)
    } else {
        Ok(())
    }
}

/// The state of an entry after a commit has begun.
pub open spec fn committed_state(
    kind: ActionKindV1,
    state: JournalActionStateV1,
) -> JournalActionStateV1 {
    if removes_managed(kind) && state == JournalActionStateV1::Applied {
        JournalActionStateV1::ReceiptCommitted
    } else {
        state
    }
}

/// Begins a commit: each removal that was applied is marked as committed. Says
/// whether the journal changed and has to be saved before anything is removed.
pub fn begin_commit(
    journal: &mut AppOperationJournalV1,
    operation_id: &str,
    manifest: &AppManifest,
) -> (result: Result<bool, CommitFault>)
    requires
        old(journal).verdict() is Ok,
    ensures
        final(journal).schema_version == old(journal).schema_version,
        final(journal).action_ir == old(journal).action_ir,
        final(journal).approval == old(journal).approval,
        result is Ok <==> commit_verdict(*old(journal), operation_id@, manifest@) is Ok,
        result is Err ==> commit_verdict(*old(journal), operation_id@, manifest@) == Err::<
            (),
            CommitFault,
        >(result->Err_0) && final(journal).actions@ == old(journal).actions@,
        result is Ok ==> {
            &&& final(journal).actions@.len() == old(journal).actions@.len()
            &&& forall|i: int|
                0 <= i < final(journal).actions@.len() ==> (
                #[trigger] final(journal).actions@[i]).action_id@ == old(
                    journal,
                ).actions@[i].action_id@ && final(journal).actions@[i].state == committed_state(
                    old(journal).action_ir.actions@[i].kind,
                    old(journal).actions@[i].state,
                )
            &&& result->Ok_0 == exists|i: int|
                0 <= i < old(journal).actions@.len() && committed_state(
                    old(journal).action_ir.actions@[i].kind,
                    (#[trigger] old(journal).actions@[i]).state,
                ) != old(journal).actions@[i].state
        },
{
    if !same_text(journal.action_ir.operation_id.as_str(), operation_id) {
        return Err(CommitFault::IdentityChanged);
    }
    let ghost before = *journal;
    let mut i: usize = 0;
    while i < journal.actions.len()
        invariant
            *journal == before,
            before == *old(journal),
            i <= journal.actions.len(),
            before.action_ir.operation_id@ == operation_id@,
            forall|j: int|
                0 <= j < i ==> (#[trigger] journal.actions@[j]).state
                    != JournalActionStateV1::Prepared,
        decreases journal.actions.len() - i,
    {
        if journal.actions[i].state == JournalActionStateV1::Prepared {
            return Err(CommitFault::NotApplied);
        }
        i += 1;
    }
    let mut k: usize = 0;
    while k < journal.action_ir.actions.len()
        invariant
            *journal == before,
            before == *old(journal),
            k <= journal.action_ir.actions.len(),
            before.action_ir.operation_id@ == operation_id@,
            forall|j: int|
                0 <= j < before.actions@.len() ==> (#[trigger] before.actions@[j]).state
                    != JournalActionStateV1::Prepared,
            forall|j: int|
                0 <= j < k ==> receipt_state_fits(
                    manifest@,
                    #[trigger] journal.action_ir.actions@[j],
                ),
        decreases journal.action_ir.actions.len() - k,
    {
        let action = &journal.action_ir.actions[k];
        let fits = if is_app_removal_action(&action.kind) {
            removed_app_receipt_committed(manifest, action)
        } else {
            matching_app_receipt(manifest, action)
        };
        if !fits {
            return Err(CommitFault::ReceiptsMissing);
        }
        k += 1;
    }
    let mut changed = false;
    let mut m: usize = 0;
    while m < journal.actions.len()
        invariant
            before == *old(journal),
            before.verdict() is Ok,
            journal.schema_version == before.schema_version,
            journal.action_ir == before.action_ir,
            journal.approval == before.approval,
            journal.actions@.len() == before.actions@.len(),
            journal.actions@.len() == journal.action_ir.actions@.len(),
            m <= journal.actions.len(),
            forall|j: int|
                0 <= j < m ==> (#[trigger] journal.actions@[j]).action_id@
                    == before.actions@[j].action_id@ && journal.actions@[j].state
                    == committed_state(
                    before.action_ir.actions@[j].kind,
                    before.actions@[j].state,
                ),
            forall|j: int|
                m <= j < journal.actions@.len() ==> #[trigger] journal.actions@[j]
                    == before.actions@[j],
            changed == exists|j: int|
                0 <= j < m && committed_state(
                    before.action_ir.actions@[j].kind,
                    (#[trigger] before.actions@[j]).state,
                ) != before.actions@[j].state,
        decreases journal.actions.len() - m,
    {
        let removal = is_app_removal_action(&journal.action_ir.actions[m].kind);
        let applied = journal.actions[m].state == JournalActionStateV1::Applied;
        proof {
            assert(journal.actions@[m as int] == before.actions@[m as int]);
        }
        if removal && applied {
            let action_id = journal.actions[m].action_id.clone();
            journal.actions.set(
                m,
                JournalActionV1 { action_id, state: JournalActionStateV1::ReceiptCommitted },
            );
            changed = true;
            proof {
                assert(committed_state(
                    before.action_ir.actions@[m as int].kind,
                    before.actions@[m as int].state,
                ) != before.actions@[m as int].state);
            }
        }
        m += 1;
    }
    Ok(changed)
}

/// The parts whose paths are looked at when an action is committed.
pub open spec fn commit_roles(kind: ActionKindV1) -> Seq<PathRole> {
    match kind {
        ActionKindV1::UpdateManagedFile { .. } => seq![PathRole::Rollback],
        ActionKindV1::RelocateManagedFile { previous_present, .. } => if previous_present {
            seq![PathRole::PreviousRollback]
        } else {
            Seq::empty()
        },
        ActionKindV1::RelocateManagedJson { .. } => observed_roles(kind),
        ActionKindV1::RemoveManagedFile { .. } => observed_roles(kind),
        ActionKindV1::RemoveManagedFileWithBackup { .. } => observed_roles(kind),
        ActionKindV1::ForceRemoveManagedFile { .. } => observed_roles(kind),
        ActionKindV1::MergeManagedJson { .. } => seq![PathRole::Rollback],
        ActionKindV1::RemoveManagedJson { .. } => seq![PathRole::Rollback],
        _ => Seq::empty(),
    }
}

/// The parts whose paths are to be looked at when the action is committed.
pub fn roles_to_commit(kind: &ActionKindV1) -> (roles: Vec<PathRole>)
    ensures
        roles@ == commit_roles(*kind),
{
    let mut roles: Vec<PathRole> = Vec::new();
    match kind {
        ActionKindV1::UpdateManagedFile { .. } => {
            roles.push(PathRole::Rollback);
        },
        ActionKindV1::RelocateManagedFile { previous_present, .. } => {
            if *previous_present {
                roles.push(PathRole::PreviousRollback);
            }
        },
        ActionKindV1::RelocateManagedJson { .. } => {
            return crate::recovery_plan::roles_to_observe(kind);
        },
        ActionKindV1::RemoveManagedFile { .. } => {
            return crate::recovery_plan::roles_to_observe(kind);
        },
        ActionKindV1::RemoveManagedFileWithBackup { .. } => {
            return crate::recovery_plan::roles_to_observe(kind);
        },
        ActionKindV1::ForceRemoveManagedFile { .. } => {
            return crate::recovery_plan::roles_to_observe(kind);
        },
        ActionKindV1::MergeManagedJson { .. } => {
            roles.push(PathRole::Rollback);
        },
        ActionKindV1::RemoveManagedJson { .. } => {
            roles.push(PathRole::Rollback);
        },
        _ => {},
    }
    proof {
        assert(roles@ =~= commit_roles(*kind));
    }
    roles
}

/// What is left to remove of rollback material: nothing, or the material where it
/// is what was put there.
pub open spec fn material_left(
    file: FileView,
    hash: u64,
    mode: Option<u32>,
    role: PathRole,
    changed: CommitFault,
) -> Result<Option<PathRole>, CommitFault> {
    if file is Missing {
        Ok(None)
    } else if is_file(file, hash, mode) {
        Ok(Some(role))
    } else {
        Err(changed)
    }
}

/// What is left to remove where a user file should be back in its place.
pub open spec fn returned_left(
    assessment: CommittedBackupRemoveRecoveryAssessment,
    changed: CommitFault,
) -> Result<Option<PathRole>, CommitFault> {
    match assessment {
        CommittedBackupRemoveRecoveryAssessment::Complete => Ok(None),
        CommittedBackupRemoveRecoveryAssessment::RemoveRollback => Ok(Some(PathRole::Rollback)),
        CommittedBackupRemoveRecoveryAssessment::Blocked => Err(changed),
    }
}

/// What is left to remove of JSON rollback material.
pub open spec fn json_material_left(exact: Option<bool>, changed: CommitFault) -> Result<
    Option<PathRole>,
    CommitFault,
> {
    match exact {
        None => Ok(None),
        Some(true) => Ok(Some(PathRole::Rollback)),
        Some(false) => Err(changed),
    }
}

/// The part that committing an action removes, from what was found.
pub open spec fn commit_decision(kind: ActionKindV1, files: Seq<FileView>) -> Result<
    Option<PathRole>,
    CommitFault,
> {
    match kind {
        ActionKindV1::UpdateManagedFile { original_mode, original_hash, .. } => material_left(
            files[0],
            original_hash,
            original_mode,
            PathRole::Rollback,
            CommitFault::UpdateMaterialChanged,
        ),
        ActionKindV1::RelocateManagedFile {
            previous_present,
            previous_mode,
            previous_hash,
            ..
        } => if previous_present {
            material_left(
                files[0],
                previous_hash,
                previous_mode,
                PathRole::PreviousRollback,
                CommitFault::RelocationMaterialChanged,
            )
        } else {
            Ok(None)
        },
        ActionKindV1::RelocateManagedJson { .. } => match json_relocation_state(kind, true, files) {
            Err(fault) => Err(CommitFault::Json { fault }),
            Ok(JsonRelocationRecoveryAssessment::Committed) => Ok(None),
            Ok(JsonRelocationRecoveryAssessment::RemoveCommittedRollback) => Ok(
                Some(PathRole::PreviousRollback),
            ),
            Ok(_) => Err(CommitFault::JsonRelocationChanged),
        },
        ActionKindV1::RemoveManagedFile { original_mode, original_hash, .. } => if !(
        files[0] is Missing) {
            Err(CommitFault::RemovalDestinationChanged)
        } else {
            material_left(
                files[1],
                original_hash,
                original_mode,
                PathRole::Rollback,
                CommitFault::RemovalMaterialChanged,
            )
        },
        ActionKindV1::RemoveManagedFileWithBackup {
            managed_mode,
            managed_hash,
            backup_mode,
            backup_hash,
            ..
        } => returned_left(
            committed_backup_remove_assessment(
                files[0],
                files[1],
                files[2],
                managed_hash,
                managed_mode,
                backup_hash,
                backup_mode,
            ),
            CommitFault::BackupRemovalChanged,
        ),
        ActionKindV1::ForceRemoveManagedFile {
            persistent_backup,
            current_mode,
            current_hash,
            ..
        } => match persistent_backup {
            Some(backup) => returned_left(
                committed_backup_remove_assessment(
                    files[0],
                    files[2],
                    files[1],
                    current_hash,
                    current_mode,
                    backup.hash,
                    backup.mode,
                ),
                CommitFault::ForcedRemovalChanged,
            ),
            None => if !(files[0] is Missing) {
                Err(CommitFault::ForcedDestinationChanged)
            } else {
                material_left(
                    files[1],
                    current_hash,
                    current_mode,
                    PathRole::Rollback,
                    CommitFault::ForcedMaterialChanged,
                )
            },
        },
        ActionKindV1::MergeManagedJson { original_mode, original_hash, .. } => json_material_left(
            rollback_exactness(files[0], original_hash, original_mode),
            CommitFault::JsonMaterialChanged,
        ),
        ActionKindV1::RemoveManagedJson { original_mode, original_hash, .. } => json_material_left(
            rollback_exactness(files[0], Some(original_hash), original_mode),
            CommitFault::JsonRemovalMaterialChanged,
        ),
        _ => Ok(None),
    }
}

/// Whether the material of an action is removed with administrator rights.
pub open spec fn material_is_privileged(kind: ActionKindV1) -> bool {
    match kind {
        ActionKindV1::UpdateManagedFile { requires_admin, .. } => requires_admin,
        ActionKindV1::RelocateManagedFile { previous_requires_admin, .. } =>
            previous_requires_admin,
        ActionKindV1::RemoveManagedFile { requires_admin, .. } => requires_admin,
        ActionKindV1::RemoveManagedFileWithBackup { requires_admin, .. } => requires_admin,
        ActionKindV1::ForceRemoveManagedFile { requires_admin, .. } => requires_admin,
        _ => false,
    }
}

fn check_material(
    file: &RecoveryFileObservation,
    hash: u64,
    mode: Option<u32>,
    role: PathRole,
    changed: CommitFault,
) -> (result: Result<Option<PathRole>, CommitFault>)
    ensures
        result == material_left(file@, hash, mode, role, changed),
{
    if file.is_missing() {
        Ok(None)
    } else if recovery_file_matches(file, hash, mode) {
        Ok(Some(role))
    } else {
        Err(changed)
    }
}

fn check_returned(
    assessment: CommittedBackupRemoveRecoveryAssessment,
    changed: CommitFault,
) -> (result: Result<Option<PathRole>, CommitFault>)
    ensures
        result == returned_left(assessment, changed),
{
    match assessment {
        CommittedBackupRemoveRecoveryAssessment::Complete => Ok(None),
        CommittedBackupRemoveRecoveryAssessment::RemoveRollback => Ok(Some(PathRole::Rollback)),
        CommittedBackupRemoveRecoveryAssessment::Blocked => Err(changed),
    }
}

fn check_json_material(exact: Option<bool>, changed: CommitFault) -> (result: Result<
    Option<PathRole>,
    CommitFault,
>)
    ensures
        result == json_material_left(exact, changed),
{
    match exact {
        None => Ok(None),
        Some(true) => Ok(Some(PathRole::Rollback)),
        Some(false) => Err(changed),
    }
}

fn decide_commit(kind: &ActionKindV1, files: &Vec<RecoveryFileObservation>) -> (result: Result<
    Option<PathRole>,
    CommitFault,
>)
    requires
        files@.len() == commit_roles(*kind).len(),
    ensures
        result == commit_decision(*kind, file_views(files@)),
{
    match kind {
        ActionKindV1::UpdateManagedFile { original_mode, original_hash, .. } => check_material(
            &files[0],
            *original_hash,
            *original_mode,
            PathRole::Rollback,
            CommitFault::UpdateMaterialChanged,
        ),
        ActionKindV1::RelocateManagedFile {
            previous_present,
            previous_mode,
            previous_hash,
            ..
        } => if *previous_present {
            check_material(
                &files[0],
                *previous_hash,
                *previous_mode,
                PathRole::PreviousRollback,
                CommitFault::RelocationMaterialChanged,
            )
        } else {
            Ok(None)
        },
        ActionKindV1::RelocateManagedJson { .. } => match assess_key_relocation(kind, true, files) {
            Err(fault) => Err(CommitFault::Json { fault }),
            Ok(assessment) => match assessment {
                JsonRelocationRecoveryAssessment::Committed => Ok(None),
                JsonRelocationRecoveryAssessment::RemoveCommittedRollback => Ok(
                    Some(PathRole::PreviousRollback),
                ),
                _ => Err(CommitFault::JsonRelocationChanged),
            },
        },
        ActionKindV1::RemoveManagedFile { original_mode, original_hash, .. } => {
            if !files[0].is_missing() {
                return Err(CommitFault::RemovalDestinationChanged);
            }
            check_material(
                &files[1],
                *original_hash,
                *original_mode,
                PathRole::Rollback,
                CommitFault::RemovalMaterialChanged,
            )
        },
        ActionKindV1::RemoveManagedFileWithBackup {
            managed_mode,
            managed_hash,
            backup_mode,
            backup_hash,
            ..
        } => check_returned(
            assess_committed_backup_remove_recovery(
                &files[0],
                &files[1],
                &files[2],
                *managed_hash,
                *managed_mode,
                *backup_hash,
                *backup_mode,
            ),
            CommitFault::BackupRemovalChanged,
        ),
        ActionKindV1::ForceRemoveManagedFile {
            persistent_backup,
            current_mode,
            current_hash,
            ..
        } => match persistent_backup {
            Some(backup) => check_returned(
                assess_committed_backup_remove_recovery(
                    &files[0],
                    &files[2],
                    &files[1],
                    *current_hash,
                    *current_mode,
                    backup.hash,
                    backup.mode,
                ),
                CommitFault::ForcedRemovalChanged,
            ),
            None => {
                if !files[0].is_missing() {
                    return Err(CommitFault::ForcedDestinationChanged);
                }
                check_material(
                    &files[1],
                    *current_hash,
                    *current_mode,
                    PathRole::Rollback,
                    CommitFault::ForcedMaterialChanged,
                )
            },
        },
        ActionKindV1::MergeManagedJson { original_mode, original_hash, .. } => check_json_material(
            json_rollback_is_exact(&files[0], *original_hash, *original_mode),
            CommitFault::JsonMaterialChanged,
        ),
        ActionKindV1::RemoveManagedJson { original_mode, original_hash, .. } =>
        check_json_material(
            json_rollback_is_exact(&files[0], Some(*original_hash), *original_mode),
            CommitFault::JsonRemovalMaterialChanged,
        ),
        _ => Ok(None),
    }
}

fn privileged_material(kind: &ActionKindV1) -> (result: bool)
    ensures
        result == material_is_privileged(*kind),
{
    match kind {
        ActionKindV1::UpdateManagedFile { requires_admin, .. } => *requires_admin,
        ActionKindV1::RelocateManagedFile { previous_requires_admin, .. } =>
        *previous_requires_admin,
        ActionKindV1::RemoveManagedFile { requires_admin, .. } => *requires_admin,
        ActionKindV1::RemoveManagedFileWithBackup { requires_admin, .. } => *requires_admin,
        ActionKindV1::ForceRemoveManagedFile { requires_admin, .. } => *requires_admin,
        _ => false,
    }
}

/// The step that commits the action, where there is one left to take.
pub fn commit_action(kind: &ActionKindV1, files: &Vec<RecoveryFileObservation>) -> (result: Result<
    Option<HostStep>,
    CommitFault,
>)
    ensures
        files@.len() != commit_roles(*kind).len() ==> result is Err && result->Err_0
            == CommitFault::ObservationMismatch,
        files@.len() == commit_roles(*kind).len() ==> match commit_decision(
            *kind,
            file_views(files@),
        ) {
            Err(fault) => result is Err && result->Err_0 == fault,
            Ok(None) => result is Ok && result->Ok_0 is None,
            Ok(Some(role)) => result is Ok && result->Ok_0 is Some && result->Ok_0->0@ == (
            HostStepView::RemoveFile {
                path: role_or_empty(*kind, role),
                privileged: material_is_privileged(*kind),
            }),
        },
{
    let roles = roles_to_commit(kind);
    if files.len() != roles.len() {
        return Err(CommitFault::ObservationMismatch);
    }
    match decide_commit(kind, files) {
        Err(fault) => Err(fault),
        Ok(None) => Ok(None),
        Ok(Some(role)) => {
            let path: String = match kind.role_path(role) {
                Some(path) => path.clone(),
                None => String::new(),
            };
            Ok(Some(HostStep::RemoveFile { path, privileged: privileged_material(kind) }))
        },
    }
}

/// A commit removes nothing but rollback material.
pub proof fn law_commit_removes_only_rollback_material(kind: ActionKindV1, files: Seq<FileView>)
    ensures
        match commit_decision(kind, files) {
            Ok(Some(role)) => role == PathRole::Rollback || role == PathRole::PreviousRollback,
            _ => true,
        },
{
}

/// After a commit has begun the journal is still valid, no action is merely
/// prepared, and each removal is marked as committed.
pub proof fn law_begun_commit_keeps_journal_valid(
    before: AppOperationJournalV1,
    after: AppOperationJournalV1,
    operation_id: Seq<char>,
    entries: Seq<AppEntryView>,
)
    requires
        before.verdict() is Ok,
        commit_verdict(before, operation_id, entries) is Ok,
        after.schema_version == before.schema_version,
        after.action_ir == before.action_ir,
        after.approval == before.approval,
        after.actions@.len() == before.actions@.len(),
        forall|i: int|
            0 <= i < after.actions@.len() ==> (#[trigger] after.actions@[i]).action_id@
                == before.actions@[i].action_id@ && after.actions@[i].state == committed_state(
                before.action_ir.actions@[i].kind,
                before.actions@[i].state,
            ),
    ensures
        after.verdict() is Ok,
        forall|i: int|
            0 <= i < after.actions@.len() ==> (#[trigger] after.actions@[i]).state == if
            removes_managed(after.action_ir.actions@[i].kind) {
                JournalActionStateV1::ReceiptCommitted
            } else {
                JournalActionStateV1::Applied
            },
{
    assert(states_fit(after.actions@, after.action_ir.actions@)) by {
        assert forall|i: int| 0 <= i < after.actions@.len() implies (
        #[trigger] after.actions@[i]).action_id@ == after.action_ir.actions@[i].action_id@ by {
            assert(before.actions@[i].action_id@ == before.action_ir.actions@[i].action_id@);
        }
    }
    assert forall|i: int| 0 <= i < after.actions@.len() implies (
    #[trigger] after.actions@[i]).state == if removes_managed(after.action_ir.actions@[i].kind) {
        JournalActionStateV1::ReceiptCommitted
    } else {
        JournalActionStateV1::Applied
    } by {
        assert(before.actions@[i].state != JournalActionStateV1::Prepared);
        assert(before.actions@[i].state == JournalActionStateV1::ReceiptCommitted
            ==> removes_managed(before.action_ir.actions@[i].kind));
    }
}

} // verus!
