//! The plan for undoing an interrupted operation.
//!
//! For each action of the journal the plan says what undoing it would do, and
//! what it needs to do so; one action that cannot be undone safely blocks the
//! whole plan and keeps the journal.

use vstd::prelude::*;
use vstd::string::*;

use crate::action::{removes, writes, ActionKindV1, ForcedManagedFileBackupV1, PathRole, RoleAccess};
use crate::json::JsonFault;
use crate::plan::{FilesystemAccessV1, PlanActionV1};
use crate::recovery::{
    assess_backup_recovery, assess_backup_remove_recovery, assess_committed_backup_remove_recovery,
    assess_json_merge_recovery, assess_json_relocation_recovery, assess_json_remove_recovery,
    assess_relocation_recovery, assess_remove_recovery, assess_update_recovery, backup_assessment,
    backup_remove_assessment, committed_backup_remove_assessment, committed_json_relocation,
    committed_relocation, has_content, is_file, json_merge_assessment, json_remove_assessment,
    json_rollback_is_exact, recovery_file_matches, recovery_file_matches_hash, remove_assessment,
    rollback_exactness, uncommitted_json_relocation, uncommitted_relocation, update_assessment,
    BackupRecoveryAssessment, BackupRemoveRecoveryAssessment,
    CommittedBackupRemoveRecoveryAssessment, FileView, JsonRecoveryAssessment,
    JsonRelocationRecoveryAssessment, RecoveryFileObservation, RelocationRecoveryAssessment,
    RemoveRecoveryAssessment,
};
use crate::text::texts;

verus! {

/// Why a recovery plan does what it does to a resource.
#[derive(Clone, Copy, Debug, PartialEq, Eq, Structural)]
pub enum RecoveryCode {
    ReceiptConflict,
    ReceiptAlreadyCommitted,
    ResourceAbsent,
    RemoveCreatedFile,
    UserModified,
    BackupCreationNotStarted,
    RestoreBackup,
    BackupStateChanged,
    RemoveCommittedRollback,
    RollbackStateChanged,
    UpdateNotStarted,
    RestorePreviousManagedFile,
    RelocationNotStarted,
    RemoveRelocatedDestination,
    RestoreRelocationSource,
    RemoveCommittedRelocationRollback,
    RelocationAlreadyCommitted,
    RelocationStateChanged,
    RemoveCommittedJsonRelocationRollback,
    JsonRelocationAlreadyCommitted,
    JsonRelocationStateChanged,
    RestoreJsonRelocation,
    JsonRelocationNotStarted,
    RemovalAlreadyCommitted,
    RemoveCommittedRemovalRollback,
    RemovalStateChanged,
    RemovalNotStarted,
    RestoreRemovedReceipt,
    RestoreRemovedManagedFile,
    RestoreRemovedFileAndReceipt,
    BackupRemovalAlreadyCommitted,
    RemoveCommittedBackupRemovalRollback,
    BackupRemovalStateChanged,
    BackupRemovalNotStarted,
    RestoreBackupRemovalReceipt,
    RestoreBackupRemovalManagedFile,
    RestoreBackupRemovalFileAndBackup,
    ForcedRemovalAlreadyCommitted,
    RemoveCommittedForcedRollback,
    ForcedRemovalStateChanged,
    ForcedRemovalNotStarted,
    RestoreForcedRemovalReceipt,
    RestoreForcedManagedFile,
    RestoreForcedFileAndBackup,
    JsonRollbackChanged,
    RemoveCommittedJsonRollback,
    JsonReceiptAlreadyCommitted,
    JsonMergeNotStarted,
    RemoveRestoredJsonRollback,
    RestoreJsonManagedKeys,
    RemoveCreatedJsonFile,
    RemoveCreatedJsonKeys,
    JsonStateChanged,
    JsonRemovalAlreadyCommitted,
    JsonRemovalNotStarted,
    RestoreJsonRemovalReceipt,
    RestoreRemovedJsonKeys,
    OpaqueAction,
    JournalPreserved,
    ClearJournal,
}

impl RecoveryCode {
    pub open spec fn text(self) -> Seq<char> {
        match self {
            RecoveryCode::ReceiptConflict => "app_recovery_receipt_conflict"@,
            RecoveryCode::ReceiptAlreadyCommitted => "app_recovery_receipt_already_committed"@,
            RecoveryCode::ResourceAbsent => "app_recovery_resource_absent"@,
            RecoveryCode::RemoveCreatedFile => "app_recovery_remove_created_file"@,
            RecoveryCode::UserModified => "app_recovery_user_modified"@,
            RecoveryCode::BackupCreationNotStarted => "app_recovery_backup_creation_not_started"@,
            RecoveryCode::RestoreBackup => "app_recovery_restore_backup"@,
            RecoveryCode::BackupStateChanged => "app_recovery_backup_state_changed"@,
            RecoveryCode::RemoveCommittedRollback => "app_recovery_remove_committed_rollback"@,
            RecoveryCode::RollbackStateChanged => "app_recovery_rollback_state_changed"@,
            RecoveryCode::UpdateNotStarted => "app_recovery_update_not_started"@,
            RecoveryCode::RestorePreviousManagedFile => "app_recovery_restore_previous_managed_file"@,
            RecoveryCode::RelocationNotStarted => "app_recovery_relocation_not_started"@,
            RecoveryCode::RemoveRelocatedDestination => "app_recovery_remove_relocated_destination"@,
            RecoveryCode::RestoreRelocationSource => "app_recovery_restore_relocation_source"@,
            RecoveryCode::RemoveCommittedRelocationRollback => "app_recovery_remove_committed_relocation_rollback"@,
            RecoveryCode::RelocationAlreadyCommitted => "app_recovery_relocation_already_committed"@,
            RecoveryCode::RelocationStateChanged => "app_recovery_relocation_state_changed"@,
            RecoveryCode::RemoveCommittedJsonRelocationRollback => "app_recovery_remove_committed_json_relocation_rollback"@,
            RecoveryCode::JsonRelocationAlreadyCommitted => "app_recovery_json_relocation_already_committed"@,
            RecoveryCode::JsonRelocationStateChanged => "app_recovery_json_relocation_state_changed"@,
            RecoveryCode::RestoreJsonRelocation => "app_recovery_restore_json_relocation"@,
            RecoveryCode::JsonRelocationNotStarted => "app_recovery_json_relocation_not_started"@,
            RecoveryCode::RemovalAlreadyCommitted => "app_recovery_removal_already_committed"@,
            RecoveryCode::RemoveCommittedRemovalRollback => "app_recovery_remove_committed_removal_rollback"@,
            RecoveryCode::RemovalStateChanged => "app_recovery_removal_state_changed"@,
            RecoveryCode::RemovalNotStarted => "app_recovery_removal_not_started"@,
            RecoveryCode::RestoreRemovedReceipt => "app_recovery_restore_removed_receipt"@,
            RecoveryCode::RestoreRemovedManagedFile => "app_recovery_restore_removed_managed_file"@,
            RecoveryCode::RestoreRemovedFileAndReceipt => "app_recovery_restore_removed_file_and_receipt"@,
            RecoveryCode::BackupRemovalAlreadyCommitted => "app_recovery_backup_removal_already_committed"@,
            RecoveryCode::RemoveCommittedBackupRemovalRollback => "app_recovery_remove_committed_backup_removal_rollback"@,
            RecoveryCode::BackupRemovalStateChanged => "app_recovery_backup_removal_state_changed"@,
            RecoveryCode::BackupRemovalNotStarted => "app_recovery_backup_removal_not_started"@,
            RecoveryCode::RestoreBackupRemovalReceipt => "app_recovery_restore_backup_removal_receipt"@,
            RecoveryCode::RestoreBackupRemovalManagedFile => "app_recovery_restore_backup_removal_managed_file"@,
            RecoveryCode::RestoreBackupRemovalFileAndBackup => "app_recovery_restore_backup_removal_file_and_backup"@,
            RecoveryCode::ForcedRemovalAlreadyCommitted => "app_recovery_forced_removal_already_committed"@,
            RecoveryCode::RemoveCommittedForcedRollback => "app_recovery_remove_committed_forced_rollback"@,
            RecoveryCode::ForcedRemovalStateChanged => "app_recovery_forced_removal_state_changed"@,
            RecoveryCode::ForcedRemovalNotStarted => "app_recovery_forced_removal_not_started"@,
            RecoveryCode::RestoreForcedRemovalReceipt => "app_recovery_restore_forced_removal_receipt"@,
            RecoveryCode::RestoreForcedManagedFile => "app_recovery_restore_forced_managed_file"@,
            RecoveryCode::RestoreForcedFileAndBackup => "app_recovery_restore_forced_file_and_backup"@,
            RecoveryCode::JsonRollbackChanged => "app_recovery_json_rollback_changed"@,
            RecoveryCode::RemoveCommittedJsonRollback => "app_recovery_remove_committed_json_rollback"@,
            RecoveryCode::JsonReceiptAlreadyCommitted => "app_recovery_json_receipt_already_committed"@,
            RecoveryCode::JsonMergeNotStarted => "app_recovery_json_merge_not_started"@,
            RecoveryCode::RemoveRestoredJsonRollback => "app_recovery_remove_restored_json_rollback"@,
            RecoveryCode::RestoreJsonManagedKeys => "app_recovery_restore_json_managed_keys"@,
            RecoveryCode::RemoveCreatedJsonFile => "app_recovery_remove_created_json_file"@,
            RecoveryCode::RemoveCreatedJsonKeys => "app_recovery_remove_created_json_keys"@,
            RecoveryCode::JsonStateChanged => "app_recovery_json_state_changed"@,
            RecoveryCode::JsonRemovalAlreadyCommitted => "app_recovery_json_removal_already_committed"@,
            RecoveryCode::JsonRemovalNotStarted => "app_recovery_json_removal_not_started"@,
            RecoveryCode::RestoreJsonRemovalReceipt => "app_recovery_restore_json_removal_receipt"@,
            RecoveryCode::RestoreRemovedJsonKeys => "app_recovery_restore_removed_json_keys"@,
            RecoveryCode::OpaqueAction => "app_recovery_opaque_action"@,
            RecoveryCode::JournalPreserved => "app_recovery_journal_preserved"@,
            RecoveryCode::ClearJournal => "app_recovery_clear_journal"@,
        }
    }

    /// The stable diagnostic code.
    pub fn as_str(self) -> (code: &'static str)
        ensures
            code@ == self.text(),
    {
        match self {
            RecoveryCode::ReceiptConflict => "app_recovery_receipt_conflict",
            RecoveryCode::ReceiptAlreadyCommitted => "app_recovery_receipt_already_committed",
            RecoveryCode::ResourceAbsent => "app_recovery_resource_absent",
            RecoveryCode::RemoveCreatedFile => "app_recovery_remove_created_file",
            RecoveryCode::UserModified => "app_recovery_user_modified",
            RecoveryCode::BackupCreationNotStarted => "app_recovery_backup_creation_not_started",
            RecoveryCode::RestoreBackup => "app_recovery_restore_backup",
            RecoveryCode::BackupStateChanged => "app_recovery_backup_state_changed",
            RecoveryCode::RemoveCommittedRollback => "app_recovery_remove_committed_rollback",
            RecoveryCode::RollbackStateChanged => "app_recovery_rollback_state_changed",
            RecoveryCode::UpdateNotStarted => "app_recovery_update_not_started",
            RecoveryCode::RestorePreviousManagedFile => "app_recovery_restore_previous_managed_file",
            RecoveryCode::RelocationNotStarted => "app_recovery_relocation_not_started",
            RecoveryCode::RemoveRelocatedDestination => "app_recovery_remove_relocated_destination",
            RecoveryCode::RestoreRelocationSource => "app_recovery_restore_relocation_source",
            RecoveryCode::RemoveCommittedRelocationRollback => "app_recovery_remove_committed_relocation_rollback",
            RecoveryCode::RelocationAlreadyCommitted => "app_recovery_relocation_already_committed",
            RecoveryCode::RelocationStateChanged => "app_recovery_relocation_state_changed",
            RecoveryCode::RemoveCommittedJsonRelocationRollback => "app_recovery_remove_committed_json_relocation_rollback",
            RecoveryCode::JsonRelocationAlreadyCommitted => "app_recovery_json_relocation_already_committed",
            RecoveryCode::JsonRelocationStateChanged => "app_recovery_json_relocation_state_changed",
            RecoveryCode::RestoreJsonRelocation => "app_recovery_restore_json_relocation",
            RecoveryCode::JsonRelocationNotStarted => "app_recovery_json_relocation_not_started",
            RecoveryCode::RemovalAlreadyCommitted => "app_recovery_removal_already_committed",
            RecoveryCode::RemoveCommittedRemovalRollback => "app_recovery_remove_committed_removal_rollback",
            RecoveryCode::RemovalStateChanged => "app_recovery_removal_state_changed",
            RecoveryCode::RemovalNotStarted => "app_recovery_removal_not_started",
            RecoveryCode::RestoreRemovedReceipt => "app_recovery_restore_removed_receipt",
            RecoveryCode::RestoreRemovedManagedFile => "app_recovery_restore_removed_managed_file",
            RecoveryCode::RestoreRemovedFileAndReceipt => "app_recovery_restore_removed_file_and_receipt",
            RecoveryCode::BackupRemovalAlreadyCommitted => "app_recovery_backup_removal_already_committed",
            RecoveryCode::RemoveCommittedBackupRemovalRollback => "app_recovery_remove_committed_backup_removal_rollback",
            RecoveryCode::BackupRemovalStateChanged => "app_recovery_backup_removal_state_changed",
            RecoveryCode::BackupRemovalNotStarted => "app_recovery_backup_removal_not_started",
            RecoveryCode::RestoreBackupRemovalReceipt => "app_recovery_restore_backup_removal_receipt",
            RecoveryCode::RestoreBackupRemovalManagedFile => "app_recovery_restore_backup_removal_managed_file",
            RecoveryCode::RestoreBackupRemovalFileAndBackup => "app_recovery_restore_backup_removal_file_and_backup",
            RecoveryCode::ForcedRemovalAlreadyCommitted => "app_recovery_forced_removal_already_committed",
            RecoveryCode::RemoveCommittedForcedRollback => "app_recovery_remove_committed_forced_rollback",
            RecoveryCode::ForcedRemovalStateChanged => "app_recovery_forced_removal_state_changed",
            RecoveryCode::ForcedRemovalNotStarted => "app_recovery_forced_removal_not_started",
            RecoveryCode::RestoreForcedRemovalReceipt => "app_recovery_restore_forced_removal_receipt",
            RecoveryCode::RestoreForcedManagedFile => "app_recovery_restore_forced_managed_file",
            RecoveryCode::RestoreForcedFileAndBackup => "app_recovery_restore_forced_file_and_backup",
            RecoveryCode::JsonRollbackChanged => "app_recovery_json_rollback_changed",
            RecoveryCode::RemoveCommittedJsonRollback => "app_recovery_remove_committed_json_rollback",
            RecoveryCode::JsonReceiptAlreadyCommitted => "app_recovery_json_receipt_already_committed",
            RecoveryCode::JsonMergeNotStarted => "app_recovery_json_merge_not_started",
            RecoveryCode::RemoveRestoredJsonRollback => "app_recovery_remove_restored_json_rollback",
            RecoveryCode::RestoreJsonManagedKeys => "app_recovery_restore_json_managed_keys",
            RecoveryCode::RemoveCreatedJsonFile => "app_recovery_remove_created_json_file",
            RecoveryCode::RemoveCreatedJsonKeys => "app_recovery_remove_created_json_keys",
            RecoveryCode::JsonStateChanged => "app_recovery_json_state_changed",
            RecoveryCode::JsonRemovalAlreadyCommitted => "app_recovery_json_removal_already_committed",
            RecoveryCode::JsonRemovalNotStarted => "app_recovery_json_removal_not_started",
            RecoveryCode::RestoreJsonRemovalReceipt => "app_recovery_restore_json_removal_receipt",
            RecoveryCode::RestoreRemovedJsonKeys => "app_recovery_restore_removed_json_keys",
            RecoveryCode::OpaqueAction => "app_recovery_opaque_action",
            RecoveryCode::JournalPreserved => "app_recovery_journal_preserved",
            RecoveryCode::ClearJournal => "app_recovery_clear_journal",
        }
    }
}

/// What undoing one action does to its resource, and what it needs.
#[derive(Clone, Debug)]
pub struct RecoveryDecision {
    pub action: PlanActionV1,
    pub code: RecoveryCode,
    pub needs: Vec<RoleAccess>,
    pub restores_receipt: bool,
}

/// A decision by the values it holds.
pub ghost struct DecisionView {
    pub action: PlanActionV1,
    pub code: RecoveryCode,
    pub needs: Seq<RoleAccess>,
    pub restores_receipt: bool,
}

impl View for RecoveryDecision {
    type V = DecisionView;

    open spec fn view(&self) -> DecisionView {
        DecisionView {
            action: self.action,
            code: self.code,
            needs: self.needs@,
            restores_receipt: self.restores_receipt,
        }
    }
}

/// A decision that needs nothing.
pub open spec fn resting(action: PlanActionV1, code: RecoveryCode) -> DecisionView {
    DecisionView { action, code, needs: Seq::empty(), restores_receipt: false }
}

/// A decision that needs the given accesses.
pub open spec fn needing(
    action: PlanActionV1,
    code: RecoveryCode,
    needs: Seq<RoleAccess>,
) -> DecisionView {
    DecisionView { action, code, needs, restores_receipt: false }
}

/// The accesses for moving material back to its destination.
pub open spec fn restore_needs(
    destination: PathRole,
    material: PathRole,
    remove_destination: bool,
) -> Seq<RoleAccess> {
    if remove_destination {
        seq![writes(destination), removes(material), removes(destination)]
    } else {
        seq![writes(destination), removes(material)]
    }
}

fn rest(action: PlanActionV1, code: RecoveryCode) -> (decision: RecoveryDecision)
    ensures
        decision@ == resting(action, code),
{
    let decision = RecoveryDecision { action, code, needs: Vec::new(), restores_receipt: false };
    proof {
        assert(decision.needs@ =~= Seq::<RoleAccess>::empty());
    }
    decision
}

fn need_write(role: PathRole) -> (access: RoleAccess)
    ensures
        access == writes(role),
{
    RoleAccess { access: FilesystemAccessV1::Write, role }
}

fn need_remove(role: PathRole) -> (access: RoleAccess)
    ensures
        access == removes(role),
{
    RoleAccess { access: FilesystemAccessV1::Remove, role }
}

fn remove_one(code: RecoveryCode, role: PathRole) -> (decision: RecoveryDecision)
    ensures
        decision@ == needing(PlanActionV1::Remove, code, seq![removes(role)]),
{
    let mut decision = rest(PlanActionV1::Remove, code);
    decision.needs.push(need_remove(role));
    proof {
        assert(decision.needs@ =~= seq![removes(role)]);
    }
    decision
}

fn write_one(code: RecoveryCode, role: PathRole) -> (decision: RecoveryDecision)
    ensures
        decision@ == needing(PlanActionV1::Update, code, seq![writes(role)]),
{
    let mut decision = rest(PlanActionV1::Update, code);
    decision.needs.push(need_write(role));
    proof {
        assert(decision.needs@ =~= seq![writes(role)]);
    }
    decision
}

fn restore(
    code: RecoveryCode,
    destination: PathRole,
    material: PathRole,
    remove_destination: bool,
) -> (decision: RecoveryDecision)
    ensures
        decision@ == needing(
            PlanActionV1::Update,
            code,
            restore_needs(destination, material, remove_destination),
        ),
{
    let mut decision = rest(PlanActionV1::Update, code);
    decision.needs.push(need_write(destination));
    decision.needs.push(need_remove(material));
    if remove_destination {
        decision.needs.push(need_remove(destination));
    }
    proof {
        assert(decision.needs@ =~= restore_needs(destination, material, remove_destination));
    }
    decision
}

/// What undoing a creation does.
pub open spec fn create_decision(receipt: bool, desired_hash: u64, destination: FileView) ->
    DecisionView {
    if receipt {
        resting(PlanActionV1::Nothing, RecoveryCode::ReceiptAlreadyCommitted)
    } else if destination is Missing {
        resting(PlanActionV1::Nothing, RecoveryCode::ResourceAbsent)
    } else if has_content(destination, desired_hash) {
        needing(
            PlanActionV1::Remove,
            RecoveryCode::RemoveCreatedFile,
            seq![removes(PathRole::Destination)],
        )
    } else {
        resting(PlanActionV1::Blocked, RecoveryCode::UserModified)
    }
}

/// What undoing a creation that kept a backup does.
pub open spec fn backup_create_decision(
    receipt: bool,
    original_hash: u64,
    desired_hash: u64,
    destination: FileView,
    backup: FileView,
) -> DecisionView {
    if receipt {
        resting(PlanActionV1::Nothing, RecoveryCode::ReceiptAlreadyCommitted)
    } else {
        match backup_assessment(destination, backup, original_hash, desired_hash) {
            BackupRecoveryAssessment::NotStarted => resting(
                PlanActionV1::Nothing,
                RecoveryCode::BackupCreationNotStarted,
            ),
            BackupRecoveryAssessment::Restore { remove_destination } => needing(
                PlanActionV1::Update,
                RecoveryCode::RestoreBackup,
                restore_needs(PathRole::Destination, PathRole::Backup, remove_destination),
            ),
            BackupRecoveryAssessment::Blocked => resting(
                PlanActionV1::Blocked,
                RecoveryCode::BackupStateChanged,
            ),
        }
    }
}

/// What undoing an update does.
pub open spec fn update_decision(
    receipt: bool,
    original_hash: u64,
    desired_hash: u64,
    original_mode: Option<u32>,
    destination: FileView,
    rollback: FileView,
) -> DecisionView {
    if receipt {
        if rollback is Missing {
            resting(PlanActionV1::Nothing, RecoveryCode::ReceiptAlreadyCommitted)
        } else if is_file(rollback, original_hash, original_mode) {
            needing(
                PlanActionV1::Remove,
                RecoveryCode::RemoveCommittedRollback,
                seq![removes(PathRole::Rollback)],
            )
        } else {
            resting(PlanActionV1::Blocked, RecoveryCode::RollbackStateChanged)
        }
    } else {
        match update_assessment(destination, rollback, original_hash, desired_hash, original_mode) {
            BackupRecoveryAssessment::NotStarted => resting(
                PlanActionV1::Nothing,
                RecoveryCode::UpdateNotStarted,
            ),
            BackupRecoveryAssessment::Restore { remove_destination } => needing(
                PlanActionV1::Update,
                RecoveryCode::RestorePreviousManagedFile,
                restore_needs(PathRole::Destination, PathRole::Rollback, remove_destination),
            ),
            BackupRecoveryAssessment::Blocked => resting(
                PlanActionV1::Blocked,
                RecoveryCode::RollbackStateChanged,
            ),
        }
    }
}

/// The accesses for moving a relocated file back.
pub open spec fn relocation_needs(remove_desired: bool, restore_backup: bool) -> Seq<RoleAccess> {
    let first = if remove_desired {
        seq![removes(PathRole::DesiredDestination)]
    } else {
        Seq::empty()
    };
    let second = if restore_backup {
        seq![removes(PathRole::PreviousDestination), writes(PathRole::PreviousBackup)]
    } else {
        Seq::empty()
    };
    first + second + seq![
        writes(PathRole::PreviousDestination),
        removes(PathRole::PreviousRollback),
    ]
}

/// What undoing the relocation of a whole file does.
pub open spec fn relocation_decision(assessment: RelocationRecoveryAssessment) -> DecisionView {
    match assessment {
        RelocationRecoveryAssessment::NotStarted => resting(
            PlanActionV1::Nothing,
            RecoveryCode::RelocationNotStarted,
        ),
        RelocationRecoveryAssessment::RemoveDesired => needing(
            PlanActionV1::Remove,
            RecoveryCode::RemoveRelocatedDestination,
            seq![removes(PathRole::DesiredDestination)],
        ),
        RelocationRecoveryAssessment::Restore { remove_desired, restore_backup } => needing(
            PlanActionV1::Update,
            RecoveryCode::RestoreRelocationSource,
            relocation_needs(remove_desired, restore_backup),
        ),
        RelocationRecoveryAssessment::RemoveCommittedRollback => needing(
            PlanActionV1::Remove,
            RecoveryCode::RemoveCommittedRelocationRollback,
            seq![removes(PathRole::PreviousRollback)],
        ),
        RelocationRecoveryAssessment::Committed => resting(
            PlanActionV1::Nothing,
            RecoveryCode::RelocationAlreadyCommitted,
        ),
        RelocationRecoveryAssessment::Blocked => resting(
            PlanActionV1::Blocked,
            RecoveryCode::RelocationStateChanged,
        ),
    }
}

/// The accesses for putting the managed keys of a relocated object back.
pub open spec fn json_previous_needs(
    previous: Option<JsonRecoveryAssessment>,
    rollback: FileView,
) -> Seq<RoleAccess> {
    match previous {
        Some(JsonRecoveryAssessment::RestoreByMove) => seq![
            writes(PathRole::PreviousDestination),
            removes(PathRole::PreviousRollback),
        ],
        Some(JsonRecoveryAssessment::RestoreKeys) => seq![
            writes(PathRole::PreviousDestination),
            removes(PathRole::PreviousRollback),
        ],
        Some(JsonRecoveryAssessment::AlreadyRestored) => if rollback is Regular {
            seq![removes(PathRole::PreviousRollback)]
        } else {
            Seq::empty()
        },
        _ => Seq::empty(),
    }
}

/// The accesses for taking the managed keys out of the new place.
pub open spec fn json_desired_needs(desired: JsonRecoveryAssessment) -> Seq<RoleAccess> {
    match desired {
        JsonRecoveryAssessment::RemoveCreatedFile => seq![removes(PathRole::DesiredDestination)],
        JsonRecoveryAssessment::RemoveCreatedKeys => seq![writes(PathRole::DesiredDestination)],
        _ => Seq::empty(),
    }
}

/// Whether a list of accesses holds one of that kind.
pub open spec fn has_access(needs: Seq<RoleAccess>, access: FilesystemAccessV1) -> bool {
    exists|i: int| 0 <= i < needs.len() && (#[trigger] needs[i]).access == access
}

/// What undoing the relocation of managed keys does.
pub open spec fn json_relocation_decision(
    assessment: JsonRelocationRecoveryAssessment,
    rollback: FileView,
) -> DecisionView {
    match assessment {
        JsonRelocationRecoveryAssessment::RemoveCommittedRollback => needing(
            PlanActionV1::Remove,
            RecoveryCode::RemoveCommittedJsonRelocationRollback,
            seq![removes(PathRole::PreviousRollback)],
        ),
        JsonRelocationRecoveryAssessment::Committed => resting(
            PlanActionV1::Nothing,
            RecoveryCode::JsonRelocationAlreadyCommitted,
        ),
        JsonRelocationRecoveryAssessment::Blocked => resting(
            PlanActionV1::Blocked,
            RecoveryCode::JsonRelocationStateChanged,
        ),
        JsonRelocationRecoveryAssessment::Uncommitted { previous, desired } => {
            let needs = json_previous_needs(previous, rollback) + json_desired_needs(desired);
            if has_access(needs, FilesystemAccessV1::Write) {
                needing(PlanActionV1::Update, RecoveryCode::RestoreJsonRelocation, needs)
            } else if needs.len() > 0 {
                needing(PlanActionV1::Remove, RecoveryCode::RestoreJsonRelocation, needs)
            } else {
                resting(PlanActionV1::Nothing, RecoveryCode::JsonRelocationNotStarted)
            }
        },
    }
}

/// The codes with which a removal is reported.
#[derive(Clone, Copy, Debug, PartialEq, Eq, Structural)]
pub struct RemovalCodes {
    pub already_committed: RecoveryCode,
    pub remove_rollback: RecoveryCode,
    pub changed: RecoveryCode,
    pub not_started: RecoveryCode,
    pub restore_receipt: RecoveryCode,
    pub restore_file: RecoveryCode,
    pub restore_file_and_receipt: RecoveryCode,
    pub restore_file_and_backup: RecoveryCode,
}

/// The codes of a removal of unchanged content.
pub open spec fn removal_codes() -> RemovalCodes {
    RemovalCodes {
        already_committed: RecoveryCode::RemovalAlreadyCommitted,
        remove_rollback: RecoveryCode::RemoveCommittedRemovalRollback,
        changed: RecoveryCode::RemovalStateChanged,
        not_started: RecoveryCode::RemovalNotStarted,
        restore_receipt: RecoveryCode::RestoreRemovedReceipt,
        restore_file: RecoveryCode::RestoreRemovedManagedFile,
        restore_file_and_receipt: RecoveryCode::RestoreRemovedFileAndReceipt,
        restore_file_and_backup: RecoveryCode::RestoreRemovedManagedFile,
    }
}

/// The codes of a removal that returns a backup.
pub open spec fn backup_removal_codes() -> RemovalCodes {
    RemovalCodes {
        already_committed: RecoveryCode::BackupRemovalAlreadyCommitted,
        remove_rollback: RecoveryCode::RemoveCommittedBackupRemovalRollback,
        changed: RecoveryCode::BackupRemovalStateChanged,
        not_started: RecoveryCode::BackupRemovalNotStarted,
        restore_receipt: RecoveryCode::RestoreBackupRemovalReceipt,
        restore_file: RecoveryCode::RestoreBackupRemovalManagedFile,
        restore_file_and_receipt: RecoveryCode::RestoreBackupRemovalManagedFile,
        restore_file_and_backup: RecoveryCode::RestoreBackupRemovalFileAndBackup,
    }
}

/// The codes of a removal that overrides a user's change.
pub open spec fn forced_removal_codes() -> RemovalCodes {
    RemovalCodes {
        already_committed: RecoveryCode::ForcedRemovalAlreadyCommitted,
        remove_rollback: RecoveryCode::RemoveCommittedForcedRollback,
        changed: RecoveryCode::ForcedRemovalStateChanged,
        not_started: RecoveryCode::ForcedRemovalNotStarted,
        restore_receipt: RecoveryCode::RestoreForcedRemovalReceipt,
        restore_file: RecoveryCode::RestoreForcedManagedFile,
        restore_file_and_receipt: RecoveryCode::RestoreForcedManagedFile,
        restore_file_and_backup: RecoveryCode::RestoreForcedFileAndBackup,
    }
}

fn codes_of_removal() -> (codes: RemovalCodes)
    ensures
        codes == removal_codes(),
{
    RemovalCodes {
        already_committed: RecoveryCode::RemovalAlreadyCommitted,
        remove_rollback: RecoveryCode::RemoveCommittedRemovalRollback,
        changed: RecoveryCode::RemovalStateChanged,
        not_started: RecoveryCode::RemovalNotStarted,
        restore_receipt: RecoveryCode::RestoreRemovedReceipt,
        restore_file: RecoveryCode::RestoreRemovedManagedFile,
        restore_file_and_receipt: RecoveryCode::RestoreRemovedFileAndReceipt,
        restore_file_and_backup: RecoveryCode::RestoreRemovedManagedFile,
    }
}

fn codes_of_backup_removal() -> (codes: RemovalCodes)
    ensures
        codes == backup_removal_codes(),
{
    RemovalCodes {
        already_committed: RecoveryCode::BackupRemovalAlreadyCommitted,
        remove_rollback: RecoveryCode::RemoveCommittedBackupRemovalRollback,
        changed: RecoveryCode::BackupRemovalStateChanged,
        not_started: RecoveryCode::BackupRemovalNotStarted,
        restore_receipt: RecoveryCode::RestoreBackupRemovalReceipt,
        restore_file: RecoveryCode::RestoreBackupRemovalManagedFile,
        restore_file_and_receipt: RecoveryCode::RestoreBackupRemovalManagedFile,
        restore_file_and_backup: RecoveryCode::RestoreBackupRemovalFileAndBackup,
    }
}

fn codes_of_forced_removal() -> (codes: RemovalCodes)
    ensures
        codes == forced_removal_codes(),
{
    RemovalCodes {
        already_committed: RecoveryCode::ForcedRemovalAlreadyCommitted,
        remove_rollback: RecoveryCode::RemoveCommittedForcedRollback,
        changed: RecoveryCode::ForcedRemovalStateChanged,
        not_started: RecoveryCode::ForcedRemovalNotStarted,
        restore_receipt: RecoveryCode::RestoreForcedRemovalReceipt,
        restore_file: RecoveryCode::RestoreForcedManagedFile,
        restore_file_and_receipt: RecoveryCode::RestoreForcedManagedFile,
        restore_file_and_backup: RecoveryCode::RestoreForcedFileAndBackup,
    }
}

/// What undoing a removal without a backup does. Where its receipt is already
/// durably gone only its rollback material is left to remove; otherwise the file
/// and the receipt are put back as far as they are gone.
pub open spec fn removal_decision(
    codes: RemovalCodes,
    committed: bool,
    previous_receipt: bool,
    hash: u64,
    mode: Option<u32>,
    destination: FileView,
    rollback: FileView,
) -> DecisionView {
    if committed {
        if destination is Missing && rollback is Missing {
            resting(PlanActionV1::Nothing, codes.already_committed)
        } else if destination is Missing && is_file(rollback, hash, mode) {
            needing(
                PlanActionV1::Remove,
                codes.remove_rollback,
                seq![removes(PathRole::Rollback)],
            )
        } else {
            resting(PlanActionV1::Blocked, codes.changed)
        }
    } else {
        let decision = match remove_assessment(destination, rollback, hash, mode) {
            RemoveRecoveryAssessment::NotStarted => if previous_receipt {
                resting(PlanActionV1::Nothing, codes.not_started)
            } else {
                resting(PlanActionV1::Update, codes.restore_receipt)
            },
            RemoveRecoveryAssessment::Restore => needing(
                PlanActionV1::Update,
                if previous_receipt {
                    codes.restore_file
                } else {
                    codes.restore_file_and_receipt
                },
                restore_needs(PathRole::Destination, PathRole::Rollback, false),
            ),
            RemoveRecoveryAssessment::Blocked => resting(PlanActionV1::Blocked, codes.changed),
        };
        DecisionView { restores_receipt: !previous_receipt, ..decision }
    }
}

/// The accesses for moving the user file back to its backup and the managed file
/// back to its destination.
pub open spec fn restore_both_needs() -> Seq<RoleAccess> {
    seq![
        removes(PathRole::Destination),
        writes(PathRole::Destination),
        writes(PathRole::Backup),
        removes(PathRole::Rollback),
    ]
}

/// What undoing a removal with a backup does.
pub open spec fn backup_removal_decision(
    codes: RemovalCodes,
    committed: bool,
    previous_receipt: bool,
    managed_hash: u64,
    managed_mode: Option<u32>,
    backup_hash: u64,
    backup_mode: Option<u32>,
    destination: FileView,
    backup: FileView,
    rollback: FileView,
) -> DecisionView {
    if committed {
        match committed_backup_remove_assessment(
            destination,
            backup,
            rollback,
            managed_hash,
            managed_mode,
            backup_hash,
            backup_mode,
        ) {
            CommittedBackupRemoveRecoveryAssessment::Complete => resting(
                PlanActionV1::Nothing,
                codes.already_committed,
            ),
            CommittedBackupRemoveRecoveryAssessment::RemoveRollback => needing(
                PlanActionV1::Remove,
                codes.remove_rollback,
                seq![removes(PathRole::Rollback)],
            ),
            CommittedBackupRemoveRecoveryAssessment::Blocked => resting(
                PlanActionV1::Blocked,
                codes.changed,
            ),
        }
    } else {
        let decision = match backup_remove_assessment(
            destination,
            backup,
            rollback,
            managed_hash,
            managed_mode,
            backup_hash,
            backup_mode,
        ) {
            BackupRemoveRecoveryAssessment::NotStarted => if previous_receipt {
                resting(PlanActionV1::Nothing, codes.not_started)
            } else {
                resting(PlanActionV1::Update, codes.restore_receipt)
            },
            BackupRemoveRecoveryAssessment::RestoreManaged => needing(
                PlanActionV1::Update,
                codes.restore_file,
                restore_needs(PathRole::Destination, PathRole::Rollback, false),
            ),
            BackupRemoveRecoveryAssessment::RestoreManagedAndBackup => needing(
                PlanActionV1::Update,
                codes.restore_file_and_backup,
                restore_both_needs(),
            ),
            BackupRemoveRecoveryAssessment::Blocked => resting(
                PlanActionV1::Blocked,
                codes.changed,
            ),
        };
        DecisionView { restores_receipt: !previous_receipt, ..decision }
    }
}

/// What settling the rollback material of a JSON change does.
pub open spec fn settled_json_decision(exact: Option<bool>, settled: RecoveryCode) -> DecisionView {
    match exact {
        Some(true) => needing(
            PlanActionV1::Remove,
            RecoveryCode::RemoveCommittedJsonRollback,
            seq![removes(PathRole::Rollback)],
        ),
        Some(false) => resting(PlanActionV1::Blocked, RecoveryCode::JsonRollbackChanged),
        None => resting(PlanActionV1::Nothing, settled),
    }
}

/// What undoing a merge does.
pub open spec fn json_merge_decision(
    assessment: JsonRecoveryAssessment,
    rollback: FileView,
) -> DecisionView {
    match assessment {
        JsonRecoveryAssessment::NotStarted => resting(
            PlanActionV1::Nothing,
            RecoveryCode::JsonMergeNotStarted,
        ),
        JsonRecoveryAssessment::AlreadyRestored => if rollback is Regular {
            needing(
                PlanActionV1::Remove,
                RecoveryCode::RemoveRestoredJsonRollback,
                seq![removes(PathRole::Rollback)],
            )
        } else {
            resting(PlanActionV1::Nothing, RecoveryCode::JsonMergeNotStarted)
        },
        JsonRecoveryAssessment::RestoreByMove => needing(
            PlanActionV1::Update,
            RecoveryCode::RestoreJsonManagedKeys,
            restore_needs(PathRole::Destination, PathRole::Rollback, false),
        ),
        JsonRecoveryAssessment::RestoreKeys => needing(
            PlanActionV1::Update,
            RecoveryCode::RestoreJsonManagedKeys,
            restore_needs(PathRole::Destination, PathRole::Rollback, false),
        ),
        JsonRecoveryAssessment::RemoveCreatedFile => needing(
            PlanActionV1::Remove,
            RecoveryCode::RemoveCreatedJsonFile,
            seq![removes(PathRole::Destination)],
        ),
        JsonRecoveryAssessment::RemoveCreatedKeys => needing(
            PlanActionV1::Update,
            RecoveryCode::RemoveCreatedJsonKeys,
            seq![writes(PathRole::Destination)],
        ),
        JsonRecoveryAssessment::Blocked => resting(
            PlanActionV1::Blocked,
            RecoveryCode::JsonStateChanged,
        ),
    }
}

/// What undoing the removal of managed keys does.
pub open spec fn json_removal_decision(
    assessment: JsonRecoveryAssessment,
    previous_receipt: bool,
) -> DecisionView {
    let decision = match assessment {
        JsonRecoveryAssessment::NotStarted => if previous_receipt {
            resting(PlanActionV1::Nothing, RecoveryCode::JsonRemovalNotStarted)
        } else {
            resting(PlanActionV1::Update, RecoveryCode::RestoreJsonRemovalReceipt)
        },
        JsonRecoveryAssessment::RestoreByMove => needing(
            PlanActionV1::Update,
            RecoveryCode::RestoreRemovedJsonKeys,
            restore_needs(PathRole::Destination, PathRole::Rollback, false),
        ),
        JsonRecoveryAssessment::RestoreKeys => needing(
            PlanActionV1::Update,
            RecoveryCode::RestoreRemovedJsonKeys,
            restore_needs(PathRole::Destination, PathRole::Rollback, false),
        ),
        JsonRecoveryAssessment::AlreadyRestored => needing(
            PlanActionV1::Remove,
            RecoveryCode::RemoveRestoredJsonRollback,
            seq![removes(PathRole::Rollback)],
        ),
        _ => resting(PlanActionV1::Blocked, RecoveryCode::JsonStateChanged),
    };
    DecisionView { restores_receipt: !previous_receipt, ..decision }
}

/// The parts whose paths are looked at before an action is undone.
pub open spec fn observed_roles(kind: ActionKindV1) -> Seq<PathRole> {
    match kind {
        ActionKindV1::CreateManagedFile { .. } => seq![PathRole::Destination],
        ActionKindV1::CreateManagedFileWithBackup { .. } => seq![
            PathRole::Destination,
            PathRole::Backup,
        ],
        ActionKindV1::UpdateManagedFile { .. } => seq![PathRole::Destination, PathRole::Rollback],
        ActionKindV1::RelocateManagedFile { previous_backup, .. } => {
            let roles = seq![
                PathRole::PreviousDestination,
                PathRole::PreviousRollback,
                PathRole::DesiredDestination,
            ];
            if previous_backup is Some {
                roles.push(PathRole::PreviousBackup)
            } else {
                roles
            }
        },
        ActionKindV1::RelocateManagedJson { .. } => seq![
            PathRole::PreviousDestination,
            PathRole::PreviousRollback,
            PathRole::DesiredDestination,
        ],
        ActionKindV1::RemoveManagedFile { .. } => seq![PathRole::Destination, PathRole::Rollback],
        ActionKindV1::RemoveManagedFileWithBackup { .. } => seq![
            PathRole::Destination,
            PathRole::Backup,
            PathRole::Rollback,
        ],
        ActionKindV1::ForceRemoveManagedFile { persistent_backup, .. } => {
            let roles = seq![PathRole::Destination, PathRole::Rollback];
            if persistent_backup is Some {
                roles.push(PathRole::Backup)
            } else {
                roles
            }
        },
        ActionKindV1::MergeManagedJson { .. } => seq![PathRole::Destination, PathRole::Rollback],
        ActionKindV1::RemoveManagedJson { .. } => seq![PathRole::Destination, PathRole::Rollback],
        ActionKindV1::Foreign(_) => Seq::empty(),
    }
}

/// What was found of a kept backup, where there is one.
pub open spec fn backup_identity(backup: Option<ForcedManagedFileBackupV1>) -> Option<
    (u64, Option<u32>),
> {
    match backup {
        Some(backup) => Some((backup.hash, backup.mode)),
        None => None,
    }
}

/// The assessment of a relocation of a whole file from what was found.
pub open spec fn relocation_state(kind: ActionKindV1, receipt: bool, files: Seq<FileView>) ->
    RelocationRecoveryAssessment {
    match kind {
        ActionKindV1::RelocateManagedFile {
            previous_backup,
            previous_present,
            previous_mode,
            previous_hash,
            desired_hash,
            ..
        } => {
            let backup = if previous_backup is Some {
                Some(files[3])
            } else {
                None
            };
            if receipt {
                committed_relocation(
                    files[0],
                    backup,
                    files[1],
                    files[2],
                    previous_present,
                    previous_mode,
                    previous_hash,
                    desired_hash,
                    backup_identity(previous_backup),
                )
            } else {
                uncommitted_relocation(
                    files[0],
                    backup,
                    files[1],
                    files[2],
                    previous_present,
                    previous_mode,
                    previous_hash,
                    desired_hash,
                    backup_identity(previous_backup),
                )
            }
        },
        _ => RelocationRecoveryAssessment::Blocked,
    }
}

/// The assessment of a relocation of managed keys from what was found.
pub open spec fn json_relocation_state(kind: ActionKindV1, receipt: bool, files: Seq<FileView>) ->
    Result<JsonRelocationRecoveryAssessment, JsonFault> {
    match kind {
        ActionKindV1::RelocateManagedJson {
            previous_present,
            previous_mode,
            previous_original_hash,
            previous_managed_keys,
            desired_managed_hash,
            desired_managed_keys,
            ..
        } => if receipt {
            committed_json_relocation(
                files[1],
                files[2],
                previous_present,
                previous_original_hash,
                previous_mode,
                desired_managed_hash,
                texts(desired_managed_keys@),
            )
        } else {
            uncommitted_json_relocation(
                files[0],
                files[1],
                files[2],
                previous_present,
                previous_original_hash,
                previous_mode,
                texts(previous_managed_keys@),
                desired_managed_hash,
                texts(desired_managed_keys@),
            )
        },
        _ => Ok(JsonRelocationRecoveryAssessment::Blocked),
    }
}

/// What undoing an action does, from how far it came, what the receipts say and
/// what was found at its paths.
pub open spec fn recovery_decision(
    kind: ActionKindV1,
    committed: bool,
    receipt: bool,
    previous_receipt: bool,
    files: Seq<FileView>,
) -> Result<DecisionView, JsonFault> {
    match kind {
        ActionKindV1::CreateManagedFile { desired_hash, .. } => Ok(
            create_decision(receipt, desired_hash, files[0]),
        ),
        ActionKindV1::CreateManagedFileWithBackup { original_hash, desired_hash, .. } => Ok(
            backup_create_decision(receipt, original_hash, desired_hash, files[0], files[1]),
        ),
        ActionKindV1::UpdateManagedFile { original_mode, original_hash, desired_hash, .. } => Ok(
            update_decision(
                receipt,
                original_hash,
                desired_hash,
                original_mode,
                files[0],
                files[1],
            ),
        ),
        ActionKindV1::RelocateManagedFile { .. } => Ok(
            relocation_decision(relocation_state(kind, receipt, files)),
        ),
        ActionKindV1::RelocateManagedJson { .. } => match json_relocation_state(
            kind,
            receipt,
            files,
        ) {
            Ok(assessment) => Ok(json_relocation_decision(assessment, files[1])),
            Err(fault) => Err(fault),
        },
        ActionKindV1::RemoveManagedFile { original_mode, original_hash, .. } => Ok(
            removal_decision(
                removal_codes(),
                committed,
                previous_receipt,
                original_hash,
                original_mode,
                files[0],
                files[1],
            ),
        ),
        ActionKindV1::RemoveManagedFileWithBackup {
            managed_mode,
            managed_hash,
            backup_mode,
            backup_hash,
            ..
        } => Ok(
            backup_removal_decision(
                backup_removal_codes(),
                committed,
                previous_receipt,
                managed_hash,
                managed_mode,
                backup_hash,
                backup_mode,
                files[0],
                files[1],
                files[2],
            ),
        ),
        ActionKindV1::ForceRemoveManagedFile {
            persistent_backup,
            current_mode,
            current_hash,
            ..
        } => Ok(
            match persistent_backup {
                Some(backup) => backup_removal_decision(
                    forced_removal_codes(),
                    committed,
                    previous_receipt,
                    current_hash,
                    current_mode,
                    backup.hash,
                    backup.mode,
                    files[0],
                    files[2],
                    files[1],
                ),
                None => removal_decision(
                    forced_removal_codes(),
                    committed,
                    previous_receipt,
                    current_hash,
                    current_mode,
                    files[0],
                    files[1],
                ),
            },
        ),
        ActionKindV1::MergeManagedJson {
            original_mode,
            original_hash,
            desired_managed_hash,
            managed_keys,
            ..
        } => if receipt {
            Ok(
                settled_json_decision(
                    rollback_exactness(files[1], original_hash, original_mode),
                    RecoveryCode::JsonReceiptAlreadyCommitted,
                ),
            )
        } else {
            match json_merge_assessment(
                files[0],
                files[1],
                original_hash,
                original_mode,
                desired_managed_hash,
                texts(managed_keys@),
            ) {
                Ok(assessment) => Ok(json_merge_decision(assessment, files[1])),
                Err(fault) => Err(fault),
            }
        },
        ActionKindV1::RemoveManagedJson { original_mode, original_hash, managed_keys, .. } =>
        if committed {
            Ok(
                settled_json_decision(
                    rollback_exactness(files[1], Some(original_hash), original_mode),
                    RecoveryCode::JsonRemovalAlreadyCommitted,
                ),
            )
        } else {
            match json_remove_assessment(
                files[0],
                files[1],
                original_hash,
                original_mode,
                texts(managed_keys@),
            ) {
                Ok(assessment) => Ok(json_removal_decision(assessment, previous_receipt)),
                Err(fault) => Err(fault),
            }
        },
        ActionKindV1::Foreign(_) => Ok(resting(PlanActionV1::Blocked, RecoveryCode::OpaqueAction)),
    }
}

/// The views of a list of findings.
pub open spec fn file_views(files: Seq<RecoveryFileObservation>) -> Seq<FileView> {
    files.map_values(|file: RecoveryFileObservation| file@)
}

/// A decision that was made, by its values.
pub open spec fn decided(result: Result<RecoveryDecision, JsonFault>) -> Result<
    DecisionView,
    JsonFault,
> {
    match result {
        Ok(decision) => Ok(decision@),
        Err(fault) => Err(fault),
    }
}

/// The parts whose paths are to be looked at before the action is undone.
pub fn roles_to_observe(kind: &ActionKindV1) -> (roles: Vec<PathRole>)
    ensures
        roles@ == observed_roles(*kind),
{
    let mut roles: Vec<PathRole> = Vec::new();
    match kind {
        ActionKindV1::CreateManagedFile { .. } => {
            roles.push(PathRole::Destination);
        },
        ActionKindV1::CreateManagedFileWithBackup { .. } => {
            roles.push(PathRole::Destination);
            roles.push(PathRole::Backup);
        },
        ActionKindV1::RelocateManagedFile { previous_backup, .. } => {
            roles.push(PathRole::PreviousDestination);
            roles.push(PathRole::PreviousRollback);
            roles.push(PathRole::DesiredDestination);
            if previous_backup.is_some() {
                roles.push(PathRole::PreviousBackup);
            }
        },
        ActionKindV1::RelocateManagedJson { .. } => {
            roles.push(PathRole::PreviousDestination);
            roles.push(PathRole::PreviousRollback);
            roles.push(PathRole::DesiredDestination);
        },
        ActionKindV1::RemoveManagedFileWithBackup { .. } => {
            roles.push(PathRole::Destination);
            roles.push(PathRole::Backup);
            roles.push(PathRole::Rollback);
        },
        ActionKindV1::ForceRemoveManagedFile { persistent_backup, .. } => {
            roles.push(PathRole::Destination);
            roles.push(PathRole::Rollback);
            if persistent_backup.is_some() {
                roles.push(PathRole::Backup);
            }
        },
        ActionKindV1::Foreign(_) => {},
        _ => {
            roles.push(PathRole::Destination);
            roles.push(PathRole::Rollback);
        },
    }
    proof {
        assert(roles@ =~= observed_roles(*kind));
    }
    roles
}

fn decide_create(receipt: bool, desired_hash: u64, destination: &RecoveryFileObservation) -> (
    decision: RecoveryDecision)
    ensures
        decision@ == create_decision(receipt, desired_hash, destination@),
{
    if receipt {
        rest(PlanActionV1::Nothing, RecoveryCode::ReceiptAlreadyCommitted)
    } else if destination.is_missing() {
        rest(PlanActionV1::Nothing, RecoveryCode::ResourceAbsent)
    } else if recovery_file_matches_hash(destination, desired_hash) {
        remove_one(RecoveryCode::RemoveCreatedFile, PathRole::Destination)
    } else {
        rest(PlanActionV1::Blocked, RecoveryCode::UserModified)
    }
}

fn decide_backup_create(
    receipt: bool,
    original_hash: u64,
    desired_hash: u64,
    destination: &RecoveryFileObservation,
    backup: &RecoveryFileObservation,
) -> (decision: RecoveryDecision)
    ensures
        decision@ == backup_create_decision(
            receipt,
            original_hash,
            desired_hash,
            destination@,
            backup@,
        ),
{
    if receipt {
        return rest(PlanActionV1::Nothing, RecoveryCode::ReceiptAlreadyCommitted);
    }
    match assess_backup_recovery(destination, backup, original_hash, desired_hash) {
        BackupRecoveryAssessment::NotStarted => rest(
            PlanActionV1::Nothing,
            RecoveryCode::BackupCreationNotStarted,
        ),
        BackupRecoveryAssessment::Restore { remove_destination } => restore(
            RecoveryCode::RestoreBackup,
            PathRole::Destination,
            PathRole::Backup,
            remove_destination,
        ),
        BackupRecoveryAssessment::Blocked => rest(
            PlanActionV1::Blocked,
            RecoveryCode::BackupStateChanged,
        ),
    }
}

fn decide_update(
    receipt: bool,
    original_hash: u64,
    desired_hash: u64,
    original_mode: Option<u32>,
    destination: &RecoveryFileObservation,
    rollback: &RecoveryFileObservation,
) -> (decision: RecoveryDecision)
    ensures
        decision@ == update_decision(
            receipt,
            original_hash,
            desired_hash,
            original_mode,
            destination@,
            rollback@,
        ),
{
    if receipt {
        return if rollback.is_missing() {
            rest(PlanActionV1::Nothing, RecoveryCode::ReceiptAlreadyCommitted)
        } else if recovery_file_matches(rollback, original_hash, original_mode) {
            remove_one(RecoveryCode::RemoveCommittedRollback, PathRole::Rollback)
        } else {
            rest(PlanActionV1::Blocked, RecoveryCode::RollbackStateChanged)
        };
    }
    match assess_update_recovery(
        destination,
        rollback,
        original_hash,
        desired_hash,
        original_mode,
    ) {
        BackupRecoveryAssessment::NotStarted => rest(
            PlanActionV1::Nothing,
            RecoveryCode::UpdateNotStarted,
        ),
        BackupRecoveryAssessment::Restore { remove_destination } => restore(
            RecoveryCode::RestorePreviousManagedFile,
            PathRole::Destination,
            PathRole::Rollback,
            remove_destination,
        ),
        BackupRecoveryAssessment::Blocked => rest(
            PlanActionV1::Blocked,
            RecoveryCode::RollbackStateChanged,
        ),
    }
}

fn decide_relocation(assessment: RelocationRecoveryAssessment) -> (decision: RecoveryDecision)
    ensures
        decision@ == relocation_decision(assessment),
{
    match assessment {
        RelocationRecoveryAssessment::NotStarted => rest(
            PlanActionV1::Nothing,
            RecoveryCode::RelocationNotStarted,
        ),
        RelocationRecoveryAssessment::RemoveDesired => remove_one(
            RecoveryCode::RemoveRelocatedDestination,
            PathRole::DesiredDestination,
        ),
        RelocationRecoveryAssessment::Restore { remove_desired, restore_backup } => {
            let mut decision = rest(PlanActionV1::Update, RecoveryCode::RestoreRelocationSource);
            if remove_desired {
                decision.needs.push(need_remove(PathRole::DesiredDestination));
            }
            if restore_backup {
                decision.needs.push(need_remove(PathRole::PreviousDestination));
                decision.needs.push(need_write(PathRole::PreviousBackup));
            }
            decision.needs.push(need_write(PathRole::PreviousDestination));
            decision.needs.push(need_remove(PathRole::PreviousRollback));
            proof {
                assert(decision.needs@ =~= relocation_needs(remove_desired, restore_backup));
            }
            decision
        },
        RelocationRecoveryAssessment::RemoveCommittedRollback => remove_one(
            RecoveryCode::RemoveCommittedRelocationRollback,
            PathRole::PreviousRollback,
        ),
        RelocationRecoveryAssessment::Committed => rest(
            PlanActionV1::Nothing,
            RecoveryCode::RelocationAlreadyCommitted,
        ),
        RelocationRecoveryAssessment::Blocked => rest(
            PlanActionV1::Blocked,
            RecoveryCode::RelocationStateChanged,
        ),
    }
}

fn decide_json_relocation(
    assessment: JsonRelocationRecoveryAssessment,
    rollback: &RecoveryFileObservation,
) -> (decision: RecoveryDecision)
    ensures
        decision@ == json_relocation_decision(assessment, rollback@),
{
    match assessment {
        JsonRelocationRecoveryAssessment::RemoveCommittedRollback => remove_one(
            RecoveryCode::RemoveCommittedJsonRelocationRollback,
            PathRole::PreviousRollback,
        ),
        JsonRelocationRecoveryAssessment::Committed => rest(
            PlanActionV1::Nothing,
            RecoveryCode::JsonRelocationAlreadyCommitted,
        ),
        JsonRelocationRecoveryAssessment::Blocked => rest(
            PlanActionV1::Blocked,
            RecoveryCode::JsonRelocationStateChanged,
        ),
        JsonRelocationRecoveryAssessment::Uncommitted { previous, desired } => {
            let mut needs: Vec<RoleAccess> = Vec::new();
            let mut writes_any = false;
            let mut removes_any = false;
            match previous {
                Some(JsonRecoveryAssessment::RestoreByMove) => {
                    needs.push(need_write(PathRole::PreviousDestination));
                    needs.push(need_remove(PathRole::PreviousRollback));
                    writes_any = true;
                    removes_any = true;
                },
                Some(JsonRecoveryAssessment::RestoreKeys) => {
                    needs.push(need_write(PathRole::PreviousDestination));
                    needs.push(need_remove(PathRole::PreviousRollback));
                    writes_any = true;
                    removes_any = true;
                },
                Some(JsonRecoveryAssessment::AlreadyRestored) => {
                    if rollback.is_regular() {
                        needs.push(need_remove(PathRole::PreviousRollback));
                        removes_any = true;
                    }
                },
                _ => {},
            }
            let ghost first = needs@;
            proof {
                assert(first =~= json_previous_needs(previous, rollback@));
            }
            match desired {
                JsonRecoveryAssessment::RemoveCreatedFile => {
                    needs.push(need_remove(PathRole::DesiredDestination));
                    removes_any = true;
                },
                JsonRecoveryAssessment::RemoveCreatedKeys => {
                    needs.push(need_write(PathRole::DesiredDestination));
                    writes_any = true;
                },
                _ => {},
            }
            let ghost all = json_previous_needs(previous, rollback@) + json_desired_needs(desired);
            proof {
                assert(needs@ =~= all);
                assert(writes_any == has_access(all, FilesystemAccessV1::Write)) by {
                    if writes_any {
                        if desired == JsonRecoveryAssessment::RemoveCreatedKeys {
                            assert(all[all.len() - 1].access == FilesystemAccessV1::Write);
                        } else {
                            assert(all[0].access == FilesystemAccessV1::Write);
                        }
                    }
                }
                assert((writes_any || removes_any) == (all.len() > 0));
            }
            if writes_any {
                RecoveryDecision {
                    action: PlanActionV1::Update,
                    code: RecoveryCode::RestoreJsonRelocation,
                    needs,
                    restores_receipt: false,
                }
            } else if removes_any {
                RecoveryDecision {
                    action: PlanActionV1::Remove,
                    code: RecoveryCode::RestoreJsonRelocation,
                    needs,
                    restores_receipt: false,
                }
            } else {
                rest(PlanActionV1::Nothing, RecoveryCode::JsonRelocationNotStarted)
            }
        },
    }
}

fn decide_removal(
    codes: RemovalCodes,
    committed: bool,
    previous_receipt: bool,
    hash: u64,
    mode: Option<u32>,
    destination: &RecoveryFileObservation,
    rollback: &RecoveryFileObservation,
) -> (decision: RecoveryDecision)
    ensures
        decision@ == removal_decision(
            codes,
            committed,
            previous_receipt,
            hash,
            mode,
            destination@,
            rollback@,
        ),
{
    if committed {
        return if destination.is_missing() && rollback.is_missing() {
            rest(PlanActionV1::Nothing, codes.already_committed)
        } else if destination.is_missing() && recovery_file_matches(rollback, hash, mode) {
            remove_one(codes.remove_rollback, PathRole::Rollback)
        } else {
            rest(PlanActionV1::Blocked, codes.changed)
        };
    }
    let mut decision = match assess_remove_recovery(destination, rollback, hash, mode) {
        RemoveRecoveryAssessment::NotStarted => if previous_receipt {
            rest(PlanActionV1::Nothing, codes.not_started)
        } else {
            rest(PlanActionV1::Update, codes.restore_receipt)
        },
        RemoveRecoveryAssessment::Restore => restore(
            if previous_receipt {
                codes.restore_file
            } else {
                codes.restore_file_and_receipt
            },
            PathRole::Destination,
            PathRole::Rollback,
            false,
        ),
        RemoveRecoveryAssessment::Blocked => rest(PlanActionV1::Blocked, codes.changed),
    };
    decision.restores_receipt = !previous_receipt;
    decision
}

fn decide_backup_removal(
    codes: RemovalCodes,
    committed: bool,
    previous_receipt: bool,
    managed_hash: u64,
    managed_mode: Option<u32>,
    backup_hash: u64,
    backup_mode: Option<u32>,
    destination: &RecoveryFileObservation,
    backup: &RecoveryFileObservation,
    rollback: &RecoveryFileObservation,
) -> (decision: RecoveryDecision)
    ensures
        decision@ == backup_removal_decision(
            codes,
            committed,
            previous_receipt,
            managed_hash,
            managed_mode,
            backup_hash,
            backup_mode,
            destination@,
            backup@,
            rollback@,
        ),
{
    if committed {
        return match assess_committed_backup_remove_recovery(
            destination,
            backup,
            rollback,
            managed_hash,
            managed_mode,
            backup_hash,
            backup_mode,
        ) {
            CommittedBackupRemoveRecoveryAssessment::Complete => rest(
                PlanActionV1::Nothing,
                codes.already_committed,
            ),
            CommittedBackupRemoveRecoveryAssessment::RemoveRollback => remove_one(
                codes.remove_rollback,
                PathRole::Rollback,
            ),
            CommittedBackupRemoveRecoveryAssessment::Blocked => rest(
                PlanActionV1::Blocked,
                codes.changed,
            ),
        };
    }
    let mut decision = match assess_backup_remove_recovery(
        destination,
        backup,
        rollback,
        managed_hash,
        managed_mode,
        backup_hash,
        backup_mode,
    ) {
        BackupRemoveRecoveryAssessment::NotStarted => if previous_receipt {
            rest(PlanActionV1::Nothing, codes.not_started)
        } else {
            rest(PlanActionV1::Update, codes.restore_receipt)
        },
        BackupRemoveRecoveryAssessment::RestoreManaged => restore(
            codes.restore_file,
            PathRole::Destination,
            PathRole::Rollback,
            false,
        ),
        BackupRemoveRecoveryAssessment::RestoreManagedAndBackup => {
            let mut both = rest(PlanActionV1::Update, codes.restore_file_and_backup);
            both.needs.push(need_remove(PathRole::Destination));
            both.needs.push(need_write(PathRole::Destination));
            both.needs.push(need_write(PathRole::Backup));
            both.needs.push(need_remove(PathRole::Rollback));
            proof {
                assert(both.needs@ =~= restore_both_needs());
            }
            both
        },
        BackupRemoveRecoveryAssessment::Blocked => rest(PlanActionV1::Blocked, codes.changed),
    };
    decision.restores_receipt = !previous_receipt;
    decision
}

fn decide_settled_json(exact: Option<bool>, settled: RecoveryCode) -> (decision: RecoveryDecision)
    ensures
        decision@ == settled_json_decision(exact, settled),
{
    match exact {
        Some(true) => remove_one(RecoveryCode::RemoveCommittedJsonRollback, PathRole::Rollback),
        Some(false) => rest(PlanActionV1::Blocked, RecoveryCode::JsonRollbackChanged),
        None => rest(PlanActionV1::Nothing, settled),
    }
}

fn decide_json_merge(assessment: JsonRecoveryAssessment, rollback: &RecoveryFileObservation) -> (
    decision: RecoveryDecision)
    ensures
        decision@ == json_merge_decision(assessment, rollback@),
{
    match assessment {
        JsonRecoveryAssessment::NotStarted => rest(
            PlanActionV1::Nothing,
            RecoveryCode::JsonMergeNotStarted,
        ),
        JsonRecoveryAssessment::AlreadyRestored => if rollback.is_regular() {
            remove_one(RecoveryCode::RemoveRestoredJsonRollback, PathRole::Rollback)
        } else {
            rest(PlanActionV1::Nothing, RecoveryCode::JsonMergeNotStarted)
        },
        JsonRecoveryAssessment::RestoreByMove => restore(
            RecoveryCode::RestoreJsonManagedKeys,
            PathRole::Destination,
            PathRole::Rollback,
            false,
        ),
        JsonRecoveryAssessment::RestoreKeys => restore(
            RecoveryCode::RestoreJsonManagedKeys,
            PathRole::Destination,
            PathRole::Rollback,
            false,
        ),
        JsonRecoveryAssessment::RemoveCreatedFile => remove_one(
            RecoveryCode::RemoveCreatedJsonFile,
            PathRole::Destination,
        ),
        JsonRecoveryAssessment::RemoveCreatedKeys => write_one(
            RecoveryCode::RemoveCreatedJsonKeys,
            PathRole::Destination,
        ),
        JsonRecoveryAssessment::Blocked => rest(
            PlanActionV1::Blocked,
            RecoveryCode::JsonStateChanged,
        ),
    }
}

fn decide_json_removal(assessment: JsonRecoveryAssessment, previous_receipt: bool) -> (decision:
    RecoveryDecision)
    ensures
        decision@ == json_removal_decision(assessment, previous_receipt),
{
    let mut decision = match assessment {
        JsonRecoveryAssessment::NotStarted => if previous_receipt {
            rest(PlanActionV1::Nothing, RecoveryCode::JsonRemovalNotStarted)
        } else {
            rest(PlanActionV1::Update, RecoveryCode::RestoreJsonRemovalReceipt)
        },
        JsonRecoveryAssessment::RestoreByMove => restore(
            RecoveryCode::RestoreRemovedJsonKeys,
            PathRole::Destination,
            PathRole::Rollback,
            false,
        ),
        JsonRecoveryAssessment::RestoreKeys => restore(
            RecoveryCode::RestoreRemovedJsonKeys,
            PathRole::Destination,
            PathRole::Rollback,
            false,
        ),
        JsonRecoveryAssessment::AlreadyRestored => remove_one(
            RecoveryCode::RemoveRestoredJsonRollback,
            PathRole::Rollback,
        ),
        _ => rest(PlanActionV1::Blocked, RecoveryCode::JsonStateChanged),
    };
    decision.restores_receipt = !previous_receipt;
    decision
}

/// How far the relocation of a whole file came, from what was found.
pub fn assess_file_relocation(
    kind: &ActionKindV1,
    receipt: bool,
    files: &Vec<RecoveryFileObservation>,
) -> (assessment: RelocationRecoveryAssessment)
    requires
        files@.len() == observed_roles(*kind).len(),
    ensures
        assessment == relocation_state(*kind, receipt, file_views(files@)),
{
    match kind {
        ActionKindV1::RelocateManagedFile {
            previous_backup,
            previous_present,
            previous_mode,
            previous_hash,
            desired_hash,
            ..
        } => {
            let (backup, identity) = match previous_backup {
                Some(backup) => (Some(&files[3]), Some((backup.hash, backup.mode))),
                None => (None, None),
            };
            assess_relocation_recovery(
                &files[0],
                backup,
                &files[1],
                &files[2],
                *previous_present,
                *previous_mode,
                *previous_hash,
                *desired_hash,
                identity,
                receipt,
            )
        },
        _ => RelocationRecoveryAssessment::Blocked,
    }
}

/// How far the relocation of managed keys came, from what was found.
pub fn assess_key_relocation(
    kind: &ActionKindV1,
    receipt: bool,
    files: &Vec<RecoveryFileObservation>,
) -> (result: Result<JsonRelocationRecoveryAssessment, JsonFault>)
    requires
        files@.len() == observed_roles(*kind).len(),
    ensures
        result == json_relocation_state(*kind, receipt, file_views(files@)),
{
    match kind {
        ActionKindV1::RelocateManagedJson {
            previous_present,
            previous_mode,
            previous_original_hash,
            previous_managed_keys,
            desired_managed_hash,
            desired_managed_keys,
            ..
        } => assess_json_relocation_recovery(
            &files[0],
            &files[1],
            &files[2],
            *previous_present,
            *previous_original_hash,
            *previous_mode,
            previous_managed_keys,
            *desired_managed_hash,
            desired_managed_keys,
            receipt,
        ),
        _ => Ok(JsonRelocationRecoveryAssessment::Blocked),
    }
}

/// What undoing the action does.
pub fn decide_recovery(
    kind: &ActionKindV1,
    committed: bool,
    receipt: bool,
    previous_receipt: bool,
    files: &Vec<RecoveryFileObservation>,
) -> (result: Result<RecoveryDecision, JsonFault>)
    requires
        files@.len() == observed_roles(*kind).len(),
    ensures
        decided(result) == recovery_decision(
            *kind,
            committed,
            receipt,
            previous_receipt,
            file_views(files@),
        ),
{
    match kind {
        ActionKindV1::CreateManagedFile { desired_hash, .. } => Ok(
            decide_create(receipt, *desired_hash, &files[0]),
        ),
        ActionKindV1::CreateManagedFileWithBackup { original_hash, desired_hash, .. } => Ok(
            decide_backup_create(receipt, *original_hash, *desired_hash, &files[0], &files[1]),
        ),
        ActionKindV1::UpdateManagedFile { original_mode, original_hash, desired_hash, .. } => Ok(
            decide_update(
                receipt,
                *original_hash,
                *desired_hash,
                *original_mode,
                &files[0],
                &files[1],
            ),
        ),
        ActionKindV1::RelocateManagedFile { .. } => Ok(
            decide_relocation(assess_file_relocation(kind, receipt, files)),
        ),
        ActionKindV1::RelocateManagedJson { .. } => match assess_key_relocation(
            kind,
            receipt,
            files,
        ) {
            Ok(assessment) => Ok(decide_json_relocation(assessment, &files[1])),
            Err(fault) => Err(fault),
        },
        ActionKindV1::RemoveManagedFile { original_mode, original_hash, .. } => Ok(
            decide_removal(
                codes_of_removal(),
                committed,
                previous_receipt,
                *original_hash,
                *original_mode,
                &files[0],
                &files[1],
            ),
        ),
        ActionKindV1::RemoveManagedFileWithBackup {
            managed_mode,
            managed_hash,
            backup_mode,
            backup_hash,
            ..
        } => Ok(
            decide_backup_removal(
                codes_of_backup_removal(),
                committed,
                previous_receipt,
                *managed_hash,
                *managed_mode,
                *backup_hash,
                *backup_mode,
                &files[0],
                &files[1],
                &files[2],
            ),
        ),
        ActionKindV1::ForceRemoveManagedFile {
            persistent_backup,
            current_mode,
            current_hash,
            ..
        } => match persistent_backup {
            Some(backup) => Ok(
                decide_backup_removal(
                    codes_of_forced_removal(),
                    committed,
                    previous_receipt,
                    *current_hash,
                    *current_mode,
                    backup.hash,
                    backup.mode,
                    &files[0],
                    &files[2],
                    &files[1],
                ),
            ),
            None => Ok(
                decide_removal(
                    codes_of_forced_removal(),
                    committed,
                    previous_receipt,
                    *current_hash,
                    *current_mode,
                    &files[0],
                    &files[1],
                ),
            ),
        },
        ActionKindV1::MergeManagedJson {
            original_mode,
            original_hash,
            desired_managed_hash,
            managed_keys,
            ..
        } => {
            if receipt {
                return Ok(
                    decide_settled_json(
                        json_rollback_is_exact(&files[1], *original_hash, *original_mode),
                        RecoveryCode::JsonReceiptAlreadyCommitted,
                    ),
                );
            }
            match assess_json_merge_recovery(
                &files[0],
                &files[1],
                *original_hash,
                *original_mode,
                *desired_managed_hash,
                managed_keys,
            ) {
                Ok(assessment) => Ok(decide_json_merge(assessment, &files[1])),
                Err(fault) => Err(fault),
            }
        },
        ActionKindV1::RemoveManagedJson { original_mode, original_hash, managed_keys, .. } => {
            if committed {
                return Ok(
                    decide_settled_json(
                        json_rollback_is_exact(&files[1], Some(*original_hash), *original_mode),
                        RecoveryCode::JsonRemovalAlreadyCommitted,
                    ),
                );
            }
            match assess_json_remove_recovery(
                &files[0],
                &files[1],
                *original_hash,
                *original_mode,
                managed_keys,
            ) {
                Ok(assessment) => Ok(decide_json_removal(assessment, previous_receipt)),
                Err(fault) => Err(fault),
            }
        },
        ActionKindV1::Foreign(_) => Ok(rest(PlanActionV1::Blocked, RecoveryCode::OpaqueAction)),
    }
}

} // verus!
