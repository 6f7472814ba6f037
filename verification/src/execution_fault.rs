//! What keeps an operation on managed files from being carried out.

use vstd::prelude::*;

use crate::action::ActionIrError;
use crate::json::JsonFault;
use crate::plan::PlanApprovalError;

verus! {

/// The operations that change managed files.
#[derive(Clone, Copy, Debug, PartialEq, Eq, Structural)]
pub enum ExecutionKind {
    FileCreation,
    FileUpdate,
    FileRelocation,
    JsonRelocation,
    JsonMerge,
    JsonRemoval,
    FileRemoval,
}

/// Why an operation is not carried out.
#[allow(inconsistent_fields)]
#[derive(Clone, Copy, Debug, PartialEq, Eq, Structural)]
pub enum ExecutionFault {
    Approval { error: PlanApprovalError },
    Actions { error: ActionIrError },
    Json { fault: JsonFault },
    WrongOperation,
    PermissionsUnknown,
    PermissionNotApproved,
    NotOneAction,
    NotDescribed,
    NotReversible,
    ContentMismatch,
    JournalPresent,
    Owned,
    PreviousReceiptMissing,
    ConflictingReceipt,
    NonCanonicalPath,
    DestinationPresent,
    RollbackPresent,
    BackupPresent,
    DesiredPresent,
    SourceAppeared,
    Uninspectable,
    NotRegular,
    ModeChanged,
    Missing,
    Changed,
    BackupNonCanonical,
    BackupUninspectable,
    BackupNotRegular,
    BackupModeChanged,
    BackupMissing,
    BackupChanged,
}

impl ExecutionFault {
    pub open spec fn text(self, kind: ExecutionKind) -> Seq<char> {
        match self {
            ExecutionFault::Approval { .. } => "the approval does not hold for this Plan"@,
            ExecutionFault::Actions { .. } => "the action IR is not valid"@,
            ExecutionFault::Json { fault } => fault.text(),
            ExecutionFault::WrongOperation => match kind {
                ExecutionKind::FileUpdate => "App managed-file update requires an install or upgrade Plan"@,
                ExecutionKind::FileRelocation => "App managed-file relocation requires an upgrade Plan"@,
                ExecutionKind::JsonRelocation => "managed JSON relocation requires an upgrade Plan"@,
                ExecutionKind::JsonMerge => "managed JSON merge requires an install or upgrade Plan"@,
                ExecutionKind::JsonRemoval => "managed JSON removal requires an uninstall or stale-prune upgrade Plan"@,
                ExecutionKind::FileRemoval => "App managed-file removal requires an uninstall or stale-prune upgrade Plan"@,
                ExecutionKind::FileCreation => "App managed-file creation requires an install Plan"@,
            },
            ExecutionFault::PermissionsUnknown => match kind {
                ExecutionKind::FileRelocation => "App relocation permissions were not included in the approved security Plan"@,
                ExecutionKind::JsonRelocation => "managed JSON relocation permissions were not included in the approved security Plan"@,
                ExecutionKind::JsonMerge => "managed JSON action permissions were not included in the approved security Plan"@,
                ExecutionKind::JsonRemoval => "managed JSON removal permissions were not included in the approved security Plan"@,
                _ => "action permissions are not fully computable"@,
            },
            ExecutionFault::PermissionNotApproved => match kind {
                ExecutionKind::FileRelocation => "App relocation permissions were not included in the approved security Plan"@,
                ExecutionKind::JsonRelocation => "managed JSON relocation permissions were not included in the approved security Plan"@,
                ExecutionKind::JsonMerge => "managed JSON action permissions were not included in the approved security Plan"@,
                ExecutionKind::JsonRemoval => "managed JSON removal permissions were not included in the approved security Plan"@,
                _ => "action permission was not included in the approved security Plan"@,
            },
            ExecutionFault::NotOneAction => match kind {
                ExecutionKind::FileUpdate => "the App managed-file update slice accepts exactly one action"@,
                ExecutionKind::FileRelocation => "the App relocation slice accepts exactly one action"@,
                ExecutionKind::JsonRelocation => "the managed JSON relocation slice accepts exactly one action"@,
                ExecutionKind::JsonMerge => "the managed JSON merge slice accepts exactly one action"@,
                ExecutionKind::JsonRemoval => "the managed JSON removal slice accepts exactly one action"@,
                ExecutionKind::FileRemoval => "the App managed-file removal slice accepts exactly one action"@,
                ExecutionKind::FileCreation => "the App managed-file creation slice accepts exactly one action"@,
            },
            ExecutionFault::NotDescribed => match kind {
                ExecutionKind::FileUpdate => "App managed-file update was not described by the approved security Plan"@,
                ExecutionKind::FileRelocation => "App relocation was not described by the approved security Plan"@,
                ExecutionKind::JsonRelocation => "managed JSON relocation was not described by the approved security Plan"@,
                ExecutionKind::JsonMerge => "managed JSON merge was not described by the approved security Plan"@,
                ExecutionKind::JsonRemoval => "managed JSON removal was not described by the approved security Plan"@,
                ExecutionKind::FileRemoval => "App managed-file removal was not described by the approved security Plan"@,
                ExecutionKind::FileCreation => "App managed-file action was not described by the approved security Plan"@,
            },
            ExecutionFault::NotReversible => match kind {
                ExecutionKind::FileUpdate => "the App managed-file update slice accepts only safely reversible declarative file replacement"@,
                ExecutionKind::FileRelocation => "the App relocation slice requires relocation-safe rollback"@,
                ExecutionKind::JsonRelocation => "the managed JSON relocation slice requires key-safe relocation rollback"@,
                ExecutionKind::JsonMerge => "the managed JSON merge slice requires key-safe rollback"@,
                ExecutionKind::JsonRemoval => "the managed JSON removal slice requires key-safe rollback"@,
                ExecutionKind::FileRemoval => "the App managed-file removal slice accepts only safely reversible declarative file removal"@,
                ExecutionKind::FileCreation => "the App managed-file creation slice accepts only safely reversible declarative file creation"@,
            },
            ExecutionFault::ContentMismatch => match kind {
                ExecutionKind::FileUpdate => "managed-file content does not match the update action IR identity"@,
                ExecutionKind::FileRelocation => "managed-file content does not match the relocation action IR identity"@,
                ExecutionKind::JsonRelocation => "managed JSON relocation source does not match the action IR identity"@,
                ExecutionKind::JsonMerge => "managed JSON source does not match the action IR identity"@,
                ExecutionKind::JsonRemoval => "managed JSON source does not match the action IR identity"@,
                _ => "managed-file content does not match the action IR identity"@,
            },
            ExecutionFault::JournalPresent => "an interrupted App operation must be recovered before starting another one"@,
            ExecutionFault::Owned => match kind {
                ExecutionKind::JsonRelocation => "managed JSON creation requires an unowned destination"@,
                ExecutionKind::JsonMerge => "managed JSON creation requires an unowned destination"@,
                ExecutionKind::JsonRemoval => "managed JSON creation requires an unowned destination"@,
                _ => "managed-file creation requires an unowned destination"@,
            },
            ExecutionFault::PreviousReceiptMissing => match kind {
                ExecutionKind::FileRelocation => "App relocation requires its exact previous receipt"@,
                ExecutionKind::JsonRelocation => "managed JSON relocation requires its exact previous App receipt"@,
                ExecutionKind::JsonMerge => "managed JSON update requires its exact previous App receipt"@,
                ExecutionKind::JsonRemoval => "managed JSON removal requires its exact previous App receipt"@,
                ExecutionKind::FileRemoval => "managed-file removal requires its exact App receipt"@,
                _ => "managed-file update requires its exact previous App receipt"@,
            },
            ExecutionFault::ConflictingReceipt => match kind {
                ExecutionKind::JsonRelocation => "another App receipt conflicts with the managed JSON relocation paths"@,
                ExecutionKind::JsonMerge => "another App receipt conflicts with the managed JSON relocation paths"@,
                ExecutionKind::JsonRemoval => "another App receipt conflicts with the managed JSON relocation paths"@,
                _ => "another App receipt conflicts with the relocation paths"@,
            },
            ExecutionFault::NonCanonicalPath => match kind {
                ExecutionKind::FileRemoval => "managed-file removal requires its canonical rollback path"@,
                _ => "managed-file update requires a distinct canonical rollback path"@,
            },
            ExecutionFault::DestinationPresent => match kind {
                ExecutionKind::JsonRelocation => "managed JSON creation requires an absent destination"@,
                ExecutionKind::JsonMerge => "managed JSON creation requires an absent destination"@,
                ExecutionKind::JsonRemoval => "managed JSON creation requires an absent destination"@,
                _ => "managed-file creation requires an absent destination"@,
            },
            ExecutionFault::RollbackPresent => match kind {
                ExecutionKind::FileRelocation => "App relocation rollback path must be absent and unowned"@,
                ExecutionKind::JsonRelocation => "managed JSON relocation rollback path must be absent and unowned"@,
                ExecutionKind::JsonMerge => "managed JSON rollback path must be absent and unowned"@,
                ExecutionKind::JsonRemoval => "managed JSON rollback path must be absent and unowned"@,
                ExecutionKind::FileRemoval => "managed-file rollback path must be absent before removal"@,
                _ => "managed-file rollback path must be absent before update"@,
            },
            ExecutionFault::BackupPresent => "managed-file backup path must be absent before creation"@,
            ExecutionFault::DesiredPresent => match kind {
                ExecutionKind::JsonRelocation => "managed JSON relocation requires an absent, unowned destination"@,
                ExecutionKind::JsonMerge => "managed JSON relocation requires an absent, unowned destination"@,
                ExecutionKind::JsonRemoval => "managed JSON relocation requires an absent, unowned destination"@,
                _ => "App relocation requires an absent, unowned destination"@,
            },
            ExecutionFault::SourceAppeared => match kind {
                ExecutionKind::JsonRelocation => "managed JSON relocation source appeared after Plan approval"@,
                ExecutionKind::JsonMerge => "managed JSON relocation source appeared after Plan approval"@,
                ExecutionKind::JsonRemoval => "managed JSON relocation source appeared after Plan approval"@,
                _ => "App relocation source appeared after Plan approval"@,
            },
            ExecutionFault::Uninspectable => match kind {
                ExecutionKind::FileCreation => "failed to inspect backup-aware App destination"@,
                ExecutionKind::FileRelocation => "failed to inspect App relocation source"@,
                ExecutionKind::JsonRelocation => "failed to inspect managed JSON relocation source"@,
                ExecutionKind::JsonMerge => "failed to inspect managed JSON destination"@,
                ExecutionKind::JsonRemoval => "failed to inspect managed JSON removal destination"@,
                _ => "failed to inspect managed App destination"@,
            },
            ExecutionFault::NotRegular => match kind {
                ExecutionKind::FileCreation => "backup-aware managed-file creation requires a regular file"@,
                ExecutionKind::FileUpdate => "managed-file update requires a regular destination"@,
                ExecutionKind::FileRelocation => "App relocation source kind or mode changed after Plan approval"@,
                ExecutionKind::JsonRelocation => "managed JSON relocation source kind or mode changed after Plan approval"@,
                ExecutionKind::FileRemoval => "managed-file removal requires a regular destination"@,
                _ => "managed JSON destination kind or mode changed after Plan approval"@,
            },
            ExecutionFault::ModeChanged => match kind {
                ExecutionKind::FileRelocation => "App relocation source kind or mode changed after Plan approval"@,
                ExecutionKind::JsonRelocation => "managed JSON relocation source kind or mode changed after Plan approval"@,
                ExecutionKind::JsonMerge => "managed JSON destination kind or mode changed after Plan approval"@,
                ExecutionKind::JsonRemoval => "managed JSON destination kind or mode changed after Plan approval"@,
                _ => "managed App destination mode changed after Plan approval"@,
            },
            ExecutionFault::Missing => match kind {
                ExecutionKind::FileUpdate => "managed-file update requires an existing destination"@,
                ExecutionKind::FileRelocation => "App relocation requires its previous managed file"@,
                ExecutionKind::JsonRelocation => "managed JSON relocation requires its previous destination"@,
                ExecutionKind::JsonMerge => "managed JSON merge requires its existing destination"@,
                ExecutionKind::JsonRemoval => "managed JSON removal requires its existing destination"@,
                ExecutionKind::FileRemoval => "managed-file removal requires an existing destination"@,
                ExecutionKind::FileCreation => "backup-aware managed-file creation requires an existing destination"@,
            },
            ExecutionFault::Changed => match kind {
                ExecutionKind::FileCreation => "managed-file destination changed after Plan approval"@,
                ExecutionKind::FileRelocation => "App relocation source changed after Plan approval"@,
                ExecutionKind::JsonRelocation => "managed JSON relocation source changed after Plan approval"@,
                ExecutionKind::JsonMerge => "managed JSON destination changed after Plan approval"@,
                ExecutionKind::JsonRemoval => "managed JSON destination changed after Plan approval"@,
                _ => "managed App destination changed after Plan approval"@,
            },
            ExecutionFault::BackupNonCanonical => match kind {
                ExecutionKind::FileRelocation => "App relocation requires its canonical previous backup"@,
                ExecutionKind::JsonRelocation => "App relocation requires its canonical previous backup"@,
                ExecutionKind::FileRemoval => "backup-restoring managed-file removal requires the fixed backup path"@,
                _ => "backup-aware managed-file creation requires the fixed backup path"@,
            },
            ExecutionFault::BackupUninspectable => match kind {
                ExecutionKind::FileRelocation => "failed to inspect App relocation backup"@,
                ExecutionKind::JsonRelocation => "failed to inspect App relocation backup"@,
                _ => "failed to inspect managed App persistent backup"@,
            },
            ExecutionFault::BackupNotRegular => match kind {
                ExecutionKind::FileRelocation => "App relocation backup kind or mode changed after Plan approval"@,
                ExecutionKind::JsonRelocation => "App relocation backup kind or mode changed after Plan approval"@,
                _ => "backup-restoring managed-file removal requires a regular backup"@,
            },
            ExecutionFault::BackupModeChanged => match kind {
                ExecutionKind::FileRelocation => "App relocation backup kind or mode changed after Plan approval"@,
                ExecutionKind::JsonRelocation => "App relocation backup kind or mode changed after Plan approval"@,
                _ => "managed App persistent backup mode changed after Plan approval"@,
            },
            ExecutionFault::BackupMissing => match kind {
                ExecutionKind::FileRelocation => "App relocation requires its previous persistent backup"@,
                ExecutionKind::JsonRelocation => "App relocation requires its previous persistent backup"@,
                _ => "backup-restoring managed-file removal requires an existing backup"@,
            },
            ExecutionFault::BackupChanged => match kind {
                ExecutionKind::FileRelocation => "App relocation backup changed after Plan approval"@,
                ExecutionKind::JsonRelocation => "App relocation backup changed after Plan approval"@,
                _ => "managed App persistent backup changed after Plan approval"@,
            },
        }
    }

    /// The fault in words.
    pub fn message(self, kind: ExecutionKind) -> (message: &'static str)
        ensures
            message@ == self.text(kind),
    {
        match self {
            ExecutionFault::Approval { .. } => "the approval does not hold for this Plan",
            ExecutionFault::Actions { .. } => "the action IR is not valid",
            ExecutionFault::Json { fault } => fault.summary(),
            ExecutionFault::WrongOperation => match kind {
                ExecutionKind::FileUpdate => "App managed-file update requires an install or upgrade Plan",
                ExecutionKind::FileRelocation => "App managed-file relocation requires an upgrade Plan",
                ExecutionKind::JsonRelocation => "managed JSON relocation requires an upgrade Plan",
                ExecutionKind::JsonMerge => "managed JSON merge requires an install or upgrade Plan",
                ExecutionKind::JsonRemoval => "managed JSON removal requires an uninstall or stale-prune upgrade Plan",
                ExecutionKind::FileRemoval => "App managed-file removal requires an uninstall or stale-prune upgrade Plan",
                ExecutionKind::FileCreation => "App managed-file creation requires an install Plan",
            },
            ExecutionFault::PermissionsUnknown => match kind {
                ExecutionKind::FileRelocation => "App relocation permissions were not included in the approved security Plan",
                ExecutionKind::JsonRelocation => "managed JSON relocation permissions were not included in the approved security Plan",
                ExecutionKind::JsonMerge => "managed JSON action permissions were not included in the approved security Plan",
                ExecutionKind::JsonRemoval => "managed JSON removal permissions were not included in the approved security Plan",
                _ => "action permissions are not fully computable",
            },
            ExecutionFault::PermissionNotApproved => match kind {
                ExecutionKind::FileRelocation => "App relocation permissions were not included in the approved security Plan",
                ExecutionKind::JsonRelocation => "managed JSON relocation permissions were not included in the approved security Plan",
                ExecutionKind::JsonMerge => "managed JSON action permissions were not included in the approved security Plan",
                ExecutionKind::JsonRemoval => "managed JSON removal permissions were not included in the approved security Plan",
                _ => "action permission was not included in the approved security Plan",
            },
            ExecutionFault::NotOneAction => match kind {
                ExecutionKind::FileUpdate => "the App managed-file update slice accepts exactly one action",
                ExecutionKind::FileRelocation => "the App relocation slice accepts exactly one action",
                ExecutionKind::JsonRelocation => "the managed JSON relocation slice accepts exactly one action",
                ExecutionKind::JsonMerge => "the managed JSON merge slice accepts exactly one action",
                ExecutionKind::JsonRemoval => "the managed JSON removal slice accepts exactly one action",
                ExecutionKind::FileRemoval => "the App managed-file removal slice accepts exactly one action",
                ExecutionKind::FileCreation => "the App managed-file creation slice accepts exactly one action",
            },
            ExecutionFault::NotDescribed => match kind {
                ExecutionKind::FileUpdate => "App managed-file update was not described by the approved security Plan",
                ExecutionKind::FileRelocation => "App relocation was not described by the approved security Plan",
                ExecutionKind::JsonRelocation => "managed JSON relocation was not described by the approved security Plan",
                ExecutionKind::JsonMerge => "managed JSON merge was not described by the approved security Plan",
                ExecutionKind::JsonRemoval => "managed JSON removal was not described by the approved security Plan",
                ExecutionKind::FileRemoval => "App managed-file removal was not described by the approved security Plan",
                ExecutionKind::FileCreation => "App managed-file action was not described by the approved security Plan",
            },
            ExecutionFault::NotReversible => match kind {
                ExecutionKind::FileUpdate => "the App managed-file update slice accepts only safely reversible declarative file replacement",
                ExecutionKind::FileRelocation => "the App relocation slice requires relocation-safe rollback",
                ExecutionKind::JsonRelocation => "the managed JSON relocation slice requires key-safe relocation rollback",
                ExecutionKind::JsonMerge => "the managed JSON merge slice requires key-safe rollback",
                ExecutionKind::JsonRemoval => "the managed JSON removal slice requires key-safe rollback",
                ExecutionKind::FileRemoval => "the App managed-file removal slice accepts only safely reversible declarative file removal",
                ExecutionKind::FileCreation => "the App managed-file creation slice accepts only safely reversible declarative file creation",
            },
            ExecutionFault::ContentMismatch => match kind {
                ExecutionKind::FileUpdate => "managed-file content does not match the update action IR identity",
                ExecutionKind::FileRelocation => "managed-file content does not match the relocation action IR identity",
                ExecutionKind::JsonRelocation => "managed JSON relocation source does not match the action IR identity",
                ExecutionKind::JsonMerge => "managed JSON source does not match the action IR identity",
                ExecutionKind::JsonRemoval => "managed JSON source does not match the action IR identity",
                _ => "managed-file content does not match the action IR identity",
            },
            ExecutionFault::JournalPresent => "an interrupted App operation must be recovered before starting another one",
            ExecutionFault::Owned => match kind {
                ExecutionKind::JsonRelocation => "managed JSON creation requires an unowned destination",
                ExecutionKind::JsonMerge => "managed JSON creation requires an unowned destination",
                ExecutionKind::JsonRemoval => "managed JSON creation requires an unowned destination",
                _ => "managed-file creation requires an unowned destination",
            },
            ExecutionFault::PreviousReceiptMissing => match kind {
                ExecutionKind::FileRelocation => "App relocation requires its exact previous receipt",
                ExecutionKind::JsonRelocation => "managed JSON relocation requires its exact previous App receipt",
                ExecutionKind::JsonMerge => "managed JSON update requires its exact previous App receipt",
                ExecutionKind::JsonRemoval => "managed JSON removal requires its exact previous App receipt",
                ExecutionKind::FileRemoval => "managed-file removal requires its exact App receipt",
                _ => "managed-file update requires its exact previous App receipt",
            },
            ExecutionFault::ConflictingReceipt => match kind {
                ExecutionKind::JsonRelocation => "another App receipt conflicts with the managed JSON relocation paths",
                ExecutionKind::JsonMerge => "another App receipt conflicts with the managed JSON relocation paths",
                ExecutionKind::JsonRemoval => "another App receipt conflicts with the managed JSON relocation paths",
                _ => "another App receipt conflicts with the relocation paths",
            },
            ExecutionFault::NonCanonicalPath => match kind {
                ExecutionKind::FileRemoval => "managed-file removal requires its canonical rollback path",
                _ => "managed-file update requires a distinct canonical rollback path",
            },
            ExecutionFault::DestinationPresent => match kind {
                ExecutionKind::JsonRelocation => "managed JSON creation requires an absent destination",
                ExecutionKind::JsonMerge => "managed JSON creation requires an absent destination",
                ExecutionKind::JsonRemoval => "managed JSON creation requires an absent destination",
                _ => "managed-file creation requires an absent destination",
            },
            ExecutionFault::RollbackPresent => match kind {
                ExecutionKind::FileRelocation => "App relocation rollback path must be absent and unowned",
                ExecutionKind::JsonRelocation => "managed JSON relocation rollback path must be absent and unowned",
                ExecutionKind::JsonMerge => "managed JSON rollback path must be absent and unowned",
                ExecutionKind::JsonRemoval => "managed JSON rollback path must be absent and unowned",
                ExecutionKind::FileRemoval => "managed-file rollback path must be absent before removal",
                _ => "managed-file rollback path must be absent before update",
            },
            ExecutionFault::BackupPresent => "managed-file backup path must be absent before creation",
            ExecutionFault::DesiredPresent => match kind {
                ExecutionKind::JsonRelocation => "managed JSON relocation requires an absent, unowned destination",
                ExecutionKind::JsonMerge => "managed JSON relocation requires an absent, unowned destination",
                ExecutionKind::JsonRemoval => "managed JSON relocation requires an absent, unowned destination",
                _ => "App relocation requires an absent, unowned destination",
            },
            ExecutionFault::SourceAppeared => match kind {
                ExecutionKind::JsonRelocation => "managed JSON relocation source appeared after Plan approval",
                ExecutionKind::JsonMerge => "managed JSON relocation source appeared after Plan approval",
                ExecutionKind::JsonRemoval => "managed JSON relocation source appeared after Plan approval",
                _ => "App relocation source appeared after Plan approval",
            },
            ExecutionFault::Uninspectable => match kind {
                ExecutionKind::FileCreation => "failed to inspect backup-aware App destination",
                ExecutionKind::FileRelocation => "failed to inspect App relocation source",
                ExecutionKind::JsonRelocation => "failed to inspect managed JSON relocation source",
                ExecutionKind::JsonMerge => "failed to inspect managed JSON destination",
                ExecutionKind::JsonRemoval => "failed to inspect managed JSON removal destination",
                _ => "failed to inspect managed App destination",
            },
            ExecutionFault::NotRegular => match kind {
                ExecutionKind::FileCreation => "backup-aware managed-file creation requires a regular file",
                ExecutionKind::FileUpdate => "managed-file update requires a regular destination",
                ExecutionKind::FileRelocation => "App relocation source kind or mode changed after Plan approval",
                ExecutionKind::JsonRelocation => "managed JSON relocation source kind or mode changed after Plan approval",
                ExecutionKind::FileRemoval => "managed-file removal requires a regular destination",
                _ => "managed JSON destination kind or mode changed after Plan approval",
            },
            ExecutionFault::ModeChanged => match kind {
                ExecutionKind::FileRelocation => "App relocation source kind or mode changed after Plan approval",
                ExecutionKind::JsonRelocation => "managed JSON relocation source kind or mode changed after Plan approval",
                ExecutionKind::JsonMerge => "managed JSON destination kind or mode changed after Plan approval",
                ExecutionKind::JsonRemoval => "managed JSON destination kind or mode changed after Plan approval",
                _ => "managed App destination mode changed after Plan approval",
            },
            ExecutionFault::Missing => match kind {
                ExecutionKind::FileUpdate => "managed-file update requires an existing destination",
                ExecutionKind::FileRelocation => "App relocation requires its previous managed file",
                ExecutionKind::JsonRelocation => "managed JSON relocation requires its previous destination",
                ExecutionKind::JsonMerge => "managed JSON merge requires its existing destination",
                ExecutionKind::JsonRemoval => "managed JSON removal requires its existing destination",
                ExecutionKind::FileRemoval => "managed-file removal requires an existing destination",
                ExecutionKind::FileCreation => "backup-aware managed-file creation requires an existing destination",
            },
            ExecutionFault::Changed => match kind {
                ExecutionKind::FileCreation => "managed-file destination changed after Plan approval",
                ExecutionKind::FileRelocation => "App relocation source changed after Plan approval",
                ExecutionKind::JsonRelocation => "managed JSON relocation source changed after Plan approval",
                ExecutionKind::JsonMerge => "managed JSON destination changed after Plan approval",
                ExecutionKind::JsonRemoval => "managed JSON destination changed after Plan approval",
                _ => "managed App destination changed after Plan approval",
            },
            ExecutionFault::BackupNonCanonical => match kind {
                ExecutionKind::FileRelocation => "App relocation requires its canonical previous backup",
                ExecutionKind::JsonRelocation => "App relocation requires its canonical previous backup",
                ExecutionKind::FileRemoval => "backup-restoring managed-file removal requires the fixed backup path",
                _ => "backup-aware managed-file creation requires the fixed backup path",
            },
            ExecutionFault::BackupUninspectable => match kind {
                ExecutionKind::FileRelocation => "failed to inspect App relocation backup",
                ExecutionKind::JsonRelocation => "failed to inspect App relocation backup",
                _ => "failed to inspect managed App persistent backup",
            },
            ExecutionFault::BackupNotRegular => match kind {
                ExecutionKind::FileRelocation => "App relocation backup kind or mode changed after Plan approval",
                ExecutionKind::JsonRelocation => "App relocation backup kind or mode changed after Plan approval",
                _ => "backup-restoring managed-file removal requires a regular backup",
            },
            ExecutionFault::BackupModeChanged => match kind {
                ExecutionKind::FileRelocation => "App relocation backup kind or mode changed after Plan approval",
                ExecutionKind::JsonRelocation => "App relocation backup kind or mode changed after Plan approval",
                _ => "managed App persistent backup mode changed after Plan approval",
            },
            ExecutionFault::BackupMissing => match kind {
                ExecutionKind::FileRelocation => "App relocation requires its previous persistent backup",
                ExecutionKind::JsonRelocation => "App relocation requires its previous persistent backup",
                _ => "backup-restoring managed-file removal requires an existing backup",
            },
            ExecutionFault::BackupChanged => match kind {
                ExecutionKind::FileRelocation => "App relocation backup changed after Plan approval",
                ExecutionKind::JsonRelocation => "App relocation backup changed after Plan approval",
                _ => "managed App persistent backup changed after Plan approval",
            },
        }
    }
}

} // verus!
