//! Undoing an interrupted operation.
//!
//! For each action, from the last to the first, the changes that undo it are
//! decided from what was found at its paths. Nothing is changed where something
//! that the operation does not own stands in the way.

use vstd::prelude::*;
use vstd::string::*;

use crate::action::{removes, writes, ActionKindV1, PathRole};
use crate::json::JsonFault;
use crate::recovery::{
    assess_backup_recovery, assess_backup_remove_recovery, assess_committed_backup_remove_recovery,
    assess_json_merge_recovery, assess_json_remove_recovery, assess_remove_recovery,
    assess_update_recovery, backup_assessment, backup_remove_assessment,
    committed_backup_remove_assessment, has_content, is_file, json_merge_assessment,
    json_remove_assessment, json_rollback_is_exact, recovery_file_matches,
    recovery_file_matches_hash, remove_assessment, rollback_exactness, update_assessment,
    BackupRecoveryAssessment, BackupRemoveRecoveryAssessment,
    CommittedBackupRemoveRecoveryAssessment, FileView, JsonRecoveryAssessment,
    JsonRelocationRecoveryAssessment, RecoveryFileObservation, RelocationRecoveryAssessment,
    RemoveRecoveryAssessment,
};
use crate::recovery_plan::{
    assess_file_relocation, assess_key_relocation, file_views, json_relocation_state,
    observed_roles, relocation_state, DecisionView,
};
use crate::text::texts;

verus! {

/// One change that undoes a part of an action.
#[derive(Clone, Copy, Debug, PartialEq, Eq, Structural)]
pub enum RecoveryMutation {
    /// Remove the file.
    Remove { role: PathRole, privileged: bool },
    /// Move the file.
    Move { from: PathRole, to: PathRole, privileged: bool },
    /// Write the object without the managed keys, and keep its mode.
    DropKeys { role: PathRole },
    /// Write the object with the managed keys of the rollback material, keep its
    /// mode, and remove the material.
    RestoreKeys { destination: PathRole, rollback: PathRole },
    /// Put the receipt back that the action took away.
    RestoreReceipt,
}

/// Why an action cannot be undone.
#[derive(Clone, Copy, Debug, PartialEq, Eq, Structural)]
pub enum RollbackFault {
    Json { fault: JsonFault },
    CreatedFileChanged,
    BackupChanged,
    UpdateMaterialChanged,
    UpdateChanged,
    RelocationChanged,
    JsonRelocationChanged,
    CommittedRemovalChanged,
    RemovalChanged,
    CommittedBackupRemovalChanged,
    BackupRemovalChanged,
    CommittedForcedRemovalChanged,
    ForcedBackupRemovalChanged,
    ForcedRemovalChanged,
    JsonMergeChanged,
    CommittedJsonMergeChanged,
    CommittedJsonRemovalChanged,
    JsonRemovalChanged,
    OpaqueAction,
}

impl RollbackFault {
    pub open spec fn text(self) -> Seq<char> {
        match self {
            RollbackFault::Json { fault } => fault.text(),
            RollbackFault::CreatedFileChanged =>
                "managed App file changed after the interrupted operation; recovery preserved it"@,
            RollbackFault::BackupChanged =>
                "managed App destination or backup changed after the interrupted operation; recovery preserved both"@,
            RollbackFault::UpdateMaterialChanged =>
                "App update rollback material changed after receipt commit; recovery preserved it"@,
            RollbackFault::UpdateChanged =>
                "managed App destination or rollback material changed after the interrupted update; recovery preserved both"@,
            RollbackFault::RelocationChanged =>
                "App relocation paths changed after the interrupted upgrade; recovery preserved them"@,
            RollbackFault::JsonRelocationChanged =>
                "managed JSON relocation state changed after the interrupted upgrade; recovery preserved both destinations and rollback material"@,
            RollbackFault::CommittedRemovalChanged =>
                "managed App removal state changed after receipt commit; recovery preserved it"@,
            RollbackFault::RemovalChanged =>
                "managed App destination or removal rollback material changed after the interrupted uninstall; recovery preserved both"@,
            RollbackFault::CommittedBackupRemovalChanged =>
                "backup-restoring App removal state changed after receipt commit; recovery preserved it"@,
            RollbackFault::BackupRemovalChanged =>
                "managed App destination, backup, or removal rollback material changed after the interrupted uninstall; recovery preserved all paths"@,
            RollbackFault::CommittedForcedRemovalChanged =>
                "forced App removal state changed after receipt commit; recovery preserved it"@,
            RollbackFault::ForcedBackupRemovalChanged =>
                "forced App destination, backup, or rollback material changed after the interrupted uninstall; recovery preserved all paths"@,
            RollbackFault::ForcedRemovalChanged =>
                "forced App destination or rollback material changed after the interrupted uninstall; recovery preserved both"@,
            RollbackFault::JsonMergeChanged =>
                "managed JSON keys or rollback material changed after the interrupted merge; recovery preserved both"@,
            RollbackFault::CommittedJsonMergeChanged =>
                "managed JSON rollback material changed after receipt commit; recovery preserved it"@,
            RollbackFault::CommittedJsonRemovalChanged =>
                "managed JSON removal rollback material changed after receipt commit; recovery preserved it"@,
            RollbackFault::JsonRemovalChanged =>
                "managed JSON keys or rollback material changed after the interrupted uninstall; recovery preserved both"@,
            RollbackFault::OpaqueAction => "opaque App actions cannot be rolled back automatically"@,
        }
    }

    /// The fault in words.
    pub fn message(self) -> (message: &'static str)
        ensures
            message@ == self.text(),
    {
        match self {
            RollbackFault::Json { fault } => fault.summary(),
            RollbackFault::CreatedFileChanged =>
                "managed App file changed after the interrupted operation; recovery preserved it",
            RollbackFault::BackupChanged =>
                "managed App destination or backup changed after the interrupted operation; recovery preserved both",
            RollbackFault::UpdateMaterialChanged =>
                "App update rollback material changed after receipt commit; recovery preserved it",
            RollbackFault::UpdateChanged =>
                "managed App destination or rollback material changed after the interrupted update; recovery preserved both",
            RollbackFault::RelocationChanged =>
                "App relocation paths changed after the interrupted upgrade; recovery preserved them",
            RollbackFault::JsonRelocationChanged =>
                "managed JSON relocation state changed after the interrupted upgrade; recovery preserved both destinations and rollback material",
            RollbackFault::CommittedRemovalChanged =>
                "managed App removal state changed after receipt commit; recovery preserved it",
            RollbackFault::RemovalChanged =>
                "managed App destination or removal rollback material changed after the interrupted uninstall; recovery preserved both",
            RollbackFault::CommittedBackupRemovalChanged =>
                "backup-restoring App removal state changed after receipt commit; recovery preserved it",
            RollbackFault::BackupRemovalChanged =>
                "managed App destination, backup, or removal rollback material changed after the interrupted uninstall; recovery preserved all paths",
            RollbackFault::CommittedForcedRemovalChanged =>
                "forced App removal state changed after receipt commit; recovery preserved it",
            RollbackFault::ForcedBackupRemovalChanged =>
                "forced App destination, backup, or rollback material changed after the interrupted uninstall; recovery preserved all paths",
            RollbackFault::ForcedRemovalChanged =>
                "forced App destination or rollback material changed after the interrupted uninstall; recovery preserved both",
            RollbackFault::JsonMergeChanged =>
                "managed JSON keys or rollback material changed after the interrupted merge; recovery preserved both",
            RollbackFault::CommittedJsonMergeChanged =>
                "managed JSON rollback material changed after receipt commit; recovery preserved it",
            RollbackFault::CommittedJsonRemovalChanged =>
                "managed JSON removal rollback material changed after receipt commit; recovery preserved it",
            RollbackFault::JsonRemovalChanged =>
                "managed JSON keys or rollback material changed after the interrupted uninstall; recovery preserved both",
            RollbackFault::OpaqueAction => "opaque App actions cannot be rolled back automatically",
        }
    }
}

/// The changes that undo an action, and whether the action counts as undone.
#[derive(Clone, Debug)]
pub struct Rollback {
    pub mutations: Vec<RecoveryMutation>,
    pub undone: bool,
}

/// The changes that undo an action, by their values.
pub ghost struct RollbackView {
    pub mutations: Seq<RecoveryMutation>,
    pub undone: bool,
}

impl View for Rollback {
    type V = RollbackView;

    open spec fn view(&self) -> RollbackView {
        RollbackView { mutations: self.mutations@, undone: self.undone }
    }
}

/// Changes that undo an action.
pub open spec fn undoing(mutations: Seq<RecoveryMutation>) -> Result<RollbackView, RollbackFault> {
    Ok(RollbackView { mutations, undone: true })
}

/// Changes that only tidy up after an action that stays.
pub open spec fn settling(mutations: Seq<RecoveryMutation>) -> Result<RollbackView, RollbackFault> {
    Ok(RollbackView { mutations, undone: false })
}

/// Moving material back, after removing what stands in its place where asked.
pub open spec fn move_back(
    destination: PathRole,
    material: PathRole,
    remove_destination: bool,
    privileged: bool,
) -> Seq<RecoveryMutation> {
    let moved = RecoveryMutation::Move { from: material, to: destination, privileged };
    if remove_destination {
        seq![RecoveryMutation::Remove { role: destination, privileged }, moved]
    } else {
        seq![moved]
    }
}

/// Putting the receipt back, where it is not there.
pub open spec fn receipt_back(previous_receipt: bool) -> Seq<RecoveryMutation> {
    if previous_receipt {
        Seq::empty()
    } else {
        seq![RecoveryMutation::RestoreReceipt]
    }
}

/// How a removal without a backup is undone.
pub open spec fn removal_rollback(
    committed: bool,
    previous_receipt: bool,
    hash: u64,
    mode: Option<u32>,
    privileged: bool,
    destination: FileView,
    rollback: FileView,
    changed_after_commit: RollbackFault,
    changed: RollbackFault,
) -> Result<RollbackView, RollbackFault> {
    if committed {
        if destination is Missing && rollback is Missing {
            settling(Seq::empty())
        } else if destination is Missing && is_file(rollback, hash, mode) {
            settling(seq![RecoveryMutation::Remove { role: PathRole::Rollback, privileged }])
        } else {
            Err(changed_after_commit)
        }
    } else {
        match remove_assessment(destination, rollback, hash, mode) {
            RemoveRecoveryAssessment::NotStarted => undoing(receipt_back(previous_receipt)),
            RemoveRecoveryAssessment::Restore => undoing(
                receipt_back(previous_receipt) + move_back(
                    PathRole::Destination,
                    PathRole::Rollback,
                    false,
                    privileged,
                ),
            ),
            RemoveRecoveryAssessment::Blocked => Err(changed),
        }
    }
}

/// How a removal with a backup is undone.
pub open spec fn backup_removal_rollback(
    committed: bool,
    previous_receipt: bool,
    managed_hash: u64,
    managed_mode: Option<u32>,
    backup_hash: u64,
    backup_mode: Option<u32>,
    privileged: bool,
    destination: FileView,
    backup: FileView,
    rollback: FileView,
    changed_after_commit: RollbackFault,
    changed: RollbackFault,
) -> Result<RollbackView, RollbackFault> {
    if committed {
        match committed_backup_remove_assessment(
            destination,
            backup,
            rollback,
            managed_hash,
            managed_mode,
            backup_hash,
            backup_mode,
        ) {
            CommittedBackupRemoveRecoveryAssessment::Complete => settling(Seq::empty()),
            CommittedBackupRemoveRecoveryAssessment::RemoveRollback => settling(
                seq![RecoveryMutation::Remove { role: PathRole::Rollback, privileged }],
            ),
            CommittedBackupRemoveRecoveryAssessment::Blocked => Err(changed_after_commit),
        }
    } else {
        match backup_remove_assessment(
            destination,
            backup,
            rollback,
            managed_hash,
            managed_mode,
            backup_hash,
            backup_mode,
        ) {
            BackupRemoveRecoveryAssessment::NotStarted => undoing(receipt_back(previous_receipt)),
            BackupRemoveRecoveryAssessment::RestoreManaged => undoing(
                receipt_back(previous_receipt) + move_back(
                    PathRole::Destination,
                    PathRole::Rollback,
                    false,
                    privileged,
                ),
            ),
            BackupRemoveRecoveryAssessment::RestoreManagedAndBackup => undoing(
                receipt_back(previous_receipt) + seq![
                    RecoveryMutation::Move {
                        from: PathRole::Destination,
                        to: PathRole::Backup,
                        privileged,
                    },
                    RecoveryMutation::Move {
                        from: PathRole::Rollback,
                        to: PathRole::Destination,
                        privileged,
                    },
                ],
            ),
            BackupRemoveRecoveryAssessment::Blocked => Err(changed),
        }
    }
}

/// How the relocation of a whole file is undone.
pub open spec fn relocation_rollback(
    assessment: RelocationRecoveryAssessment,
    previous_privileged: bool,
    desired_privileged: bool,
) -> Result<RollbackView, RollbackFault> {
    match assessment {
        RelocationRecoveryAssessment::NotStarted => undoing(Seq::empty()),
        RelocationRecoveryAssessment::RemoveDesired => undoing(
            seq![
                RecoveryMutation::Remove {
                    role: PathRole::DesiredDestination,
                    privileged: desired_privileged,
                },
            ],
        ),
        RelocationRecoveryAssessment::Restore { remove_desired, restore_backup } => {
            let first = if remove_desired {
                seq![
                    RecoveryMutation::Remove {
                        role: PathRole::DesiredDestination,
                        privileged: desired_privileged,
                    },
                ]
            } else {
                Seq::empty()
            };
            let second = if restore_backup {
                seq![
                    RecoveryMutation::Move {
                        from: PathRole::PreviousDestination,
                        to: PathRole::PreviousBackup,
                        privileged: previous_privileged,
                    },
                ]
            } else {
                Seq::empty()
            };
            undoing(
                first + second + seq![
                    RecoveryMutation::Move {
                        from: PathRole::PreviousRollback,
                        to: PathRole::PreviousDestination,
                        privileged: previous_privileged,
                    },
                ],
            )
        },
        RelocationRecoveryAssessment::RemoveCommittedRollback => settling(
            seq![
                RecoveryMutation::Remove {
                    role: PathRole::PreviousRollback,
                    privileged: previous_privileged,
                },
            ],
        ),
        RelocationRecoveryAssessment::Committed => settling(Seq::empty()),
        RelocationRecoveryAssessment::Blocked => Err(RollbackFault::RelocationChanged),
    }
}

/// How the new place of relocated managed keys is cleared.
pub open spec fn json_desired_rollback(desired: JsonRecoveryAssessment) -> Seq<RecoveryMutation> {
    match desired {
        JsonRecoveryAssessment::RemoveCreatedFile => seq![
            RecoveryMutation::Remove { role: PathRole::DesiredDestination, privileged: false },
        ],
        JsonRecoveryAssessment::RemoveCreatedKeys => seq![
            RecoveryMutation::DropKeys { role: PathRole::DesiredDestination },
        ],
        _ => Seq::empty(),
    }
}

/// How the old place of relocated managed keys is restored.
pub open spec fn json_previous_rollback(
    previous: Option<JsonRecoveryAssessment>,
    rollback: FileView,
) -> Seq<RecoveryMutation> {
    match previous {
        Some(JsonRecoveryAssessment::RestoreByMove) => move_back(
            PathRole::PreviousDestination,
            PathRole::PreviousRollback,
            false,
            false,
        ),
        Some(JsonRecoveryAssessment::RestoreKeys) => seq![
            RecoveryMutation::RestoreKeys {
                destination: PathRole::PreviousDestination,
                rollback: PathRole::PreviousRollback,
            },
        ],
        Some(JsonRecoveryAssessment::AlreadyRestored) => if rollback is Regular {
            seq![RecoveryMutation::Remove { role: PathRole::PreviousRollback, privileged: false }]
        } else {
            Seq::empty()
        },
        _ => Seq::empty(),
    }
}

/// How the relocation of managed keys is undone.
pub open spec fn json_relocation_rollback(
    assessment: JsonRelocationRecoveryAssessment,
    rollback: FileView,
) -> Result<RollbackView, RollbackFault> {
    match assessment {
        JsonRelocationRecoveryAssessment::RemoveCommittedRollback => settling(
            seq![RecoveryMutation::Remove { role: PathRole::PreviousRollback, privileged: false }],
        ),
        JsonRelocationRecoveryAssessment::Committed => settling(Seq::empty()),
        JsonRelocationRecoveryAssessment::Blocked => Err(RollbackFault::JsonRelocationChanged),
        JsonRelocationRecoveryAssessment::Uncommitted { previous, desired } => undoing(
            json_desired_rollback(desired) + json_previous_rollback(previous, rollback),
        ),
    }
}

/// How a merge is undone.
pub open spec fn json_merge_rollback(
    assessment: JsonRecoveryAssessment,
    rollback: FileView,
) -> Result<RollbackView, RollbackFault> {
    match assessment {
        JsonRecoveryAssessment::NotStarted => undoing(Seq::empty()),
        JsonRecoveryAssessment::RestoreByMove => undoing(
            move_back(PathRole::Destination, PathRole::Rollback, false, false),
        ),
        JsonRecoveryAssessment::RestoreKeys => undoing(
            seq![
                RecoveryMutation::RestoreKeys {
                    destination: PathRole::Destination,
                    rollback: PathRole::Rollback,
                },
            ],
        ),
        JsonRecoveryAssessment::AlreadyRestored => undoing(
            if rollback is Regular {
                seq![RecoveryMutation::Remove { role: PathRole::Rollback, privileged: false }]
            } else {
                Seq::empty()
            },
        ),
        JsonRecoveryAssessment::RemoveCreatedFile => undoing(
            seq![RecoveryMutation::Remove { role: PathRole::Destination, privileged: false }],
        ),
        JsonRecoveryAssessment::RemoveCreatedKeys => undoing(
            seq![RecoveryMutation::DropKeys { role: PathRole::Destination }],
        ),
        JsonRecoveryAssessment::Blocked => Err(RollbackFault::JsonMergeChanged),
    }
}

/// How the removal of managed keys is undone.
pub open spec fn json_removal_rollback(
    assessment: JsonRecoveryAssessment,
    previous_receipt: bool,
) -> Result<RollbackView, RollbackFault> {
    match assessment {
        JsonRecoveryAssessment::NotStarted => undoing(receipt_back(previous_receipt)),
        JsonRecoveryAssessment::RestoreByMove => undoing(
            receipt_back(previous_receipt) + move_back(
                PathRole::Destination,
                PathRole::Rollback,
                false,
                false,
            ),
        ),
        JsonRecoveryAssessment::RestoreKeys => undoing(
            receipt_back(previous_receipt) + seq![
                RecoveryMutation::RestoreKeys {
                    destination: PathRole::Destination,
                    rollback: PathRole::Rollback,
                },
            ],
        ),
        JsonRecoveryAssessment::AlreadyRestored => undoing(
            receipt_back(previous_receipt) + seq![
                RecoveryMutation::Remove { role: PathRole::Rollback, privileged: false },
            ],
        ),
        _ => Err(RollbackFault::JsonRemovalChanged),
    }
}

/// What is tidied up after a settled change of managed keys.
pub open spec fn settled_json_rollback(exact: Option<bool>, changed: RollbackFault) -> Result<
    RollbackView,
    RollbackFault,
> {
    match exact {
        None => settling(Seq::empty()),
        Some(true) => settling(
            seq![RecoveryMutation::Remove { role: PathRole::Rollback, privileged: false }],
        ),
        Some(false) => Err(changed),
    }
}

/// How an action is undone, from how far it came, what the receipts say and what
/// was found at its paths.
pub open spec fn rollback_of(
    kind: ActionKindV1,
    committed: bool,
    receipt: bool,
    previous_receipt: bool,
    files: Seq<FileView>,
) -> Result<RollbackView, RollbackFault> {
    match kind {
        ActionKindV1::CreateManagedFile { desired_hash, requires_admin, .. } => if receipt {
            settling(Seq::empty())
        } else if files[0] is Missing {
            undoing(Seq::empty())
        } else if has_content(files[0], desired_hash) {
            undoing(
                seq![
                    RecoveryMutation::Remove {
                        role: PathRole::Destination,
                        privileged: requires_admin,
                    },
                ],
            )
        } else {
            Err(RollbackFault::CreatedFileChanged)
        },
        ActionKindV1::CreateManagedFileWithBackup {
            original_hash,
            desired_hash,
            requires_admin,
            ..
        } => if receipt {
            settling(Seq::empty())
        } else {
            match backup_assessment(files[0], files[1], original_hash, desired_hash) {
                BackupRecoveryAssessment::NotStarted => undoing(Seq::empty()),
                BackupRecoveryAssessment::Restore { remove_destination } => undoing(
                    move_back(
                        PathRole::Destination,
                        PathRole::Backup,
                        remove_destination,
                        requires_admin,
                    ),
                ),
                BackupRecoveryAssessment::Blocked => Err(RollbackFault::BackupChanged),
            }
        },
        ActionKindV1::UpdateManagedFile {
            original_mode,
            original_hash,
            desired_hash,
            requires_admin,
            ..
        } => if receipt {
            if files[1] is Missing {
                settling(Seq::empty())
            } else if is_file(files[1], original_hash, original_mode) {
                settling(
                    seq![
                        RecoveryMutation::Remove {
                            role: PathRole::Rollback,
                            privileged: requires_admin,
                        },
                    ],
                )
            } else {
                Err(RollbackFault::UpdateMaterialChanged)
            }
        } else {
            match update_assessment(
                files[0],
                files[1],
                original_hash,
                desired_hash,
                original_mode,
            ) {
                BackupRecoveryAssessment::NotStarted => undoing(Seq::empty()),
                BackupRecoveryAssessment::Restore { remove_destination } => undoing(
                    move_back(
                        PathRole::Destination,
                        PathRole::Rollback,
                        remove_destination,
                        requires_admin,
                    ),
                ),
                BackupRecoveryAssessment::Blocked => Err(RollbackFault::UpdateChanged),
            }
        },
        ActionKindV1::RelocateManagedFile {
            previous_requires_admin,
            desired_requires_admin,
            ..
        } => relocation_rollback(
            relocation_state(kind, receipt, files),
            previous_requires_admin,
            desired_requires_admin,
        ),
        ActionKindV1::RelocateManagedJson { .. } => match json_relocation_state(
            kind,
            receipt,
            files,
        ) {
            Ok(assessment) => json_relocation_rollback(assessment, files[1]),
            Err(fault) => Err(RollbackFault::Json { fault }),
        },
        ActionKindV1::RemoveManagedFile { original_mode, original_hash, requires_admin, .. } =>
            removal_rollback(
            committed,
            previous_receipt,
            original_hash,
            original_mode,
            requires_admin,
            files[0],
            files[1],
            RollbackFault::CommittedRemovalChanged,
            RollbackFault::RemovalChanged,
        ),
        ActionKindV1::RemoveManagedFileWithBackup {
            managed_mode,
            managed_hash,
            backup_mode,
            backup_hash,
            requires_admin,
            ..
        } => backup_removal_rollback(
            committed,
            previous_receipt,
            managed_hash,
            managed_mode,
            backup_hash,
            backup_mode,
            requires_admin,
            files[0],
            files[1],
            files[2],
            RollbackFault::CommittedBackupRemovalChanged,
            RollbackFault::BackupRemovalChanged,
        ),
        ActionKindV1::ForceRemoveManagedFile {
            persistent_backup,
            current_mode,
            current_hash,
            requires_admin,
            ..
        } => match persistent_backup {
            Some(backup) => backup_removal_rollback(
                committed,
                previous_receipt,
                current_hash,
                current_mode,
                backup.hash,
                backup.mode,
                requires_admin,
                files[0],
                files[2],
                files[1],
                RollbackFault::CommittedForcedRemovalChanged,
                RollbackFault::ForcedBackupRemovalChanged,
            ),
            None => removal_rollback(
                committed,
                previous_receipt,
                current_hash,
                current_mode,
                requires_admin,
                files[0],
                files[1],
                RollbackFault::CommittedForcedRemovalChanged,
                RollbackFault::ForcedRemovalChanged,
            ),
        },
        ActionKindV1::MergeManagedJson {
            original_mode,
            original_hash,
            desired_managed_hash,
            managed_keys,
            ..
        } => if receipt {
            settled_json_rollback(
                rollback_exactness(files[1], original_hash, original_mode),
                RollbackFault::CommittedJsonMergeChanged,
            )
        } else {
            match json_merge_assessment(
                files[0],
                files[1],
                original_hash,
                original_mode,
                desired_managed_hash,
                texts(managed_keys@),
            ) {
                Ok(assessment) => json_merge_rollback(assessment, files[1]),
                Err(fault) => Err(RollbackFault::Json { fault }),
            }
        },
        ActionKindV1::RemoveManagedJson { original_mode, original_hash, managed_keys, .. } =>
        if committed {
            settled_json_rollback(
                rollback_exactness(files[1], Some(original_hash), original_mode),
                RollbackFault::CommittedJsonRemovalChanged,
            )
        } else {
            match json_remove_assessment(
                files[0],
                files[1],
                original_hash,
                original_mode,
                texts(managed_keys@),
            ) {
                Ok(assessment) => json_removal_rollback(assessment, previous_receipt),
                Err(fault) => Err(RollbackFault::Json { fault }),
            }
        },
        ActionKindV1::Foreign(_) => Err(RollbackFault::OpaqueAction),
    }
}

/// The outcome of deciding, by its values.
pub open spec fn rolled(result: Result<Rollback, RollbackFault>) -> Result<
    RollbackView,
    RollbackFault,
> {
    match result {
        Ok(rollback) => Ok(rollback@),
        Err(fault) => Err(fault),
    }
}

fn changes(undone: bool) -> (rollback: Rollback)
    ensures
        rollback@ == (RollbackView { mutations: Seq::empty(), undone }),
{
    let rollback = Rollback { mutations: Vec::new(), undone };
    proof {
        assert(rollback.mutations@ =~= Seq::<RecoveryMutation>::empty());
    }
    rollback
}

fn one_change(undone: bool, mutation: RecoveryMutation) -> (rollback: Rollback)
    ensures
        rollback@ == (RollbackView { mutations: seq![mutation], undone }),
{
    let mut rollback = changes(undone);
    rollback.mutations.push(mutation);
    proof {
        assert(rollback.mutations@ =~= seq![mutation]);
    }
    rollback
}

fn settle_json(exact: Option<bool>, changed: RollbackFault) -> (result: Result<
    Rollback,
    RollbackFault,
>)
    ensures
        rolled(result) == settled_json_rollback(exact, changed),
{
    match exact {
        None => Ok(changes(false)),
        Some(true) => Ok(
            one_change(
                false,
                RecoveryMutation::Remove { role: PathRole::Rollback, privileged: false },
            ),
        ),
        Some(false) => Err(changed),
    }
}

fn moving_back(
    destination: PathRole,
    material: PathRole,
    remove_destination: bool,
    privileged: bool,
) -> (rollback: Rollback)
    ensures
        rollback@ == (RollbackView {
            mutations: move_back(destination, material, remove_destination, privileged),
            undone: true,
        }),
{
    let mut rollback = changes(true);
    if remove_destination {
        rollback.mutations.push(RecoveryMutation::Remove { role: destination, privileged });
    }
    rollback.mutations.push(
        RecoveryMutation::Move { from: material, to: destination, privileged },
    );
    proof {
        assert(rollback.mutations@ =~= move_back(
            destination,
            material,
            remove_destination,
            privileged,
        ));
    }
    rollback
}

fn with_receipt(previous_receipt: bool) -> (rollback: Rollback)
    ensures
        rollback@ == (RollbackView { mutations: receipt_back(previous_receipt), undone: true }),
{
    let mut rollback = changes(true);
    if !previous_receipt {
        rollback.mutations.push(RecoveryMutation::RestoreReceipt);
    }
    proof {
        assert(rollback.mutations@ =~= receipt_back(previous_receipt));
    }
    rollback
}

fn undo_removal(
    committed: bool,
    previous_receipt: bool,
    hash: u64,
    mode: Option<u32>,
    privileged: bool,
    destination: &RecoveryFileObservation,
    rollback: &RecoveryFileObservation,
    changed_after_commit: RollbackFault,
    changed: RollbackFault,
) -> (result: Result<Rollback, RollbackFault>)
    ensures
        rolled(result) == removal_rollback(
            committed,
            previous_receipt,
            hash,
            mode,
            privileged,
            destination@,
            rollback@,
            changed_after_commit,
            changed,
        ),
{
    if committed {
        return if destination.is_missing() && rollback.is_missing() {
            Ok(changes(false))
        } else if destination.is_missing() && recovery_file_matches(rollback, hash, mode) {
            Ok(
                one_change(
                    false,
                    RecoveryMutation::Remove { role: PathRole::Rollback, privileged },
                ),
            )
        } else {
            Err(changed_after_commit)
        };
    }
    match assess_remove_recovery(destination, rollback, hash, mode) {
        RemoveRecoveryAssessment::NotStarted => Ok(with_receipt(previous_receipt)),
        RemoveRecoveryAssessment::Restore => {
            let mut undo = with_receipt(previous_receipt);
            undo.mutations.push(
                RecoveryMutation::Move {
                    from: PathRole::Rollback,
                    to: PathRole::Destination,
                    privileged,
                },
            );
            proof {
                assert(undo.mutations@ =~= receipt_back(previous_receipt) + move_back(
                    PathRole::Destination,
                    PathRole::Rollback,
                    false,
                    privileged,
                ));
            }
            Ok(undo)
        },
        RemoveRecoveryAssessment::Blocked => Err(changed),
    }
}

fn undo_backup_removal(
    committed: bool,
    previous_receipt: bool,
    managed_hash: u64,
    managed_mode: Option<u32>,
    backup_hash: u64,
    backup_mode: Option<u32>,
    privileged: bool,
    destination: &RecoveryFileObservation,
    backup: &RecoveryFileObservation,
    rollback: &RecoveryFileObservation,
    changed_after_commit: RollbackFault,
    changed: RollbackFault,
) -> (result: Result<Rollback, RollbackFault>)
    ensures
        rolled(result) == backup_removal_rollback(
            committed,
            previous_receipt,
            managed_hash,
            managed_mode,
            backup_hash,
            backup_mode,
            privileged,
            destination@,
            backup@,
            rollback@,
            changed_after_commit,
            changed,
        ),
{
    if committed {
        return match assess_committed_backup_remove_recovery(
            destination,
            backup,
            rollback,
            managed_hash,
            managed_mode,
            backup_hash,
            backup_mode,
        ) {
            CommittedBackupRemoveRecoveryAssessment::Complete => Ok(changes(false)),
            CommittedBackupRemoveRecoveryAssessment::RemoveRollback => Ok(
                one_change(
                    false,
                    RecoveryMutation::Remove { role: PathRole::Rollback, privileged },
                ),
            ),
            CommittedBackupRemoveRecoveryAssessment::Blocked => Err(changed_after_commit),
        };
    }
    match assess_backup_remove_recovery(
        destination,
        backup,
        rollback,
        managed_hash,
        managed_mode,
        backup_hash,
        backup_mode,
    ) {
        BackupRemoveRecoveryAssessment::NotStarted => Ok(with_receipt(previous_receipt)),
        BackupRemoveRecoveryAssessment::RestoreManaged => {
            let mut undo = with_receipt(previous_receipt);
            undo.mutations.push(
                RecoveryMutation::Move {
                    from: PathRole::Rollback,
                    to: PathRole::Destination,
                    privileged,
                },
            );
            proof {
                assert(undo.mutations@ =~= receipt_back(previous_receipt) + move_back(
                    PathRole::Destination,
                    PathRole::Rollback,
                    false,
                    privileged,
                ));
            }
            Ok(undo)
        },
        BackupRemoveRecoveryAssessment::RestoreManagedAndBackup => {
            let mut undo = with_receipt(previous_receipt);
            undo.mutations.push(
                RecoveryMutation::Move {
                    from: PathRole::Destination,
                    to: PathRole::Backup,
                    privileged,
                },
            );
            undo.mutations.push(
                RecoveryMutation::Move {
                    from: PathRole::Rollback,
                    to: PathRole::Destination,
                    privileged,
                },
            );
            proof {
                assert(undo.mutations@ =~= receipt_back(previous_receipt) + seq![
                    RecoveryMutation::Move {
                        from: PathRole::Destination,
                        to: PathRole::Backup,
                        privileged,
                    },
                    RecoveryMutation::Move {
                        from: PathRole::Rollback,
                        to: PathRole::Destination,
                        privileged,
                    },
                ]);
            }
            Ok(undo)
        },
        BackupRemoveRecoveryAssessment::Blocked => Err(changed),
    }
}

fn undo_relocation(
    assessment: RelocationRecoveryAssessment,
    previous_privileged: bool,
    desired_privileged: bool,
) -> (result: Result<Rollback, RollbackFault>)
    ensures
        rolled(result) == relocation_rollback(assessment, previous_privileged, desired_privileged),
{
    match assessment {
        RelocationRecoveryAssessment::NotStarted => Ok(changes(true)),
        RelocationRecoveryAssessment::RemoveDesired => Ok(
            one_change(
                true,
                RecoveryMutation::Remove {
                    role: PathRole::DesiredDestination,
                    privileged: desired_privileged,
                },
            ),
        ),
        RelocationRecoveryAssessment::Restore { remove_desired, restore_backup } => {
            let mut undo = changes(true);
            if remove_desired {
                undo.mutations.push(
                    RecoveryMutation::Remove {
                        role: PathRole::DesiredDestination,
                        privileged: desired_privileged,
                    },
                );
            }
            if restore_backup {
                undo.mutations.push(
                    RecoveryMutation::Move {
                        from: PathRole::PreviousDestination,
                        to: PathRole::PreviousBackup,
                        privileged: previous_privileged,
                    },
                );
            }
            undo.mutations.push(
                RecoveryMutation::Move {
                    from: PathRole::PreviousRollback,
                    to: PathRole::PreviousDestination,
                    privileged: previous_privileged,
                },
            );
            proof {
                let expected = relocation_rollback(
                    assessment,
                    previous_privileged,
                    desired_privileged,
                )->Ok_0.mutations;
                assert(undo.mutations@ =~= expected);
            }
            Ok(undo)
        },
        RelocationRecoveryAssessment::RemoveCommittedRollback => Ok(
            one_change(
                false,
                RecoveryMutation::Remove {
                    role: PathRole::PreviousRollback,
                    privileged: previous_privileged,
                },
            ),
        ),
        RelocationRecoveryAssessment::Committed => Ok(changes(false)),
        RelocationRecoveryAssessment::Blocked => Err(RollbackFault::RelocationChanged),
    }
}

fn undo_json_relocation(
    assessment: JsonRelocationRecoveryAssessment,
    rollback: &RecoveryFileObservation,
) -> (result: Result<Rollback, RollbackFault>)
    ensures
        rolled(result) == json_relocation_rollback(assessment, rollback@),
{
    match assessment {
        JsonRelocationRecoveryAssessment::RemoveCommittedRollback => Ok(
            one_change(
                false,
                RecoveryMutation::Remove { role: PathRole::PreviousRollback, privileged: false },
            ),
        ),
        JsonRelocationRecoveryAssessment::Committed => Ok(changes(false)),
        JsonRelocationRecoveryAssessment::Blocked => Err(RollbackFault::JsonRelocationChanged),
        JsonRelocationRecoveryAssessment::Uncommitted { previous, desired } => {
            let mut undo = changes(true);
            match desired {
                JsonRecoveryAssessment::RemoveCreatedFile => {
                    undo.mutations.push(
                        RecoveryMutation::Remove {
                            role: PathRole::DesiredDestination,
                            privileged: false,
                        },
                    );
                },
                JsonRecoveryAssessment::RemoveCreatedKeys => {
                    undo.mutations.push(
                        RecoveryMutation::DropKeys { role: PathRole::DesiredDestination },
                    );
                },
                _ => {},
            }
            match previous {
                Some(JsonRecoveryAssessment::RestoreByMove) => {
                    undo.mutations.push(
                        RecoveryMutation::Move {
                            from: PathRole::PreviousRollback,
                            to: PathRole::PreviousDestination,
                            privileged: false,
                        },
                    );
                },
                Some(JsonRecoveryAssessment::RestoreKeys) => {
                    undo.mutations.push(
                        RecoveryMutation::RestoreKeys {
                            destination: PathRole::PreviousDestination,
                            rollback: PathRole::PreviousRollback,
                        },
                    );
                },
                Some(JsonRecoveryAssessment::AlreadyRestored) => {
                    if rollback.is_regular() {
                        undo.mutations.push(
                            RecoveryMutation::Remove {
                                role: PathRole::PreviousRollback,
                                privileged: false,
                            },
                        );
                    }
                },
                _ => {},
            }
            proof {
                assert(undo.mutations@ =~= json_desired_rollback(desired) + json_previous_rollback(
                    previous,
                    rollback@,
                ));
            }
            Ok(undo)
        },
    }
}

fn undo_json_merge(assessment: JsonRecoveryAssessment, rollback: &RecoveryFileObservation) -> (
    result: Result<Rollback, RollbackFault>)
    ensures
        rolled(result) == json_merge_rollback(assessment, rollback@),
{
    match assessment {
        JsonRecoveryAssessment::NotStarted => Ok(changes(true)),
        JsonRecoveryAssessment::RestoreByMove => Ok(
            moving_back(PathRole::Destination, PathRole::Rollback, false, false),
        ),
        JsonRecoveryAssessment::RestoreKeys => Ok(
            one_change(
                true,
                RecoveryMutation::RestoreKeys {
                    destination: PathRole::Destination,
                    rollback: PathRole::Rollback,
                },
            ),
        ),
        JsonRecoveryAssessment::AlreadyRestored => if rollback.is_regular() {
            Ok(
                one_change(
                    true,
                    RecoveryMutation::Remove { role: PathRole::Rollback, privileged: false },
                ),
            )
        } else {
            Ok(changes(true))
        },
        JsonRecoveryAssessment::RemoveCreatedFile => Ok(
            one_change(
                true,
                RecoveryMutation::Remove { role: PathRole::Destination, privileged: false },
            ),
        ),
        JsonRecoveryAssessment::RemoveCreatedKeys => Ok(
            one_change(true, RecoveryMutation::DropKeys { role: PathRole::Destination }),
        ),
        JsonRecoveryAssessment::Blocked => Err(RollbackFault::JsonMergeChanged),
    }
}

fn undo_json_removal(assessment: JsonRecoveryAssessment, previous_receipt: bool) -> (result: Result<
    Rollback,
    RollbackFault,
>)
    ensures
        rolled(result) == json_removal_rollback(assessment, previous_receipt),
{
    let mut undo = with_receipt(previous_receipt);
    match assessment {
        JsonRecoveryAssessment::NotStarted => Ok(undo),
        JsonRecoveryAssessment::RestoreByMove => {
            undo.mutations.push(
                RecoveryMutation::Move {
                    from: PathRole::Rollback,
                    to: PathRole::Destination,
                    privileged: false,
                },
            );
            proof {
                assert(undo.mutations@ =~= receipt_back(previous_receipt) + move_back(
                    PathRole::Destination,
                    PathRole::Rollback,
                    false,
                    false,
                ));
            }
            Ok(undo)
        },
        JsonRecoveryAssessment::RestoreKeys => {
            undo.mutations.push(
                RecoveryMutation::RestoreKeys {
                    destination: PathRole::Destination,
                    rollback: PathRole::Rollback,
                },
            );
            proof {
                assert(undo.mutations@ =~= receipt_back(previous_receipt) + seq![
                    RecoveryMutation::RestoreKeys {
                        destination: PathRole::Destination,
                        rollback: PathRole::Rollback,
                    },
                ]);
            }
            Ok(undo)
        },
        JsonRecoveryAssessment::AlreadyRestored => {
            undo.mutations.push(
                RecoveryMutation::Remove { role: PathRole::Rollback, privileged: false },
            );
            proof {
                assert(undo.mutations@ =~= receipt_back(previous_receipt) + seq![
                    RecoveryMutation::Remove { role: PathRole::Rollback, privileged: false },
                ]);
            }
            Ok(undo)
        },
        _ => Err(RollbackFault::JsonRemovalChanged),
    }
}

/// How the action is undone.
pub fn decide_rollback(
    kind: &ActionKindV1,
    committed: bool,
    receipt: bool,
    previous_receipt: bool,
    files: &Vec<RecoveryFileObservation>,
) -> (result: Result<Rollback, RollbackFault>)
    requires
        files@.len() == observed_roles(*kind).len(),
    ensures
        rolled(result) == rollback_of(
            *kind,
            committed,
            receipt,
            previous_receipt,
            file_views(files@),
        ),
{
    match kind {
        ActionKindV1::CreateManagedFile { desired_hash, requires_admin, .. } => {
            if receipt {
                Ok(changes(false))
            } else if files[0].is_missing() {
                Ok(changes(true))
            } else if recovery_file_matches_hash(&files[0], *desired_hash) {
                Ok(
                    one_change(
                        true,
                        RecoveryMutation::Remove {
                            role: PathRole::Destination,
                            privileged: *requires_admin,
                        },
                    ),
                )
            } else {
                Err(RollbackFault::CreatedFileChanged)
            }
        },
        ActionKindV1::CreateManagedFileWithBackup {
            original_hash,
            desired_hash,
            requires_admin,
            ..
        } => {
            if receipt {
                return Ok(changes(false));
            }
            match assess_backup_recovery(&files[0], &files[1], *original_hash, *desired_hash) {
                BackupRecoveryAssessment::NotStarted => Ok(changes(true)),
                BackupRecoveryAssessment::Restore { remove_destination } => Ok(
                    moving_back(
                        PathRole::Destination,
                        PathRole::Backup,
                        remove_destination,
                        *requires_admin,
                    ),
                ),
                BackupRecoveryAssessment::Blocked => Err(RollbackFault::BackupChanged),
            }
        },
        ActionKindV1::UpdateManagedFile {
            original_mode,
            original_hash,
            desired_hash,
            requires_admin,
            ..
        } => {
            if receipt {
                return if files[1].is_missing() {
                    Ok(changes(false))
                } else if recovery_file_matches(&files[1], *original_hash, *original_mode) {
                    Ok(
                        one_change(
                            false,
                            RecoveryMutation::Remove {
                                role: PathRole::Rollback,
                                privileged: *requires_admin,
                            },
                        ),
                    )
                } else {
                    Err(RollbackFault::UpdateMaterialChanged)
                };
            }
            match assess_update_recovery(
                &files[0],
                &files[1],
                *original_hash,
                *desired_hash,
                *original_mode,
            ) {
                BackupRecoveryAssessment::NotStarted => Ok(changes(true)),
                BackupRecoveryAssessment::Restore { remove_destination } => Ok(
                    moving_back(
                        PathRole::Destination,
                        PathRole::Rollback,
                        remove_destination,
                        *requires_admin,
                    ),
                ),
                BackupRecoveryAssessment::Blocked => Err(RollbackFault::UpdateChanged),
            }
        },
        ActionKindV1::RelocateManagedFile {
            previous_requires_admin,
            desired_requires_admin,
            ..
        } => undo_relocation(
            assess_file_relocation(kind, receipt, files),
            *previous_requires_admin,
            *desired_requires_admin,
        ),
        ActionKindV1::RelocateManagedJson { .. } => match assess_key_relocation(
            kind,
            receipt,
            files,
        ) {
            Ok(assessment) => undo_json_relocation(assessment, &files[1]),
            Err(fault) => Err(RollbackFault::Json { fault }),
        },
        ActionKindV1::RemoveManagedFile { original_mode, original_hash, requires_admin, .. } =>
        undo_removal(
            committed,
            previous_receipt,
            *original_hash,
            *original_mode,
            *requires_admin,
            &files[0],
            &files[1],
            RollbackFault::CommittedRemovalChanged,
            RollbackFault::RemovalChanged,
        ),
        ActionKindV1::RemoveManagedFileWithBackup {
            managed_mode,
            managed_hash,
            backup_mode,
            backup_hash,
            requires_admin,
            ..
        } => undo_backup_removal(
            committed,
            previous_receipt,
            *managed_hash,
            *managed_mode,
            *backup_hash,
            *backup_mode,
            *requires_admin,
            &files[0],
            &files[1],
            &files[2],
            RollbackFault::CommittedBackupRemovalChanged,
            RollbackFault::BackupRemovalChanged,
        ),
        ActionKindV1::ForceRemoveManagedFile {
            persistent_backup,
            current_mode,
            current_hash,
            requires_admin,
            ..
        } => match persistent_backup {
            Some(backup) => undo_backup_removal(
                committed,
                previous_receipt,
                *current_hash,
                *current_mode,
                backup.hash,
                backup.mode,
                *requires_admin,
                &files[0],
                &files[2],
                &files[1],
                RollbackFault::CommittedForcedRemovalChanged,
                RollbackFault::ForcedBackupRemovalChanged,
            ),
            None => undo_removal(
                committed,
                previous_receipt,
                *current_hash,
                *current_mode,
                *requires_admin,
                &files[0],
                &files[1],
                RollbackFault::CommittedForcedRemovalChanged,
                RollbackFault::ForcedRemovalChanged,
            ),
        },
        ActionKindV1::MergeManagedJson {
            original_mode,
            original_hash,
            desired_managed_hash,
            managed_keys,
            ..
        } => {
            if receipt {
                return settle_json(
                    json_rollback_is_exact(&files[1], *original_hash, *original_mode),
                    RollbackFault::CommittedJsonMergeChanged,
                );
            }
            match assess_json_merge_recovery(
                &files[0],
                &files[1],
                *original_hash,
                *original_mode,
                *desired_managed_hash,
                managed_keys,
            ) {
                Ok(assessment) => undo_json_merge(assessment, &files[1]),
                Err(fault) => Err(RollbackFault::Json { fault }),
            }
        },
        ActionKindV1::RemoveManagedJson { original_mode, original_hash, managed_keys, .. } => {
            if committed {
                return settle_json(
                    json_rollback_is_exact(&files[1], Some(*original_hash), *original_mode),
                    RollbackFault::CommittedJsonRemovalChanged,
                );
            }
            match assess_json_remove_recovery(
                &files[0],
                &files[1],
                *original_hash,
                *original_mode,
                managed_keys,
            ) {
                Ok(assessment) => undo_json_removal(assessment, previous_receipt),
                Err(fault) => Err(RollbackFault::Json { fault }),
            }
        },
        ActionKindV1::Foreign(_) => Err(RollbackFault::OpaqueAction),
    }
}

/// Whether a plan allows a change: each path that the change takes from or
/// removes may be removed, each path it writes may be written, and a receipt is
/// put back only where the plan says so.
pub open spec fn plan_allows(decision: DecisionView, mutation: RecoveryMutation) -> bool {
    match mutation {
        RecoveryMutation::Remove { role, .. } => decision.needs.contains(removes(role)),
        RecoveryMutation::Move { from, to, .. } => decision.needs.contains(removes(from))
            && decision.needs.contains(writes(to)),
        RecoveryMutation::DropKeys { role } => decision.needs.contains(writes(role)),
        RecoveryMutation::RestoreKeys { destination, rollback } => decision.needs.contains(
            writes(destination),
        ) && decision.needs.contains(removes(rollback)),
        RecoveryMutation::RestoreReceipt => decision.restores_receipt,
    }
}

/// Whether a plan allows every change of a list.
pub open spec fn plan_allows_all(
    decision: DecisionView,
    mutations: Seq<RecoveryMutation>,
) -> bool {
    forall|i: int| 0 <= i < mutations.len() ==> plan_allows(decision, #[trigger] mutations[i])
}

} // verus!
