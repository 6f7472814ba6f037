//! Actions with the rollback path and the rollback support that belong to them.

use vstd::prelude::*;
use vstd::string::*;

use crate::action::{
    ActionKindV1, DeclarativeActionV1, ForcedManagedFileBackupV1, RollbackSupportV1,
};
use crate::journal::path_fault;
use crate::manifest::{managed_file_rollback_path, rollback_suffix};

verus! {

/// A creation that moves the user's file to its backup.
#[derive(Clone, Debug)]
pub struct ManagedFileCreationWithBackupSpecV1 {
    pub destination: String,
    pub backup: String,
    pub original_hash: u64,
    pub desired_hash: u64,
    pub requires_admin: bool,
}

/// An update of a managed file.
#[derive(Clone, Debug)]
pub struct ManagedFileUpdateSpecV1 {
    pub destination: String,
    pub previous_backup: Option<String>,
    pub original_mode: Option<u32>,
    pub original_hash: u64,
    pub desired_hash: u64,
    pub requires_admin: bool,
}

/// The removal of a managed file.
#[derive(Clone, Debug)]
pub struct ManagedFileRemoveSpecV1 {
    pub destination: String,
    pub original_mode: Option<u32>,
    pub original_hash: u64,
    pub uses_env: bool,
    pub requires_admin: bool,
}

/// The removal of a managed file whose backup is given back.
#[derive(Clone, Debug)]
pub struct ManagedFileRemoveWithBackupSpecV1 {
    pub destination: String,
    pub backup: String,
    pub managed_mode: Option<u32>,
    pub managed_hash: u64,
    pub backup_mode: Option<u32>,
    pub backup_hash: u64,
    pub uses_env: bool,
    pub requires_admin: bool,
}

/// The removal of a managed file that a user changed.
#[derive(Clone, Debug)]
pub struct ForcedManagedFileRemoveSpecV1 {
    pub destination: String,
    pub persistent_backup: Option<ForcedManagedFileBackupV1>,
    pub receipt_hash: u64,
    pub current_mode: Option<u32>,
    pub current_hash: u64,
    pub uses_env: bool,
    pub requires_admin: bool,
}

/// A merge of managed keys.
#[derive(Clone, Debug)]
pub struct ManagedJsonMergeSpecV1 {
    pub destination: String,
    pub original_mode: Option<u32>,
    pub original_hash: Option<u64>,
    pub previous_receipt_hash: Option<u64>,
    pub desired_managed_hash: u64,
    pub managed_keys: Vec<String>,
}

/// The removal of managed keys.
#[derive(Clone, Debug)]
pub struct ManagedJsonRemoveSpecV1 {
    pub destination: String,
    pub original_mode: Option<u32>,
    pub original_hash: u64,
    pub receipt_managed_hash: u64,
    pub current_managed_hash: u64,
    pub managed_keys: Vec<String>,
    pub uses_env: bool,
}

/// The relocation of a managed file.
#[derive(Clone, Debug)]
pub struct ManagedFileRelocationSpecV1 {
    pub previous_destination: String,
    pub previous_backup: Option<ForcedManagedFileBackupV1>,
    pub desired_destination: String,
    pub previous_present: bool,
    pub previous_mode: Option<u32>,
    pub previous_hash: u64,
    pub desired_hash: u64,
    pub previous_uses_env: bool,
    pub desired_uses_env: bool,
    pub previous_requires_admin: bool,
    pub desired_requires_admin: bool,
}

/// The relocation of managed keys.
#[derive(Clone, Debug)]
pub struct ManagedJsonRelocationSpecV1 {
    pub previous_destination: String,
    pub desired_destination: String,
    pub previous_present: bool,
    pub previous_mode: Option<u32>,
    pub previous_original_hash: Option<u64>,
    pub previous_receipt_hash: u64,
    pub previous_managed_keys: Vec<String>,
    pub desired_managed_hash: u64,
    pub desired_managed_keys: Vec<String>,
    pub previous_uses_env: bool,
    pub desired_uses_env: bool,
}

fn declared(
    action_id: &str,
    target: &str,
    resource: &str,
    kind: ActionKindV1,
    rollback: RollbackSupportV1,
) -> (action: DeclarativeActionV1)
    ensures
        action.action_id@ == action_id@,
        action.target@ == target@,
        action.resource@ == resource@,
        action.kind == kind,
        action.rollback == rollback,
{
    DeclarativeActionV1 {
        action_id: action_id.to_owned(),
        target: target.to_owned(),
        resource: resource.to_owned(),
        kind,
        rollback,
    }
}

impl DeclarativeActionV1 {
    /// Creates a file where there is none.
    pub fn create_managed_file(
        action_id: &str,
        target: &str,
        resource: &str,
        destination: String,
        desired_hash: u64,
        requires_admin: bool,
    ) -> (action: DeclarativeActionV1)
        ensures
            action.action_id@ == action_id@,
            action.target@ == target@,
            action.resource@ == resource@,
            action.rollback == RollbackSupportV1::RemoveCreatedIfUnchanged,
            action.kind == (ActionKindV1::CreateManagedFile {
                destination,
                desired_hash,
                requires_admin,
            }),
    {
        declared(
            action_id,
            target,
            resource,
            ActionKindV1::CreateManagedFile { destination, desired_hash, requires_admin },
            RollbackSupportV1::RemoveCreatedIfUnchanged,
        )
    }

    /// Creates a file and keeps the user's file as a backup.
    pub fn create_managed_file_with_backup(
        action_id: &str,
        target: &str,
        resource: &str,
        details: ManagedFileCreationWithBackupSpecV1,
    ) -> (action: DeclarativeActionV1)
        ensures
            action.action_id@ == action_id@,
            action.target@ == target@,
            action.resource@ == resource@,
            action.rollback == RollbackSupportV1::RestoreBackupIfUnchanged,
            action.kind == (ActionKindV1::CreateManagedFileWithBackup {
                destination: details.destination,
                backup: details.backup,
                original_hash: details.original_hash,
                desired_hash: details.desired_hash,
                requires_admin: details.requires_admin,
            }),
    {
        declared(
            action_id,
            target,
            resource,
            ActionKindV1::CreateManagedFileWithBackup {
                destination: details.destination,
                backup: details.backup,
                original_hash: details.original_hash,
                desired_hash: details.desired_hash,
                requires_admin: details.requires_admin,
            },
            RollbackSupportV1::RestoreBackupIfUnchanged,
        )
    }

    /// Replaces a managed file.
    pub fn update_managed_file(
        action_id: &str,
        target: &str,
        resource: &str,
        details: ManagedFileUpdateSpecV1,
    ) -> (action: DeclarativeActionV1)
        ensures
            action.action_id@ == action_id@,
            action.target@ == target@,
            action.resource@ == resource@,
            action.rollback == RollbackSupportV1::RestorePreviousIfUnchanged,
            path_fault(action.kind) is None,
            match action.kind {
                ActionKindV1::UpdateManagedFile {
                    destination,
                    rollback,
                    previous_backup,
                    original_mode,
                    original_hash,
                    desired_hash,
                    requires_admin,
                } => {
                    &&& destination == details.destination
                    &&& rollback@ == details.destination@ + rollback_suffix()
                    &&& previous_backup == details.previous_backup
                    &&& original_mode == details.original_mode
                    &&& original_hash == details.original_hash
                    &&& desired_hash == details.desired_hash
                    &&& requires_admin == details.requires_admin
                },
                _ => false,
            },
    {
        let rollback = managed_file_rollback_path(details.destination.as_str());
        declared(
            action_id,
            target,
            resource,
            ActionKindV1::UpdateManagedFile {
                destination: details.destination,
                rollback,
                previous_backup: details.previous_backup,
                original_mode: details.original_mode,
                original_hash: details.original_hash,
                desired_hash: details.desired_hash,
                requires_admin: details.requires_admin,
            },
            RollbackSupportV1::RestorePreviousIfUnchanged,
        )
    }

    /// Removes a managed file that was not changed.
    pub fn remove_managed_file(
        action_id: &str,
        target: &str,
        resource: &str,
        details: ManagedFileRemoveSpecV1,
    ) -> (action: DeclarativeActionV1)
        ensures
            action.action_id@ == action_id@,
            action.target@ == target@,
            action.resource@ == resource@,
            action.rollback == RollbackSupportV1::RestorePreviousIfUnchanged,
            path_fault(action.kind) is None,
            match action.kind {
                ActionKindV1::RemoveManagedFile {
                    destination,
                    rollback,
                    original_mode,
                    original_hash,
                    uses_env,
                    requires_admin,
                } => {
                    &&& destination == details.destination
                    &&& rollback@ == details.destination@ + rollback_suffix()
                    &&& original_mode == details.original_mode
                    &&& original_hash == details.original_hash
                    &&& uses_env == details.uses_env
                    &&& requires_admin == details.requires_admin
                },
                _ => false,
            },
    {
        let rollback = managed_file_rollback_path(details.destination.as_str());
        declared(
            action_id,
            target,
            resource,
            ActionKindV1::RemoveManagedFile {
                destination: details.destination,
                rollback,
                original_mode: details.original_mode,
                original_hash: details.original_hash,
                uses_env: details.uses_env,
                requires_admin: details.requires_admin,
            },
            RollbackSupportV1::RestorePreviousIfUnchanged,
        )
    }

    /// Removes a managed file and gives its backup back.
    pub fn remove_managed_file_with_backup(
        action_id: &str,
        target: &str,
        resource: &str,
        details: ManagedFileRemoveWithBackupSpecV1,
    ) -> (action: DeclarativeActionV1)
        ensures
            action.action_id@ == action_id@,
            action.target@ == target@,
            action.resource@ == resource@,
            action.rollback == RollbackSupportV1::RestorePreviousWithBackupIfUnchanged,
            match action.kind {
                ActionKindV1::RemoveManagedFileWithBackup {
                    destination,
                    backup,
                    rollback,
                    managed_mode,
                    managed_hash,
                    backup_mode,
                    backup_hash,
                    uses_env,
                    requires_admin,
                } => {
                    &&& destination == details.destination
                    &&& backup == details.backup
                    &&& rollback@ == details.destination@ + rollback_suffix()
                    &&& managed_mode == details.managed_mode
                    &&& managed_hash == details.managed_hash
                    &&& backup_mode == details.backup_mode
                    &&& backup_hash == details.backup_hash
                    &&& uses_env == details.uses_env
                    &&& requires_admin == details.requires_admin
                },
                _ => false,
            },
    {
        let rollback = managed_file_rollback_path(details.destination.as_str());
        declared(
            action_id,
            target,
            resource,
            ActionKindV1::RemoveManagedFileWithBackup {
                destination: details.destination,
                backup: details.backup,
                rollback,
                managed_mode: details.managed_mode,
                managed_hash: details.managed_hash,
                backup_mode: details.backup_mode,
                backup_hash: details.backup_hash,
                uses_env: details.uses_env,
                requires_admin: details.requires_admin,
            },
            RollbackSupportV1::RestorePreviousWithBackupIfUnchanged,
        )
    }

    /// Removes a managed file that a user changed.
    pub fn force_remove_managed_file(
        action_id: &str,
        target: &str,
        resource: &str,
        details: ForcedManagedFileRemoveSpecV1,
    ) -> (action: DeclarativeActionV1)
        ensures
            action.action_id@ == action_id@,
            action.target@ == target@,
            action.resource@ == resource@,
            action.rollback == RollbackSupportV1::RestoreForcedPreviousIfUnchanged,
            match action.kind {
                ActionKindV1::ForceRemoveManagedFile {
                    destination,
                    persistent_backup,
                    rollback,
                    receipt_hash,
                    current_mode,
                    current_hash,
                    uses_env,
                    requires_admin,
                } => {
                    &&& destination == details.destination
                    &&& persistent_backup == details.persistent_backup
                    &&& rollback@ == details.destination@ + rollback_suffix()
                    &&& receipt_hash == details.receipt_hash
                    &&& current_mode == details.current_mode
                    &&& current_hash == details.current_hash
                    &&& uses_env == details.uses_env
                    &&& requires_admin == details.requires_admin
                },
                _ => false,
            },
    {
        let rollback = managed_file_rollback_path(details.destination.as_str());
        declared(
            action_id,
            target,
            resource,
            ActionKindV1::ForceRemoveManagedFile {
                destination: details.destination,
                persistent_backup: details.persistent_backup,
                rollback,
                receipt_hash: details.receipt_hash,
                current_mode: details.current_mode,
                current_hash: details.current_hash,
                uses_env: details.uses_env,
                requires_admin: details.requires_admin,
            },
            RollbackSupportV1::RestoreForcedPreviousIfUnchanged,
        )
    }

    /// Merges managed keys into an object.
    pub fn merge_managed_json(
        action_id: &str,
        target: &str,
        resource: &str,
        details: ManagedJsonMergeSpecV1,
    ) -> (action: DeclarativeActionV1)
        ensures
            action.action_id@ == action_id@,
            action.target@ == target@,
            action.resource@ == resource@,
            action.rollback == RollbackSupportV1::RestoreJsonKeysIfUnchanged,
            path_fault(action.kind) is None,
            match action.kind {
                ActionKindV1::MergeManagedJson {
                    destination,
                    rollback,
                    original_mode,
                    original_hash,
                    previous_receipt_hash,
                    desired_managed_hash,
                    managed_keys,
                } => {
                    &&& destination == details.destination
                    &&& rollback@ == details.destination@ + rollback_suffix()
                    &&& original_mode == details.original_mode
                    &&& original_hash == details.original_hash
                    &&& previous_receipt_hash == details.previous_receipt_hash
                    &&& desired_managed_hash == details.desired_managed_hash
                    &&& managed_keys == details.managed_keys
                },
                _ => false,
            },
    {
        let rollback = managed_file_rollback_path(details.destination.as_str());
        declared(
            action_id,
            target,
            resource,
            ActionKindV1::MergeManagedJson {
                destination: details.destination,
                rollback,
                original_mode: details.original_mode,
                original_hash: details.original_hash,
                previous_receipt_hash: details.previous_receipt_hash,
                desired_managed_hash: details.desired_managed_hash,
                managed_keys: details.managed_keys,
            },
            RollbackSupportV1::RestoreJsonKeysIfUnchanged,
        )
    }

    /// Removes managed keys from an object.
    pub fn remove_managed_json(
        action_id: &str,
        target: &str,
        resource: &str,
        details: ManagedJsonRemoveSpecV1,
    ) -> (action: DeclarativeActionV1)
        ensures
            action.action_id@ == action_id@,
            action.target@ == target@,
            action.resource@ == resource@,
            action.rollback == RollbackSupportV1::RestoreRemovedJsonKeysIfUnchanged,
            path_fault(action.kind) is None,
            match action.kind {
                ActionKindV1::RemoveManagedJson {
                    destination,
                    rollback,
                    original_mode,
                    original_hash,
                    receipt_managed_hash,
                    current_managed_hash,
                    managed_keys,
                    uses_env,
                } => {
                    &&& destination == details.destination
                    &&& rollback@ == details.destination@ + rollback_suffix()
                    &&& original_mode == details.original_mode
                    &&& original_hash == details.original_hash
                    &&& receipt_managed_hash == details.receipt_managed_hash
                    &&& current_managed_hash == details.current_managed_hash
                    &&& managed_keys == details.managed_keys
                    &&& uses_env == details.uses_env
                },
                _ => false,
            },
    {
        let rollback = managed_file_rollback_path(details.destination.as_str());
        declared(
            action_id,
            target,
            resource,
            ActionKindV1::RemoveManagedJson {
                destination: details.destination,
                rollback,
                original_mode: details.original_mode,
                original_hash: details.original_hash,
                receipt_managed_hash: details.receipt_managed_hash,
                current_managed_hash: details.current_managed_hash,
                managed_keys: details.managed_keys,
                uses_env: details.uses_env,
            },
            RollbackSupportV1::RestoreRemovedJsonKeysIfUnchanged,
        )
    }

    /// Moves a managed file to a new destination.
    pub fn relocate_managed_file(
        action_id: &str,
        target: &str,
        resource: &str,
        details: ManagedFileRelocationSpecV1,
    ) -> (action: DeclarativeActionV1)
        ensures
            action.action_id@ == action_id@,
            action.target@ == target@,
            action.resource@ == resource@,
            action.rollback == RollbackSupportV1::RestoreRelocatedPreviousIfUnchanged,
            match action.kind {
                ActionKindV1::RelocateManagedFile {
                    previous_destination,
                    previous_backup,
                    previous_rollback,
                    desired_destination,
                    previous_present,
                    previous_mode,
                    previous_hash,
                    desired_hash,
                    previous_uses_env,
                    desired_uses_env,
                    previous_requires_admin,
                    desired_requires_admin,
                } => {
                    &&& previous_destination == details.previous_destination
                    &&& previous_backup == details.previous_backup
                    &&& previous_rollback@ == details.previous_destination@ + rollback_suffix()
                    &&& desired_destination == details.desired_destination
                    &&& previous_present == details.previous_present
                    &&& previous_mode == details.previous_mode
                    &&& previous_hash == details.previous_hash
                    &&& desired_hash == details.desired_hash
                    &&& previous_uses_env == details.previous_uses_env
                    &&& desired_uses_env == details.desired_uses_env
                    &&& previous_requires_admin == details.previous_requires_admin
                    &&& desired_requires_admin == details.desired_requires_admin
                },
                _ => false,
            },
    {
        let previous_rollback = managed_file_rollback_path(details.previous_destination.as_str());
        declared(
            action_id,
            target,
            resource,
            ActionKindV1::RelocateManagedFile {
                previous_destination: details.previous_destination,
                previous_backup: details.previous_backup,
                previous_rollback,
                desired_destination: details.desired_destination,
                previous_present: details.previous_present,
                previous_mode: details.previous_mode,
                previous_hash: details.previous_hash,
                desired_hash: details.desired_hash,
                previous_uses_env: details.previous_uses_env,
                desired_uses_env: details.desired_uses_env,
                previous_requires_admin: details.previous_requires_admin,
                desired_requires_admin: details.desired_requires_admin,
            },
            RollbackSupportV1::RestoreRelocatedPreviousIfUnchanged,
        )
    }

    /// Moves managed keys to a new destination.
    pub fn relocate_managed_json(
        action_id: &str,
        target: &str,
        resource: &str,
        details: ManagedJsonRelocationSpecV1,
    ) -> (action: DeclarativeActionV1)
        ensures
            action.action_id@ == action_id@,
            action.target@ == target@,
            action.resource@ == resource@,
            action.rollback == RollbackSupportV1::RestoreRelocatedJsonKeysIfUnchanged,
            path_fault(action.kind) is None,
            match action.kind {
                ActionKindV1::RelocateManagedJson {
                    previous_destination,
                    previous_rollback,
                    desired_destination,
                    previous_present,
                    previous_mode,
                    previous_original_hash,
                    previous_receipt_hash,
                    previous_managed_keys,
                    desired_managed_hash,
                    desired_managed_keys,
                    previous_uses_env,
                    desired_uses_env,
                } => {
                    &&& previous_destination == details.previous_destination
                    &&& previous_rollback@ == details.previous_destination@ + rollback_suffix()
                    &&& desired_destination == details.desired_destination
                    &&& previous_present == details.previous_present
                    &&& previous_mode == details.previous_mode
                    &&& previous_original_hash == details.previous_original_hash
                    &&& previous_receipt_hash == details.previous_receipt_hash
                    &&& previous_managed_keys == details.previous_managed_keys
                    &&& desired_managed_hash == details.desired_managed_hash
                    &&& desired_managed_keys == details.desired_managed_keys
                    &&& previous_uses_env == details.previous_uses_env
                    &&& desired_uses_env == details.desired_uses_env
                },
                _ => false,
            },
    {
        let previous_rollback = managed_file_rollback_path(details.previous_destination.as_str());
        declared(
            action_id,
            target,
            resource,
            ActionKindV1::RelocateManagedJson {
                previous_destination: details.previous_destination,
                previous_rollback,
                desired_destination: details.desired_destination,
                previous_present: details.previous_present,
                previous_mode: details.previous_mode,
                previous_original_hash: details.previous_original_hash,
                previous_receipt_hash: details.previous_receipt_hash,
                previous_managed_keys: details.previous_managed_keys,
                desired_managed_hash: details.desired_managed_hash,
                desired_managed_keys: details.desired_managed_keys,
                previous_uses_env: details.previous_uses_env,
                desired_uses_env: details.desired_uses_env,
            },
            RollbackSupportV1::RestoreRelocatedJsonKeysIfUnchanged,
        )
    }
}

} // verus!
