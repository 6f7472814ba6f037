//! What the files of an interrupted operation say about how far it came.
//!
//! Each assessment looks at the files that one kind of action touches and tells
//! whether the action has not begun, can be undone, or must be left alone
//! because something that it does not own has changed.

use vstd::prelude::*;
use vstd::string::*;

use crate::content::{content_hash, hash_content};
use crate::host::FileKind;
use crate::json::{
    current_json_hash, destination_members, has_no_key, holds_only_managed, installed_json_hash,
    keys_agree, managed_json_keys_absent, managed_json_keys_match, only_managed, JsonFault,
};
use crate::text::{decimal, decimal_digits, texts};

verus! {

/// What was found at a path.
#[derive(Clone, Debug)]
pub enum RecoveryFileObservation {
    Missing,
    Regular(Vec<u8>, Option<u32>),
    Other(FileKind),
}

/// What was found at a path, by its content.
pub ghost enum FileView {
    Missing,
    Regular { content: Seq<u8>, mode: Option<u32> },
    Other { kind: FileKind },
}

impl View for RecoveryFileObservation {
    type V = FileView;

    open spec fn view(&self) -> FileView {
        match *self {
            RecoveryFileObservation::Missing => FileView::Missing,
            RecoveryFileObservation::Regular(content, mode) => FileView::Regular {
                content: content@,
                mode,
            },
            RecoveryFileObservation::Other(kind) => FileView::Other { kind },
        }
    }
}

/// A mode as it is written into an identity.
pub open spec fn mode_text(mode: Option<u32>) -> Seq<char> {
    match mode {
        Some(mode) => "Some("@ + decimal_digits(mode as nat) + ")"@,
        None => "None"@,
    }
}

/// What was found at a path, as text: the content by its identity, and the mode.
pub open spec fn file_identity(file: FileView) -> Seq<char> {
    match file {
        FileView::Missing => "missing"@,
        FileView::Regular { content, mode } => "file:"@ + decimal_digits(
            content_hash(content) as nat,
        ) + ":mode:"@ + mode_text(mode),
        FileView::Other { kind } => "other:"@ + kind.text(),
    }
}

fn text_of_mode(mode: Option<u32>) -> (text: String)
    ensures
        text@ == mode_text(mode),
{
    match mode {
        Some(mode) => {
            let mut text: String = "Some(".to_owned();
            text.append(decimal(mode as u64).as_str());
            text.append(")");
            text
        },
        None => "None".to_owned(),
    }
}

impl RecoveryFileObservation {
    /// What was found, as text.
    pub fn identity(&self) -> (text: String)
        ensures
            text@ == file_identity(self@),
    {
        match self {
            RecoveryFileObservation::Missing => "missing".to_owned(),
            RecoveryFileObservation::Regular(content, mode) => {
                let mut text: String = "file:".to_owned();
                text.append(decimal(hash_content(content.as_slice())).as_str());
                text.append(":mode:");
                text.append(text_of_mode(*mode).as_str());
                text
            },
            RecoveryFileObservation::Other(kind) => {
                let mut text: String = "other:".to_owned();
                text.append(kind.as_str());
                text
            },
        }
    }

    pub fn is_missing(&self) -> (result: bool)
        ensures
            result == (self@ is Missing),
    {
        match self {
            RecoveryFileObservation::Missing => true,
            _ => false,
        }
    }

    pub fn is_regular(&self) -> (result: bool)
        ensures
            result == (self@ is Regular),
    {
        match self {
            RecoveryFileObservation::Regular(_, _) => true,
            _ => false,
        }
    }
}

/// Whether a regular file with this content and this mode was found.
pub open spec fn is_file(file: FileView, hash: u64, mode: Option<u32>) -> bool {
    match file {
        FileView::Regular { content, mode: found } => content_hash(content) == hash && found
            == mode,
        _ => false,
    }
}

/// Whether a regular file with this content was found, whatever its mode.
pub open spec fn has_content(file: FileView, hash: u64) -> bool {
    match file {
        FileView::Regular { content, .. } => content_hash(content) == hash,
        _ => false,
    }
}

#[derive(Clone, Copy, Debug, PartialEq, Eq, Structural)]
pub enum BackupRecoveryAssessment {
    NotStarted,
    Restore { remove_destination: bool },
    Blocked,
}

#[derive(Clone, Copy, Debug, PartialEq, Eq, Structural)]
pub enum RelocationRecoveryAssessment {
    NotStarted,
    RemoveDesired,
    Restore { remove_desired: bool, restore_backup: bool },
    RemoveCommittedRollback,
    Committed,
    Blocked,
}

#[derive(Clone, Copy, Debug, PartialEq, Eq, Structural)]
pub enum RemoveRecoveryAssessment {
    NotStarted,
    Restore,
    Blocked,
}

#[derive(Clone, Copy, Debug, PartialEq, Eq, Structural)]
pub enum BackupRemoveRecoveryAssessment {
    NotStarted,
    RestoreManaged,
    RestoreManagedAndBackup,
    Blocked,
}

#[derive(Clone, Copy, Debug, PartialEq, Eq, Structural)]
pub enum CommittedBackupRemoveRecoveryAssessment {
    Complete,
    RemoveRollback,
    Blocked,
}

#[derive(Clone, Copy, Debug, PartialEq, Eq, Structural)]
pub enum JsonRecoveryAssessment {
    NotStarted,
    RestoreByMove,
    RestoreKeys,
    AlreadyRestored,
    RemoveCreatedFile,
    RemoveCreatedKeys,
    Blocked,
}

#[derive(Clone, Copy, Debug, PartialEq, Eq, Structural)]
pub enum JsonRelocationRecoveryAssessment {
    Uncommitted { previous: Option<JsonRecoveryAssessment>, desired: JsonRecoveryAssessment },
    RemoveCommittedRollback,
    Committed,
    Blocked,
}

/// Whether the mode that was found is the expected one.
pub fn recovery_mode_matches(current: Option<u32>, expected: Option<u32>) -> (result: bool)
    ensures
        result == (current == expected),
{
    match (current, expected) {
        (Some(current), Some(expected)) => current == expected,
        (None, None) => true,
        _ => false,
    }
}

/// Whether a regular file with this content and this mode was found.
pub fn recovery_file_matches(
    observed: &RecoveryFileObservation,
    hash: u64,
    mode: Option<u32>,
) -> (result: bool)
    ensures
        result == is_file(observed@, hash, mode),
{
    match observed {
        RecoveryFileObservation::Regular(content, found) => hash_content(content.as_slice()) == hash
            && recovery_mode_matches(*found, mode),
        _ => false,
    }
}

/// Whether a regular file with this content was found.
pub fn recovery_file_matches_hash(observed: &RecoveryFileObservation, hash: u64) -> (result: bool)
    ensures
        result == has_content(observed@, hash),
{
    match observed {
        RecoveryFileObservation::Regular(content, _) => hash_content(content.as_slice()) == hash,
        _ => false,
    }
}

/// How far a creation that keeps a backup came.
pub open spec fn backup_assessment(
    destination: FileView,
    backup: FileView,
    original_hash: u64,
    desired_hash: u64,
) -> BackupRecoveryAssessment {
    if has_content(destination, original_hash) && backup is Missing {
        BackupRecoveryAssessment::NotStarted
    } else if destination is Missing && has_content(backup, original_hash) {
        BackupRecoveryAssessment::Restore { remove_destination: false }
    } else if has_content(destination, desired_hash) && has_content(backup, original_hash) {
        BackupRecoveryAssessment::Restore { remove_destination: true }
    } else {
        BackupRecoveryAssessment::Blocked
    }
}

/// How far a creation that keeps a backup came.
pub fn assess_backup_recovery(
    destination: &RecoveryFileObservation,
    backup: &RecoveryFileObservation,
    original_hash: u64,
    desired_hash: u64,
) -> (assessment: BackupRecoveryAssessment)
    ensures
        assessment == backup_assessment(destination@, backup@, original_hash, desired_hash),
{
    if recovery_file_matches_hash(destination, original_hash) && backup.is_missing() {
        BackupRecoveryAssessment::NotStarted
    } else if destination.is_missing() && recovery_file_matches_hash(backup, original_hash) {
        BackupRecoveryAssessment::Restore { remove_destination: false }
    } else if recovery_file_matches_hash(destination, desired_hash) && recovery_file_matches_hash(
        backup,
        original_hash,
    ) {
        BackupRecoveryAssessment::Restore { remove_destination: true }
    } else {
        BackupRecoveryAssessment::Blocked
    }
}

/// How far an update came.
pub open spec fn update_assessment(
    destination: FileView,
    rollback: FileView,
    original_hash: u64,
    desired_hash: u64,
    original_mode: Option<u32>,
) -> BackupRecoveryAssessment {
    if is_file(destination, original_hash, original_mode) && rollback is Missing {
        BackupRecoveryAssessment::NotStarted
    } else if destination is Missing && is_file(rollback, original_hash, original_mode) {
        BackupRecoveryAssessment::Restore { remove_destination: false }
    } else if is_file(destination, desired_hash, original_mode) && is_file(
        rollback,
        original_hash,
        original_mode,
    ) {
        BackupRecoveryAssessment::Restore { remove_destination: true }
    } else {
        BackupRecoveryAssessment::Blocked
    }
}

/// How far an update came.
pub fn assess_update_recovery(
    destination: &RecoveryFileObservation,
    rollback: &RecoveryFileObservation,
    original_hash: u64,
    desired_hash: u64,
    original_mode: Option<u32>,
) -> (assessment: BackupRecoveryAssessment)
    ensures
        assessment == update_assessment(
            destination@,
            rollback@,
            original_hash,
            desired_hash,
            original_mode,
        ),
{
    if recovery_file_matches(destination, original_hash, original_mode) && rollback.is_missing() {
        BackupRecoveryAssessment::NotStarted
    } else if destination.is_missing() && recovery_file_matches(
        rollback,
        original_hash,
        original_mode,
    ) {
        BackupRecoveryAssessment::Restore { remove_destination: false }
    } else if recovery_file_matches(destination, desired_hash, original_mode)
        && recovery_file_matches(rollback, original_hash, original_mode) {
        BackupRecoveryAssessment::Restore { remove_destination: true }
    } else {
        BackupRecoveryAssessment::Blocked
    }
}

/// How far a removal came.
pub open spec fn remove_assessment(
    destination: FileView,
    rollback: FileView,
    original_hash: u64,
    original_mode: Option<u32>,
) -> RemoveRecoveryAssessment {
    if is_file(destination, original_hash, original_mode) && rollback is Missing {
        RemoveRecoveryAssessment::NotStarted
    } else if destination is Missing && is_file(rollback, original_hash, original_mode) {
        RemoveRecoveryAssessment::Restore
    } else {
        RemoveRecoveryAssessment::Blocked
    }
}

/// How far a removal came.
pub fn assess_remove_recovery(
    destination: &RecoveryFileObservation,
    rollback: &RecoveryFileObservation,
    original_hash: u64,
    original_mode: Option<u32>,
) -> (assessment: RemoveRecoveryAssessment)
    ensures
        assessment == remove_assessment(destination@, rollback@, original_hash, original_mode),
{
    if recovery_file_matches(destination, original_hash, original_mode) && rollback.is_missing() {
        RemoveRecoveryAssessment::NotStarted
    } else if destination.is_missing() && recovery_file_matches(
        rollback,
        original_hash,
        original_mode,
    ) {
        RemoveRecoveryAssessment::Restore
    } else {
        RemoveRecoveryAssessment::Blocked
    }
}

/// How far a removal that returns a backup came.
pub open spec fn backup_remove_assessment(
    destination: FileView,
    backup: FileView,
    rollback: FileView,
    managed_hash: u64,
    managed_mode: Option<u32>,
    backup_hash: u64,
    backup_mode: Option<u32>,
) -> BackupRemoveRecoveryAssessment {
    if is_file(destination, managed_hash, managed_mode) && is_file(backup, backup_hash, backup_mode)
        && rollback is Missing {
        BackupRemoveRecoveryAssessment::NotStarted
    } else if destination is Missing && is_file(backup, backup_hash, backup_mode) && is_file(
        rollback,
        managed_hash,
        managed_mode,
    ) {
        BackupRemoveRecoveryAssessment::RestoreManaged
    } else if is_file(destination, backup_hash, backup_mode) && backup is Missing && is_file(
        rollback,
        managed_hash,
        managed_mode,
    ) {
        BackupRemoveRecoveryAssessment::RestoreManagedAndBackup
    } else {
        BackupRemoveRecoveryAssessment::Blocked
    }
}

/// How far a removal that returns a backup came.
pub fn assess_backup_remove_recovery(
    destination: &RecoveryFileObservation,
    backup: &RecoveryFileObservation,
    rollback: &RecoveryFileObservation,
    managed_hash: u64,
    managed_mode: Option<u32>,
    backup_hash: u64,
    backup_mode: Option<u32>,
) -> (assessment: BackupRemoveRecoveryAssessment)
    ensures
        assessment == backup_remove_assessment(
            destination@,
            backup@,
            rollback@,
            managed_hash,
            managed_mode,
            backup_hash,
            backup_mode,
        ),
{
    if recovery_file_matches(destination, managed_hash, managed_mode) && recovery_file_matches(
        backup,
        backup_hash,
        backup_mode,
    ) && rollback.is_missing() {
        BackupRemoveRecoveryAssessment::NotStarted
    } else if destination.is_missing() && recovery_file_matches(backup, backup_hash, backup_mode)
        && recovery_file_matches(rollback, managed_hash, managed_mode) {
        BackupRemoveRecoveryAssessment::RestoreManaged
    } else if recovery_file_matches(destination, backup_hash, backup_mode) && backup.is_missing()
        && recovery_file_matches(rollback, managed_hash, managed_mode) {
        BackupRemoveRecoveryAssessment::RestoreManagedAndBackup
    } else {
        BackupRemoveRecoveryAssessment::Blocked
    }
}

/// What is left to do of a removal whose receipt is gone and whose user file
/// should be back.
pub open spec fn committed_backup_remove_assessment(
    destination: FileView,
    backup: FileView,
    rollback: FileView,
    managed_hash: u64,
    managed_mode: Option<u32>,
    backup_hash: u64,
    backup_mode: Option<u32>,
) -> CommittedBackupRemoveRecoveryAssessment {
    if !is_file(destination, backup_hash, backup_mode) || !(backup is Missing) {
        CommittedBackupRemoveRecoveryAssessment::Blocked
    } else if rollback is Missing {
        CommittedBackupRemoveRecoveryAssessment::Complete
    } else if is_file(rollback, managed_hash, managed_mode) {
        CommittedBackupRemoveRecoveryAssessment::RemoveRollback
    } else {
        CommittedBackupRemoveRecoveryAssessment::Blocked
    }
}

/// What is left to do of a removal whose receipt is gone.
pub fn assess_committed_backup_remove_recovery(
    destination: &RecoveryFileObservation,
    backup: &RecoveryFileObservation,
    rollback: &RecoveryFileObservation,
    managed_hash: u64,
    managed_mode: Option<u32>,
    backup_hash: u64,
    backup_mode: Option<u32>,
) -> (assessment: CommittedBackupRemoveRecoveryAssessment)
    ensures
        assessment == committed_backup_remove_assessment(
            destination@,
            backup@,
            rollback@,
            managed_hash,
            managed_mode,
            backup_hash,
            backup_mode,
        ),
{
    if !recovery_file_matches(destination, backup_hash, backup_mode) || !backup.is_missing() {
        return CommittedBackupRemoveRecoveryAssessment::Blocked;
    }
    if rollback.is_missing() {
        CommittedBackupRemoveRecoveryAssessment::Complete
    } else if recovery_file_matches(rollback, managed_hash, managed_mode) {
        CommittedBackupRemoveRecoveryAssessment::RemoveRollback
    } else {
        CommittedBackupRemoveRecoveryAssessment::Blocked
    }
}

/// What is left of the rollback material of a settled change: nothing, what was
/// put there, or something else.
pub open spec fn rollback_exactness(
    rollback: FileView,
    original_hash: Option<u64>,
    original_mode: Option<u32>,
) -> Option<bool> {
    if rollback is Missing {
        None
    } else {
        Some(original_hash is Some && is_file(rollback, original_hash->0, original_mode))
    }
}

/// Whether rollback material is there, and whether it is what was put there.
pub fn json_rollback_is_exact(
    rollback: &RecoveryFileObservation,
    original_hash: Option<u64>,
    original_mode: Option<u32>,
) -> (result: Option<bool>)
    ensures
        result == rollback_exactness(rollback@, original_hash, original_mode),
{
    if rollback.is_missing() {
        return None;
    }
    match original_hash {
        Some(hash) => Some(recovery_file_matches(rollback, hash, original_mode)),
        None => Some(false),
    }
}

/// How far the creation of managed keys in an absent or foreign file came.
pub open spec fn json_creation_assessment(
    destination: FileView,
    desired_managed_hash: u64,
    keys: Seq<Seq<char>>,
) -> Result<JsonRecoveryAssessment, JsonFault> {
    match destination {
        FileView::Missing => Ok(JsonRecoveryAssessment::NotStarted),
        FileView::Other { .. } => Ok(JsonRecoveryAssessment::Blocked),
        FileView::Regular { content, .. } => match destination_members(content) {
            Err(fault) => Err(fault),
            Ok(members) => if has_no_key(members, keys) {
                Ok(JsonRecoveryAssessment::AlreadyRestored)
            } else {
                match current_json_hash(content, keys) {
                    Err(fault) => Err(fault),
                    Ok(hash) => if hash != Some(desired_managed_hash) {
                        Ok(JsonRecoveryAssessment::Blocked)
                    } else if only_managed(members, keys) {
                        Ok(JsonRecoveryAssessment::RemoveCreatedFile)
                    } else {
                        Ok(JsonRecoveryAssessment::RemoveCreatedKeys)
                    },
                }
            },
        },
    }
}

fn assess_json_creation(
    destination: &RecoveryFileObservation,
    desired_managed_hash: u64,
    keys: &Vec<String>,
) -> (result: Result<JsonRecoveryAssessment, JsonFault>)
    ensures
        result == json_creation_assessment(destination@, desired_managed_hash, texts(keys@)),
{
    match destination {
        RecoveryFileObservation::Missing => Ok(JsonRecoveryAssessment::NotStarted),
        RecoveryFileObservation::Other(_) => Ok(JsonRecoveryAssessment::Blocked),
        RecoveryFileObservation::Regular(content, _) => {
            let absent = match managed_json_keys_absent(content.as_slice(), keys.as_slice()) {
                Ok(absent) => absent,
                Err(fault) => return Err(fault),
            };
            if absent {
                return Ok(JsonRecoveryAssessment::AlreadyRestored);
            }
            let hash = match installed_json_hash(content.as_slice(), keys.as_slice()) {
                Ok(hash) => hash,
                Err(fault) => return Err(fault),
            };
            if hash != Some(desired_managed_hash) {
                return Ok(JsonRecoveryAssessment::Blocked);
            }
            match holds_only_managed(content.as_slice(), keys.as_slice()) {
                Ok(only) => if only {
                    Ok(JsonRecoveryAssessment::RemoveCreatedFile)
                } else {
                    Ok(JsonRecoveryAssessment::RemoveCreatedKeys)
                },
                Err(fault) => Err(fault),
            }
        },
    }
}

/// How far a merge came.
pub open spec fn json_merge_assessment(
    destination: FileView,
    rollback: FileView,
    original_hash: Option<u64>,
    original_mode: Option<u32>,
    desired_managed_hash: u64,
    keys: Seq<Seq<char>>,
) -> Result<JsonRecoveryAssessment, JsonFault> {
    match original_hash {
        None => if !(rollback is Missing) {
            Ok(JsonRecoveryAssessment::Blocked)
        } else {
            json_creation_assessment(destination, desired_managed_hash, keys)
        },
        Some(hash) => if is_file(destination, hash, original_mode) && rollback is Missing {
            Ok(JsonRecoveryAssessment::NotStarted)
        } else if destination is Missing && is_file(rollback, hash, original_mode) {
            Ok(JsonRecoveryAssessment::RestoreByMove)
        } else if destination is Regular && is_file(rollback, hash, original_mode) {
            match (
                destination_members(destination->content),
                destination_members(rollback->content),
            ) {
                (Ok(current), Ok(original)) => if keys_agree(current, original, keys) {
                    Ok(JsonRecoveryAssessment::AlreadyRestored)
                } else {
                    match current_json_hash(destination->content, keys) {
                        Err(fault) => Err(fault),
                        Ok(found) => if found == Some(desired_managed_hash) {
                            Ok(JsonRecoveryAssessment::RestoreKeys)
                        } else {
                            Ok(JsonRecoveryAssessment::Blocked)
                        },
                    }
                },
                _ => Err(JsonFault::DestinationNotObject),
            }
        } else {
            Ok(JsonRecoveryAssessment::Blocked)
        },
    }
}

/// How far a merge came.
pub fn assess_json_merge_recovery(
    destination: &RecoveryFileObservation,
    rollback: &RecoveryFileObservation,
    original_hash: Option<u64>,
    original_mode: Option<u32>,
    desired_managed_hash: u64,
    managed_keys: &Vec<String>,
) -> (result: Result<JsonRecoveryAssessment, JsonFault>)
    ensures
        result == json_merge_assessment(
            destination@,
            rollback@,
            original_hash,
            original_mode,
            desired_managed_hash,
            texts(managed_keys@),
        ),
{
    let hash = match original_hash {
        Some(hash) => hash,
        None => {
            if !rollback.is_missing() {
                return Ok(JsonRecoveryAssessment::Blocked);
            }
            return assess_json_creation(destination, desired_managed_hash, managed_keys);
        },
    };
    let rollback_exact = recovery_file_matches(rollback, hash, original_mode);
    if recovery_file_matches(destination, hash, original_mode) && rollback.is_missing() {
        return Ok(JsonRecoveryAssessment::NotStarted);
    }
    if destination.is_missing() && rollback_exact {
        return Ok(JsonRecoveryAssessment::RestoreByMove);
    }
    match (destination, rollback) {
        (
            RecoveryFileObservation::Regular(current, _),
            RecoveryFileObservation::Regular(original, _),
        ) if rollback_exact => {
            let matching = match managed_json_keys_match(
                current.as_slice(),
                original.as_slice(),
                managed_keys.as_slice(),
            ) {
                Ok(matching) => matching,
                Err(fault) => return Err(fault),
            };
            if matching {
                return Ok(JsonRecoveryAssessment::AlreadyRestored);
            }
            match installed_json_hash(current.as_slice(), managed_keys.as_slice()) {
                Ok(found) => if found == Some(desired_managed_hash) {
                    Ok(JsonRecoveryAssessment::RestoreKeys)
                } else {
                    Ok(JsonRecoveryAssessment::Blocked)
                },
                Err(fault) => Err(fault),
            }
        },
        _ => Ok(JsonRecoveryAssessment::Blocked),
    }
}

/// How far the removal of managed keys came.
pub open spec fn json_remove_assessment(
    destination: FileView,
    rollback: FileView,
    original_hash: u64,
    original_mode: Option<u32>,
    keys: Seq<Seq<char>>,
) -> Result<JsonRecoveryAssessment, JsonFault> {
    if is_file(destination, original_hash, original_mode) && rollback is Missing {
        Ok(JsonRecoveryAssessment::NotStarted)
    } else if destination is Missing && is_file(rollback, original_hash, original_mode) {
        Ok(JsonRecoveryAssessment::RestoreByMove)
    } else if destination is Regular && is_file(rollback, original_hash, original_mode) {
        match (
            destination_members(destination->content),
            destination_members(rollback->content),
        ) {
            (Ok(current), Ok(original)) => if keys_agree(current, original, keys) {
                Ok(JsonRecoveryAssessment::AlreadyRestored)
            } else if has_no_key(current, keys) {
                Ok(JsonRecoveryAssessment::RestoreKeys)
            } else {
                Ok(JsonRecoveryAssessment::Blocked)
            },
            _ => Err(JsonFault::DestinationNotObject),
        }
    } else {
        Ok(JsonRecoveryAssessment::Blocked)
    }
}

/// How far the removal of managed keys came.
pub fn assess_json_remove_recovery(
    destination: &RecoveryFileObservation,
    rollback: &RecoveryFileObservation,
    original_hash: u64,
    original_mode: Option<u32>,
    managed_keys: &Vec<String>,
) -> (result: Result<JsonRecoveryAssessment, JsonFault>)
    ensures
        result == json_remove_assessment(
            destination@,
            rollback@,
            original_hash,
            original_mode,
            texts(managed_keys@),
        ),
{
    let rollback_exact = recovery_file_matches(rollback, original_hash, original_mode);
    if recovery_file_matches(destination, original_hash, original_mode) && rollback.is_missing() {
        return Ok(JsonRecoveryAssessment::NotStarted);
    }
    if destination.is_missing() && rollback_exact {
        return Ok(JsonRecoveryAssessment::RestoreByMove);
    }
    match (destination, rollback) {
        (
            RecoveryFileObservation::Regular(current, _),
            RecoveryFileObservation::Regular(original, _),
        ) if rollback_exact => {
            let matching = match managed_json_keys_match(
                current.as_slice(),
                original.as_slice(),
                managed_keys.as_slice(),
            ) {
                Ok(matching) => matching,
                Err(fault) => return Err(fault),
            };
            if matching {
                return Ok(JsonRecoveryAssessment::AlreadyRestored);
            }
            match managed_json_keys_absent(current.as_slice(), managed_keys.as_slice()) {
                Ok(absent) => if absent {
                    Ok(JsonRecoveryAssessment::RestoreKeys)
                } else {
                    Ok(JsonRecoveryAssessment::Blocked)
                },
                Err(fault) => Err(fault),
            }
        },
        _ => Ok(JsonRecoveryAssessment::Blocked),
    }
}

/// How far a relocation of managed keys came whose new receipt is not there.
pub open spec fn uncommitted_json_relocation(
    previous: FileView,
    rollback: FileView,
    desired: FileView,
    previous_present: bool,
    previous_original_hash: Option<u64>,
    previous_mode: Option<u32>,
    previous_keys: Seq<Seq<char>>,
    desired_managed_hash: u64,
    desired_keys: Seq<Seq<char>>,
) -> Result<JsonRelocationRecoveryAssessment, JsonFault> {
    match json_creation_assessment(desired, desired_managed_hash, desired_keys) {
        Err(fault) => Err(fault),
        Ok(created) => if created == JsonRecoveryAssessment::Blocked {
            Ok(JsonRelocationRecoveryAssessment::Blocked)
        } else if previous_present {
            match previous_original_hash {
                None => Ok(JsonRelocationRecoveryAssessment::Blocked),
                Some(hash) => match json_remove_assessment(
                    previous,
                    rollback,
                    hash,
                    previous_mode,
                    previous_keys,
                ) {
                    Err(fault) => Err(fault),
                    Ok(removed) => if removed == JsonRecoveryAssessment::Blocked || (removed
                        == JsonRecoveryAssessment::NotStarted && (created
                        == JsonRecoveryAssessment::RemoveCreatedFile || created
                        == JsonRecoveryAssessment::RemoveCreatedKeys)) {
                        Ok(JsonRelocationRecoveryAssessment::Blocked)
                    } else {
                        Ok(
                            JsonRelocationRecoveryAssessment::Uncommitted {
                                previous: Some(removed),
                                desired: created,
                            },
                        )
                    },
                },
            }
        } else if previous is Missing && rollback is Missing && previous_original_hash is None
            && previous_mode is None {
            Ok(JsonRelocationRecoveryAssessment::Uncommitted { previous: None, desired: created })
        } else {
            Ok(JsonRelocationRecoveryAssessment::Blocked)
        },
    }
}

/// What is left to do of a relocation of managed keys whose new receipt is there.
pub open spec fn committed_json_relocation(
    rollback: FileView,
    desired: FileView,
    previous_present: bool,
    previous_original_hash: Option<u64>,
    previous_mode: Option<u32>,
    desired_managed_hash: u64,
    desired_keys: Seq<Seq<char>>,
) -> Result<JsonRelocationRecoveryAssessment, JsonFault> {
    match desired {
        FileView::Regular { content, .. } => match current_json_hash(content, desired_keys) {
            Err(fault) => Err(fault),
            Ok(found) => if found != Some(desired_managed_hash) {
                Ok(JsonRelocationRecoveryAssessment::Blocked)
            } else if rollback is Missing {
                Ok(JsonRelocationRecoveryAssessment::Committed)
            } else if previous_present && rollback_exactness(
                rollback,
                previous_original_hash,
                previous_mode,
            ) == Some(true) {
                Ok(JsonRelocationRecoveryAssessment::RemoveCommittedRollback)
            } else {
                Ok(JsonRelocationRecoveryAssessment::Blocked)
            },
        },
        _ => Ok(JsonRelocationRecoveryAssessment::Blocked),
    }
}

/// How far a relocation of managed keys came.
pub fn assess_json_relocation_recovery(
    previous: &RecoveryFileObservation,
    rollback: &RecoveryFileObservation,
    desired: &RecoveryFileObservation,
    previous_present: bool,
    previous_original_hash: Option<u64>,
    previous_mode: Option<u32>,
    previous_managed_keys: &Vec<String>,
    desired_managed_hash: u64,
    desired_managed_keys: &Vec<String>,
    committed: bool,
) -> (result: Result<JsonRelocationRecoveryAssessment, JsonFault>)
    ensures
        committed ==> result == committed_json_relocation(
            rollback@,
            desired@,
            previous_present,
            previous_original_hash,
            previous_mode,
            desired_managed_hash,
            texts(desired_managed_keys@),
        ),
        !committed ==> result == uncommitted_json_relocation(
            previous@,
            rollback@,
            desired@,
            previous_present,
            previous_original_hash,
            previous_mode,
            texts(previous_managed_keys@),
            desired_managed_hash,
            texts(desired_managed_keys@),
        ),
{
    if committed {
        let desired_matches = match desired {
            RecoveryFileObservation::Regular(content, _) => {
                match installed_json_hash(content.as_slice(), desired_managed_keys.as_slice()) {
                    Ok(found) => found == Some(desired_managed_hash),
                    Err(fault) => return Err(fault),
                }
            },
            _ => false,
        };
        if !desired_matches {
            return Ok(JsonRelocationRecoveryAssessment::Blocked);
        }
        if previous_present {
            return match json_rollback_is_exact(rollback, previous_original_hash, previous_mode) {
                Some(true) => Ok(JsonRelocationRecoveryAssessment::RemoveCommittedRollback),
                None => Ok(JsonRelocationRecoveryAssessment::Committed),
                Some(false) => Ok(JsonRelocationRecoveryAssessment::Blocked),
            };
        }
        if rollback.is_missing() {
            return Ok(JsonRelocationRecoveryAssessment::Committed);
        }
        return Ok(JsonRelocationRecoveryAssessment::Blocked);
    }
    let desired_assessment = match assess_json_merge_recovery(
        desired,
        &RecoveryFileObservation::Missing,
        None,
        None,
        desired_managed_hash,
        desired_managed_keys,
    ) {
        Ok(assessment) => assessment,
        Err(fault) => return Err(fault),
    };
    if desired_assessment == JsonRecoveryAssessment::Blocked {
        return Ok(JsonRelocationRecoveryAssessment::Blocked);
    }
    let previous_assessment: Option<JsonRecoveryAssessment> = if previous_present {
        let original_hash = match previous_original_hash {
            Some(hash) => hash,
            None => return Ok(JsonRelocationRecoveryAssessment::Blocked),
        };
        let assessment = match assess_json_remove_recovery(
            previous,
            rollback,
            original_hash,
            previous_mode,
            previous_managed_keys,
        ) {
            Ok(assessment) => assessment,
            Err(fault) => return Err(fault),
        };
        if assessment == JsonRecoveryAssessment::Blocked {
            return Ok(JsonRelocationRecoveryAssessment::Blocked);
        }
        Some(assessment)
    } else if previous.is_missing() && rollback.is_missing() && previous_original_hash.is_none()
        && previous_mode.is_none() {
        None
    } else {
        return Ok(JsonRelocationRecoveryAssessment::Blocked);
    };
    let desired_created = desired_assessment == JsonRecoveryAssessment::RemoveCreatedFile
        || desired_assessment == JsonRecoveryAssessment::RemoveCreatedKeys;
    let previous_untouched = match previous_assessment {
        Some(assessment) => assessment == JsonRecoveryAssessment::NotStarted,
        None => false,
    };
    if previous_untouched && desired_created {
        return Ok(JsonRelocationRecoveryAssessment::Blocked);
    }
    Ok(
        JsonRelocationRecoveryAssessment::Uncommitted {
            previous: previous_assessment,
            desired: desired_assessment,
        },
    )
}

/// How far a relocation of a whole file came whose new receipt is not there.
pub open spec fn uncommitted_relocation(
    previous: FileView,
    backup: Option<FileView>,
    rollback: FileView,
    desired: FileView,
    previous_present: bool,
    previous_mode: Option<u32>,
    previous_hash: u64,
    desired_hash: u64,
    backup_identity: Option<(u64, Option<u32>)>,
) -> RelocationRecoveryAssessment {
    let previous_managed = is_file(previous, previous_hash, previous_mode);
    let rollback_managed = is_file(rollback, previous_hash, previous_mode);
    let desired_exact = has_content(desired, desired_hash);
    if !previous_present {
        if !(previous is Missing) || !(rollback is Missing) || backup is Some {
            RelocationRecoveryAssessment::Blocked
        } else if desired is Missing {
            RelocationRecoveryAssessment::NotStarted
        } else if desired_exact {
            RelocationRecoveryAssessment::RemoveDesired
        } else {
            RelocationRecoveryAssessment::Blocked
        }
    } else {
        match backup_identity {
            Some((hash, mode)) => {
                let backup_original = backup is Some && is_file(backup->0, hash, mode);
                let backup_missing = backup is None || backup->0 is Missing;
                if previous_managed && backup_original && rollback is Missing
                    && desired is Missing {
                    RelocationRecoveryAssessment::NotStarted
                } else if previous is Missing && backup_original && rollback_managed
                    && desired is Missing {
                    RelocationRecoveryAssessment::Restore {
                        remove_desired: false,
                        restore_backup: false,
                    }
                } else if is_file(previous, hash, mode) && backup_missing && rollback_managed && (
                desired is Missing || desired_exact) {
                    RelocationRecoveryAssessment::Restore {
                        remove_desired: desired_exact,
                        restore_backup: true,
                    }
                } else {
                    RelocationRecoveryAssessment::Blocked
                }
            },
            None => if previous_managed && rollback is Missing && desired is Missing {
                RelocationRecoveryAssessment::NotStarted
            } else if previous is Missing && rollback_managed && (desired is Missing
                || desired_exact) {
                RelocationRecoveryAssessment::Restore {
                    remove_desired: desired_exact,
                    restore_backup: false,
                }
            } else {
                RelocationRecoveryAssessment::Blocked
            },
        }
    }
}

/// What is left to do of a relocation of a whole file whose new receipt is there.
pub open spec fn committed_relocation(
    previous: FileView,
    backup: Option<FileView>,
    rollback: FileView,
    desired: FileView,
    previous_present: bool,
    previous_mode: Option<u32>,
    previous_hash: u64,
    desired_hash: u64,
    backup_identity: Option<(u64, Option<u32>)>,
) -> RelocationRecoveryAssessment {
    let previous_final = match backup_identity {
        Some((hash, mode)) => is_file(previous, hash, mode) && (backup is None
            || backup->0 is Missing),
        None => previous is Missing,
    };
    if !has_content(desired, desired_hash) || !previous_final {
        RelocationRecoveryAssessment::Blocked
    } else if previous_present && is_file(rollback, previous_hash, previous_mode) {
        RelocationRecoveryAssessment::RemoveCommittedRollback
    } else if rollback is Missing {
        RelocationRecoveryAssessment::Committed
    } else {
        RelocationRecoveryAssessment::Blocked
    }
}

/// What was found at a path that may not be looked at.
pub open spec fn optional_file(file: Option<&RecoveryFileObservation>) -> Option<FileView> {
    match file {
        Some(file) => Some(file@),
        None => None,
    }
}

/// How far a relocation of a whole file came.
pub fn assess_relocation_recovery(
    previous: &RecoveryFileObservation,
    backup: Option<&RecoveryFileObservation>,
    rollback: &RecoveryFileObservation,
    desired: &RecoveryFileObservation,
    previous_present: bool,
    previous_mode: Option<u32>,
    previous_hash: u64,
    desired_hash: u64,
    backup_identity: Option<(u64, Option<u32>)>,
    committed: bool,
) -> (assessment: RelocationRecoveryAssessment)
    ensures
        committed ==> assessment == committed_relocation(
            previous@,
            optional_file(backup),
            rollback@,
            desired@,
            previous_present,
            previous_mode,
            previous_hash,
            desired_hash,
            backup_identity,
        ),
        !committed ==> assessment == uncommitted_relocation(
            previous@,
            optional_file(backup),
            rollback@,
            desired@,
            previous_present,
            previous_mode,
            previous_hash,
            desired_hash,
            backup_identity,
        ),
{
    let previous_managed = recovery_file_matches(previous, previous_hash, previous_mode);
    let rollback_managed = recovery_file_matches(rollback, previous_hash, previous_mode);
    let desired_exact = recovery_file_matches_hash(desired, desired_hash);
    let backup_missing = match backup {
        Some(observed) => observed.is_missing(),
        None => true,
    };
    let (has_backup, backup_original, previous_original) = match backup_identity {
        Some((hash, mode)) => (
            true,
            match backup {
                Some(observed) => recovery_file_matches(observed, hash, mode),
                None => false,
            },
            recovery_file_matches(previous, hash, mode),
        ),
        None => (false, false, false),
    };
    let previous_final = if has_backup {
        previous_original && backup_missing
    } else {
        previous.is_missing()
    };
    if committed {
        if !desired_exact || !previous_final {
            return RelocationRecoveryAssessment::Blocked;
        }
        if previous_present && rollback_managed {
            return RelocationRecoveryAssessment::RemoveCommittedRollback;
        }
        if rollback.is_missing() {
            return RelocationRecoveryAssessment::Committed;
        }
        return RelocationRecoveryAssessment::Blocked;
    }
    if !previous_present {
        if !previous.is_missing() || !rollback.is_missing() || backup.is_some() {
            return RelocationRecoveryAssessment::Blocked;
        }
        if desired.is_missing() {
            return RelocationRecoveryAssessment::NotStarted;
        }
        if desired_exact {
            return RelocationRecoveryAssessment::RemoveDesired;
        }
        return RelocationRecoveryAssessment::Blocked;
    }
    if has_backup {
        if previous_managed && backup_original && rollback.is_missing() && desired.is_missing() {
            return RelocationRecoveryAssessment::NotStarted;
        }
        if previous.is_missing() && backup_original && rollback_managed && desired.is_missing() {
            return RelocationRecoveryAssessment::Restore {
                remove_desired: false,
                restore_backup: false,
            };
        }
        if previous_original && backup_missing && rollback_managed {
            if desired.is_missing() {
                return RelocationRecoveryAssessment::Restore {
                    remove_desired: false,
                    restore_backup: true,
                };
            }
            if desired_exact {
                return RelocationRecoveryAssessment::Restore {
                    remove_desired: true,
                    restore_backup: true,
                };
            }
        }
        return RelocationRecoveryAssessment::Blocked;
    }
    if previous_managed && rollback.is_missing() && desired.is_missing() {
        return RelocationRecoveryAssessment::NotStarted;
    }
    if previous.is_missing() && rollback_managed {
        if desired.is_missing() {
            return RelocationRecoveryAssessment::Restore {
                remove_desired: false,
                restore_backup: false,
            };
        }
        if desired_exact {
            return RelocationRecoveryAssessment::Restore {
                remove_desired: true,
                restore_backup: false,
            };
        }
    }
    RelocationRecoveryAssessment::Blocked
}

/// A symbolic link or a directory in any of the places of an interrupted whole
/// file change blocks its recovery, even where what it leads to holds the
/// expected content.
pub proof fn law_only_regular_files_are_recovered(
    destination: FileView,
    second: FileView,
    third: FileView,
    first_hash: u64,
    second_hash: u64,
    first_mode: Option<u32>,
    second_mode: Option<u32>,
)
    requires
        destination is Other || second is Other,
    ensures
        backup_assessment(destination, second, first_hash, second_hash)
            == BackupRecoveryAssessment::Blocked,
        update_assessment(destination, second, first_hash, second_hash, first_mode)
            == BackupRecoveryAssessment::Blocked,
        remove_assessment(destination, second, first_hash, first_mode)
            == RemoveRecoveryAssessment::Blocked,
        backup_remove_assessment(
            destination,
            second,
            third,
            first_hash,
            first_mode,
            second_hash,
            second_mode,
        ) == BackupRemoveRecoveryAssessment::Blocked,
        committed_backup_remove_assessment(
            destination,
            second,
            third,
            first_hash,
            first_mode,
            second_hash,
            second_mode,
        ) == CommittedBackupRemoveRecoveryAssessment::Blocked,
{
}

} // verus!
