//! How the receipts of a manifest bear on the actions of an operation.

use vstd::prelude::*;
use vstd::string::*;

use crate::action::{action_source_identity, ActionKindV1, DeclarativeActionV1};
use crate::manifest::{
    entry_of_source, owns, AppEntry, AppEntryView, AppInstallStrategy, AppManifest,
};
use crate::path::{paths_match, same_path};
use crate::plan::{optional_text, PlanActionV1, PlanOperationV1, PlanV1};
use crate::text::{copy_texts, same_text, texts};

verus! {

/// Whether two paths that may be absent are both absent or the same.
pub open spec fn same_optional_path(left: Option<Seq<char>>, right: Option<Seq<char>>) -> bool {
    match (left, right) {
        (Some(left), Some(right)) => same_path(left, right),
        (None, None) => true,
        _ => false,
    }
}

/// The characters of a borrowed path that may be absent.
pub open spec fn borrowed_text(path: Option<&String>) -> Option<Seq<char>> {
    match path {
        Some(path) => Some(path@),
        None => None,
    }
}

/// Whether a receipt is for a whole file at `destination` with this content,
/// this backup and this privilege.
pub open spec fn is_copy_receipt(
    entry: AppEntryView,
    destination: Seq<char>,
    hash: u64,
    backup: Option<Seq<char>>,
    requires_admin: bool,
) -> bool {
    &&& same_path(entry.destination, destination)
    &&& entry.content_hash == hash
    &&& same_optional_path(entry.backup, backup)
    &&& entry.managed_keys is None
    &&& entry.requires_admin == requires_admin
}

/// Whether a receipt is for the managed keys of a JSON object at `destination`
/// with this content.
pub open spec fn is_json_receipt(
    entry: AppEntryView,
    destination: Seq<char>,
    hash: u64,
    keys: Seq<Seq<char>>,
) -> bool {
    &&& same_path(entry.destination, destination)
    &&& entry.content_hash == hash
    &&& entry.backup is None
    &&& entry.managed_keys == Some(keys)
    &&& !entry.requires_admin
}

/// Whether a receipt is the one that an action leaves.
pub open spec fn is_receipt_after(entry: AppEntryView, kind: ActionKindV1) -> bool {
    match kind {
        ActionKindV1::CreateManagedFile { destination, desired_hash, requires_admin } =>
            is_copy_receipt(entry, destination@, desired_hash, None, requires_admin),
        ActionKindV1::CreateManagedFileWithBackup {
            destination,
            backup,
            desired_hash,
            requires_admin,
            ..
        } => is_copy_receipt(entry, destination@, desired_hash, Some(backup@), requires_admin),
        ActionKindV1::UpdateManagedFile {
            destination,
            previous_backup,
            desired_hash,
            requires_admin,
            ..
        } => is_copy_receipt(
            entry,
            destination@,
            desired_hash,
            optional_text(previous_backup),
            requires_admin,
        ),
        ActionKindV1::RelocateManagedFile {
            desired_destination,
            desired_hash,
            desired_uses_env,
            desired_requires_admin,
            ..
        } => is_copy_receipt(
            entry,
            desired_destination@,
            desired_hash,
            None,
            desired_requires_admin,
        ) && entry.uses_env == desired_uses_env,
        ActionKindV1::RelocateManagedJson {
            desired_destination,
            desired_managed_hash,
            desired_managed_keys,
            desired_uses_env,
            ..
        } => is_json_receipt(
            entry,
            desired_destination@,
            desired_managed_hash,
            texts(desired_managed_keys@),
        ) && entry.uses_env == desired_uses_env,
        ActionKindV1::MergeManagedJson {
            destination,
            desired_managed_hash,
            managed_keys,
            ..
        } => is_json_receipt(entry, destination@, desired_managed_hash, texts(managed_keys@)),
        _ => false,
    }
}

/// Whether a receipt is the one that an action started from.
pub open spec fn is_receipt_before(entry: AppEntryView, kind: ActionKindV1) -> bool {
    match kind {
        ActionKindV1::RelocateManagedFile {
            previous_destination,
            previous_backup,
            previous_hash,
            previous_uses_env,
            previous_requires_admin,
            ..
        } => is_copy_receipt(
            entry,
            previous_destination@,
            previous_hash,
            match previous_backup {
                Some(backup) => Some(backup.path@),
                None => None,
            },
            previous_requires_admin,
        ) && entry.uses_env == previous_uses_env,
        ActionKindV1::RelocateManagedJson {
            previous_destination,
            previous_receipt_hash,
            previous_managed_keys,
            previous_uses_env,
            ..
        } => is_json_receipt(
            entry,
            previous_destination@,
            previous_receipt_hash,
            texts(previous_managed_keys@),
        ) && entry.uses_env == previous_uses_env,
        ActionKindV1::MergeManagedJson {
            destination,
            previous_receipt_hash,
            managed_keys,
            ..
        } => match previous_receipt_hash {
            Some(hash) => is_json_receipt(entry, destination@, hash, texts(managed_keys@)),
            None => false,
        },
        ActionKindV1::RemoveManagedJson {
            destination,
            receipt_managed_hash,
            managed_keys,
            uses_env,
            ..
        } => is_json_receipt(entry, destination@, receipt_managed_hash, texts(managed_keys@))
            && entry.uses_env == uses_env,
        ActionKindV1::UpdateManagedFile {
            destination,
            previous_backup,
            original_hash,
            requires_admin,
            ..
        } => is_copy_receipt(
            entry,
            destination@,
            original_hash,
            optional_text(previous_backup),
            requires_admin,
        ),
        ActionKindV1::RemoveManagedFile {
            destination,
            original_hash,
            uses_env,
            requires_admin,
            ..
        } => is_copy_receipt(entry, destination@, original_hash, None, requires_admin)
            && entry.uses_env == uses_env,
        ActionKindV1::RemoveManagedFileWithBackup {
            destination,
            backup,
            managed_hash,
            uses_env,
            requires_admin,
            ..
        } => is_copy_receipt(entry, destination@, managed_hash, Some(backup@), requires_admin)
            && entry.uses_env == uses_env,
        ActionKindV1::ForceRemoveManagedFile {
            destination,
            persistent_backup,
            receipt_hash,
            uses_env,
            requires_admin,
            ..
        } => is_copy_receipt(
            entry,
            destination@,
            receipt_hash,
            match persistent_backup {
                Some(backup) => Some(backup.path@),
                None => None,
            },
            requires_admin,
        ) && entry.uses_env == uses_env,
        _ => false,
    }
}

/// Whether the receipts hold the one that the action leaves.
pub open spec fn receipt_matches(
    entries: Seq<AppEntryView>,
    action: DeclarativeActionV1,
) -> bool {
    match entry_of_source(entries, action.source()) {
        Some(entry) => is_receipt_after(entry, action.kind),
        None => false,
    }
}

/// Whether the receipts hold the one that the action started from.
pub open spec fn previous_receipt_matches(
    entries: Seq<AppEntryView>,
    action: DeclarativeActionV1,
) -> bool {
    match entry_of_source(entries, action.source()) {
        Some(entry) => is_receipt_before(entry, action.kind),
        None => false,
    }
}

fn is_copy_entry(
    entry: &AppEntry,
    destination: &String,
    hash: u64,
    backup: Option<&String>,
    requires_admin: bool,
) -> (result: bool)
    ensures
        result == is_copy_receipt(
            entry@,
            destination@,
            hash,
            borrowed_text(backup),
            requires_admin,
        ),
{
    let same_backup = match (&entry.backup, backup) {
        (Some(own), Some(other)) => paths_match(own.as_str(), other.as_str()),
        (None, None) => true,
        _ => false,
    };
    paths_match(entry.destination.as_str(), destination.as_str()) && entry.content_hash == hash
        && same_backup && entry.install_strategy.is_copy() && entry.requires_admin
        == requires_admin
}

fn is_json_entry(entry: &AppEntry, destination: &String, hash: u64, keys: &Vec<String>) -> (result:
    bool)
    ensures
        result == is_json_receipt(entry@, destination@, hash, texts(keys@)),
{
    paths_match(entry.destination.as_str(), destination.as_str()) && entry.content_hash == hash
        && entry.backup.is_none() && entry.install_strategy.merges(keys) && !entry.requires_admin
}

/// Whether the manifest holds the receipt that the action leaves.
pub fn matching_app_receipt(manifest: &AppManifest, action: &DeclarativeActionV1) -> (result: bool)
    ensures
        result == receipt_matches(manifest@, *action),
{
    let source = action_source_identity(action);
    let entry = match manifest.find_by_source(source.as_str()) {
        Some(entry) => entry,
        None => return false,
    };
    match &action.kind {
        ActionKindV1::CreateManagedFile { destination, desired_hash, requires_admin } => {
            is_copy_entry(entry, destination, *desired_hash, None, *requires_admin)
        },
        ActionKindV1::CreateManagedFileWithBackup {
            destination,
            backup,
            desired_hash,
            requires_admin,
            ..
        } => is_copy_entry(entry, destination, *desired_hash, Some(backup), *requires_admin),
        ActionKindV1::UpdateManagedFile {
            destination,
            previous_backup,
            desired_hash,
            requires_admin,
            ..
        } => is_copy_entry(
            entry,
            destination,
            *desired_hash,
            previous_backup.as_ref(),
            *requires_admin,
        ),
        ActionKindV1::RelocateManagedFile {
            desired_destination,
            desired_hash,
            desired_uses_env,
            desired_requires_admin,
            ..
        } => is_copy_entry(
            entry,
            desired_destination,
            *desired_hash,
            None,
            *desired_requires_admin,
        ) && entry.uses_env == *desired_uses_env,
        ActionKindV1::RelocateManagedJson {
            desired_destination,
            desired_managed_hash,
            desired_managed_keys,
            desired_uses_env,
            ..
        } => is_json_entry(entry, desired_destination, *desired_managed_hash, desired_managed_keys)
            && entry.uses_env == *desired_uses_env,
        ActionKindV1::MergeManagedJson {
            destination,
            desired_managed_hash,
            managed_keys,
            ..
        } => is_json_entry(entry, destination, *desired_managed_hash, managed_keys),
        _ => false,
    }
}

/// Whether the manifest holds the receipt that the action started from.
pub fn matching_previous_app_receipt(
    manifest: &AppManifest,
    action: &DeclarativeActionV1,
) -> (result: bool)
    ensures
        result == previous_receipt_matches(manifest@, *action),
{
    let source = action_source_identity(action);
    let entry = match manifest.find_by_source(source.as_str()) {
        Some(entry) => entry,
        None => return false,
    };
    match &action.kind {
        ActionKindV1::RelocateManagedFile {
            previous_destination,
            previous_backup,
            previous_hash,
            previous_uses_env,
            previous_requires_admin,
            ..
        } => {
            let backup = match previous_backup {
                Some(backup) => Some(&backup.path),
                None => None,
            };
            is_copy_entry(
                entry,
                previous_destination,
                *previous_hash,
                backup,
                *previous_requires_admin,
            ) && entry.uses_env == *previous_uses_env
        },
        ActionKindV1::RelocateManagedJson {
            previous_destination,
            previous_receipt_hash,
            previous_managed_keys,
            previous_uses_env,
            ..
        } => is_json_entry(
            entry,
            previous_destination,
            *previous_receipt_hash,
            previous_managed_keys,
        ) && entry.uses_env == *previous_uses_env,
        ActionKindV1::MergeManagedJson {
            destination,
            previous_receipt_hash,
            managed_keys,
            ..
        } => match previous_receipt_hash {
            Some(hash) => is_json_entry(entry, destination, *hash, managed_keys),
            None => false,
        },
        ActionKindV1::RemoveManagedJson {
            destination,
            receipt_managed_hash,
            managed_keys,
            uses_env,
            ..
        } => is_json_entry(entry, destination, *receipt_managed_hash, managed_keys)
            && entry.uses_env == *uses_env,
        ActionKindV1::UpdateManagedFile {
            destination,
            previous_backup,
            original_hash,
            requires_admin,
            ..
        } => is_copy_entry(
            entry,
            destination,
            *original_hash,
            previous_backup.as_ref(),
            *requires_admin,
        ),
        ActionKindV1::RemoveManagedFile {
            destination,
            original_hash,
            uses_env,
            requires_admin,
            ..
        } => is_copy_entry(entry, destination, *original_hash, None, *requires_admin)
            && entry.uses_env == *uses_env,
        ActionKindV1::RemoveManagedFileWithBackup {
            destination,
            backup,
            managed_hash,
            uses_env,
            requires_admin,
            ..
        } => is_copy_entry(entry, destination, *managed_hash, Some(backup), *requires_admin)
            && entry.uses_env == *uses_env,
        ActionKindV1::ForceRemoveManagedFile {
            destination,
            persistent_backup,
            receipt_hash,
            uses_env,
            requires_admin,
            ..
        } => {
            let backup = match persistent_backup {
                Some(backup) => Some(&backup.path),
                None => None,
            };
            is_copy_entry(entry, destination, *receipt_hash, backup, *requires_admin)
                && entry.uses_env == *uses_env
        },
        _ => false,
    }
}

/// The receipt that a removal took away, where the action is a removal.
pub open spec fn removed_receipt(action: DeclarativeActionV1) -> Option<AppEntryView> {
    match action.kind {
        ActionKindV1::RemoveManagedFile {
            destination,
            original_hash,
            uses_env,
            requires_admin,
            ..
        } => Some(
            AppEntryView {
                source: action.source(),
                destination: destination@,
                backup: None,
                content_hash: original_hash,
                managed_keys: None,
                uses_env,
                requires_admin,
            },
        ),
        ActionKindV1::RemoveManagedFileWithBackup {
            destination,
            backup,
            managed_hash,
            uses_env,
            requires_admin,
            ..
        } => Some(
            AppEntryView {
                source: action.source(),
                destination: destination@,
                backup: Some(backup@),
                content_hash: managed_hash,
                managed_keys: None,
                uses_env,
                requires_admin,
            },
        ),
        ActionKindV1::ForceRemoveManagedFile {
            destination,
            persistent_backup,
            receipt_hash,
            uses_env,
            requires_admin,
            ..
        } => Some(
            AppEntryView {
                source: action.source(),
                destination: destination@,
                backup: match persistent_backup {
                    Some(backup) => Some(backup.path@),
                    None => None,
                },
                content_hash: receipt_hash,
                managed_keys: None,
                uses_env,
                requires_admin,
            },
        ),
        ActionKindV1::RemoveManagedJson {
            destination,
            receipt_managed_hash,
            managed_keys,
            uses_env,
            ..
        } => Some(
            AppEntryView {
                source: action.source(),
                destination: destination@,
                backup: None,
                content_hash: receipt_managed_hash,
                managed_keys: Some(texts(managed_keys@)),
                uses_env,
                requires_admin: false,
            },
        ),
        _ => None,
    }
}

/// The receipt that the removal took away; none where the action is no removal.
pub fn previous_removed_app_receipt(action: &DeclarativeActionV1) -> (receipt: Option<AppEntry>)
    ensures
        receipt is Some <==> removed_receipt(*action) is Some,
        receipt is Some ==> removed_receipt(*action) == Some(receipt->0@),
{
    let source = action_source_identity(action);
    match &action.kind {
        ActionKindV1::RemoveManagedFile {
            destination,
            original_hash,
            uses_env,
            requires_admin,
            ..
        } => Some(
            AppEntry {
                source,
                destination: destination.clone(),
                backup: None,
                content_hash: *original_hash,
                install_strategy: AppInstallStrategy::Copy,
                uses_env: *uses_env,
                requires_admin: *requires_admin,
            },
        ),
        ActionKindV1::RemoveManagedFileWithBackup {
            destination,
            backup,
            managed_hash,
            uses_env,
            requires_admin,
            ..
        } => Some(
            AppEntry {
                source,
                destination: destination.clone(),
                backup: Some(backup.clone()),
                content_hash: *managed_hash,
                install_strategy: AppInstallStrategy::Copy,
                uses_env: *uses_env,
                requires_admin: *requires_admin,
            },
        ),
        ActionKindV1::ForceRemoveManagedFile {
            destination,
            persistent_backup,
            receipt_hash,
            uses_env,
            requires_admin,
            ..
        } => Some(
            AppEntry {
                source,
                destination: destination.clone(),
                backup: match persistent_backup {
                    Some(backup) => Some(backup.path.clone()),
                    None => None,
                },
                content_hash: *receipt_hash,
                install_strategy: AppInstallStrategy::Copy,
                uses_env: *uses_env,
                requires_admin: *requires_admin,
            },
        ),
        ActionKindV1::RemoveManagedJson {
            destination,
            receipt_managed_hash,
            managed_keys,
            uses_env,
            ..
        } => Some(
            AppEntry {
                source,
                destination: destination.clone(),
                backup: None,
                content_hash: *receipt_managed_hash,
                install_strategy: AppInstallStrategy::JsonMerge {
                    managed_keys: copy_texts(managed_keys.as_slice()),
                },
                uses_env: *uses_env,
                requires_admin: false,
            },
        ),
        _ => None,
    }
}

/// The paths that a removal gives up: its destination, its rollback material and
/// the backup it returns, in this order.
pub open spec fn removal_paths(kind: ActionKindV1) -> Option<
    (Seq<char>, Seq<char>, Option<Seq<char>>),
> {
    match kind {
        ActionKindV1::RemoveManagedFile { destination, rollback, .. } => Some(
            (destination@, rollback@, None),
        ),
        ActionKindV1::RemoveManagedFileWithBackup { destination, backup, rollback, .. } => Some(
            (destination@, rollback@, Some(backup@)),
        ),
        ActionKindV1::ForceRemoveManagedFile { destination, persistent_backup, rollback, .. } =>
        Some(
            (
                destination@,
                rollback@,
                match persistent_backup {
                    Some(backup) => Some(backup.path@),
                    None => None,
                },
            ),
        ),
        ActionKindV1::RemoveManagedJson { destination, rollback, .. } => Some(
            (destination@, rollback@, None),
        ),
        _ => None,
    }
}

/// Whether no receipt speaks of a removed resource any more.
pub open spec fn removal_committed(
    entries: Seq<AppEntryView>,
    action: DeclarativeActionV1,
) -> bool {
    match removal_paths(action.kind) {
        Some((destination, rollback, backup)) => {
            &&& entry_of_source(entries, action.source()) is None
            &&& !owns(entries, destination)
            &&& !owns(entries, rollback)
            &&& (backup is Some ==> !owns(entries, backup->0))
        },
        None => false,
    }
}

/// Whether no receipt speaks of the removed resource any more.
pub fn removed_app_receipt_committed(manifest: &AppManifest, action: &DeclarativeActionV1) -> (
    result: bool)
    ensures
        result == removal_committed(manifest@, *action),
{
    let (destination, backup, rollback): (&String, Option<&String>, &String) = match &action.kind {
        ActionKindV1::RemoveManagedFile { destination, rollback, .. } => (
            destination,
            None,
            rollback,
        ),
        ActionKindV1::RemoveManagedFileWithBackup { destination, backup, rollback, .. } => (
            destination,
            Some(backup),
            rollback,
        ),
        ActionKindV1::ForceRemoveManagedFile { destination, persistent_backup, rollback, .. } => (
            destination,
            match persistent_backup {
                Some(backup) => Some(&backup.path),
                None => None,
            },
            rollback,
        ),
        ActionKindV1::RemoveManagedJson { destination, rollback, .. } => (
            destination,
            None,
            rollback,
        ),
        _ => return false,
    };
    let source = action_source_identity(action);
    let backup_free = match backup {
        Some(backup) => !manifest.owns_destination(backup.as_str()),
        None => true,
    };
    manifest.find_by_source(source.as_str()).is_none() && !manifest.owns_destination(
        destination.as_str(),
    ) && !manifest.owns_destination(rollback.as_str()) && backup_free
}

/// Whether the receipts contradict an interrupted removal.
pub open spec fn removal_conflicts(
    entries: Seq<AppEntryView>,
    action: DeclarativeActionV1,
    receipt_committed: bool,
) -> bool {
    match removal_paths(action.kind) {
        None => true,
        Some((_, rollback, _)) => if receipt_committed {
            !removal_committed(entries, action)
        } else {
            !(previous_receipt_matches(entries, action) || removal_committed(entries, action))
                || owns(entries, rollback)
        },
    }
}

/// Whether the receipts contradict the interrupted removal.
pub fn removal_receipt_conflict(
    manifest: &AppManifest,
    action: &DeclarativeActionV1,
    receipt_committed: bool,
) -> (result: bool)
    ensures
        result == removal_conflicts(manifest@, *action, receipt_committed),
{
    let rollback = match &action.kind {
        ActionKindV1::RemoveManagedFile { rollback, .. } => rollback,
        ActionKindV1::RemoveManagedFileWithBackup { rollback, .. } => rollback,
        ActionKindV1::ForceRemoveManagedFile { rollback, .. } => rollback,
        ActionKindV1::RemoveManagedJson { rollback, .. } => rollback,
        _ => return true,
    };
    if receipt_committed {
        return !removed_app_receipt_committed(manifest, action);
    }
    !(matching_previous_app_receipt(manifest, action) || removed_app_receipt_committed(
        manifest,
        action,
    )) || manifest.owns_destination(rollback.as_str())
}

/// Whether a receipt claims a path: as its destination or as its backup.
pub open spec fn claims(entry: AppEntryView, path: Seq<char>) -> bool {
    same_path(entry.destination, path) || (entry.backup is Some && same_path(
        entry.backup->0,
        path,
    ))
}

/// Whether a receipt of another source claims one of the paths.
pub open spec fn claimed_by_other(
    entries: Seq<AppEntryView>,
    source: Seq<char>,
    paths: Seq<Seq<char>>,
) -> bool {
    exists|i: int, j: int|
        0 <= i < entries.len() && 0 <= j < paths.len() && entries[i].source != source
            && #[trigger] claims(entries[i], paths[j])
}

/// The paths that a relocation needs for itself.
pub open spec fn relocation_paths(kind: ActionKindV1) -> Seq<Seq<char>> {
    match kind {
        ActionKindV1::RelocateManagedFile {
            previous_destination,
            previous_backup,
            previous_rollback,
            desired_destination,
            ..
        } => {
            let paths = seq![previous_destination@, desired_destination@, previous_rollback@];
            match previous_backup {
                Some(backup) => paths.push(backup.path@),
                None => paths,
            }
        },
        ActionKindV1::RelocateManagedJson {
            previous_destination,
            previous_rollback,
            desired_destination,
            ..
        } => seq![previous_destination@, desired_destination@, previous_rollback@],
        _ => Seq::empty(),
    }
}

/// Whether the receipts contradict an action that is no removal.
pub open spec fn receipt_conflicts(
    entries: Seq<AppEntryView>,
    action: DeclarativeActionV1,
) -> bool {
    match action.kind {
        ActionKindV1::RelocateManagedFile { .. } => relocation_conflicts(entries, action),
        ActionKindV1::RelocateManagedJson { .. } => relocation_conflicts(entries, action),
        ActionKindV1::UpdateManagedFile { rollback, .. } => !receipt_matches(entries, action) && (
        !previous_receipt_matches(entries, action) || owns(entries, rollback@)),
        ActionKindV1::MergeManagedJson { destination, rollback, previous_receipt_hash, .. } =>
        !receipt_matches(entries, action) && ({
            ||| !previous_receipt_matches(entries, action) && (previous_receipt_hash is Some
                || entry_of_source(entries, action.source()) is Some || owns(
                entries,
                destination@,
            ))
            ||| owns(entries, rollback@)
        }),
        ActionKindV1::CreateManagedFile { destination, .. } => !receipt_matches(entries, action)
            && (entry_of_source(entries, action.source()) is Some || owns(entries, destination@)),
        ActionKindV1::CreateManagedFileWithBackup { destination, backup, .. } => !receipt_matches(
            entries,
            action,
        ) && (entry_of_source(entries, action.source()) is Some || owns(entries, destination@)
            || owns(entries, backup@)),
        ActionKindV1::Foreign(_) => entry_of_source(entries, action.source()) is Some,
        _ => true,
    }
}

/// A relocation is contradicted where the receipts hold neither its beginning
/// nor its end, or where another source claims one of its paths.
pub open spec fn relocation_conflicts(
    entries: Seq<AppEntryView>,
    action: DeclarativeActionV1,
) -> bool {
    ||| !receipt_matches(entries, action) && !previous_receipt_matches(entries, action)
    ||| claimed_by_other(entries, action.source(), relocation_paths(action.kind))
}

fn entry_claims(entry: &AppEntry, path: &str) -> (result: bool)
    ensures
        result == claims(entry@, path@),
{
    if paths_match(entry.destination.as_str(), path) {
        return true;
    }
    match &entry.backup {
        Some(backup) => paths_match(backup.as_str(), path),
        None => false,
    }
}

fn other_claims(manifest: &AppManifest, source: &str, paths: &Vec<String>) -> (result: bool)
    ensures
        result == claimed_by_other(manifest@, source@, texts(paths@)),
{
    let mut i: usize = 0;
    while i < manifest.entries.len()
        invariant
            i <= manifest.entries.len(),
            forall|a: int, b: int|
                0 <= a < i && 0 <= b < paths@.len() && manifest@[a].source != source@
                    ==> !#[trigger] claims(manifest@[a], texts(paths@)[b]),
        decreases manifest.entries.len() - i,
    {
        let entry = &manifest.entries[i];
        proof {
            assert(manifest@[i as int] == entry@);
        }
        if !same_text(entry.source.as_str(), source) {
            let mut k: usize = 0;
            while k < paths.len()
                invariant
                    k <= paths.len(),
                    i < manifest.entries.len(),
                    entry@ == manifest@[i as int],
                    entry@.source != source@,
                    forall|b: int| 0 <= b < k ==> !#[trigger] claims(entry@, texts(paths@)[b]),
                decreases paths.len() - k,
            {
                proof {
                    assert(texts(paths@)[k as int] == paths@[k as int]@);
                }
                if entry_claims(entry, paths[k].as_str()) {
                    proof {
                        assert(claims(manifest@[i as int], texts(paths@)[k as int]));
                    }
                    return true;
                }
                k += 1;
            }
        }
        i += 1;
    }
    false
}

fn paths_of_relocation(kind: &ActionKindV1) -> (paths: Vec<String>)
    ensures
        texts(paths@) == relocation_paths(*kind),
{
    let mut paths: Vec<String> = Vec::new();
    match kind {
        ActionKindV1::RelocateManagedFile {
            previous_destination,
            previous_backup,
            previous_rollback,
            desired_destination,
            ..
        } => {
            paths.push(previous_destination.clone());
            paths.push(desired_destination.clone());
            paths.push(previous_rollback.clone());
            if let Some(backup) = previous_backup {
                paths.push(backup.path.clone());
            }
        },
        ActionKindV1::RelocateManagedJson {
            previous_destination,
            previous_rollback,
            desired_destination,
            ..
        } => {
            paths.push(previous_destination.clone());
            paths.push(desired_destination.clone());
            paths.push(previous_rollback.clone());
        },
        _ => {},
    }
    proof {
        assert(texts(paths@) =~= relocation_paths(*kind));
    }
    paths
}

/// Whether the receipts contradict the action.
pub fn conflicting_app_receipt(manifest: &AppManifest, action: &DeclarativeActionV1) -> (result:
    bool)
    ensures
        result == receipt_conflicts(manifest@, *action),
{
    let relocates = match &action.kind {
        ActionKindV1::RelocateManagedFile { .. } => true,
        ActionKindV1::RelocateManagedJson { .. } => true,
        _ => false,
    };
    let source = action_source_identity(action);
    if relocates {
        if !matching_app_receipt(manifest, action) && !matching_previous_app_receipt(
            manifest,
            action,
        ) {
            return true;
        }
        let paths = paths_of_relocation(&action.kind);
        return other_claims(manifest, source.as_str(), &paths);
    }
    if matching_app_receipt(manifest, action) {
        return false;
    }
    let source_owned = manifest.find_by_source(source.as_str()).is_some();
    match &action.kind {
        ActionKindV1::UpdateManagedFile { rollback, .. } => {
            !matching_previous_app_receipt(manifest, action) || manifest.owns_destination(
                rollback.as_str(),
            )
        },
        ActionKindV1::MergeManagedJson { destination, rollback, previous_receipt_hash, .. } => {
            if !matching_previous_app_receipt(manifest, action) && (
            previous_receipt_hash.is_some() || source_owned || manifest.owns_destination(
                destination.as_str(),
            )) {
                return true;
            }
            manifest.owns_destination(rollback.as_str())
        },
        ActionKindV1::CreateManagedFile { destination, .. } => {
            source_owned || manifest.owns_destination(destination.as_str())
        },
        ActionKindV1::CreateManagedFileWithBackup { destination, backup, .. } => {
            source_owned || manifest.owns_destination(destination.as_str())
                || manifest.owns_destination(backup.as_str())
        },
        ActionKindV1::Foreign(_) => source_owned,
        _ => true,
    }
}

/// Whether a plan allows a removal: by a removal step for the resource, which an
/// uninstall that overrides a user's change must say, and which an upgrade may
/// only take for a stale source that was not changed.
pub open spec fn plan_authorizes_removal(
    plan: PlanV1,
    action: DeclarativeActionV1,
    forced: bool,
) -> bool {
    match plan.operation {
        PlanOperationV1::Uninstall => if forced {
            plan.has_coded_step(
                action.target@,
                action.resource@,
                PlanActionV1::Remove,
                "app_user_modification_override"@,
            )
        } else {
            plan.has_step(action.target@, action.resource@, PlanActionV1::Remove)
        },
        PlanOperationV1::Upgrade => !forced && plan.has_coded_step(
            action.target@,
            action.resource@,
            PlanActionV1::Remove,
            "app_stale_source_pruned"@,
        ),
        _ => false,
    }
}

/// Whether the plan allows the removal.
pub fn app_removal_plan_authorizes(plan: &PlanV1, action: &DeclarativeActionV1, forced: bool) -> (
    result: bool)
    ensures
        result == plan_authorizes_removal(*plan, *action, forced),
{
    match plan.operation {
        PlanOperationV1::Uninstall => {
            if forced {
                plan.describes_coded_step(
                    action.target.as_str(),
                    action.resource.as_str(),
                    PlanActionV1::Remove,
                    "app_user_modification_override",
                )
            } else {
                plan.describes_step(
                    action.target.as_str(),
                    action.resource.as_str(),
                    PlanActionV1::Remove,
                )
            }
        },
        PlanOperationV1::Upgrade => {
            !forced && plan.describes_coded_step(
                action.target.as_str(),
                action.resource.as_str(),
                PlanActionV1::Remove,
                "app_stale_source_pruned",
            )
        },
        _ => false,
    }
}

/// The receipt that recovery puts back is the one that the removal started from.
pub proof fn law_restored_receipt_is_the_previous_one(action: DeclarativeActionV1)
    requires
        removed_receipt(action) is Some,
    ensures
        is_receipt_before(removed_receipt(action)->0, action.kind),
        removed_receipt(action)->0.source == action.source(),
{
}

/// A removal's receipts are not both there and gone.
pub proof fn law_removal_is_not_both_owned_and_committed(
    entries: Seq<AppEntryView>,
    action: DeclarativeActionV1,
)
    ensures
        !(previous_receipt_matches(entries, action) && removal_committed(entries, action)),
{
}

} // verus!
