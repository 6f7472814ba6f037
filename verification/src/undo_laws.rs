//! What undoing an interrupted operation may take away, and what it gives back.
//!
//! The statements here are about files: what stands at the parts of an action before
//! recovery, and what stands there afterwards.

use vstd::prelude::*;

use crate::action::{ActionKindV1, PathRole};
use crate::content::content_hash;
use crate::json::{json_equal, json_object, rendered};
use crate::plan::PlanActionV1;
use crate::recovery::FileView;
use crate::recovery_apply::{rollback_of, RecoveryMutation};
use crate::recovery_laws::{after_change, after_changes, findings_of, is_whole_file};
use crate::recovery_plan::{has_access, observed_roles, recovery_decision};
use crate::text::texts;

verus! {

/// Whether a regular file stands there whose content has this identity.
pub open spec fn holds(file: FileView, hash: u64) -> bool {
    file is Regular && content_hash(file->content) == hash
}

/// Whether a regular file with this identity and this mode stands there.
pub open spec fn holds_exactly(file: FileView, hash: u64, mode: Option<u32>) -> bool {
    holds(file, hash) && file->mode == mode
}

/// Whether a regular file stands there whose object has just these members under the
/// keys: together they have this identity, and there is at least one.
pub open spec fn keys_are(file: FileView, keys: Seq<Seq<char>>, hash: u64) -> bool {
    &&& file is Regular
    &&& json_object(file->content) is Some
    &&& exists|i: int|
        0 <= i < keys.len() && json_object(file->content)->0.contains_key(#[trigger] keys[i])
    &&& rendered(json_object(file->content)->0.restrict(keys.to_set())) is Some
    &&& content_hash(rendered(json_object(file->content)->0.restrict(keys.to_set()))->0) == hash
}

/// Whether a regular file stands there whose object has none of the keys.
pub open spec fn keys_are_gone(file: FileView, keys: Seq<Seq<char>>) -> bool {
    &&& file is Regular
    &&& json_object(file->content) is Some
    &&& forall|i: int|
        0 <= i < keys.len() ==> !json_object(file->content)->0.contains_key(#[trigger] keys[i])
}

/// Whether two regular files hold objects that say the same of every key.
pub open spec fn keys_are_alike(left: FileView, right: FileView, keys: Seq<Seq<char>>) -> bool {
    &&& left is Regular && right is Regular
    &&& json_object(left->content) is Some && json_object(right->content) is Some
    &&& forall|i: int|
        0 <= i < keys.len() ==> {
            let key = #[trigger] keys[i];
            let own = json_object(left->content)->0;
            let other = json_object(right->content)->0;
            &&& own.contains_key(key) == other.contains_key(key)
            &&& own.contains_key(key) ==> json_equal(own[key], other[key])
        }
}

/// Whether a regular file stands there whose object has no other members than those
/// under the keys.
pub open spec fn nothing_but_keys(file: FileView, keys: Seq<Seq<char>>) -> bool {
    &&& file is Regular
    &&& json_object(file->content) is Some
    &&& forall|name: Seq<char>| #[trigger]
        json_object(file->content)->0.contains_key(name) ==> keys.contains(name)
}

/// Whether the receipts say that the operation is settled: the receipt that it leaves
/// is there, or, of a removal, the journal says that its receipt is gone for good.
pub open spec fn is_settled(kind: ActionKindV1, committed: bool, receipt: bool) -> bool {
    match kind {
        ActionKindV1::RemoveManagedFile { .. } => committed,
        ActionKindV1::RemoveManagedFileWithBackup { .. } => committed,
        ActionKindV1::ForceRemoveManagedFile { .. } => committed,
        ActionKindV1::RemoveManagedJson { .. } => committed,
        _ => receipt,
    }
}

/// Whether an action takes something away that has a receipt.
pub open spec fn is_removal(kind: ActionKindV1) -> bool {
    kind is RemoveManagedFile || kind is RemoveManagedFileWithBackup
        || kind is ForceRemoveManagedFile || kind is RemoveManagedJson
}

/// Whether what stands at a part may be deleted by a recovery: it is what the operation
/// wrote and the operation is undone, or it is the rollback material of something that
/// stands where it belongs.
pub open spec fn may_be_deleted(
    kind: ActionKindV1,
    settled: bool,
    files: Map<PathRole, FileView>,
    role: PathRole,
) -> bool {
    match kind {
        ActionKindV1::CreateManagedFile { desired_hash, .. } => role == PathRole::Destination
            && !settled && holds(files[role], desired_hash),
        ActionKindV1::CreateManagedFileWithBackup { original_hash, desired_hash, .. } => role
            == PathRole::Destination && !settled && holds(files[role], desired_hash) && holds(
            files[PathRole::Backup],
            original_hash,
        ),
        ActionKindV1::UpdateManagedFile { original_mode, original_hash, desired_hash, .. } => {
            let kept = holds_exactly(files[PathRole::Rollback], original_hash, original_mode);
            if settled {
                role == PathRole::Rollback && kept
            } else {
                role == PathRole::Destination && kept && holds_exactly(
                    files[role],
                    desired_hash,
                    original_mode,
                )
            }
        },
        ActionKindV1::RelocateManagedFile { previous_mode, previous_hash, desired_hash, .. } => if
        settled {
            role == PathRole::PreviousRollback && holds_exactly(
                files[role],
                previous_hash,
                previous_mode,
            ) && holds(files[PathRole::DesiredDestination], desired_hash)
        } else {
            role == PathRole::DesiredDestination && holds(files[role], desired_hash)
        },
        ActionKindV1::RemoveManagedFile { original_mode, original_hash, .. } => settled && role
            == PathRole::Rollback && files[PathRole::Destination] is Missing && holds_exactly(
            files[role],
            original_hash,
            original_mode,
        ),
        ActionKindV1::RemoveManagedFileWithBackup {
            managed_mode,
            managed_hash,
            backup_mode,
            backup_hash,
            ..
        } => settled && role == PathRole::Rollback && holds_exactly(
            files[role],
            managed_hash,
            managed_mode,
        ) && holds_exactly(files[PathRole::Destination], backup_hash, backup_mode),
        ActionKindV1::ForceRemoveManagedFile {
            persistent_backup,
            current_mode,
            current_hash,
            ..
        } => settled && role == PathRole::Rollback && holds_exactly(
            files[role],
            current_hash,
            current_mode,
        ) && match persistent_backup {
            Some(backup) => holds_exactly(files[PathRole::Destination], backup.hash, backup.mode),
            None => files[PathRole::Destination] is Missing,
        },
        ActionKindV1::MergeManagedJson {
            original_mode,
            original_hash,
            desired_managed_hash,
            managed_keys,
            ..
        } => {
            let keys = texts(managed_keys@);
            if role == PathRole::Rollback {
                &&& original_hash is Some
                &&& holds_exactly(files[role], original_hash->0, original_mode)
                &&& settled || keys_are_alike(files[PathRole::Destination], files[role], keys)
            } else {
                &&& role == PathRole::Destination && !settled
                &&& original_hash is None
                &&& keys_are(files[role], keys, desired_managed_hash)
                &&& nothing_but_keys(files[role], keys)
            }
        },
        ActionKindV1::RemoveManagedJson { original_mode, original_hash, managed_keys, .. } => {
            &&& role == PathRole::Rollback
            &&& holds_exactly(files[role], original_hash, original_mode)
            &&& settled || keys_are_alike(
                files[PathRole::Destination],
                files[role],
                texts(managed_keys@),
            )
        },
        ActionKindV1::RelocateManagedJson {
            previous_mode,
            previous_original_hash,
            previous_managed_keys,
            desired_managed_hash,
            desired_managed_keys,
            ..
        } => {
            let desired = files[PathRole::DesiredDestination];
            if role == PathRole::PreviousRollback {
                &&& previous_original_hash is Some
                &&& holds_exactly(files[role], previous_original_hash->0, previous_mode)
                &&& if settled {
                    keys_are(desired, texts(desired_managed_keys@), desired_managed_hash)
                } else {
                    keys_are_alike(
                        files[PathRole::PreviousDestination],
                        files[role],
                        texts(previous_managed_keys@),
                    )
                }
            } else {
                &&& role == PathRole::DesiredDestination && !settled
                &&& keys_are(desired, texts(desired_managed_keys@), desired_managed_hash)
                &&& nothing_but_keys(desired, texts(desired_managed_keys@))
            }
        },
        ActionKindV1::Foreign(_) => false,
    }
}

/// Whether what stands at a part may be moved to another by a recovery: it is what the
/// operation moved away from there, and the operation is undone.
pub open spec fn may_be_moved(
    kind: ActionKindV1,
    settled: bool,
    files: Map<PathRole, FileView>,
    from: PathRole,
    to: PathRole,
) -> bool {
    !settled && match kind {
        ActionKindV1::CreateManagedFileWithBackup { original_hash, .. } => from == PathRole::Backup
            && to == PathRole::Destination && holds(files[from], original_hash),
        ActionKindV1::UpdateManagedFile { original_mode, original_hash, .. } => from
            == PathRole::Rollback && to == PathRole::Destination && holds_exactly(
            files[from],
            original_hash,
            original_mode,
        ),
        ActionKindV1::RelocateManagedFile {
            previous_backup,
            previous_mode,
            previous_hash,
            ..
        } => if from == PathRole::PreviousRollback {
            to == PathRole::PreviousDestination && holds_exactly(
                files[from],
                previous_hash,
                previous_mode,
            )
        } else {
            &&& from == PathRole::PreviousDestination && to == PathRole::PreviousBackup
            &&& previous_backup is Some
            &&& holds_exactly(files[from], previous_backup->0.hash, previous_backup->0.mode)
        },
        ActionKindV1::RemoveManagedFile { original_mode, original_hash, .. } => from
            == PathRole::Rollback && to == PathRole::Destination && holds_exactly(
            files[from],
            original_hash,
            original_mode,
        ),
        ActionKindV1::RemoveManagedFileWithBackup {
            managed_mode,
            managed_hash,
            backup_mode,
            backup_hash,
            ..
        } => if from == PathRole::Rollback {
            to == PathRole::Destination && holds_exactly(files[from], managed_hash, managed_mode)
        } else {
            from == PathRole::Destination && to == PathRole::Backup && holds_exactly(
                files[from],
                backup_hash,
                backup_mode,
            )
        },
        ActionKindV1::ForceRemoveManagedFile {
            persistent_backup,
            current_mode,
            current_hash,
            ..
        } => if from == PathRole::Rollback {
            to == PathRole::Destination && holds_exactly(files[from], current_hash, current_mode)
        } else {
            &&& from == PathRole::Destination && to == PathRole::Backup
            &&& persistent_backup is Some
            &&& holds_exactly(files[from], persistent_backup->0.hash, persistent_backup->0.mode)
        },
        ActionKindV1::MergeManagedJson { original_mode, original_hash, .. } => from
            == PathRole::Rollback && to == PathRole::Destination && original_hash is Some
            && holds_exactly(files[from], original_hash->0, original_mode),
        ActionKindV1::RemoveManagedJson { original_mode, original_hash, .. } => from
            == PathRole::Rollback && to == PathRole::Destination && holds_exactly(
            files[from],
            original_hash,
            original_mode,
        ),
        ActionKindV1::RelocateManagedJson { previous_mode, previous_original_hash, .. } => from
            == PathRole::PreviousRollback && to == PathRole::PreviousDestination
            && previous_original_hash is Some && holds_exactly(
            files[from],
            previous_original_hash->0,
            previous_mode,
        ),
        _ => false,
    }
}

/// Whether the keys of an object may be written by a recovery. Keys are taken out only
/// where they are just those that the operation wrote; keys are written over only where
/// they are just those that the operation wrote, or, of a removal, where they are gone,
/// and the material that they come from is what the operation put aside.
pub open spec fn may_be_rewritten(
    kind: ActionKindV1,
    settled: bool,
    files: Map<PathRole, FileView>,
    mutation: RecoveryMutation,
) -> bool {
    !settled && match (kind, mutation) {
        (
            ActionKindV1::MergeManagedJson {
                original_hash,
                desired_managed_hash,
                managed_keys,
                ..
            },
            RecoveryMutation::DropKeys { role },
        ) => role == PathRole::Destination && original_hash is None && keys_are(
            files[role],
            texts(managed_keys@),
            desired_managed_hash,
        ),
        (
            ActionKindV1::MergeManagedJson {
                original_mode,
                original_hash,
                desired_managed_hash,
                managed_keys,
                ..
            },
            RecoveryMutation::RestoreKeys { destination, rollback },
        ) => {
            &&& destination == PathRole::Destination && rollback == PathRole::Rollback
            &&& original_hash is Some
            &&& holds_exactly(files[rollback], original_hash->0, original_mode)
            &&& keys_are(files[destination], texts(managed_keys@), desired_managed_hash)
        },
        (
            ActionKindV1::RemoveManagedJson { original_mode, original_hash, managed_keys, .. },
            RecoveryMutation::RestoreKeys { destination, rollback },
        ) => {
            &&& destination == PathRole::Destination && rollback == PathRole::Rollback
            &&& holds_exactly(files[rollback], original_hash, original_mode)
            &&& keys_are_gone(files[destination], texts(managed_keys@))
        },
        (
            ActionKindV1::RelocateManagedJson {
                desired_managed_hash,
                desired_managed_keys,
                ..
            },
            RecoveryMutation::DropKeys { role },
        ) => role == PathRole::DesiredDestination && keys_are(
            files[role],
            texts(desired_managed_keys@),
            desired_managed_hash,
        ),
        (
            ActionKindV1::RelocateManagedJson {
                previous_mode,
                previous_original_hash,
                previous_managed_keys,
                ..
            },
            RecoveryMutation::RestoreKeys { destination, rollback },
        ) => {
            &&& destination == PathRole::PreviousDestination && rollback
                == PathRole::PreviousRollback
            &&& previous_original_hash is Some
            &&& holds_exactly(files[rollback], previous_original_hash->0, previous_mode)
            &&& keys_are_gone(files[destination], texts(previous_managed_keys@))
        },
        _ => false,
    }
}

/// Whether a part is free for what is moved there: nothing stood there, or it was taken
/// away by an earlier change.
pub open spec fn is_free_for(
    files: Map<PathRole, FileView>,
    mutations: Seq<RecoveryMutation>,
    index: int,
    role: PathRole,
) -> bool {
    ||| files[role] is Missing
    ||| exists|i: int|
        0 <= i < index && match #[trigger] mutations[i] {
            RecoveryMutation::Remove { role: gone, .. } => gone == role,
            RecoveryMutation::Move { from, .. } => from == role,
            _ => false,
        }
}

/// Whether one change of a recovery destroys nothing but what the operation made.
pub open spec fn destroys_nothing_else(
    kind: ActionKindV1,
    settled: bool,
    previous_receipt: bool,
    files: Map<PathRole, FileView>,
    mutations: Seq<RecoveryMutation>,
    index: int,
) -> bool {
    match mutations[index] {
        RecoveryMutation::Remove { role, .. } => may_be_deleted(kind, settled, files, role),
        RecoveryMutation::Move { from, to, .. } => may_be_moved(kind, settled, files, from, to)
            && is_free_for(files, mutations, index, to),
        RecoveryMutation::RestoreReceipt => is_removal(kind) && !settled && !previous_receipt
            && index == 0,
        keys => may_be_rewritten(kind, settled, files, keys),
    }
}

proof fn lemma_found(kind: ActionKindV1, files: Map<PathRole, FileView>)
    ensures
        forall|i: int|
            0 <= i < observed_roles(kind).len() ==> #[trigger] findings_of(kind, files)[i]
                == files[observed_roles(kind)[i]],
        findings_of(kind, files).len() == observed_roles(kind).len(),
{
}

proof fn lemma_create_managed_file_destroys_nothing_else(
    kind: ActionKindV1,
    committed: bool,
    receipt: bool,
    previous_receipt: bool,
    files: Map<PathRole, FileView>,
)
    requires
        kind is CreateManagedFile,
        rollback_of(kind, committed, receipt, previous_receipt, findings_of(kind, files)) is Ok,
    ensures
        ({
            let mutations = rollback_of(
                kind,
                committed,
                receipt,
                previous_receipt,
                findings_of(kind, files),
            )->Ok_0.mutations;
            forall|i: int|
                0 <= i < mutations.len() ==> #[trigger] destroys_nothing_else(
                    kind,
                    is_settled(kind, committed, receipt),
                    previous_receipt,
                    files,
                    mutations,
                    i,
                )
        }),
{
    lemma_found(kind, files);
}

proof fn lemma_create_managed_file_with_backup_destroys_nothing_else(
    kind: ActionKindV1,
    committed: bool,
    receipt: bool,
    previous_receipt: bool,
    files: Map<PathRole, FileView>,
)
    requires
        kind is CreateManagedFileWithBackup,
        rollback_of(kind, committed, receipt, previous_receipt, findings_of(kind, files)) is Ok,
    ensures
        ({
            let mutations = rollback_of(
                kind,
                committed,
                receipt,
                previous_receipt,
                findings_of(kind, files),
            )->Ok_0.mutations;
            forall|i: int|
                0 <= i < mutations.len() ==> #[trigger] destroys_nothing_else(
                    kind,
                    is_settled(kind, committed, receipt),
                    previous_receipt,
                    files,
                    mutations,
                    i,
                )
        }),
{
    lemma_found(kind, files);
}

proof fn lemma_update_managed_file_destroys_nothing_else(
    kind: ActionKindV1,
    committed: bool,
    receipt: bool,
    previous_receipt: bool,
    files: Map<PathRole, FileView>,
)
    requires
        kind is UpdateManagedFile,
        rollback_of(kind, committed, receipt, previous_receipt, findings_of(kind, files)) is Ok,
    ensures
        ({
            let mutations = rollback_of(
                kind,
                committed,
                receipt,
                previous_receipt,
                findings_of(kind, files),
            )->Ok_0.mutations;
            forall|i: int|
                0 <= i < mutations.len() ==> #[trigger] destroys_nothing_else(
                    kind,
                    is_settled(kind, committed, receipt),
                    previous_receipt,
                    files,
                    mutations,
                    i,
                )
        }),
{
    lemma_found(kind, files);
}

proof fn lemma_relocate_managed_file_destroys_nothing_else(
    kind: ActionKindV1,
    committed: bool,
    receipt: bool,
    previous_receipt: bool,
    files: Map<PathRole, FileView>,
    index: int,
)
    requires
        kind is RelocateManagedFile,
        rollback_of(kind, committed, receipt, previous_receipt, findings_of(kind, files)) is Ok,
        0 <= index < rollback_of(
            kind,
            committed,
            receipt,
            previous_receipt,
            findings_of(kind, files),
        )->Ok_0.mutations.len(),
    ensures
        ({
            let mutations = rollback_of(
                kind,
                committed,
                receipt,
                previous_receipt,
                findings_of(kind, files),
            )->Ok_0.mutations;
            destroys_nothing_else(
                kind,
                is_settled(kind, committed, receipt),
                previous_receipt,
                files,
                mutations,
                index,
            )
        }),
{
    let found = findings_of(kind, files);
    assert(found[0] == files[PathRole::PreviousDestination]);
    assert(found[1] == files[PathRole::PreviousRollback]);
    assert(found[2] == files[PathRole::DesiredDestination]);
    if kind->RelocateManagedFile_previous_backup is Some {
        assert(found[3] == files[PathRole::PreviousBackup]);
    }
    let mutations = rollback_of(
        kind,
        committed,
        receipt,
        previous_receipt,
        found,
    )->Ok_0.mutations;
    if index == 0 {
        assert(destroys_nothing_else(
            kind,
            is_settled(kind, committed, receipt),
            previous_receipt,
            files,
            mutations,
            0,
        ));
    } else if index == 1 {
        assert(mutations[0] == mutations[index - 1]);
    } else {
        assert(index == 2);
        assert(mutations[0] == mutations[index - 2]);
        assert(mutations[1] == mutations[index - 1]);
    }
}

proof fn lemma_remove_managed_file_destroys_nothing_else(
    kind: ActionKindV1,
    committed: bool,
    receipt: bool,
    previous_receipt: bool,
    files: Map<PathRole, FileView>,
)
    requires
        kind is RemoveManagedFile,
        rollback_of(kind, committed, receipt, previous_receipt, findings_of(kind, files)) is Ok,
    ensures
        ({
            let mutations = rollback_of(
                kind,
                committed,
                receipt,
                previous_receipt,
                findings_of(kind, files),
            )->Ok_0.mutations;
            forall|i: int|
                0 <= i < mutations.len() ==> #[trigger] destroys_nothing_else(
                    kind,
                    is_settled(kind, committed, receipt),
                    previous_receipt,
                    files,
                    mutations,
                    i,
                )
        }),
{
    lemma_found(kind, files);
}

proof fn lemma_remove_managed_file_with_backup_destroys_nothing_else(
    kind: ActionKindV1,
    committed: bool,
    receipt: bool,
    previous_receipt: bool,
    files: Map<PathRole, FileView>,
    index: int,
)
    requires
        kind is RemoveManagedFileWithBackup,
        rollback_of(kind, committed, receipt, previous_receipt, findings_of(kind, files)) is Ok,
        0 <= index < rollback_of(
            kind,
            committed,
            receipt,
            previous_receipt,
            findings_of(kind, files),
        )->Ok_0.mutations.len(),
    ensures
        ({
            let mutations = rollback_of(
                kind,
                committed,
                receipt,
                previous_receipt,
                findings_of(kind, files),
            )->Ok_0.mutations;
            destroys_nothing_else(
                kind,
                is_settled(kind, committed, receipt),
                previous_receipt,
                files,
                mutations,
                index,
            )
        }),
{
    let found = findings_of(kind, files);
    assert(found[0] == files[PathRole::Destination]);
    assert(found[1] == files[PathRole::Backup]);
    assert(found[2] == files[PathRole::Rollback]);
    let mutations = rollback_of(
        kind,
        committed,
        receipt,
        previous_receipt,
        found,
    )->Ok_0.mutations;
    if index == 0 {
        assert(destroys_nothing_else(
            kind,
            is_settled(kind, committed, receipt),
            previous_receipt,
            files,
            mutations,
            0,
        ));
    } else if index == 1 {
        assert(mutations[0] == mutations[index - 1]);
    } else {
        assert(index == 2);
        assert(mutations[0] == mutations[index - 2]);
        assert(mutations[1] == mutations[index - 1]);
    }
}

proof fn lemma_force_remove_managed_file_destroys_nothing_else(
    kind: ActionKindV1,
    committed: bool,
    receipt: bool,
    previous_receipt: bool,
    files: Map<PathRole, FileView>,
    index: int,
)
    requires
        kind is ForceRemoveManagedFile,
        rollback_of(kind, committed, receipt, previous_receipt, findings_of(kind, files)) is Ok,
        0 <= index < rollback_of(
            kind,
            committed,
            receipt,
            previous_receipt,
            findings_of(kind, files),
        )->Ok_0.mutations.len(),
    ensures
        ({
            let mutations = rollback_of(
                kind,
                committed,
                receipt,
                previous_receipt,
                findings_of(kind, files),
            )->Ok_0.mutations;
            destroys_nothing_else(
                kind,
                is_settled(kind, committed, receipt),
                previous_receipt,
                files,
                mutations,
                index,
            )
        }),
{
    let found = findings_of(kind, files);
    assert(found[0] == files[PathRole::Destination]);
    assert(found[1] == files[PathRole::Rollback]);
    if kind->persistent_backup is Some {
        assert(found[2] == files[PathRole::Backup]);
    }
    let mutations = rollback_of(
        kind,
        committed,
        receipt,
        previous_receipt,
        found,
    )->Ok_0.mutations;
    if index == 0 {
        assert(destroys_nothing_else(
            kind,
            is_settled(kind, committed, receipt),
            previous_receipt,
            files,
            mutations,
            0,
        ));
    } else if index == 1 {
        assert(mutations[0] == mutations[index - 1]);
    } else {
        assert(index == 2);
        assert(mutations[0] == mutations[index - 2]);
        assert(mutations[1] == mutations[index - 1]);
    }
}

proof fn lemma_merge_managed_json_destroys_nothing_else(
    kind: ActionKindV1,
    committed: bool,
    receipt: bool,
    previous_receipt: bool,
    files: Map<PathRole, FileView>,
)
    requires
        kind is MergeManagedJson,
        rollback_of(kind, committed, receipt, previous_receipt, findings_of(kind, files)) is Ok,
    ensures
        ({
            let mutations = rollback_of(
                kind,
                committed,
                receipt,
                previous_receipt,
                findings_of(kind, files),
            )->Ok_0.mutations;
            forall|i: int|
                0 <= i < mutations.len() ==> #[trigger] destroys_nothing_else(
                    kind,
                    is_settled(kind, committed, receipt),
                    previous_receipt,
                    files,
                    mutations,
                    i,
                )
        }),
{
    lemma_found(kind, files);
}

proof fn lemma_remove_managed_json_destroys_nothing_else(
    kind: ActionKindV1,
    committed: bool,
    receipt: bool,
    previous_receipt: bool,
    files: Map<PathRole, FileView>,
)
    requires
        kind is RemoveManagedJson,
        rollback_of(kind, committed, receipt, previous_receipt, findings_of(kind, files)) is Ok,
    ensures
        ({
            let mutations = rollback_of(
                kind,
                committed,
                receipt,
                previous_receipt,
                findings_of(kind, files),
            )->Ok_0.mutations;
            forall|i: int|
                0 <= i < mutations.len() ==> #[trigger] destroys_nothing_else(
                    kind,
                    is_settled(kind, committed, receipt),
                    previous_receipt,
                    files,
                    mutations,
                    i,
                )
        }),
{
    lemma_found(kind, files);
}

proof fn lemma_relocate_managed_json_destroys_nothing_else(
    kind: ActionKindV1,
    committed: bool,
    receipt: bool,
    previous_receipt: bool,
    files: Map<PathRole, FileView>,
)
    requires
        kind is RelocateManagedJson,
        rollback_of(kind, committed, receipt, previous_receipt, findings_of(kind, files)) is Ok,
    ensures
        ({
            let mutations = rollback_of(
                kind,
                committed,
                receipt,
                previous_receipt,
                findings_of(kind, files),
            )->Ok_0.mutations;
            forall|i: int|
                0 <= i < mutations.len() ==> #[trigger] destroys_nothing_else(
                    kind,
                    is_settled(kind, committed, receipt),
                    previous_receipt,
                    files,
                    mutations,
                    i,
                )
        }),
{
    lemma_found(kind, files);
}

/// Recovery destroys nothing of the user's. Whatever it deletes is what the operation
/// wrote, or rollback material of something that is where it belongs; whatever it moves
/// is what the operation moved, and goes to a free place; and it writes keys of an object
/// only over just those keys that the operation wrote, or where a removal took them out.
/// Where a user gave a key another value since, recovery changes nothing.
pub proof fn law_recovery_destroys_nothing_of_the_users(
    kind: ActionKindV1,
    committed: bool,
    receipt: bool,
    previous_receipt: bool,
    files: Map<PathRole, FileView>,
    index: int,
)
    requires
        rollback_of(kind, committed, receipt, previous_receipt, findings_of(kind, files)) is Ok,
        0 <= index < rollback_of(
            kind,
            committed,
            receipt,
            previous_receipt,
            findings_of(kind, files),
        )->Ok_0.mutations.len(),
    ensures
        destroys_nothing_else(
            kind,
            is_settled(kind, committed, receipt),
            previous_receipt,
            files,
            rollback_of(
                kind,
                committed,
                receipt,
                previous_receipt,
                findings_of(kind, files),
            )->Ok_0.mutations,
            index,
        ),
{
    match kind {
        ActionKindV1::CreateManagedFile { .. } => {
            lemma_create_managed_file_destroys_nothing_else(
                kind,
                committed,
                receipt,
                previous_receipt,
                files,
            );
        },
        ActionKindV1::CreateManagedFileWithBackup { .. } => {
            lemma_create_managed_file_with_backup_destroys_nothing_else(
                kind,
                committed,
                receipt,
                previous_receipt,
                files,
            );
        },
        ActionKindV1::UpdateManagedFile { .. } => {
            lemma_update_managed_file_destroys_nothing_else(
                kind,
                committed,
                receipt,
                previous_receipt,
                files,
            );
        },
        ActionKindV1::RelocateManagedFile { .. } => {
            lemma_relocate_managed_file_destroys_nothing_else(
                kind,
                committed,
                receipt,
                previous_receipt,
                files,
                index,
            );
        },
        ActionKindV1::RemoveManagedFile { .. } => {
            lemma_remove_managed_file_destroys_nothing_else(
                kind,
                committed,
                receipt,
                previous_receipt,
                files,
            );
        },
        ActionKindV1::RemoveManagedFileWithBackup { .. } => {
            lemma_remove_managed_file_with_backup_destroys_nothing_else(
                kind,
                committed,
                receipt,
                previous_receipt,
                files,
                index,
            );
        },
        ActionKindV1::ForceRemoveManagedFile { .. } => {
            lemma_force_remove_managed_file_destroys_nothing_else(
                kind,
                committed,
                receipt,
                previous_receipt,
                files,
                index,
            );
        },
        ActionKindV1::MergeManagedJson { .. } => {
            lemma_merge_managed_json_destroys_nothing_else(
                kind,
                committed,
                receipt,
                previous_receipt,
                files,
            );
        },
        ActionKindV1::RemoveManagedJson { .. } => {
            lemma_remove_managed_json_destroys_nothing_else(
                kind,
                committed,
                receipt,
                previous_receipt,
                files,
            );
        },
        ActionKindV1::RelocateManagedJson { .. } => {
            lemma_relocate_managed_json_destroys_nothing_else(
                kind,
                committed,
                receipt,
                previous_receipt,
                files,
            );
        },
        ActionKindV1::Foreign(_) => {},
    }
}

/// Whether the parts of an action on whole files stand as before its operation.
pub open spec fn stands_as_before(kind: ActionKindV1, files: Map<PathRole, FileView>) -> bool {
    match kind {
        ActionKindV1::CreateManagedFile { .. } => files[PathRole::Destination] is Missing,
        ActionKindV1::CreateManagedFileWithBackup { original_hash, .. } => holds(
            files[PathRole::Destination],
            original_hash,
        ) && files[PathRole::Backup] is Missing,
        ActionKindV1::UpdateManagedFile { original_mode, original_hash, .. } => holds_exactly(
            files[PathRole::Destination],
            original_hash,
            original_mode,
        ) && files[PathRole::Rollback] is Missing,
        ActionKindV1::RelocateManagedFile {
            previous_backup,
            previous_present,
            previous_mode,
            previous_hash,
            ..
        } => {
            &&& files[PathRole::PreviousRollback] is Missing
            &&& files[PathRole::DesiredDestination] is Missing
            &&& if previous_present {
                holds_exactly(files[PathRole::PreviousDestination], previous_hash, previous_mode)
            } else {
                files[PathRole::PreviousDestination] is Missing && previous_backup is None
            }
            &&& previous_backup is Some ==> holds_exactly(
                files[PathRole::PreviousBackup],
                previous_backup->0.hash,
                previous_backup->0.mode,
            )
        },
        ActionKindV1::RemoveManagedFile { original_mode, original_hash, .. } => holds_exactly(
            files[PathRole::Destination],
            original_hash,
            original_mode,
        ) && files[PathRole::Rollback] is Missing,
        ActionKindV1::RemoveManagedFileWithBackup {
            managed_mode,
            managed_hash,
            backup_mode,
            backup_hash,
            ..
        } => holds_exactly(files[PathRole::Destination], managed_hash, managed_mode)
            && holds_exactly(files[PathRole::Backup], backup_hash, backup_mode)
            && files[PathRole::Rollback] is Missing,
        ActionKindV1::ForceRemoveManagedFile {
            persistent_backup,
            current_mode,
            current_hash,
            ..
        } => holds_exactly(files[PathRole::Destination], current_hash, current_mode)
            && files[PathRole::Rollback] is Missing && (persistent_backup is Some ==> holds_exactly(
            files[PathRole::Backup],
            persistent_backup->0.hash,
            persistent_backup->0.mode,
        )),
        _ => false,
    }
}

/// Whether the parts of an action on whole files stand as its finished operation leaves
/// them, its rollback material there or gone.
pub open spec fn stands_as_after(kind: ActionKindV1, files: Map<PathRole, FileView>) -> bool {
    match kind {
        ActionKindV1::CreateManagedFile { desired_hash, .. } => holds(
            files[PathRole::Destination],
            desired_hash,
        ),
        ActionKindV1::CreateManagedFileWithBackup { original_hash, desired_hash, .. } => holds(
            files[PathRole::Destination],
            desired_hash,
        ) && holds(files[PathRole::Backup], original_hash),
        ActionKindV1::UpdateManagedFile { original_mode, original_hash, desired_hash, .. } =>
            holds_exactly(files[PathRole::Destination], desired_hash, original_mode) && (
        files[PathRole::Rollback] is Missing || holds_exactly(
            files[PathRole::Rollback],
            original_hash,
            original_mode,
        )),
        ActionKindV1::RelocateManagedFile {
            previous_backup,
            previous_present,
            previous_mode,
            previous_hash,
            desired_hash,
            ..
        } => {
            &&& holds(files[PathRole::DesiredDestination], desired_hash)
            &&& match previous_backup {
                Some(backup) => holds_exactly(
                    files[PathRole::PreviousDestination],
                    backup.hash,
                    backup.mode,
                ) && files[PathRole::PreviousBackup] is Missing,
                None => files[PathRole::PreviousDestination] is Missing,
            }
            &&& files[PathRole::PreviousRollback] is Missing || (previous_present && holds_exactly(
                files[PathRole::PreviousRollback],
                previous_hash,
                previous_mode,
            ))
        },
        ActionKindV1::RemoveManagedFile { original_mode, original_hash, .. } =>
        files[PathRole::Destination] is Missing && (files[PathRole::Rollback] is Missing
            || holds_exactly(files[PathRole::Rollback], original_hash, original_mode)),
        ActionKindV1::RemoveManagedFileWithBackup {
            managed_mode,
            managed_hash,
            backup_mode,
            backup_hash,
            ..
        } => holds_exactly(files[PathRole::Destination], backup_hash, backup_mode)
            && files[PathRole::Backup] is Missing && (files[PathRole::Rollback] is Missing
            || holds_exactly(files[PathRole::Rollback], managed_hash, managed_mode)),
        ActionKindV1::ForceRemoveManagedFile {
            persistent_backup,
            current_mode,
            current_hash,
            ..
        } => {
            &&& match persistent_backup {
                Some(backup) => holds_exactly(
                    files[PathRole::Destination],
                    backup.hash,
                    backup.mode,
                ) && files[PathRole::Backup] is Missing,
                None => files[PathRole::Destination] is Missing,
            }
            &&& files[PathRole::Rollback] is Missing || holds_exactly(
                files[PathRole::Rollback],
                current_hash,
                current_mode,
            )
        },
        _ => false,
    }
}

/// The part that holds the rollback material of an action.
pub open spec fn material_of(kind: ActionKindV1) -> PathRole {
    if kind is RelocateManagedFile || kind is RelocateManagedJson {
        PathRole::PreviousRollback
    } else {
        PathRole::Rollback
    }
}

proof fn lemma_after_mutations(files: Map<PathRole, FileView>, mutations: Seq<RecoveryMutation>)
    ensures
        mutations.len() == 0 ==> after_changes(files, mutations) == files,
        mutations.len() == 1 ==> after_changes(files, mutations) == after_change(
            files,
            mutations[0],
        ),
        mutations.len() == 2 ==> after_changes(files, mutations) == after_change(
            after_change(files, mutations[0]),
            mutations[1],
        ),
        mutations.len() == 3 ==> after_changes(files, mutations) == after_change(
            after_change(after_change(files, mutations[0]), mutations[1]),
            mutations[2],
        ),
{
    if 1 <= mutations.len() <= 3 {
        let first = mutations.take(1);
        assert(first.drop_last() =~= Seq::<RecoveryMutation>::empty());
        assert(after_changes(files, Seq::<RecoveryMutation>::empty()) == files);
        assert(after_changes(files, first) == after_change(files, mutations[0]));
        if mutations.len() == 1 {
            assert(first =~= mutations);
        } else {
            let second = mutations.take(2);
            assert(second.drop_last() =~= first);
            assert(after_changes(files, second) == after_change(
                after_change(files, mutations[0]),
                mutations[1],
            ));
            if mutations.len() == 2 {
                assert(second =~= mutations);
            } else {
                assert(mutations.drop_last() =~= second);
            }
        }
    }
}

/// Undoing an operation on whole files that is not settled, wherever it succeeds, leaves
/// every part of the action as it stood before the operation, and says that the action
/// was undone.
pub proof fn law_undoing_gives_the_beginning_back(
    kind: ActionKindV1,
    committed: bool,
    receipt: bool,
    previous_receipt: bool,
    files: Map<PathRole, FileView>,
)
    requires
        is_whole_file(kind),
        !is_settled(kind, committed, receipt),
        rollback_of(kind, committed, receipt, previous_receipt, findings_of(kind, files)) is Ok,
    ensures
        ({
            let rollback = rollback_of(
                kind,
                committed,
                receipt,
                previous_receipt,
                findings_of(kind, files),
            )->Ok_0;
            &&& rollback.undone
            &&& stands_as_before(kind, after_changes(files, rollback.mutations))
        }),
{
    lemma_found(kind, files);
    lemma_roles(kind, files);
    let mutations = rollback_of(
        kind,
        committed,
        receipt,
        previous_receipt,
        findings_of(kind, files),
    )->Ok_0.mutations;
    lemma_after_mutations(files, mutations);
}

proof fn lemma_roles(kind: ActionKindV1, files: Map<PathRole, FileView>)
    ensures
        ({
            let found = findings_of(kind, files);
            match kind {
                ActionKindV1::CreateManagedFile { .. } => found[0] == files[PathRole::Destination],
                ActionKindV1::CreateManagedFileWithBackup { .. } => found[0]
                    == files[PathRole::Destination] && found[1] == files[PathRole::Backup],
                ActionKindV1::RelocateManagedFile { previous_backup, .. } => {
                    &&& found[0] == files[PathRole::PreviousDestination]
                    &&& found[1] == files[PathRole::PreviousRollback]
                    &&& found[2] == files[PathRole::DesiredDestination]
                    &&& previous_backup is Some ==> found[3] == files[PathRole::PreviousBackup]
                },
                ActionKindV1::RelocateManagedJson { .. } => {
                    &&& found[0] == files[PathRole::PreviousDestination]
                    &&& found[1] == files[PathRole::PreviousRollback]
                    &&& found[2] == files[PathRole::DesiredDestination]
                },
                ActionKindV1::RemoveManagedFileWithBackup { .. } => {
                    &&& found[0] == files[PathRole::Destination]
                    &&& found[1] == files[PathRole::Backup]
                    &&& found[2] == files[PathRole::Rollback]
                },
                ActionKindV1::ForceRemoveManagedFile { persistent_backup, .. } => {
                    &&& found[0] == files[PathRole::Destination]
                    &&& found[1] == files[PathRole::Rollback]
                    &&& persistent_backup is Some ==> found[2] == files[PathRole::Backup]
                },
                ActionKindV1::Foreign(_) => true,
                _ => found[0] == files[PathRole::Destination] && found[1]
                    == files[PathRole::Rollback],
            }
        }),
{
}

/// Where an operation on whole files has changed nothing, or where it was carried out to
/// its end and is not settled, recovery is not blocked: nothing the user did stands in
/// its way.
pub proof fn law_untouched_operations_can_be_undone(
    kind: ActionKindV1,
    committed: bool,
    receipt: bool,
    previous_receipt: bool,
    files: Map<PathRole, FileView>,
)
    requires
        is_whole_file(kind),
        !is_settled(kind, committed, receipt),
        stands_as_before(kind, files) || (stands_as_after(kind, files) && (material_of(
            kind,
        ) == PathRole::PreviousRollback || !(files[material_of(kind)] is Missing)
            || kind is CreateManagedFile || kind is CreateManagedFileWithBackup)),
        kind is RelocateManagedFile && stands_as_after(kind, files) ==> (
        kind->RelocateManagedFile_previous_present <==> !(files[PathRole::PreviousRollback]
            is Missing)) && (kind->RelocateManagedFile_previous_backup is Some
            ==> kind->RelocateManagedFile_previous_present),
    ensures
        ({
            let found = findings_of(kind, files);
            let rollback = rollback_of(kind, committed, receipt, previous_receipt, found);
            let decision = recovery_decision(kind, committed, receipt, previous_receipt, found);
            &&& rollback is Ok && rollback->Ok_0.undone
            &&& decision is Ok && decision->Ok_0.action != PlanActionV1::Blocked
            &&& stands_as_before(kind, files) && (is_removal(kind) ==> previous_receipt)
                ==> rollback->Ok_0.mutations.len() == 0
        }),
{
    lemma_found(kind, files);
    lemma_roles(kind, files);
}

/// A settled operation is kept. Its recovery does nothing but delete rollback material,
/// and says that nothing was undone; where the files are as the operation left them it
/// succeeds, and afterwards no material is left.
pub proof fn law_settled_operations_are_only_tidied_up(
    kind: ActionKindV1,
    committed: bool,
    receipt: bool,
    previous_receipt: bool,
    files: Map<PathRole, FileView>,
)
    requires
        is_settled(kind, committed, receipt),
    ensures
        ({
            let found = findings_of(kind, files);
            let rollback = rollback_of(kind, committed, receipt, previous_receipt, found);
            &&& rollback is Ok ==> {
                let mutations = rollback->Ok_0.mutations;
                &&& !rollback->Ok_0.undone
                &&& mutations.len() <= 1
                &&& mutations.len() == 1 ==> match mutations[0] {
                    RecoveryMutation::Remove { role, .. } => role == material_of(kind),
                    _ => false,
                }
                &&& observed_roles(kind).contains(material_of(kind)) ==> after_changes(
                    files,
                    mutations,
                )[material_of(kind)] is Missing
            }
            &&& is_whole_file(kind) && stands_as_after(kind, files) ==> rollback is Ok
        }),
{
    lemma_found(kind, files);
    lemma_roles(kind, files);
    let found = findings_of(kind, files);
    let rollback = rollback_of(kind, committed, receipt, previous_receipt, found);
    if rollback is Ok {
        lemma_after_mutations(files, rollback->Ok_0.mutations);
        lemma_observed(kind);
    }
}

proof fn lemma_observed(kind: ActionKindV1)
    ensures
        observed_roles(kind).contains(material_of(kind)) ==> !(kind is CreateManagedFile) && !(
        kind is CreateManagedFileWithBackup) && !(kind is Foreign),
{
    if observed_roles(kind).contains(material_of(kind)) {
        let i = choose|i: int|
            0 <= i < observed_roles(kind).len() && observed_roles(kind)[i] == material_of(kind);
        assert(observed_roles(kind)[i] == material_of(kind));
    }
}

/// What undoing a merge of keys into an object that was there does, by what stands at
/// its destination beside exact rollback material. Keys that are already as they were
/// are left alone; keys that are just those that the merge wrote are put back, whatever
/// a user did to other members; any other value of a key is a user's, and blocks.
pub proof fn law_undoing_a_merge_respects_the_users_keys(
    kind: ActionKindV1,
    committed: bool,
    previous_receipt: bool,
    files: Map<PathRole, FileView>,
)
    requires
        kind is MergeManagedJson,
        kind->MergeManagedJson_original_hash is Some,
        holds_exactly(
            files[PathRole::Rollback],
            kind->MergeManagedJson_original_hash->0,
            kind->MergeManagedJson_original_mode,
        ),
        files[PathRole::Destination] is Regular,
        json_object(files[PathRole::Destination]->content) is Some,
        json_object(files[PathRole::Rollback]->content) is Some,
    ensures
        ({
            let keys = texts(kind->MergeManagedJson_managed_keys@);
            let destination = files[PathRole::Destination];
            let material = files[PathRole::Rollback];
            let found = findings_of(kind, files);
            let rollback = rollback_of(kind, committed, false, previous_receipt, found);
            let decision = recovery_decision(kind, committed, false, previous_receipt, found);
            let alike = keys_are_alike(destination, material, keys);
            let written = keys_are(
                destination,
                keys,
                kind->MergeManagedJson_desired_managed_hash,
            );
            &&& alike ==> rollback is Ok && rollback->Ok_0.undone && rollback->Ok_0.mutations
                == seq![RecoveryMutation::Remove { role: PathRole::Rollback, privileged: false }]
            &&& !alike && written ==> rollback is Ok && rollback->Ok_0.undone
                && rollback->Ok_0.mutations == seq![
                RecoveryMutation::RestoreKeys {
                    destination: PathRole::Destination,
                    rollback: PathRole::Rollback,
                },
            ]
            &&& !alike && !written ==> rollback is Err && (decision is Ok
                ==> decision->Ok_0.action == PlanActionV1::Blocked)
            &&& alike || written ==> decision is Ok && decision->Ok_0.action
                != PlanActionV1::Blocked
        }),
{
    lemma_found(kind, files);
    lemma_roles(kind, files);
}

/// What undoing a merge of keys into a file that was not there does. Where a user added
/// members of their own, only the keys go; where there is nothing else, the file goes;
/// keys with other values, and anything where rollback material would be, block.
pub proof fn law_undoing_a_first_merge_respects_the_users_members(
    kind: ActionKindV1,
    committed: bool,
    previous_receipt: bool,
    files: Map<PathRole, FileView>,
)
    requires
        kind is MergeManagedJson,
        kind->MergeManagedJson_original_hash is None,
    ensures
        ({
            let keys = texts(kind->MergeManagedJson_managed_keys@);
            let destination = files[PathRole::Destination];
            let rollback = rollback_of(
                kind,
                committed,
                false,
                previous_receipt,
                findings_of(kind, files),
            );
            let written = keys_are(
                destination,
                keys,
                kind->MergeManagedJson_desired_managed_hash,
            );
            let free = files[PathRole::Rollback] is Missing;
            &&& !free ==> rollback is Err
            &&& free && destination is Missing ==> rollback is Ok && rollback->Ok_0.undone
                && rollback->Ok_0.mutations.len() == 0
            &&& free && keys_are_gone(destination, keys) ==> rollback is Ok
                && rollback->Ok_0.undone && rollback->Ok_0.mutations.len() == 0
            &&& free && written && nothing_but_keys(destination, keys) ==> rollback is Ok
                && rollback->Ok_0.undone && rollback->Ok_0.mutations == seq![
                RecoveryMutation::Remove { role: PathRole::Destination, privileged: false },
            ]
            &&& free && written && !nothing_but_keys(destination, keys) ==> rollback is Ok
                && rollback->Ok_0.undone && rollback->Ok_0.mutations == seq![
                RecoveryMutation::DropKeys { role: PathRole::Destination },
            ]
            &&& !(destination is Missing) && !keys_are_gone(destination, keys) && !written
                ==> rollback is Err
        }),
{
    lemma_found(kind, files);
    lemma_roles(kind, files);
}

/// What undoing a merge or a removal of keys does where no key was written yet: nothing
/// has to be changed, or the whole file is moved back.
pub proof fn law_keys_that_were_not_written_are_not_touched(
    kind: ActionKindV1,
    previous_receipt: bool,
    files: Map<PathRole, FileView>,
    hash: u64,
    mode: Option<u32>,
)
    requires
        (kind is MergeManagedJson && kind->MergeManagedJson_original_hash == Some(hash) && mode
            == kind->MergeManagedJson_original_mode) || (kind is RemoveManagedJson
            && kind->RemoveManagedJson_original_hash == hash && mode
            == kind->RemoveManagedJson_original_mode && previous_receipt),
    ensures
        ({
            let destination = files[PathRole::Destination];
            let material = files[PathRole::Rollback];
            let rollback = rollback_of(
                kind,
                false,
                false,
                previous_receipt,
                findings_of(kind, files),
            );
            &&& holds_exactly(destination, hash, mode) && material is Missing ==> rollback is Ok
                && rollback->Ok_0.undone && rollback->Ok_0.mutations.len() == 0
            &&& destination is Missing && holds_exactly(material, hash, mode) ==> rollback is Ok
                && rollback->Ok_0.undone && rollback->Ok_0.mutations == seq![
                RecoveryMutation::Move {
                    from: PathRole::Rollback,
                    to: PathRole::Destination,
                    privileged: false,
                },
            ]
            &&& material is Missing && !holds_exactly(destination, hash, mode) ==> rollback is Err
            &&& !(material is Missing) && !holds_exactly(material, hash, mode) ==> rollback is Err
            &&& destination is Other || material is Other ==> rollback is Err
        }),
{
    lemma_found(kind, files);
    lemma_roles(kind, files);
}

/// What undoing a removal of keys does beside exact rollback material: keys that are
/// gone come back, keys that are as they were are left alone, and any other value of a
/// key is a user's, and blocks. The receipt is put back where it is gone.
pub proof fn law_undoing_a_key_removal_respects_the_users_keys(
    kind: ActionKindV1,
    previous_receipt: bool,
    files: Map<PathRole, FileView>,
)
    requires
        kind is RemoveManagedJson,
        holds_exactly(
            files[PathRole::Rollback],
            kind->RemoveManagedJson_original_hash,
            kind->RemoveManagedJson_original_mode,
        ),
        files[PathRole::Destination] is Regular,
        json_object(files[PathRole::Destination]->content) is Some,
        json_object(files[PathRole::Rollback]->content) is Some,
    ensures
        ({
            let keys = texts(kind->RemoveManagedJson_managed_keys@);
            let destination = files[PathRole::Destination];
            let material = files[PathRole::Rollback];
            let found = findings_of(kind, files);
            let rollback = rollback_of(kind, false, false, previous_receipt, found);
            let decision = recovery_decision(kind, false, false, previous_receipt, found);
            let alike = keys_are_alike(destination, material, keys);
            let gone = keys_are_gone(destination, keys);
            &&& rollback is Ok <==> alike || gone
            &&& rollback is Ok ==> {
                let mutations = rollback->Ok_0.mutations;
                &&& rollback->Ok_0.undone
                &&& mutations.last() == if alike {
                    RecoveryMutation::Remove { role: PathRole::Rollback, privileged: false }
                } else {
                    RecoveryMutation::RestoreKeys {
                        destination: PathRole::Destination,
                        rollback: PathRole::Rollback,
                    }
                }
                &&& mutations.len() == if previous_receipt {
                    1nat
                } else {
                    2
                }
                &&& !previous_receipt ==> mutations[0] == RecoveryMutation::RestoreReceipt
            }
            &&& decision is Ok
            &&& decision->Ok_0.action == PlanActionV1::Blocked <==> !(alike || gone)
        }),
{
    lemma_found(kind, files);
    lemma_roles(kind, files);
}

/// The new place of relocated keys is cleared only of what the relocation wrote there:
/// of the file where it holds nothing else, of the keys where it does; keys with other
/// values, and anything that is no regular file, block.
pub proof fn law_undoing_a_key_relocation_respects_the_new_place(
    kind: ActionKindV1,
    previous_receipt: bool,
    files: Map<PathRole, FileView>,
)
    requires
        kind is RelocateManagedJson,
    ensures
        ({
            let keys = texts(kind->desired_managed_keys@);
            let desired = files[PathRole::DesiredDestination];
            let rollback = rollback_of(
                kind,
                false,
                false,
                previous_receipt,
                findings_of(kind, files),
            );
            let written = keys_are(
                desired,
                keys,
                kind->RelocateManagedJson_desired_managed_hash,
            );
            &&& !(desired is Missing) && !keys_are_gone(desired, keys) && !written
                ==> rollback is Err
            &&& rollback is Ok ==> {
                let mutations = rollback->Ok_0.mutations;
                &&& rollback->Ok_0.undone
                &&& written <==> mutations.len() > 0 && (mutations[0] == (
                RecoveryMutation::Remove { role: PathRole::DesiredDestination, privileged: false })
                    || mutations[0] == (RecoveryMutation::DropKeys {
                    role: PathRole::DesiredDestination,
                }))
                &&& written ==> (nothing_but_keys(desired, keys) <==> mutations[0] == (
                RecoveryMutation::Remove { role: PathRole::DesiredDestination, privileged: false }))
            }
        }),
{
    lemma_found(kind, files);
    lemma_roles(kind, files);
}

/// The old place of relocated keys, where it was there: the keys come back where they
/// are gone and the material is exact; the file comes back where it is gone; any other
/// value of a key blocks, and so does new content without a change to the old place.
pub proof fn law_undoing_a_key_relocation_respects_the_old_place(
    kind: ActionKindV1,
    previous_receipt: bool,
    files: Map<PathRole, FileView>,
    hash: u64,
)
    requires
        kind is RelocateManagedJson,
        kind->RelocateManagedJson_previous_present,
        kind->previous_original_hash == Some(hash),
        files[PathRole::DesiredDestination] is Missing || keys_are(
            files[PathRole::DesiredDestination],
            texts(kind->desired_managed_keys@),
            kind->RelocateManagedJson_desired_managed_hash,
        ),
    ensures
        ({
            let keys = texts(kind->previous_managed_keys@);
            let mode = kind->RelocateManagedJson_previous_mode;
            let previous = files[PathRole::PreviousDestination];
            let material = files[PathRole::PreviousRollback];
            let new = files[PathRole::DesiredDestination];
            let rollback = rollback_of(
                kind,
                false,
                false,
                previous_receipt,
                findings_of(kind, files),
            );
            let exact = holds_exactly(material, hash, mode);
            let readable = previous is Regular && json_object(previous->content) is Some
                && material is Regular && json_object(material->content) is Some;
            &&& holds_exactly(previous, hash, mode) && material is Missing && new is Missing
                ==> rollback is Ok && rollback->Ok_0.mutations.len() == 0
            &&& holds_exactly(previous, hash, mode) && material is Missing && !(new is Missing)
                ==> rollback is Err
            &&& previous is Missing && exact ==> rollback is Ok && rollback->Ok_0.mutations.last()
                == (RecoveryMutation::Move {
                from: PathRole::PreviousRollback,
                to: PathRole::PreviousDestination,
                privileged: false,
            })
            &&& exact && readable && keys_are_alike(previous, material, keys) ==> rollback is Ok
                && rollback->Ok_0.mutations.last() == (RecoveryMutation::Remove {
                role: PathRole::PreviousRollback,
                privileged: false,
            })
            &&& exact && readable && !keys_are_alike(previous, material, keys) && keys_are_gone(
                previous,
                keys,
            ) ==> rollback is Ok && rollback->Ok_0.mutations.last() == (
            RecoveryMutation::RestoreKeys {
                destination: PathRole::PreviousDestination,
                rollback: PathRole::PreviousRollback,
            })
            &&& exact && readable && !keys_are_alike(previous, material, keys) && !keys_are_gone(
                previous,
                keys,
            ) ==> rollback is Err
            &&& !exact && !(holds_exactly(previous, hash, mode) && material is Missing)
                ==> rollback is Err
        }),
{
    lemma_found(kind, files);
    lemma_roles(kind, files);
}

/// What the plan of a recovery says is what the recovery does: it is blocked exactly
/// where nothing is undone, has nothing to do exactly where nothing is changed, speaks
/// of a removal only where nothing but deletions and the receipt are due, and puts a
/// receipt back exactly where the plan says so.
#[verifier::spinoff_prover]
#[verifier::rlimit(60)]
pub proof fn law_plan_says_what_recovery_does(
    kind: ActionKindV1,
    committed: bool,
    receipt: bool,
    previous_receipt: bool,
    files: Map<PathRole, FileView>,
)
    requires
        recovery_decision(
            kind,
            committed,
            receipt,
            previous_receipt,
            findings_of(kind, files),
        ) is Ok,
    ensures
        ({
            let found = findings_of(kind, files);
            let decision = recovery_decision(
                kind,
                committed,
                receipt,
                previous_receipt,
                found,
            )->Ok_0;
            let rollback = rollback_of(kind, committed, receipt, previous_receipt, found);
            let mutations = rollback->Ok_0.mutations;
            &&& decision.action == PlanActionV1::Blocked <==> rollback is Err
            &&& rollback is Ok ==> {
                &&& decision.action == PlanActionV1::Nothing <==> mutations.len() == 0
                &&& decision.action == PlanActionV1::Nothing || decision.action
                    == PlanActionV1::Remove || decision.action == PlanActionV1::Update
                &&& decision.action == PlanActionV1::Remove ==> forall|i: int|
                    0 <= i < mutations.len() ==> (#[trigger] mutations[i]) is Remove
                        || mutations[i] is RestoreReceipt
                &&& decision.restores_receipt <==> mutations.contains(
                    RecoveryMutation::RestoreReceipt,
                )
                &&& decision.restores_receipt <==> is_removal(kind) && !committed
                    && !previous_receipt
            }
        }),
{
    lemma_found(kind, files);
    lemma_roles(kind, files);
    let found = findings_of(kind, files);
    let rollback = rollback_of(kind, committed, receipt, previous_receipt, found);
    if rollback is Ok {
        let mutations = rollback->Ok_0.mutations;
        if mutations.len() > 0 {
            assert(mutations.contains(mutations[0]));
        }
        if mutations.contains(RecoveryMutation::RestoreReceipt) {
            let i = choose|i: int|
                0 <= i < mutations.len() && mutations[i] == RecoveryMutation::RestoreReceipt;
            assert(mutations[i] is RestoreReceipt);
        }
        if kind is RelocateManagedJson {
            let needs = recovery_decision(
                kind,
                committed,
                receipt,
                previous_receipt,
                found,
            )->Ok_0.needs;
            if needs.len() > 0 {
                assert(has_access(needs, needs[0].access));
            }
            if needs.len() > 1 {
                assert(has_access(needs, needs[1].access));
            }
            if needs.len() > 2 {
                assert(has_access(needs, needs[2].access));
            }
        }
    }
}

/// A change of a recovery is made with the rights that the file needs: those of the new
/// place at the new place of a relocation, those of the action otherwise. Objects are
/// never changed with administrator rights.
#[verifier::spinoff_prover]
#[verifier::rlimit(60)]
pub proof fn law_recovery_uses_the_rights_of_the_file(
    kind: ActionKindV1,
    committed: bool,
    receipt: bool,
    previous_receipt: bool,
    files: Map<PathRole, FileView>,
    index: int,
)
    requires
        rollback_of(kind, committed, receipt, previous_receipt, findings_of(kind, files)) is Ok,
        0 <= index < rollback_of(
            kind,
            committed,
            receipt,
            previous_receipt,
            findings_of(kind, files),
        )->Ok_0.mutations.len(),
    ensures
        ({
            let mutation = rollback_of(
                kind,
                committed,
                receipt,
                previous_receipt,
                findings_of(kind, files),
            )->Ok_0.mutations[index];
            match mutation {
                RecoveryMutation::Remove { role, privileged } => privileged == rights_at(
                    kind,
                    role,
                ),
                RecoveryMutation::Move { to, privileged, .. } => privileged == rights_at(kind, to),
                _ => true,
            }
        }),
{
    lemma_found(kind, files);
    lemma_roles(kind, files);
}

/// Whether changing a part of an action needs administrator rights.
pub open spec fn rights_at(kind: ActionKindV1, role: PathRole) -> bool {
    match kind {
        ActionKindV1::CreateManagedFile { requires_admin, .. } => requires_admin,
        ActionKindV1::CreateManagedFileWithBackup { requires_admin, .. } => requires_admin,
        ActionKindV1::UpdateManagedFile { requires_admin, .. } => requires_admin,
        ActionKindV1::RelocateManagedFile {
            previous_requires_admin,
            desired_requires_admin,
            ..
        } => if role == PathRole::DesiredDestination {
            desired_requires_admin
        } else {
            previous_requires_admin
        },
        ActionKindV1::RemoveManagedFile { requires_admin, .. } => requires_admin,
        ActionKindV1::RemoveManagedFileWithBackup { requires_admin, .. } => requires_admin,
        ActionKindV1::ForceRemoveManagedFile { requires_admin, .. } => requires_admin,
        _ => false,
    }
}

} // verus!
