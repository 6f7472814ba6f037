//! When an approved operation is carried out, and what it leaves.
//!
//! An operation is let through exactly where the receipts, the paths and the files are
//! those that it was planned for; carried out, it leaves just what the action names.

use vstd::prelude::*;
use vstd::string::*;

use crate::action::{ActionKindV1, DeclarativeActionV1, PathRole};
use crate::commit::{commit_decision, commit_roles, commit_verdict, CommitFault};
use crate::content::content_hash;
use crate::execution::{changes_of, content_verdict, guard_verdict, guards_of, Guard};
use crate::execution_laws::{
    after_execution, guarded_role, guards_hold, lemma_first_changes, objects_read_back,
    starting_content,
};
use crate::execution_run::prepared_content;
use crate::journal::{AppOperationJournalV1, JournalActionStateV1};
use crate::json::{first_missing, json_object, rendered};
use crate::manifest::{entry_of_source, lemma_source_index, owns, source_index, AppEntryView};
use crate::path::same_path;
use crate::plan::optional_text;
use crate::receipts::{
    claimed_by_other, claims, is_receipt_after, is_receipt_before, previous_receipt_matches,
    receipt_matches, relocation_paths, removal_committed, removed_receipt,
};
use crate::recovery::FileView;
use crate::recovery_laws::is_whole_file;
use crate::text::texts;
use crate::undo_laws::{
    holds_exactly, is_removal, keys_are, keys_are_gone, material_of, stands_as_after,
    stands_as_before,
};

verus! {

/// Whether no receipt has this source.
pub open spec fn source_is_new(entries: Seq<AppEntryView>, source: Seq<char>) -> bool {
    forall|i: int| 0 <= i < entries.len() ==> (#[trigger] entries[i]).source != source
}

/// Whether no receipt is for this destination.
pub open spec fn is_unowned(entries: Seq<AppEntryView>, path: Seq<char>) -> bool {
    forall|i: int|
        0 <= i < entries.len() ==> !same_path((#[trigger] entries[i]).destination, path)
}

/// Whether the first receipt of the source is this one.
pub open spec fn is_receipt_of(
    entries: Seq<AppEntryView>,
    source: Seq<char>,
    entry: AppEntryView,
) -> bool {
    exists|i: int|
        0 <= i < entries.len() && entries[i] == entry && (#[trigger] entries[i]).source == source
            && forall|j: int| 0 <= j < i ==> (#[trigger] entries[j]).source != source
}

/// Whether the receipts are those that the operation was planned for: none of its source
/// or its destination for something new, the one that it starts from for anything else.
pub open spec fn receipts_are_as_planned(
    entries: Seq<AppEntryView>,
    action: DeclarativeActionV1,
) -> bool {
    let previous = exists|entry: AppEntryView| #[trigger]
        is_receipt_of(entries, action.source(), entry) && is_receipt_before(entry, action.kind);
    match action.kind {
        ActionKindV1::CreateManagedFile { destination, .. } => source_is_new(
            entries,
            action.source(),
        ) && is_unowned(entries, destination@),
        ActionKindV1::CreateManagedFileWithBackup { destination, backup, .. } => source_is_new(
            entries,
            action.source(),
        ) && is_unowned(entries, destination@) && is_unowned(entries, backup@),
        ActionKindV1::UpdateManagedFile { rollback, .. } => previous && is_unowned(
            entries,
            rollback@,
        ),
        ActionKindV1::RelocateManagedFile {
            previous_destination,
            previous_backup,
            previous_rollback,
            desired_destination,
            ..
        } => {
            &&& previous
            &&& is_unowned(entries, previous_rollback@)
            &&& is_unowned(entries, desired_destination@)
            &&& nobody_else_claims(entries, action.source(), previous_destination@)
            &&& nobody_else_claims(entries, action.source(), desired_destination@)
            &&& nobody_else_claims(entries, action.source(), previous_rollback@)
            &&& previous_backup is Some ==> nobody_else_claims(
                entries,
                action.source(),
                previous_backup->0.path@,
            )
        },
        ActionKindV1::RelocateManagedJson {
            previous_destination,
            previous_rollback,
            desired_destination,
            ..
        } => {
            &&& previous
            &&& is_unowned(entries, previous_rollback@)
            &&& is_unowned(entries, desired_destination@)
            &&& nobody_else_claims(entries, action.source(), previous_destination@)
            &&& nobody_else_claims(entries, action.source(), desired_destination@)
            &&& nobody_else_claims(entries, action.source(), previous_rollback@)
        },
        ActionKindV1::RemoveManagedFile { rollback, .. } => previous && is_unowned(
            entries,
            rollback@,
        ),
        ActionKindV1::RemoveManagedFileWithBackup { rollback, .. } => previous && is_unowned(
            entries,
            rollback@,
        ),
        ActionKindV1::ForceRemoveManagedFile { rollback, .. } => previous && is_unowned(
            entries,
            rollback@,
        ),
        ActionKindV1::MergeManagedJson { destination, rollback, previous_receipt_hash, .. } => {
            &&& is_unowned(entries, rollback@)
            &&& if previous_receipt_hash is Some {
                previous
            } else {
                source_is_new(entries, action.source()) && is_unowned(entries, destination@)
            }
        },
        ActionKindV1::RemoveManagedJson { rollback, .. } => previous && is_unowned(
            entries,
            rollback@,
        ),
        ActionKindV1::Foreign(_) => false,
    }
}

/// Whether no receipt of another source speaks of a path, as its destination or as its
/// backup.
pub open spec fn nobody_else_claims(
    entries: Seq<AppEntryView>,
    source: Seq<char>,
    path: Seq<char>,
) -> bool {
    forall|i: int|
        0 <= i < entries.len() && (#[trigger] entries[i]).source != source ==> !same_path(
            entries[i].destination,
            path,
        ) && (entries[i].backup is Some ==> !same_path(entries[i].backup->0, path))
}

/// Whether the paths of an action are where they belong: material and backups beside
/// their destination, under the names that are set aside for them.
pub open spec fn paths_are_as_planned(kind: ActionKindV1) -> bool {
    let beside = |path: Seq<char>, destination: Seq<char>| same_path(
        destination + ".shine-rollback"@,
        path,
    );
    let backs_up = |path: Seq<char>, destination: Seq<char>| same_path(
        destination + ".shine-backup"@,
        path,
    );
    match kind {
        ActionKindV1::CreateManagedFile { .. } => true,
        ActionKindV1::CreateManagedFileWithBackup { destination, backup, .. } => backs_up(
            backup@,
            destination@,
        ),
        ActionKindV1::UpdateManagedFile { destination, rollback, previous_backup, .. } => beside(
            rollback@,
            destination@,
        ) && (previous_backup is Some ==> !same_path(previous_backup->0@, rollback@)),
        ActionKindV1::RelocateManagedFile {
            previous_destination,
            previous_backup,
            previous_rollback,
            previous_present,
            ..
        } => beside(previous_rollback@, previous_destination@) && (previous_backup is Some
            ==> previous_present && backs_up(previous_backup->0.path@, previous_destination@)),
        ActionKindV1::RelocateManagedJson { previous_destination, previous_rollback, .. } =>
            beside(previous_rollback@, previous_destination@),
        ActionKindV1::RemoveManagedFile { destination, rollback, .. } => beside(
            rollback@,
            destination@,
        ),
        ActionKindV1::RemoveManagedFileWithBackup { destination, backup, rollback, .. } => beside(
            rollback@,
            destination@,
        ) && backs_up(backup@, destination@),
        ActionKindV1::ForceRemoveManagedFile { destination, persistent_backup, rollback, .. } =>
            beside(rollback@, destination@) && (persistent_backup is Some ==> backs_up(
            persistent_backup->0.path@,
            destination@,
        )),
        ActionKindV1::MergeManagedJson { destination, rollback, .. } => beside(
            rollback@,
            destination@,
        ),
        ActionKindV1::RemoveManagedJson { destination, rollback, .. } => beside(
            rollback@,
            destination@,
        ),
        ActionKindV1::Foreign(_) => false,
    }
}

/// Whether the files are those that the operation was planned for.
pub open spec fn files_are_as_planned(kind: ActionKindV1, files: Map<PathRole, FileView>) -> bool {
    match kind {
        ActionKindV1::MergeManagedJson { original_mode, original_hash, .. } => {
            &&& files[PathRole::Rollback] is Missing
            &&& match original_hash {
                Some(hash) => holds_exactly(files[PathRole::Destination], hash, original_mode),
                None => files[PathRole::Destination] is Missing,
            }
        },
        ActionKindV1::RemoveManagedJson {
            original_mode,
            original_hash,
            current_managed_hash,
            managed_keys,
            ..
        } => {
            &&& files[PathRole::Rollback] is Missing
            &&& holds_exactly(files[PathRole::Destination], original_hash, original_mode)
            &&& keys_are(
                files[PathRole::Destination],
                texts(managed_keys@),
                current_managed_hash,
            )
        },
        ActionKindV1::RelocateManagedJson {
            previous_present,
            previous_mode,
            previous_original_hash,
            previous_receipt_hash,
            previous_managed_keys,
            ..
        } => {
            &&& files[PathRole::PreviousRollback] is Missing
            &&& files[PathRole::DesiredDestination] is Missing
            &&& if previous_present {
                &&& previous_original_hash is Some
                &&& holds_exactly(
                    files[PathRole::PreviousDestination],
                    previous_original_hash->0,
                    previous_mode,
                )
                &&& keys_are(
                    files[PathRole::PreviousDestination],
                    texts(previous_managed_keys@),
                    previous_receipt_hash,
                )
            } else {
                files[PathRole::PreviousDestination] is Missing && previous_original_hash is None
                    && previous_mode is None
            }
        },
        _ => stands_as_before(kind, files),
    }
}

/// What the receipts of an action say, receipt by receipt.
pub proof fn lemma_receipts(
    entries: Seq<AppEntryView>,
    action: DeclarativeActionV1,
    path: Seq<char>,
)
    ensures
        entry_of_source(entries, action.source()) is None <==> source_is_new(
            entries,
            action.source(),
        ),
        owns(entries, path) <==> !is_unowned(entries, path),
        previous_receipt_matches(entries, action) <==> exists|entry: AppEntryView| #[trigger]
            is_receipt_of(entries, action.source(), entry) && is_receipt_before(
                entry,
                action.kind,
            ),
        receipt_matches(entries, action) <==> exists|entry: AppEntryView| #[trigger]
            is_receipt_of(entries, action.source(), entry) && is_receipt_after(
                entry,
                action.kind,
            ),
{
    let source = action.source();
    lemma_source_index(entries, source);
    if let Some(index) = source_index(entries, source) {
        assert(is_receipt_of(entries, source, entries[index]));
        assert forall|entry: AppEntryView| #[trigger]
            is_receipt_of(entries, source, entry) implies entry == entries[index] by {
            let i = choose|i: int|
                0 <= i < entries.len() && entries[i] == entry && (
                #[trigger] entries[i]).source == source && forall|j: int|
                    0 <= j < i ==> (#[trigger] entries[j]).source != source;
            if i < index {
                assert(entries[i].source != source);
            }
            if index < i {
                assert(entries[index].source != source);
            }
        }
    }
}

proof fn lemma_hold(
    kind: ActionKindV1,
    guards: Seq<Guard>,
    files: Map<PathRole, FileView>,
)
    ensures
        guards.len() == 1 ==> (guards_hold(kind, guards, files) <==> guard_verdict(
            kind,
            guards[0],
            files[guarded_role(guards[0])],
        ) is Ok),
        guards.len() == 2 ==> (guards_hold(kind, guards, files) <==> guard_verdict(
            kind,
            guards[0],
            files[guarded_role(guards[0])],
        ) is Ok && guard_verdict(kind, guards[1], files[guarded_role(guards[1])]) is Ok),
        guards.len() == 3 ==> (guards_hold(kind, guards, files) <==> guard_verdict(
            kind,
            guards[0],
            files[guarded_role(guards[0])],
        ) is Ok && guard_verdict(kind, guards[1], files[guarded_role(guards[1])]) is Ok
            && guard_verdict(kind, guards[2], files[guarded_role(guards[2])]) is Ok),
        guards.len() == 4 ==> (guards_hold(kind, guards, files) <==> guard_verdict(
            kind,
            guards[0],
            files[guarded_role(guards[0])],
        ) is Ok && guard_verdict(kind, guards[1], files[guarded_role(guards[1])]) is Ok
            && guard_verdict(kind, guards[2], files[guarded_role(guards[2])]) is Ok
            && guard_verdict(kind, guards[3], files[guarded_role(guards[3])]) is Ok),
{
}

/// Who claims the paths of a relocation, path by path.
pub proof fn lemma_claims(entries: Seq<AppEntryView>, action: DeclarativeActionV1)
    requires
        action.kind is RelocateManagedFile || action.kind is RelocateManagedJson,
    ensures
        claimed_by_other(
            entries,
            action.source(),
            relocation_paths(action.kind),
        ) <==> exists|j: int|
            0 <= j < relocation_paths(action.kind).len() && !nobody_else_claims(
                entries,
                action.source(),
                #[trigger] relocation_paths(action.kind)[j],
            ),
{
    let paths = relocation_paths(action.kind);
    let source = action.source();
    if claimed_by_other(entries, source, paths) {
        let (i, j) = choose|i: int, j: int|
            0 <= i < entries.len() && 0 <= j < paths.len() && entries[i].source != source
                && #[trigger] claims(entries[i], paths[j]);
        assert(!nobody_else_claims(entries, source, paths[j]));
    }
    if exists|j: int|
        0 <= j < paths.len() && !nobody_else_claims(entries, source, #[trigger] paths[j]) {
        let j = choose|j: int|
            0 <= j < paths.len() && !nobody_else_claims(entries, source, #[trigger] paths[j]);
        let i = choose|i: int|
            0 <= i < entries.len() && (#[trigger] entries[i]).source != source && !(!same_path(
                entries[i].destination,
                paths[j],
            ) && (entries[i].backup is Some ==> !same_path(entries[i].backup->0, paths[j])));
        assert(claims(entries[i], paths[j]));
    }
}

#[verifier::spinoff_prover]
proof fn lemma_create_managed_file_is_let_through(
    entries: Seq<AppEntryView>,
    action: DeclarativeActionV1,
    files: Map<PathRole, FileView>,
)
    requires
        action.kind is CreateManagedFile,
    ensures
        (guards_of(entries, action) is Ok && guards_hold(
            action.kind,
            guards_of(entries, action)->Ok_0,
            files,
        )) <==> (receipts_are_as_planned(entries, action) && paths_are_as_planned(action.kind)
            && files_are_as_planned(action.kind, files)),
{
    let kind = action.kind;
    lemma_receipts(entries, action, kind->CreateManagedFile_destination@);
    if guards_of(entries, action) is Ok {
        lemma_hold(kind, guards_of(entries, action)->Ok_0, files);
    }
}

#[verifier::spinoff_prover]
proof fn lemma_create_managed_file_with_backup_is_let_through(
    entries: Seq<AppEntryView>,
    action: DeclarativeActionV1,
    files: Map<PathRole, FileView>,
)
    requires
        action.kind is CreateManagedFileWithBackup,
    ensures
        (guards_of(entries, action) is Ok && guards_hold(
            action.kind,
            guards_of(entries, action)->Ok_0,
            files,
        )) <==> (receipts_are_as_planned(entries, action) && paths_are_as_planned(action.kind)
            && files_are_as_planned(action.kind, files)),
{
    let kind = action.kind;
    lemma_receipts(entries, action, kind->CreateManagedFileWithBackup_destination@);
    lemma_receipts(entries, action, kind->CreateManagedFileWithBackup_backup@);
    if guards_of(entries, action) is Ok {
        lemma_hold(kind, guards_of(entries, action)->Ok_0, files);
    }
}

#[verifier::spinoff_prover]
proof fn lemma_update_managed_file_is_let_through(
    entries: Seq<AppEntryView>,
    action: DeclarativeActionV1,
    files: Map<PathRole, FileView>,
)
    requires
        action.kind is UpdateManagedFile,
    ensures
        (guards_of(entries, action) is Ok && guards_hold(
            action.kind,
            guards_of(entries, action)->Ok_0,
            files,
        )) <==> (receipts_are_as_planned(entries, action) && paths_are_as_planned(action.kind)
            && files_are_as_planned(action.kind, files)),
{
    let kind = action.kind;
    lemma_receipts(entries, action, kind->UpdateManagedFile_rollback@);
    if guards_of(entries, action) is Ok {
        lemma_hold(kind, guards_of(entries, action)->Ok_0, files);
    }
}

#[verifier::spinoff_prover]
proof fn lemma_relocate_managed_file_is_let_through(
    entries: Seq<AppEntryView>,
    action: DeclarativeActionV1,
    files: Map<PathRole, FileView>,
)
    requires
        action.kind is RelocateManagedFile,
    ensures
        (guards_of(entries, action) is Ok && guards_hold(
            action.kind,
            guards_of(entries, action)->Ok_0,
            files,
        )) <==> (receipts_are_as_planned(entries, action) && paths_are_as_planned(action.kind)
            && files_are_as_planned(action.kind, files)),
{
    let kind = action.kind;
    lemma_receipts(entries, action, kind->RelocateManagedFile_previous_rollback@);
    lemma_receipts(entries, action, kind->RelocateManagedFile_desired_destination@);
    lemma_claims(entries, action);
    let paths = relocation_paths(kind);
    let source = action.source();
    assert(paths[0] == kind->RelocateManagedFile_previous_destination@);
    assert(paths[1] == kind->RelocateManagedFile_desired_destination@);
    assert(paths[2] == kind->RelocateManagedFile_previous_rollback@);
    if kind->RelocateManagedFile_previous_backup is Some {
        assert(paths[3] == kind->RelocateManagedFile_previous_backup->0.path@);
        assert(paths.len() == 4);
    } else {
        assert(paths.len() == 3);
    }
    assert(claimed_by_other(entries, source, paths) <==> !(nobody_else_claims(
        entries,
        source,
        paths[0],
    ) && nobody_else_claims(entries, source, paths[1]) && nobody_else_claims(
        entries,
        source,
        paths[2],
    ) && (paths.len() == 4 ==> nobody_else_claims(entries, source, paths[3]))));
    if guards_of(entries, action) is Ok {
        lemma_hold(kind, guards_of(entries, action)->Ok_0, files);
    }
}

#[verifier::spinoff_prover]
proof fn lemma_remove_managed_file_is_let_through(
    entries: Seq<AppEntryView>,
    action: DeclarativeActionV1,
    files: Map<PathRole, FileView>,
)
    requires
        action.kind is RemoveManagedFile,
    ensures
        (guards_of(entries, action) is Ok && guards_hold(
            action.kind,
            guards_of(entries, action)->Ok_0,
            files,
        )) <==> (receipts_are_as_planned(entries, action) && paths_are_as_planned(action.kind)
            && files_are_as_planned(action.kind, files)),
{
    let kind = action.kind;
    lemma_receipts(entries, action, kind->RemoveManagedFile_rollback@);
    if guards_of(entries, action) is Ok {
        lemma_hold(kind, guards_of(entries, action)->Ok_0, files);
    }
}

#[verifier::spinoff_prover]
proof fn lemma_remove_managed_file_with_backup_is_let_through(
    entries: Seq<AppEntryView>,
    action: DeclarativeActionV1,
    files: Map<PathRole, FileView>,
)
    requires
        action.kind is RemoveManagedFileWithBackup,
    ensures
        (guards_of(entries, action) is Ok && guards_hold(
            action.kind,
            guards_of(entries, action)->Ok_0,
            files,
        )) <==> (receipts_are_as_planned(entries, action) && paths_are_as_planned(action.kind)
            && files_are_as_planned(action.kind, files)),
{
    let kind = action.kind;
    lemma_receipts(entries, action, kind->RemoveManagedFileWithBackup_rollback@);
    if guards_of(entries, action) is Ok {
        lemma_hold(kind, guards_of(entries, action)->Ok_0, files);
    }
}

#[verifier::spinoff_prover]
proof fn lemma_force_remove_managed_file_is_let_through(
    entries: Seq<AppEntryView>,
    action: DeclarativeActionV1,
    files: Map<PathRole, FileView>,
)
    requires
        action.kind is ForceRemoveManagedFile,
    ensures
        (guards_of(entries, action) is Ok && guards_hold(
            action.kind,
            guards_of(entries, action)->Ok_0,
            files,
        )) <==> (receipts_are_as_planned(entries, action) && paths_are_as_planned(action.kind)
            && files_are_as_planned(action.kind, files)),
{
    let kind = action.kind;
    lemma_receipts(entries, action, kind->ForceRemoveManagedFile_rollback@);
    if guards_of(entries, action) is Ok {
        lemma_hold(kind, guards_of(entries, action)->Ok_0, files);
    }
}

#[verifier::spinoff_prover]
proof fn lemma_merge_managed_json_is_let_through(
    entries: Seq<AppEntryView>,
    action: DeclarativeActionV1,
    files: Map<PathRole, FileView>,
)
    requires
        action.kind is MergeManagedJson,
    ensures
        (guards_of(entries, action) is Ok && guards_hold(
            action.kind,
            guards_of(entries, action)->Ok_0,
            files,
        )) <==> (receipts_are_as_planned(entries, action) && paths_are_as_planned(action.kind)
            && files_are_as_planned(action.kind, files)),
{
    let kind = action.kind;
    lemma_receipts(entries, action, kind->MergeManagedJson_destination@);
    lemma_receipts(entries, action, kind->MergeManagedJson_rollback@);
    if guards_of(entries, action) is Ok {
        lemma_hold(kind, guards_of(entries, action)->Ok_0, files);
    }
}

#[verifier::spinoff_prover]
proof fn lemma_remove_managed_json_is_let_through(
    entries: Seq<AppEntryView>,
    action: DeclarativeActionV1,
    files: Map<PathRole, FileView>,
)
    requires
        action.kind is RemoveManagedJson,
    ensures
        (guards_of(entries, action) is Ok && guards_hold(
            action.kind,
            guards_of(entries, action)->Ok_0,
            files,
        )) <==> (receipts_are_as_planned(entries, action) && paths_are_as_planned(action.kind)
            && files_are_as_planned(action.kind, files)),
{
    let kind = action.kind;
    lemma_receipts(entries, action, kind->RemoveManagedJson_rollback@);
    if guards_of(entries, action) is Ok {
        lemma_hold(kind, guards_of(entries, action)->Ok_0, files);
    }
}

#[verifier::spinoff_prover]
proof fn lemma_relocate_managed_json_is_let_through(
    entries: Seq<AppEntryView>,
    action: DeclarativeActionV1,
    files: Map<PathRole, FileView>,
)
    requires
        action.kind is RelocateManagedJson,
    ensures
        (guards_of(entries, action) is Ok && guards_hold(
            action.kind,
            guards_of(entries, action)->Ok_0,
            files,
        )) <==> (receipts_are_as_planned(entries, action) && paths_are_as_planned(action.kind)
            && files_are_as_planned(action.kind, files)),
{
    let kind = action.kind;
    lemma_receipts(entries, action, kind->RelocateManagedJson_previous_rollback@);
    lemma_receipts(entries, action, kind->RelocateManagedJson_desired_destination@);
    lemma_claims(entries, action);
    let paths = relocation_paths(kind);
    assert(nobody_else_claims(entries, action.source(), paths[0])
        && nobody_else_claims(entries, action.source(), paths[1])
        && nobody_else_claims(entries, action.source(), paths[2])
        || !nobody_else_claims(entries, action.source(), paths[0])
        || !nobody_else_claims(entries, action.source(), paths[1])
        || !nobody_else_claims(entries, action.source(), paths[2]));
    if guards_of(entries, action) is Ok {
        lemma_hold(kind, guards_of(entries, action)->Ok_0, files);
    }
}

/// An operation is let through exactly where everything is as it was planned for: the
/// receipts, the paths and the files. It is refused only where a receipt, a path or a
/// file differs; a file that stands where keys are to be merged is no reason by itself.
pub proof fn law_operations_are_let_through_as_planned(
    entries: Seq<AppEntryView>,
    action: DeclarativeActionV1,
    files: Map<PathRole, FileView>,
)
    ensures
        (guards_of(entries, action) is Ok && guards_hold(
            action.kind,
            guards_of(entries, action)->Ok_0,
            files,
        )) <==> (receipts_are_as_planned(entries, action) && paths_are_as_planned(action.kind)
            && files_are_as_planned(action.kind, files)),
{
    match action.kind {
        ActionKindV1::CreateManagedFile { .. } => {
            lemma_create_managed_file_is_let_through(entries, action, files);
        },
        ActionKindV1::CreateManagedFileWithBackup { .. } => {
            lemma_create_managed_file_with_backup_is_let_through(entries, action, files);
        },
        ActionKindV1::UpdateManagedFile { .. } => {
            lemma_update_managed_file_is_let_through(entries, action, files);
        },
        ActionKindV1::RelocateManagedFile { .. } => {
            lemma_relocate_managed_file_is_let_through(entries, action, files);
        },
        ActionKindV1::RemoveManagedFile { .. } => {
            lemma_remove_managed_file_is_let_through(entries, action, files);
        },
        ActionKindV1::RemoveManagedFileWithBackup { .. } => {
            lemma_remove_managed_file_with_backup_is_let_through(entries, action, files);
        },
        ActionKindV1::ForceRemoveManagedFile { .. } => {
            lemma_force_remove_managed_file_is_let_through(entries, action, files);
        },
        ActionKindV1::MergeManagedJson { .. } => {
            lemma_merge_managed_json_is_let_through(entries, action, files);
        },
        ActionKindV1::RemoveManagedJson { .. } => {
            lemma_remove_managed_json_is_let_through(entries, action, files);
        },
        ActionKindV1::RelocateManagedJson { .. } => {
            lemma_relocate_managed_json_is_let_through(entries, action, files);
        },
        ActionKindV1::Foreign(_) => {},
    }
}

/// The content that an operation brings is the one that the action names: the whole of
/// it for a file; for keys, an object that has every one of them, with the members under
/// them together of the identity that the action names. Nothing else is accepted, and
/// nothing of that kind is refused.
pub proof fn law_only_the_planned_content_is_written(kind: ActionKindV1, content: Seq<u8>)
    ensures
        ({
            let named = |keys: Seq<Seq<char>>, hash: u64|
                {
                    &&& json_object(content) is Some
                    &&& forall|i: int|
                        0 <= i < keys.len() ==> json_object(content)->0.contains_key(
                            #[trigger] keys[i],
                        )
                    &&& rendered(json_object(content)->0.restrict(keys.to_set())) is Some
                    &&& content_hash(
                        rendered(json_object(content)->0.restrict(keys.to_set()))->0,
                    ) == hash
                };
            content_verdict(kind, content) is Ok <==> match kind {
                ActionKindV1::CreateManagedFile { desired_hash, .. } => content_hash(content)
                    == desired_hash,
                ActionKindV1::CreateManagedFileWithBackup { desired_hash, .. } => content_hash(
                    content,
                ) == desired_hash,
                ActionKindV1::UpdateManagedFile { desired_hash, .. } => content_hash(content)
                    == desired_hash,
                ActionKindV1::RelocateManagedFile { desired_hash, .. } => content_hash(content)
                    == desired_hash,
                ActionKindV1::MergeManagedJson { desired_managed_hash, managed_keys, .. } => named(
                    texts(managed_keys@),
                    desired_managed_hash,
                ),
                ActionKindV1::RelocateManagedJson {
                    desired_managed_hash,
                    desired_managed_keys,
                    ..
                } => named(texts(desired_managed_keys@), desired_managed_hash),
                _ => true,
            }
        }),
{
    if json_object(content) is Some {
        let members = json_object(content)->0;
        match kind {
            ActionKindV1::MergeManagedJson { managed_keys, .. } => {
                lemma_first_missing(members, texts(managed_keys@));
            },
            ActionKindV1::RelocateManagedJson { desired_managed_keys, .. } => {
                lemma_first_missing(members, texts(desired_managed_keys@));
            },
            _ => {},
        }
    }
}

pub proof fn lemma_first_missing(members: Map<Seq<char>, Seq<u8>>, keys: Seq<Seq<char>>)
    ensures
        first_missing(members, keys) is None <==> forall|i: int|
            0 <= i < keys.len() ==> members.contains_key(#[trigger] keys[i]),
        first_missing(members, keys) is Some ==> 0 <= first_missing(members, keys)->0
            < keys.len() && !members.contains_key(keys[first_missing(members, keys)->0]),
    decreases keys.len(),
{
    if keys.len() > 0 {
        let head = keys.drop_last();
        lemma_first_missing(members, head);
        if first_missing(members, head) is None {
            assert forall|i: int| 0 <= i < keys.len() - 1 implies members.contains_key(
                #[trigger] keys[i],
            ) by {
                assert(head[i] == keys[i]);
            }
            assert(keys.last() == keys[keys.len() - 1]);
        } else {
            let at = first_missing(members, head)->0;
            assert(head[at] == keys[at]);
        }
    }
}

/// An operation on a whole file that was let through and carried out to its end leaves
/// what the action names: the content it brought at its destination, with the mode of a
/// file that it replaces; what stood there before as it was, in the place that is set
/// aside for it; and nothing in its old place where a file was moved or removed.
pub proof fn law_operations_leave_what_was_planned(
    kind: ActionKindV1,
    files: Map<PathRole, FileView>,
    content: Seq<u8>,
    mode: Option<u32>,
)
    requires
        is_whole_file(kind),
        stands_as_before(kind, files),
        content_verdict(kind, content) is Ok,
        kind is UpdateManagedFile && kind->UpdateManagedFile_original_mode is None ==> mode is None,
    ensures
        ({
            let changes = changes_of(kind);
            let written = prepared_content(kind, content, starting_content(kind, files));
            let after = after_execution(files, changes, changes.len(), written->Ok_0, mode);
            &&& written is Ok
            &&& stands_as_after(kind, after)
            &&& match kind {
                ActionKindV1::CreateManagedFile { .. } => after[PathRole::Destination]->content
                    == content,
                ActionKindV1::CreateManagedFileWithBackup { .. } =>
                after[PathRole::Destination]->content == content && after[PathRole::Backup]
                    == files[PathRole::Destination],
                ActionKindV1::UpdateManagedFile { .. } => after[PathRole::Destination]->content
                    == content && after[PathRole::Rollback] == files[PathRole::Destination],
                ActionKindV1::RelocateManagedFile { previous_backup, previous_present, .. } => {
                    &&& after[PathRole::DesiredDestination]->content == content
                    &&& previous_present ==> after[PathRole::PreviousRollback]
                        == files[PathRole::PreviousDestination]
                    &&& previous_backup is Some ==> after[PathRole::PreviousDestination]
                        == files[PathRole::PreviousBackup]
                },
                ActionKindV1::RemoveManagedFile { .. } => after[PathRole::Rollback]
                    == files[PathRole::Destination],
                ActionKindV1::RemoveManagedFileWithBackup { .. } => after[PathRole::Rollback]
                    == files[PathRole::Destination] && after[PathRole::Destination]
                    == files[PathRole::Backup],
                ActionKindV1::ForceRemoveManagedFile { persistent_backup, .. } => {
                    &&& after[PathRole::Rollback] == files[PathRole::Destination]
                    &&& persistent_backup is Some ==> after[PathRole::Destination]
                        == files[PathRole::Backup]
                },
                _ => true,
            }
        }),
{
    let changes = changes_of(kind);
    let written = prepared_content(kind, content, starting_content(kind, files));
    lemma_first_changes(files, changes, changes.len(), written->Ok_0, mode);
}

/// An operation on keys that was carried out to its end leaves an object with the keys
/// of its source and, where one stood there, with every other member as it was; what
/// stood there before is put aside as it was, and the mode is kept.
pub proof fn law_merges_leave_what_was_planned(
    kind: ActionKindV1,
    files: Map<PathRole, FileView>,
    content: Seq<u8>,
    mode: Option<u32>,
    name: Seq<char>,
)
    requires
        kind is MergeManagedJson,
        files_are_as_planned(kind, files),
        content_verdict(kind, content) is Ok,
        prepared_content(kind, content, starting_content(kind, files)) is Ok,
        objects_read_back(kind, content, starting_content(kind, files)),
    ensures
        ({
            let keys = texts(kind->MergeManagedJson_managed_keys@);
            let changes = changes_of(kind);
            let written = prepared_content(kind, content, starting_content(kind, files))->Ok_0;
            let after = after_execution(files, changes, changes.len(), written, mode);
            let object = json_object(after[PathRole::Destination]->content);
            let source = json_object(content)->0;
            let before = json_object(files[PathRole::Destination]->content);
            &&& after[PathRole::Destination] is Regular
            &&& object is Some
            &&& keys.contains(name) ==> object->0.contains_key(name) && object->0[name]
                == source[name]
            &&& !keys.contains(name) ==> match files[PathRole::Destination] {
                FileView::Regular { .. } => before is Some && object->0.contains_key(name)
                    == before->0.contains_key(name) && (object->0.contains_key(name)
                    ==> object->0[name] == before->0[name]),
                _ => !object->0.contains_key(name),
            }
            &&& kind->MergeManagedJson_original_hash is Some ==> after[PathRole::Rollback]
                == files[PathRole::Destination]
            &&& kind->MergeManagedJson_original_hash is None ==> after[PathRole::Rollback]
                is Missing
            &&& after[PathRole::Destination]->mode == match kind->MergeManagedJson_original_mode {
                Some(kept) => Some(kept),
                None => mode,
            }
        }),
{
    law_only_the_planned_content_is_written(kind, content);
    let keys = texts(kind->MergeManagedJson_managed_keys@);
    let changes = changes_of(kind);
    let written = prepared_content(kind, content, starting_content(kind, files))->Ok_0;
    lemma_first_changes(files, changes, changes.len(), written, mode);
    if keys.contains(name) {
        let i = choose|i: int| 0 <= i < keys.len() && keys[i] == name;
        assert(json_object(content)->0.contains_key(keys[i]));
        assert(keys.to_set().contains(name));
    }
}

/// Keys that are removed are gone afterwards; every other member is as it was, and what
/// stood there before is put aside as it was.
pub proof fn law_key_removals_leave_what_was_planned(
    kind: ActionKindV1,
    files: Map<PathRole, FileView>,
    content: Seq<u8>,
    mode: Option<u32>,
    name: Seq<char>,
)
    requires
        kind is RemoveManagedJson,
        files_are_as_planned(kind, files),
        prepared_content(kind, content, starting_content(kind, files)) is Ok,
        objects_read_back(kind, content, starting_content(kind, files)),
    ensures
        ({
            let keys = texts(kind->RemoveManagedJson_managed_keys@);
            let changes = changes_of(kind);
            let written = prepared_content(kind, content, starting_content(kind, files))->Ok_0;
            let after = after_execution(files, changes, changes.len(), written, mode);
            let object = json_object(after[PathRole::Destination]->content);
            let before = json_object(files[PathRole::Destination]->content)->0;
            &&& keys_are_gone(after[PathRole::Destination], keys)
            &&& !keys.contains(name) ==> object->0.contains_key(name) == before.contains_key(name)
                && (before.contains_key(name) ==> object->0[name] == before[name])
            &&& after[PathRole::Rollback] == files[PathRole::Destination]
            &&& after[PathRole::Destination]->mode == match kind->RemoveManagedJson_original_mode {
                Some(kept) => Some(kept),
                None => mode,
            }
        }),
{
    let keys = texts(kind->RemoveManagedJson_managed_keys@);
    let changes = changes_of(kind);
    let written = prepared_content(kind, content, starting_content(kind, files))->Ok_0;
    lemma_first_changes(files, changes, changes.len(), written, mode);
    let after = after_execution(files, changes, changes.len(), written, mode);
    assert forall|i: int| 0 <= i < keys.len() implies !json_object(
        after[PathRole::Destination]->content,
    )->0.contains_key(#[trigger] keys[i]) by {
        assert(keys.to_set().contains(keys[i]));
    }
}

/// Keys that are relocated leave their old object with everything else that it held,
/// and stand in a new one with nothing else.
pub proof fn law_key_relocations_leave_what_was_planned(
    kind: ActionKindV1,
    files: Map<PathRole, FileView>,
    content: Seq<u8>,
    mode: Option<u32>,
    name: Seq<char>,
)
    requires
        kind is RelocateManagedJson,
        files_are_as_planned(kind, files),
        content_verdict(kind, content) is Ok,
        prepared_content(kind, content, starting_content(kind, files)) is Ok,
        objects_read_back(kind, content, starting_content(kind, files)),
    ensures
        ({
            let old_keys = texts(kind->previous_managed_keys@);
            let new_keys = texts(kind->desired_managed_keys@);
            let changes = changes_of(kind);
            let written = prepared_content(kind, content, starting_content(kind, files))->Ok_0;
            let after = after_execution(files, changes, changes.len(), written, mode);
            let new = json_object(after[PathRole::DesiredDestination]->content);
            let left = json_object(after[PathRole::PreviousDestination]->content);
            let before = json_object(files[PathRole::PreviousDestination]->content)->0;
            &&& after[PathRole::DesiredDestination] is Regular
            &&& new is Some
            &&& new->0.contains_key(name) == new_keys.contains(name)
            &&& new_keys.contains(name) ==> new->0[name] == json_object(content)->0[name]
            &&& kind->RelocateManagedJson_previous_present ==> {
                &&& keys_are_gone(after[PathRole::PreviousDestination], old_keys)
                &&& !old_keys.contains(name) ==> left->0.contains_key(name)
                    == before.contains_key(name) && (before.contains_key(name) ==> left->0[name]
                    == before[name])
                &&& after[PathRole::PreviousRollback] == files[PathRole::PreviousDestination]
            }
            &&& !kind->RelocateManagedJson_previous_present
                ==> after[PathRole::PreviousDestination] is Missing
        }),
{
    law_only_the_planned_content_is_written(kind, content);
    let old_keys = texts(kind->previous_managed_keys@);
    let new_keys = texts(kind->desired_managed_keys@);
    let changes = changes_of(kind);
    let written = prepared_content(kind, content, starting_content(kind, files))->Ok_0;
    lemma_first_changes(files, changes, changes.len(), written, mode);
    let after = after_execution(files, changes, changes.len(), written, mode);
    if new_keys.contains(name) {
        let i = choose|i: int| 0 <= i < new_keys.len() && new_keys[i] == name;
        assert(json_object(content)->0.contains_key(new_keys[i]));
        assert(new_keys.to_set().contains(name));
    }
    if kind->RelocateManagedJson_previous_present {
        assert forall|i: int| 0 <= i < old_keys.len() implies !json_object(
            after[PathRole::PreviousDestination]->content,
        )->0.contains_key(#[trigger] old_keys[i]) by {
            assert(old_keys.to_set().contains(old_keys[i]));
        }
    }
}

/// Whether two receipts say the same of what is installed, however their paths are
/// written.
pub open spec fn receipts_agree(left: AppEntryView, right: AppEntryView) -> bool {
    &&& same_path(left.destination, right.destination)
    &&& left.content_hash == right.content_hash
    &&& left.backup is Some == right.backup is Some
    &&& left.backup is Some ==> same_path(left.backup->0, right.backup->0)
    &&& left.managed_keys == right.managed_keys
    &&& left.requires_admin == right.requires_admin
}

/// The receipt that a finished operation is owed: where its content stands, under its
/// identity, with the backup that it keeps.
pub open spec fn receipt_owed(action: DeclarativeActionV1, uses_env: bool) -> Option<AppEntryView> {
    let receipt = |destination: Seq<char>, hash: u64, backup: Option<Seq<char>>, admin: bool|
        AppEntryView {
            source: action.source(),
            destination,
            backup,
            content_hash: hash,
            managed_keys: None,
            uses_env,
            requires_admin: admin,
        };
    match action.kind {
        ActionKindV1::CreateManagedFile { destination, desired_hash, requires_admin } => Some(
            receipt(destination@, desired_hash, None, requires_admin),
        ),
        ActionKindV1::CreateManagedFileWithBackup {
            destination,
            backup,
            desired_hash,
            requires_admin,
            ..
        } => Some(receipt(destination@, desired_hash, Some(backup@), requires_admin)),
        ActionKindV1::UpdateManagedFile {
            destination,
            previous_backup,
            desired_hash,
            requires_admin,
            ..
        } => Some(
            receipt(destination@, desired_hash, optional_text(previous_backup), requires_admin),
        ),
        ActionKindV1::RelocateManagedFile {
            desired_destination,
            desired_hash,
            desired_requires_admin,
            ..
        } => Some(receipt(desired_destination@, desired_hash, None, desired_requires_admin)),
        ActionKindV1::RelocateManagedJson {
            desired_destination,
            desired_managed_hash,
            desired_managed_keys,
            ..
        } => Some(
            AppEntryView {
                managed_keys: Some(texts(desired_managed_keys@)),
                ..receipt(desired_destination@, desired_managed_hash, None, false)
            },
        ),
        ActionKindV1::MergeManagedJson {
            destination,
            desired_managed_hash,
            managed_keys,
            ..
        } => Some(
            AppEntryView {
                managed_keys: Some(texts(managed_keys@)),
                ..receipt(destination@, desired_managed_hash, None, false)
            },
        ),
        _ => None,
    }
}

/// The receipt that a finished operation leaves is the one that it is owed, and no other:
/// one for another place, another content, another backup, other keys or other rights is
/// not taken for it, and neither is the one that the operation started from, unless
/// nothing changed.
pub proof fn law_receipts_tell_what_was_done(
    action: DeclarativeActionV1,
    entry: AppEntryView,
    uses_env: bool,
)
    ensures
        is_receipt_after(entry, action.kind) ==> receipt_owed(action, entry.uses_env) is Some
            && receipts_agree(entry, receipt_owed(action, entry.uses_env)->0),
        receipt_owed(action, uses_env) is Some && receipts_agree(
            entry,
            receipt_owed(action, uses_env)->0,
        ) && (action.kind is RelocateManagedFile ==> entry.uses_env
            == action.kind->RelocateManagedFile_desired_uses_env) && (
        action.kind is RelocateManagedJson ==> entry.uses_env
            == action.kind->RelocateManagedJson_desired_uses_env) ==> is_receipt_after(
            entry,
            action.kind,
        ),
        action.kind is UpdateManagedFile && is_receipt_before(entry, action.kind)
            && is_receipt_after(entry, action.kind) ==> action.kind->UpdateManagedFile_original_hash
            == action.kind->UpdateManagedFile_desired_hash,
        action.kind is MergeManagedJson && is_receipt_before(entry, action.kind)
            && is_receipt_after(entry, action.kind)
            ==> action.kind->MergeManagedJson_previous_receipt_hash == Some(
            action.kind->MergeManagedJson_desired_managed_hash,
        ),
        is_removal(action.kind) ==> !is_receipt_after(entry, action.kind),
        action.kind is CreateManagedFile || action.kind is CreateManagedFileWithBackup
            ==> !is_receipt_before(entry, action.kind),
{
}

/// The receipt that a removal, an update or a merge starts from names what stands there:
/// for a removal it is, field by field, the one that its recovery puts back.
pub proof fn law_receipts_tell_where_an_operation_starts(
    action: DeclarativeActionV1,
    entry: AppEntryView,
)
    ensures
        is_removal(action.kind) ==> (is_receipt_before(entry, action.kind) <==> receipts_agree(
            entry,
            removed_receipt(action)->0,
        ) && entry.uses_env == removed_receipt(action)->0.uses_env),
        is_removal(action.kind) ==> removed_receipt(action) is Some && removed_receipt(
            action,
        )->0.source == action.source(),
        action.kind is UpdateManagedFile ==> (is_receipt_before(entry, action.kind) <==> {
            &&& same_path(entry.destination, action.kind->UpdateManagedFile_destination@)
            &&& entry.content_hash == action.kind->UpdateManagedFile_original_hash
            &&& entry.managed_keys is None
            &&& entry.requires_admin == action.kind->UpdateManagedFile_requires_admin
            &&& match action.kind->UpdateManagedFile_previous_backup {
                Some(backup) => entry.backup is Some && same_path(entry.backup->0, backup@),
                None => entry.backup is None,
            }
        }),
        action.kind is RelocateManagedFile && is_receipt_before(entry, action.kind) ==> {
            &&& same_path(
                entry.destination,
                action.kind->RelocateManagedFile_previous_destination@,
            )
            &&& entry.content_hash == action.kind->RelocateManagedFile_previous_hash
            &&& entry.managed_keys is None
            &&& entry.uses_env == action.kind->RelocateManagedFile_previous_uses_env
            &&& entry.requires_admin == action.kind->RelocateManagedFile_previous_requires_admin
            &&& match action.kind->RelocateManagedFile_previous_backup {
                Some(backup) => entry.backup is Some && same_path(entry.backup->0, backup.path@),
                None => entry.backup is None,
            }
        },
        action.kind is MergeManagedJson ==> (is_receipt_before(entry, action.kind) <==> {
            &&& action.kind->MergeManagedJson_previous_receipt_hash == Some(entry.content_hash)
            &&& same_path(entry.destination, action.kind->MergeManagedJson_destination@)
            &&& entry.managed_keys == Some(texts(action.kind->MergeManagedJson_managed_keys@))
            &&& entry.backup is None && !entry.requires_admin
        }),
        action.kind is RelocateManagedJson && is_receipt_before(entry, action.kind) ==> {
            &&& same_path(
                entry.destination,
                action.kind->RelocateManagedJson_previous_destination@,
            )
            &&& entry.content_hash == action.kind->RelocateManagedJson_previous_receipt_hash
            &&& entry.managed_keys == Some(texts(action.kind->previous_managed_keys@))
            &&& entry.uses_env == action.kind->RelocateManagedJson_previous_uses_env
            &&& entry.backup is None && !entry.requires_admin
        },
{
}

/// A removal counts as durable exactly where no receipt speaks of it any more: none of
/// its source, and none for any of the paths that it gave up.
pub proof fn law_removals_are_durable_without_receipts(
    entries: Seq<AppEntryView>,
    action: DeclarativeActionV1,
)
    requires
        is_removal(action.kind),
    ensures
        removal_committed(entries, action) <==> source_is_new(entries, action.source())
            && match action.kind {
            ActionKindV1::RemoveManagedFile { destination, rollback, .. } => is_unowned(
                entries,
                destination@,
            ) && is_unowned(entries, rollback@),
            ActionKindV1::RemoveManagedFileWithBackup { destination, backup, rollback, .. } =>
                is_unowned(entries, destination@) && is_unowned(entries, rollback@) && is_unowned(
                entries,
                backup@,
            ),
            ActionKindV1::ForceRemoveManagedFile {
                destination,
                persistent_backup,
                rollback,
                ..
            } => is_unowned(entries, destination@) && is_unowned(entries, rollback@) && (
            persistent_backup is Some ==> is_unowned(entries, persistent_backup->0.path@)),
            ActionKindV1::RemoveManagedJson { destination, rollback, .. } => is_unowned(
                entries,
                destination@,
            ) && is_unowned(entries, rollback@),
            _ => false,
        },
{
    lemma_source_index(entries, action.source());
}

/// A commit deletes rollback material where it is just what the operation put aside, has
/// nothing to do where it is gone, and is refused where it is something else, or where
/// what a removal leaves does not stand at its destination.
pub proof fn law_commit_deletes_exact_material(kind: ActionKindV1, files: Map<PathRole, FileView>)
    ensures
        ({
            let role = material_of(kind);
            let decision = commit_decision(
                kind,
                commit_roles(kind).map_values(|role: PathRole| files[role]),
            );
            let settles = |ready: bool, hash: u64, mode: Option<u32>|
                {
                    &&& decision == Ok::<Option<PathRole>, CommitFault>(None)
                        <==> ready && files[role] is Missing
                    &&& decision == Ok::<Option<PathRole>, CommitFault>(Some(role))
                        <==> ready && holds_exactly(files[role], hash, mode)
                    &&& decision is Ok ==> decision->Ok_0 is None || decision->Ok_0 == Some(role)
                };
            match kind {
                ActionKindV1::UpdateManagedFile { original_mode, original_hash, .. } => settles(
                    true,
                    original_hash,
                    original_mode,
                ),
                ActionKindV1::RelocateManagedFile {
                    previous_present,
                    previous_mode,
                    previous_hash,
                    ..
                } => if previous_present {
                    settles(true, previous_hash, previous_mode)
                } else {
                    decision is Ok && decision->Ok_0 is None
                },
                ActionKindV1::RemoveManagedFile { original_mode, original_hash, .. } => settles(
                    files[PathRole::Destination] is Missing,
                    original_hash,
                    original_mode,
                ),
                ActionKindV1::RemoveManagedFileWithBackup {
                    managed_mode,
                    managed_hash,
                    backup_mode,
                    backup_hash,
                    ..
                } => settles(
                    holds_exactly(files[PathRole::Destination], backup_hash, backup_mode)
                        && files[PathRole::Backup] is Missing,
                    managed_hash,
                    managed_mode,
                ),
                ActionKindV1::ForceRemoveManagedFile {
                    persistent_backup,
                    current_mode,
                    current_hash,
                    ..
                } => settles(
                    match persistent_backup {
                        Some(backup) => holds_exactly(
                            files[PathRole::Destination],
                            backup.hash,
                            backup.mode,
                        ) && files[PathRole::Backup] is Missing,
                        None => files[PathRole::Destination] is Missing,
                    },
                    current_hash,
                    current_mode,
                ),
                ActionKindV1::MergeManagedJson { original_mode, original_hash, .. } => match
                original_hash {
                    Some(hash) => settles(true, hash, original_mode),
                    None => (decision is Ok <==> files[role] is Missing) && (decision is Ok
                        ==> decision->Ok_0 is None),
                },
                ActionKindV1::RemoveManagedJson { original_mode, original_hash, .. } => settles(
                    true,
                    original_hash,
                    original_mode,
                ),
                ActionKindV1::RelocateManagedJson {
                    previous_present,
                    previous_mode,
                    previous_original_hash,
                    desired_managed_hash,
                    desired_managed_keys,
                    ..
                } => {
                    let ready = keys_are(
                        files[PathRole::DesiredDestination],
                        texts(desired_managed_keys@),
                        desired_managed_hash,
                    );
                    &&& decision is Ok ==> ready
                    &&& ready && files[role] is Missing ==> decision is Ok
                        && decision->Ok_0 is None
                    &&& decision == Ok::<Option<PathRole>, CommitFault>(Some(role))
                        <==> ready && previous_present && previous_original_hash is Some
                        && holds_exactly(files[role], previous_original_hash->0, previous_mode)
                    &&& decision is Ok ==> decision->Ok_0 is None || decision->Ok_0 == Some(role)
                    &&& decision is Ok && decision->Ok_0 is None ==> files[role] is Missing
                },
                _ => decision is Ok && decision->Ok_0 is None,
            }
        }),
{
    let roles = commit_roles(kind);
    let found = roles.map_values(|role: PathRole| files[role]);
    assert forall|i: int| 0 <= i < roles.len() implies #[trigger] found[i] == files[roles[i]] by {}
}

/// A commit begins exactly where the journal is the one of the operation, every action of
/// it was applied, and the receipts are durable: the one that is owed for what was
/// written, none for what was removed.
pub proof fn law_commit_needs_durable_receipts(
    journal: AppOperationJournalV1,
    operation_id: Seq<char>,
    entries: Seq<AppEntryView>,
)
    ensures
        commit_verdict(journal, operation_id, entries) is Ok <==> {
            &&& journal.action_ir.operation_id@ == operation_id
            &&& forall|i: int|
                0 <= i < journal.actions@.len() ==> (#[trigger] journal.actions@[i]).state
                    == JournalActionStateV1::Applied || journal.actions@[i].state
                    == JournalActionStateV1::ReceiptCommitted
            &&& forall|i: int|
                0 <= i < journal.action_ir.actions@.len() ==> {
                    let action = #[trigger] journal.action_ir.actions@[i];
                    if is_removal(action.kind) {
                        removal_committed(entries, action)
                    } else {
                        receipt_matches(entries, action)
                    }
                }
        },
{
}

} // verus!
