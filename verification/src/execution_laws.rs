//! What holds of every operation that is carried out.

use vstd::prelude::*;

use crate::action::{
    action_accesses, action_needs_admin, removes, removes_managed, writes, ActionKindV1,
    DeclarativeActionV1, PathRole,
};
use crate::commit::{commit_decision, commit_roles};
use crate::execution::{
    changes_of, content_verdict, guard_verdict, guards_of, ExecutionChange, Guard,
};
use crate::execution_machine::starting_role;
use crate::execution_run::{prepared_content, PreparedView};
use crate::json::{
    has_no_key, json_object, law_merged_keys_are_found, merge_members, name_set, reads_as_written,
    unmanaged_members,
};
use crate::manifest::AppEntryView;
use crate::plan::PlanActionV1;
use crate::recovery::FileView;
use crate::recovery_laws::findings_of;
use crate::recovery_plan::{recovery_decision, DecisionView};
use crate::text::texts;

verus! {

/// Whether the approved accesses of an action cover one of its changes.
pub open spec fn change_is_covered(kind: ActionKindV1, change: ExecutionChange) -> bool {
    let accesses = action_accesses(kind);
    match change {
        ExecutionChange::Move { from, to, privileged } => accesses.contains(removes(from))
            && accesses.contains(writes(to)) && (privileged ==> action_needs_admin(kind)),
        ExecutionChange::Write { role, privileged } => accesses.contains(writes(role)) && (
        privileged ==> action_needs_admin(kind)),
        ExecutionChange::WriteRemaining { role } => accesses.contains(writes(role)),
        ExecutionChange::SetMode { role, privileged, .. } => accesses.contains(writes(role)) && (
        privileged ==> action_needs_admin(kind)),
    }
}

/// Whether a relocation that has a backup also has the file that the backup
/// belongs to. Operations on an action that breaks this are refused.
pub open spec fn backup_has_file(kind: ActionKindV1) -> bool {
    match kind {
        ActionKindV1::RelocateManagedFile { previous_backup, previous_present, .. } =>
            previous_backup is Some ==> previous_present,
        _ => true,
    }
}

/// Every change of an operation was approved: each path it takes from may be
/// removed, each path it writes may be written, and a privileged change was
/// approved as such.
pub proof fn law_changes_were_approved(kind: ActionKindV1, index: int)
    requires
        backup_has_file(kind),
        0 <= index < changes_of(kind).len(),
    ensures
        change_is_covered(kind, changes_of(kind)[index]),
{
    let accesses = action_accesses(kind);
    assert forall|i: int| 0 <= i < accesses.len() implies accesses.contains(
        #[trigger] accesses[i],
    ) by {}
    match kind {
        ActionKindV1::CreateManagedFile { .. } => {
            assert(accesses.contains(accesses[0]));
        },
        ActionKindV1::CreateManagedFileWithBackup { .. } => {
            assert(accesses.contains(accesses[0]));
            assert(accesses.contains(accesses[1]));
            assert(accesses.contains(accesses[2]));
        },
        ActionKindV1::UpdateManagedFile { .. } => {
            assert(accesses.contains(accesses[0]));
            assert(accesses.contains(accesses[1]));
            assert(accesses.contains(accesses[2]));
        },
        ActionKindV1::RelocateManagedFile { previous_backup, previous_present, .. } => {
            let last = accesses.len() - 1;
            assert(accesses.contains(accesses[last]));
            if previous_present {
                assert(accesses[0] == removes(PathRole::PreviousDestination));
                assert(accesses[1] == writes(PathRole::PreviousRollback));
                assert(accesses.contains(accesses[0]));
                assert(accesses.contains(accesses[1]));
                if previous_backup is Some {
                    assert(accesses[3] == removes(PathRole::PreviousBackup));
                    assert(accesses[4] == writes(PathRole::PreviousDestination));
                    assert(accesses.contains(accesses[3]));
                    assert(accesses.contains(accesses[4]));
                }
            }
        },
        ActionKindV1::RelocateManagedJson { previous_present, .. } => {
            let last = accesses.len() - 1;
            assert(accesses.contains(accesses[last]));
            if previous_present {
                assert(accesses[0] == removes(PathRole::PreviousDestination));
                assert(accesses[1] == writes(PathRole::PreviousRollback));
                assert(accesses[2] == writes(PathRole::PreviousDestination));
                assert(accesses.contains(accesses[0]));
                assert(accesses.contains(accesses[1]));
                assert(accesses.contains(accesses[2]));
            }
        },
        ActionKindV1::RemoveManagedFile { .. } => {
            assert(accesses.contains(accesses[0]));
            assert(accesses.contains(accesses[1]));
        },
        ActionKindV1::RemoveManagedFileWithBackup { .. } => {
            assert(accesses.contains(accesses[0]));
            assert(accesses.contains(accesses[1]));
            assert(accesses.contains(accesses[3]));
            assert(accesses.contains(accesses[4]));
        },
        ActionKindV1::ForceRemoveManagedFile { persistent_backup, .. } => {
            assert(accesses[0] == removes(PathRole::Destination));
            assert(accesses[1] == writes(PathRole::Rollback));
            assert(accesses.contains(accesses[0]));
            assert(accesses.contains(accesses[1]));
            if persistent_backup is Some {
                assert(accesses[3] == removes(PathRole::Backup));
                assert(accesses[4] == writes(PathRole::Destination));
                assert(accesses.contains(accesses[3]));
                assert(accesses.contains(accesses[4]));
            }
        },
        ActionKindV1::MergeManagedJson { original_hash, .. } => {
            let last = accesses.len() - 1;
            assert(accesses.contains(accesses[last]));
            if original_hash is Some {
                assert(accesses[0] == removes(PathRole::Destination));
                assert(accesses[1] == writes(PathRole::Rollback));
                assert(accesses.contains(accesses[0]));
                assert(accesses.contains(accesses[1]));
            }
        },
        ActionKindV1::RemoveManagedJson { .. } => {
            assert(accesses.contains(accesses[0]));
            assert(accesses.contains(accesses[1]));
            assert(accesses.contains(accesses[2]));
        },
        ActionKindV1::Foreign(_) => {},
    }
}

/// The files after one change of an operation that writes `content`. A file that is
/// written has the mode `mode` until its own mode is set.
pub open spec fn after_execution_change(
    files: Map<PathRole, FileView>,
    change: ExecutionChange,
    content: PreparedView,
    mode: Option<u32>,
) -> Map<PathRole, FileView> {
    match change {
        ExecutionChange::Move { from, to, .. } => files.insert(to, files[from]).insert(
            from,
            FileView::Missing,
        ),
        ExecutionChange::Write { role, .. } => files.insert(
            role,
            FileView::Regular { content: content.written, mode },
        ),
        ExecutionChange::WriteRemaining { role } => files.insert(
            role,
            FileView::Regular { content: content.remaining, mode },
        ),
        ExecutionChange::SetMode { role, mode: kept, .. } => match files[role] {
            FileView::Regular { content: held, .. } => files.insert(
                role,
                FileView::Regular { content: held, mode: Some(kept) },
            ),
            _ => files,
        },
    }
}

/// The files after the first `count` changes.
pub open spec fn after_execution(
    files: Map<PathRole, FileView>,
    changes: Seq<ExecutionChange>,
    count: nat,
    content: PreparedView,
    mode: Option<u32>,
) -> Map<PathRole, FileView>
    decreases count,
{
    if count == 0 {
        files
    } else {
        after_execution_change(
            after_execution(files, changes, (count - 1) as nat, content, mode),
            changes[count - 1],
            content,
            mode,
        )
    }
}

/// The part that a guard is about.
pub open spec fn guarded_role(guard: Guard) -> PathRole {
    match guard {
        Guard::Unread { role } => role,
        Guard::Absent { role, .. } => role,
        Guard::Regular { role, .. } => role,
        Guard::Refuse { .. } => PathRole::Destination,
    }
}

/// Whether everything that must hold before an operation holds of the files.
pub open spec fn guards_hold(
    kind: ActionKindV1,
    guards: Seq<Guard>,
    files: Map<PathRole, FileView>,
) -> bool {
    forall|i: int|
        0 <= i < guards.len() ==> guard_verdict(
            kind,
            #[trigger] guards[i],
            files[guarded_role(guards[i])],
        ) is Ok
}

/// What stands where an operation starts, as its guards find it.
pub open spec fn starting_content(kind: ActionKindV1, files: Map<PathRole, FileView>) -> Option<
    Seq<u8>,
> {
    match files[starting_role(kind)] {
        FileView::Regular { content, .. } => Some(content),
        _ => None,
    }
}

/// Whether the objects that an operation on managed keys writes read as they were
/// written.
pub open spec fn objects_read_back(
    kind: ActionKindV1,
    content: Seq<u8>,
    found: Option<Seq<u8>>,
) -> bool {
    match kind {
        ActionKindV1::MergeManagedJson { managed_keys, .. } => reads_as_written(
            merge_members(found, content, texts(managed_keys@))->Ok_0,
        ),
        ActionKindV1::RelocateManagedJson { previous_managed_keys, desired_managed_keys, .. } => {
            &&& reads_as_written(
                merge_members(None, content, texts(desired_managed_keys@))->Ok_0,
            )
            &&& found is Some ==> reads_as_written(
                unmanaged_members(json_object(found->0)->0, texts(previous_managed_keys@)),
            )
        },
        ActionKindV1::RemoveManagedJson { managed_keys, .. } => found is Some ==> reads_as_written(
            unmanaged_members(json_object(found->0)->0, texts(managed_keys@)),
        ),
        _ => true,
    }
}

/// An operation that was let through, and how far it came when it was interrupted.
/// An update that is interrupted between its write and the moment at which the
/// written file has the mode of the file it replaces is left out, and so are
/// objects that do not read as they were written.
pub open spec fn is_interrupted(
    entries: Seq<AppEntryView>,
    action: DeclarativeActionV1,
    files: Map<PathRole, FileView>,
    content: Seq<u8>,
    mode: Option<u32>,
    count: nat,
) -> bool {
    let found = starting_content(action.kind, files);
    &&& !(action.kind is Foreign)
    &&& guards_of(entries, action) is Ok
    &&& guards_hold(action.kind, guards_of(entries, action)->Ok_0, files)
    &&& content_verdict(action.kind, content) is Ok
    &&& prepared_content(action.kind, content, found) is Ok
    &&& objects_read_back(action.kind, content, found)
    &&& count <= changes_of(action.kind).len()
    &&& match action.kind {
        ActionKindV1::UpdateManagedFile { original_mode, .. } => count == 2 ==> mode
            == original_mode,
        _ => true,
    }
}

/// Whether recovery is not blocked after the first `count` changes.
pub open spec fn can_be_undone_after(
    kind: ActionKindV1,
    files: Map<PathRole, FileView>,
    content: Seq<u8>,
    mode: Option<u32>,
    count: nat,
) -> bool {
    let written = prepared_content(kind, content, starting_content(kind, files))->Ok_0;
    let after = after_execution(files, changes_of(kind), count, written, mode);
    let decision = recovery_decision(kind, false, false, true, findings_of(kind, after));
    decision is Ok && decision->Ok_0.action != PlanActionV1::Blocked
}

pub proof fn lemma_first_changes(
    files: Map<PathRole, FileView>,
    changes: Seq<ExecutionChange>,
    count: nat,
    content: PreparedView,
    mode: Option<u32>,
)
    ensures
        count == 0 ==> after_execution(files, changes, count, content, mode) == files,
        count == 1 ==> after_execution(files, changes, count, content, mode)
            == after_execution_change(files, changes[0], content, mode),
        count == 2 ==> after_execution(files, changes, count, content, mode)
            == after_execution_change(
            after_execution_change(files, changes[0], content, mode),
            changes[1],
            content,
            mode,
        ),
        count == 3 ==> after_execution(files, changes, count, content, mode)
            == after_execution_change(
            after_execution_change(
                after_execution_change(files, changes[0], content, mode),
                changes[1],
                content,
                mode,
            ),
            changes[2],
            content,
            mode,
        ),
        count == 4 ==> after_execution(files, changes, count, content, mode)
            == after_execution_change(
            after_execution_change(
                after_execution_change(
                    after_execution_change(files, changes[0], content, mode),
                    changes[1],
                    content,
                    mode,
                ),
                changes[2],
                content,
                mode,
            ),
            changes[3],
            content,
            mode,
        ),
{
    if count >= 1 {
        assert(after_execution(files, changes, 0, content, mode) == files);
    }
    if count >= 2 {
        assert(after_execution(files, changes, 1, content, mode) == after_execution_change(
            files,
            changes[0],
            content,
            mode,
        ));
    }
    if count >= 3 {
        assert(after_execution(files, changes, 2, content, mode) == after_execution_change(
            after_execution_change(files, changes[0], content, mode),
            changes[1],
            content,
            mode,
        ));
    }
    if count >= 4 {
        assert(after_execution(files, changes, 3, content, mode) == after_execution_change(
            after_execution_change(
                after_execution_change(files, changes[0], content, mode),
                changes[1],
                content,
                mode,
            ),
            changes[2],
            content,
            mode,
        ));
    }
}

proof fn lemma_unmanaged_has_no_key(members: Map<Seq<char>, Seq<u8>>, keys: Seq<Seq<char>>)
    ensures
        has_no_key(unmanaged_members(members, keys), keys),
{
    assert forall|i: int| 0 <= i < keys.len() implies !unmanaged_members(
        members,
        keys,
    ).contains_key(#[trigger] keys[i]) by {
        assert(name_set(keys).contains(keys[i]));
    }
}

proof fn lemma_interrupted_creation(
    entries: Seq<AppEntryView>,
    action: DeclarativeActionV1,
    files: Map<PathRole, FileView>,
    content: Seq<u8>,
    mode: Option<u32>,
    count: nat,
)
    requires
        action.kind is CreateManagedFile,
        is_interrupted(entries, action, files, content, mode, count),
    ensures
        can_be_undone_after(action.kind, files, content, mode, count),
{
    let kind = action.kind;
    let guards = guards_of(entries, action)->Ok_0;
    let changes = changes_of(kind);
    let written = prepared_content(kind, content, starting_content(kind, files))->Ok_0;
    let after = after_execution(files, changes, count, written, mode);
    let found = findings_of(kind, after);
    lemma_first_changes(files, changes, count, written, mode);
    assert(guard_verdict(kind, guards[0], files[PathRole::Destination]) is Ok);
    assert(found[0] == after[PathRole::Destination]);
}

proof fn lemma_interrupted_backup_creation(
    entries: Seq<AppEntryView>,
    action: DeclarativeActionV1,
    files: Map<PathRole, FileView>,
    content: Seq<u8>,
    mode: Option<u32>,
    count: nat,
)
    requires
        action.kind is CreateManagedFileWithBackup,
        is_interrupted(entries, action, files, content, mode, count),
    ensures
        can_be_undone_after(action.kind, files, content, mode, count),
{
    let kind = action.kind;
    let guards = guards_of(entries, action)->Ok_0;
    let changes = changes_of(kind);
    let written = prepared_content(kind, content, starting_content(kind, files))->Ok_0;
    let after = after_execution(files, changes, count, written, mode);
    let found = findings_of(kind, after);
    lemma_first_changes(files, changes, count, written, mode);
    assert(guard_verdict(kind, guards[0], files[PathRole::Destination]) is Ok);
    assert(guard_verdict(kind, guards[1], files[PathRole::Backup]) is Ok);
    assert(found[0] == after[PathRole::Destination]);
    assert(found[1] == after[PathRole::Backup]);
}

proof fn lemma_interrupted_update(
    entries: Seq<AppEntryView>,
    action: DeclarativeActionV1,
    files: Map<PathRole, FileView>,
    content: Seq<u8>,
    mode: Option<u32>,
    count: nat,
)
    requires
        action.kind is UpdateManagedFile,
        is_interrupted(entries, action, files, content, mode, count),
    ensures
        can_be_undone_after(action.kind, files, content, mode, count),
{
    let kind = action.kind;
    let guards = guards_of(entries, action)->Ok_0;
    let changes = changes_of(kind);
    let written = prepared_content(kind, content, starting_content(kind, files))->Ok_0;
    let after = after_execution(files, changes, count, written, mode);
    let found = findings_of(kind, after);
    lemma_first_changes(files, changes, count, written, mode);
    assert(guard_verdict(kind, guards[0], files[PathRole::Destination]) is Ok);
    assert(guard_verdict(kind, guards[1], files[PathRole::Rollback]) is Ok);
    assert(found[0] == after[PathRole::Destination]);
    assert(found[1] == after[PathRole::Rollback]);
}

proof fn lemma_interrupted_relocation(
    entries: Seq<AppEntryView>,
    action: DeclarativeActionV1,
    files: Map<PathRole, FileView>,
    content: Seq<u8>,
    mode: Option<u32>,
    count: nat,
)
    requires
        action.kind is RelocateManagedFile,
        is_interrupted(entries, action, files, content, mode, count),
    ensures
        can_be_undone_after(action.kind, files, content, mode, count),
{
    let kind = action.kind;
    let guards = guards_of(entries, action)->Ok_0;
    let changes = changes_of(kind);
    let written = prepared_content(kind, content, starting_content(kind, files))->Ok_0;
    let after = after_execution(files, changes, count, written, mode);
    let found = findings_of(kind, after);
    lemma_first_changes(files, changes, count, written, mode);
    assert(guard_verdict(kind, guards[0], files[PathRole::PreviousRollback]) is Ok);
    assert(guard_verdict(kind, guards[1], files[PathRole::DesiredDestination]) is Ok);
    assert(guard_verdict(kind, guards[2], files[PathRole::PreviousDestination]) is Ok);
    assert(found[0] == after[PathRole::PreviousDestination]);
    assert(found[1] == after[PathRole::PreviousRollback]);
    assert(found[2] == after[PathRole::DesiredDestination]);
    if let ActionKindV1::RelocateManagedFile { previous_backup, .. } = kind {
        if previous_backup is Some {
            assert(guard_verdict(kind, guards[3], files[guarded_role(guards[3])]) is Ok);
            assert(guard_verdict(kind, guards[3], files[PathRole::PreviousBackup]) is Ok);
            assert(found[3] == after[PathRole::PreviousBackup]);
        }
    }
}

proof fn lemma_interrupted_removal(
    entries: Seq<AppEntryView>,
    action: DeclarativeActionV1,
    files: Map<PathRole, FileView>,
    content: Seq<u8>,
    mode: Option<u32>,
    count: nat,
)
    requires
        action.kind is RemoveManagedFile,
        is_interrupted(entries, action, files, content, mode, count),
    ensures
        can_be_undone_after(action.kind, files, content, mode, count),
{
    let kind = action.kind;
    let guards = guards_of(entries, action)->Ok_0;
    let changes = changes_of(kind);
    let written = prepared_content(kind, content, starting_content(kind, files))->Ok_0;
    let after = after_execution(files, changes, count, written, mode);
    let found = findings_of(kind, after);
    lemma_first_changes(files, changes, count, written, mode);
    assert(guard_verdict(kind, guards[0], files[PathRole::Destination]) is Ok);
    assert(guard_verdict(kind, guards[1], files[PathRole::Rollback]) is Ok);
    assert(found[0] == after[PathRole::Destination]);
    assert(found[1] == after[PathRole::Rollback]);
}

proof fn lemma_interrupted_backup_removal(
    entries: Seq<AppEntryView>,
    action: DeclarativeActionV1,
    files: Map<PathRole, FileView>,
    content: Seq<u8>,
    mode: Option<u32>,
    count: nat,
)
    requires
        action.kind is RemoveManagedFileWithBackup,
        is_interrupted(entries, action, files, content, mode, count),
    ensures
        can_be_undone_after(action.kind, files, content, mode, count),
{
    let kind = action.kind;
    let guards = guards_of(entries, action)->Ok_0;
    let changes = changes_of(kind);
    let written = prepared_content(kind, content, starting_content(kind, files))->Ok_0;
    let after = after_execution(files, changes, count, written, mode);
    let found = findings_of(kind, after);
    lemma_first_changes(files, changes, count, written, mode);
    assert(guard_verdict(kind, guards[0], files[PathRole::Destination]) is Ok);
    assert(guard_verdict(kind, guards[1], files[PathRole::Rollback]) is Ok);
    assert(guard_verdict(kind, guards[2], files[guarded_role(guards[2])]) is Ok);
    assert(guard_verdict(kind, guards[2], files[PathRole::Backup]) is Ok);
    assert(found[0] == after[PathRole::Destination]);
    assert(found[1] == after[PathRole::Backup]);
    assert(found[2] == after[PathRole::Rollback]);
}

proof fn lemma_interrupted_forced_removal(
    entries: Seq<AppEntryView>,
    action: DeclarativeActionV1,
    files: Map<PathRole, FileView>,
    content: Seq<u8>,
    mode: Option<u32>,
    count: nat,
)
    requires
        action.kind is ForceRemoveManagedFile,
        is_interrupted(entries, action, files, content, mode, count),
    ensures
        can_be_undone_after(action.kind, files, content, mode, count),
{
    let kind = action.kind;
    let guards = guards_of(entries, action)->Ok_0;
    let changes = changes_of(kind);
    let written = prepared_content(kind, content, starting_content(kind, files))->Ok_0;
    let after = after_execution(files, changes, count, written, mode);
    let found = findings_of(kind, after);
    lemma_first_changes(files, changes, count, written, mode);
    assert(guard_verdict(kind, guards[0], files[PathRole::Destination]) is Ok);
    assert(guard_verdict(kind, guards[1], files[PathRole::Rollback]) is Ok);
    assert(found[0] == after[PathRole::Destination]);
    assert(found[1] == after[PathRole::Rollback]);
    if let ActionKindV1::ForceRemoveManagedFile { persistent_backup, .. } = kind {
        if persistent_backup is Some {
            assert(guard_verdict(kind, guards[2], files[guarded_role(guards[2])]) is Ok);
            assert(guard_verdict(kind, guards[2], files[PathRole::Backup]) is Ok);
            assert(found[2] == after[PathRole::Backup]);
        }
    }
}

proof fn lemma_interrupted_merge(
    entries: Seq<AppEntryView>,
    action: DeclarativeActionV1,
    files: Map<PathRole, FileView>,
    content: Seq<u8>,
    mode: Option<u32>,
    count: nat,
)
    requires
        action.kind is MergeManagedJson,
        is_interrupted(entries, action, files, content, mode, count),
    ensures
        can_be_undone_after(action.kind, files, content, mode, count),
{
    let kind = action.kind;
    let guards = guards_of(entries, action)->Ok_0;
    let changes = changes_of(kind);
    let start = starting_content(kind, files);
    let written = prepared_content(kind, content, start)->Ok_0;
    let after = after_execution(files, changes, count, written, mode);
    let found = findings_of(kind, after);
    lemma_first_changes(files, changes, count, written, mode);
    assert(guard_verdict(kind, guards[0], files[PathRole::Rollback]) is Ok);
    assert(guard_verdict(kind, guards[1], files[PathRole::Destination]) is Ok);
    assert(found[0] == after[PathRole::Destination]);
    assert(found[1] == after[PathRole::Rollback]);
    if let ActionKindV1::MergeManagedJson { managed_keys, .. } = kind {
        let keys = texts(managed_keys@);
        if keys.len() > 0 {
            law_merged_keys_are_found(start, content, keys);
        }
    }
}

proof fn lemma_interrupted_json_removal(
    entries: Seq<AppEntryView>,
    action: DeclarativeActionV1,
    files: Map<PathRole, FileView>,
    content: Seq<u8>,
    mode: Option<u32>,
    count: nat,
)
    requires
        action.kind is RemoveManagedJson,
        is_interrupted(entries, action, files, content, mode, count),
    ensures
        can_be_undone_after(action.kind, files, content, mode, count),
{
    let kind = action.kind;
    let guards = guards_of(entries, action)->Ok_0;
    let changes = changes_of(kind);
    let start = starting_content(kind, files);
    let written = prepared_content(kind, content, start)->Ok_0;
    let after = after_execution(files, changes, count, written, mode);
    let found = findings_of(kind, after);
    lemma_first_changes(files, changes, count, written, mode);
    assert(guard_verdict(kind, guards[0], files[PathRole::Rollback]) is Ok);
    assert(guard_verdict(kind, guards[1], files[PathRole::Destination]) is Ok);
    assert(found[0] == after[PathRole::Destination]);
    assert(found[1] == after[PathRole::Rollback]);
    if let ActionKindV1::RemoveManagedJson { managed_keys, .. } = kind {
        lemma_unmanaged_has_no_key(json_object(start->0)->0, texts(managed_keys@));
    }
}

proof fn lemma_interrupted_json_relocation(
    entries: Seq<AppEntryView>,
    action: DeclarativeActionV1,
    files: Map<PathRole, FileView>,
    content: Seq<u8>,
    mode: Option<u32>,
    count: nat,
)
    requires
        action.kind is RelocateManagedJson,
        is_interrupted(entries, action, files, content, mode, count),
    ensures
        can_be_undone_after(action.kind, files, content, mode, count),
{
    let kind = action.kind;
    let guards = guards_of(entries, action)->Ok_0;
    let changes = changes_of(kind);
    let start = starting_content(kind, files);
    let written = prepared_content(kind, content, start)->Ok_0;
    let after = after_execution(files, changes, count, written, mode);
    let found = findings_of(kind, after);
    lemma_first_changes(files, changes, count, written, mode);
    assert(guard_verdict(kind, guards[0], files[PathRole::PreviousRollback]) is Ok);
    assert(guard_verdict(kind, guards[1], files[PathRole::DesiredDestination]) is Ok);
    assert(guard_verdict(kind, guards[2], files[guarded_role(guards[2])]) is Ok);
    assert(guard_verdict(kind, guards[2], files[PathRole::PreviousDestination]) is Ok);
    assert(found[0] == after[PathRole::PreviousDestination]);
    assert(found[1] == after[PathRole::PreviousRollback]);
    assert(found[2] == after[PathRole::DesiredDestination]);
    if let ActionKindV1::RelocateManagedJson {
        previous_managed_keys,
        desired_managed_keys,
        previous_present,
        ..
    } = kind {
        let keys = texts(desired_managed_keys@);
        if keys.len() > 0 {
            law_merged_keys_are_found(None, content, keys);
        }
        if previous_present {
            lemma_unmanaged_has_no_key(json_object(start->0)->0, texts(previous_managed_keys@));
        }
    }
}

/// An operation that was let through can be undone from every point at which it may
/// be interrupted: recovery never finds itself blocked.
pub proof fn law_interruption_can_be_undone(
    entries: Seq<AppEntryView>,
    action: DeclarativeActionV1,
    files: Map<PathRole, FileView>,
    content: Seq<u8>,
    mode: Option<u32>,
    count: nat,
)
    requires
        is_interrupted(entries, action, files, content, mode, count),
    ensures
        can_be_undone_after(action.kind, files, content, mode, count),
{
    match action.kind {
        ActionKindV1::CreateManagedFile { .. } => {
            lemma_interrupted_creation(entries, action, files, content, mode, count);
        },
        ActionKindV1::CreateManagedFileWithBackup { .. } => {
            lemma_interrupted_backup_creation(entries, action, files, content, mode, count);
        },
        ActionKindV1::UpdateManagedFile { .. } => {
            lemma_interrupted_update(entries, action, files, content, mode, count);
        },
        ActionKindV1::RelocateManagedFile { .. } => {
            lemma_interrupted_relocation(entries, action, files, content, mode, count);
        },
        ActionKindV1::RemoveManagedFile { .. } => {
            lemma_interrupted_removal(entries, action, files, content, mode, count);
        },
        ActionKindV1::RemoveManagedFileWithBackup { .. } => {
            lemma_interrupted_backup_removal(entries, action, files, content, mode, count);
        },
        ActionKindV1::ForceRemoveManagedFile { .. } => {
            lemma_interrupted_forced_removal(entries, action, files, content, mode, count);
        },
        ActionKindV1::MergeManagedJson { .. } => {
            lemma_interrupted_merge(entries, action, files, content, mode, count);
        },
        ActionKindV1::RemoveManagedJson { .. } => {
            lemma_interrupted_json_removal(entries, action, files, content, mode, count);
        },
        ActionKindV1::RelocateManagedJson { .. } => {
            lemma_interrupted_json_relocation(entries, action, files, content, mode, count);
        },
        ActionKindV1::Foreign(_) => {},
    }
}

/// Whether recovery does nothing but clear rollback material.
pub open spec fn only_clears_rollback(decision: DecisionView) -> bool {
    &&& decision.action == PlanActionV1::Nothing || decision.action == PlanActionV1::Remove
    &&& !decision.restores_receipt
    &&& forall|i: int|
        0 <= i < decision.needs.len() ==> #[trigger] decision.needs[i] == removes(
            PathRole::Rollback,
        ) || decision.needs[i] == removes(PathRole::PreviousRollback)
}

/// Whether a relocation of managed keys has any.
pub open spec fn has_keys(kind: ActionKindV1) -> bool {
    match kind {
        ActionKindV1::RelocateManagedJson { desired_managed_keys, .. } => desired_managed_keys@.len()
            > 0,
        _ => true,
    }
}

/// Whether an operation that was carried out to its end can be committed.
pub open spec fn can_be_committed(
    kind: ActionKindV1,
    files: Map<PathRole, FileView>,
    content: Seq<u8>,
    mode: Option<u32>,
) -> bool {
    let written = prepared_content(kind, content, starting_content(kind, files))->Ok_0;
    let changes = changes_of(kind);
    let after = after_execution(files, changes, changes.len(), written, mode);
    commit_decision(kind, commit_roles(kind).map_values(|role: PathRole| after[role])) is Ok
}

/// Whether recovery keeps an operation that was carried out to its end and whose
/// receipts were settled.
pub open spec fn is_kept(
    kind: ActionKindV1,
    files: Map<PathRole, FileView>,
    content: Seq<u8>,
    mode: Option<u32>,
) -> bool {
    let written = prepared_content(kind, content, starting_content(kind, files))->Ok_0;
    let changes = changes_of(kind);
    let after = after_execution(files, changes, changes.len(), written, mode);
    let removed = removes_managed(kind);
    let decision = recovery_decision(kind, removed, !removed, false, findings_of(kind, after));
    decision is Ok && only_clears_rollback(decision->Ok_0)
}

proof fn lemma_kept_creation(
    entries: Seq<AppEntryView>,
    action: DeclarativeActionV1,
    files: Map<PathRole, FileView>,
    content: Seq<u8>,
    mode: Option<u32>,
)
    requires
        action.kind is CreateManagedFile,
        has_keys(action.kind),
        is_interrupted(entries, action, files, content, mode, changes_of(action.kind).len()),
    ensures
        is_kept(action.kind, files, content, mode),
        can_be_committed(action.kind, files, content, mode),
{
    let kind = action.kind;
    let guards = guards_of(entries, action)->Ok_0;
    let changes = changes_of(kind);
    let written = prepared_content(kind, content, starting_content(kind, files))->Ok_0;
    let after = after_execution(files, changes, changes.len(), written, mode);
    let found = findings_of(kind, after);
    lemma_first_changes(files, changes, changes.len(), written, mode);
    assert(found[0] == after[PathRole::Destination]);
}

proof fn lemma_kept_backup_creation(
    entries: Seq<AppEntryView>,
    action: DeclarativeActionV1,
    files: Map<PathRole, FileView>,
    content: Seq<u8>,
    mode: Option<u32>,
)
    requires
        action.kind is CreateManagedFileWithBackup,
        has_keys(action.kind),
        is_interrupted(entries, action, files, content, mode, changes_of(action.kind).len()),
    ensures
        is_kept(action.kind, files, content, mode),
        can_be_committed(action.kind, files, content, mode),
{
    let kind = action.kind;
    let guards = guards_of(entries, action)->Ok_0;
    let changes = changes_of(kind);
    let written = prepared_content(kind, content, starting_content(kind, files))->Ok_0;
    let after = after_execution(files, changes, changes.len(), written, mode);
    let found = findings_of(kind, after);
    lemma_first_changes(files, changes, changes.len(), written, mode);
    assert(found[0] == after[PathRole::Destination]);
    assert(found[1] == after[PathRole::Backup]);
}

proof fn lemma_kept_update(
    entries: Seq<AppEntryView>,
    action: DeclarativeActionV1,
    files: Map<PathRole, FileView>,
    content: Seq<u8>,
    mode: Option<u32>,
)
    requires
        action.kind is UpdateManagedFile,
        has_keys(action.kind),
        is_interrupted(entries, action, files, content, mode, changes_of(action.kind).len()),
    ensures
        is_kept(action.kind, files, content, mode),
        can_be_committed(action.kind, files, content, mode),
{
    let kind = action.kind;
    let guards = guards_of(entries, action)->Ok_0;
    let changes = changes_of(kind);
    let written = prepared_content(kind, content, starting_content(kind, files))->Ok_0;
    let after = after_execution(files, changes, changes.len(), written, mode);
    let found = findings_of(kind, after);
    lemma_first_changes(files, changes, changes.len(), written, mode);
    let held = commit_roles(kind).map_values(|role: PathRole| after[role]);
    assert(held[0] == after[PathRole::Rollback]);
    assert(guard_verdict(kind, guards[0], files[PathRole::Destination]) is Ok);
    assert(found[0] == after[PathRole::Destination]);
    assert(found[1] == after[PathRole::Rollback]);
}

proof fn lemma_kept_relocation(
    entries: Seq<AppEntryView>,
    action: DeclarativeActionV1,
    files: Map<PathRole, FileView>,
    content: Seq<u8>,
    mode: Option<u32>,
)
    requires
        action.kind is RelocateManagedFile,
        has_keys(action.kind),
        is_interrupted(entries, action, files, content, mode, changes_of(action.kind).len()),
    ensures
        is_kept(action.kind, files, content, mode),
        can_be_committed(action.kind, files, content, mode),
{
    let kind = action.kind;
    let guards = guards_of(entries, action)->Ok_0;
    let changes = changes_of(kind);
    let written = prepared_content(kind, content, starting_content(kind, files))->Ok_0;
    let after = after_execution(files, changes, changes.len(), written, mode);
    let found = findings_of(kind, after);
    lemma_first_changes(files, changes, changes.len(), written, mode);
    let held = commit_roles(kind).map_values(|role: PathRole| after[role]);
    assert(commit_roles(kind).len() > 0 ==> held[0] == after[PathRole::PreviousRollback]);
    if let ActionKindV1::RelocateManagedFile { previous_backup, .. } = kind {
        assert(guard_verdict(kind, guards[0], files[PathRole::PreviousRollback]) is Ok);
        assert(guard_verdict(kind, guards[1], files[PathRole::DesiredDestination]) is Ok);
        assert(guard_verdict(kind, guards[2], files[guarded_role(guards[2])]) is Ok);
        assert(guard_verdict(kind, guards[2], files[PathRole::PreviousDestination]) is Ok);
        assert(found[0] == after[PathRole::PreviousDestination]);
        assert(found[1] == after[PathRole::PreviousRollback]);
        assert(found[2] == after[PathRole::DesiredDestination]);
        if previous_backup is Some {
            assert(guard_verdict(kind, guards[3], files[guarded_role(guards[3])]) is Ok);
            assert(guard_verdict(kind, guards[3], files[PathRole::PreviousBackup]) is Ok);
            assert(found[3] == after[PathRole::PreviousBackup]);
        }
    }
}

proof fn lemma_kept_removal(
    entries: Seq<AppEntryView>,
    action: DeclarativeActionV1,
    files: Map<PathRole, FileView>,
    content: Seq<u8>,
    mode: Option<u32>,
)
    requires
        action.kind is RemoveManagedFile,
        has_keys(action.kind),
        is_interrupted(entries, action, files, content, mode, changes_of(action.kind).len()),
    ensures
        is_kept(action.kind, files, content, mode),
        can_be_committed(action.kind, files, content, mode),
{
    let kind = action.kind;
    let guards = guards_of(entries, action)->Ok_0;
    let changes = changes_of(kind);
    let written = prepared_content(kind, content, starting_content(kind, files))->Ok_0;
    let after = after_execution(files, changes, changes.len(), written, mode);
    let found = findings_of(kind, after);
    lemma_first_changes(files, changes, changes.len(), written, mode);
    let held = commit_roles(kind).map_values(|role: PathRole| after[role]);
    assert(held[0] == after[PathRole::Destination]);
    assert(held[1] == after[PathRole::Rollback]);
    assert(guard_verdict(kind, guards[0], files[PathRole::Destination]) is Ok);
    assert(found[0] == after[PathRole::Destination]);
    assert(found[1] == after[PathRole::Rollback]);
}

proof fn lemma_kept_backup_removal(
    entries: Seq<AppEntryView>,
    action: DeclarativeActionV1,
    files: Map<PathRole, FileView>,
    content: Seq<u8>,
    mode: Option<u32>,
)
    requires
        action.kind is RemoveManagedFileWithBackup,
        has_keys(action.kind),
        is_interrupted(entries, action, files, content, mode, changes_of(action.kind).len()),
    ensures
        is_kept(action.kind, files, content, mode),
        can_be_committed(action.kind, files, content, mode),
{
    let kind = action.kind;
    let guards = guards_of(entries, action)->Ok_0;
    let changes = changes_of(kind);
    let written = prepared_content(kind, content, starting_content(kind, files))->Ok_0;
    let after = after_execution(files, changes, changes.len(), written, mode);
    let found = findings_of(kind, after);
    lemma_first_changes(files, changes, changes.len(), written, mode);
    let held = commit_roles(kind).map_values(|role: PathRole| after[role]);
    assert(held[0] == after[PathRole::Destination]);
    assert(held[1] == after[PathRole::Backup]);
    assert(held[2] == after[PathRole::Rollback]);
    assert(guard_verdict(kind, guards[0], files[PathRole::Destination]) is Ok);
    assert(guard_verdict(kind, guards[2], files[guarded_role(guards[2])]) is Ok);
    assert(guard_verdict(kind, guards[2], files[PathRole::Backup]) is Ok);
    assert(found[0] == after[PathRole::Destination]);
    assert(found[1] == after[PathRole::Backup]);
    assert(found[2] == after[PathRole::Rollback]);
}

proof fn lemma_kept_forced_removal(
    entries: Seq<AppEntryView>,
    action: DeclarativeActionV1,
    files: Map<PathRole, FileView>,
    content: Seq<u8>,
    mode: Option<u32>,
)
    requires
        action.kind is ForceRemoveManagedFile,
        has_keys(action.kind),
        is_interrupted(entries, action, files, content, mode, changes_of(action.kind).len()),
    ensures
        is_kept(action.kind, files, content, mode),
        can_be_committed(action.kind, files, content, mode),
{
    let kind = action.kind;
    let guards = guards_of(entries, action)->Ok_0;
    let changes = changes_of(kind);
    let written = prepared_content(kind, content, starting_content(kind, files))->Ok_0;
    let after = after_execution(files, changes, changes.len(), written, mode);
    let found = findings_of(kind, after);
    lemma_first_changes(files, changes, changes.len(), written, mode);
    let held = commit_roles(kind).map_values(|role: PathRole| after[role]);
    assert(held[0] == after[PathRole::Destination]);
    assert(held[1] == after[PathRole::Rollback]);
    assert(held.len() > 2 ==> held[2] == after[PathRole::Backup]);
    if let ActionKindV1::ForceRemoveManagedFile { persistent_backup, .. } = kind {
        assert(guard_verdict(kind, guards[0], files[PathRole::Destination]) is Ok);
        assert(found[0] == after[PathRole::Destination]);
        assert(found[1] == after[PathRole::Rollback]);
        if persistent_backup is Some {
            assert(guard_verdict(kind, guards[2], files[guarded_role(guards[2])]) is Ok);
            assert(guard_verdict(kind, guards[2], files[PathRole::Backup]) is Ok);
            assert(found[2] == after[PathRole::Backup]);
        }
    }
}

proof fn lemma_kept_merge(
    entries: Seq<AppEntryView>,
    action: DeclarativeActionV1,
    files: Map<PathRole, FileView>,
    content: Seq<u8>,
    mode: Option<u32>,
)
    requires
        action.kind is MergeManagedJson,
        has_keys(action.kind),
        is_interrupted(entries, action, files, content, mode, changes_of(action.kind).len()),
    ensures
        is_kept(action.kind, files, content, mode),
        can_be_committed(action.kind, files, content, mode),
{
    let kind = action.kind;
    let guards = guards_of(entries, action)->Ok_0;
    let changes = changes_of(kind);
    let written = prepared_content(kind, content, starting_content(kind, files))->Ok_0;
    let after = after_execution(files, changes, changes.len(), written, mode);
    let found = findings_of(kind, after);
    lemma_first_changes(files, changes, changes.len(), written, mode);
    let held = commit_roles(kind).map_values(|role: PathRole| after[role]);
    assert(held[0] == after[PathRole::Rollback]);
    assert(guard_verdict(kind, guards[0], files[PathRole::Rollback]) is Ok);
    assert(guard_verdict(kind, guards[1], files[PathRole::Destination]) is Ok);
    assert(found[1] == after[PathRole::Rollback]);
}

proof fn lemma_kept_json_removal(
    entries: Seq<AppEntryView>,
    action: DeclarativeActionV1,
    files: Map<PathRole, FileView>,
    content: Seq<u8>,
    mode: Option<u32>,
)
    requires
        action.kind is RemoveManagedJson,
        has_keys(action.kind),
        is_interrupted(entries, action, files, content, mode, changes_of(action.kind).len()),
    ensures
        is_kept(action.kind, files, content, mode),
        can_be_committed(action.kind, files, content, mode),
{
    let kind = action.kind;
    let guards = guards_of(entries, action)->Ok_0;
    let changes = changes_of(kind);
    let written = prepared_content(kind, content, starting_content(kind, files))->Ok_0;
    let after = after_execution(files, changes, changes.len(), written, mode);
    let found = findings_of(kind, after);
    lemma_first_changes(files, changes, changes.len(), written, mode);
    let held = commit_roles(kind).map_values(|role: PathRole| after[role]);
    assert(held[0] == after[PathRole::Rollback]);
    assert(guard_verdict(kind, guards[1], files[PathRole::Destination]) is Ok);
    assert(found[1] == after[PathRole::Rollback]);
}

proof fn lemma_kept_json_relocation(
    entries: Seq<AppEntryView>,
    action: DeclarativeActionV1,
    files: Map<PathRole, FileView>,
    content: Seq<u8>,
    mode: Option<u32>,
)
    requires
        action.kind is RelocateManagedJson,
        has_keys(action.kind),
        is_interrupted(entries, action, files, content, mode, changes_of(action.kind).len()),
    ensures
        is_kept(action.kind, files, content, mode),
        can_be_committed(action.kind, files, content, mode),
{
    let kind = action.kind;
    let guards = guards_of(entries, action)->Ok_0;
    let changes = changes_of(kind);
    let written = prepared_content(kind, content, starting_content(kind, files))->Ok_0;
    let after = after_execution(files, changes, changes.len(), written, mode);
    let found = findings_of(kind, after);
    lemma_first_changes(files, changes, changes.len(), written, mode);
    let held = commit_roles(kind).map_values(|role: PathRole| after[role]);
    assert(held[0] == after[PathRole::PreviousDestination]);
    assert(held[1] == after[PathRole::PreviousRollback]);
    assert(held[2] == after[PathRole::DesiredDestination]);
    if let ActionKindV1::RelocateManagedJson { desired_managed_keys, .. } = kind {
        assert(guard_verdict(kind, guards[0], files[PathRole::PreviousRollback]) is Ok);
        assert(guard_verdict(kind, guards[2], files[guarded_role(guards[2])]) is Ok);
        assert(guard_verdict(kind, guards[2], files[PathRole::PreviousDestination]) is Ok);
        assert(found[1] == after[PathRole::PreviousRollback]);
        assert(found[2] == after[PathRole::DesiredDestination]);
        let keys = texts(desired_managed_keys@);
        if keys.len() > 0 {
            law_merged_keys_are_found(None, content, keys);
        }
    }
}

/// An operation that was carried out to its end can be committed. Once its receipts
/// were settled it is kept: recovery clears what is left of its rollback material and
/// undoes nothing.
pub proof fn law_settled_operation_is_kept(
    entries: Seq<AppEntryView>,
    action: DeclarativeActionV1,
    files: Map<PathRole, FileView>,
    content: Seq<u8>,
    mode: Option<u32>,
)
    requires
        has_keys(action.kind),
        is_interrupted(entries, action, files, content, mode, changes_of(action.kind).len()),
    ensures
        is_kept(action.kind, files, content, mode),
        can_be_committed(action.kind, files, content, mode),
{
    match action.kind {
        ActionKindV1::CreateManagedFile { .. } => {
            lemma_kept_creation(entries, action, files, content, mode);
        },
        ActionKindV1::CreateManagedFileWithBackup { .. } => {
            lemma_kept_backup_creation(entries, action, files, content, mode);
        },
        ActionKindV1::UpdateManagedFile { .. } => {
            lemma_kept_update(entries, action, files, content, mode);
        },
        ActionKindV1::RelocateManagedFile { .. } => {
            lemma_kept_relocation(entries, action, files, content, mode);
        },
        ActionKindV1::RemoveManagedFile { .. } => {
            lemma_kept_removal(entries, action, files, content, mode);
        },
        ActionKindV1::RemoveManagedFileWithBackup { .. } => {
            lemma_kept_backup_removal(entries, action, files, content, mode);
        },
        ActionKindV1::ForceRemoveManagedFile { .. } => {
            lemma_kept_forced_removal(entries, action, files, content, mode);
        },
        ActionKindV1::MergeManagedJson { .. } => {
            lemma_kept_merge(entries, action, files, content, mode);
        },
        ActionKindV1::RemoveManagedJson { .. } => {
            lemma_kept_json_removal(entries, action, files, content, mode);
        },
        ActionKindV1::RelocateManagedJson { .. } => {
            lemma_kept_json_relocation(entries, action, files, content, mode);
        },
        ActionKindV1::Foreign(_) => {},
    }
}

} // verus!
