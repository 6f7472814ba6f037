//! What an interrupted operation on whole files leaves on a disk once it is undone.
//!
//! A disk holds a file, or nothing, at each path; two texts with the same components
//! are the same path. The steps of an operation and those of its recovery are followed
//! on it, one by one.

use vstd::prelude::*;
use vstd::string::*;

use crate::action::{ActionKindV1, DeclarativeActionV1, PathRole};
use crate::context::RuntimeContext;
use crate::execution::{changes_of, guard_verdict, guards_of, ExecutionChange};
use crate::execution_laws::{
    after_execution, after_execution_change, guarded_role, guards_hold, is_interrupted,
    starting_content,
};
use crate::execution_run::{execution_step_views, prepared_content, step_of_change, PreparedView};
use crate::journal::AppOperationJournalV1;
use crate::lexical::replaced;
use crate::manifest::{backup_suffix, rollback_suffix, AppEntryView};
use crate::path::{
    behind_drive, has_drive, is_rooted, is_slash, keeps_name, kept_names, path_components,
    path_head, same_path, starts_at_drive_root, starts_at_share, style_of, PathStyle,
};
use crate::plan::{DigestView, PLAN_APPROVAL_SCHEMA_VERSION, PlanApprovalV1, PlanV1};
use crate::receipts::{previous_receipt_matches, receipt_matches};
use crate::recovery::FileView;
use crate::recovery_apply::{rollback_of, RecoveryMutation};
use crate::recovery_laws::{after_change, after_changes, findings_of, is_whole_file};
use crate::recovery_machine::{
    gives, recovery_planner_of, RecoveryDemand, RecoveryPhase, RecoveryRunView,
};
use crate::recovery_plan::observed_roles;
use crate::recovery_planner::{is_plan_of, is_receipt_committed, role_or_empty};
use crate::recovery_run::{steps_of, steps_of_all, HostStepView};
use crate::restoration_laws::{
    found_after_interruption, law_interrupted_operation_is_recovered,
    law_interrupted_whole_files_are_restored,
};
use crate::text::{lemma_pieces_nonempty, pieces};

verus! {

/// What a disk holds, by the components of paths.
pub type PathDisk = Map<Seq<Seq<char>>, FileView>;

/// What a disk holds at a path.
pub open spec fn held_at(disk: PathDisk, path: Seq<char>) -> FileView {
    disk[path_components(path)]
}

/// A disk with something else at a path.
pub open spec fn put_at(disk: PathDisk, path: Seq<char>, file: FileView) -> PathDisk {
    disk.insert(path_components(path), file)
}

/// A disk after one step. A file that is written has the mode `mode` until its own is
/// set.
pub open spec fn after_step(disk: PathDisk, step: HostStepView, mode: Option<u32>) -> PathDisk {
    match step {
        HostStepView::RemoveFile { path, .. } => put_at(disk, path, FileView::Missing),
        HostStepView::MoveFile { from, to, .. } => put_at(
            put_at(disk, to, held_at(disk, from)),
            from,
            FileView::Missing,
        ),
        HostStepView::WriteFile { path, content, .. } => put_at(
            disk,
            path,
            FileView::Regular { content, mode },
        ),
        HostStepView::SetMode { path, mode: kept, .. } => match held_at(disk, path) {
            FileView::Regular { content, .. } => put_at(
                disk,
                path,
                FileView::Regular { content, mode: Some(kept) },
            ),
            _ => disk,
        },
        _ => disk,
    }
}

/// A disk after a list of steps.
pub open spec fn after_steps(
    disk: PathDisk,
    steps: Seq<HostStepView>,
    mode: Option<u32>,
) -> PathDisk
    decreases steps.len(),
{
    if steps.len() == 0 {
        disk
    } else {
        after_step(after_steps(disk, steps.drop_last(), mode), steps.last(), mode)
    }
}

/// What a disk holds at the parts of an action.
pub open spec fn seen(kind: ActionKindV1, disk: PathDisk) -> Map<PathRole, FileView> {
    Map::new(|role: PathRole| true, |role: PathRole| held_at(disk, role_or_empty(kind, role)))
}

/// Whether no two parts of an action that are looked at are the same path.
pub open spec fn parts_are_apart(kind: ActionKindV1) -> bool {
    forall|left: PathRole, right: PathRole|
        #![trigger observed_roles(kind).contains(left), observed_roles(kind).contains(right)]
        observed_roles(kind).contains(left) && observed_roles(kind).contains(right) && left
            != right ==> !same_path(role_or_empty(kind, left), role_or_empty(kind, right))
}

/// Whether the parts of an action hold what the disk holds at their paths.
pub open spec fn agrees(
    kind: ActionKindV1,
    files: Map<PathRole, FileView>,
    disk: PathDisk,
) -> bool {
    forall|role: PathRole| #[trigger]
        observed_roles(kind).contains(role) ==> files[role] == held_at(
            disk,
            role_or_empty(kind, role),
        )
}

/// Whether a disk differs from another at paths of the action only.
pub open spec fn differs_at_parts(kind: ActionKindV1, before: PathDisk, after: PathDisk) -> bool {
    forall|path: Seq<char>|
        (forall|role: PathRole| #[trigger]
            observed_roles(kind).contains(role) ==> !same_path(path, role_or_empty(kind, role)))
            ==> #[trigger] held_at(after, path) == held_at(before, path)
}

/// Whether a change is about parts that are looked at.
pub open spec fn change_is_observed(kind: ActionKindV1, change: ExecutionChange) -> bool {
    match change {
        ExecutionChange::Move { from, to, .. } => from != to && observed_roles(kind).contains(from)
            && observed_roles(kind).contains(to),
        ExecutionChange::Write { role, .. } => observed_roles(kind).contains(role),
        ExecutionChange::WriteRemaining { role } => observed_roles(kind).contains(role),
        ExecutionChange::SetMode { role, .. } => observed_roles(kind).contains(role),
    }
}

/// Whether a change of a recovery is about parts that are looked at, and moves or
/// removes a whole file, or puts a receipt back.
pub open spec fn mutation_is_observed(kind: ActionKindV1, mutation: RecoveryMutation) -> bool {
    match mutation {
        RecoveryMutation::Remove { role, .. } => observed_roles(kind).contains(role),
        RecoveryMutation::Move { from, to, .. } => from != to && observed_roles(kind).contains(
            from,
        ) && observed_roles(kind).contains(to),
        RecoveryMutation::RestoreReceipt => true,
        _ => false,
    }
}

proof fn lemma_parts(kind: ActionKindV1)
    requires
        is_whole_file(kind),
    ensures
        ({
            let roles = observed_roles(kind);
            match kind {
                ActionKindV1::CreateManagedFile { .. } => roles.contains(PathRole::Destination),
                ActionKindV1::CreateManagedFileWithBackup { .. } => roles.contains(
                    PathRole::Destination,
                ) && roles.contains(PathRole::Backup),
                ActionKindV1::RelocateManagedFile { previous_backup, .. } => {
                    &&& roles.contains(PathRole::PreviousDestination)
                    &&& roles.contains(PathRole::PreviousRollback)
                    &&& roles.contains(PathRole::DesiredDestination)
                    &&& previous_backup is Some ==> roles.contains(PathRole::PreviousBackup)
                },
                ActionKindV1::RemoveManagedFileWithBackup { .. } => roles.contains(
                    PathRole::Destination,
                ) && roles.contains(PathRole::Rollback) && roles.contains(PathRole::Backup),
                ActionKindV1::ForceRemoveManagedFile { persistent_backup, .. } => {
                    &&& roles.contains(PathRole::Destination)
                    &&& roles.contains(PathRole::Rollback)
                    &&& persistent_backup is Some ==> roles.contains(PathRole::Backup)
                },
                _ => roles.contains(PathRole::Destination) && roles.contains(PathRole::Rollback),
            }
        }),
{
    let roles = observed_roles(kind);
    assert(roles.contains(roles[0]));
    if roles.len() > 1 {
        assert(roles.contains(roles[1]));
    }
    if roles.len() > 2 {
        assert(roles.contains(roles[2]));
    }
    if roles.len() > 3 {
        assert(roles.contains(roles[3]));
    }
}

proof fn lemma_changes_are_observed(kind: ActionKindV1)
    requires
        is_whole_file(kind),
    ensures
        forall|i: int|
            0 <= i < changes_of(kind).len() ==> change_is_observed(
                kind,
                #[trigger] changes_of(kind)[i],
            ),
{
    lemma_parts(kind);
}

proof fn lemma_rollback_is_observed(
    kind: ActionKindV1,
    previous_receipt: bool,
    files: Seq<FileView>,
)
    requires
        is_whole_file(kind),
        rollback_of(kind, false, false, previous_receipt, files) is Ok,
    ensures
        ({
            let mutations = rollback_of(
                kind,
                false,
                false,
                previous_receipt,
                files,
            )->Ok_0.mutations;
            forall|i: int|
                0 <= i < mutations.len() ==> mutation_is_observed(kind, #[trigger] mutations[i])
        }),
{
    lemma_parts(kind);
}

proof fn lemma_change_on_disk(
    kind: ActionKindV1,
    files: Map<PathRole, FileView>,
    disk: PathDisk,
    change: ExecutionChange,
    content: PreparedView,
    mode: Option<u32>,
)
    requires
        parts_are_apart(kind),
        change_is_observed(kind, change),
        agrees(kind, files, disk),
    ensures
        ({
            let after = after_step(disk, step_of_change(kind, change, content), mode);
            &&& agrees(kind, after_execution_change(files, change, content, mode), after)
            &&& differs_at_parts(kind, disk, after)
        }),
{
}

proof fn lemma_mutation_on_disk(
    kind: ActionKindV1,
    found: Seq<FileView>,
    files: Map<PathRole, FileView>,
    disk: PathDisk,
    mutation: RecoveryMutation,
    mode: Option<u32>,
)
    requires
        parts_are_apart(kind),
        mutation_is_observed(kind, mutation),
        agrees(kind, files, disk),
    ensures
        ({
            let steps = steps_of(kind, found, mutation);
            let after = after_step(disk, steps->Ok_0[0], mode);
            &&& steps is Ok
            &&& steps->Ok_0.len() == 1
            &&& agrees(kind, after_change(files, mutation), after)
            &&& differs_at_parts(kind, disk, after)
        }),
{
}

proof fn lemma_execution_on_disk(
    kind: ActionKindV1,
    disk: PathDisk,
    content: PreparedView,
    mode: Option<u32>,
    count: nat,
)
    requires
        is_whole_file(kind),
        parts_are_apart(kind),
        count <= changes_of(kind).len(),
    ensures
        ({
            let after = after_steps(
                disk,
                execution_step_views(kind, content).take(count as int),
                mode,
            );
            &&& agrees(
                kind,
                after_execution(seen(kind, disk), changes_of(kind), count, content, mode),
                after,
            )
            &&& differs_at_parts(kind, disk, after)
        }),
    decreases count,
{
    let steps = execution_step_views(kind, content);
    if count == 0 {
        assert(steps.take(0) =~= Seq::<HostStepView>::empty());
    } else {
        let before = (count - 1) as nat;
        lemma_execution_on_disk(kind, disk, content, mode, before);
        lemma_changes_are_observed(kind);
        assert(steps.take(count as int).drop_last() =~= steps.take(before as int));
        assert(steps.take(count as int).last() == step_of_change(
            kind,
            changes_of(kind)[count - 1],
            content,
        ));
        lemma_change_on_disk(
            kind,
            after_execution(seen(kind, disk), changes_of(kind), before, content, mode),
            after_steps(disk, steps.take(before as int), mode),
            changes_of(kind)[count - 1],
            content,
            mode,
        );
    }
}

proof fn lemma_recovery_on_disk(
    kind: ActionKindV1,
    found: Seq<FileView>,
    files: Map<PathRole, FileView>,
    disk: PathDisk,
    mutations: Seq<RecoveryMutation>,
    mode: Option<u32>,
)
    requires
        parts_are_apart(kind),
        forall|i: int|
            0 <= i < mutations.len() ==> mutation_is_observed(kind, #[trigger] mutations[i]),
        agrees(kind, files, disk),
    ensures
        ({
            let steps = steps_of_all(kind, found, mutations);
            let after = after_steps(disk, steps->Ok_0, mode);
            &&& steps is Ok
            &&& agrees(kind, after_changes(files, mutations), after)
            &&& differs_at_parts(kind, disk, after)
        }),
    decreases mutations.len(),
{
    if mutations.len() > 0 {
        let head = mutations.drop_last();
        assert forall|i: int| 0 <= i < head.len() implies mutation_is_observed(
            kind,
            #[trigger] head[i],
        ) by {
            assert(head[i] == mutations[i]);
        }
        lemma_recovery_on_disk(kind, found, files, disk, head, mode);
        assert(mutation_is_observed(kind, mutations[mutations.len() - 1]));
        let before = steps_of_all(kind, found, head)->Ok_0;
        lemma_mutation_on_disk(
            kind,
            found,
            after_changes(files, head),
            after_steps(disk, before, mode),
            mutations.last(),
            mode,
        );
        let own = steps_of(kind, found, mutations.last())->Ok_0;
        let all = steps_of_all(kind, found, mutations)->Ok_0;
        assert(all == before + own);
        assert(all.drop_last() =~= before);
        assert(all.last() == own[0]);
    }
}

/// What is found on a disk at the parts of an action.
pub open spec fn found_on(kind: ActionKindV1, disk: PathDisk) -> Seq<FileView> {
    observed_roles(kind).map_values(|role: PathRole| held_at(disk, role_or_empty(kind, role)))
}

/// The disk after the first `count` steps of an operation.
pub open spec fn interrupted(
    kind: ActionKindV1,
    disk: PathDisk,
    content: Seq<u8>,
    mode: Option<u32>,
    count: nat,
) -> PathDisk {
    let written = prepared_content(
        kind,
        content,
        starting_content(kind, seen(kind, disk)),
    )->Ok_0;
    after_steps(disk, execution_step_views(kind, written).take(count as int), mode)
}

/// An operation on whole files was let through and interrupted after its first `count`
/// steps; its recovery takes the steps that undo what is found. Then the disk holds at
/// every path what it held before the operation.
pub proof fn law_interrupted_operation_leaves_no_trace(
    entries: Seq<AppEntryView>,
    action: DeclarativeActionV1,
    previous_receipt: bool,
    disk: PathDisk,
    content: Seq<u8>,
    mode: Option<u32>,
    count: nat,
    path: Seq<char>,
)
    requires
        is_whole_file(action.kind),
        parts_are_apart(action.kind),
        is_interrupted(entries, action, seen(action.kind, disk), content, mode, count),
    ensures
        ({
            let kind = action.kind;
            let broken = interrupted(kind, disk, content, mode, count);
            let rollback = rollback_of(
                kind,
                false,
                false,
                previous_receipt,
                found_on(kind, broken),
            );
            let steps = steps_of_all(kind, found_on(kind, broken), rollback->Ok_0.mutations);
            &&& rollback is Ok
            &&& rollback->Ok_0.undone
            &&& steps is Ok
            &&& held_at(after_steps(broken, steps->Ok_0, mode), path) == held_at(disk, path)
        }),
{
    let kind = action.kind;
    let files = seen(kind, disk);
    let written = prepared_content(kind, content, starting_content(kind, files))->Ok_0;
    let broken = interrupted(kind, disk, content, mode, count);
    let after = after_execution(files, changes_of(kind), count, written, mode);
    lemma_execution_on_disk(kind, disk, written, mode, count);
    lemma_found_on_disk(kind, disk, content, mode, count);
    law_interrupted_whole_files_are_restored(
        entries,
        action,
        previous_receipt,
        files,
        content,
        mode,
        count,
    );
    let found = found_on(kind, broken);
    let mutations = rollback_of(kind, false, false, previous_receipt, found)->Ok_0.mutations;
    lemma_rollback_is_observed(kind, previous_receipt, found);
    lemma_recovery_on_disk(kind, found, after, broken, mutations, mode);
    let undone = after_steps(broken, steps_of_all(kind, found, mutations)->Ok_0, mode);
    if exists|role: PathRole| #[trigger]
        observed_roles(kind).contains(role) && same_path(path, role_or_empty(kind, role)) {
        let role = choose|role: PathRole| #[trigger]
            observed_roles(kind).contains(role) && same_path(path, role_or_empty(kind, role));
        assert(after_changes(after, mutations)[role] == files[role]);
        assert(held_at(undone, path) == held_at(undone, role_or_empty(kind, role)));
        assert(files[role] == held_at(disk, role_or_empty(kind, role)));
    }
}

/// From an interruption to the end of its recovery, on a disk. The journal of an
/// operation on whole files was saved; the operation was interrupted after its first
/// `count` steps, and nothing else changed. Recovery is planned from what the disk
/// holds, the reviewed plan is approved, and the approval holds at the start and under
/// the lock. Once the steps that recovery asks for were taken, the disk holds at every
/// path what it held before the operation; the journal goes, and the one action is
/// reported as undone.
pub proof fn law_recovery_gives_the_disk_back(
    context: RuntimeContext,
    journal: AppOperationJournalV1,
    journal_bytes: Seq<u8>,
    version: u32,
    entries: Seq<AppEntryView>,
    manifest_bytes: Option<Seq<u8>>,
    disk: PathDisk,
    content: Seq<u8>,
    mode: Option<u32>,
    count: nat,
    preset: DigestView,
    plan: PlanV1,
    approval: PlanApprovalV1,
    kept: PlanApprovalV1,
    path: Seq<char>,
)
    requires
        journal.action_ir.actions@.len() == 1,
        journal.state_of(journal.action_ir.actions@[0].action_id@) is Some,
        !is_receipt_committed(journal, 0),
        is_whole_file(journal.action_ir.actions@[0].kind),
        journal.action_ir.actions@[0].kind is RelocateManagedFile ==> parts_are_apart(
            journal.action_ir.actions@[0].kind,
        ),
        journal.action_ir.actions@[0].kind is UpdateManagedFile ==> !receipt_matches(
            entries,
            journal.action_ir.actions@[0],
        ),
        is_interrupted(
            entries,
            journal.action_ir.actions@[0],
            seen(journal.action_ir.actions@[0].kind, disk),
            content,
            mode,
            count,
        ),
        ({
            let kind = journal.action_ir.actions@[0].kind;
            let planner = recovery_planner_of(
                context,
                journal,
                journal_bytes,
                entries,
                manifest_bytes,
                seq![found_on(kind, interrupted(kind, disk, content, mode, count))],
            );
            planner is Ok ==> is_plan_of(plan, preset, planner->Ok_0)
        }),
        approval.schema_version == PLAN_APPROVAL_SCHEMA_VERSION,
        approval.reviewed(plan),
        kept.agrees(approval),
    ensures
        ({
            let action = journal.action_ir.actions@[0];
            let broken = interrupted(action.kind, disk, content, mode, count);
            let found = found_on(action.kind, broken);
            let planner = recovery_planner_of(
                context,
                journal,
                journal_bytes,
                entries,
                manifest_bytes,
                seq![found],
            );
            let started = RecoveryRunView::begun(kept, journal, version, entries);
            let locked = RecoveryRunView { phase: RecoveryPhase::Planning, ..started };
            let undoing = locked.after_planned(journal, version, entries);
            let undone = undoing.after_observed(found);
            let last = RecoveryRunView { taken: undone->Ok_0.steps.len() as int, ..undone->Ok_0 };
            let done = RecoveryRunView { phase: RecoveryPhase::Done, ..last };
            &&& planner is Ok
            &&& plan.ready()
            &&& gives(approval, preset, planner->Ok_0, Ok(()))
            &&& gives(kept, preset, planner->Ok_0, Ok(()))
            &&& undoing.demand() == (RecoveryDemand::Observe { index: 0 })
            &&& undone is Ok
            &&& held_at(after_steps(broken, undone->Ok_0.steps, mode), path) == held_at(disk, path)
            &&& last.demand() is RemoveJournal
            &&& done.demand() is Finish
            &&& done.undone == seq![action.action_id@]
        }),
{
    let action = journal.action_ir.actions@[0];
    let kind = action.kind;
    let files = seen(kind, disk);
    if !(kind is RelocateManagedFile) {
        law_parts_beside_a_destination_are_apart(entries, action, files);
    }
    lemma_found_on_disk(kind, disk, content, mode, count);
    law_interrupted_operation_is_recovered(
        context,
        journal,
        journal_bytes,
        version,
        entries,
        manifest_bytes,
        files,
        content,
        mode,
        count,
        preset,
        plan,
        approval,
        kept,
    );
    law_interrupted_operation_leaves_no_trace(
        entries,
        action,
        previous_receipt_matches(entries, action),
        disk,
        content,
        mode,
        count,
        path,
    );
}

proof fn lemma_found_on_disk(
    kind: ActionKindV1,
    disk: PathDisk,
    content: Seq<u8>,
    mode: Option<u32>,
    count: nat,
)
    requires
        is_whole_file(kind),
        parts_are_apart(kind),
        count <= changes_of(kind).len(),
    ensures
        found_on(kind, interrupted(kind, disk, content, mode, count)) == found_after_interruption(
            kind,
            seen(kind, disk),
            content,
            mode,
            count,
        ),
{
    let files = seen(kind, disk);
    let written = prepared_content(kind, content, starting_content(kind, files))->Ok_0;
    let broken = interrupted(kind, disk, content, mode, count);
    let after = after_execution(files, changes_of(kind), count, written, mode);
    lemma_execution_on_disk(kind, disk, written, mode, count);
    assert(found_on(kind, broken) =~= findings_of(kind, after)) by {
        assert forall|i: int| 0 <= i < observed_roles(kind).len() implies found_on(
            kind,
            broken,
        )[i] == findings_of(kind, after)[i] by {
            assert(observed_roles(kind).contains(observed_roles(kind)[i]));
        }
    }
}

/// Whether a text can end the name of a file: it is more than one character long, the
/// first of them a `.`, and nothing in it separates names.
pub open spec fn is_suffix(suffix: Seq<char>) -> bool {
    suffix.len() >= 2 && suffix[0] == '.' && forall|i: int|
        0 <= i < suffix.len() ==> !is_slash(#[trigger] suffix[i])
}

proof fn lemma_suffixed_pieces(text: Seq<char>, suffix: Seq<char>)
    requires
        forall|i: int| 0 <= i < suffix.len() ==> !is_slash(#[trigger] suffix[i]),
    ensures
        pieces(text + suffix, '/') == pieces(text, '/').drop_last().push(
            pieces(text, '/').last() + suffix,
        ),
    decreases suffix.len(),
{
    lemma_pieces_nonempty(text, '/');
    if suffix.len() == 0 {
        assert(text + suffix =~= text);
        assert(pieces(text, '/').last() + suffix =~= pieces(text, '/').last());
        assert(pieces(text, '/').drop_last().push(pieces(text, '/').last()) =~= pieces(text, '/'));
    } else {
        let shorter = suffix.drop_last();
        assert forall|i: int| 0 <= i < shorter.len() implies !is_slash(#[trigger] shorter[i]) by {
            assert(shorter[i] == suffix[i]);
        }
        lemma_suffixed_pieces(text, shorter);
        assert((text + suffix).drop_last() =~= text + shorter);
        assert((text + suffix).last() == suffix[suffix.len() - 1]);
        let before = pieces(text + shorter, '/');
        assert(before.drop_last() =~= pieces(text, '/').drop_last());
        assert(before.last().push(suffix.last()) =~= pieces(text, '/').last() + suffix);
    }
}

/// The names of a path with a suffix: those above the last one, and the last one with
/// the suffix.
proof fn lemma_suffixed_names(text: Seq<char>, suffix: Seq<char>, rooted: bool)
    requires
        is_suffix(suffix),
    ensures
        ({
            let own = pieces(text, '/');
            let above = kept_names(own.drop_last(), rooted);
            &&& kept_names(pieces(text + suffix, '/'), rooted) == above.push(own.last() + suffix)
            &&& kept_names(own, rooted) == above || kept_names(own, rooted) == above.push(
                own.last(),
            )
        }),
{
    let own = pieces(text, '/');
    lemma_pieces_nonempty(text, '/');
    lemma_suffixed_pieces(text, suffix);
    let longer = own.drop_last().push(own.last() + suffix);
    assert(longer.drop_last() =~= own.drop_last());
    assert((own.last() + suffix).len() >= 2);
    assert(keeps_name(longer.last(), rooted, longer.len() - 1));
}

proof fn lemma_suffixed_components(path: Seq<char>, suffix: Seq<char>)
    requires
        is_suffix(suffix),
    ensures
        ({
            let style = style_of(path);
            let own = match style {
                PathStyle::Unix => pieces(path, '/'),
                PathStyle::Windows => pieces(behind_drive(path), '/'),
            };
            let rooted = match style {
                PathStyle::Unix => is_rooted(path),
                PathStyle::Windows => is_rooted(behind_drive(path)),
            };
            let above = path_head(path, style) + kept_names(own.drop_last(), rooted);
            &&& path_components(path + suffix) == above.push(own.last() + suffix)
            &&& path_components(path) == above || path_components(path) == above.push(own.last())
        }),
{
    let longer = path + suffix;
    let style = style_of(path);
    assert(longer[0] == if path.len() > 0 {
        path[0]
    } else {
        '.'
    });
    assert(longer[1] == if path.len() > 1 {
        path[1]
    } else {
        suffix[1 - path.len()]
    });
    assert(path.len() >= 2 ==> longer[2] == if path.len() > 2 {
        path[2]
    } else {
        '.'
    });
    assert(!is_slash(suffix[0]) && !is_slash(suffix[1]));
    assert(has_drive(longer) == has_drive(path));
    assert(starts_at_share(longer) == starts_at_share(path));
    assert(starts_at_drive_root(longer) == starts_at_drive_root(path));
    assert(style_of(longer) == style);
    match style {
        PathStyle::Unix => {
            lemma_suffixed_names(path, suffix, is_rooted(path));
            assert(is_rooted(longer) == is_rooted(path));
            let above = path_head(path, style) + kept_names(
                pieces(path, '/').drop_last(),
                is_rooted(path),
            );
            assert(path_components(longer) =~= above.push(pieces(path, '/').last() + suffix));
            assert(path_components(path) =~= above || path_components(path) =~= above.push(
                pieces(path, '/').last(),
            ));
        },
        PathStyle::Windows => {
            let inner = behind_drive(path);
            let rooted = is_rooted(inner);
            assert(replaced(suffix, '\\', '/') =~= suffix) by {
                assert forall|i: int| 0 <= i < suffix.len() implies #[trigger] replaced(
                    suffix,
                    '\\',
                    '/',
                )[i] == suffix[i] by {
                    assert(!is_slash(suffix[i]));
                }
            }
            if has_drive(path) {
                assert(longer.skip(2) =~= path.skip(2) + suffix);
                assert(behind_drive(longer) =~= inner + replaced(suffix, '\\', '/'));
            } else {
                assert(behind_drive(longer) =~= inner + replaced(suffix, '\\', '/'));
            }
            assert(behind_drive(longer) == inner + suffix);
            assert(is_rooted(inner + suffix) == rooted) by {
                if inner.len() > 0 {
                    assert((inner + suffix)[0] == inner[0]);
                } else {
                    assert((inner + suffix)[0] == suffix[0]);
                }
            }
            lemma_suffixed_names(inner, suffix, rooted);
            let above = path_head(path, style) + kept_names(
                pieces(inner, '/').drop_last(),
                rooted,
            );
            assert(path_head(longer, style) =~= path_head(path, style));
            assert(path_components(longer) =~= above.push(pieces(inner, '/').last() + suffix));
            assert(path_components(path) =~= above || path_components(path) =~= above.push(
                pieces(inner, '/').last(),
            ));
        },
    }
}

/// A file beside another one, by a suffix to its name, is another path, and two
/// suffixes give two paths.
pub proof fn law_suffixed_paths_are_apart(path: Seq<char>, left: Seq<char>, right: Seq<char>)
    requires
        is_suffix(left),
        is_suffix(right),
        left != right,
    ensures
        !same_path(path + left, path),
        !same_path(path + left, path + right),
{
    lemma_suffixed_components(path, left);
    lemma_suffixed_components(path, right);
    let style = style_of(path);
    let last = match style {
        PathStyle::Unix => pieces(path, '/').last(),
        PathStyle::Windows => pieces(behind_drive(path), '/').last(),
    };
    assert((last + left).len() > last.len());
    if path_components(path + left) == path_components(path) {
        assert(path_components(path + left).last() == path_components(path).last());
        assert(path_components(path + left).len() == path_components(path).len());
    }
    if path_components(path + left) == path_components(path + right) {
        assert(path_components(path + left).last() == path_components(path + right).last());
        assert(last + left == last + right);
        assert((last + left).skip(last.len() as int) =~= left);
        assert((last + right).skip(last.len() as int) =~= right);
    }
}

/// The parts of an operation that was let through are apart, unless it moves a file:
/// rollback material and backups stand beside the destination, under names of their
/// own.
pub proof fn law_parts_beside_a_destination_are_apart(
    entries: Seq<AppEntryView>,
    action: DeclarativeActionV1,
    files: Map<PathRole, FileView>,
)
    requires
        is_whole_file(action.kind),
        !(action.kind is RelocateManagedFile),
        guards_of(entries, action) is Ok,
        guards_hold(action.kind, guards_of(entries, action)->Ok_0, files),
    ensures
        parts_are_apart(action.kind),
{
    let kind = action.kind;
    let guards = guards_of(entries, action)->Ok_0;
    let destination = role_or_empty(kind, PathRole::Destination);
    reveal_strlit(".shine-backup");
    reveal_strlit(".shine-rollback");
    assert(backup_suffix()[7] == 'b' && rollback_suffix()[7] == 'r');
    law_suffixed_paths_are_apart(destination, backup_suffix(), rollback_suffix());
    law_suffixed_paths_are_apart(destination, rollback_suffix(), backup_suffix());
    if guards.len() > 2 {
        assert(guard_verdict(kind, guards[2], files[guarded_role(guards[2])]) is Ok);
    }
}

} // verus!
