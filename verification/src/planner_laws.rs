//! What holds of every plan that a recovery is reviewed by.

use vstd::prelude::*;
use vstd::string::*;

use crate::action::{access_permission, role_text, ActionKindV1, DeclarativeActionV1};
use crate::content::content_hash;
use crate::context::{review_text, RuntimeContext};
use crate::guard_laws::{
    is_receipt_of, is_unowned, lemma_claims, lemma_receipts, nobody_else_claims, source_is_new,
};
use crate::journal::AppOperationJournalV1;
use crate::manifest::AppEntryView;
use crate::path::path_join;
use crate::plan::{FilesystemAccessV1, PermissionView, PlanActionV1};
use crate::receipts::{
    is_receipt_after, is_receipt_before, previous_receipt_matches, receipt_matches,
    relocation_paths, removal_committed,
};
use crate::recovery::{file_identity, FileView};
use crate::recovery_plan::{observed_roles, recovery_decision};
use crate::recovery_planner::{
    action_conflicts, planner_after, planner_next, planner_start, with_accesses, PlannerView,
};
use crate::text::{decimal_digits, digit_char};

verus! {

/// Whether the receipts hold the end of an action.
pub open spec fn has_ended(entries: Seq<AppEntryView>, action: DeclarativeActionV1) -> bool {
    exists|entry: AppEntryView| #[trigger]
        is_receipt_of(entries, action.source(), entry) && is_receipt_after(entry, action.kind)
}

/// Whether the receipts hold the beginning of an action that starts from a receipt.
pub open spec fn has_begun(entries: Seq<AppEntryView>, action: DeclarativeActionV1) -> bool {
    exists|entry: AppEntryView| #[trigger]
        is_receipt_of(entries, action.source(), entry) && is_receipt_before(entry, action.kind)
}

/// Recovery is blocked by the receipts exactly where they tell neither the beginning nor
/// the end of an interrupted action: where a receipt speaks of its source or of one of its
/// paths that is not the one it starts from or leaves.
pub proof fn law_receipts_of_others_block_recovery(
    entries: Seq<AppEntryView>,
    action: DeclarativeActionV1,
    committed: bool,
)
    ensures
        !action_conflicts(entries, action, committed) <==> match action.kind {
            ActionKindV1::CreateManagedFile { destination, .. } => {
                ||| has_ended(entries, action)
                ||| source_is_new(entries, action.source()) && is_unowned(entries, destination@)
            },
            ActionKindV1::CreateManagedFileWithBackup { destination, backup, .. } => {
                ||| has_ended(entries, action)
                ||| source_is_new(entries, action.source()) && is_unowned(entries, destination@)
                    && is_unowned(entries, backup@)
            },
            ActionKindV1::UpdateManagedFile { rollback, .. } => {
                ||| has_ended(entries, action)
                ||| has_begun(entries, action) && is_unowned(entries, rollback@)
            },
            ActionKindV1::MergeManagedJson {
                destination,
                rollback,
                previous_receipt_hash,
                ..
            } => {
                ||| has_ended(entries, action)
                ||| is_unowned(entries, rollback@) && (has_begun(entries, action)
                    || previous_receipt_hash is None && source_is_new(entries, action.source())
                    && is_unowned(entries, destination@))
            },
            ActionKindV1::RelocateManagedFile {
                previous_destination,
                previous_backup,
                previous_rollback,
                desired_destination,
                ..
            } => {
                &&& has_ended(entries, action) || has_begun(entries, action)
                &&& nobody_else_claims(entries, action.source(), previous_destination@)
                &&& nobody_else_claims(entries, action.source(), desired_destination@)
                &&& nobody_else_claims(entries, action.source(), previous_rollback@)
                &&& previous_backup is Some ==> nobody_else_claims(
                    entries,
                    action.source(),
                    previous_backup->0.path@,
                )
            },
            ActionKindV1::RelocateManagedJson {
                previous_destination,
                previous_rollback,
                desired_destination,
                ..
            } => {
                &&& has_ended(entries, action) || has_begun(entries, action)
                &&& nobody_else_claims(entries, action.source(), previous_destination@)
                &&& nobody_else_claims(entries, action.source(), desired_destination@)
                &&& nobody_else_claims(entries, action.source(), previous_rollback@)
            },
            ActionKindV1::RemoveManagedFile { rollback, .. } => {
                ||| removal_committed(entries, action)
                ||| !committed && has_begun(entries, action) && is_unowned(entries, rollback@)
            },
            ActionKindV1::RemoveManagedFileWithBackup { rollback, .. } => {
                ||| removal_committed(entries, action)
                ||| !committed && has_begun(entries, action) && is_unowned(entries, rollback@)
            },
            ActionKindV1::ForceRemoveManagedFile { rollback, .. } => {
                ||| removal_committed(entries, action)
                ||| !committed && has_begun(entries, action) && is_unowned(entries, rollback@)
            },
            ActionKindV1::RemoveManagedJson { rollback, .. } => {
                ||| removal_committed(entries, action)
                ||| !committed && has_begun(entries, action) && is_unowned(entries, rollback@)
            },
            ActionKindV1::Foreign(_) => source_is_new(entries, action.source()),
        },
{
    let kind = action.kind;
    lemma_receipts(entries, action, Seq::empty());
    match kind {
        ActionKindV1::CreateManagedFile { destination, .. } => {
            lemma_receipts(entries, action, destination@);
        },
        ActionKindV1::CreateManagedFileWithBackup { destination, backup, .. } => {
            lemma_receipts(entries, action, destination@);
            lemma_receipts(entries, action, backup@);
        },
        ActionKindV1::UpdateManagedFile { rollback, .. } => {
            lemma_receipts(entries, action, rollback@);
        },
        ActionKindV1::MergeManagedJson { destination, rollback, .. } => {
            lemma_receipts(entries, action, destination@);
            lemma_receipts(entries, action, rollback@);
        },
        ActionKindV1::RelocateManagedFile {
            previous_destination,
            previous_backup,
            previous_rollback,
            desired_destination,
            ..
        } => {
            lemma_claims(entries, action);
            let paths = relocation_paths(kind);
            assert(paths[0] == previous_destination@);
            assert(paths[1] == desired_destination@);
            assert(paths[2] == previous_rollback@);
            if previous_backup is Some {
                assert(paths[3] == previous_backup->0.path@);
            }
        },
        ActionKindV1::RelocateManagedJson {
            previous_destination,
            previous_rollback,
            desired_destination,
            ..
        } => {
            lemma_claims(entries, action);
            let paths = relocation_paths(kind);
            assert(paths[0] == previous_destination@);
            assert(paths[1] == desired_destination@);
            assert(paths[2] == previous_rollback@);
        },
        ActionKindV1::RemoveManagedFile { rollback, .. } => {
            lemma_receipts(entries, action, rollback@);
        },
        ActionKindV1::RemoveManagedFileWithBackup { rollback, .. } => {
            lemma_receipts(entries, action, rollback@);
        },
        ActionKindV1::ForceRemoveManagedFile { rollback, .. } => {
            lemma_receipts(entries, action, rollback@);
        },
        ActionKindV1::RemoveManagedJson { rollback, .. } => {
            lemma_receipts(entries, action, rollback@);
        },
        ActionKindV1::Foreign(_) => {},
    }
}

proof fn lemma_with_accesses(
    context: RuntimeContext,
    kind: ActionKindV1,
    needs: Seq<crate::action::RoleAccess>,
    required: Set<PermissionView>,
    permission: PermissionView,
)
    ensures
        with_accesses(context, kind, needs, required).contains(permission) <==> {
            ||| required.contains(permission)
            ||| exists|i: int|
                0 <= i < needs.len() && permission == access_permission(
                    context,
                    kind,
                    #[trigger] needs[i],
                )
        },
    decreases needs.len(),
{
    if needs.len() > 0 {
        let head = needs.drop_last();
        lemma_with_accesses(context, kind, head, required, permission);
        assert(forall|i: int| 0 <= i < head.len() ==> head[i] == #[trigger] needs[i]);
        assert(needs.last() == needs[needs.len() - 1]);
        if exists|i: int|
            0 <= i < head.len() && permission == access_permission(
                context,
                kind,
                #[trigger] head[i],
            ) {
            let i = choose|i: int|
                0 <= i < head.len() && permission == access_permission(
                    context,
                    kind,
                    #[trigger] head[i],
                );
            assert(needs[i] == head[i]);
        }
    }
}

/// One more action of a plan. Where the receipts contradict it the plan is blocked, says
/// so, and asks for nothing more; otherwise the plan says what will be done, and asks for
/// the paths that this needs, for the receipts where one is put back, for administrator
/// rights at most beside, and for nothing else. What was found for each part is held by
/// the plan, so that another finding makes another plan.
pub proof fn law_plan_asks_for_what_recovery_needs(
    context: RuntimeContext,
    entries: Seq<AppEntryView>,
    action: DeclarativeActionV1,
    committed: bool,
    files: Seq<FileView>,
    before: PlannerView,
    permission: PermissionView,
    part: int,
)
    ensures
        match planner_next(context, entries, action, committed, files, before) {
            Err(fault) => !action_conflicts(entries, action, committed),
            Ok(after) => {
                let step = after.steps.last();
                let decision = recovery_decision(
                    action.kind,
                    committed,
                    receipt_matches(entries, action),
                    previous_receipt_matches(entries, action),
                    files,
                );
                let conflict = action_conflicts(entries, action, committed);
                &&& after.steps.len() == before.steps.len() + 1
                &&& after.steps.drop_last() == before.steps
                &&& step.target == action.target@
                &&& step.resource == Some(action.resource@)
                &&& after.blocked <==> before.blocked || step.action == PlanActionV1::Blocked
                &&& conflict ==> {
                    &&& step.action == PlanActionV1::Blocked
                    &&& step.diagnostic_codes == seq!["app_recovery_receipt_conflict"@]
                    &&& after.required == before.required && after.observed == before.observed
                }
                &&& !conflict ==> {
                    let roles = observed_roles(action.kind);
                    &&& decision is Ok
                    &&& step.action == decision->Ok_0.action
                    &&& after.observed.len() == before.observed.len() + roles.len()
                    &&& after.observed.take(before.observed.len() as int) == before.observed
                    &&& 0 <= part < roles.len()
                        ==> after.observed[before.observed.len() + part].1
                        == vstd::utf8::encode_utf8(file_identity(files[part]))
                    &&& {
                        let asked = {
                            ||| before.required.contains(permission)
                            ||| exists|i: int|
                                0 <= i < decision->Ok_0.needs.len() && permission == (
                                PermissionView::Filesystem {
                                    access: (#[trigger] decision->Ok_0.needs[i]).access,
                                    path: review_text(
                                        context,
                                        role_text(
                                            action.kind,
                                            decision->Ok_0.needs[i].role,
                                        ).unwrap_or(Seq::empty()),
                                    ),
                                })
                            ||| decision->Ok_0.restores_receipt && permission == (
                            PermissionView::Filesystem {
                                access: FilesystemAccessV1::Write,
                                path: review_text(context, context.manifest_text()),
                            })
                        };
                        &&& asked ==> after.required.contains(permission)
                        &&& after.required.contains(permission) ==> asked || permission
                            == PermissionView::Administrator
                    }
                }
            },
        },
{
    if let Ok(after) = planner_next(context, entries, action, committed, files, before) {
        assert(after.steps.drop_last() =~= before.steps);
        if !action_conflicts(entries, action, committed) {
            let decision = recovery_decision(
                action.kind,
                committed,
                receipt_matches(entries, action),
                previous_receipt_matches(entries, action),
                files,
            )->Ok_0;
            lemma_with_accesses(
                context,
                action.kind,
                decision.needs,
                before.required,
                permission,
            );
            assert(after.observed.take(before.observed.len() as int) =~= before.observed);
        }
    }
}

proof fn lemma_digits(n: nat, index: int)
    ensures
        decimal_digits(n).len() > 0,
        0 <= index < decimal_digits(n).len() ==> decimal_digits(n)[index] != ':'
            && decimal_digits(n)[index] != ')',
    decreases n,
{
    if n >= 10 {
        lemma_digits(n / 10, index);
    }
}

proof fn lemma_digits_tell(a: nat, b: nat)
    requires
        decimal_digits(a) == decimal_digits(b),
    ensures
        a == b,
    decreases a,
{
    let (left, right) = (decimal_digits(a), decimal_digits(b));
    assert(left.last() == right.last());
    if a >= 10 {
        lemma_digits(a / 10, 0);
    }
    if b >= 10 {
        lemma_digits(b / 10, 0);
    }
    if a >= 10 && b >= 10 {
        assert(left.drop_last() =~= decimal_digits(a / 10));
        assert(right.drop_last() =~= decimal_digits(b / 10));
        lemma_digits_tell(a / 10, b / 10);
        assert(digit_char(a % 10) == digit_char(b % 10));
        assert(a % 10 == b % 10);
    } else {
        assert(left.len() == right.len());
    }
}

proof fn lemma_digits_end(a: nat, b: nat, left: Seq<char>, right: Seq<char>, mark: char)
    requires
        mark == ':' || mark == ')',
        left.len() > 0 && left[0] == mark,
        right.len() > 0 && right[0] == mark,
        decimal_digits(a) + left == decimal_digits(b) + right,
    ensures
        a == b,
        left == right,
{
    let (x, y) = (decimal_digits(a), decimal_digits(b));
    if x.len() < y.len() {
        lemma_digits(b, x.len() as int);
        assert((x + left)[x.len() as int] == left[0]);
        assert((y + right)[x.len() as int] == y[x.len() as int]);
    }
    if y.len() < x.len() {
        lemma_digits(a, y.len() as int);
        assert((y + right)[y.len() as int] == right[0]);
        assert((x + left)[y.len() as int] == x[y.len() as int]);
    }
    assert(x =~= (x + left).take(x.len() as int));
    assert(y =~= (y + right).take(y.len() as int));
    assert(left =~= (x + left).skip(x.len() as int));
    assert(right =~= (y + right).skip(y.len() as int));
    lemma_digits_tell(a, b);
}

/// What is held of a file in a plan tells files apart: nothing, a regular file of some
/// identity and mode, and anything else.
pub proof fn law_findings_tell_files_apart(left: FileView, right: FileView)
    requires
        file_identity(left) == file_identity(right),
    ensures
        left is Missing <==> right is Missing,
        left is Regular <==> right is Regular,
        left is Regular ==> content_hash(left->content) == content_hash(right->content)
            && left->mode == right->mode,
{
    reveal_strlit("missing");
    reveal_strlit("file:");
    reveal_strlit("other:");
    reveal_strlit(":mode:");
    reveal_strlit("Some(");
    reveal_strlit(")");
    reveal_strlit("None");
    let (a, b) = (file_identity(left), file_identity(right));
    assert(left is Missing ==> a[0] == 'm');
    assert(left is Regular ==> a[0] == 'f');
    assert(left is Other ==> a[0] == 'o');
    assert(right is Missing ==> b[0] == 'm');
    assert(right is Regular ==> b[0] == 'f');
    assert(right is Other ==> b[0] == 'o');
    if left is Regular {
        let m = content_hash(left->content) as nat;
        let n = content_hash(right->content) as nat;
        let (x, y) = (crate::recovery::mode_text(left->mode), crate::recovery::mode_text(right->mode));
        assert(a.skip(5) =~= decimal_digits(m) + (":mode:"@ + x));
        assert(b.skip(5) =~= decimal_digits(n) + (":mode:"@ + y));
        lemma_digits_end(m, n, ":mode:"@ + x, ":mode:"@ + y, ':');
        assert((":mode:"@ + x).skip(6) =~= x);
        assert((":mode:"@ + y).skip(6) =~= y);
        assert(left->mode is Some ==> x[0] == 'S');
        assert(left->mode is None ==> x[0] == 'N');
        assert(right->mode is Some ==> y[0] == 'S');
        assert(right->mode is None ==> y[0] == 'N');
        if left->mode is Some {
            let (p, q) = (left->mode->0 as nat, right->mode->0 as nat);
            assert(x.skip(5) =~= decimal_digits(p) + ")"@);
            assert(y.skip(5) =~= decimal_digits(q) + ")"@);
            lemma_digits_end(p, q, ")"@, ")"@, ')');
        }
    }
}

/// A plan that starts has one permission, to take the journal away, and holds the journal
/// and the receipts that it was made from.
pub proof fn law_plan_starts_with_the_journal(
    context: RuntimeContext,
    journal_bytes: Seq<u8>,
    manifest_bytes: Option<Seq<u8>>,
    permission: PermissionView,
)
    ensures
        ({
            let start = planner_start(context, journal_bytes, manifest_bytes);
            &&& start.required.contains(permission) <==> permission == (
            PermissionView::Filesystem {
                access: FilesystemAccessV1::Remove,
                path: review_text(
                    context,
                    path_join(context.shine_dir@, "app-operation-journal.toml"@),
                ),
            })
            &&& start.steps.len() == 0 && !start.blocked
            &&& start.observed.contains(("journal"@, journal_bytes))
            &&& manifest_bytes is Some ==> start.observed.contains(
                ("app-manifest"@, manifest_bytes->0),
            )
        }),
{
    let start = planner_start(context, journal_bytes, manifest_bytes);
    assert(start.observed[1] == ("journal"@, journal_bytes));
    assert(start.observed[2].0 == "app-manifest"@);
}

/// A plan that is made holds one step for each action, in their order, and keeps what it
/// asked for before.
pub proof fn law_plan_has_a_step_for_each_action(
    context: RuntimeContext,
    entries: Seq<AppEntryView>,
    journal: AppOperationJournalV1,
    files: Seq<Seq<FileView>>,
    start: PlannerView,
    count: nat,
    index: int,
)
    requires
        start.steps.len() == 0,
        0 <= index < count,
    ensures
        match planner_after(context, entries, journal, files, start, count) {
            Ok(after) => {
                &&& after.steps.len() == count
                &&& after.steps[index].target == journal.action_ir.actions@[index].target@
                &&& after.steps[index].resource == Some(
                    journal.action_ir.actions@[index].resource@,
                )
                &&& start.required.subset_of(after.required)
                &&& forall|i: int|
                    0 <= i < start.observed.len() ==> after.observed[i]
                        == #[trigger] start.observed[i] && i < after.observed.len()
            },
            Err(_) => true,
        },
    decreases count,
{
    lemma_steps(context, entries, journal, files, start, count);
}

proof fn lemma_steps(
    context: RuntimeContext,
    entries: Seq<AppEntryView>,
    journal: AppOperationJournalV1,
    files: Seq<Seq<FileView>>,
    start: PlannerView,
    count: nat,
)
    requires
        start.steps.len() == 0,
    ensures
        match planner_after(context, entries, journal, files, start, count) {
            Ok(after) => {
                &&& after.steps.len() == count
                &&& forall|i: int|
                    0 <= i < count ==> (#[trigger] after.steps[i]).target
                        == journal.action_ir.actions@[i].target@ && after.steps[i].resource == Some(
                        journal.action_ir.actions@[i].resource@,
                    )
                &&& start.required.subset_of(after.required)
                &&& start.observed.len() <= after.observed.len()
                &&& forall|i: int|
                    0 <= i < start.observed.len() ==> after.observed[i]
                        == #[trigger] start.observed[i]
            },
            Err(_) => true,
        },
    decreases count,
{
    if count > 0 {
        let last = (count - 1) as nat;
        lemma_steps(context, entries, journal, files, start, last);
        let earlier = planner_after(context, entries, journal, files, start, last);
        if planner_after(context, entries, journal, files, start, count) is Ok {
            let after = planner_after(context, entries, journal, files, start, count)->Ok_0;
            let before = earlier->Ok_0;
            let action = journal.action_ir.actions@[last as int];
            let committed = crate::recovery_planner::is_receipt_committed(journal, last as int);
            assert forall|permission: PermissionView|
                start.required.contains(permission) implies after.required.contains(
                permission,
            ) by {
                law_plan_asks_for_what_recovery_needs(
                    context,
                    entries,
                    action,
                    committed,
                    files[last as int],
                    before,
                    permission,
                    0,
                );
            }
            law_plan_asks_for_what_recovery_needs(
                context,
                entries,
                action,
                committed,
                files[last as int],
                before,
                PermissionView::Administrator,
                0,
            );
            assert forall|i: int| 0 <= i < count implies (#[trigger] after.steps[i]).target
                == journal.action_ir.actions@[i].target@ && after.steps[i].resource == Some(
                journal.action_ir.actions@[i].resource@,
            ) by {
                if i < last {
                    assert(after.steps.drop_last()[i] == before.steps[i]);
                }
            }
            assert forall|i: int| 0 <= i < start.observed.len() implies after.observed[i]
                == #[trigger] start.observed[i] by {
                assert(after.observed.take(before.observed.len() as int)[i] == before.observed[i]
                    || after.observed == before.observed);
            }
        }
    }
}

} // verus!
