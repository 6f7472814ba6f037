//! What holds of operations under way: what each looks at before it decides, which files
//! and categories it takes up, and what its steps do.

use vstd::prelude::*;
use vstd::string::*;

use crate::action::{role_text, ActionIrV1, ActionKindV1, DeclarativeActionV1};
use crate::app_assess::{raw_content, Generated, RawView};
use crate::app_install::{desired_hash_of, installed_hash_of};
use crate::app_lifecycle::source_parts;
use crate::app_types::{AppCategoryView, AppFileView};
use crate::app_uninstall::{cache_prefixes, category_of, named_categories};
use crate::app_upgrade::UpgradeDecision;
use crate::assess_run::{due_in_category, due_of, DueView};
use crate::assessed_files::{assessed_views, by_source};
use crate::content::content_hash;
use crate::context::{platform_style, RuntimeContext, RuntimePlatform};
use crate::execution::{authorization, content_verdict, guards_of, ExecutionChange};
use crate::execution_fault::ExecutionKind;
use crate::execution_run::{admission, execution_backup, opening, step_of_change, PreparedView};
use crate::guard_laws::{is_unowned, receipt_owed};
use crate::json::{removal_result, restore_result};
use crate::lifecycle::LifecycleStatus;
use crate::manifest::AppEntryView;
use crate::path::same_path;
use crate::plan::{PlanApprovalV1, PlanV1};
use crate::presets::{preset_file, PresetFileView};
use crate::receipts::removed_receipt;
use crate::recovery::FileView;
use crate::recovery_apply::{RecoveryMutation, RollbackView};
use crate::recovery_run::{key_restoration, receipts_after, steps_of, HostStepView};
use crate::refresh_drive::{candidate_places, RefreshDriveView, RefreshStage};
use crate::runtime::{app_categories_of, destination_in};
use crate::text::begins_with;
use crate::upgrade_drive::{loaded, weighed, UpgradeDriveView, UpgradeStage};

verus! {

/// What an upgrade decides of a file from what stands at its places. A file that moves to
/// a place that has a receipt, or where something stands, is held up. Otherwise a file
/// that is missing is installed; one that has not the identity of its receipt is a user's;
/// one that does not move and has the wanted identity is up to date; any other is
/// installed.
pub proof fn law_upgrade_decides_by_what_stands_there(
    drive: UpgradeDriveView,
    present: bool,
    current: Option<Seq<u8>>,
)
    ensures
        ({
            let assessment = drive.at->0@;
            let keys = assessment.file.install_strategy;
            let receipt = drive.selected[drive.settled].content_hash;
            let relocated = !same_path(
                assessment.destination,
                drive.selected[drive.settled].destination@,
            );
            let occupied = relocated && (present || !is_unowned(
                drive.run.entries,
                assessment.destination,
            ));
            let stands = installed_hash_of(keys, current->0);
            match drive.decided(present, current) {
                Err(_) => {
                    ||| desired_hash_of(keys, assessment.content->0) is Err
                    ||| current is Some && !occupied && stands is Err
                },
                Ok((desired, decision)) => {
                    &&& desired_hash_of(keys, assessment.content->0) is Ok
                    &&& desired == desired_hash_of(keys, assessment.content->0)->Ok_0
                    &&& keys is None ==> desired == content_hash(assessment.content->0)
                    &&& decision is Occupied <==> occupied
                    &&& !occupied && current is None ==> decision is Install
                    &&& !occupied && current is Some ==> {
                        &&& stands is Ok
                        &&& stands->Ok_0 is None ==> decision is Install
                        &&& stands->Ok_0 is Some ==> {
                            let found = stands->Ok_0->0;
                            &&& decision is UserModified <==> found != receipt
                            &&& decision is Unchanged <==> found == receipt && !relocated && found
                                == desired
                            &&& decision is Install <==> found == receipt && (relocated || found
                                != desired)
                        }
                    }
                },
            }
        }),
{
}

/// After it is decided, a file that is to be installed is taken up with the identity that
/// it is to have, and whether it moves; any other is done with, and no receipt has changed.
pub proof fn law_upgrade_takes_up_what_it_installs(
    drive: UpgradeDriveView,
    desired: u64,
    decision: UpgradeDecision,
)
    ensures
        ({
            let after = drive.after_looked(desired, decision);
            let relocated = !same_path(
                drive.at->0@.destination,
                drive.selected[drive.settled].destination@,
            );
            &&& after.run.entries == drive.run.entries && after.run.changed == drive.run.changed
            &&& after.selected == drive.selected && after.files == drive.files
            &&& decision is Install ==> {
                &&& after.stage == UpgradeStage::Install && after.settled == drive.settled
                &&& after.desired == desired && after.relocated == relocated
                &&& after.run == drive.run && after.at == drive.at
            }
            &&& !(decision is Install) ==> {
                &&& after.stage == UpgradeStage::Begin && after.settled == drive.settled + 1
                &&& after.run.outcomes.len() == drive.run.outcomes.len() + 1
            }
        }),
{
}

/// What becomes of a receipt. One whose file still has a source is never pruned or asked
/// about; one without is pruned only where that was asked for, asked about only where
/// prompts are wanted, and otherwise kept; no receipt has changed yet, and a file that was
/// held against its receipt is not taken for a new one.
pub proof fn law_only_stale_receipts_are_pruned(before: UpgradeDriveView, after: UpgradeDriveView)
    requires
        weighed(before, after),
        before.stage == UpgradeStage::Begin,
    ensures
        ({
            let source = before.selected[before.settled].source@;
            let known = by_source(assessed_views(before.files));
            &&& after.run.entries == before.run.entries
            &&& after.run.changed == before.run.changed
            &&& after.selected == before.selected
            &&& source_parts(source) is None ==> after.settled == before.settled + 1
            &&& source_parts(source) is Some && known.contains_key(source) ==> {
                &&& after.stage == UpgradeStage::Look || after.settled == before.settled + 1
                &&& !by_source(assessed_views(after.files)).contains_key(source)
            }
            &&& source_parts(source) is Some && !known.contains_key(source) ==> {
                &&& after.stage == UpgradeStage::Prune <==> before.prune_stale
                &&& after.stage == UpgradeStage::Ask <==> !before.prune_stale
                    && before.prompt_stale
                &&& !before.prune_stale && !before.prompt_stale ==> after.settled == before.settled
                    + 1
            }
            &&& after.stage == UpgradeStage::Prune || after.stage == UpgradeStage::Ask ==> {
                &&& source_parts(source) is Some && !known.contains_key(source)
                &&& after.category == (source_parts(source)->0).0
                &&& after.settled == before.settled
            }
        }),
{
}

/// Each category of an upgrade is read in its turn: where it has preset files its files
/// are taken up and its copies are due, unless the presets are the user's own; one without
/// is passed over.
pub proof fn law_upgrade_reads_each_category(
    context: RuntimeContext,
    presets: Seq<PresetFileView>,
    before: UpgradeDriveView,
)
    requires
        !before.cache_due,
    ensures
        ({
            let name = before.names[before.loaded];
            let there = exists|i: int|
                0 <= i < presets.len() && begins_with(
                    (#[trigger] presets[i]).path,
                    "app/"@ + name + "/"@,
                );
            match loaded(context, presets, before) {
                Ok(after) => {
                    let found = app_categories_of(context, presets, Some(name));
                    &&& there ==> found is Ok && after.categories == before.categories
                        + found->Ok_0
                    &&& !there ==> after.categories == before.categories
                    &&& after.cache_due <==> there && !before.external
                    &&& after.loaded == if after.cache_due {
                        before.loaded
                    } else {
                        before.loaded + 1
                    }
                    &&& after.run == before.run
                },
                Err(_) => there && app_categories_of(context, presets, Some(name)) is Err,
            }
        }),
{
    let name = before.names[before.loaded];
    assert(crate::app_lifecycle::app_target(name) + "/"@ == "app/"@ + name + "/"@);
}

/// What a refresh does with a file once it has seen what stands there. Something that has
/// not the identity of the receipt is kept unless the refresh is forced; something that has
/// it is left alone exactly where the new content has it too; a missing file, and any
/// other, is installed; what cannot be read as it should is a failure.
pub proof fn law_refresh_decides_by_what_stands_there(
    drive: RefreshDriveView,
    current: Option<Seq<u8>>,
)
    ensures
        ({
            let file = drive.files[drive.settled];
            let keys = file.file@.install_strategy;
            let receipt = file.entry.content_hash;
            let stands = installed_hash_of(keys, current->0);
            let after = drive.after_read(current);
            let status = after.run.outcomes.last().status;
            let installs = after.stage == RefreshStage::Install && after.settled == drive.settled
                && after.run == drive.run;
            let done = after.settled == drive.settled + 1 && after.stage == RefreshStage::Begin
                && after.run.entries == drive.run.entries && after.run.outcomes.len()
                == drive.run.outcomes.len() + 1;
            &&& current is None ==> installs
            &&& current is Some && stands is Err ==> done && status == LifecycleStatus::Failed
            &&& current is Some && stands is Ok && stands->Ok_0 is None ==> installs
            &&& current is Some && stands is Ok && stands->Ok_0 is Some ==> {
                let found = stands->Ok_0->0;
                &&& found != receipt && !drive.force ==> done && status
                    == LifecycleStatus::Preserved
                &&& found != receipt && drive.force ==> installs
                &&& found == receipt && drive.desired == receipt ==> done && status
                    == LifecycleStatus::Unchanged
                &&& found == receipt && drive.desired != receipt ==> installs
            }
        }),
{
}

proof fn lemma_candidates(
    context: RuntimeContext,
    category: AppCategoryView,
    candidates: Seq<usize>,
)
    ensures
        match candidate_places(context, category, candidates) {
            Ok(places) => places.len() == candidates.len() && forall|i: int|
                0 <= i < candidates.len() ==> destination_in(
                    context,
                    category,
                    category.files[#[trigger] candidates[i] as int],
                ) is Ok && places[i] == destination_in(
                    context,
                    category,
                    category.files[candidates[i] as int],
                )->Ok_0,
            Err(_) => exists|i: int|
                0 <= i < candidates.len() && destination_in(
                    context,
                    category,
                    category.files[#[trigger] candidates[i] as int],
                ) is Err,
        },
    decreases candidates.len(),
{
    if candidates.len() > 0 {
        let head = candidates.drop_last();
        lemma_candidates(context, category, head);
        assert(candidates[candidates.len() - 1] == candidates.last());
        assert(forall|i: int| 0 <= i < head.len() ==> head[i] == #[trigger] candidates[i]);
        match candidate_places(context, category, head) {
            Ok(before) => {},
            Err(_) => {
                let i = choose|i: int|
                    0 <= i < head.len() && destination_in(
                        context,
                        category,
                        category.files[#[trigger] head[i] as int],
                    ) is Err;
                assert(candidates[i] == head[i]);
            },
        }
    }
}

/// The places of the candidates of a refresh are those that the files go to, one by one.
pub proof fn law_refresh_looks_where_files_go(
    context: RuntimeContext,
    category: AppCategoryView,
    candidates: Seq<usize>,
    index: int,
)
    requires
        0 <= index < candidates.len(),
        candidate_places(context, category, candidates) is Ok,
    ensures
        ({
            let places = candidate_places(context, category, candidates)->Ok_0;
            let place = destination_in(
                context,
                category,
                category.files[candidates[index] as int],
            );
            places.len() == candidates.len() && place is Ok && places[index] == place->Ok_0
        }),
{
    lemma_candidates(context, category, candidates);
}

/// The content of a file before it is transformed: what its generator made where it ran;
/// where that failed the file is kept if it is installed, and is an error if it is not;
/// otherwise what its preset file holds, which has to be there.
pub proof fn law_content_comes_from_the_generator_or_the_preset(
    files: Seq<PresetFileView>,
    platform: RuntimePlatform,
    category: Seq<char>,
    file: AppFileView,
    generated: Generated,
)
    ensures
        ({
            let path = crate::app_categories::logical_under(
                "app/"@ + category + "/"@,
                file.source_rel,
                platform_style(platform),
            );
            let content = raw_content(files, platform, category, file, generated);
            match generated {
                Generated::Made(bytes) => content is Ok && content->Ok_0 == (RawView::Content {
                    bytes: bytes@,
                }),
                Generated::Failed { error, installed } => if installed {
                    content is Ok && content->Ok_0 == (RawView::Kept { error: error@ })
                } else {
                    content is Err
                },
                _ => {
                    &&& content is Ok <==> preset_file(files, path) is Some
                    &&& content is Ok ==> content->Ok_0 == (RawView::Content {
                        bytes: preset_file(files, path)->0.bytes,
                    })
                },
            }
        }),
{
}

proof fn lemma_due(
    context: RuntimeContext,
    category: AppCategoryView,
    files: Seq<AppFileView>,
    before: Seq<DueView>,
)
    ensures
        match due_in_category(context, category, files, before) {
            Ok(due) => {
                &&& due.len() == before.len() + files.len()
                &&& forall|i: int| 0 <= i < before.len() ==> due[i] == #[trigger] before[i]
                &&& forall|i: int|
                    0 <= i < files.len() ==> due[before.len() + i] == (DueView {
                        category: category.name,
                        file: #[trigger] files[i],
                        destination: destination_in(context, category, files[i])->Ok_0,
                    }) && destination_in(context, category, files[i]) is Ok
            },
            Err(_) => exists|i: int|
                0 <= i < files.len() && destination_in(
                    context,
                    category,
                    #[trigger] files[i],
                ) is Err,
        },
    decreases files.len(),
{
    if files.len() > 0 {
        let head = files.drop_last();
        lemma_due(context, category, head, before);
        assert(files[files.len() - 1] == files.last());
        assert(forall|i: int| 0 <= i < head.len() ==> head[i] == #[trigger] files[i]);
        match due_in_category(context, category, head, before) {
            Ok(earlier) => {
                if let Ok(due) = due_in_category(context, category, files, before) {
                    assert forall|i: int| 0 <= i < files.len() implies due[before.len() + i] == (
                    DueView {
                        category: category.name,
                        file: #[trigger] files[i],
                        destination: destination_in(context, category, files[i])->Ok_0,
                    }) && destination_in(context, category, files[i]) is Ok by {
                        if i < head.len() {
                            assert(head[i] == files[i]);
                            assert(due[before.len() + i] == earlier[before.len() + i]);
                        }
                    }
                }
            },
            Err(_) => {
                let i = choose|i: int|
                    0 <= i < head.len() && destination_in(
                        context,
                        category,
                        #[trigger] head[i],
                    ) is Err;
                assert(files[i] == head[i]);
            },
        }
    }
}

/// Every file of every category is assessed, at the place that it goes to.
pub proof fn law_no_file_goes_unassessed(
    context: RuntimeContext,
    categories: Seq<AppCategoryView>,
    at: int,
    index: int,
)
    requires
        0 <= at < categories.len(),
        0 <= index < categories[at].files.len(),
    ensures
        match due_of(context, categories) {
            Ok(due) => {
                let file = categories[at].files[index];
                let place = destination_in(context, categories[at], file);
                place is Ok && due.contains(
                    DueView {
                        category: categories[at].name,
                        file,
                        destination: place->Ok_0,
                    },
                )
            },
            Err(_) => true,
        },
    decreases categories.len(),
{
    if due_of(context, categories) is Ok {
        let due = due_of(context, categories)->Ok_0;
        let head = categories.drop_last();
        let last = categories.last();
        let before = due_of(context, head)->Ok_0;
        lemma_due(context, last, last.files, before);
        let file = categories[at].files[index];
        if at < head.len() {
            assert(head[at] == categories[at]);
            law_no_file_goes_unassessed(context, head, at, index);
            let item = DueView {
                category: categories[at].name,
                file,
                destination: destination_in(context, categories[at], file)->Ok_0,
            };
            let k = choose|k: int| 0 <= k < before.len() && before[k] == item;
            assert(due[k] == before[k]);
        } else {
            assert(last.files[index] == file);
            assert(due[before.len() + index].file == file);
        }
    }
}

/// Whose copies an uninstall clears: nobody's where the presets are the user's own;
/// those of the target where there is one; with a purge of all Apps those of all; and
/// otherwise those of each category that is named, and of no other.
pub proof fn law_uninstall_clears_the_copies_of_its_target(
    is_external: bool,
    purge: bool,
    target: Option<Seq<char>>,
    names: Seq<Seq<char>>,
    index: int,
)
    ensures
        ({
            let prefixes = cache_prefixes(is_external, purge, target, names);
            &&& is_external ==> prefixes.len() == 0
            &&& !is_external && target is Some ==> prefixes == seq!["app/"@ + target->0]
            &&& !is_external && target is None && purge ==> prefixes == seq!["app"@]
            &&& !is_external && target is None && !purge ==> prefixes.len() == names.len() && (0
                <= index < names.len() ==> prefixes[index] == "app/"@ + names[index])
        }),
{
}

/// The categories that receipts name, and the target, are all there.
pub proof fn law_named_categories(
    entries: Seq<AppEntryView>,
    target: Option<Seq<char>>,
    name: Seq<char>,
)
    ensures
        named_categories(entries, target).contains(name) <==> {
            ||| target is Some && target->0 == name
            ||| exists|i: int|
                0 <= i < entries.len() && category_of((#[trigger] entries[i]).source) == Some(name)
        },
    decreases entries.len(),
{
    if entries.len() > 0 {
        let head = entries.drop_last();
        law_named_categories(head, target, name);
        assert(entries[entries.len() - 1] == entries.last());
        assert(forall|i: int| 0 <= i < head.len() ==> head[i] == #[trigger] entries[i]);
        if exists|i: int|
            0 <= i < head.len() && category_of((#[trigger] head[i]).source) == Some(name) {
            let i = choose|i: int|
                0 <= i < head.len() && category_of((#[trigger] head[i]).source) == Some(name);
            assert(entries[i] == head[i]);
        }
    }
}

/// An operation is admitted exactly where it is authorized and brings the content that its
/// action names, and opened exactly where no journal stands and its receipts let it
/// through.
pub proof fn law_operations_are_admitted_once(
    kind: ExecutionKind,
    context: RuntimeContext,
    plan: PlanV1,
    approval: PlanApprovalV1,
    ir: ActionIrV1,
    content: Seq<u8>,
    action: DeclarativeActionV1,
    journal_present: bool,
    entries: Seq<AppEntryView>,
)
    ensures
        admission(kind, context, plan, approval, ir, content) is Ok <==> authorization(
            kind,
            context,
            plan,
            approval,
            ir,
        ) is Ok && content_verdict(ir.actions@[0].kind, content) is Ok,
        opening(action, journal_present, entries) is Ok <==> !journal_present && guards_of(
            entries,
            action,
        ) is Ok,
        opening(action, journal_present, entries) is Ok ==> opening(
            action,
            journal_present,
            entries,
        )->Ok_0 == guards_of(entries, action)->Ok_0,
{
}

/// A change is carried out at the paths of its parts, with its own rights, and a write
/// writes what was prepared for it.
pub proof fn law_steps_are_taken_at_the_paths_of_the_parts(
    kind: ActionKindV1,
    change: ExecutionChange,
    content: PreparedView,
)
    ensures
        match (change, step_of_change(kind, change, content)) {
            (
                ExecutionChange::Move { from, to, privileged },
                HostStepView::MoveFile { from: source, to: target, privileged: rights },
            ) => {
                &&& role_text(kind, from) is Some ==> source == role_text(kind, from)->0
                &&& role_text(kind, to) is Some ==> target == role_text(kind, to)->0
                &&& rights == privileged
            },
            (
                ExecutionChange::Write { role, privileged },
                HostStepView::WriteFile { path, content: text, privileged: rights },
            ) => {
                &&& role_text(kind, role) is Some ==> path == role_text(kind, role)->0
                &&& text == content.written && rights == privileged
            },
            (
                ExecutionChange::WriteRemaining { role },
                HostStepView::WriteFile { path, content: text, privileged: rights },
            ) => {
                &&& role_text(kind, role) is Some ==> path == role_text(kind, role)->0
                &&& text == content.remaining && !rights
            },
            (
                ExecutionChange::SetMode { role, mode, privileged },
                HostStepView::SetMode { path, mode: set, privileged: rights },
            ) => {
                &&& role_text(kind, role) is Some ==> path == role_text(kind, role)->0
                &&& set == mode && rights == privileged
            },
            _ => false,
        },
{
}

/// What undoes a change is carried out at the paths of its parts: a file is removed or
/// moved back with its own rights; keys are taken out of what was found, and what is left
/// is written there with the mode it had; a receipt is put back by saving the receipts.
pub proof fn law_undoing_is_done_at_the_paths_of_the_parts(
    kind: ActionKindV1,
    files: Seq<FileView>,
    mutation: RecoveryMutation,
)
    requires
        mutation is DropKeys ==> kind is MergeManagedJson || kind is RelocateManagedJson,
    ensures
        ({
            let steps = steps_of(kind, files, mutation);
            match mutation {
                RecoveryMutation::Remove { role, privileged } => {
                    &&& steps is Ok && steps->Ok_0.len() == 1
                    &&& role_text(kind, role) is Some ==> steps->Ok_0[0] == (
                    HostStepView::RemoveFile { path: role_text(kind, role)->0, privileged })
                },
                RecoveryMutation::Move { from, to, privileged } => {
                    &&& steps is Ok && steps->Ok_0.len() == 1
                    &&& role_text(kind, from) is Some && role_text(kind, to) is Some
                        ==> steps->Ok_0[0] == (HostStepView::MoveFile {
                        from: role_text(kind, from)->0,
                        to: role_text(kind, to)->0,
                        privileged,
                    })
                },
                RecoveryMutation::DropKeys { role } => {
                    let found = if kind is MergeManagedJson {
                        files[0]
                    } else {
                        files[2]
                    };
                    let keys = if kind is MergeManagedJson {
                        crate::text::texts(kind->MergeManagedJson_managed_keys@)
                    } else {
                        crate::text::texts(kind->desired_managed_keys@)
                    };
                    match found {
                        FileView::Regular { content, mode } => {
                            let left = removal_result(content, keys);
                            &&& steps is Ok <==> left is Ok
                            &&& steps is Ok ==> {
                                &&& steps->Ok_0[0] == (HostStepView::WriteFile {
                                    path: role_text(kind, role).unwrap_or(Seq::empty()),
                                    content: left->Ok_0,
                                    privileged: false,
                                })
                                &&& steps->Ok_0.len() == if mode is Some {
                                    2int
                                } else {
                                    1int
                                }
                                &&& mode is Some ==> steps->Ok_0[1] == (HostStepView::SetMode {
                                    path: role_text(kind, role).unwrap_or(Seq::empty()),
                                    mode: mode->0,
                                    privileged: false,
                                })
                            }
                        },
                        _ => steps is Ok && steps->Ok_0.len() == 0,
                    }
                },
                RecoveryMutation::RestoreKeys { destination, rollback } => {
                    &&& steps is Ok && steps->Ok_0.len() == 1
                    &&& steps->Ok_0[0] is RestoreJsonKeys
                    &&& role_text(kind, destination) is Some
                        ==> steps->Ok_0[0]->RestoreJsonKeys_destination == role_text(
                        kind,
                        destination,
                    )->0
                    &&& role_text(kind, rollback) is Some
                        ==> steps->Ok_0[0]->RestoreJsonKeys_rollback == role_text(
                        kind,
                        rollback,
                    )->0
                    &&& match kind {
                        ActionKindV1::MergeManagedJson { managed_keys, .. } => steps->Ok_0[0]->keys
                            == crate::text::texts(managed_keys@),
                        ActionKindV1::RemoveManagedJson { managed_keys, .. } =>
                            steps->Ok_0[0]->keys == crate::text::texts(managed_keys@),
                        ActionKindV1::RelocateManagedJson { previous_managed_keys, .. } =>
                            steps->Ok_0[0]->keys == crate::text::texts(previous_managed_keys@),
                        _ => true,
                    }
                },
                RecoveryMutation::RestoreReceipt => steps is Ok && steps->Ok_0
                    == seq![HostStepView::SaveManifest],
            }
        }),
{
}

/// Putting keys back writes the object with its own keys restored, with the mode that it
/// had, and takes the material away last.
pub proof fn law_keys_are_put_back_before_the_material_goes(
    destination: Seq<char>,
    rollback: Seq<char>,
    keys: Seq<Seq<char>>,
    current: Seq<u8>,
    original: Seq<u8>,
    mode: Option<u32>,
)
    ensures
        ({
            let steps = key_restoration(destination, rollback, keys, current, original, mode);
            let text = restore_result(current, original, keys);
            &&& steps is Ok <==> text is Ok
            &&& steps is Ok ==> {
                &&& steps->Ok_0[0] == (HostStepView::WriteFile {
                    path: destination,
                    content: text->Ok_0,
                    privileged: false,
                })
                &&& mode is Some ==> steps->Ok_0.len() == 3 && steps->Ok_0[1] == (
                HostStepView::SetMode { path: destination, mode: mode->0, privileged: false })
                &&& mode is None ==> steps->Ok_0.len() == 2
                &&& steps->Ok_0.last() == (HostStepView::RemoveFile {
                    path: rollback,
                    privileged: false,
                })
            }
        }),
{
}

/// An undone removal has its receipt back, and nothing else changes the receipts.
pub proof fn law_undone_removals_have_their_receipt_back(
    entries: Seq<AppEntryView>,
    action: DeclarativeActionV1,
    rollback: RollbackView,
)
    ensures
        ({
            let after = receipts_after(entries, action, rollback);
            let back = rollback.mutations.contains(RecoveryMutation::RestoreReceipt);
            &&& back && removed_receipt(action) is Some ==> after.contains(
                removed_receipt(action)->0,
            )
            &&& !back || removed_receipt(action) is None ==> after == entries
        }),
{
    if removed_receipt(action) is Some {
        crate::report_laws::law_upsert_keeps_the_other_receipts(
            entries,
            removed_receipt(action)->0,
            0,
        );
    }
}

/// The backup that is reported of an operation is the one that its receipt names, and for
/// a removal the one that was given back.
pub proof fn law_backups_are_reported_as_they_are_kept(action: DeclarativeActionV1)
    ensures
        ({
            let backup = execution_backup(action.kind);
            match action.kind {
                ActionKindV1::RemoveManagedFile { .. } => backup is None,
                ActionKindV1::RemoveManagedFileWithBackup { backup: kept, .. } => backup == Some(
                    kept@,
                ),
                ActionKindV1::ForceRemoveManagedFile { persistent_backup, .. } => {
                    &&& backup is Some <==> persistent_backup is Some
                    &&& backup is Some ==> backup->0 == persistent_backup->0.path@
                },
                ActionKindV1::RemoveManagedJson { .. } => backup is None,
                ActionKindV1::Foreign(_) => backup is None,
                _ => receipt_owed(action, false) is Some && backup == receipt_owed(
                    action,
                    false,
                )->0.backup,
            }
        }),
{
}

} // verus!
