//! What is recorded of installed, removed, refreshed and upgraded files: in receipts, in
//! outcomes and in reports.

use vstd::prelude::*;
use vstd::string::*;

use crate::app_install::InstallOutcome;
use crate::app_lifecycle::{
    app_source, install_changes, install_considered, install_recorded, AssessedView,
    InstallResultView, InstallStep, RunView,
};
use crate::app_refresh::{refresh_recorded, RefreshResultView};
use crate::app_types::{AppFileAction, AppFileView};
use crate::app_uninstall::{
    drops_receipt, is_selected, selected_entries, uninstall_recorded, uninstall_refused,
    UninstallResultView,
};
use crate::app_upgrade::{is_cleared, NewFileStep, UpgradeDecision, UpgradeStep, UpgradeView};
use crate::guard_laws::{is_unowned, source_is_new};
use crate::lifecycle::{LifecycleEffect, LifecycleStatus};
use crate::manifest::{
    dest_index, lemma_dest_index, lemma_source_index, owns, upserted, without_dest, AppEntryView,
};
use crate::path::same_path;

verus! {

/// Putting a receipt in changes no receipt of another place: each stays, and stays where
/// it was; at most one receipt is added.
pub proof fn law_upsert_keeps_the_other_receipts(
    entries: Seq<AppEntryView>,
    entry: AppEntryView,
    index: int,
)
    ensures
        upserted(entries, entry).contains(entry),
        0 <= index < entries.len() && !same_path(entries[index].destination, entry.destination)
            ==> upserted(entries, entry)[index] == entries[index],
        upserted(entries, entry).len() == if is_unowned(entries, entry.destination) {
            entries.len() + 1
        } else {
            entries.len()
        },
        0 <= index < upserted(entries, entry).len() ==> upserted(entries, entry)[index] == entry
            || (index < entries.len() && upserted(entries, entry)[index] == entries[index]),
{
    lemma_dest_index(entries, entry.destination);
    let after = upserted(entries, entry);
    match dest_index(entries, entry.destination) {
        Some(at) => {
            assert(after[at] == entry);
        },
        None => {
            assert(after[entries.len() as int] == entry);
        },
    }
}

/// Taking out the receipts of a place keeps every other receipt, and keeps nothing of
/// that place.
pub proof fn law_removal_keeps_the_other_receipts(
    entries: Seq<AppEntryView>,
    destination: Seq<char>,
    entry: AppEntryView,
)
    ensures
        without_dest(entries, destination).contains(entry) <==> entries.contains(entry)
            && !same_path(entry.destination, destination),
    decreases entries.len(),
{
    if entries.len() > 0 {
        let head = entries.drop_last();
        law_removal_keeps_the_other_receipts(head, destination, entry);
        let before = without_dest(head, destination);
        let after = without_dest(entries, destination);
        if entries.contains(entry) {
            let i = choose|i: int| 0 <= i < entries.len() && entries[i] == entry;
            if i < head.len() {
                assert(head[i] == entry);
            } else {
                assert(entries.last() == entry);
            }
        }
        if head.contains(entry) {
            let i = choose|i: int| 0 <= i < head.len() && head[i] == entry;
            assert(entries[i] == entry);
        }
        assert(entries[entries.len() - 1] == entries.last());
        if !same_path(entries.last().destination, destination) {
            assert(after == before.push(entries.last()));
            if before.contains(entry) {
                let k = choose|k: int| 0 <= k < before.len() && before[k] == entry;
                assert(after[k] == entry);
            }
            assert(after[before.len() as int] == entries.last());
            if after.contains(entry) {
                let k = choose|k: int| 0 <= k < after.len() && after[k] == entry;
                if k < before.len() {
                    assert(before[k] == entry);
                }
            }
        }
    }
}

/// What is recorded of an install. A file that was written has a receipt for its place,
/// which names its source, its identity, its keys and its rights, and keeps the backup
/// that was made for it; its category has changed. Where nothing was written, in a
/// preview, after a failure or where the file was already there, no receipt changes and
/// no category has changed.
pub proof fn law_install_is_recorded_as_it_was(
    run: RunView,
    assessment: AssessedView,
    result: InstallResultView,
)
    requires
        result is DryRun <==> run.dry_run,
    ensures
        ({
            let after = install_recorded(run, assessment, result);
            let wrote = result is Installed || result is BackedUp;
            let outcome = after.outcomes.last();
            let report = after.files.last();
            let index = dest_index(after.entries, assessment.destination);
            &&& after.outcomes.len() == run.outcomes.len() + 1
            &&& after.files.len() == run.files.len() + 1
            &&& after.outcomes.drop_last() == run.outcomes
            &&& after.files.drop_last() == run.files
            &&& outcome.target == "app/"@ + assessment.category
            &&& outcome.resource == Some(assessment.file.source_rel)
            &&& report.category == assessment.category
            &&& report.source == assessment.file.source_rel
            &&& report.destination == assessment.destination
            &&& report.status == outcome.status
            &&& !wrote ==> after.entries == run.entries && after.changed == run.changed
            &&& wrote ==> {
                &&& after.changed == run.changed.insert(assessment.category)
                &&& index is Some
                &&& ({
                    let receipt = after.entries[index->0];
                    &&& receipt.source == app_source(
                        assessment.category,
                        assessment.file.source_rel,
                    )
                    &&& receipt.destination == assessment.destination
                    &&& receipt.managed_keys == assessment.file.install_strategy
                    &&& receipt.requires_admin == assessment.file.requires_admin
                    &&& receipt.uses_env <==> assessment.file.transforms.contains("template"@)
                        || assessment.file.generator is Some
                    &&& receipt.content_hash == match result {
                        InstallResultView::Installed { hash } => hash,
                        InstallResultView::BackedUp { hash, .. } => hash,
                        _ => 0,
                    }
                    &&& match result {
                        InstallResultView::BackedUp { backup, .. } => receipt.backup == Some(
                            backup,
                        ),
                        _ => match dest_index(run.entries, assessment.destination) {
                            Some(at) => receipt.backup == run.entries[at].backup,
                            None => receipt.backup is None,
                        },
                    }
                    &&& report.backup == receipt.backup
                })
            }
            &&& outcome.status == LifecycleStatus::Changed <==> wrote
            &&& outcome.status == LifecycleStatus::Unchanged <==> result is AlreadyManaged
            &&& outcome.status == LifecycleStatus::Previewed <==> result is DryRun
            &&& outcome.status == LifecycleStatus::Failed <==> result is Failed
            &&& outcome.effects.contains(LifecycleEffect::ResourceWritten) <==> wrote
            &&& outcome.effects.contains(LifecycleEffect::ReceiptWritten) <==> wrote
            &&& outcome.effects.contains(LifecycleEffect::BackupCreated) <==> result is BackedUp
            &&& outcome.effects.contains(LifecycleEffect::ResourceWritePreviewed)
                <==> result is DryRun
            &&& result is AlreadyManaged || result is Failed ==> outcome.effects.len() == 0
            &&& outcome.diagnostic_codes == if result is Failed {
                seq!["app_install_failed"@]
            } else {
                Seq::empty()
            }
            &&& match result {
                InstallResultView::Failed { error } => report.error == Some(error),
                _ => report.error is None,
            }
            &&& report.action == AppFileAction::Installed <==> result is Installed
            &&& report.action == AppFileAction::BackedUp <==> result is BackedUp
            &&& report.action == AppFileAction::Unchanged <==> result is AlreadyManaged
            &&& report.action == AppFileAction::PreviewInstall <==> result is DryRun
            &&& report.action == AppFileAction::Failed <==> result is Failed
        }),
{
    let after = install_recorded(run, assessment, result);
    assert(after.outcomes.drop_last() =~= run.outcomes);
    assert(after.files.drop_last() =~= run.files);
    lemma_effects(after.outcomes.last().effects);
    if install_changes(result) {
        let receipt = crate::app_lifecycle::receipt_of(
            assessment,
            match result {
                InstallResultView::Installed { hash } => hash,
                InstallResultView::BackedUp { hash, .. } => hash,
                _ => 0,
            },
            match result {
                InstallResultView::BackedUp { backup, .. } => Some(backup),
                _ => crate::app_lifecycle::kept_backup(run.entries, assessment.destination),
            },
        );
        crate::manifest::law_upsert_is_found(run.entries, receipt, assessment.destination);
        lemma_dest_index(run.entries, assessment.destination);
    }
}

proof fn lemma_effects(effects: Seq<LifecycleEffect>)
    ensures
        forall|effect: LifecycleEffect| #[trigger]
            effects.contains(effect) ==> effects.len() > 0,
        effects.len() > 0 ==> effects.contains(effects[0]),
        effects.len() > 1 ==> effects.contains(effects[1]),
        effects.len() > 2 ==> effects.contains(effects[2]),
{
}

/// What an install does with an assessed file: one that needs rights that were not
/// granted fails, one whose generator failed is left as it is, and both are reported; any
/// other with content is put in place, and counts as the library's own exactly where a
/// receipt is for its destination.
pub proof fn law_install_respects_rights_and_generators(
    run: RunView,
    assessment: AssessedView,
    authorized: bool,
)
    ensures
        ({
            let (after, step) = install_considered(run, assessment, authorized);
            let refused = assessment.file.requires_admin && !authorized;
            let kept = !refused && assessment.generator_error is Some;
            let placed = !refused && !kept && assessment.content is Some;
            &&& after.entries == run.entries && after.changed == run.changed
            &&& placed <==> step is Install
            &&& placed ==> after == run && step == (InstallStep::Install {
                is_managed: !is_unowned(run.entries, assessment.destination),
            })
            &&& refused || kept <==> step == InstallStep::Recorded
            &&& refused ==> after.outcomes.last().status == LifecycleStatus::Failed
                && after.outcomes.last().effects.len() == 0 && after.files.last().error == Some(
                "administrator permission was not granted"@,
            )
            &&& kept ==> after.outcomes.last().status == LifecycleStatus::Preserved
                && after.files.last().generator_error == assessment.generator_error
                && after.files.last().action == AppFileAction::GeneratorPreserved
            &&& refused || kept ==> after.outcomes.len() == run.outcomes.len() + 1
                && after.files.len() == run.files.len() + 1 && after.files.last().category
                == assessment.category && after.files.last().source == assessment.file.source_rel
                && after.files.last().destination == assessment.destination
        }),
{
}

/// What is recorded of an uninstall. The receipts of the place go exactly where the file
/// is gone: removed, given back, or not found; what a user changed, a preview and a failure
/// leave them. An override of a user's change is always said.
pub proof fn law_uninstall_is_recorded_as_it_was(
    run: RunView,
    entry: AppEntryView,
    result: UninstallResultView,
)
    ensures
        ({
            let after = uninstall_recorded(run, entry, result);
            let outcome = after.outcomes.last();
            let report = after.files.last();
            let gone = result is Removed || result is ForceRemoved || result is Restored
                || result is ForceRestored || result is NotFound;
            &&& after.outcomes.len() == run.outcomes.len() + 1
            &&& after.files.len() == run.files.len() + 1
            &&& after.entries == if gone {
                without_dest(run.entries, entry.destination)
            } else {
                run.entries
            }
            &&& after.changed == run.changed
            &&& outcome.status == LifecycleStatus::Changed <==> gone
            &&& outcome.status == LifecycleStatus::Preserved <==> result is UserModified
            &&& outcome.status == LifecycleStatus::Previewed <==> result is DryRun
            &&& outcome.status == LifecycleStatus::Failed <==> result is Failed
            &&& report.status == outcome.status
            &&& report.destination == entry.destination
            &&& report.backup == entry.backup
            &&& outcome.effects.contains(LifecycleEffect::ReceiptRemoved) <==> gone
            &&& outcome.effects.contains(LifecycleEffect::ResourceRemoved) <==> result is Removed
                || result is ForceRemoved
            &&& outcome.effects.contains(LifecycleEffect::BackupRestored) <==> result is Restored
                || result is ForceRestored
            &&& outcome.effects.contains(LifecycleEffect::UserModificationOverridden)
                <==> result is ForceRemoved || result is ForceRestored
            &&& outcome.effects.contains(LifecycleEffect::UserResourcePreserved)
                <==> result is UserModified
            &&& outcome.effects.contains(LifecycleEffect::ResourceRemovePreviewed)
                <==> result is DryRun
            &&& result is Failed ==> outcome.effects.len() == 0 && outcome.diagnostic_codes
                == seq!["app_uninstall_failed"@]
            &&& !(result is Failed) ==> outcome.diagnostic_codes.len() == 0
            &&& match result {
                UninstallResultView::Failed { error } => report.error == Some(error),
                _ => report.error is None,
            }
            &&& report.action == AppFileAction::Removed <==> result is Removed
            &&& report.action == AppFileAction::ForceRemoved <==> result is ForceRemoved
            &&& report.action == AppFileAction::Restored <==> result is Restored
            &&& report.action == AppFileAction::ForceRestored <==> result is ForceRestored
            &&& report.action == AppFileAction::Missing <==> result is NotFound
            &&& report.action == AppFileAction::UserModified <==> result is UserModified
            &&& report.action == AppFileAction::PreviewRemove <==> result is DryRun
            &&& report.action == AppFileAction::Failed <==> result is Failed
        }),
{
    let after = uninstall_recorded(run, entry, result);
    lemma_effects(after.outcomes.last().effects);
}

/// A file whose removal needs rights that were not granted stays, with its receipt, and
/// that is reported as a failure.
pub proof fn law_refused_uninstall_keeps_the_file(run: RunView, entry: AppEntryView)
    ensures
        ({
            let after = uninstall_refused(run, entry);
            &&& after.entries == run.entries && after.changed == run.changed
            &&& after.outcomes.len() == run.outcomes.len() + 1
            &&& after.files.len() == run.files.len() + 1
            &&& after.outcomes.last().status == LifecycleStatus::Failed
            &&& after.outcomes.last().effects.len() == 0
            &&& after.outcomes.last().diagnostic_codes == seq!["app_admin_not_authorized"@]
            &&& after.files.last().error == Some("administrator permission was not granted"@)
            &&& after.files.last().destination == entry.destination
        }),
{
}

/// An uninstall chooses all receipts that belong to its target, once each, in their
/// order, and no other.
pub proof fn law_uninstall_misses_no_receipt(
    entries: Seq<AppEntryView>,
    target: Option<Seq<char>>,
    destinations: Seq<Seq<char>>,
    entry: AppEntryView,
)
    ensures
        ({
            let selected = selected_entries(entries, target, destinations);
            let belongs = match target {
                None => true,
                Some(category) => {
                    let start = "app/"@ + category + "/"@;
                    (entry.source.len() >= start.len() && entry.source.take(start.len() as int)
                        == start) || exists|i: int|
                        0 <= i < destinations.len() && same_path(
                            #[trigger] destinations[i],
                            entry.destination,
                        )
                },
            };
            &&& selected.contains(entry) <==> entries.contains(entry) && belongs
            &&& selected.len() <= entries.len()
            &&& target is None ==> selected == entries
        }),
    decreases entries.len(),
{
    if entries.len() > 0 {
        let head = entries.drop_last();
        law_uninstall_misses_no_receipt(head, target, destinations, entry);
        let before = selected_entries(head, target, destinations);
        let all = selected_entries(entries, target, destinations);
        if entries.contains(entry) {
            let i = choose|i: int| 0 <= i < entries.len() && entries[i] == entry;
            if i < head.len() {
                assert(head[i] == entry);
            } else {
                assert(entries.last() == entry);
            }
        }
        if head.contains(entry) {
            let i = choose|i: int| 0 <= i < head.len() && head[i] == entry;
            assert(entries[i] == entry);
        }
        assert(entries[entries.len() - 1] == entries.last());
        if is_selected(entries.last(), target, destinations) {
            assert(all == before.push(entries.last()));
            if before.contains(entry) {
                let k = choose|k: int| 0 <= k < before.len() && before[k] == entry;
                assert(all[k] == entry);
            }
            assert(all[before.len() as int] == entries.last());
            if all.contains(entry) {
                let k = choose|k: int| 0 <= k < all.len() && all[k] == entry;
                if k < before.len() {
                    assert(before[k] == entry);
                }
            }
        }
        if target is None {
            assert(head.push(entries.last()) =~= entries);
        }
    }
}

/// What is recorded of a refresh: a file that was written has a receipt for its place
/// with the new identity and the backup that its receipt had, and its category has
/// changed; in every other case no receipt and no category changes.
pub proof fn law_refresh_is_recorded_as_it_was(
    run: RunView,
    category: Seq<char>,
    file: AppFileView,
    destination: Seq<char>,
    entry: AppEntryView,
    result: RefreshResultView,
)
    ensures
        ({
            let after = refresh_recorded(run, category, file, destination, entry, result);
            let outcome = after.outcomes.last();
            let report = after.files.last();
            let index = dest_index(after.entries, destination);
            &&& after.outcomes.len() == run.outcomes.len() + 1
            &&& after.files.len() == run.files.len() + 1
            &&& match result {
                RefreshResultView::Installed { hash } => {
                    let receipt = after.entries[index->0];
                    &&& after.changed == run.changed.insert(category)
                    &&& index is Some
                    &&& receipt.source == entry.source
                    &&& receipt.destination == destination
                    &&& receipt.backup == entry.backup
                    &&& receipt.content_hash == hash
                    &&& receipt.managed_keys == file.install_strategy
                    &&& receipt.requires_admin == file.requires_admin
                    &&& receipt.uses_env
                },
                _ => after.entries == run.entries && after.changed == run.changed,
            }
            &&& outcome.status == LifecycleStatus::Changed <==> result is Installed
            &&& outcome.status == LifecycleStatus::Unchanged <==> result is Unchanged
            &&& outcome.status == LifecycleStatus::Preserved <==> result is UserModified
            &&& outcome.status == LifecycleStatus::Failed <==> result is Failed
            &&& outcome.target == "app/"@ + category
            &&& outcome.resource == Some(file.source_rel)
            &&& report.status == outcome.status
            &&& report.category == category && report.source == file.source_rel
                && report.destination == destination
            &&& outcome.effects.contains(LifecycleEffect::ResourceWritten) <==> result is Installed
            &&& outcome.effects.contains(LifecycleEffect::ReceiptWritten) <==> result is Installed
            &&& outcome.effects.contains(LifecycleEffect::UserResourcePreserved)
                <==> result is UserModified
            &&& match result {
                RefreshResultView::Failed { error } => report.error == Some(error)
                    && outcome.diagnostic_codes == seq!["app_refresh_failed"@],
                _ => report.error is None && outcome.diagnostic_codes.len() == 0,
            }
        }),
{
    let after = refresh_recorded(run, category, file, destination, entry, result);
    lemma_effects(after.outcomes.last().effects);
    if let RefreshResultView::Installed { hash } = result {
        crate::manifest::law_upsert_is_found(
            run.entries,
            crate::app_refresh::refreshed_receipt(entry, file, destination, hash),
            destination,
        );
    }
}

/// Whether one step of an upgrade was counted as it came out: what is left alone, what
/// failed and what a user changed is counted, by one at most each; receipts, changed
/// categories and hints change only where a file was put in place or removed.
pub open spec fn is_counted(before: UpgradeView, after: UpgradeView) -> bool {
    let grows = |from: usize, to: usize| to == from || (from < usize::MAX && to == from + 1);
    &&& after.outcomes.len() <= before.outcomes.len() + 1
    &&& after.files.len() <= before.files.len() + 1
    &&& grows(before.skipped, after.skipped)
    &&& grows(before.failed, after.failed)
    &&& grows(before.user_modified, after.user_modified)
    &&& after.version == before.version
    &&& after.operation == before.operation && after.dry_run == before.dry_run
    &&& after.updated == before.updated
    &&& after.outcomes.len() == before.outcomes.len() + 1 ==> after.outcomes.drop_last()
        == before.outcomes
    &&& after.files.len() == before.files.len() + 1 ==> after.files.drop_last() == before.files
}

/// Whether nothing was put in place or removed.
pub open spec fn changed_nothing(before: UpgradeView, after: UpgradeView) -> bool {
    after.entries == before.entries && after.changed == before.changed && after.restart_hints
        == before.restart_hints
}

/// What is recorded of a file that an upgrade leaves alone: it is counted as skipped, and
/// as a user's where it is one, and no receipt changes. Only a file that is to be
/// installed is not recorded yet.
pub proof fn law_upgrade_records_what_it_leaves(
    run: UpgradeView,
    decision: UpgradeDecision,
    assessment: AssessedView,
    category: Seq<char>,
    file: Seq<char>,
)
    requires
        run.skipped < usize::MAX,
        run.user_modified < usize::MAX,
    ensures
        ({
            let after = run.after_decision(decision, assessment, category, file);
            let outcome = after.outcomes.last();
            &&& is_counted(run, after) && changed_nothing(run, after)
            &&& decision is Install <==> after == run
            &&& !(decision is Install) ==> {
                &&& after.outcomes.len() == run.outcomes.len() + 1
                &&& after.skipped == run.skipped + 1
                &&& after.failed == run.failed
                &&& after.user_modified == if decision is Unchanged {
                    run.user_modified as int
                } else {
                    run.user_modified + 1
                }
                &&& outcome.target == "app/"@ + category && outcome.resource == Some(file)
                &&& outcome.status == match decision {
                    UpgradeDecision::Occupied => LifecycleStatus::Conflict,
                    UpgradeDecision::UserModified => LifecycleStatus::Preserved,
                    _ => LifecycleStatus::Unchanged,
                }
                &&& outcome.diagnostic_codes == if decision is Occupied {
                    seq!["app_destination_occupied"@]
                } else {
                    Seq::empty()
                }
                &&& decision is UserModified ==> after.files.last().action
                    == AppFileAction::UserModified
                &&& decision is Unchanged ==> after.files.last().action == AppFileAction::Unchanged
            }
        }),
{
    let after = run.after_decision(decision, assessment, category, file);
    if after.outcomes.len() == run.outcomes.len() + 1 {
        assert(after.outcomes.drop_last() =~= run.outcomes);
    }
    if after.files.len() == run.files.len() + 1 {
        assert(after.files.drop_last() =~= run.files);
    }
}

/// What is recorded of a receipt whose source names no file, of a file whose source is
/// gone and which is kept, and of a file that could not be put in place: nothing changes,
/// and each is counted and told.
pub proof fn law_upgrade_records_what_it_cannot_do(
    run: UpgradeView,
    assessment: AssessedView,
    category: Seq<char>,
    file: Seq<char>,
    code: Seq<char>,
    error: Seq<char>,
)
    requires
        run.skipped < usize::MAX,
        run.failed < usize::MAX,
    ensures
        ({
            let invalid = run.after_invalid();
            let stale = run.after_stale(category, file);
            let failed = run.after_failed(assessment, category, file, code, error);
            let taken_back = run.after_rollback(category, file);
            &&& is_counted(run, invalid) && changed_nothing(run, invalid)
            &&& invalid.skipped == run.skipped + 1 && invalid.failed == run.failed
            &&& invalid.outcomes.last().target == "app/unknown"@
            &&& invalid.outcomes.last().diagnostic_codes == seq!["app_manifest_source_invalid"@]
            &&& is_counted(run, stale) && changed_nothing(run, stale)
            &&& stale.skipped == run.skipped + 1 && stale.failed == run.failed
            &&& stale.outcomes.last().status == LifecycleStatus::Skipped
            &&& stale.outcomes.last().diagnostic_codes == seq!["app_stale_source_preserved"@]
            &&& is_counted(run, failed) && changed_nothing(run, failed)
            &&& failed.failed == run.failed + 1 && failed.skipped == run.skipped
            &&& failed.outcomes.last().status == LifecycleStatus::Failed
            &&& failed.outcomes.last().diagnostic_codes == seq![code]
            &&& failed.files.last().error == Some(error)
            &&& is_counted(run, taken_back) && changed_nothing(run, taken_back)
            &&& taken_back.failed == run.failed + 1 && taken_back.skipped == run.skipped
            &&& taken_back.outcomes.last().status == LifecycleStatus::Failed
            &&& taken_back.outcomes.last().diagnostic_codes == seq!["app_relocation_rollback"@]
        }),
{
    let failed = run.after_failed(assessment, category, file, code, error);
    assert(run.after_invalid().outcomes.drop_last() =~= run.outcomes);
    assert(run.after_stale(category, file).outcomes.drop_last() =~= run.outcomes);
    assert(run.after_rollback(category, file).outcomes.drop_last() =~= run.outcomes);
    assert(failed.outcomes.drop_last() =~= run.outcomes);
    assert(failed.files.drop_last() =~= run.files);
}

/// What is recorded of a file whose source is gone and which was to be removed: its
/// receipt goes, and its category has changed, exactly where the file is gone; what a user
/// changed stays with its receipt, and is counted.
pub proof fn law_upgrade_records_what_it_prunes(
    run: UpgradeView,
    entry: AppEntryView,
    category: Seq<char>,
    file: Seq<char>,
    came: UninstallResultView,
)
    requires
        run.skipped < usize::MAX,
        run.user_modified < usize::MAX,
    ensures
        ({
            let after = run.after_pruned(entry, category, file, came);
            let gone = came is Removed || came is ForceRemoved || came is Restored
                || came is ForceRestored || came is NotFound;
            &&& is_counted(run, after)
            &&& after.outcomes.len() == run.outcomes.len() + 1
            &&& after.files.len() == run.files.len() + 1
            &&& after.files.last().destination == entry.destination
            &&& after.files.last().category == category
            &&& gone ==> {
                &&& after.entries == without_dest(run.entries, entry.destination)
                &&& after.changed == run.changed.insert(category)
                &&& after.skipped == run.skipped && after.user_modified == run.user_modified
                &&& after.outcomes.last().status == LifecycleStatus::Changed
            }
            &&& !gone ==> {
                &&& after.entries == run.entries && after.changed == run.changed
                &&& after.skipped == run.skipped + 1
                &&& after.user_modified == run.user_modified + 1
                &&& after.outcomes.last().status != LifecycleStatus::Changed
            }
            &&& after.restart_hints == run.restart_hints && after.failed == run.failed
        }),
{
    let after = run.after_pruned(entry, category, file, came);
    assert(after.outcomes.drop_last() =~= run.outcomes);
    assert(after.files.drop_last() =~= run.files);
}

/// What is recorded of a file that was put in place: it has a receipt for its place with
/// the identity that was installed and the backup that its receipt had; where it moved,
/// its old place has none; its category has changed, and its hint is given.
pub proof fn law_upgrade_records_what_it_installs(
    run: UpgradeView,
    entry: AppEntryView,
    assessment: AssessedView,
    category: Seq<char>,
    file: Seq<char>,
    hash: u64,
    relocated: bool,
)
    requires
        relocated ==> !same_path(assessment.destination, entry.destination),
    ensures
        ({
            let after = run.after_upgraded(entry, assessment, category, file, hash, relocated);
            let index = dest_index(after.entries, assessment.destination);
            let receipt = after.entries[index->0];
            let outcome = after.outcomes.last();
            &&& is_counted(run, after)
            &&& after.skipped == run.skipped && after.failed == run.failed && after.user_modified
                == run.user_modified
            &&& index is Some
            &&& receipt.source == app_source(assessment.category, assessment.file.source_rel)
            &&& receipt.destination == assessment.destination
            &&& receipt.content_hash == hash
            &&& receipt.backup == entry.backup
            &&& receipt.managed_keys == assessment.file.install_strategy
            &&& receipt.requires_admin == assessment.file.requires_admin
            &&& relocated ==> is_unowned(after.entries, entry.destination)
            &&& after.changed == run.changed.insert(category)
            &&& match assessment.file.restart_hint {
                Some(hint) => after.restart_hints == run.restart_hints.insert(hint),
                None => after.restart_hints == run.restart_hints,
            }
            &&& outcome.status == LifecycleStatus::Changed
            &&& outcome.target == "app/"@ + category && outcome.resource == Some(file)
            &&& outcome.effects.contains(LifecycleEffect::ResourceWritten)
            &&& outcome.effects.contains(LifecycleEffect::ReceiptWritten)
            &&& outcome.effects.contains(LifecycleEffect::ResourceRemoved) <==> relocated
            &&& after.files.last().action == AppFileAction::Installed
            &&& after.files.last().destination == assessment.destination
        }),
{
    let after = run.after_upgraded(entry, assessment, category, file, hash, relocated);
    assert(after.outcomes.drop_last() =~= run.outcomes);
    assert(after.files.drop_last() =~= run.files);
    lemma_effects(after.outcomes.last().effects);
    let receipt = crate::app_lifecycle::receipt_of(assessment, hash, entry.backup);
    let cleared = if relocated {
        without_dest(run.entries, entry.destination)
    } else {
        run.entries
    };
    crate::manifest::law_upsert_is_found(cleared, receipt, entry.destination);
    if relocated {
        crate::manifest::law_remove_clears_destination(
            run.entries,
            entry.destination,
            entry.destination,
        );
        assert(!owns(after.entries, entry.destination));
    }
}

/// What an upgrade does with an installed file that still has a source: one that is
/// generated by hand is left for that, one whose generator failed is kept and counted as
/// a failure, any other with content is weighed.
pub proof fn law_upgrade_considers_generators(
    run: UpgradeView,
    assessment: AssessedView,
    category: Seq<char>,
    file: Seq<char>,
)
    requires
        run.skipped < usize::MAX,
        run.failed < usize::MAX,
    ensures
        ({
            let (after, step) = run.after_considered(assessment, category, file);
            let by_hand = assessment.file.generator is Some && !assessment.file.generator->0.auto;
            let broken = !by_hand && assessment.generator_error is Some;
            &&& is_counted(run, after) && changed_nothing(run, after)
            &&& step == UpgradeStep::Recorded <==> by_hand || broken
            &&& step == UpgradeStep::Weigh <==> !by_hand && !broken && assessment.content is Some
            &&& step != UpgradeStep::Recorded ==> after == run
            &&& by_hand ==> after.skipped == run.skipped + 1 && after.failed == run.failed
                && after.outcomes.last().diagnostic_codes == seq!["app_manual_refresh_required"@]
            &&& broken ==> after.failed == run.failed + 1 && after.skipped == run.skipped
                && after.outcomes.last().diagnostic_codes == seq!["app_generator_unavailable"@]
                && after.files.last().generator_error == assessment.generator_error
        }),
{
    let after = run.after_considered(assessment, category, file).0;
    if after.outcomes.len() == run.outcomes.len() + 1 {
        assert(after.outcomes.drop_last() =~= run.outcomes);
    }
    if after.files.len() == run.files.len() + 1 {
        assert(after.files.drop_last() =~= run.files);
    }
}

/// What an upgrade does with a file that is not installed yet. It is put in place exactly
/// where it is not generated by hand, no receipt is of its source or for its destination,
/// it has content, and, unless its keys are merged, nothing stands there; what stands in
/// the way of a whole file is a conflict, and is told.
pub proof fn law_upgrade_installs_new_files(
    run: UpgradeView,
    assessment: AssessedView,
    present: bool,
)
    requires
        run.skipped < usize::MAX,
        run.failed < usize::MAX,
    ensures
        ({
            let (after, step) = run.after_new_considered(assessment, present);
            let by_hand = assessment.file.generator is Some && !assessment.file.generator->0.auto;
            let known = !source_is_new(
                run.entries,
                app_source(assessment.category, assessment.file.source_rel),
            ) || !is_unowned(run.entries, assessment.destination);
            let blocked = assessment.file.install_strategy is None && present;
            &&& is_counted(run, after) && changed_nothing(run, after)
            &&& step == NewFileStep::Install <==> !by_hand && !known && !blocked
                && assessment.content is Some
            &&& step == NewFileStep::Install || by_hand || known ==> after == run
            &&& !by_hand && !known && blocked ==> after.skipped == run.skipped + 1 && after.failed
                == run.failed && after.outcomes.last().status == LifecycleStatus::Conflict
                && after.outcomes.last().target == "app/"@ + assessment.category
            &&& !by_hand && !known && !blocked && assessment.content is None ==> after.failed
                == run.failed + 1 && after.skipped == run.skipped
        }),
{
    lemma_source_index(
        run.entries,
        app_source(assessment.category, assessment.file.source_rel),
    );
    let after = run.after_new_considered(assessment, present).0;
    if after.outcomes.len() == run.outcomes.len() + 1 {
        assert(after.outcomes.drop_last() =~= run.outcomes);
    }
    assert(owns(run.entries, assessment.destination) <==> !is_unowned(
        run.entries,
        assessment.destination,
    ));
}

/// What is recorded of a new file: where it was written it has a receipt with what was
/// installed and no backup; otherwise it counts as skipped.
pub proof fn law_upgrade_records_new_files(
    run: UpgradeView,
    assessment: AssessedView,
    outcome: InstallOutcome,
    hash: u64,
)
    requires
        run.skipped < usize::MAX,
        match outcome {
            InstallOutcome::Installed { hash: own } => own == hash,
            InstallOutcome::BackedUpAndInstalled { hash: own, .. } => own == hash,
            _ => true,
        },
    ensures
        ({
            let after = run.after_new(assessment, outcome);
            let wrote = outcome is Installed || outcome is BackedUpAndInstalled;
            let index = dest_index(after.entries, assessment.destination);
            let receipt = after.entries[index->0];
            &&& wrote ==> {
                &&& index is Some
                &&& receipt.source == app_source(assessment.category, assessment.file.source_rel)
                &&& receipt.destination == assessment.destination
                &&& receipt.content_hash == hash
                &&& receipt.backup is None
                &&& receipt.managed_keys == assessment.file.install_strategy
                &&& after.changed == run.changed.insert(assessment.category)
                &&& after.skipped == run.skipped
                &&& after.outcomes.last().status == LifecycleStatus::Changed
            }
            &&& !wrote ==> after == (UpgradeView {
                skipped: (run.skipped + 1) as usize,
                ..run
            })
        }),
{
    let receipt = crate::app_lifecycle::receipt_of(assessment, hash, None);
    crate::manifest::law_upsert_is_found(run.entries, receipt, assessment.destination);
}

/// The old place of a file that moved counts as cleared exactly where nothing of the
/// library's is left there: it was removed, given back, or not found. A forced removal is
/// never asked for, and nothing else clears it.
pub proof fn law_old_places_are_cleared(result: UninstallResultView)
    ensures
        is_cleared(result) ==> drops_receipt(result),
        is_cleared(result) <==> result is Removed || result is Restored || result is NotFound,
{
}

/// What came of an install or of an uninstall is taken as it came: with its identity, its
/// backup and its error.
pub proof fn law_results_are_taken_as_they_came(
    installed: Result<InstallOutcome, String>,
    removed: Result<crate::app_install::UninstallOutcome, String>,
)
    ensures
        match crate::app_lifecycle::install_result(installed) {
            InstallResultView::Installed { hash } => installed is Ok && installed->Ok_0 == (
            InstallOutcome::Installed { hash }),
            InstallResultView::BackedUp { backup, hash } => installed is Ok
                && installed->Ok_0 is BackedUpAndInstalled && installed->Ok_0->backup@ == backup
                && installed->Ok_0->BackedUpAndInstalled_hash == hash,
            InstallResultView::AlreadyManaged => installed is Ok
                && installed->Ok_0 is AlreadyManaged,
            InstallResultView::DryRun => installed is Ok && installed->Ok_0 is DryRun,
            InstallResultView::Failed { error } => installed is Err && installed->Err_0@ == error,
        },
        match crate::app_uninstall::uninstall_result(removed) {
            UninstallResultView::Removed => removed is Ok && removed->Ok_0 is Removed,
            UninstallResultView::ForceRemoved => removed is Ok && removed->Ok_0 is ForceRemoved,
            UninstallResultView::Restored => removed is Ok && removed->Ok_0 is RestoredBackup,
            UninstallResultView::ForceRestored => removed is Ok
                && removed->Ok_0 is ForceRestoredBackup,
            UninstallResultView::NotFound => removed is Ok && removed->Ok_0 is NotFound,
            UninstallResultView::UserModified => removed is Ok && removed->Ok_0 is UserModified,
            UninstallResultView::DryRun => removed is Ok && removed->Ok_0 is DryRun,
            UninstallResultView::Failed { error } => removed is Err && removed->Err_0@ == error,
        },
{
}

/// Reports say of a file what its metadata says: its transforms and its hint; a generator's
/// error stands apart from other errors.
pub proof fn law_reports_hold_what_the_file_says(
    run: RunView,
    assessment: AssessedView,
    result: InstallResultView,
    authorized: bool,
    upgrade: UpgradeView,
    entry: AppEntryView,
    category: Seq<char>,
    file: Seq<char>,
    hash: u64,
    relocated: bool,
)
    ensures
        ({
            let installed = install_recorded(run, assessment, result).files.last();
            let kept = install_considered(run, assessment, authorized).0.files.last();
            let upgraded = upgrade.after_upgraded(
                entry,
                assessment,
                category,
                file,
                hash,
                relocated,
            ).files.last();
            &&& installed.transforms == assessment.file.transforms
            &&& installed.restart_hint == assessment.file.restart_hint
            &&& installed.generator_error is None
            &&& upgraded.transforms == assessment.file.transforms
            &&& upgraded.restart_hint == assessment.file.restart_hint
            &&& upgraded.generator_error is None && upgraded.error is None
            &&& install_considered(run, assessment, authorized).1 == InstallStep::Recorded ==> {
                &&& kept.transforms == assessment.file.transforms
                &&& kept.restart_hint == assessment.file.restart_hint
            }
        }),
{
}

/// A status is counted once for each outcome that has it: no outcome is left out, and none
/// counts for another status.
pub proof fn law_outcomes_are_counted_by_status(
    outcomes: Seq<crate::lifecycle::LifecycleOutcomeV1>,
    more: crate::lifecycle::LifecycleOutcomeV1,
    status: LifecycleStatus,
)
    ensures
        crate::lifecycle::count_status(Seq::empty(), status) == 0,
        crate::lifecycle::count_status(outcomes.push(more), status)
            == crate::lifecycle::count_status(outcomes, status) + if more.status == status {
            1int
        } else {
            0int
        },
{
    assert(outcomes.push(more).drop_last() =~= outcomes);
}

/// Reports name the category and the file that a receipt's source names.
pub proof fn law_reports_name_category_and_file(category: Seq<char>, file: Seq<char>)
    requires
        !category.contains('/'),
    ensures
        crate::app_uninstall::category_of("app/"@ + category + "/"@ + file) == Some(category),
        crate::app_uninstall::reported_category("app/"@ + category + "/"@ + file) == category,
        crate::app_uninstall::file_of("app/"@ + category + "/"@ + file) == file,
{
    crate::scope_laws::law_sources_name_category_and_file(category, file);
}

/// An operation begins with the receipts that it was given and with nothing done.
pub proof fn law_operations_begin_with_nothing_done(
    operation: crate::lifecycle::LifecycleOperation,
    dry_run: bool,
    version: u32,
    entries: Seq<AppEntryView>,
    categories: Seq<crate::app_types::AppCategoryView>,
)
    ensures
        ({
            let run = crate::app_lifecycle::fresh_run(
                operation,
                dry_run,
                version,
                entries,
                categories,
            );
            &&& run.entries == entries && run.version == version && run.dry_run == dry_run
            &&& run.operation == operation && run.categories == categories
            &&& run.outcomes.len() == 0 && run.files.len() == 0
            &&& run.changed == Set::<Seq<char>>::empty()
        }),
        ({
            let run = crate::app_upgrade::fresh_upgrade(version, entries);
            &&& run.entries == entries && run.version == version
            &&& run.skipped == 0 && run.failed == 0 && run.user_modified == 0
            &&& run.outcomes.len() == 0 && run.files.len() == 0 && run.updated.len() == 0
            &&& run.changed == Set::<Seq<char>>::empty()
            &&& run.restart_hints == Set::<Seq<char>>::empty()
        }),
{
}

} // verus!
