//! In what order operations ask for what they need, and when each of them is finished.

use vstd::prelude::*;
use vstd::utf8::encode_utf8;

use crate::action::{ActionKindV1, PathRole};
use crate::commit_machine::{is_begun, CommitPhase, CommitRunView};
use crate::execution::Guard;
use crate::execution_machine::found_after;
use crate::install_drive::InstallDriveView;
use crate::journal::{AppOperationJournalV1, JournalActionStateV1};
use crate::manifest::entry_views;
use crate::plan::observation_bytes;
use crate::recovery::FileView;
use crate::recovery_machine::{RecoveryPhase, RecoveryRunView};
use crate::refresh_drive::{privileged_refreshes, RefreshDriveView, RefreshStage};
use crate::scope_laws::law_rights_are_asked_for_where_needed;
use crate::uninstall_drive::UninstallDriveView;
use crate::upgrade_drive::{UpgradeDriveView, UpgradePhase, UpgradeStage};

verus! {

/// An install brings its copies in line first, then assesses every file, then asks for
/// rights where some file needs them that the user has not, then settles every file, and
/// last saves the receipts and runs the hooks. It is finished exactly where all of that is
/// done; a preview asks for no rights, saves nothing and runs no hook.
pub proof fn law_install_is_finished_when_all_is_done(drive: InstallDriveView)
    ensures
        ({
            let demand = drive.demand();
            let copied = drive.reconciled >= drive.caches;
            let assessed = drive.assess.files.len() == drive.assess.due.len();
            let privileged = exists|i: int|
                0 <= i < drive.assess.files.len() && (
                #[trigger] drive.assess.files[i]).file.requires_admin;
            let waits = !drive.dry_run && privileged && !drive.running_as_admin
                && drive.granted is None;
            let settled = drive.settled >= drive.assess.files.len();
            &&& demand is Reconcile <==> !copied
            &&& demand is Generate <==> copied && !assessed
            &&& demand is Authorize <==> copied && assessed && waits
            &&& demand is Consider <==> copied && assessed && !waits && !settled
                && drive.weighed is None
            &&& demand is Install <==> copied && assessed && !waits && !settled
                && drive.weighed is Some
            &&& demand is SaveReceipts <==> copied && assessed && !waits && settled
                && !drive.dry_run && !drive.saved
            &&& demand is Hooks <==> copied && assessed && !waits && settled && !drive.dry_run
                && drive.saved && !drive.hooked
            &&& demand is Finish <==> copied && assessed && !waits && settled && (drive.dry_run
                || drive.saved && drive.hooked)
            &&& demand is Install ==> demand->is_managed == drive.weighed->0
            &&& drive.authorized() <==> drive.granted != Some(false)
        }),
{
    law_rights_are_asked_for_where_needed(drive.assess.files, Seq::empty());
}

/// An uninstall asks for rights where some receipt needs them that the user has not, then
/// takes down what is to be taken down, then settles every receipt, then saves the receipts
/// and last clears the copies. It is finished exactly where all of that is done, or where
/// nothing of its target is installed; a preview asks for no rights and saves nothing.
pub proof fn law_uninstall_is_finished_when_all_is_done(drive: UninstallDriveView)
    ensures
        ({
            let demand = drive.demand();
            let entries = entry_views(drive.selected);
            let privileged = exists|i: int|
                0 <= i < entries.len() && (#[trigger] entries[i]).requires_admin;
            let waits = !drive.dry_run && privileged && !drive.running_as_admin
                && drive.granted is None;
            let torn = drive.torn >= drive.teardowns.len();
            let settled = drive.settled >= drive.selected.len();
            let saved = drive.dry_run || drive.saved;
            let cleared = drive.cleared >= drive.prefixes.len();
            &&& demand is Authorize <==> !drive.idle && waits
            &&& demand is TearDown <==> !drive.idle && !waits && !torn
            &&& demand is Consider <==> !drive.idle && !waits && torn && !settled
                && !drive.weighed
            &&& demand is Uninstall <==> !drive.idle && !waits && torn && !settled
                && drive.weighed
            &&& demand is SaveReceipts <==> !drive.idle && !waits && torn && settled && !saved
            &&& demand is Reconcile <==> !drive.idle && !waits && torn && settled && saved
                && !cleared
            &&& demand is Finish <==> drive.idle || !waits && torn && settled && saved && cleared
            &&& drive.authorized() <==> drive.granted != Some(false)
        }),
{
    law_rights_are_asked_for_where_needed(Seq::empty(), entry_views(drive.selected));
}

proof fn lemma_refreshes(files: Seq<crate::refresh_drive::RefreshFile>)
    ensures
        privileged_refreshes(files) > 0 <==> exists|i: int|
            0 <= i < files.len() && (#[trigger] files[i]).file.requires_admin,
    decreases files.len(),
{
    if files.len() > 0 {
        let head = files.drop_last();
        lemma_refreshes(head);
        assert(files[files.len() - 1] == files.last());
        assert(forall|i: int| 0 <= i < head.len() ==> head[i] == #[trigger] files[i]);
        if privileged_refreshes(head) > 0 {
            let i = choose|i: int|
                0 <= i < head.len() && (#[trigger] head[i]).file.requires_admin;
            assert(files[i].file.requires_admin);
        }
    }
}

/// A refresh asks for rights first where some file needs them that the user has not, and
/// does nothing where they are refused; it settles every file in its turn; receipts are
/// saved and hooks are run exactly where something changed.
pub proof fn law_refresh_is_finished_when_all_is_done(drive: RefreshDriveView)
    ensures
        ({
            let demand = drive.demand();
            let privileged = exists|i: int|
                0 <= i < drive.files.len() && (#[trigger] drive.files[i]).file.requires_admin;
            let waits = drive.granted is None && privileged && !drive.running_as_admin;
            let refused = drive.granted == Some(false);
            let settled = drive.settled >= drive.files.len();
            let changed = drive.run.changed != Set::<Seq<char>>::empty();
            &&& demand is Authorize <==> waits
            &&& demand is Refuse <==> refused
            &&& demand is SaveReceipts <==> !waits && !refused && settled && changed
                && !drive.saved
            &&& demand is Hooks <==> !waits && !refused && settled && changed && drive.saved
                && !drive.hooked
            &&& demand is Finish <==> !waits && !refused && settled && (!changed || drive.saved
                && drive.hooked)
            &&& demand is Generate <==> !waits && !refused && !settled && drive.stage
                == RefreshStage::Generate
            &&& demand is Read <==> !waits && !refused && !settled && drive.stage
                == RefreshStage::Read
            &&& demand is Install <==> !waits && !refused && !settled && drive.stage
                == RefreshStage::Install
        }),
{
    lemma_refreshes(drive.files);
}

/// An upgrade changes files only once every file was assessed and rights were not refused;
/// it asks for rights before its first change where some file needs them that the user has
/// not; it saves the receipts before it runs hooks, and is finished after both.
pub proof fn law_upgrade_is_finished_when_all_is_done(drive: UpgradeDriveView)
    ensures
        ({
            let demand = drive.demand();
            let privileged = exists|i: int|
                0 <= i < drive.files.len() && (#[trigger] drive.files[i]).file.requires_admin;
            let first = drive.phase == UpgradePhase::Settling && drive.settled <= 0 && drive.stage
                == UpgradeStage::Begin;
            let waits = first && drive.granted is None && privileged && !drive.running_as_admin;
            &&& demand is Authorize ==> waits
            &&& waits ==> demand is Authorize
            &&& demand is Refuse <==> drive.phase == UpgradePhase::Settling && drive.granted
                == Some(false)
            &&& demand is Prune ==> drive.stage == UpgradeStage::Prune && drive.granted != Some(
                false,
            )
            &&& demand is Install ==> drive.stage == UpgradeStage::Install && drive.granted
                != Some(false)
            &&& demand is Clear ==> drive.stage == UpgradeStage::Clear && drive.granted != Some(
                false,
            )
            &&& demand is TakeBack ==> drive.stage == UpgradeStage::TakeBack
            &&& demand is InstallNew ==> drive.phase == UpgradePhase::Adding && drive.placing
            &&& demand is SaveReceipts <==> drive.phase == UpgradePhase::Ending && !drive.saved
            &&& demand is Hooks <==> drive.phase == UpgradePhase::Ending && drive.saved
                && !drive.hooked
            &&& demand is Finish <==> drive.phase == UpgradePhase::Ending && drive.saved
                && drive.hooked
        }),
{
    law_rights_are_asked_for_where_needed(drive.files, Seq::empty());
    if let Some(granted) = drive.granted {
        assert(granted || !granted);
        assert(drive.granted == Some(granted));
    }
}

/// A commit removes the journal exactly where it was saved as begun and every action is
/// settled, and settles the actions in their order.
pub proof fn law_commit_settles_every_action(run: CommitRunView)
    ensures
        ({
            let count = run.journal->0.action_ir.actions@.len();
            let settling = run.phase == CommitPhase::Settling;
            &&& run.demand() is SaveJournal <==> settling && run.unsaved
            &&& run.demand() is Inspect <==> settling && !run.unsaved && run.settled < count
            &&& run.demand() is RemoveJournal <==> settling && !run.unsaved && run.settled
                >= count
            &&& run.demand() is Lock <==> run.phase == CommitPhase::Locking
            &&& run.demand() is Finish <==> run.phase == CommitPhase::Done
        }),
{
}

/// A commit that has begun marks the removals that were applied, and changes nothing else
/// of the journal.
pub proof fn law_begun_commits_mark_removals(
    before: AppOperationJournalV1,
    after: AppOperationJournalV1,
    index: int,
)
    requires
        is_begun(before, after),
        0 <= index < before.actions@.len(),
    ensures
        ({
            let kind = before.action_ir.actions@[index].kind;
            let removal = kind is RemoveManagedFile || kind is RemoveManagedFileWithBackup
                || kind is ForceRemoveManagedFile || kind is RemoveManagedJson;
            let state = before.actions@[index].state;
            &&& after.actions@.len() == before.actions@.len()
            &&& after.actions@[index].action_id@ == before.actions@[index].action_id@
            &&& after.actions@[index].state == if removal && state
                == JournalActionStateV1::Applied {
                JournalActionStateV1::ReceiptCommitted
            } else {
                state
            }
            &&& after.action_ir == before.action_ir && after.approval == before.approval
        }),
{
}

/// What an operation starts from is the content that was found at its place: of a key
/// relocation at the old place, and of any other at the destination.
pub proof fn law_operations_start_from_what_was_found(
    kind: ActionKindV1,
    guard: Guard,
    file: FileView,
    before: Option<Seq<u8>>,
)
    ensures
        ({
            let start = if kind is RelocateManagedJson {
                PathRole::PreviousDestination
            } else {
                PathRole::Destination
            };
            found_after(kind, guard, file, before) == if guard is Regular && guard->Regular_role
                == start && file is Regular {
                Some(file->content)
            } else {
                before
            }
        }),
{
}

/// A recovery undoes the actions from the last to the first: each is looked at once, and
/// what undoes it is due before the next is.
pub proof fn law_recovery_goes_backwards(run: RecoveryRunView, files: Seq<FileView>)
    ensures
        match run.after_observed(files) {
            Ok(after) => {
                let action = run.journal.action_ir.actions@[run.remaining - 1];
                &&& after.remaining == run.remaining - 1
                &&& after.taken == 0
                &&& after.journal == run.journal && after.approval == run.approval
                &&& after.undone == run.undone || after.undone == run.undone.push(
                    action.action_id@,
                )
                &&& after.phase == run.phase && after.reviews == run.reviews
            },
            Err(_) => true,
        },
        run.demand() is Observe ==> run.demand()->Observe_index == (run.remaining - 1) as usize,
        run.demand() is Observe <==> run.phase == RecoveryPhase::Undoing && run.taken
            >= run.steps.len() && run.remaining > 0,
        run.demand() is RemoveJournal <==> run.phase == RecoveryPhase::Undoing && run.taken
            >= run.steps.len() && run.remaining <= 0,
        run.demand() is Finish <==> run.phase == RecoveryPhase::Done,
        run.demand() is SaveManifest <==> run.phase == RecoveryPhase::Undoing && run.taken
            < run.steps.len() && run.steps[run.taken] is SaveManifest,
{
}

/// What a plan was made from is held in order: each observation is added behind those
/// before it, its label and its value each ended by a zero.
pub proof fn law_observations_are_added_in_order(
    list: Seq<(Seq<char>, Seq<u8>)>,
    label: Seq<char>,
    value: Seq<u8>,
)
    ensures
        observation_bytes(Seq::empty()).len() == 0,
        observation_bytes(list.push((label, value))) == observation_bytes(list) + encode_utf8(label)
            + seq![0u8] + value + seq![0u8],
{
    assert(list.push((label, value)).drop_last() =~= list);
}

} // verus!
