//! Carries a recovery out: one action after the other, from the last to the
//! first, each as a list of host steps.

use vstd::prelude::*;
use vstd::string::*;

use crate::action::{ActionKindV1, DeclarativeActionV1, PathRole};
use crate::journal::{AppOperationJournalV1, JournalActionStateV1, JournalError};
use crate::json::{
    remove_managed_json_bytes, removal_result, restore_managed_json_bytes, restore_result,
    JsonFault,
};
use crate::manifest::{upserted, AppEntryView, AppManifest};
use crate::receipts::{
    matching_app_receipt, matching_previous_app_receipt, previous_receipt_matches,
    previous_removed_app_receipt, receipt_matches, removed_receipt,
};
use crate::recovery::{FileView, RecoveryFileObservation};
use crate::recovery_apply::{
    decide_rollback, rollback_of, RecoveryMutation, Rollback, RollbackFault, RollbackView,
};
use crate::recovery_plan::{file_views, observed_roles, roles_to_observe};
use crate::recovery_planner::{is_receipt_committed, role_or_empty};
use crate::text::{copy_texts, texts};

verus! {

/// One step that a host takes.
#[derive(Clone, Debug)]
pub enum HostStep {
    RemoveFile { path: String, privileged: bool },
    MoveFile { from: String, to: String, privileged: bool },
    WriteFile { path: String, content: Vec<u8>, privileged: bool },
    SetMode { path: String, mode: u32, privileged: bool },
    SaveManifest,
    RestoreJsonKeys { destination: String, rollback: String, keys: Vec<String> },
}

/// A host step by the values it holds.
pub ghost enum HostStepView {
    RemoveFile { path: Seq<char>, privileged: bool },
    MoveFile { from: Seq<char>, to: Seq<char>, privileged: bool },
    WriteFile { path: Seq<char>, content: Seq<u8>, privileged: bool },
    SetMode { path: Seq<char>, mode: u32, privileged: bool },
    SaveManifest,
    RestoreJsonKeys { destination: Seq<char>, rollback: Seq<char>, keys: Seq<Seq<char>> },
}

impl View for HostStep {
    type V = HostStepView;

    open spec fn view(&self) -> HostStepView {
        match *self {
            HostStep::RemoveFile { path, privileged } => HostStepView::RemoveFile {
                path: path@,
                privileged,
            },
            HostStep::MoveFile { from, to, privileged } => HostStepView::MoveFile {
                from: from@,
                to: to@,
                privileged,
            },
            HostStep::WriteFile { path, content, privileged } => HostStepView::WriteFile {
                path: path@,
                content: content@,
                privileged,
            },
            HostStep::SetMode { path, mode, privileged } => HostStepView::SetMode {
                path: path@,
                mode,
                privileged,
            },
            HostStep::SaveManifest => HostStepView::SaveManifest,
            HostStep::RestoreJsonKeys { destination, rollback, keys } =>
                HostStepView::RestoreJsonKeys {
                destination: destination@,
                rollback: rollback@,
                keys: texts(keys@),
            },
        }
    }
}

/// The views of a list of host steps.
pub open spec fn host_step_views(steps: Seq<HostStep>) -> Seq<HostStepView> {
    steps.map_values(|step: HostStep| step@)
}

/// Writing a file that keeps its mode.
pub open spec fn write_keeping_mode(path: Seq<char>, content: Seq<u8>, mode: Option<u32>) -> Seq<
    HostStepView,
> {
    let write = HostStepView::WriteFile { path, content, privileged: false };
    match mode {
        Some(mode) => seq![write, HostStepView::SetMode { path, mode, privileged: false }],
        None => seq![write],
    }
}

/// The keys that are taken out of a part of an action.
pub open spec fn dropped_keys(kind: ActionKindV1) -> Seq<Seq<char>> {
    match kind {
        ActionKindV1::RelocateManagedJson { desired_managed_keys, .. } => texts(
            desired_managed_keys@,
        ),
        ActionKindV1::MergeManagedJson { managed_keys, .. } => texts(managed_keys@),
        _ => Seq::empty(),
    }
}

/// The keys that are put back into a part of an action.
pub open spec fn restored_keys(kind: ActionKindV1) -> Seq<Seq<char>> {
    match kind {
        ActionKindV1::RelocateManagedJson { previous_managed_keys, .. } => texts(
            previous_managed_keys@,
        ),
        ActionKindV1::MergeManagedJson { managed_keys, .. } => texts(managed_keys@),
        ActionKindV1::RemoveManagedJson { managed_keys, .. } => texts(managed_keys@),
        _ => Seq::empty(),
    }
}

/// What was found where keys are taken out.
pub open spec fn dropped_from(kind: ActionKindV1, files: Seq<FileView>) -> FileView {
    match kind {
        ActionKindV1::RelocateManagedJson { .. } => files[2],
        ActionKindV1::MergeManagedJson { .. } => files[0],
        _ => FileView::Missing,
    }
}

/// The host steps of one change.
pub open spec fn steps_of(kind: ActionKindV1, files: Seq<FileView>, mutation: RecoveryMutation) ->
    Result<Seq<HostStepView>, RollbackFault> {
    match mutation {
        RecoveryMutation::Remove { role, privileged } => Ok(
            seq![HostStepView::RemoveFile { path: role_or_empty(kind, role), privileged }],
        ),
        RecoveryMutation::Move { from, to, privileged } => Ok(
            seq![
                HostStepView::MoveFile {
                    from: role_or_empty(kind, from),
                    to: role_or_empty(kind, to),
                    privileged,
                },
            ],
        ),
        RecoveryMutation::DropKeys { role } => match dropped_from(kind, files) {
            FileView::Regular { content, mode } => match removal_result(
                content,
                dropped_keys(kind),
            ) {
                Ok(text) => Ok(write_keeping_mode(role_or_empty(kind, role), text, mode)),
                Err(fault) => Err(RollbackFault::Json { fault }),
            },
            _ => Ok(Seq::empty()),
        },
        RecoveryMutation::RestoreKeys { destination, rollback } => Ok(
            seq![
                HostStepView::RestoreJsonKeys {
                    destination: role_or_empty(kind, destination),
                    rollback: role_or_empty(kind, rollback),
                    keys: restored_keys(kind),
                },
            ],
        ),
        RecoveryMutation::RestoreReceipt => Ok(seq![HostStepView::SaveManifest]),
    }
}

/// The host steps of a list of changes, in order.
pub open spec fn steps_of_all(
    kind: ActionKindV1,
    files: Seq<FileView>,
    mutations: Seq<RecoveryMutation>,
) -> Result<Seq<HostStepView>, RollbackFault>
    decreases mutations.len(),
{
    if mutations.len() == 0 {
        Ok(Seq::empty())
    } else {
        match steps_of_all(kind, files, mutations.drop_last()) {
            Err(fault) => Err(fault),
            Ok(before) => match steps_of(kind, files, mutations.last()) {
                Err(fault) => Err(fault),
                Ok(steps) => Ok(before + steps),
            },
        }
    }
}

fn path_of(kind: &ActionKindV1, role: PathRole) -> (path: String)
    ensures
        path@ == role_or_empty(*kind, role),
{
    match kind.role_path(role) {
        Some(path) => path.clone(),
        None => String::new(),
    }
}

fn keys_to_restore(kind: &ActionKindV1) -> (keys: Vec<String>)
    ensures
        texts(keys@) == restored_keys(*kind),
{
    match kind {
        ActionKindV1::RelocateManagedJson { previous_managed_keys, .. } => copy_texts(
            previous_managed_keys.as_slice(),
        ),
        ActionKindV1::MergeManagedJson { managed_keys, .. } => copy_texts(managed_keys.as_slice()),
        ActionKindV1::RemoveManagedJson { managed_keys, .. } => copy_texts(managed_keys.as_slice()),
        _ => {
            let keys: Vec<String> = Vec::new();
            proof {
                assert(texts(keys@) =~= Seq::<Seq<char>>::empty());
            }
            keys
        },
    }
}

fn push_write(
    steps: &mut Vec<HostStep>,
    path: String,
    content: Vec<u8>,
    mode: Option<u32>,
)
    ensures
        host_step_views(final(steps)@) == host_step_views(old(steps)@) + write_keeping_mode(
            path@,
            content@,
            mode,
        ),
{
    let ghost before = steps@;
    let ghost view = write_keeping_mode(path@, content@, mode);
    let again = path.clone();
    steps.push(HostStep::WriteFile { path, content, privileged: false });
    if let Some(mode) = mode {
        steps.push(HostStep::SetMode { path: again, mode, privileged: false });
    }
    proof {
        assert(host_step_views(steps@) =~= host_step_views(before) + view);
    }
}

fn drop_keys(
    steps: &mut Vec<HostStep>,
    path: String,
    file: &RecoveryFileObservation,
    keys: &Vec<String>,
) -> (result: Result<(), RollbackFault>)
    ensures
        match file@ {
            FileView::Regular { content, mode } => match removal_result(content, texts(keys@)) {
                Ok(text) => result is Ok && host_step_views(final(steps)@) == host_step_views(
                    old(steps)@,
                ) + write_keeping_mode(path@, text, mode),
                Err(fault) => result == Err::<(), RollbackFault>(RollbackFault::Json { fault }),
            },
            _ => result is Ok && host_step_views(final(steps)@) == host_step_views(old(steps)@),
        },
{
    match file {
        RecoveryFileObservation::Regular(content, mode) => {
            match remove_managed_json_bytes(content.as_slice(), keys.as_slice()) {
                Ok(text) => {
                    push_write(steps, path, text, *mode);
                    Ok(())
                },
                Err(fault) => Err(RollbackFault::Json { fault }),
            }
        },
        _ => Ok(()),
    }
}

fn push_steps(
    steps: &mut Vec<HostStep>,
    kind: &ActionKindV1,
    files: &Vec<RecoveryFileObservation>,
    mutation: RecoveryMutation,
) -> (result: Result<(), RollbackFault>)
    requires
        files@.len() == observed_roles(*kind).len(),
    ensures
        match steps_of(*kind, file_views(files@), mutation) {
            Ok(added) => result is Ok && host_step_views(final(steps)@) == host_step_views(
                old(steps)@,
            ) + added,
            Err(fault) => result == Err::<(), RollbackFault>(fault),
        },
{
    let ghost before = steps@;
    match mutation {
        RecoveryMutation::Remove { role, privileged } => {
            steps.push(HostStep::RemoveFile { path: path_of(kind, role), privileged });
            proof {
                assert(host_step_views(steps@) =~= host_step_views(before) + seq![
                    HostStepView::RemoveFile { path: role_or_empty(*kind, role), privileged },
                ]);
            }
            Ok(())
        },
        RecoveryMutation::Move { from, to, privileged } => {
            steps.push(
                HostStep::MoveFile {
                    from: path_of(kind, from),
                    to: path_of(kind, to),
                    privileged,
                },
            );
            proof {
                assert(host_step_views(steps@) =~= host_step_views(before) + seq![
                    HostStepView::MoveFile {
                        from: role_or_empty(*kind, from),
                        to: role_or_empty(*kind, to),
                        privileged,
                    },
                ]);
            }
            Ok(())
        },
        RecoveryMutation::DropKeys { role } => {
            let path = path_of(kind, role);
            match kind {
                ActionKindV1::RelocateManagedJson { desired_managed_keys, .. } => {
                    proof {
                        assert(file_views(files@)[2] == files@[2]@);
                    }
                    drop_keys(steps, path, &files[2], desired_managed_keys)
                },
                ActionKindV1::MergeManagedJson { managed_keys, .. } => {
                    proof {
                        assert(file_views(files@)[0] == files@[0]@);
                    }
                    drop_keys(steps, path, &files[0], managed_keys)
                },
                _ => {
                    proof {
                        assert(host_step_views(before) + Seq::<HostStepView>::empty()
                            =~= host_step_views(before));
                    }
                    Ok(())
                },
            }
        },
        RecoveryMutation::RestoreKeys { destination, rollback } => {
            steps.push(
                HostStep::RestoreJsonKeys {
                    destination: path_of(kind, destination),
                    rollback: path_of(kind, rollback),
                    keys: keys_to_restore(kind),
                },
            );
            proof {
                assert(host_step_views(steps@) =~= host_step_views(before) + seq![
                    HostStepView::RestoreJsonKeys {
                        destination: role_or_empty(*kind, destination),
                        rollback: role_or_empty(*kind, rollback),
                        keys: restored_keys(*kind),
                    },
                ]);
            }
            Ok(())
        },
        RecoveryMutation::RestoreReceipt => {
            steps.push(HostStep::SaveManifest);
            proof {
                assert(host_step_views(steps@) =~= host_step_views(before) + seq![
                    HostStepView::SaveManifest,
                ]);
            }
            Ok(())
        },
    }
}

fn resolve_steps(
    kind: &ActionKindV1,
    files: &Vec<RecoveryFileObservation>,
    mutations: &Vec<RecoveryMutation>,
) -> (result: Result<Vec<HostStep>, RollbackFault>)
    requires
        files@.len() == observed_roles(*kind).len(),
    ensures
        match steps_of_all(*kind, file_views(files@), mutations@) {
            Ok(expected) => result is Ok && host_step_views(result->Ok_0@) == expected,
            Err(fault) => result is Err && result->Err_0 == fault,
        },
{
    let mut steps: Vec<HostStep> = Vec::new();
    let mut i: usize = 0;
    let ghost views = file_views(files@);
    proof {
        assert(mutations@.take(0) =~= Seq::<RecoveryMutation>::empty());
        assert(host_step_views(steps@) =~= Seq::<HostStepView>::empty());
    }
    while i < mutations.len()
        invariant
            i <= mutations.len(),
            files@.len() == observed_roles(*kind).len(),
            views == file_views(files@),
            steps_of_all(*kind, views, mutations@.take(i as int)) == Ok::<
                Seq<HostStepView>,
                RollbackFault,
            >(host_step_views(steps@)),
        decreases mutations.len() - i,
    {
        proof {
            assert(mutations@.take(i as int + 1).drop_last() =~= mutations@.take(i as int));
            assert(mutations@.take(i as int + 1).last() == mutations@[i as int]);
        }
        if let Err(fault) = push_steps(&mut steps, kind, files, mutations[i]) {
            proof {
                lemma_steps_fault_stays(*kind, views, mutations@, i as int + 1);
            }
            return Err(fault);
        }
        i += 1;
    }
    proof {
        assert(mutations@.take(mutations@.len() as int) =~= mutations@);
    }
    Ok(steps)
}

proof fn lemma_steps_fault_stays(
    kind: ActionKindV1,
    files: Seq<FileView>,
    mutations: Seq<RecoveryMutation>,
    count: int,
)
    requires
        0 <= count <= mutations.len(),
        steps_of_all(kind, files, mutations.take(count)) is Err,
    ensures
        steps_of_all(kind, files, mutations) == steps_of_all(kind, files, mutations.take(count)),
    decreases mutations.len() - count,
{
    if count == mutations.len() {
        assert(mutations.take(count) =~= mutations);
    } else {
        assert(mutations.take(count + 1).drop_last() =~= mutations.take(count));
        lemma_steps_fault_stays(kind, files, mutations, count + 1);
    }
}

/// The steps that put the managed keys of rollback material back into an object.
pub open spec fn key_restoration(
    destination: Seq<char>,
    rollback: Seq<char>,
    keys: Seq<Seq<char>>,
    current: Seq<u8>,
    original: Seq<u8>,
    mode: Option<u32>,
) -> Result<Seq<HostStepView>, JsonFault> {
    match restore_result(current, original, keys) {
        Ok(text) => Ok(
            write_keeping_mode(destination, text, mode).push(
                HostStepView::RemoveFile { path: rollback, privileged: false },
            ),
        ),
        Err(fault) => Err(fault),
    }
}

/// The steps that put the managed keys back, from what the two files hold and the
/// mode of the destination.
pub fn restore_json_keys_from_rollback(
    destination: &str,
    rollback: &str,
    keys: &Vec<String>,
    current: &[u8],
    original: &[u8],
    mode: Option<u32>,
) -> (result: Result<Vec<HostStep>, JsonFault>)
    ensures
        match key_restoration(
            destination@,
            rollback@,
            texts(keys@),
            current@,
            original@,
            mode,
        ) {
            Ok(expected) => result is Ok && host_step_views(result->Ok_0@) == expected,
            Err(fault) => result is Err && result->Err_0 == fault,
        },
{
    let text = match restore_managed_json_bytes(current, original, keys.as_slice()) {
        Ok(text) => text,
        Err(fault) => return Err(fault),
    };
    let mut steps: Vec<HostStep> = Vec::new();
    proof {
        assert(host_step_views(steps@) =~= Seq::<HostStepView>::empty());
    }
    push_write(&mut steps, destination.to_owned(), text, mode);
    let ghost before = steps@;
    steps.push(HostStep::RemoveFile { path: rollback.to_owned(), privileged: false });
    proof {
        assert(host_step_views(steps@) =~= host_step_views(before).push(
            HostStepView::RemoveFile { path: rollback@, privileged: false },
        ));
        assert(Seq::<HostStepView>::empty() + write_keeping_mode(destination@, text@, mode)
            =~= write_keeping_mode(destination@, text@, mode));
    }
    Ok(steps)
}

/// What a finished recovery reports.
#[derive(Clone, Debug)]
pub struct AppRecoveryReportV1 {
    pub operation_id: String,
    pub rolled_back_actions: Vec<String>,
}

/// Why a recovery stops.
#[derive(Clone, Copy, Debug, PartialEq, Eq, Structural)]
pub enum RecoveryRunError {
    Journal { error: JournalError },
    Rollback { fault: RollbackFault },
    ObservationMismatch,
}

/// How far undoing came: the receipts as they stand, the actions that were undone,
/// and how many actions are left.
#[derive(Clone, Debug)]
pub struct UndoState {
    pub manifest: AppManifest,
    pub rolled_back_actions: Vec<String>,
    pub remaining: usize,
}

/// The receipts after an action was undone.
pub open spec fn receipts_after(
    entries: Seq<AppEntryView>,
    action: DeclarativeActionV1,
    rollback: RollbackView,
) -> Seq<AppEntryView> {
    if rollback.mutations.contains(RecoveryMutation::RestoreReceipt) && removed_receipt(
        action,
    ) is Some {
        upserted(entries, removed_receipt(action)->0)
    } else {
        entries
    }
}

impl UndoState {
    /// Starts at the last action of the journal.
    pub fn start(journal: &AppOperationJournalV1, manifest: AppManifest) -> (run: UndoState)
        ensures
            run.manifest == manifest,
            run.rolled_back_actions@.len() == 0,
            run.remaining == journal.action_ir.actions@.len(),
    {
        UndoState {
            manifest,
            rolled_back_actions: Vec::new(),
            remaining: journal.action_ir.actions.len(),
        }
    }

    /// The steps that undo the last action that is left. The receipts change as
    /// the steps say, and the action is counted where it is undone.
    pub fn undo_next(
        &mut self,
        journal: &AppOperationJournalV1,
        files: &Vec<RecoveryFileObservation>,
    ) -> (result: Result<Vec<HostStep>, RecoveryRunError>)
        requires
            0 < old(self).remaining <= journal.action_ir.actions@.len(),
        ensures
            ({
                let index = old(self).remaining - 1;
                let action = journal.action_ir.actions@[index];
                let entries = old(self).manifest@;
                let views = file_views(files@);
                let committed = is_receipt_committed(*journal, index);
                let outcome = rollback_of(
                    action.kind,
                    committed,
                    receipt_matches(entries, action),
                    previous_receipt_matches(entries, action),
                    views,
                );
                &&& final(self).manifest.schema_version == old(self).manifest.schema_version
                &&& result is Err ==> final(self).manifest@ == entries && texts(
                    final(self).rolled_back_actions@,
                ) == texts(old(self).rolled_back_actions@) && final(self).remaining == old(
                    self,
                ).remaining
                &&& if journal.state_of(action.action_id@) is None {
                    result is Err && result->Err_0 == (RecoveryRunError::Journal {
                        error: JournalError::ActionNotFound,
                    })
                } else if files@.len() != observed_roles(action.kind).len() {
                    result is Err && result->Err_0 == RecoveryRunError::ObservationMismatch
                } else {
                    match outcome {
                        Err(fault) => result is Err && result->Err_0 == (
                        RecoveryRunError::Rollback { fault }),
                        Ok(rollback) => match steps_of_all(
                            action.kind,
                            views,
                            rollback.mutations,
                        ) {
                            Err(fault) => result is Err && result->Err_0 == (
                            RecoveryRunError::Rollback { fault }),
                            Ok(steps) => {
                                &&& result is Ok
                                &&& host_step_views(result->Ok_0@) == steps
                                &&& final(self).manifest@ == receipts_after(
                                    entries,
                                    action,
                                    rollback,
                                )
                                &&& final(self).remaining == index
                                &&& texts(final(self).rolled_back_actions@) == if rollback.undone {
                                    texts(old(self).rolled_back_actions@).push(action.action_id@)
                                } else {
                                    texts(old(self).rolled_back_actions@)
                                }
                            },
                        },
                    }
                }
            }),
    {
        let index: usize = self.remaining - 1;
        let action = &journal.action_ir.actions[index];
        let state = match journal.action_state(action.action_id.as_str()) {
            Ok(state) => state,
            Err(error) => return Err(RecoveryRunError::Journal { error }),
        };
        let committed = state == JournalActionStateV1::ReceiptCommitted;
        let roles = roles_to_observe(&action.kind);
        if files.len() != roles.len() {
            return Err(RecoveryRunError::ObservationMismatch);
        }
        let receipt = matching_app_receipt(&self.manifest, action);
        let previous_receipt = matching_previous_app_receipt(&self.manifest, action);
        let rollback = match decide_rollback(
            &action.kind,
            committed,
            receipt,
            previous_receipt,
            files,
        ) {
            Ok(rollback) => rollback,
            Err(fault) => return Err(RecoveryRunError::Rollback { fault }),
        };
        let steps = match resolve_steps(&action.kind, files, &rollback.mutations) {
            Ok(steps) => steps,
            Err(fault) => return Err(RecoveryRunError::Rollback { fault }),
        };
        let mut restores = false;
        let mut i: usize = 0;
        while i < rollback.mutations.len()
            invariant
                i <= rollback.mutations.len(),
                restores ==> rollback.mutations@.contains(RecoveryMutation::RestoreReceipt),
                !restores ==> forall|j: int|
                    0 <= j < i ==> rollback.mutations@[j] != RecoveryMutation::RestoreReceipt,
            decreases rollback.mutations.len() - i,
        {
            if rollback.mutations[i] == RecoveryMutation::RestoreReceipt {
                restores = true;
            }
            i += 1;
        }
        if restores {
            if let Some(entry) = previous_removed_app_receipt(action) {
                self.manifest.upsert(entry);
            }
        }
        if rollback.undone {
            let ghost before = self.rolled_back_actions@;
            self.rolled_back_actions.push(action.action_id.clone());
            proof {
                assert(texts(self.rolled_back_actions@) =~= texts(before).push(action.action_id@));
            }
        }
        self.remaining = index;
        Ok(steps)
    }
}

} // verus!
