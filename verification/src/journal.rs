//! The journal of an App operation in progress.
//!
//! The journal is written before the first change and removed only after the
//! receipts that belong to the changes are durable.

use vstd::prelude::*;
use vstd::string::*;

use crate::action::{
    is_app_removal_action, removes_managed, ActionIrError, ActionIrV1, ActionKindV1,
    DeclarativeActionV1,
};
use crate::manifest::{
    backup_path, backup_suffix, managed_file_rollback_path, rollback_suffix,
};
use crate::path::{paths_match, same_path};
use crate::plan::{PlanApprovalV1, PLAN_APPROVAL_SCHEMA_VERSION};
use crate::text::same_text;

verus! {

/// The file name of the journal.
pub const APP_OPERATION_JOURNAL_FILE: &'static str = "app-operation-journal.toml";

/// The journal schema that this library writes and reads.
pub const APP_OPERATION_JOURNAL_SCHEMA_VERSION: u32 = 1;

/// How far one action has come.
#[derive(Clone, Copy, Debug, PartialEq, Eq, Structural)]
pub enum JournalActionStateV1 {
    Prepared,
    Applied,
    ReceiptCommitted,
}

/// The state of one action.
#[derive(Clone, Debug)]
pub struct JournalActionV1 {
    pub action_id: String,
    pub state: JournalActionStateV1,
}

/// What is wrong with a journal or with a step in it.
#[derive(Clone, Copy, Debug, PartialEq, Eq, Structural)]
pub enum JournalError {
    UnsupportedSchema { version: u32 },
    InvalidActions { error: ActionIrError },
    UnsupportedApprovalSchema { version: u32 },
    NonCanonicalBackup,
    NonCanonicalRollback,
    NonCanonicalRelocation,
    NonCanonicalBackupOrRollback,
    NonCanonicalForcedRemoval,
    NonCanonicalJsonRollback,
    NonCanonicalJsonRelocation,
    StateMismatch,
    CommittedWithoutRemoval,
    ActionNotFound,
    CommitBeforeApply,
}

/// The journal of one operation.
#[derive(Clone, Debug)]
pub struct AppOperationJournalV1 {
    pub schema_version: u32,
    pub action_ir: ActionIrV1,
    pub approval: PlanApprovalV1,
    pub actions: Vec<JournalActionV1>,
}

/// Whether `path` is where the rollback material of `destination` belongs.
pub open spec fn is_rollback_of(path: Seq<char>, destination: Seq<char>) -> bool {
    same_path(destination + rollback_suffix(), path)
}

/// Whether `path` is where the backup of `destination` belongs.
pub open spec fn is_backup_of(path: Seq<char>, destination: Seq<char>) -> bool {
    same_path(destination + backup_suffix(), path)
}

/// What is wrong with the paths of one action: a backup or rollback path that is
/// not the one that belongs to its destination.
pub open spec fn path_fault(kind: ActionKindV1) -> Option<JournalError> {
    match kind {
        ActionKindV1::CreateManagedFileWithBackup { destination, backup, .. } => if is_backup_of(
            backup@,
            destination@,
        ) {
            None
        } else {
            Some(JournalError::NonCanonicalBackup)
        },
        ActionKindV1::UpdateManagedFile { destination, rollback, .. } => if is_rollback_of(
            rollback@,
            destination@,
        ) {
            None
        } else {
            Some(JournalError::NonCanonicalRollback)
        },
        ActionKindV1::RelocateManagedFile {
            previous_destination,
            previous_backup,
            previous_rollback,
            ..
        } => if is_rollback_of(previous_rollback@, previous_destination@) && (
        previous_backup is Some ==> is_backup_of(
            previous_backup->0.path@,
            previous_destination@,
        )) {
            None
        } else {
            Some(JournalError::NonCanonicalRelocation)
        },
        ActionKindV1::RemoveManagedFile { destination, rollback, .. } => if is_rollback_of(
            rollback@,
            destination@,
        ) {
            None
        } else {
            Some(JournalError::NonCanonicalRollback)
        },
        ActionKindV1::RemoveManagedFileWithBackup { destination, backup, rollback, .. } =>
        if is_backup_of(backup@, destination@) && is_rollback_of(rollback@, destination@) {
            None
        } else {
            Some(JournalError::NonCanonicalBackupOrRollback)
        },
        ActionKindV1::ForceRemoveManagedFile { destination, persistent_backup, rollback, .. } =>
        if is_rollback_of(rollback@, destination@) && (persistent_backup is Some ==> is_backup_of(
            persistent_backup->0.path@,
            destination@,
        )) {
            None
        } else {
            Some(JournalError::NonCanonicalForcedRemoval)
        },
        ActionKindV1::MergeManagedJson { destination, rollback, .. } => if is_rollback_of(
            rollback@,
            destination@,
        ) {
            None
        } else {
            Some(JournalError::NonCanonicalJsonRollback)
        },
        ActionKindV1::RemoveManagedJson { destination, rollback, .. } => if is_rollback_of(
            rollback@,
            destination@,
        ) {
            None
        } else {
            Some(JournalError::NonCanonicalJsonRollback)
        },
        ActionKindV1::RelocateManagedJson { previous_destination, previous_rollback, .. } =>
        if is_rollback_of(previous_rollback@, previous_destination@) {
            None
        } else {
            Some(JournalError::NonCanonicalJsonRelocation)
        },
        _ => None,
    }
}

/// Whether `path` is where the rollback material of `destination` belongs.
pub fn rollback_belongs(path: &str, destination: &str) -> (result: bool)
    ensures
        result == is_rollback_of(path@, destination@),
{
    paths_match(managed_file_rollback_path(destination).as_str(), path)
}

/// Whether `path` is where the backup of `destination` belongs.
pub fn backup_belongs(path: &str, destination: &str) -> (result: bool)
    ensures
        result == is_backup_of(path@, destination@),
{
    paths_match(backup_path(destination).as_str(), path)
}

fn find_path_fault(kind: &ActionKindV1) -> (fault: Option<JournalError>)
    ensures
        fault == path_fault(*kind),
{
    match kind {
        ActionKindV1::CreateManagedFileWithBackup { destination, backup, .. } => {
            if backup_belongs(backup.as_str(), destination.as_str()) {
                None
            } else {
                Some(JournalError::NonCanonicalBackup)
            }
        },
        ActionKindV1::UpdateManagedFile { destination, rollback, .. } => {
            if rollback_belongs(rollback.as_str(), destination.as_str()) {
                None
            } else {
                Some(JournalError::NonCanonicalRollback)
            }
        },
        ActionKindV1::RelocateManagedFile {
            previous_destination,
            previous_backup,
            previous_rollback,
            ..
        } => {
            let backup_fits = match previous_backup {
                Some(backup) => backup_belongs(backup.path.as_str(), previous_destination.as_str()),
                None => true,
            };
            if rollback_belongs(previous_rollback.as_str(), previous_destination.as_str())
                && backup_fits {
                None
            } else {
                Some(JournalError::NonCanonicalRelocation)
            }
        },
        ActionKindV1::RemoveManagedFile { destination, rollback, .. } => {
            if rollback_belongs(rollback.as_str(), destination.as_str()) {
                None
            } else {
                Some(JournalError::NonCanonicalRollback)
            }
        },
        ActionKindV1::RemoveManagedFileWithBackup { destination, backup, rollback, .. } => {
            if backup_belongs(backup.as_str(), destination.as_str()) && rollback_belongs(
                rollback.as_str(),
                destination.as_str(),
            ) {
                None
            } else {
                Some(JournalError::NonCanonicalBackupOrRollback)
            }
        },
        ActionKindV1::ForceRemoveManagedFile { destination, persistent_backup, rollback, .. } => {
            let backup_fits = match persistent_backup {
                Some(backup) => backup_belongs(backup.path.as_str(), destination.as_str()),
                None => true,
            };
            if rollback_belongs(rollback.as_str(), destination.as_str()) && backup_fits {
                None
            } else {
                Some(JournalError::NonCanonicalForcedRemoval)
            }
        },
        ActionKindV1::MergeManagedJson { destination, rollback, .. } => {
            if rollback_belongs(rollback.as_str(), destination.as_str()) {
                None
            } else {
                Some(JournalError::NonCanonicalJsonRollback)
            }
        },
        ActionKindV1::RemoveManagedJson { destination, rollback, .. } => {
            if rollback_belongs(rollback.as_str(), destination.as_str()) {
                None
            } else {
                Some(JournalError::NonCanonicalJsonRollback)
            }
        },
        ActionKindV1::RelocateManagedJson { previous_destination, previous_rollback, .. } => {
            if rollback_belongs(previous_rollback.as_str(), previous_destination.as_str()) {
                None
            } else {
                Some(JournalError::NonCanonicalJsonRelocation)
            }
        },
        _ => None,
    }
}

/// The fault of the first action whose paths are not the ones that belong there.
pub open spec fn first_path_fault(actions: Seq<DeclarativeActionV1>) -> Option<JournalError>
    decreases actions.len(),
{
    if actions.len() == 0 {
        None
    } else {
        match first_path_fault(actions.drop_last()) {
            Some(fault) => Some(fault),
            None => path_fault(actions.last().kind),
        }
    }
}

/// The state entries belong to the actions, one by one.
pub open spec fn states_fit(
    states: Seq<JournalActionV1>,
    actions: Seq<DeclarativeActionV1>,
) -> bool {
    states.len() == actions.len() && forall|i: int|
        0 <= i < states.len() ==> (#[trigger] states[i]).action_id@ == actions[i].action_id@
}

/// Only an action that removes managed content is committed by its missing
/// receipt.
pub open spec fn commits_fit(
    states: Seq<JournalActionV1>,
    actions: Seq<DeclarativeActionV1>,
) -> bool {
    forall|i: int|
        0 <= i < states.len() && i < actions.len() && (#[trigger] states[i]).state
            == JournalActionStateV1::ReceiptCommitted ==> removes_managed(actions[i].kind)
}

/// The place of the first state entry of an action.
pub open spec fn state_index(states: Seq<JournalActionV1>, action_id: Seq<char>) -> Option<int>
    decreases states.len(),
{
    if states.len() == 0 {
        None
    } else {
        match state_index(states.drop_last(), action_id) {
            Some(index) => Some(index),
            None => if states.last().action_id@ == action_id {
                Some(states.len() - 1)
            } else {
                None
            },
        }
    }
}

/// The first state entry of an action is where none before it is of that action.
pub proof fn lemma_state_index(states: Seq<JournalActionV1>, action_id: Seq<char>)
    ensures
        match state_index(states, action_id) {
            Some(index) => 0 <= index < states.len() && states[index].action_id@ == action_id
                && forall|j: int| 0 <= j < index ==> (#[trigger] states[j]).action_id@ != action_id,
            None => forall|j: int|
                0 <= j < states.len() ==> (#[trigger] states[j]).action_id@ != action_id,
        },
    decreases states.len(),
{
    if states.len() > 0 {
        lemma_state_index(states.drop_last(), action_id);
        assert forall|j: int| 0 <= j < states.len() - 1 implies states.drop_last()[j]
            == states[j] by {}
    }
}

impl AppOperationJournalV1 {
    /// What validation gives: the first thing that is wrong.
    pub open spec fn verdict(&self) -> Result<(), JournalError> {
        if self.schema_version != APP_OPERATION_JOURNAL_SCHEMA_VERSION {
            Err(JournalError::UnsupportedSchema { version: self.schema_version })
        } else if self.action_ir.verdict() is Err {
            Err(JournalError::InvalidActions { error: self.action_ir.verdict()->Err_0 })
        } else if self.approval.schema_version != PLAN_APPROVAL_SCHEMA_VERSION {
            Err(
                JournalError::UnsupportedApprovalSchema { version: self.approval.schema_version },
            )
        } else if first_path_fault(self.action_ir.actions@) is Some {
            Err(first_path_fault(self.action_ir.actions@)->0)
        } else if !states_fit(self.actions@, self.action_ir.actions@) {
            Err(JournalError::StateMismatch)
        } else if !commits_fit(self.actions@, self.action_ir.actions@) {
            Err(JournalError::CommittedWithoutRemoval)
        } else {
            Ok(())
        }
    }

    /// The state of an action.
    pub open spec fn state_of(&self, action_id: Seq<char>) -> Option<JournalActionStateV1> {
        match state_index(self.actions@, action_id) {
            Some(index) => Some(self.actions@[index].state),
            None => None,
        }
    }

    /// A journal whose actions are all prepared.
    pub fn new(action_ir: ActionIrV1, approval: PlanApprovalV1) -> (journal: AppOperationJournalV1)
        ensures
            journal.schema_version == APP_OPERATION_JOURNAL_SCHEMA_VERSION,
            journal.action_ir == action_ir,
            journal.approval == approval,
            states_fit(journal.actions@, action_ir.actions@),
            forall|i: int|
                0 <= i < journal.actions@.len() ==> (#[trigger] journal.actions@[i]).state
                    == JournalActionStateV1::Prepared,
    {
        let mut actions: Vec<JournalActionV1> = Vec::new();
        let mut i: usize = 0;
        while i < action_ir.actions.len()
            invariant
                i <= action_ir.actions.len(),
                actions@.len() == i,
                forall|j: int|
                    0 <= j < i ==> (#[trigger] actions@[j]).action_id@
                        == action_ir.actions@[j].action_id@ && actions@[j].state
                        == JournalActionStateV1::Prepared,
            decreases action_ir.actions.len() - i,
        {
            actions.push(
                JournalActionV1 {
                    action_id: action_ir.actions[i].action_id.clone(),
                    state: JournalActionStateV1::Prepared,
                },
            );
            i += 1;
        }
        AppOperationJournalV1 {
            schema_version: APP_OPERATION_JOURNAL_SCHEMA_VERSION,
            action_ir,
            approval,
            actions,
        }
    }

    /// Whether the journal can be trusted: known schemas, actions with ids of
    /// their own, each backup and rollback path the one that belongs to its
    /// destination, one state for each action, and receipts committed by absence
    /// only where an action removes.
    pub fn validate(&self) -> (result: Result<(), JournalError>)
        ensures
            result == self.verdict(),
    {
        if self.schema_version != APP_OPERATION_JOURNAL_SCHEMA_VERSION {
            return Err(JournalError::UnsupportedSchema { version: self.schema_version });
        }
        if let Err(error) = self.action_ir.validate() {
            return Err(JournalError::InvalidActions { error });
        }
        if self.approval.schema_version != PLAN_APPROVAL_SCHEMA_VERSION {
            return Err(
                JournalError::UnsupportedApprovalSchema { version: self.approval.schema_version },
            );
        }
        let actions = &self.action_ir.actions;
        let mut i: usize = 0;
        proof {
            assert(actions@.take(0) =~= Seq::<DeclarativeActionV1>::empty());
        }
        let mut fault: Option<JournalError> = None;
        while i < actions.len()
            invariant
                i <= actions.len(),
                fault == first_path_fault(actions@.take(i as int)),
            decreases actions.len() - i,
        {
            proof {
                assert(actions@.take(i as int + 1).drop_last() =~= actions@.take(i as int));
            }
            if fault.is_none() {
                fault = find_path_fault(&actions[i].kind);
            }
            i += 1;
        }
        proof {
            assert(actions@.take(actions@.len() as int) =~= actions@);
        }
        if let Some(error) = fault {
            return Err(error);
        }
        if self.actions.len() != actions.len() {
            return Err(JournalError::StateMismatch);
        }
        let mut k: usize = 0;
        while k < self.actions.len()
            invariant
                k <= self.actions.len(),
                self.actions@.len() == self.action_ir.actions@.len(),
                actions == self.action_ir.actions,
                forall|j: int|
                    0 <= j < k ==> (#[trigger] self.actions@[j]).action_id@
                        == self.action_ir.actions@[j].action_id@,
                self.schema_version == APP_OPERATION_JOURNAL_SCHEMA_VERSION,
                self.action_ir.verdict() is Ok,
                self.approval.schema_version == PLAN_APPROVAL_SCHEMA_VERSION,
                first_path_fault(self.action_ir.actions@) is None,
            decreases self.actions.len() - k,
        {
            if !same_text(self.actions[k].action_id.as_str(), actions[k].action_id.as_str()) {
                return Err(JournalError::StateMismatch);
            }
            k += 1;
        }
        let mut m: usize = 0;
        while m < self.actions.len()
            invariant
                m <= self.actions.len(),
                self.actions@.len() == self.action_ir.actions@.len(),
                actions == self.action_ir.actions,
                states_fit(self.actions@, self.action_ir.actions@),
                forall|j: int|
                    0 <= j < m && (#[trigger] self.actions@[j]).state
                        == JournalActionStateV1::ReceiptCommitted ==> removes_managed(
                        self.action_ir.actions@[j].kind,
                    ),
                self.schema_version == APP_OPERATION_JOURNAL_SCHEMA_VERSION,
                self.action_ir.verdict() is Ok,
                self.approval.schema_version == PLAN_APPROVAL_SCHEMA_VERSION,
                first_path_fault(self.action_ir.actions@) is None,
            decreases self.actions.len() - m,
        {
            if self.actions[m].state == JournalActionStateV1::ReceiptCommitted
                && !is_app_removal_action(&actions[m].kind) {
                return Err(JournalError::CommittedWithoutRemoval);
            }
            m += 1;
        }
        Ok(())
    }

    fn position(&self, action_id: &str) -> (found: Option<usize>)
        ensures
            found is Some <==> state_index(self.actions@, action_id@) is Some,
            found is Some ==> state_index(self.actions@, action_id@) == Some(found->0 as int)
                && found->0 < self.actions@.len(),
    {
        let mut i: usize = 0;
        while i < self.actions.len()
            invariant
                i <= self.actions.len(),
                forall|j: int| 0 <= j < i ==> (#[trigger] self.actions@[j]).action_id@ != action_id@,
            decreases self.actions.len() - i,
        {
            if same_text(self.actions[i].action_id.as_str(), action_id) {
                proof {
                    lemma_state_index(self.actions@, action_id@);
                }
                return Some(i);
            }
            i += 1;
        }
        proof {
            lemma_state_index(self.actions@, action_id@);
        }
        None
    }

    fn set_state(&mut self, index: usize, state: JournalActionStateV1)
        requires
            index < old(self).actions@.len(),
        ensures
            final(self).schema_version == old(self).schema_version,
            final(self).action_ir == old(self).action_ir,
            final(self).approval == old(self).approval,
            final(self).actions@ == old(self).actions@.update(
                index as int,
                JournalActionV1 { action_id: old(self).actions@[index as int].action_id, state },
            ),
    {
        let action_id = self.actions[index].action_id.clone();
        self.actions.set(index, JournalActionV1 { action_id, state });
    }

    /// Records that an action was carried out.
    pub fn mark_applied(&mut self, action_id: &str) -> (result: Result<(), JournalError>)
        ensures
            final(self).schema_version == old(self).schema_version,
            final(self).action_ir == old(self).action_ir,
            final(self).approval == old(self).approval,
            match state_index(old(self).actions@, action_id@) {
                Some(index) => result is Ok && final(self).actions@ == old(self).actions@.update(
                    index,
                    JournalActionV1 {
                        action_id: old(self).actions@[index].action_id,
                        state: JournalActionStateV1::Applied,
                    },
                ),
                None => result == Err::<(), JournalError>(JournalError::ActionNotFound) && final(self).actions@ == old(self).actions@,
            },
    {
        match self.position(action_id) {
            Some(index) => {
                self.set_state(index, JournalActionStateV1::Applied);
                Ok(())
            },
            None => Err(JournalError::ActionNotFound),
        }
    }

    /// Records that the receipt of an applied action is durably gone.
    pub fn mark_receipt_committed(&mut self, action_id: &str) -> (result: Result<(), JournalError>)
        ensures
            final(self).schema_version == old(self).schema_version,
            final(self).action_ir == old(self).action_ir,
            final(self).approval == old(self).approval,
            match state_index(old(self).actions@, action_id@) {
                Some(index) => if old(self).actions@[index].state == JournalActionStateV1::Applied {
                    result is Ok && final(self).actions@ == old(self).actions@.update(
                        index,
                        JournalActionV1 {
                            action_id: old(self).actions@[index].action_id,
                            state: JournalActionStateV1::ReceiptCommitted,
                        },
                    )
                } else {
                    result == Err::<(), JournalError>(JournalError::CommitBeforeApply) && final(self).actions@ == old(self).actions@
                },
                None => result == Err::<(), JournalError>(JournalError::ActionNotFound) && final(self).actions@ == old(self).actions@,
            },
    {
        match self.position(action_id) {
            Some(index) => {
                if self.actions[index].state != JournalActionStateV1::Applied {
                    return Err(JournalError::CommitBeforeApply);
                }
                self.set_state(index, JournalActionStateV1::ReceiptCommitted);
                Ok(())
            },
            None => Err(JournalError::ActionNotFound),
        }
    }

    /// How far an action has come.
    pub fn action_state(&self, action_id: &str) -> (result: Result<
        JournalActionStateV1,
        JournalError,
    >)
        ensures
            match self.state_of(action_id@) {
                Some(state) => result == Ok::<JournalActionStateV1, JournalError>(state),
                None => result == Err::<JournalActionStateV1, JournalError>(
                    JournalError::ActionNotFound,
                ),
            },
    {
        match self.position(action_id) {
            Some(index) => Ok(self.actions[index].state),
            None => Err(JournalError::ActionNotFound),
        }
    }
}

/// A new journal over valid actions whose paths belong to their destinations is
/// valid.
pub proof fn law_new_journal_is_valid(journal: AppOperationJournalV1)
    requires
        journal.schema_version == APP_OPERATION_JOURNAL_SCHEMA_VERSION,
        journal.action_ir.verdict() is Ok,
        journal.approval.schema_version == PLAN_APPROVAL_SCHEMA_VERSION,
        first_path_fault(journal.action_ir.actions@) is None,
        states_fit(journal.actions@, journal.action_ir.actions@),
        forall|i: int|
            0 <= i < journal.actions@.len() ==> (#[trigger] journal.actions@[i]).state
                == JournalActionStateV1::Prepared,
    ensures
        journal.verdict() is Ok,
{
}

/// Moving one entry of a valid journal to `Applied` keeps the journal valid, and
/// moving it to `ReceiptCommitted` does exactly where its action removes managed
/// content.
pub proof fn law_steps_keep_journal_valid(
    before: AppOperationJournalV1,
    after: AppOperationJournalV1,
    index: int,
    state: JournalActionStateV1,
)
    requires
        before.verdict() is Ok,
        0 <= index < before.actions@.len(),
        after.schema_version == before.schema_version,
        after.action_ir == before.action_ir,
        after.approval == before.approval,
        after.actions@ == before.actions@.update(
            index,
            JournalActionV1 { action_id: before.actions@[index].action_id, state },
        ),
    ensures
        state == JournalActionStateV1::Applied ==> after.verdict() is Ok,
        state == JournalActionStateV1::ReceiptCommitted ==> (after.verdict() is Ok
            <==> removes_managed(before.action_ir.actions@[index].kind)),
{
    assert(states_fit(after.actions@, after.action_ir.actions@)) by {
        assert forall|i: int| 0 <= i < after.actions@.len() implies (
        #[trigger] after.actions@[i]).action_id@ == after.action_ir.actions@[i].action_id@ by {
            assert(before.actions@[i].action_id@ == before.action_ir.actions@[i].action_id@);
        }
    }
    let fits = state != JournalActionStateV1::ReceiptCommitted || removes_managed(
        before.action_ir.actions@[index].kind,
    );
    assert(fits ==> commits_fit(after.actions@, after.action_ir.actions@)) by {
        if fits {
            assert forall|i: int|
                0 <= i < after.actions@.len() && i < after.action_ir.actions@.len() && (
                #[trigger] after.actions@[i]).state
                    == JournalActionStateV1::ReceiptCommitted implies removes_managed(
                after.action_ir.actions@[i].kind,
            ) by {
                if i != index {
                    assert(after.actions@[i] == before.actions@[i]);
                }
            }
        }
    }
    if !fits {
        assert(after.actions@[index].state == JournalActionStateV1::ReceiptCommitted);
    }
}

/// In a valid journal each action of the operation has a state.
pub proof fn law_valid_journal_has_each_state(journal: AppOperationJournalV1, index: int)
    requires
        journal.verdict() is Ok,
        0 <= index < journal.action_ir.actions@.len(),
    ensures
        journal.state_of(journal.action_ir.actions@[index].action_id@) is Some,
{
    let id = journal.action_ir.actions@[index].action_id@;
    lemma_state_index(journal.actions@, id);
    assert(journal.actions@[index].action_id@ == id);
}

} // verus!
