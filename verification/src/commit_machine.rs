//! The order in which an operation is committed.
//!
//! The lock on privileged operations is taken first, unless the operation still holds
//! it. A journal that changed is saved; then each action gives up its rollback
//! material; the journal goes last.

use vstd::prelude::*;
use vstd::string::*;

use crate::action::{action_needs_admin, ActionKindV1, PathRole};
use crate::commit::{
    begin_commit, commit_action, commit_decision, commit_roles, commit_verdict, committed_state,
    material_is_privileged, roles_to_commit, CommitFault,
};
use crate::execution_machine::ExecutionRun;
use crate::execution_run::AppOperationExecutionV1;
use crate::journal::AppOperationJournalV1;
use crate::manifest::AppManifest;
use crate::recovery::RecoveryFileObservation;
use crate::recovery_plan::file_views;
use crate::recovery_planner::role_or_empty;
use crate::recovery_run::{HostStep, HostStepView};

verus! {

/// What a commit asks for next.
#[derive(Clone, Copy, Debug, PartialEq, Eq, Structural)]
pub enum CommitDemand {
    /// Wait for the lock on privileged operations.
    Lock,
    /// Read the journal and the receipts.
    Open,
    SaveJournal,
    /// Look at the parts of the action of this index that count for its commit.
    Inspect { index: usize },
    RemoveJournal,
    Finish,
}

/// How far a commit came.
#[derive(Clone, Copy, Debug, PartialEq, Eq, Structural)]
pub enum CommitPhase {
    Locking,
    Opening,
    Settling,
    Done,
}

/// A commit under way.
#[derive(Clone, Debug)]
pub struct CommitRun {
    operation_id: String,
    held: bool,
    locks: usize,
    phase: CommitPhase,
    journal: Option<AppOperationJournalV1>,
    unsaved: bool,
    settled: usize,
}

/// A commit under way, by its values.
pub ghost struct CommitRunView {
    pub operation_id: Seq<char>,
    /// The operation still holds the lock.
    pub held: bool,
    /// How often the commit took the lock itself.
    pub locks: int,
    pub phase: CommitPhase,
    pub journal: Option<AppOperationJournalV1>,
    pub unsaved: bool,
    pub settled: int,
}

impl View for CommitRun {
    type V = CommitRunView;

    closed spec fn view(&self) -> CommitRunView {
        CommitRunView {
            operation_id: self.operation_id@,
            held: self.held,
            locks: self.locks as int,
            phase: self.phase,
            journal: self.journal,
            unsaved: self.unsaved,
            settled: self.settled as int,
        }
    }
}

/// Whether a journal is the one of an operation whose commit has begun: each removal
/// that was applied is marked as committed, and nothing else changed.
pub open spec fn is_begun(before: AppOperationJournalV1, after: AppOperationJournalV1) -> bool {
    &&& after.schema_version == before.schema_version
    &&& after.approval == before.approval
    &&& after.action_ir == before.action_ir
    &&& after.actions@.len() == before.actions@.len()
    &&& forall|i: int|
        0 <= i < before.actions@.len() ==> (#[trigger] after.actions@[i]).action_id@
            == before.actions@[i].action_id@ && after.actions@[i].state == committed_state(
            before.action_ir.actions@[i].kind,
            before.actions@[i].state,
        )
}

impl CommitRunView {
    /// The lock is taken once, by the operation or by the commit, before the journal
    /// is read.
    pub open spec fn well_formed(&self) -> bool {
        &&& self.held ==> self.phase != CommitPhase::Locking
        &&& self.locks == if self.held || self.phase == CommitPhase::Locking {
            0int
        } else {
            1
        }
        &&& self.journal is Some <==> self.phase == CommitPhase::Settling || self.phase
            == CommitPhase::Done
        &&& self.journal is Some ==> 0 <= self.settled
            <= self.journal->0.action_ir.actions@.len()
        &&& self.unsaved ==> self.phase == CommitPhase::Settling && self.settled == 0
        &&& self.phase == CommitPhase::Done ==> self.settled
            == self.journal->0.action_ir.actions@.len()
    }

    /// What the commit asks for next.
    pub open spec fn demand(&self) -> CommitDemand {
        match self.phase {
            CommitPhase::Locking => CommitDemand::Lock,
            CommitPhase::Opening => CommitDemand::Open,
            CommitPhase::Settling => if self.unsaved {
                CommitDemand::SaveJournal
            } else if self.settled < self.journal->0.action_ir.actions@.len() {
                CommitDemand::Inspect { index: self.settled as usize }
            } else {
                CommitDemand::RemoveJournal
            },
            CommitPhase::Done => CommitDemand::Finish,
        }
    }

    /// The action that is committed next.
    pub open spec fn kind(&self) -> ActionKindV1 {
        self.journal->0.action_ir.actions@[self.settled].kind
    }
}

impl CommitRun {
    /// Starts the commit of a finished operation. A privileged one still holds the
    /// lock, which is not taken again.
    pub fn start(execution: &AppOperationExecutionV1) -> (run: CommitRun)
        ensures
            run@.well_formed(),
            run@ == (CommitRunView {
                operation_id: execution.operation_id@,
                held: execution.holds_privileged_operation,
                locks: 0,
                phase: if execution.holds_privileged_operation {
                    CommitPhase::Opening
                } else {
                    CommitPhase::Locking
                },
                journal: None,
                unsaved: false,
                settled: 0,
            }),
    {
        let held = execution.holds_privileged_operation;
        CommitRun {
            operation_id: execution.operation_id.clone(),
            held,
            locks: 0,
            phase: if held {
                CommitPhase::Opening
            } else {
                CommitPhase::Locking
            },
            journal: None,
            unsaved: false,
            settled: 0,
        }
    }

    /// What the commit asks for next.
    pub fn next(&self) -> (demand: CommitDemand)
        requires
            self@.well_formed(),
        ensures
            demand == self@.demand(),
    {
        match self.phase {
            CommitPhase::Locking => CommitDemand::Lock,
            CommitPhase::Opening => CommitDemand::Open,
            CommitPhase::Settling => {
                if self.unsaved {
                    CommitDemand::SaveJournal
                } else if self.settled < self.journal().action_ir.actions.len() {
                    CommitDemand::Inspect { index: self.settled }
                } else {
                    CommitDemand::RemoveJournal
                }
            },
            CommitPhase::Done => CommitDemand::Finish,
        }
    }

    /// Goes on with the lock held.
    pub fn lock_acquired(&mut self)
        requires
            old(self)@.well_formed(),
            old(self)@.demand() is Lock,
        ensures
            final(self)@.well_formed(),
            final(self)@ == (CommitRunView {
                locks: 1,
                phase: CommitPhase::Opening,
                ..old(self)@
            }),
    {
        self.locks = 1;
        self.phase = CommitPhase::Opening;
    }

    /// Goes on with the journal and the receipts that were read: the actions of the
    /// operation were all applied, and its receipts are durable.
    pub fn opened(&mut self, journal: AppOperationJournalV1, manifest: &AppManifest) -> (result:
        Result<(), CommitFault>)
        requires
            old(self)@.well_formed(),
            old(self)@.demand() is Open,
            journal.verdict() is Ok,
        ensures
            final(self)@.well_formed(),
            match commit_verdict(journal, old(self)@.operation_id, manifest@) {
                Err(fault) => result == Err::<(), CommitFault>(fault) && final(self)@ == old(
                    self,
                )@,
                Ok(_) => {
                    &&& result is Ok
                    &&& final(self)@.journal is Some
                    &&& is_begun(journal, final(self)@.journal->0)
                    &&& final(self)@ == (CommitRunView {
                        phase: CommitPhase::Settling,
                        journal: final(self)@.journal,
                        unsaved: exists|i: int|
                            0 <= i < journal.actions@.len() && committed_state(
                                journal.action_ir.actions@[i].kind,
                                (#[trigger] journal.actions@[i]).state,
                            ) != journal.actions@[i].state,
                        settled: 0,
                        ..old(self)@
                    })
                },
            },
    {
        let mut journal = journal;
        match begin_commit(&mut journal, self.operation_id.as_str(), manifest) {
            Ok(unsaved) => {
                self.journal = Some(journal);
                self.unsaved = unsaved;
                self.settled = 0;
                self.phase = CommitPhase::Settling;
                Ok(())
            },
            Err(fault) => Err(fault),
        }
    }

    /// The journal as it is committed.
    pub fn journal(&self) -> (journal: &AppOperationJournalV1)
        requires
            self@.journal is Some,
        ensures
            Some(*journal) == self@.journal,
    {
        match &self.journal {
            Some(journal) => journal,
            None => vstd::pervasive::unreached(),
        }
    }

    /// Goes on after the journal was saved.
    pub fn journal_saved(&mut self)
        requires
            old(self)@.well_formed(),
            old(self)@.demand() is SaveJournal,
        ensures
            final(self)@.well_formed(),
            final(self)@ == (CommitRunView { unsaved: false, ..old(self)@ }),
    {
        self.unsaved = false;
    }

    /// The parts of the next action that count for its commit.
    pub fn roles(&self) -> (roles: Vec<PathRole>)
        requires
            self@.well_formed(),
            self@.demand() is Inspect,
        ensures
            roles@ == commit_roles(self@.kind()),
    {
        roles_to_commit(&self.journal().action_ir.actions[self.settled].kind)
    }

    /// Commits the next action, and gives the step that takes its rollback material
    /// away, where there is any.
    pub fn inspected(&mut self, files: &Vec<RecoveryFileObservation>) -> (result: Result<
        Option<HostStep>,
        CommitFault,
    >)
        requires
            old(self)@.well_formed(),
            old(self)@.demand() is Inspect,
        ensures
            final(self)@.well_formed(),
            final(self)@ == if result is Ok {
                CommitRunView { settled: old(self)@.settled + 1, ..old(self)@ }
            } else {
                old(self)@
            },
            ({
                let kind = old(self)@.kind();
                if files@.len() != commit_roles(kind).len() {
                    result is Err && result->Err_0 == CommitFault::ObservationMismatch
                } else {
                    match commit_decision(kind, file_views(files@)) {
                        Err(fault) => result is Err && result->Err_0 == fault,
                        Ok(None) => result is Ok && result->Ok_0 is None,
                        Ok(Some(role)) => result is Ok && result->Ok_0 is Some
                            && result->Ok_0->0@ == (HostStepView::RemoveFile {
                            path: role_or_empty(kind, role),
                            privileged: material_is_privileged(kind),
                        }),
                    }
                }
            }),
    {
        let journal = self.journal();
        proof {
            let total: usize = journal.action_ir.actions.len();
            assert(self.settled < total);
        }
        match commit_action(&journal.action_ir.actions[self.settled].kind, files) {
            Ok(step) => {
                self.settled = self.settled + 1;
                Ok(step)
            },
            Err(fault) => Err(fault),
        }
    }

    /// Ends once the journal is gone.
    pub fn journal_removed(&mut self)
        requires
            old(self)@.well_formed(),
            old(self)@.demand() is RemoveJournal,
        ensures
            final(self)@.well_formed(),
            final(self)@ == (CommitRunView { phase: CommitPhase::Done, ..old(self)@ }),
    {
        self.phase = CommitPhase::Done;
    }
}

/// The journal goes only once every action was committed, and what a commit changed
/// in the journal is saved before anything is taken away.
pub proof fn law_journal_goes_last(run: CommitRunView)
    requires
        run.well_formed(),
    ensures
        run.demand() is RemoveJournal || run.demand() is Finish ==> run.settled
            == run.journal->0.action_ir.actions@.len(),
        run.demand() is Inspect ==> !run.unsaved,
{
}

/// One guard serves a privileged operation from its first look at the host through its
/// commit: the operation takes it once, and the commit does not take it again. An
/// operation without privilege gives it back, and its commit takes it once.
pub proof fn law_guard_is_taken_once(
    execution: ExecutionRun,
    handed: AppOperationExecutionV1,
    commit: CommitRunView,
)
    requires
        execution.well_formed(),
        execution.demand() is Finish,
        handed.holds_privileged_operation == action_needs_admin(execution.kind()),
        commit.well_formed(),
        commit.held == handed.holds_privileged_operation,
    ensures
        execution.locks == 1,
        action_needs_admin(execution.kind()) ==> !(commit.demand() is Lock) && execution.locks
            + commit.locks == 1,
        !action_needs_admin(execution.kind()) ==> (commit.demand() is Lock <==> commit.locks == 0)
            && commit.locks <= 1,
        !(commit.demand() is Lock) ==> commit.held || commit.locks == 1,
{
}

} // verus!
