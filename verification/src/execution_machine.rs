//! The order in which an operation is carried out.
//!
//! The operation is held against its approval and its content, and waits for the lock
//! on privileged operations. Then every guard is held against what is found, the
//! journal is saved, the steps are taken, and only then the journal says that they were. Where the host fails in
//! between, the journal stays as it was saved last.

use vstd::prelude::*;
use vstd::string::*;

use crate::action::{action_needs_admin, ActionIrV1, ActionKindV1, PathRole};
use crate::context::RuntimeContext;
use crate::execution::{check_guard, guard_verdict, overrides_user, Guard};
use crate::execution_fault::{ExecutionFault, ExecutionKind};
use crate::execution_run::{
    admission, admit_execution, execution_backup, execution_step_views, execution_steps,
    finish_execution, open_execution, opening, prepare_content, prepared_content,
    AppOperationExecutionV1, PreparedView,
};
use crate::journal::{
    states_fit, AppOperationJournalV1, JournalActionStateV1, APP_OPERATION_JOURNAL_SCHEMA_VERSION,
};
use crate::json::JsonFault;
use crate::manifest::AppManifest;
use crate::plan::{optional_text, PlanApprovalV1, PlanV1};
use crate::recovery::{FileView, RecoveryFileObservation};
use crate::recovery_run::{host_step_views, HostStep};

verus! {

/// How far an operation has come.
#[derive(Clone, Copy, Debug, PartialEq, Eq, Structural)]
pub enum ExecutionPhase {
    /// The lock is waited for.
    Locking,
    /// The lock is held; the journal and the receipts are to be read.
    Opening,
    /// Guards are held against what is found.
    Guarding,
    /// The steps are known, and nothing was changed.
    Staged,
    /// The journal was saved, and steps are taken.
    Journaled,
    /// Every step was taken, and the journal says so.
    Applied,
    /// The journal that says so was saved.
    Finished,
}

/// What an operation asks for next.
#[derive(Clone, Copy, Debug, PartialEq, Eq, Structural)]
pub enum ExecutionDemand {
    /// Wait for the lock on privileged operations.
    Lock,
    /// Read the receipts, and say whether there is a journal.
    Open,
    /// Look at the path of this part of the action.
    Inspect { role: PathRole },
    /// The operation is refused.
    Refuse { fault: ExecutionFault },
    Stage,
    SaveJournal,
    /// Take the step of this index.
    Take { index: usize },
    MarkApplied,
    Finish,
}

/// An operation under way.
#[derive(Clone, Debug)]
pub struct ExecutionRun {
    pub journal: AppOperationJournalV1,
    pub content: Vec<u8>,
    pub guards: Vec<Guard>,
    pub passed: usize,
    /// What stood where the operation starts.
    pub found: Option<Vec<u8>>,
    pub steps: Vec<HostStep>,
    pub taken: usize,
    /// How often the lock was taken.
    pub locks: usize,
    pub phase: ExecutionPhase,
}

/// The part of an action that it starts from.
pub open spec fn starting_role(kind: ActionKindV1) -> PathRole {
    match kind {
        ActionKindV1::RelocateManagedJson { .. } => PathRole::PreviousDestination,
        _ => PathRole::Destination,
    }
}

/// What a guard that held says of what the operation starts from.
pub open spec fn found_after(
    kind: ActionKindV1,
    guard: Guard,
    file: FileView,
    before: Option<Seq<u8>>,
) -> Option<Seq<u8>> {
    match (guard, file) {
        (Guard::Regular { role, .. }, FileView::Regular { content, .. }) => if role
            == starting_role(kind) {
            Some(content)
        } else {
            before
        },
        _ => before,
    }
}

/// A content that may be absent.
pub open spec fn optional_content(content: Option<Vec<u8>>) -> Option<Seq<u8>> {
    match content {
        Some(content) => Some(content@),
        None => None,
    }
}

impl ExecutionRun {
    /// The action that is carried out.
    pub open spec fn kind(&self) -> ActionKindV1 {
        self.journal.action_ir.actions@[0].kind
    }

    /// What the operation writes.
    pub open spec fn prepared(&self) -> Result<PreparedView, JsonFault> {
        prepared_content(self.kind(), self.content@, optional_content(self.found))
    }

    /// Whether the journal says of its one action that it is in a state.
    pub open spec fn is_in(&self, state: JournalActionStateV1) -> bool {
        self.journal.actions@.len() == 1 && self.journal.actions@[0].state == state
    }

    /// Whether neither the journal nor the receipts were read.
    pub open spec fn is_waiting(&self) -> bool {
        self.phase == ExecutionPhase::Locking || self.phase == ExecutionPhase::Opening
    }

    /// The lock is taken once, and before the journal and the receipts are read.
    /// Nothing is taken before the journal was saved, the steps are those of the
    /// action, and the journal says that the action was applied exactly once every
    /// step was taken.
    pub open spec fn well_formed(&self) -> bool {
        &&& self.journal.schema_version == APP_OPERATION_JOURNAL_SCHEMA_VERSION
        &&& self.journal.action_ir.actions@.len() == 1
        &&& states_fit(self.journal.actions@, self.journal.action_ir.actions@)
        &&& self.passed <= self.guards@.len()
        &&& self.taken <= self.steps@.len()
        &&& self.locks == if self.phase == ExecutionPhase::Locking {
            0int
        } else {
            1
        }
        &&& self.is_waiting() ==> self.guards@.len() == 0 && self.found is None
        &&& self.is_waiting() || self.phase == ExecutionPhase::Guarding || self.phase
            == ExecutionPhase::Staged ==> self.taken == 0
        &&& !self.is_waiting() && self.phase != ExecutionPhase::Guarding ==> {
            &&& self.passed == self.guards@.len()
            &&& self.prepared() is Ok
            &&& host_step_views(self.steps@) == execution_step_views(
                self.kind(),
                self.prepared()->Ok_0,
            )
        }
        &&& if self.phase == ExecutionPhase::Applied || self.phase == ExecutionPhase::Finished {
            self.taken == self.steps@.len() && self.is_in(JournalActionStateV1::Applied)
        } else {
            self.is_in(JournalActionStateV1::Prepared)
        }
    }

    /// What the operation asks for next.
    pub open spec fn demand(&self) -> ExecutionDemand {
        match self.phase {
            ExecutionPhase::Locking => ExecutionDemand::Lock,
            ExecutionPhase::Opening => ExecutionDemand::Open,
            ExecutionPhase::Guarding => if self.passed < self.guards@.len() {
                match self.guards@[self.passed as int] {
                    Guard::Unread { role } => ExecutionDemand::Inspect { role },
                    Guard::Absent { role, .. } => ExecutionDemand::Inspect { role },
                    Guard::Regular { role, .. } => ExecutionDemand::Inspect { role },
                    Guard::Refuse { fault } => ExecutionDemand::Refuse { fault },
                }
            } else {
                ExecutionDemand::Stage
            },
            ExecutionPhase::Staged => ExecutionDemand::SaveJournal,
            ExecutionPhase::Journaled => if self.taken < self.steps@.len() {
                ExecutionDemand::Take { index: self.taken }
            } else {
                ExecutionDemand::MarkApplied
            },
            ExecutionPhase::Applied => ExecutionDemand::SaveJournal,
            ExecutionPhase::Finished => ExecutionDemand::Finish,
        }
    }

    /// Starts an operation that its approval and its content allow.
    pub fn start(
        kind: ExecutionKind,
        context: &RuntimeContext,
        plan: &PlanV1,
        approval: PlanApprovalV1,
        ir: ActionIrV1,
        content: Vec<u8>,
    ) -> (result: Result<ExecutionRun, ExecutionFault>)
        ensures
            match admission(kind, *context, *plan, approval, ir, content@) {
                Err(fault) => result is Err && result->Err_0 == fault,
                Ok(_) => {
                    &&& result is Ok
                    &&& result->Ok_0.well_formed()
                    &&& result->Ok_0.phase == ExecutionPhase::Locking
                    &&& result->Ok_0.journal.action_ir == ir
                    &&& result->Ok_0.journal.approval == approval
                    &&& result->Ok_0.content == content
                    &&& result->Ok_0.passed == 0
                    &&& result->Ok_0.steps@.len() == 0
                },
            },
    {
        if let Err(fault) = admit_execution(
            kind,
            context,
            plan,
            &approval,
            &ir,
            content.as_slice(),
        ) {
            return Err(fault);
        }
        let journal = AppOperationJournalV1::new(ir, approval);
        Ok(
            ExecutionRun {
                journal,
                content,
                guards: Vec::new(),
                passed: 0,
                found: None,
                steps: Vec::new(),
                taken: 0,
                locks: 0,
                phase: ExecutionPhase::Locking,
            },
        )
    }

    /// Goes on with the lock held.
    pub fn lock_acquired(&mut self)
        requires
            old(self).well_formed(),
            old(self).demand() is Lock,
        ensures
            final(self).well_formed(),
            *final(self) == (ExecutionRun {
                locks: 1,
                phase: ExecutionPhase::Opening,
                ..*old(self)
            }),
    {
        self.locks = 1;
        self.phase = ExecutionPhase::Opening;
    }

    /// Goes on with the receipts that were read under the lock, where no journal is
    /// there and they allow the operation.
    pub fn opened(&mut self, journal_present: bool, manifest: &AppManifest) -> (result: Result<
        (),
        ExecutionFault,
    >)
        requires
            old(self).well_formed(),
            old(self).demand() is Open,
        ensures
            final(self).well_formed(),
            match opening(
                old(self).journal.action_ir.actions@[0],
                journal_present,
                manifest@,
            ) {
                Err(fault) => result == Err::<(), ExecutionFault>(fault) && *final(self) == *old(
                    self,
                ),
                Ok(guards) => {
                    &&& result is Ok
                    &&& *final(self) == (ExecutionRun {
                        guards: final(self).guards,
                        passed: 0,
                        phase: ExecutionPhase::Guarding,
                        ..*old(self)
                    })
                    &&& final(self).guards@ == guards
                },
            },
    {
        match open_execution(&self.journal.action_ir.actions[0], journal_present, manifest) {
            Err(fault) => Err(fault),
            Ok(guards) => {
                self.guards = guards;
                self.passed = 0;
                self.phase = ExecutionPhase::Guarding;
                Ok(())
            },
        }
    }

    /// What the operation asks for next.
    pub fn next(&self) -> (demand: ExecutionDemand)
        requires
            self.well_formed(),
        ensures
            demand == self.demand(),
    {
        match self.phase {
            ExecutionPhase::Locking => ExecutionDemand::Lock,
            ExecutionPhase::Opening => ExecutionDemand::Open,
            ExecutionPhase::Guarding => {
                if self.passed < self.guards.len() {
                    match self.guards[self.passed] {
                        Guard::Unread { role } => ExecutionDemand::Inspect { role },
                        Guard::Absent { role, .. } => ExecutionDemand::Inspect { role },
                        Guard::Regular { role, .. } => ExecutionDemand::Inspect { role },
                        Guard::Refuse { fault } => ExecutionDemand::Refuse { fault },
                    }
                } else {
                    ExecutionDemand::Stage
                }
            },
            ExecutionPhase::Staged => ExecutionDemand::SaveJournal,
            ExecutionPhase::Journaled => {
                if self.taken < self.steps.len() {
                    ExecutionDemand::Take { index: self.taken }
                } else {
                    ExecutionDemand::MarkApplied
                }
            },
            ExecutionPhase::Applied => ExecutionDemand::SaveJournal,
            ExecutionPhase::Finished => ExecutionDemand::Finish,
        }
    }

    /// Holds the next guard against what was found at its path.
    pub fn inspected(&mut self, file: &RecoveryFileObservation) -> (result: Result<
        (),
        ExecutionFault,
    >)
        requires
            old(self).well_formed(),
            old(self).demand() is Inspect,
        ensures
            final(self).well_formed(),
            result == guard_verdict(
                old(self).kind(),
                old(self).guards@[old(self).passed as int],
                file@,
            ),
            result is Err ==> *final(self) == *old(self),
            result is Ok ==> {
                &&& *final(self) == (ExecutionRun {
                    passed: final(self).passed,
                    found: final(self).found,
                    ..*old(self)
                })
                &&& final(self).passed == old(self).passed + 1
                &&& optional_content(final(self).found) == found_after(
                    old(self).kind(),
                    old(self).guards@[old(self).passed as int],
                    file@,
                    optional_content(old(self).found),
                )
            },
    {
        proof {
            let total: usize = self.guards.len();
            assert(self.passed < total);
        }
        let guard = self.guards[self.passed];
        let kind = &self.journal.action_ir.actions[0].kind;
        if let Err(fault) = check_guard(kind, guard, file) {
            return Err(fault);
        }
        let start = match kind {
            ActionKindV1::RelocateManagedJson { .. } => PathRole::PreviousDestination,
            _ => PathRole::Destination,
        };
        if let Guard::Regular { role, .. } = guard {
            if role == start {
                if let RecoveryFileObservation::Regular(content, _) = file {
                    let mut copy: Vec<u8> = Vec::new();
                    copy.extend_from_slice(content.as_slice());
                    proof {
                        assert(copy@ =~= content@);
                    }
                    self.found = Some(copy);
                }
            }
        }
        self.passed = self.passed + 1;
        Ok(())
    }

    /// Works out the steps, once every guard held.
    pub fn stage(&mut self) -> (result: Result<(), JsonFault>)
        requires
            old(self).well_formed(),
            old(self).demand() is Stage,
        ensures
            final(self).well_formed(),
            match old(self).prepared() {
                Err(fault) => result == Err::<(), JsonFault>(fault) && *final(self) == *old(self),
                Ok(prepared) => {
                    &&& result is Ok
                    &&& *final(self) == (ExecutionRun {
                        steps: final(self).steps,
                        taken: 0,
                        phase: ExecutionPhase::Staged,
                        ..*old(self)
                    })
                    &&& host_step_views(final(self).steps@) == execution_step_views(
                        old(self).kind(),
                        prepared,
                    )
                },
            },
    {
        let kind = &self.journal.action_ir.actions[0].kind;
        let found: Option<&[u8]> = match &self.found {
            Some(found) => Some(found.as_slice()),
            None => None,
        };
        match prepare_content(kind, self.content.as_slice(), found) {
            Err(fault) => Err(fault),
            Ok(prepared) => {
                let steps = execution_steps(kind, &prepared);
                self.steps = steps;
                self.taken = 0;
                self.phase = ExecutionPhase::Staged;
                Ok(())
            },
        }
    }

    /// The journal was saved.
    pub fn journal_saved(&mut self)
        requires
            old(self).well_formed(),
            old(self).demand() is SaveJournal,
        ensures
            final(self).well_formed(),
            *final(self) == (ExecutionRun {
                phase: if old(self).phase == ExecutionPhase::Staged {
                    ExecutionPhase::Journaled
                } else {
                    ExecutionPhase::Finished
                },
                ..*old(self)
            }),
    {
        self.phase = match self.phase {
            ExecutionPhase::Staged => ExecutionPhase::Journaled,
            _ => ExecutionPhase::Finished,
        };
    }

    /// The next step was taken.
    pub fn step_taken(&mut self)
        requires
            old(self).well_formed(),
            old(self).demand() is Take,
        ensures
            final(self).well_formed(),
            *final(self) == (ExecutionRun { taken: final(self).taken, ..*old(self) }),
            final(self).taken == old(self).taken + 1,
    {
        proof {
            let total: usize = self.steps.len();
            assert(self.taken < total);
        }
        self.taken = self.taken + 1;
    }

    /// Says in the journal that every step was taken.
    pub fn mark_applied(&mut self)
        requires
            old(self).well_formed(),
            old(self).demand() is MarkApplied,
        ensures
            final(self).well_formed(),
            *final(self) == (ExecutionRun {
                journal: final(self).journal,
                phase: ExecutionPhase::Applied,
                ..*old(self)
            }),
            final(self).journal.action_ir == old(self).journal.action_ir,
            final(self).journal.approval == old(self).journal.approval,
    {
        let action_id = self.journal.action_ir.actions[0].action_id.clone();
        let ghost before = self.journal.actions@;
        proof {
            assert(before.len() == 1);
            assert(before[0].action_id@ == action_id@);
            crate::journal::lemma_state_index(before, action_id@);
        }
        let _ = self.journal.mark_applied(action_id.as_str());
        self.phase = ExecutionPhase::Applied;
        proof {
            assert(self.journal.actions@[0].action_id == before[0].action_id);
        }
    }

    /// What the finished operation hands to its commit.
    pub fn finish(&self) -> (execution: AppOperationExecutionV1)
        requires
            self.well_formed(),
            self.demand() is Finish,
        ensures
            execution.operation_id@ == self.journal.action_ir.operation_id@,
            optional_text(execution.backup) == execution_backup(self.kind()),
            execution.forced == overrides_user(self.kind()),
            execution.holds_privileged_operation == action_needs_admin(self.kind()),
    {
        finish_execution(
            self.journal.action_ir.operation_id.as_str(),
            &self.journal.action_ir.actions[0].kind,
        )
    }
}

/// Neither the journal nor any path is looked at, and nothing is changed, before the
/// lock is held. It is taken once.
pub proof fn law_lock_comes_first(run: ExecutionRun)
    requires
        run.well_formed(),
    ensures
        run.demand() is Lock <==> run.locks == 0,
        !(run.demand() is Lock) ==> run.locks == 1,
{
}

/// Nothing is changed before every guard held and the journal was saved.
pub proof fn law_journal_comes_before_changes(run: ExecutionRun)
    requires
        run.well_formed(),
        run.demand() is Take,
    ensures
        run.phase == ExecutionPhase::Journaled,
        run.passed == run.guards@.len(),
        run.is_in(JournalActionStateV1::Prepared),
{
}

/// The journal says that an operation was applied only once all of its steps were
/// taken, and a journal that says so is saved before the operation is finished.
pub proof fn law_applied_means_every_step(run: ExecutionRun)
    requires
        run.well_formed(),
    ensures
        run.is_in(JournalActionStateV1::Applied) ==> run.taken == run.steps@.len() && (
        run.phase == ExecutionPhase::Applied || run.phase == ExecutionPhase::Finished),
        run.demand() is Finish ==> run.is_in(JournalActionStateV1::Applied),
{
}

} // verus!
