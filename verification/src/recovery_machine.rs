//! The order in which an interrupted operation is undone.
//!
//! A recovery starts with an approval that holds for the plan as it stands. Once it
//! has the lock of its host it is planned again, and the approval has to hold again.
//! Then the actions are undone from the last to the first; the journal goes last.

use vstd::prelude::*;
use vstd::string::*;

use crate::action::DeclarativeActionV1;
use crate::context::RuntimeContext;
use crate::journal::{AppOperationJournalV1, JournalError};
use crate::manifest::{AppEntryView, AppManifest};
use crate::plan::{
    step_views, DigestView, PlanActionV1, PlanApprovalError, PlanApprovalV1, PlanV1,
    SnapshotDigestV1,
};
use crate::receipts::{previous_receipt_matches, receipt_matches};
use crate::recovery::{FileView, RecoveryFileObservation};
use crate::recovery_apply::rollback_of;
use crate::recovery_laws::law_recovery_stays_within_its_plan;
use crate::recovery_plan::{file_views, observed_roles, recovery_decision};
use crate::recovery_planner::{
    action_conflicts, all_file_views, is_plan_of, is_receipt_committed,
    law_blocked_iff_some_step_is, law_plan_is_ready_iff_unblocked, plan_app_operation_recovery,
    planner_after, planner_start, PlannerView, RecoveryPlanError,
};
use crate::recovery_run::{
    host_step_views, receipts_after, steps_of_all, AppRecoveryReportV1, HostStep, HostStepView,
    RecoveryRunError, UndoState,
};
use crate::text::texts;

verus! {

/// Why a recovery does not start, or does not go on once it has the lock.
#[derive(Clone, Copy, Debug, PartialEq, Eq, Structural)]
pub enum RecoveryStartError {
    Plan { error: RecoveryPlanError },
    Approval { error: PlanApprovalError },
}

/// What the plan of a recovery is made of.
pub open spec fn recovery_planner_of(
    context: RuntimeContext,
    journal: AppOperationJournalV1,
    journal_bytes: Seq<u8>,
    entries: Seq<AppEntryView>,
    manifest_bytes: Option<Seq<u8>>,
    files: Seq<Seq<FileView>>,
) -> Result<PlannerView, RecoveryPlanError> {
    if files.len() != journal.action_ir.actions@.len() {
        Err(RecoveryPlanError::ObservationMismatch)
    } else {
        planner_after(
            context,
            entries,
            journal,
            files,
            planner_start(context, journal_bytes, manifest_bytes),
            journal.action_ir.actions@.len(),
        )
    }
}

/// Whether holding the approval against the plan of a planner gives this verdict.
pub open spec fn gives(
    approval: PlanApprovalV1,
    preset: DigestView,
    planner: PlannerView,
    verdict: Result<(), PlanApprovalError>,
) -> bool {
    &&& exists|plan: PlanV1| #[trigger] is_plan_of(plan, preset, planner)
    &&& forall|plan: PlanV1| #[trigger]
        is_plan_of(plan, preset, planner) ==> approval.verdict(plan) == verdict
}

pub proof fn lemma_one_verdict(
    approval: PlanApprovalV1,
    copy: PlanApprovalV1,
    preset: DigestView,
    planner: PlannerView,
    plan: PlanV1,
)
    requires
        copy.agrees(approval),
        is_plan_of(plan, preset, planner),
    ensures
        gives(approval, preset, planner, copy.verdict(plan)),
{
    assert forall|other: PlanV1| #[trigger]
        is_plan_of(other, preset, planner) implies approval.verdict(other) == copy.verdict(
        plan,
    ) by {
        let left = step_views(plan.steps@);
        let right = step_views(other.steps@);
        assert(left == right);
        assert(plan.steps@.len() == left.len());
        assert(other.steps@.len() == right.len());
        assert(plan.ready() == other.ready()) by {
            if plan.ready() {
                assert forall|i: int| 0 <= i < other.steps@.len() implies (
                #[trigger] other.steps@[i]).action != PlanActionV1::Blocked by {
                    assert(right[i] == other.steps@[i]@);
                    assert(left[i] == plan.steps@[i]@);
                }
            }
            if other.ready() {
                assert forall|i: int| 0 <= i < plan.steps@.len() implies (
                #[trigger] plan.steps@[i]).action != PlanActionV1::Blocked by {
                    assert(right[i] == other.steps@[i]@);
                    assert(left[i] == plan.steps@[i]@);
                }
            }
        }
    }
}

/// How far a recovery came.
#[derive(Clone, Copy, Debug, PartialEq, Eq, Structural)]
pub enum RecoveryPhase {
    Locking,
    Planning,
    Undoing,
    Done,
}

/// What a recovery asks for next.
#[derive(Clone, Copy, Debug, PartialEq, Eq, Structural)]
pub enum RecoveryDemand {
    /// Wait for the lock on privileged operations.
    Lock,
    /// Read the journal and the receipts, and look at the files, once more.
    PlanAgain,
    /// Look at the parts of the action of this index.
    Observe { index: usize },
    /// Take the step at hand.
    Take,
    /// Make the receipts durable.
    SaveManifest,
    RemoveJournal,
    Finish,
}

/// A recovery under way.
#[derive(Clone, Debug)]
pub struct RecoveryRun {
    approval: PlanApprovalV1,
    journal: AppOperationJournalV1,
    undo: UndoState,
    steps: Vec<HostStep>,
    taken: usize,
    reviews: usize,
    phase: RecoveryPhase,
}

/// A recovery under way, by its values.
pub ghost struct RecoveryRunView {
    pub approval: PlanApprovalV1,
    pub journal: AppOperationJournalV1,
    /// The schema version of the receipts.
    pub version: u32,
    pub entries: Seq<AppEntryView>,
    pub undone: Seq<Seq<char>>,
    pub remaining: int,
    pub steps: Seq<HostStepView>,
    pub taken: int,
    /// How often the approval was held against the plan and held.
    pub reviews: int,
    pub phase: RecoveryPhase,
}

impl View for RecoveryRun {
    type V = RecoveryRunView;

    closed spec fn view(&self) -> RecoveryRunView {
        RecoveryRunView {
            approval: self.approval,
            journal: self.journal,
            version: self.undo.manifest.schema_version,
            entries: self.undo.manifest@,
            undone: texts(self.undo.rolled_back_actions@),
            remaining: self.undo.remaining as int,
            steps: host_step_views(self.steps@),
            taken: self.taken as int,
            reviews: self.reviews as int,
            phase: self.phase,
        }
    }
}

impl RecoveryRunView {
    /// A recovery that has just begun.
    pub open spec fn begun(
        approval: PlanApprovalV1,
        journal: AppOperationJournalV1,
        version: u32,
        entries: Seq<AppEntryView>,
    ) -> RecoveryRunView {
        RecoveryRunView {
            approval,
            journal,
            version,
            entries,
            undone: Seq::empty(),
            remaining: journal.action_ir.actions@.len() as int,
            steps: Seq::empty(),
            taken: 0,
            reviews: 1,
            phase: RecoveryPhase::Locking,
        }
    }

    /// After what was read under the lock was found to give the approved plan.
    pub open spec fn after_planned(
        self,
        journal: AppOperationJournalV1,
        version: u32,
        entries: Seq<AppEntryView>,
    ) -> RecoveryRunView {
        RecoveryRunView {
            journal,
            version,
            entries,
            remaining: journal.action_ir.actions@.len() as int,
            reviews: 2,
            phase: RecoveryPhase::Undoing,
            ..self
        }
    }

    /// After the parts of the action at hand were looked at: the steps that undo it
    /// are due.
    pub open spec fn after_observed(self, files: Seq<FileView>) -> Result<
        RecoveryRunView,
        RecoveryRunError,
    > {
        let action = self.action();
        if self.journal.state_of(action.action_id@) is None {
            Err(RecoveryRunError::Journal { error: JournalError::ActionNotFound })
        } else if files.len() != observed_roles(action.kind).len() {
            Err(RecoveryRunError::ObservationMismatch)
        } else {
            match rollback_of(
                action.kind,
                is_receipt_committed(self.journal, self.remaining - 1),
                receipt_matches(self.entries, action),
                previous_receipt_matches(self.entries, action),
                files,
            ) {
                Err(fault) => Err(RecoveryRunError::Rollback { fault }),
                Ok(rollback) => match steps_of_all(action.kind, files, rollback.mutations) {
                    Err(fault) => Err(RecoveryRunError::Rollback { fault }),
                    Ok(steps) => Ok(
                        RecoveryRunView {
                            entries: receipts_after(self.entries, action, rollback),
                            undone: if rollback.undone {
                                self.undone.push(action.action_id@)
                            } else {
                                self.undone
                            },
                            remaining: self.remaining - 1,
                            steps,
                            taken: 0,
                            ..self
                        },
                    ),
                },
            }
        }
    }

    /// Nothing is undone before the approval held twice; the journal is left until
    /// every action was undone and every step was taken.
    pub open spec fn well_formed(&self) -> bool {
        &&& 0 <= self.taken <= self.steps.len()
        &&& 0 <= self.remaining <= self.journal.action_ir.actions@.len()
        &&& match self.phase {
            RecoveryPhase::Locking => self.reviews == 1,
            RecoveryPhase::Planning => self.reviews == 1,
            RecoveryPhase::Undoing => self.reviews == 2,
            RecoveryPhase::Done => self.reviews == 2 && self.remaining == 0 && self.taken
                == self.steps.len(),
        }
        &&& self.phase == RecoveryPhase::Locking || self.phase == RecoveryPhase::Planning ==> {
            &&& self.steps.len() == 0
            &&& self.undone.len() == 0
            &&& self.remaining == self.journal.action_ir.actions@.len()
        }
    }

    /// What the recovery asks for next.
    pub open spec fn demand(&self) -> RecoveryDemand {
        match self.phase {
            RecoveryPhase::Locking => RecoveryDemand::Lock,
            RecoveryPhase::Planning => RecoveryDemand::PlanAgain,
            RecoveryPhase::Undoing => if self.taken < self.steps.len() {
                if self.steps[self.taken] is SaveManifest {
                    RecoveryDemand::SaveManifest
                } else {
                    RecoveryDemand::Take
                }
            } else if self.remaining > 0 {
                RecoveryDemand::Observe { index: (self.remaining - 1) as usize }
            } else {
                RecoveryDemand::RemoveJournal
            },
            RecoveryPhase::Done => RecoveryDemand::Finish,
        }
    }

    /// The action that is undone next.
    pub open spec fn action(&self) -> DeclarativeActionV1 {
        self.journal.action_ir.actions@[self.remaining - 1]
    }
}

fn review(
    context: &RuntimeContext,
    journal: &AppOperationJournalV1,
    journal_bytes: &[u8],
    manifest: &AppManifest,
    manifest_bytes: Option<&[u8]>,
    files: &Vec<Vec<RecoveryFileObservation>>,
    preset: SnapshotDigestV1,
    approval: &PlanApprovalV1,
) -> (result: Result<(), RecoveryStartError>)
    ensures
        match recovery_planner_of(
            *context,
            *journal,
            journal_bytes@,
            manifest@,
            match manifest_bytes {
                Some(bytes) => Some(bytes@),
                None => None,
            },
            all_file_views(files@),
        ) {
            Err(error) => result == Err::<(), RecoveryStartError>(
                RecoveryStartError::Plan { error },
            ),
            Ok(planner) => match result {
                Ok(_) => gives(*approval, preset@, planner, Ok(())),
                Err(RecoveryStartError::Approval { error }) => gives(
                    *approval,
                    preset@,
                    planner,
                    Err(error),
                ),
                _ => false,
            },
        },
{
    let ghost digest = preset@;
    proof {
        assert(all_file_views(files@).len() == files@.len());
    }
    match plan_app_operation_recovery(
        context,
        journal,
        journal_bytes,
        manifest,
        manifest_bytes,
        files,
        preset,
    ) {
        Err(error) => Err(RecoveryStartError::Plan { error }),
        Ok(plan) => {
            let verdict = approval.validate(&plan);
            proof {
                let planner = recovery_planner_of(
                    *context,
                    *journal,
                    journal_bytes@,
                    manifest@,
                    match manifest_bytes {
                        Some(bytes) => Some(bytes@),
                        None => None,
                    },
                    all_file_views(files@),
                )->Ok_0;
                assert(is_plan_of(plan, digest, planner));
                lemma_one_verdict(*approval, *approval, digest, planner, plan);
            }
            match verdict {
                Ok(()) => Ok(()),
                Err(error) => Err(RecoveryStartError::Approval { error }),
            }
        },
    }
}

impl RecoveryRun {
    /// Starts the recovery of a journal whose plan is the one that was approved.
    pub fn start(
        context: &RuntimeContext,
        journal: AppOperationJournalV1,
        journal_bytes: &[u8],
        manifest: AppManifest,
        manifest_bytes: Option<&[u8]>,
        files: &Vec<Vec<RecoveryFileObservation>>,
        preset: SnapshotDigestV1,
        approval: &PlanApprovalV1,
    ) -> (result: Result<RecoveryRun, RecoveryStartError>)
        ensures
            match recovery_planner_of(
                *context,
                journal,
                journal_bytes@,
                manifest@,
                match manifest_bytes {
                    Some(bytes) => Some(bytes@),
                    None => None,
                },
                all_file_views(files@),
            ) {
                Err(error) => result is Err && result->Err_0 == (RecoveryStartError::Plan { error }),
                Ok(planner) => match result {
                    Ok(_) => gives(*approval, preset@, planner, Ok(())),
                    Err(RecoveryStartError::Approval { error }) => gives(
                        *approval,
                        preset@,
                        planner,
                        Err(error),
                    ),
                    _ => false,
                },
            },
            result is Ok ==> {
                let run = result->Ok_0@;
                &&& run.well_formed()
                &&& run.approval.agrees(*approval)
                &&& run == RecoveryRunView::begun(
                    run.approval,
                    journal,
                    manifest.schema_version,
                    manifest@,
                )
            },
    {
        match review(
            context,
            &journal,
            journal_bytes,
            &manifest,
            manifest_bytes,
            files,
            preset,
            approval,
        ) {
            Err(error) => return Err(error),
            Ok(()) => {},
        }
        let undo = UndoState::start(&journal, manifest);
        let steps: Vec<HostStep> = Vec::new();
        proof {
            assert(texts(undo.rolled_back_actions@) =~= Seq::<Seq<char>>::empty());
            assert(host_step_views(steps@) =~= Seq::<HostStepView>::empty());
        }
        Ok(
            RecoveryRun {
                approval: approval.copied(),
                journal,
                undo,
                steps,
                taken: 0,
                reviews: 1,
                phase: RecoveryPhase::Locking,
            },
        )
    }

    /// What the recovery asks for next.
    pub fn next(&self) -> (demand: RecoveryDemand)
        requires
            self@.well_formed(),
        ensures
            demand == self@.demand(),
    {
        match self.phase {
            RecoveryPhase::Locking => RecoveryDemand::Lock,
            RecoveryPhase::Planning => RecoveryDemand::PlanAgain,
            RecoveryPhase::Undoing => {
                if self.taken < self.steps.len() {
                    proof {
                        assert(host_step_views(self.steps@)[self.taken as int]
                            == self.steps@[self.taken as int]@);
                    }
                    match &self.steps[self.taken] {
                        HostStep::SaveManifest => RecoveryDemand::SaveManifest,
                        _ => RecoveryDemand::Take,
                    }
                } else if self.undo.remaining > 0 {
                    RecoveryDemand::Observe { index: self.undo.remaining - 1 }
                } else {
                    RecoveryDemand::RemoveJournal
                }
            },
            RecoveryPhase::Done => RecoveryDemand::Finish,
        }
    }

    /// Goes on with the lock held.
    pub fn lock_acquired(&mut self)
        requires
            old(self)@.well_formed(),
            old(self)@.demand() is Lock,
        ensures
            final(self)@ == (RecoveryRunView { phase: RecoveryPhase::Planning, ..old(self)@ }),
            final(self)@.well_formed(),
    {
        self.phase = RecoveryPhase::Planning;
    }

    /// Goes on with what was read under the lock, where the approval holds for the
    /// plan that it gives.
    pub fn planned_again(
        &mut self,
        context: &RuntimeContext,
        journal: AppOperationJournalV1,
        journal_bytes: &[u8],
        manifest: AppManifest,
        manifest_bytes: Option<&[u8]>,
        files: &Vec<Vec<RecoveryFileObservation>>,
        preset: SnapshotDigestV1,
    ) -> (result: Result<(), RecoveryStartError>)
        requires
            old(self)@.well_formed(),
            old(self)@.demand() is PlanAgain,
        ensures
            final(self)@.well_formed(),
            match recovery_planner_of(
                *context,
                journal,
                journal_bytes@,
                manifest@,
                match manifest_bytes {
                    Some(bytes) => Some(bytes@),
                    None => None,
                },
                all_file_views(files@),
            ) {
                Err(error) => result == Err::<(), RecoveryStartError>(
                    RecoveryStartError::Plan { error },
                ),
                Ok(planner) => match result {
                    Ok(_) => gives(old(self)@.approval, preset@, planner, Ok(())),
                    Err(RecoveryStartError::Approval { error }) => gives(
                        old(self)@.approval,
                        preset@,
                        planner,
                        Err(error),
                    ),
                    _ => false,
                },
            },
            final(self)@ == if result is Ok {
                old(self)@.after_planned(journal, manifest.schema_version, manifest@)
            } else {
                old(self)@
            },
    {
        match review(
            context,
            &journal,
            journal_bytes,
            &manifest,
            manifest_bytes,
            files,
            preset,
            &self.approval,
        ) {
            Err(error) => return Err(error),
            Ok(()) => {},
        }
        self.undo = UndoState::start(&journal, manifest);
        self.journal = journal;
        self.reviews = 2;
        self.phase = RecoveryPhase::Undoing;
        proof {
            assert(texts(self.undo.rolled_back_actions@) =~= Seq::<Seq<char>>::empty());
            assert(old(self)@.undone =~= Seq::<Seq<char>>::empty());
        }
        Ok(())
    }

    /// The action whose parts are to be looked at.
    pub fn action(&self) -> (action: &DeclarativeActionV1)
        requires
            self@.well_formed(),
            self@.demand() is Observe,
        ensures
            *action == self@.action(),
    {
        &self.journal.action_ir.actions[self.undo.remaining - 1]
    }

    /// Goes on with the steps that undo the action, from what was found for its
    /// parts. Where it is refused nothing changes.
    pub fn observed(&mut self, files: &Vec<RecoveryFileObservation>) -> (result: Result<
        (),
        RecoveryRunError,
    >)
        requires
            old(self)@.well_formed(),
            old(self)@.demand() is Observe,
        ensures
            final(self)@.well_formed(),
            match old(self)@.after_observed(file_views(files@)) {
                Err(error) => result == Err::<(), RecoveryRunError>(error) && final(self)@ == old(
                    self,
                )@,
                Ok(after) => result is Ok && final(self)@ == after,
            },
    {
        proof {
            assert(file_views(files@).len() == files@.len());
        }
        match self.undo.undo_next(&self.journal, files) {
            Ok(steps) => {
                self.steps = steps;
                self.taken = 0;
                Ok(())
            },
            Err(error) => Err(error),
        }
    }

    /// The step at hand.
    pub fn step(&self) -> (step: &HostStep)
        requires
            self@.well_formed(),
            self@.demand() is Take,
        ensures
            step@ == self@.steps[self@.taken],
    {
        proof {
            assert(host_step_views(self.steps@)[self.taken as int]
                == self.steps@[self.taken as int]@);
        }
        &self.steps[self.taken]
    }

    /// The receipts as they are to be made durable.
    pub fn manifest(&self) -> (manifest: &AppManifest)
        ensures
            manifest@ == self@.entries,
            manifest.schema_version == self@.version,
    {
        &self.undo.manifest
    }

    /// Goes on after the step at hand was taken, or the receipts were made durable.
    pub fn step_taken(&mut self)
        requires
            old(self)@.well_formed(),
            old(self)@.demand() is Take || old(self)@.demand() is SaveManifest,
        ensures
            final(self)@.well_formed(),
            final(self)@ == (RecoveryRunView { taken: old(self)@.taken + 1, ..old(self)@ }),
    {
        proof {
            let total: usize = self.steps.len();
            assert(self.taken < total);
        }
        self.taken = self.taken + 1;
    }

    /// Ends once the journal is gone.
    pub fn journal_removed(&mut self)
        requires
            old(self)@.well_formed(),
            old(self)@.demand() is RemoveJournal,
        ensures
            final(self)@.well_formed(),
            final(self)@ == (RecoveryRunView { phase: RecoveryPhase::Done, ..old(self)@ }),
    {
        self.phase = RecoveryPhase::Done;
    }

    /// The report of a finished recovery.
    pub fn report(self) -> (report: AppRecoveryReportV1)
        requires
            self@.well_formed(),
            self@.demand() is Finish,
        ensures
            report.operation_id@ == self@.journal.action_ir.operation_id@,
            texts(report.rolled_back_actions@) == self@.undone,
    {
        AppRecoveryReportV1 {
            operation_id: self.journal.action_ir.operation_id.clone(),
            rolled_back_actions: self.undo.rolled_back_actions,
        }
    }
}

/// Nothing is looked at to be undone, changed or saved before the approval held a
/// second time, under the lock. The journal goes last: only once every action was
/// undone and every step was taken.
pub proof fn law_recovery_is_reviewed_twice_and_ends_with_the_journal(run: RecoveryRunView)
    requires
        run.well_formed(),
    ensures
        run.demand() is Observe || run.demand() is Take || run.demand() is SaveManifest
            || run.demand() is RemoveJournal ==> run.reviews == 2,
        run.demand() is RemoveJournal || run.demand() is Finish ==> run.remaining == 0 && run.taken
            == run.steps.len(),
{
}

/// Where an approval holds for the plan of a recovery, nothing blocks any of its
/// actions: no receipt contradicts it, and what was found at its paths can be undone.
pub proof fn law_approved_recovery_is_unblocked(
    context: RuntimeContext,
    journal: AppOperationJournalV1,
    journal_bytes: Seq<u8>,
    entries: Seq<AppEntryView>,
    manifest_bytes: Option<Seq<u8>>,
    files: Seq<Seq<FileView>>,
    preset: DigestView,
    approval: PlanApprovalV1,
    plan: PlanV1,
    index: int,
)
    requires
        ({
            let planner = recovery_planner_of(
                context,
                journal,
                journal_bytes,
                entries,
                manifest_bytes,
                files,
            );
            planner is Ok && is_plan_of(plan, preset, planner->Ok_0)
        }),
        approval.verdict(plan) is Ok,
        0 <= index < journal.action_ir.actions@.len(),
    ensures
        ({
            let action = journal.action_ir.actions@[index];
            let committed = is_receipt_committed(journal, index);
            let receipt = receipt_matches(entries, action);
            let previous = previous_receipt_matches(entries, action);
            let decision = recovery_decision(
                action.kind,
                committed,
                receipt,
                previous,
                files[index],
            );
            &&& !action_conflicts(entries, action, committed)
            &&& decision is Ok && decision->Ok_0.action != PlanActionV1::Blocked
            &&& rollback_of(action.kind, committed, receipt, previous, files[index]) is Ok
        }),
{
    let total = journal.action_ir.actions@.len();
    let start = planner_start(context, journal_bytes, manifest_bytes);
    let planner = planner_after(context, entries, journal, files, start, total)->Ok_0;
    law_blocked_iff_some_step_is(
        context,
        entries,
        journal,
        files,
        journal_bytes,
        manifest_bytes,
        total,
    );
    law_plan_is_ready_iff_unblocked(plan, preset, planner);
    lemma_unblocked_before(context, journal, entries, files, start, total, index);
    let action = journal.action_ir.actions@[index];
    law_recovery_stays_within_its_plan(
        action.kind,
        is_receipt_committed(journal, index),
        receipt_matches(entries, action),
        previous_receipt_matches(entries, action),
        files[index],
    );
}

proof fn lemma_unblocked_before(
    context: RuntimeContext,
    journal: AppOperationJournalV1,
    entries: Seq<AppEntryView>,
    files: Seq<Seq<FileView>>,
    start: PlannerView,
    count: nat,
    index: int,
)
    requires
        planner_after(context, entries, journal, files, start, count) is Ok,
        !planner_after(context, entries, journal, files, start, count)->Ok_0.blocked,
        0 <= index < count,
    ensures
        ({
            let action = journal.action_ir.actions@[index];
            let committed = is_receipt_committed(journal, index);
            let decision = recovery_decision(
                action.kind,
                committed,
                receipt_matches(entries, action),
                previous_receipt_matches(entries, action),
                files[index],
            );
            &&& !action_conflicts(entries, action, committed)
            &&& decision is Ok && decision->Ok_0.action != PlanActionV1::Blocked
        }),
    decreases count,
{
    if index < count - 1 {
        lemma_unblocked_before(
            context,
            journal,
            entries,
            files,
            start,
            (count - 1) as nat,
            index,
        );
    }
}

} // verus!
