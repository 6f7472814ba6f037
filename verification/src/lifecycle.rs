//! What a lifecycle operation reports.

use vstd::prelude::*;
use vstd::string::*;

use crate::plan::optional_text;
use crate::text::texts;

verus! {

#[derive(Clone, Copy, Debug, PartialEq, Eq, Structural)]
pub enum LifecycleOperation {
    Install,
    Uninstall,
    Update,
    Upgrade,
}

#[derive(Clone, Copy, Debug, PartialEq, Eq, Structural)]
pub enum LifecycleStatus {
    Changed,
    Unchanged,
    Previewed,
    Preserved,
    Skipped,
    Conflict,
    Failed,
}

#[derive(Clone, Copy, Debug, PartialEq, Eq, Structural)]
pub enum LifecycleEffect {
    ResourceWritten,
    ResourceWritePreviewed,
    ResourceRemoved,
    ResourceRemovePreviewed,
    ReceiptWritten,
    ReceiptWritePreviewed,
    ReceiptRemoved,
    ReceiptRemovePreviewed,
    BackupCreated,
    BackupRestored,
    UserModificationOverridden,
    UserResourcePreserved,
    ManagedResourcePreserved,
    CodeExecuted,
    CodeExecutionPreviewed,
    CacheWritten,
    CacheWritePreviewed,
    CacheRemoved,
    CacheRemovePreviewed,
    CachePurged,
}

/// What became of one resource.
#[derive(Clone, Debug)]
pub struct LifecycleOutcomeV1 {
    pub target: String,
    pub resource: Option<String>,
    pub status: LifecycleStatus,
    pub effects: Vec<LifecycleEffect>,
    pub diagnostic_codes: Vec<String>,
}

/// An outcome by the values it holds.
pub ghost struct OutcomeView {
    pub target: Seq<char>,
    pub resource: Option<Seq<char>>,
    pub status: LifecycleStatus,
    pub effects: Seq<LifecycleEffect>,
    pub diagnostic_codes: Seq<Seq<char>>,
}

impl View for LifecycleOutcomeV1 {
    type V = OutcomeView;

    open spec fn view(&self) -> OutcomeView {
        OutcomeView {
            target: self.target@,
            resource: optional_text(self.resource),
            status: self.status,
            effects: self.effects@,
            diagnostic_codes: texts(self.diagnostic_codes@),
        }
    }
}

/// An outcome without diagnostic codes.
pub open spec fn plain_outcome(
    target: Seq<char>,
    resource: Option<Seq<char>>,
    status: LifecycleStatus,
    effects: Seq<LifecycleEffect>,
) -> OutcomeView {
    OutcomeView { target, resource, status, effects, diagnostic_codes: Seq::empty() }
}

/// An outcome with one diagnostic code.
pub open spec fn coded_outcome(
    target: Seq<char>,
    resource: Option<Seq<char>>,
    status: LifecycleStatus,
    effects: Seq<LifecycleEffect>,
    code: Seq<char>,
) -> OutcomeView {
    OutcomeView { target, resource, status, effects, diagnostic_codes: seq![code] }
}

impl LifecycleOutcomeV1 {
    pub fn new(
        target: &str,
        resource: Option<String>,
        status: LifecycleStatus,
        effects: Vec<LifecycleEffect>,
    ) -> (outcome: LifecycleOutcomeV1)
        ensures
            outcome@ == plain_outcome(target@, optional_text(resource), status, effects@),
    {
        let outcome = LifecycleOutcomeV1 {
            target: target.to_owned(),
            resource,
            status,
            effects,
            diagnostic_codes: Vec::new(),
        };
        proof {
            assert(texts(outcome.diagnostic_codes@) =~= Seq::empty());
        }
        outcome
    }

    pub fn with_diagnostic_code(self, code: &str) -> (outcome: LifecycleOutcomeV1)
        ensures
            outcome@ == (OutcomeView {
                diagnostic_codes: self@.diagnostic_codes.push(code@),
                ..self@
            }),
    {
        let mut outcome = self;
        let ghost before = outcome.diagnostic_codes@;
        outcome.diagnostic_codes.push(code.to_owned());
        proof {
            assert(texts(outcome.diagnostic_codes@) =~= texts(before).push(code@));
        }
        outcome
    }

    /// An outcome with one diagnostic code.
    pub fn coded(
        target: &str,
        resource: Option<String>,
        status: LifecycleStatus,
        effects: Vec<LifecycleEffect>,
        code: &str,
    ) -> (outcome: LifecycleOutcomeV1)
        ensures
            outcome@ == coded_outcome(target@, optional_text(resource), status, effects@, code@),
    {
        let outcome = LifecycleOutcomeV1::new(
            target,
            resource,
            status,
            effects,
        ).with_diagnostic_code(code);
        proof {
            assert(outcome@.diagnostic_codes =~= seq![code@]);
        }
        outcome
    }
}

/// The views of a list of outcomes.
pub open spec fn outcome_views(outcomes: Seq<LifecycleOutcomeV1>) -> Seq<OutcomeView> {
    outcomes.map_values(|outcome: LifecycleOutcomeV1| outcome@)
}

/// How many outcomes have each status.
#[derive(Clone, Copy, Debug, PartialEq, Eq, Structural)]
pub struct LifecycleSummaryV1 {
    pub changed: usize,
    pub unchanged: usize,
    pub failed: usize,
}

/// The outcomes of one operation.
#[derive(Clone, Debug)]
pub struct LifecycleResultV1 {
    pub operation: LifecycleOperation,
    pub dry_run: bool,
    pub outcomes: Vec<LifecycleOutcomeV1>,
}

/// How many outcomes have a status.
pub open spec fn count_status(outcomes: Seq<LifecycleOutcomeV1>, status: LifecycleStatus) -> nat
    decreases outcomes.len(),
{
    if outcomes.len() == 0 {
        0
    } else {
        count_status(outcomes.drop_last(), status) + if outcomes.last().status == status {
            1nat
        } else {
            0nat
        }
    }
}

impl LifecycleResultV1 {
    pub fn new(operation: LifecycleOperation, dry_run: bool) -> (result: LifecycleResultV1)
        ensures
            result.operation == operation,
            result.dry_run == dry_run,
            result.outcomes@.len() == 0,
    {
        LifecycleResultV1 { operation, dry_run, outcomes: Vec::new() }
    }

    pub fn push(&mut self, outcome: LifecycleOutcomeV1)
        ensures
            final(self).operation == old(self).operation,
            final(self).dry_run == old(self).dry_run,
            outcome_views(final(self).outcomes@) == outcome_views(old(self).outcomes@).push(
                outcome@,
            ),
    {
        let ghost before = self.outcomes@;
        self.outcomes.push(outcome);
        proof {
            assert(outcome_views(self.outcomes@) =~= outcome_views(before).push(outcome@));
        }
    }

    /// Adds outcomes at the end.
    pub fn push_all(&mut self, outcomes: Vec<LifecycleOutcomeV1>)
        ensures
            final(self).operation == old(self).operation,
            final(self).dry_run == old(self).dry_run,
            outcome_views(final(self).outcomes@) == outcome_views(old(self).outcomes@)
                + outcome_views(outcomes@),
    {
        let ghost before = self.outcomes@;
        let mut more = outcomes;
        let ghost added = more@;
        self.outcomes.append(&mut more);
        proof {
            assert(self.outcomes@ =~= before + added);
            assert(outcome_views(self.outcomes@) =~= outcome_views(before) + outcome_views(added));
        }
    }

    fn count(&self, status: LifecycleStatus) -> (count: usize)
        ensures
            count == count_status(self.outcomes@, status),
    {
        let mut count: usize = 0;
        let mut i: usize = 0;
        proof {
            assert(self.outcomes@.take(0) =~= Seq::<LifecycleOutcomeV1>::empty());
        }
        while i < self.outcomes.len()
            invariant
                i <= self.outcomes.len(),
                count == count_status(self.outcomes@.take(i as int), status),
                count <= i,
            decreases self.outcomes.len() - i,
        {
            proof {
                assert(self.outcomes@.take(i as int + 1).drop_last() =~= self.outcomes@.take(
                    i as int,
                ));
            }
            if self.outcomes[i].status == status {
                count += 1;
            }
            i += 1;
        }
        proof {
            assert(self.outcomes@.take(self.outcomes@.len() as int) =~= self.outcomes@);
        }
        count
    }

    /// How many resources were changed, were left unchanged, and failed.
    pub fn summary(&self) -> (summary: LifecycleSummaryV1)
        ensures
            summary.changed == count_status(self.outcomes@, LifecycleStatus::Changed),
            summary.unchanged == count_status(self.outcomes@, LifecycleStatus::Unchanged),
            summary.failed == count_status(self.outcomes@, LifecycleStatus::Failed),
    {
        LifecycleSummaryV1 {
            changed: self.count(LifecycleStatus::Changed),
            unchanged: self.count(LifecycleStatus::Unchanged),
            failed: self.count(LifecycleStatus::Failed),
        }
    }
}

} // verus!
