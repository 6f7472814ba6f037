//! Upgrading Apps: what is done with each installed file and with each new one,
//! and what is reported and recorded of it.

use vstd::prelude::*;
use vstd::string::*;

use crate::app_install::{InstallOutcome, UninstallOutcome};
use crate::app_lifecycle::{
    app_entry, app_source, app_target, file_report, receipt_of, report_file, source_of, target_of,
    AssessedAppFile, AssessedView,
};
use crate::app_types::{
    copy_optional, file_report_views, AppFileAction, AppFileLifecycleReport,
    AppFileLifecycleReportView, AppUpgradeLifecycleReport,
};
use crate::app_uninstall::{
    describe_uninstall, drops_receipt, uninstall_action, uninstall_effects, uninstall_result,
    uninstall_status, UninstallResultView,
};
use crate::lifecycle::{
    coded_outcome, outcome_views, plain_outcome, LifecycleEffect, LifecycleOperation,
    LifecycleOutcomeV1, LifecycleResultV1, LifecycleStatus, OutcomeView,
};
use crate::manifest::{
    entry_of_source, owns, upserted, without_dest, AppEntry, AppEntryView, AppManifest,
};
use crate::plan::optional_text;
use crate::sorted::{in_order, insert_sorted, is_sorted_set, lemma_in_order};
use crate::text::{copy_texts, texts};

verus! {

/// An upgrade under way: the receipts, the report and the changed categories.
#[derive(Clone, Debug)]
pub struct UpgradeRun {
    manifest: AppManifest,
    report: AppUpgradeLifecycleReport,
    changed: Vec<String>,
}

/// An upgrade under way, by its values.
pub ghost struct UpgradeView {
    /// The schema version of the receipts.
    pub version: u32,
    pub entries: Seq<AppEntryView>,
    pub files: Seq<AppFileLifecycleReportView>,
    pub outcomes: Seq<OutcomeView>,
    pub skipped: usize,
    pub failed: usize,
    pub user_modified: usize,
    pub restart_hints: Set<Seq<char>>,
    pub changed: Set<Seq<char>>,
    pub updated: Seq<Seq<char>>,
    pub operation: LifecycleOperation,
    pub dry_run: bool,
}

impl View for UpgradeRun {
    type V = UpgradeView;

    closed spec fn view(&self) -> UpgradeView {
        UpgradeView {
            version: self.manifest.schema_version,
            entries: self.manifest@,
            files: file_report_views(self.report.files@),
            outcomes: outcome_views(self.report.lifecycle.outcomes@),
            skipped: self.report.skipped,
            failed: self.report.failed,
            user_modified: self.report.user_modified,
            restart_hints: texts(self.report.restart_hints@).to_set(),
            changed: texts(self.changed@).to_set(),
            updated: texts(self.report.updated_categories@),
            operation: self.report.lifecycle.operation,
            dry_run: self.report.lifecycle.dry_run,
        }
    }
}

/// One more, as far as a count goes.
pub open spec fn one_more(count: usize) -> usize {
    if count < usize::MAX {
        (count + 1) as usize
    } else {
        count
    }
}

fn counted(count: usize) -> (next: usize)
    ensures
        next == one_more(count),
{
    if count < usize::MAX {
        count + 1
    } else {
        count
    }
}

/// Whether a user has to be asked about a file whose source is gone.
pub fn asks_to_prune(prune_stale: bool, prompt_stale: bool) -> (asks: bool)
    ensures
        asks == (!prune_stale && prompt_stale),
{
    !prune_stale && prompt_stale
}

/// Whether a file whose source is gone is removed.
pub fn prunes(prune_stale: bool, prompt_stale: bool, confirmed: bool) -> (result: bool)
    ensures
        result == (prune_stale || (prompt_stale && confirmed)),
{
    prune_stale || (prompt_stale && confirmed)
}

/// What comes after a file was, or was not, put in place.
#[derive(Clone, Copy, Debug, PartialEq, Eq, Structural)]
pub enum RelocationNext {
    /// Clear the place where the file stood before.
    ClearOld,
    /// Take the file away from its new place again.
    TakeBack,
    RecordFailed,
    RecordUpgraded,
}

/// What comes next: the old place of a relocated file is cleared once the new one is
/// there, and where it cannot be cleared the new file is taken back.
pub fn upgrade_next(relocated: bool, installed: bool, cleared: Option<bool>) -> (next:
    RelocationNext)
    ensures
        next == (if !installed {
            RelocationNext::RecordFailed
        } else if !relocated || cleared == Some(true) {
            RelocationNext::RecordUpgraded
        } else if cleared is None {
            RelocationNext::ClearOld
        } else {
            RelocationNext::TakeBack
        }),
{
    if !installed {
        return RelocationNext::RecordFailed;
    }
    if !relocated {
        return RelocationNext::RecordUpgraded;
    }
    match cleared {
        Some(true) => RelocationNext::RecordUpgraded,
        Some(false) => RelocationNext::TakeBack,
        None => RelocationNext::ClearOld,
    }
}

/// What is to be done with an installed file that still has a source.
#[derive(Clone, Copy, Debug, PartialEq, Eq, Structural)]
pub enum UpgradeStep {
    /// It is reported already; nothing is to be done.
    Recorded,
    /// It is to be weighed against its new content.
    Weigh,
    /// It has no content, which no assessment leaves out.
    MissingContent,
}

/// What an upgrade does with an installed file.
#[derive(Clone, Copy, Debug, PartialEq, Eq, Structural)]
pub enum UpgradeDecision {
    /// Something else stands at its new destination.
    Occupied,
    /// A user changed it.
    UserModified,
    /// It is up to date.
    Unchanged,
    /// Its new content is to be installed.
    Install { relocated: bool },
}

/// What an upgrade does with an installed file: it never writes over something
/// that stands at a new destination, nor over what a user changed.
pub open spec fn upgrade_decision(
    receipt_hash: u64,
    desired_hash: u64,
    current: Option<u64>,
    relocated: bool,
    occupied: bool,
) -> UpgradeDecision {
    if relocated && occupied {
        UpgradeDecision::Occupied
    } else if current is Some && current->0 != receipt_hash {
        UpgradeDecision::UserModified
    } else if !relocated && current == Some(receipt_hash) && desired_hash == receipt_hash {
        UpgradeDecision::Unchanged
    } else {
        UpgradeDecision::Install { relocated }
    }
}

/// What the upgrade does with the installed file.
pub fn decide_upgrade(
    receipt_hash: u64,
    desired_hash: u64,
    current: Option<u64>,
    relocated: bool,
    occupied: bool,
) -> (decision: UpgradeDecision)
    ensures
        decision == upgrade_decision(receipt_hash, desired_hash, current, relocated, occupied),
{
    if relocated && occupied {
        return UpgradeDecision::Occupied;
    }
    let modified = match current {
        Some(current) => current != receipt_hash,
        None => false,
    };
    if modified {
        return UpgradeDecision::UserModified;
    }
    if !relocated && current == Some(receipt_hash) && desired_hash == receipt_hash {
        return UpgradeDecision::Unchanged;
    }
    UpgradeDecision::Install { relocated }
}

/// The report of an upgraded file: the error of a generator stands in its own
/// place.
pub open spec fn upgrade_report(
    assessment: AssessedView,
    status: LifecycleStatus,
    action: AppFileAction,
    error: Option<Seq<char>>,
) -> AppFileLifecycleReportView {
    if action == AppFileAction::GeneratorPreserved {
        file_report(assessment, None, error, None, status, action)
    } else {
        file_report(assessment, None, None, error, status, action)
    }
}

/// The report of the upgraded file.
pub fn app_upgrade_file_report(
    assessment: &AssessedAppFile,
    status: LifecycleStatus,
    action: AppFileAction,
    error: Option<String>,
) -> (report: AppFileLifecycleReport)
    ensures
        report@ == upgrade_report(assessment@, status, action, optional_text(error)),
{
    if action == AppFileAction::GeneratorPreserved {
        report_file(assessment, None, error, None, status, action)
    } else {
        report_file(assessment, None, None, error, status, action)
    }
}

fn no_effects() -> (effects: Vec<LifecycleEffect>)
    ensures
        effects@ == Seq::<LifecycleEffect>::empty(),
{
    let effects: Vec<LifecycleEffect> = Vec::new();
    proof {
        assert(effects@ =~= Seq::<LifecycleEffect>::empty());
    }
    effects
}

fn one_effect(effect: LifecycleEffect) -> (effects: Vec<LifecycleEffect>)
    ensures
        effects@ == seq![effect],
{
    let mut effects: Vec<LifecycleEffect> = Vec::new();
    effects.push(effect);
    proof {
        assert(effects@ =~= seq![effect]);
    }
    effects
}

/// The effects of an upgrade that wrote a file.
pub open spec fn upgraded_effects(relocated: bool) -> Seq<LifecycleEffect> {
    let written = seq![LifecycleEffect::ResourceWritten, LifecycleEffect::ReceiptWritten];
    if relocated {
        written.push(LifecycleEffect::ResourceRemoved)
    } else {
        written
    }
}

/// Whether the old place of a relocated file could be cleared.
pub open spec fn is_cleared(result: UninstallResultView) -> bool {
    result is Removed || result is Restored || result is NotFound
}

/// Whether the old place of the relocated file could be cleared.
pub fn relocation_cleared(result: &Result<UninstallOutcome, String>) -> (cleared: bool)
    ensures
        cleared == is_cleared(uninstall_result(*result)),
{
    match result {
        Ok(UninstallOutcome::Removed) => true,
        Ok(UninstallOutcome::RestoredBackup { .. }) => true,
        Ok(UninstallOutcome::NotFound) => true,
        _ => false,
    }
}

/// The receipt by which a relocated file is taken away again, where its old place
/// could not be cleared.
pub fn relocation_rollback_entry(entry: &AppEntry, assessment: &AssessedAppFile, hash: u64) -> (
    rollback: AppEntry)
    ensures
        rollback@ == (AppEntryView {
            source: entry@.source,
            destination: assessment@.destination,
            backup: None,
            content_hash: hash,
            managed_keys: assessment@.file.install_strategy,
            uses_env: true,
            requires_admin: assessment@.file.requires_admin,
        }),
{
    AppEntry {
        source: entry.source.clone(),
        destination: assessment.destination.clone(),
        backup: None,
        content_hash: hash,
        install_strategy: assessment.file.install_strategy.copied(),
        uses_env: true,
        requires_admin: assessment.file.requires_admin,
    }
}

/// The identity that an install left at its destination.
pub fn installed_identity(outcome: &InstallOutcome, desired_hash: u64) -> (hash: u64)
    ensures
        hash == match *outcome {
            InstallOutcome::Installed { hash } => hash,
            InstallOutcome::BackedUpAndInstalled { hash, .. } => hash,
            _ => desired_hash,
        },
{
    match outcome {
        InstallOutcome::Installed { hash } => *hash,
        InstallOutcome::BackedUpAndInstalled { hash, .. } => *hash,
        _ => desired_hash,
    }
}

/// Whether a generated file is refreshed only when asked for.
pub open spec fn is_manual(assessment: AssessedView) -> bool {
    assessment.file.generator is Some && !assessment.file.generator->0.auto
}

/// What is to be done with a new file of an installed category.
#[derive(Clone, Copy, Debug, PartialEq, Eq, Structural)]
pub enum NewFileStep {
    /// It is left out, or reported already.
    Done,
    /// Its content is to be installed.
    Install,
}

impl UpgradeView {
    /// After a receipt whose source names no file.
    pub open spec fn after_invalid(self) -> UpgradeView {
        UpgradeView {
            skipped: one_more(self.skipped),
            outcomes: self.outcomes.push(
                coded_outcome(
                    "app/unknown"@,
                    None,
                    LifecycleStatus::Skipped,
                    Seq::empty(),
                    "app_manifest_source_invalid"@,
                ),
            ),
            ..self
        }
    }

    /// After a file whose source is gone and which is kept.
    pub open spec fn after_stale(self, category: Seq<char>, file: Seq<char>) -> UpgradeView {
        UpgradeView {
            skipped: one_more(self.skipped),
            outcomes: self.outcomes.push(
                coded_outcome(
                    app_target(category),
                    Some(file),
                    LifecycleStatus::Skipped,
                    Seq::empty(),
                    "app_stale_source_preserved"@,
                ),
            ),
            ..self
        }
    }

    /// After a file whose source is gone and which was to be removed.
    pub open spec fn after_pruned(
        self,
        entry: AppEntryView,
        category: Seq<char>,
        file: Seq<char>,
        came: UninstallResultView,
    ) -> UpgradeView {
        let report = AppFileLifecycleReportView {
            category,
            source: file,
            destination: entry.destination,
            transforms: Seq::empty(),
            backup: entry.backup,
            restart_hint: None,
            generator_error: None,
            error: None,
            status: uninstall_status(came),
            action: uninstall_action(came),
        };
        let recorded = UpgradeView {
            outcomes: self.outcomes.push(
                plain_outcome(
                    app_target(category),
                    Some(file),
                    uninstall_status(came),
                    uninstall_effects(came),
                ),
            ),
            files: self.files.push(report),
            ..self
        };
        if drops_receipt(came) {
            UpgradeView {
                entries: without_dest(self.entries, entry.destination),
                changed: self.changed.insert(category),
                ..recorded
            }
        } else {
            UpgradeView {
                user_modified: one_more(self.user_modified),
                skipped: one_more(self.skipped),
                ..recorded
            }
        }
    }

    /// After looking at an installed file that still has a source.
    pub open spec fn after_considered(
        self,
        assessment: AssessedView,
        category: Seq<char>,
        file: Seq<char>,
    ) -> (UpgradeView, UpgradeStep) {
        if is_manual(assessment) {
            (
                UpgradeView {
                    skipped: one_more(self.skipped),
                    outcomes: self.outcomes.push(
                        coded_outcome(
                            app_target(category),
                            Some(file),
                            LifecycleStatus::Skipped,
                            Seq::empty(),
                            "app_manual_refresh_required"@,
                        ),
                    ),
                    ..self
                },
                UpgradeStep::Recorded,
            )
        } else if assessment.generator_error is Some {
            (
                UpgradeView {
                    failed: one_more(self.failed),
                    outcomes: self.outcomes.push(
                        coded_outcome(
                            app_target(category),
                            Some(file),
                            LifecycleStatus::Failed,
                            seq![LifecycleEffect::ManagedResourcePreserved],
                            "app_generator_unavailable"@,
                        ),
                    ),
                    files: self.files.push(
                        upgrade_report(
                            assessment,
                            LifecycleStatus::Failed,
                            AppFileAction::GeneratorPreserved,
                            assessment.generator_error,
                        ),
                    ),
                    ..self
                },
                UpgradeStep::Recorded,
            )
        } else if assessment.content is None {
            (self, UpgradeStep::MissingContent)
        } else {
            (self, UpgradeStep::Weigh)
        }
    }

    /// After deciding what to do with a file.
    pub open spec fn after_decision(
        self,
        decision: UpgradeDecision,
        assessment: AssessedView,
        category: Seq<char>,
        file: Seq<char>,
    ) -> UpgradeView {
        let target = app_target(category);
        match decision {
            UpgradeDecision::Occupied => UpgradeView {
                user_modified: one_more(self.user_modified),
                skipped: one_more(self.skipped),
                outcomes: self.outcomes.push(
                    coded_outcome(
                        target,
                        Some(file),
                        LifecycleStatus::Conflict,
                        Seq::empty(),
                        "app_destination_occupied"@,
                    ),
                ),
                ..self
            },
            UpgradeDecision::UserModified => UpgradeView {
                user_modified: one_more(self.user_modified),
                skipped: one_more(self.skipped),
                outcomes: self.outcomes.push(
                    plain_outcome(
                        target,
                        Some(file),
                        LifecycleStatus::Preserved,
                        seq![LifecycleEffect::UserResourcePreserved],
                    ),
                ),
                files: self.files.push(
                    upgrade_report(
                        assessment,
                        LifecycleStatus::Preserved,
                        AppFileAction::UserModified,
                        None,
                    ),
                ),
                ..self
            },
            UpgradeDecision::Unchanged => UpgradeView {
                skipped: one_more(self.skipped),
                outcomes: self.outcomes.push(
                    plain_outcome(
                        target,
                        Some(file),
                        LifecycleStatus::Unchanged,
                        Seq::empty(),
                    ),
                ),
                files: self.files.push(
                    upgrade_report(
                        assessment,
                        LifecycleStatus::Unchanged,
                        AppFileAction::Unchanged,
                        None,
                    ),
                ),
                ..self
            },
            UpgradeDecision::Install { .. } => self,
        }
    }

    /// After a file that could not be put in place.
    pub open spec fn after_failed(
        self,
        assessment: AssessedView,
        category: Seq<char>,
        file: Seq<char>,
        code: Seq<char>,
        error: Seq<char>,
    ) -> UpgradeView {
        UpgradeView {
            failed: one_more(self.failed),
            outcomes: self.outcomes.push(
                coded_outcome(
                    app_target(category),
                    Some(file),
                    LifecycleStatus::Failed,
                    Seq::empty(),
                    code,
                ),
            ),
            files: self.files.push(
                upgrade_report(
                    assessment,
                    LifecycleStatus::Failed,
                    AppFileAction::Failed,
                    Some(error),
                ),
            ),
            ..self
        }
    }

    /// After a relocation that was taken back.
    pub open spec fn after_rollback(self, category: Seq<char>, file: Seq<char>) -> UpgradeView {
        UpgradeView {
            failed: one_more(self.failed),
            outcomes: self.outcomes.push(
                coded_outcome(
                    app_target(category),
                    Some(file),
                    LifecycleStatus::Failed,
                    Seq::empty(),
                    "app_relocation_rollback"@,
                ),
            ),
            ..self
        }
    }

    /// After a file that was put in place.
    pub open spec fn after_upgraded(
        self,
        entry: AppEntryView,
        assessment: AssessedView,
        category: Seq<char>,
        file: Seq<char>,
        hash: u64,
        relocated: bool,
    ) -> UpgradeView {
        let cleared = UpgradeView {
            entries: if relocated {
                without_dest(self.entries, entry.destination)
            } else {
                self.entries
            },
            ..self
        };
        upgraded(
            cleared,
            assessment,
            category,
            file,
            receipt_of(assessment, hash, entry.backup),
            upgraded_effects(relocated),
        )
    }

    /// After looking at a file that is not installed yet.
    pub open spec fn after_new_considered(self, assessment: AssessedView, exists: bool) -> (
        UpgradeView,
        NewFileStep,
    ) {
        if is_manual(assessment) || entry_of_source(
            self.entries,
            app_source(assessment.category, assessment.file.source_rel),
        ) is Some || owns(self.entries, assessment.destination) {
            (self, NewFileStep::Done)
        } else if assessment.file.install_strategy is None && exists {
            (
                UpgradeView {
                    skipped: one_more(self.skipped),
                    outcomes: self.outcomes.push(
                        coded_outcome(
                            app_target(assessment.category),
                            Some(assessment.file.source_rel),
                            LifecycleStatus::Conflict,
                            Seq::empty(),
                            "app_destination_occupied"@,
                        ),
                    ),
                    ..self
                },
                NewFileStep::Done,
            )
        } else if assessment.content is None {
            (UpgradeView { failed: one_more(self.failed), ..self }, NewFileStep::Done)
        } else {
            (self, NewFileStep::Install)
        }
    }

    /// After a new file that was put in place.
    pub open spec fn after_new(self, assessment: AssessedView, outcome: InstallOutcome) -> UpgradeView {
        let placed = |hash: u64|
            upgraded(
                self,
                assessment,
                assessment.category,
                assessment.file.source_rel,
                receipt_of(assessment, hash, None),
                upgraded_effects(false),
            );
        match outcome {
            InstallOutcome::Installed { hash } => placed(hash),
            InstallOutcome::BackedUpAndInstalled { hash, .. } => placed(hash),
            _ => UpgradeView { skipped: one_more(self.skipped), ..self },
        }
    }
}

/// An upgrade that has just begun.
pub open spec fn fresh_upgrade(version: u32, entries: Seq<AppEntryView>) -> UpgradeView {
    UpgradeView {
        version,
        entries,
        files: Seq::empty(),
        outcomes: Seq::empty(),
        skipped: 0,
        failed: 0,
        user_modified: 0,
        restart_hints: Set::empty(),
        changed: Set::empty(),
        updated: Seq::empty(),
        operation: LifecycleOperation::Upgrade,
        dry_run: false,
    }
}

impl UpgradeRun {
    /// The changed categories are in order, each once.
    pub closed spec fn well_formed(&self) -> bool {
        is_sorted_set(texts(self.changed@)) && is_sorted_set(texts(self.report.restart_hints@))
    }

    /// Starts with the receipts that were read.
    pub fn start(manifest: AppManifest) -> (run: UpgradeRun)
        ensures
            run.well_formed(),
            run@ == fresh_upgrade(manifest.schema_version, manifest@),
    {
        let run = UpgradeRun {
            manifest,
            report: AppUpgradeLifecycleReport {
                files: Vec::new(),
                updated_categories: Vec::new(),
                skipped: 0,
                failed: 0,
                user_modified: 0,
                restart_hints: Vec::new(),
                lifecycle: LifecycleResultV1::new(LifecycleOperation::Upgrade, false),
            },
            changed: Vec::new(),
        };
        proof {
            assert(run@.files =~= Seq::empty());
            assert(run@.outcomes =~= Seq::empty());
            assert(run@.restart_hints =~= Set::empty());
            assert(run@.changed =~= Set::empty());
            assert(run@.updated =~= Seq::empty());
        }
        run
    }

    /// The receipts as they stand.
    pub fn manifest(&self) -> (manifest: &AppManifest)
        ensures
            manifest@ == self@.entries,
            manifest.schema_version == self@.version,
    {
        &self.manifest
    }

    /// The report as it stands.
    pub fn report(&self) -> (report: &AppUpgradeLifecycleReport)
        requires
            self.well_formed(),
        ensures
            report.lifecycle.operation == self@.operation,
            report.lifecycle.dry_run == self@.dry_run,
            outcome_views(report.lifecycle.outcomes@) == self@.outcomes,
            file_report_views(report.files@) == self@.files,
            texts(report.updated_categories@) == self@.updated,
            texts(report.restart_hints@) == in_order(self@.restart_hints),
            report.skipped == self@.skipped,
            report.failed == self@.failed,
            report.user_modified == self@.user_modified,
    {
        proof {
            lemma_in_order(texts(self.report.restart_hints@));
        }
        &self.report
    }

    /// The report.
    pub fn into_report(self) -> (report: AppUpgradeLifecycleReport)
        requires
            self.well_formed(),
        ensures
            report.lifecycle.operation == self@.operation,
            report.lifecycle.dry_run == self@.dry_run,
            outcome_views(report.lifecycle.outcomes@) == self@.outcomes,
            file_report_views(report.files@) == self@.files,
            texts(report.updated_categories@) == self@.updated,
            texts(report.restart_hints@) == in_order(self@.restart_hints),
            report.skipped == self@.skipped,
            report.failed == self@.failed,
            report.user_modified == self@.user_modified,
    {
        proof {
            lemma_in_order(texts(self.report.restart_hints@));
        }
        self.report
    }

    /// The categories that changed.
    pub fn changed(&self) -> (changed: &Vec<String>)
        requires
            self.well_formed(),
        ensures
            texts(changed@) == in_order(self@.changed),
            texts(changed@).to_set() == self@.changed,
    {
        proof {
            lemma_in_order(texts(self.changed@));
        }
        &self.changed
    }

    /// Adds outcomes that are about no file of their own.
    pub fn note_all(&mut self, outcomes: Vec<LifecycleOutcomeV1>)
        requires
            old(self).well_formed(),
        ensures
            final(self).well_formed(),
            final(self)@ == (UpgradeView {
                outcomes: old(self)@.outcomes + outcome_views(outcomes@),
                ..old(self)@
            }),
    {
        self.report.lifecycle.push_all(outcomes);
    }

    /// Names the changed categories in the report, in order.
    pub fn name_updated(&mut self)
        requires
            old(self).well_formed(),
        ensures
            final(self).well_formed(),
            final(self)@ == (UpgradeView {
                updated: in_order(old(self)@.changed),
                ..old(self)@
            }),
            is_sorted_set(final(self)@.updated),
            final(self)@.updated.to_set() == old(self)@.changed,
    {
        self.report.updated_categories = copy_texts(self.changed.as_slice());
        proof {
            lemma_in_order(texts(self.changed@));
        }
    }

    fn push_outcome(&mut self, outcome: LifecycleOutcomeV1)
        requires
            old(self).well_formed(),
        ensures
            final(self).well_formed(),
            final(self)@ == (UpgradeView {
                outcomes: old(self)@.outcomes.push(outcome@),
                ..old(self)@
            }),
    {
        self.report.lifecycle.push(outcome);
    }

    fn push_file(&mut self, report: AppFileLifecycleReport)
        requires
            old(self).well_formed(),
        ensures
            final(self).well_formed(),
            final(self)@ == (UpgradeView { files: old(self)@.files.push(report@), ..old(self)@ }),
    {
        let ghost before = self.report.files@;
        self.report.files.push(report);
        proof {
            assert(file_report_views(self.report.files@) =~= file_report_views(before).push(
                report@,
            ));
        }
    }

    /// Records a receipt whose source names no App file.
    pub fn skip_invalid_source(&mut self)
        requires
            old(self).well_formed(),
        ensures
            final(self).well_formed(),
            final(self)@ == old(self)@.after_invalid(),
    {
        self.report.skipped = counted(self.report.skipped);
        let effects = no_effects();
        self.push_outcome(
            LifecycleOutcomeV1::coded(
                "app/unknown",
                None,
                LifecycleStatus::Skipped,
                effects,
                "app_manifest_source_invalid",
            ),
        );
    }

    /// Records a file that is kept though its source is gone.
    pub fn keep_stale(&mut self, category: &str, file: &str)
        requires
            old(self).well_formed(),
        ensures
            final(self).well_formed(),
            final(self)@ == old(self)@.after_stale(category@, file@),
    {
        self.report.skipped = counted(self.report.skipped);
        let effects = no_effects();
        self.push_outcome(
            LifecycleOutcomeV1::coded(
                target_of(category).as_str(),
                Some(file.to_owned()),
                LifecycleStatus::Skipped,
                effects,
                "app_stale_source_preserved",
            ),
        );
    }

    /// Records what came of removing a file whose source is gone.
    pub fn record_pruned(
        &mut self,
        entry: &AppEntry,
        category: &str,
        file: &str,
        outcome: UninstallOutcome,
    )
        requires
            old(self).well_formed(),
        ensures
            final(self).well_formed(),
            final(self)@ == old(self)@.after_pruned(
                entry@,
                category@,
                file@,
                uninstall_result(Ok(outcome)),
            ),
    {
        let result: Result<UninstallOutcome, String> = Ok(outcome);
        let (status, effects, drops, action) = describe_uninstall(&result);
        if drops {
            self.manifest.remove_by_dest(entry.destination.as_str());
            insert_sorted(&mut self.changed, category.to_owned());
        } else {
            self.report.user_modified = counted(self.report.user_modified);
            self.report.skipped = counted(self.report.skipped);
        }
        self.push_outcome(
            LifecycleOutcomeV1::new(
                target_of(category).as_str(),
                Some(file.to_owned()),
                status,
                effects,
            ),
        );
        let report = AppFileLifecycleReport {
            category: category.to_owned(),
            source: file.to_owned(),
            destination: entry.destination.clone(),
            transforms: Vec::new(),
            backup: copy_optional(&entry.backup),
            restart_hint: None,
            generator_error: None,
            error: None,
            status,
            action,
        };
        proof {
            assert(texts(report.transforms@) =~= Seq::<Seq<char>>::empty());
        }
        self.push_file(report);
    }

    /// Looks at an installed file: one that is refreshed only when asked for is
    /// skipped, and one whose generator failed is preserved; both are reported.
    pub fn consider(&mut self, assessment: &AssessedAppFile, category: &str, file: &str) -> (step:
        UpgradeStep)
        requires
            old(self).well_formed(),
        ensures
            final(self).well_formed(),
            (final(self)@, step) == old(self)@.after_considered(assessment@, category@, file@),
    {
        let manual = match &assessment.file.generator {
            Some(generator) => !generator.auto,
            None => false,
        };
        if manual {
            self.report.skipped = counted(self.report.skipped);
            let effects = no_effects();
            self.push_outcome(
                LifecycleOutcomeV1::coded(
                    target_of(category).as_str(),
                    Some(file.to_owned()),
                    LifecycleStatus::Skipped,
                    effects,
                    "app_manual_refresh_required",
                ),
            );
            return UpgradeStep::Recorded;
        }
        if let Some(error) = &assessment.generator_error {
            self.report.failed = counted(self.report.failed);
            let effects = one_effect(LifecycleEffect::ManagedResourcePreserved);
            self.push_outcome(
                LifecycleOutcomeV1::coded(
                    target_of(category).as_str(),
                    Some(file.to_owned()),
                    LifecycleStatus::Failed,
                    effects,
                    "app_generator_unavailable",
                ),
            );
            self.push_file(
                app_upgrade_file_report(
                    assessment,
                    LifecycleStatus::Failed,
                    AppFileAction::GeneratorPreserved,
                    Some(error.clone()),
                ),
            );
            return UpgradeStep::Recorded;
        }
        if assessment.content.is_none() {
            UpgradeStep::MissingContent
        } else {
            UpgradeStep::Weigh
        }
    }

    /// Records a decision that installs nothing; says whether there is something
    /// left to install.
    pub fn settle(
        &mut self,
        decision: UpgradeDecision,
        assessment: &AssessedAppFile,
        category: &str,
        file: &str,
    ) -> (installs: bool)
        requires
            old(self).well_formed(),
        ensures
            final(self).well_formed(),
            installs == (decision is Install),
            final(self)@ == old(self)@.after_decision(decision, assessment@, category@, file@),
    {
        let target = target_of(category);
        match decision {
            UpgradeDecision::Occupied => {
                self.report.user_modified = counted(self.report.user_modified);
                self.report.skipped = counted(self.report.skipped);
                let effects = no_effects();
                self.push_outcome(
                    LifecycleOutcomeV1::coded(
                        target.as_str(),
                        Some(file.to_owned()),
                        LifecycleStatus::Conflict,
                        effects,
                        "app_destination_occupied",
                    ),
                );
                false
            },
            UpgradeDecision::UserModified => {
                self.report.user_modified = counted(self.report.user_modified);
                self.report.skipped = counted(self.report.skipped);
                let effects = one_effect(LifecycleEffect::UserResourcePreserved);
                self.push_outcome(
                    LifecycleOutcomeV1::new(
                        target.as_str(),
                        Some(file.to_owned()),
                        LifecycleStatus::Preserved,
                        effects,
                    ),
                );
                self.push_file(
                    app_upgrade_file_report(
                        assessment,
                        LifecycleStatus::Preserved,
                        AppFileAction::UserModified,
                        None,
                    ),
                );
                false
            },
            UpgradeDecision::Unchanged => {
                self.report.skipped = counted(self.report.skipped);
                let effects = no_effects();
                self.push_outcome(
                    LifecycleOutcomeV1::new(
                        target.as_str(),
                        Some(file.to_owned()),
                        LifecycleStatus::Unchanged,
                        effects,
                    ),
                );
                self.push_file(
                    app_upgrade_file_report(
                        assessment,
                        LifecycleStatus::Unchanged,
                        AppFileAction::Unchanged,
                        None,
                    ),
                );
                false
            },
            UpgradeDecision::Install { .. } => true,
        }
    }

    /// Records an install that failed.
    pub fn record_failed(
        &mut self,
        assessment: &AssessedAppFile,
        category: &str,
        file: &str,
        code: &str,
        error: String,
    )
        requires
            old(self).well_formed(),
        ensures
            final(self).well_formed(),
            final(self)@ == old(self)@.after_failed(
                assessment@,
                category@,
                file@,
                code@,
                error@,
            ),
    {
        self.report.failed = counted(self.report.failed);
        let effects = no_effects();
        self.push_outcome(
            LifecycleOutcomeV1::coded(
                target_of(category).as_str(),
                Some(file.to_owned()),
                LifecycleStatus::Failed,
                effects,
                code,
            ),
        );
        self.push_file(
            app_upgrade_file_report(
                assessment,
                LifecycleStatus::Failed,
                AppFileAction::Failed,
                Some(error),
            ),
        );
    }

    /// Records a relocation that was taken back because its old place could not be
    /// cleared.
    pub fn record_relocation_rollback(&mut self, category: &str, file: &str)
        requires
            old(self).well_formed(),
        ensures
            final(self).well_formed(),
            final(self)@ == old(self)@.after_rollback(category@, file@),
    {
        self.report.failed = counted(self.report.failed);
        let effects = no_effects();
        self.push_outcome(
            LifecycleOutcomeV1::coded(
                target_of(category).as_str(),
                Some(file.to_owned()),
                LifecycleStatus::Failed,
                effects,
                "app_relocation_rollback",
            ),
        );
    }

    fn written(
        &mut self,
        assessment: &AssessedAppFile,
        category: &str,
        file: &str,
        entry: AppEntry,
        effects: Vec<LifecycleEffect>,
    )
        requires
            old(self).well_formed(),
        ensures
            final(self).well_formed(),
            final(self)@ == upgraded(
                old(self)@,
                assessment@,
                category@,
                file@,
                entry@,
                effects@,
            ),
    {
        self.manifest.upsert(entry);
        insert_sorted(&mut self.changed, category.to_owned());
        if let Some(hint) = &assessment.file.restart_hint {
            insert_sorted(&mut self.report.restart_hints, hint.clone());
        }
        self.push_outcome(
            LifecycleOutcomeV1::new(
                target_of(category).as_str(),
                Some(file.to_owned()),
                LifecycleStatus::Changed,
                effects,
            ),
        );
        self.push_file(
            app_upgrade_file_report(
                assessment,
                LifecycleStatus::Changed,
                AppFileAction::Installed,
                None,
            ),
        );
    }

    /// Records a file that was written, and cleared from its old place where it was
    /// relocated.
    pub fn record_upgraded(
        &mut self,
        entry: &AppEntry,
        assessment: &AssessedAppFile,
        category: &str,
        file: &str,
        hash: u64,
        relocated: bool,
    )
        requires
            old(self).well_formed(),
        ensures
            final(self).well_formed(),
            final(self)@ == old(self)@.after_upgraded(
                entry@,
                assessment@,
                category@,
                file@,
                hash,
                relocated,
            ),
    {
        if relocated {
            self.manifest.remove_by_dest(entry.destination.as_str());
        }
        let mut effects: Vec<LifecycleEffect> = Vec::new();
        effects.push(LifecycleEffect::ResourceWritten);
        effects.push(LifecycleEffect::ReceiptWritten);
        if relocated {
            effects.push(LifecycleEffect::ResourceRemoved);
        }
        proof {
            assert(effects@ =~= upgraded_effects(relocated));
        }
        let receipt = app_entry(assessment, hash, copy_optional(&entry.backup));
        self.written(assessment, category, file, receipt, effects);
    }

    /// Looks at a new file of an installed category: one that is refreshed only when
    /// asked for, or that is owned already, is left out; one whose place is taken is
    /// reported as a conflict; one without content fails.
    pub fn consider_new(&mut self, assessment: &AssessedAppFile, destination_exists: bool) -> (step:
        NewFileStep)
        requires
            old(self).well_formed(),
        ensures
            final(self).well_formed(),
            (final(self)@, step) == old(self)@.after_new_considered(assessment@, destination_exists),
    {
        let manual = match &assessment.file.generator {
            Some(generator) => !generator.auto,
            None => false,
        };
        let source = source_of(assessment.category.as_str(), assessment.file.source_rel.as_str());
        if manual || self.manifest.find_by_source(source.as_str()).is_some()
            || self.manifest.owns_destination(assessment.destination.as_str()) {
            return NewFileStep::Done;
        }
        if assessment.file.install_strategy.is_copy() && destination_exists {
            self.report.skipped = counted(self.report.skipped);
            let effects = no_effects();
            self.push_outcome(
                LifecycleOutcomeV1::coded(
                    target_of(assessment.category.as_str()).as_str(),
                    Some(assessment.file.source_rel.clone()),
                    LifecycleStatus::Conflict,
                    effects,
                    "app_destination_occupied",
                ),
            );
            return NewFileStep::Done;
        }
        if assessment.content.is_none() {
            self.report.failed = counted(self.report.failed);
            return NewFileStep::Done;
        }
        NewFileStep::Install
    }

    /// Records what came of installing a new file.
    pub fn record_new(&mut self, assessment: &AssessedAppFile, outcome: InstallOutcome)
        requires
            old(self).well_formed(),
        ensures
            final(self).well_formed(),
            final(self)@ == old(self)@.after_new(assessment@, outcome),
    {
        let hash = match outcome {
            InstallOutcome::Installed { hash } => hash,
            InstallOutcome::BackedUpAndInstalled { hash, .. } => hash,
            _ => {
                self.report.skipped = counted(self.report.skipped);
                return ;
            },
        };
        let mut effects: Vec<LifecycleEffect> = Vec::new();
        effects.push(LifecycleEffect::ResourceWritten);
        effects.push(LifecycleEffect::ReceiptWritten);
        proof {
            assert(effects@ =~= upgraded_effects(false));
        }
        let receipt = app_entry(assessment, hash, None);
        let category = assessment.category.clone();
        let file = assessment.file.source_rel.clone();
        self.written(assessment, category.as_str(), file.as_str(), receipt, effects);
    }
}

/// An upgrade after a file was written.
pub open spec fn upgraded(
    before: UpgradeView,
    assessment: AssessedView,
    category: Seq<char>,
    file: Seq<char>,
    entry: AppEntryView,
    effects: Seq<LifecycleEffect>,
) -> UpgradeView {
    UpgradeView {
        entries: upserted(before.entries, entry),
        changed: before.changed.insert(category),
        restart_hints: match assessment.file.restart_hint {
            Some(hint) => before.restart_hints.insert(hint),
            None => before.restart_hints,
        },
        outcomes: before.outcomes.push(
            plain_outcome(app_target(category), Some(file), LifecycleStatus::Changed, effects),
        ),
        files: before.files.push(
            upgrade_report(assessment, LifecycleStatus::Changed, AppFileAction::Installed, None),
        ),
        ..before
    }
}

/// An upgrade installs over a file only where it is missing or as the receipt has
/// it, and moves it only to a place where nothing stands.
pub proof fn law_upgrade_keeps_user_files(
    receipt_hash: u64,
    desired_hash: u64,
    current: Option<u64>,
    relocated: bool,
    occupied: bool,
)
    ensures
        upgrade_decision(receipt_hash, desired_hash, current, relocated, occupied) is Install ==> (
        current is None || current == Some(receipt_hash)) && !(relocated && occupied),
{
}

/// A relocated file leaves no receipt at its old place and has one at its new one.
pub proof fn law_relocation_moves_receipt(
    entries: Seq<AppEntryView>,
    previous: AppEntryView,
    next: AppEntryView,
)
    requires
        !crate::path::same_path(next.destination, previous.destination),
    ensures
        owns(upserted(without_dest(entries, previous.destination), next), next.destination),
        !owns(upserted(without_dest(entries, previous.destination), next), previous.destination),
{
    let cleared = without_dest(entries, previous.destination);
    crate::manifest::law_remove_clears_destination(
        entries,
        previous.destination,
        previous.destination,
    );
    crate::manifest::law_upsert_is_found(cleared, next, previous.destination);
    crate::manifest::lemma_dest_index(upserted(cleared, next), next.destination);
}

/// Whether a run reports files of the named categories only, and changed none but
/// those.
pub open spec fn names_only(run: UpgradeView, names: Seq<Seq<char>>) -> bool {
    &&& forall|i: int|
        0 <= i < run.files.len() ==> names.contains((#[trigger] run.files[i]).category)
    &&& forall|category: Seq<char>| #[trigger]
        run.changed.contains(category) ==> names.contains(category)
}

/// Nothing that is recorded of a file brings in a category that is not its own.
pub proof fn lemma_records_name_their_category(
    run: UpgradeView,
    names: Seq<Seq<char>>,
    entry: AppEntryView,
    assessment: AssessedView,
    category: Seq<char>,
    file: Seq<char>,
)
    requires
        names_only(run, names),
        names.contains(category),
        names.contains(assessment.category),
    ensures
        names_only(run.after_considered(assessment, category, file).0, names),
        forall|decision: UpgradeDecision|
            names_only(
                #[trigger] run.after_decision(decision, assessment, category, file),
                names,
            ),
        forall|code: Seq<char>, error: Seq<char>|
            names_only(
                #[trigger] run.after_failed(assessment, category, file, code, error),
                names,
            ),
        forall|hash: u64, relocated: bool|
            names_only(
                #[trigger] run.after_upgraded(
                    entry,
                    assessment,
                    category,
                    file,
                    hash,
                    relocated,
                ),
                names,
            ),
{
}

/// Nothing that is recorded of a file whose source is gone brings in a category that
/// is not its own.
pub proof fn lemma_pruning_names_its_category(
    run: UpgradeView,
    names: Seq<Seq<char>>,
    entry: AppEntryView,
    category: Seq<char>,
    file: Seq<char>,
    came: UninstallResultView,
)
    requires
        names_only(run, names),
        names.contains(category),
    ensures
        names_only(run.after_pruned(entry, category, file, came), names),
{
}

/// Nothing that is recorded of a new file brings in a category that is not its own.
pub proof fn lemma_new_files_name_their_category(
    run: UpgradeView,
    names: Seq<Seq<char>>,
    assessment: AssessedView,
    outcome: InstallOutcome,
)
    requires
        names_only(run, names),
        names.contains(assessment.category),
    ensures
        names_only(run.after_new(assessment, outcome), names),
{
}

} // verus!
