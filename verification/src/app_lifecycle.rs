//! Installing and uninstalling Apps: what is done with each file, and what is
//! reported and recorded of it.

use vstd::prelude::*;
use vstd::string::*;

use crate::app_install::InstallOutcome;
use crate::app_types::{
    category_views, copy_optional, file_report_views, AppCategory, AppCategoryView, AppFile,
    AppFileAction, AppFileLifecycleReport, AppFileLifecycleReportView, AppFileView,
    AppLifecycleReport,
};
use crate::lifecycle::{
    coded_outcome, outcome_views, plain_outcome, LifecycleEffect, LifecycleOperation,
    LifecycleOutcomeV1, LifecycleStatus, OutcomeView,
};
use crate::manifest::{dest_index, owns, upserted, AppEntry, AppEntryView, AppManifest};
use crate::path::same_path;
use crate::plan::optional_text;
use crate::sorted::{in_order, insert_sorted, is_sorted_set, lemma_in_order};
use crate::text::{copy_texts, cut_at, joined, list_contains, split_once, texts};

verus! {

/// An App file with the content that is to be installed, or with the error of the
/// generator that was to make it.
#[derive(Clone, Debug)]
pub struct AssessedAppFile {
    pub category: String,
    pub file: AppFile,
    pub destination: String,
    pub content: Option<Vec<u8>>,
    pub generator_error: Option<String>,
}

/// An assessed file by the values it holds.
pub ghost struct AssessedView {
    pub category: Seq<char>,
    pub file: AppFileView,
    pub destination: Seq<char>,
    pub content: Option<Seq<u8>>,
    pub generator_error: Option<Seq<char>>,
}

impl View for AssessedAppFile {
    type V = AssessedView;

    open spec fn view(&self) -> AssessedView {
        AssessedView {
            category: self.category@,
            file: self.file@,
            destination: self.destination@,
            content: match self.content {
                Some(content) => Some(content@),
                None => None,
            },
            generator_error: optional_text(self.generator_error),
        }
    }
}

/// The target of a category.
pub open spec fn app_target(category: Seq<char>) -> Seq<char> {
    "app/"@ + category
}

/// The source by which receipts know a file of a category.
pub open spec fn app_source(category: Seq<char>, file: Seq<char>) -> Seq<char> {
    app_target(category) + "/"@ + file
}

/// The target of the category.
pub fn target_of(category: &str) -> (target: String)
    ensures
        target@ == app_target(category@),
{
    joined("app/", category)
}

/// The source by which receipts know the file of the category.
pub fn source_of(category: &str, file: &str) -> (source: String)
    ensures
        source@ == app_source(category@, file@),
{
    let mut source = target_of(category);
    source.append("/");
    source.append(file);
    source
}

/// The category and the file that a source names.
pub open spec fn source_parts(source: Seq<char>) -> Option<(Seq<char>, Seq<char>)> {
    match cut_at(source, '/') {
        Some((kind, rest)) => if kind == "app"@ {
            cut_at(rest, '/')
        } else {
            None
        },
        None => None,
    }
}

/// The category and the file that the source names.
pub fn app_source_parts(source: &str) -> (parts: Option<(String, String)>)
    ensures
        match parts {
            Some((category, file)) => source_parts(source@) == Some((category@, file@)),
            None => source_parts(source@) is None,
        },
{
    match split_once(source, '/') {
        Some((kind, rest)) => {
            if crate::text::same_text(kind.as_str(), "app") {
                split_once(rest.as_str(), '/')
            } else {
                None
            }
        },
        None => None,
    }
}

/// Whether the content of a file depends on the environment.
pub open spec fn file_uses_env(file: AppFileView) -> bool {
    file.transforms.contains("template"@) || file.generator is Some
}

/// The receipt of an assessed file.
pub open spec fn receipt_of(
    assessment: AssessedView,
    hash: u64,
    backup: Option<Seq<char>>,
) -> AppEntryView {
    AppEntryView {
        source: app_source(assessment.category, assessment.file.source_rel),
        destination: assessment.destination,
        backup,
        content_hash: hash,
        managed_keys: assessment.file.install_strategy,
        uses_env: file_uses_env(assessment.file),
        requires_admin: assessment.file.requires_admin,
    }
}

/// The receipt of the assessed file.
pub fn app_entry(assessment: &AssessedAppFile, content_hash: u64, backup: Option<String>) -> (entry:
    AppEntry)
    ensures
        entry@ == receipt_of(assessment@, content_hash, optional_text(backup)),
{
    AppEntry {
        source: source_of(assessment.category.as_str(), assessment.file.source_rel.as_str()),
        destination: assessment.destination.clone(),
        backup,
        content_hash,
        install_strategy: assessment.file.install_strategy.copied(),
        uses_env: list_contains(assessment.file.transforms.as_slice(), "template")
            || assessment.file.generator.is_some(),
        requires_admin: assessment.file.requires_admin,
    }
}

/// The report of an assessed file.
pub open spec fn file_report(
    assessment: AssessedView,
    backup: Option<Seq<char>>,
    generator_error: Option<Seq<char>>,
    error: Option<Seq<char>>,
    status: LifecycleStatus,
    action: AppFileAction,
) -> AppFileLifecycleReportView {
    AppFileLifecycleReportView {
        category: assessment.category,
        source: assessment.file.source_rel,
        destination: assessment.destination,
        transforms: assessment.file.transforms,
        backup,
        restart_hint: assessment.file.restart_hint,
        generator_error,
        error,
        status,
        action,
    }
}

/// The report of the assessed file.
pub fn report_file(
    assessment: &AssessedAppFile,
    backup: Option<String>,
    generator_error: Option<String>,
    error: Option<String>,
    status: LifecycleStatus,
    action: AppFileAction,
) -> (report: AppFileLifecycleReport)
    ensures
        report@ == file_report(
            assessment@,
            optional_text(backup),
            optional_text(generator_error),
            optional_text(error),
            status,
            action,
        ),
{
    AppFileLifecycleReport {
        category: assessment.category.clone(),
        source: assessment.file.source_rel.clone(),
        destination: assessment.destination.clone(),
        transforms: copy_texts(assessment.file.transforms.as_slice()),
        backup,
        restart_hint: copy_optional(&assessment.file.restart_hint),
        generator_error,
        error,
        status,
        action,
    }
}

/// Whether a user has to be asked for administrator rights.
pub fn asks_for_admin(dry_run: bool, admin_count: usize, running_as_admin: bool) -> (asks: bool)
    ensures
        asks == (!dry_run && admin_count > 0 && !running_as_admin),
{
    !dry_run && admin_count > 0 && !running_as_admin
}

/// What is to be done with an assessed file.
#[derive(Clone, Copy, Debug, PartialEq, Eq, Structural)]
pub enum InstallStep {
    /// It is reported already; nothing is to be done.
    Recorded,
    /// Its content is to be installed.
    Install { is_managed: bool },
    /// It has no content, which no assessment leaves out.
    MissingContent,
}

/// What came of an install, or its error.
pub ghost enum InstallResultView {
    Installed { hash: u64 },
    BackedUp { backup: Seq<char>, hash: u64 },
    AlreadyManaged,
    DryRun,
    Failed { error: Seq<char> },
}

/// What came of an install, by its values.
pub open spec fn install_result(result: Result<InstallOutcome, String>) -> InstallResultView {
    match result {
        Ok(InstallOutcome::Installed { hash }) => InstallResultView::Installed { hash },
        Ok(InstallOutcome::BackedUpAndInstalled { backup, hash }) => InstallResultView::BackedUp {
            backup: backup@,
            hash,
        },
        Ok(InstallOutcome::AlreadyManaged) => InstallResultView::AlreadyManaged,
        Ok(InstallOutcome::DryRun) => InstallResultView::DryRun,
        Err(error) => InstallResultView::Failed { error: error@ },
    }
}

pub open spec fn install_status(result: InstallResultView) -> LifecycleStatus {
    match result {
        InstallResultView::Installed { .. } => LifecycleStatus::Changed,
        InstallResultView::BackedUp { .. } => LifecycleStatus::Changed,
        InstallResultView::AlreadyManaged => LifecycleStatus::Unchanged,
        InstallResultView::DryRun => LifecycleStatus::Previewed,
        InstallResultView::Failed { .. } => LifecycleStatus::Failed,
    }
}

pub open spec fn install_effects(result: InstallResultView) -> Seq<LifecycleEffect> {
    match result {
        InstallResultView::Installed { .. } => seq![
            LifecycleEffect::ResourceWritten,
            LifecycleEffect::ReceiptWritten,
        ],
        InstallResultView::BackedUp { .. } => seq![
            LifecycleEffect::BackupCreated,
            LifecycleEffect::ResourceWritten,
            LifecycleEffect::ReceiptWritten,
        ],
        InstallResultView::DryRun => seq![
            LifecycleEffect::ResourceWritePreviewed,
            LifecycleEffect::ReceiptWritePreviewed,
        ],
        _ => Seq::empty(),
    }
}

pub open spec fn install_action(result: InstallResultView) -> AppFileAction {
    match result {
        InstallResultView::Installed { .. } => AppFileAction::Installed,
        InstallResultView::BackedUp { .. } => AppFileAction::BackedUp,
        InstallResultView::AlreadyManaged => AppFileAction::Unchanged,
        InstallResultView::DryRun => AppFileAction::PreviewInstall,
        InstallResultView::Failed { .. } => AppFileAction::Failed,
    }
}

/// The backup that the receipt of a destination names.
pub open spec fn kept_backup(entries: Seq<AppEntryView>, destination: Seq<char>) -> Option<
    Seq<char>,
> {
    match dest_index(entries, destination) {
        Some(index) => entries[index].backup,
        None => None,
    }
}

/// The backup that is reported after an install.
pub open spec fn reported_backup(
    result: InstallResultView,
    previous: Option<Seq<char>>,
) -> Option<Seq<char>> {
    match result {
        InstallResultView::BackedUp { backup, .. } => Some(backup),
        _ => previous,
    }
}

/// The receipts after an install.
pub open spec fn receipts_after_install(
    entries: Seq<AppEntryView>,
    assessment: AssessedView,
    dry_run: bool,
    result: InstallResultView,
) -> Seq<AppEntryView> {
    if dry_run {
        entries
    } else {
        match result {
            InstallResultView::Installed { hash } => upserted(
                entries,
                receipt_of(assessment, hash, kept_backup(entries, assessment.destination)),
            ),
            InstallResultView::BackedUp { backup, hash } => upserted(
                entries,
                receipt_of(assessment, hash, Some(backup)),
            ),
            _ => entries,
        }
    }
}

/// The outcome of an install.
pub open spec fn install_outcome(
    assessment: AssessedView,
    result: InstallResultView,
) -> OutcomeView {
    let target = app_target(assessment.category);
    let resource = Some(assessment.file.source_rel);
    match result {
        InstallResultView::Failed { .. } => coded_outcome(
            target,
            resource,
            LifecycleStatus::Failed,
            Seq::empty(),
            "app_install_failed"@,
        ),
        _ => plain_outcome(target, resource, install_status(result), install_effects(result)),
    }
}

/// The file report of an install.
pub open spec fn install_report(
    entries: Seq<AppEntryView>,
    assessment: AssessedView,
    result: InstallResultView,
) -> AppFileLifecycleReportView {
    file_report(
        assessment,
        reported_backup(result, kept_backup(entries, assessment.destination)),
        None,
        match result {
            InstallResultView::Failed { error } => Some(error),
            _ => None,
        },
        install_status(result),
        install_action(result),
    )
}

/// Whether an install changed its category.
pub open spec fn install_changes(result: InstallResultView) -> bool {
    result is Installed || result is BackedUp
}

/// A lifecycle operation under way, by its values.
pub ghost struct RunView {
    pub operation: LifecycleOperation,
    pub dry_run: bool,
    /// The schema version of the receipts.
    pub version: u32,
    pub entries: Seq<AppEntryView>,
    pub categories: Seq<AppCategoryView>,
    pub outcomes: Seq<OutcomeView>,
    pub files: Seq<AppFileLifecycleReportView>,
    pub changed: Set<Seq<char>>,
}

impl RunView {
    /// With one more outcome and one more file report.
    pub open spec fn grown(self, outcome: OutcomeView, report: AppFileLifecycleReportView) -> RunView {
        RunView { outcomes: self.outcomes.push(outcome), files: self.files.push(report), ..self }
    }
}

/// The values of a run that holds these receipts, this report and these changed
/// categories.
pub open spec fn run_view(
    manifest: AppManifest,
    report: AppLifecycleReport,
    changed: Seq<String>,
) -> RunView {
    RunView {
        operation: report.lifecycle.operation,
        dry_run: report.lifecycle.dry_run,
        version: manifest.schema_version,
        entries: manifest@,
        categories: category_views(report.categories@),
        outcomes: outcome_views(report.lifecycle.outcomes@),
        files: file_report_views(report.files@),
        changed: texts(changed).to_set(),
    }
}

/// A run that has just begun.
pub open spec fn fresh_run(
    operation: LifecycleOperation,
    dry_run: bool,
    version: u32,
    entries: Seq<AppEntryView>,
    categories: Seq<AppCategoryView>,
) -> RunView {
    RunView {
        operation,
        dry_run,
        version,
        entries,
        categories,
        outcomes: Seq::empty(),
        files: Seq::empty(),
        changed: Set::empty(),
    }
}

/// What looking at an assessed file does: a file that needs rights that were not
/// granted fails, and a file whose generator failed is preserved; both are reported.
/// Any other is to be installed.
pub open spec fn install_considered(
    run: RunView,
    assessment: AssessedView,
    admin_authorized: bool,
) -> (RunView, InstallStep) {
    let target = app_target(assessment.category);
    let resource = Some(assessment.file.source_rel);
    if assessment.file.requires_admin && !admin_authorized {
        (
            run.grown(
                coded_outcome(
                    target,
                    resource,
                    LifecycleStatus::Failed,
                    Seq::empty(),
                    "app_admin_not_authorized"@,
                ),
                file_report(
                    assessment,
                    None,
                    None,
                    Some("administrator permission was not granted"@),
                    LifecycleStatus::Failed,
                    AppFileAction::Failed,
                ),
            ),
            InstallStep::Recorded,
        )
    } else if assessment.generator_error is Some {
        (
            run.grown(
                coded_outcome(
                    target,
                    resource,
                    LifecycleStatus::Preserved,
                    seq![LifecycleEffect::ManagedResourcePreserved],
                    "app_generator_unavailable"@,
                ),
                file_report(
                    assessment,
                    None,
                    assessment.generator_error,
                    None,
                    LifecycleStatus::Preserved,
                    AppFileAction::GeneratorPreserved,
                ),
            ),
            InstallStep::Recorded,
        )
    } else if assessment.content is None {
        (run, InstallStep::MissingContent)
    } else {
        (run, InstallStep::Install { is_managed: owns(run.entries, assessment.destination) })
    }
}

/// What recording an install does.
pub open spec fn install_recorded(
    run: RunView,
    assessment: AssessedView,
    result: InstallResultView,
) -> RunView {
    RunView {
        entries: receipts_after_install(run.entries, assessment, run.dry_run, result),
        changed: if install_changes(result) {
            run.changed.insert(assessment.category)
        } else {
            run.changed
        },
        ..run.grown(
            install_outcome(assessment, result),
            install_report(run.entries, assessment, result),
        )
    }
}

/// An install under way: the receipts, the report and the changed categories.
#[derive(Clone, Debug)]
pub struct InstallRun {
    manifest: AppManifest,
    report: AppLifecycleReport,
    changed: Vec<String>,
}

impl View for InstallRun {
    type V = RunView;

    closed spec fn view(&self) -> RunView {
        run_view(self.manifest, self.report, self.changed@)
    }
}

impl InstallRun {
    /// The changed categories are in order, each once.
    pub closed spec fn well_formed(&self) -> bool {
        is_sorted_set(texts(self.changed@))
    }

    /// Starts with the receipts that were read.
    pub fn start(manifest: AppManifest, dry_run: bool, categories: Vec<AppCategory>) -> (run:
        InstallRun)
        ensures
            run.well_formed(),
            run@ == fresh_run(
                LifecycleOperation::Install,
                dry_run,
                manifest.schema_version,
                manifest@,
                category_views(categories@),
            ),
    {
        let run = InstallRun {
            manifest,
            report: AppLifecycleReport::new(LifecycleOperation::Install, dry_run, categories),
            changed: Vec::new(),
        };
        proof {
            lemma_fresh_run(run.manifest, run.report, run.changed@);
        }
        run
    }

    fn push(&mut self, outcome: LifecycleOutcomeV1, report: AppFileLifecycleReport)
        ensures
            final(self)@ == old(self)@.grown(outcome@, report@),
            final(self).manifest == old(self).manifest,
            old(self).well_formed() ==> final(self).well_formed(),
    {
        self.report.lifecycle.push(outcome);
        self.report.push_file(report);
    }

    /// The receipts as they stand.
    pub fn manifest(&self) -> (manifest: &AppManifest)
        ensures
            manifest@ == self@.entries,
            manifest.schema_version == self@.version,
    {
        &self.manifest
    }

    /// The report as it stands.
    pub fn report(&self) -> (report: &AppLifecycleReport)
        ensures
            report.lifecycle.operation == self@.operation,
            report.lifecycle.dry_run == self@.dry_run,
            category_views(report.categories@) == self@.categories,
            outcome_views(report.lifecycle.outcomes@) == self@.outcomes,
            file_report_views(report.files@) == self@.files,
    {
        &self.report
    }

    /// The report.
    pub fn into_report(self) -> (report: AppLifecycleReport)
        ensures
            report.lifecycle.operation == self@.operation,
            report.lifecycle.dry_run == self@.dry_run,
            category_views(report.categories@) == self@.categories,
            outcome_views(report.lifecycle.outcomes@) == self@.outcomes,
            file_report_views(report.files@) == self@.files,
    {
        self.report
    }

    /// The categories that changed.
    pub fn changed(&self) -> (changed: &Vec<String>)
        requires
            self.well_formed(),
        ensures
            texts(changed@) == in_order(self@.changed),
            texts(changed@).to_set() == self@.changed,
    {
        proof {
            lemma_in_order(texts(self.changed@));
        }
        &self.changed
    }

    /// Adds outcomes that are about no file of their own.
    pub fn note_all(&mut self, outcomes: Vec<LifecycleOutcomeV1>)
        requires
            old(self).well_formed(),
        ensures
            final(self).well_formed(),
            final(self)@ == (RunView {
                outcomes: old(self)@.outcomes + outcome_views(outcomes@),
                ..old(self)@
            }),
    {
        self.report.lifecycle.push_all(outcomes);
    }

    /// Adds an outcome that is about no file of its own.
    pub fn note(&mut self, outcome: LifecycleOutcomeV1)
        requires
            old(self).well_formed(),
        ensures
            final(self).well_formed(),
            final(self)@ == (RunView {
                outcomes: old(self)@.outcomes.push(outcome@),
                ..old(self)@
            }),
    {
        self.report.lifecycle.push(outcome);
    }

    /// Looks at an assessed file: a file that needs rights that were not granted
    /// fails, and a file whose generator failed is preserved; both are reported.
    /// Any other is to be installed.
    pub fn consider(&mut self, assessment: &AssessedAppFile, admin_authorized: bool) -> (step:
        InstallStep)
        ensures
            old(self).well_formed() ==> final(self).well_formed(),
            (final(self)@, step) == install_considered(old(self)@, assessment@, admin_authorized),
    {
        let target = target_of(assessment.category.as_str());
        let resource = Some(assessment.file.source_rel.clone());
        if assessment.file.requires_admin && !admin_authorized {
            let effects: Vec<LifecycleEffect> = Vec::new();
            proof {
                assert(effects@ =~= Seq::<LifecycleEffect>::empty());
            }
            let outcome = LifecycleOutcomeV1::coded(
                target.as_str(),
                resource,
                LifecycleStatus::Failed,
                effects,
                "app_admin_not_authorized",
            );
            let report = report_file(
                assessment,
                None,
                None,
                Some("administrator permission was not granted".to_owned()),
                LifecycleStatus::Failed,
                AppFileAction::Failed,
            );
            self.push(outcome, report);
            return InstallStep::Recorded;
        }
        if let Some(error) = &assessment.generator_error {
            let mut effects: Vec<LifecycleEffect> = Vec::new();
            effects.push(LifecycleEffect::ManagedResourcePreserved);
            proof {
                assert(effects@ =~= seq![LifecycleEffect::ManagedResourcePreserved]);
            }
            let outcome = LifecycleOutcomeV1::coded(
                target.as_str(),
                resource,
                LifecycleStatus::Preserved,
                effects,
                "app_generator_unavailable",
            );
            let report = report_file(
                assessment,
                None,
                Some(error.clone()),
                None,
                LifecycleStatus::Preserved,
                AppFileAction::GeneratorPreserved,
            );
            self.push(outcome, report);
            return InstallStep::Recorded;
        }
        if assessment.content.is_none() {
            return InstallStep::MissingContent;
        }
        InstallStep::Install {
            is_managed: self.manifest.owns_destination(assessment.destination.as_str()),
        }
    }

    /// Records what came of an install.
    pub fn record(&mut self, assessment: &AssessedAppFile, result: Result<InstallOutcome, String>)
        requires
            old(self).well_formed(),
        ensures
            final(self).well_formed(),
            final(self)@ == install_recorded(old(self)@, assessment@, install_result(result)),
    {
        let ghost view = assessment@;
        let ghost came = install_result(result);
        let ghost entries = self.manifest@;
        let previous: Option<String> = match self.manifest.find_by_dest(
            assessment.destination.as_str(),
        ) {
            Some(entry) => copy_optional(&entry.backup),
            None => None,
        };
        proof {
            crate::manifest::lemma_dest_index(entries, view.destination);
            assert(optional_text(previous) == kept_backup(entries, view.destination));
        }
        let target = target_of(assessment.category.as_str());
        let resource = Some(assessment.file.source_rel.clone());
        let mut effects: Vec<LifecycleEffect> = Vec::new();
        let mut changes = false;
        let (status, action, backup, error): (
            LifecycleStatus,
            AppFileAction,
            Option<String>,
            Option<String>,
        ) = match result {
            Ok(InstallOutcome::Installed { hash }) => {
                if !self.report.lifecycle.dry_run {
                    self.manifest.upsert(app_entry(assessment, hash, copy_optional(&previous)));
                }
                changes = true;
                effects.push(LifecycleEffect::ResourceWritten);
                effects.push(LifecycleEffect::ReceiptWritten);
                (LifecycleStatus::Changed, AppFileAction::Installed, previous, None)
            },
            Ok(InstallOutcome::BackedUpAndInstalled { backup, hash }) => {
                if !self.report.lifecycle.dry_run {
                    self.manifest.upsert(app_entry(assessment, hash, Some(backup.clone())));
                }
                changes = true;
                effects.push(LifecycleEffect::BackupCreated);
                effects.push(LifecycleEffect::ResourceWritten);
                effects.push(LifecycleEffect::ReceiptWritten);
                (LifecycleStatus::Changed, AppFileAction::BackedUp, Some(backup), None)
            },
            Ok(InstallOutcome::AlreadyManaged) => {
                (LifecycleStatus::Unchanged, AppFileAction::Unchanged, previous, None)
            },
            Ok(InstallOutcome::DryRun) => {
                effects.push(LifecycleEffect::ResourceWritePreviewed);
                effects.push(LifecycleEffect::ReceiptWritePreviewed);
                (LifecycleStatus::Previewed, AppFileAction::PreviewInstall, previous, None)
            },
            Err(error) => {
                (LifecycleStatus::Failed, AppFileAction::Failed, previous, Some(error))
            },
        };
        proof {
            assert(effects@ =~= install_effects(came));
        }
        if changes {
            insert_sorted(&mut self.changed, assessment.category.clone());
        }
        let outcome = if error.is_some() {
            LifecycleOutcomeV1::coded(
                target.as_str(),
                resource,
                status,
                effects,
                "app_install_failed",
            )
        } else {
            LifecycleOutcomeV1::new(target.as_str(), resource, status, effects)
        };
        let report = report_file(assessment, backup, None, error, status, action);
        self.push(outcome, report);
    }
}

pub proof fn lemma_fresh_run(
    manifest: AppManifest,
    report: AppLifecycleReport,
    changed: Seq<String>,
)
    requires
        report.files@.len() == 0,
        report.lifecycle.outcomes@.len() == 0,
        changed.len() == 0,
    ensures
        run_view(manifest, report, changed) == fresh_run(
            report.lifecycle.operation,
            report.lifecycle.dry_run,
            manifest.schema_version,
            manifest@,
            category_views(report.categories@),
        ),
        is_sorted_set(texts(changed)),
{
    assert(outcome_views(report.lifecycle.outcomes@) =~= Seq::empty());
    assert(file_report_views(report.files@) =~= Seq::empty());
    assert(texts(changed).to_set() =~= Set::empty());
}

/// A preview of an install changes no receipt, whatever comes of its steps.
pub proof fn law_install_preview_keeps_receipts(
    entries: Seq<AppEntryView>,
    assessment: AssessedView,
    result: InstallResultView,
)
    ensures
        receipts_after_install(entries, assessment, true, result) == entries,
{
}

/// After an install that changed a file its destination is owned by the receipt
/// of that file, and no other destination changes hands.
pub proof fn law_install_leaves_receipt(
    entries: Seq<AppEntryView>,
    assessment: AssessedView,
    result: InstallResultView,
    other: Seq<char>,
)
    requires
        install_changes(result),
    ensures
        owns(
            receipts_after_install(entries, assessment, false, result),
            assessment.destination,
        ),
        !same_path(assessment.destination, other) ==> owns(
            receipts_after_install(entries, assessment, false, result),
            other,
        ) == owns(entries, other),
{
    let entry = match result {
        InstallResultView::Installed { hash } => receipt_of(
            assessment,
            hash,
            kept_backup(entries, assessment.destination),
        ),
        InstallResultView::BackedUp { backup, hash } => receipt_of(assessment, hash, Some(backup)),
        _ => receipt_of(assessment, 0, None),
    };
    crate::manifest::law_upsert_is_found(entries, entry, other);
    crate::manifest::lemma_dest_index(upserted(entries, entry), assessment.destination);
}

} // verus!
