//! Generating installed files anew when a user asks for it.

use vstd::prelude::*;
use vstd::string::*;

use crate::app_install::InstallOutcome;
use crate::app_lifecycle::{
    app_target, fresh_run, lemma_fresh_run, run_view, target_of, RunView,
};
use crate::app_types::{
    file_report_views, app_file_views, category_views, copy_optional, AppCategory, AppFile, AppFileAction,
    AppFileLifecycleReport, AppFileLifecycleReportView, AppFileView, AppLifecycleReport,
};
use crate::lifecycle::{
    outcome_views, coded_outcome, plain_outcome, LifecycleEffect, LifecycleOperation, LifecycleOutcomeV1,
    LifecycleStatus, OutcomeView,
};
use crate::manifest::{upserted, AppEntry, AppEntryView, AppManifest};
use crate::path::{paths_match_on, same_path_on, PathStyle};
use crate::plan::optional_text;
use crate::sorted::{in_order, insert_sorted, is_sorted_set, lemma_in_order};
use crate::text::{copy_texts, texts};

verus! {

/// Why nothing is generated.
#[derive(Clone, Copy, Debug, PartialEq, Eq, Structural)]
pub enum RefreshFault {
    FileNotFound,
    NotGenerated,
    NoGeneratedFiles,
    NotInstalled { index: usize },
    NoneInstalled,
}

/// The places of the files that have a generator, in order.
pub open spec fn generated_files(files: Seq<AppFileView>) -> Seq<usize>
    decreases files.len(),
{
    if files.len() == 0 {
        Seq::empty()
    } else {
        let before = generated_files(files.drop_last());
        if files.last().generator is Some {
            before.push((files.len() - 1) as usize)
        } else {
            before
        }
    }
}

/// The place of the first file with this source.
pub open spec fn file_place(
    files: Seq<AppFileView>,
    source: Seq<char>,
    style: PathStyle,
) -> Option<int>
    decreases files.len(),
{
    if files.len() == 0 {
        None
    } else {
        match file_place(files.drop_last(), source, style) {
            Some(place) => Some(place),
            None => if same_path_on(files.last().source_rel, source, style) {
                Some(files.len() - 1)
            } else {
                None
            },
        }
    }
}

/// The files that a refresh is about: the one that was asked for, which must have
/// a generator, or all that have one.
pub open spec fn refresh_files(
    files: Seq<AppFileView>,
    selector: Option<Seq<char>>,
    style: PathStyle,
) -> Result<Seq<usize>, RefreshFault> {
    match selector {
        Some(source) => match file_place(files, source, style) {
            None => Err(RefreshFault::FileNotFound),
            Some(place) => if files[place].generator is None {
                Err(RefreshFault::NotGenerated)
            } else {
                Ok(seq![place as usize])
            },
        },
        None => if generated_files(files).len() == 0 {
            Err(RefreshFault::NoGeneratedFiles)
        } else {
            Ok(generated_files(files))
        },
    }
}

fn place_of(files: &Vec<AppFile>, source: &str, style: PathStyle) -> (place: Option<usize>)
    ensures
        match place {
            Some(place) => file_place(app_file_views(files@), source@, style) == Some(place as int)
                && place < files@.len(),
            None => file_place(app_file_views(files@), source@, style) is None,
        },
{
    let ghost all = app_file_views(files@);
    let mut found: Option<usize> = None;
    let mut i: usize = 0;
    proof {
        assert(all.take(0) =~= Seq::<AppFileView>::empty());
    }
    while i < files.len()
        invariant
            i <= files.len(),
            all == app_file_views(files@),
            match found {
                Some(place) => file_place(all.take(i as int), source@, style) == Some(place as int)
                    && place < files@.len(),
                None => file_place(all.take(i as int), source@, style) is None,
            },
        decreases files.len() - i,
    {
        proof {
            assert(all.take(i as int + 1).drop_last() =~= all.take(i as int));
            assert(all.take(i as int + 1).last() == files@[i as int]@);
        }
        if found.is_none() && paths_match_on(
            files[i].source_rel.as_str(),
            source,
            style,
        ) {
            found = Some(i);
        }
        i += 1;
    }
    proof {
        assert(all.take(all.len() as int) =~= all);
    }
    found
}

proof fn lemma_generated_in_range(files: Seq<AppFileView>)
    requires
        files.len() <= usize::MAX,
    ensures
        forall|i: int|
            0 <= i < generated_files(files).len() ==> (#[trigger] generated_files(files)[i])
                < files.len(),
    decreases files.len(),
{
    if files.len() > 0 {
        lemma_generated_in_range(files.drop_last());
        let before = generated_files(files.drop_last());
        assert forall|i: int| 0 <= i < generated_files(files).len() implies (
        #[trigger] generated_files(files)[i]) < files.len() by {
            if i < before.len() {
                assert(generated_files(files)[i] == before[i]);
            }
        }
    }
}

/// The files that the refresh is about.
pub fn refresh_candidates(
    category: &AppCategory,
    selector: &Option<String>,
    style: PathStyle,
) -> (result: Result<Vec<usize>, RefreshFault>)
    ensures
        match refresh_files(category@.files, optional_text(*selector), style) {
            Ok(places) => result is Ok && result->Ok_0@ == places,
            Err(fault) => result is Err && result->Err_0 == fault,
        },
        result is Ok ==> forall|i: int|
            0 <= i < result->Ok_0@.len() ==> (#[trigger] result->Ok_0@[i]) < category.files@.len(),
{
    let ghost all = app_file_views(category.files@);
    let mut places: Vec<usize> = Vec::new();
    if let Some(source) = selector {
        return match place_of(&category.files, source.as_str(), style) {
            None => Err(RefreshFault::FileNotFound),
            Some(place) => {
                proof {
                    assert(all[place as int] == category.files@[place as int]@);
                }
                if category.files[place].generator.is_none() {
                    Err(RefreshFault::NotGenerated)
                } else {
                    places.push(place);
                    proof {
                        assert(places@ =~= seq![place]);
                    }
                    Ok(places)
                }
            },
        };
    }
    let mut i: usize = 0;
    proof {
        assert(all.take(0) =~= Seq::<AppFileView>::empty());
        assert(places@ =~= generated_files(all.take(0)));
    }
    while i < category.files.len()
        invariant
            i <= category.files.len(),
            all == app_file_views(category.files@),
            places@ == generated_files(all.take(i as int)),
        decreases category.files.len() - i,
    {
        proof {
            assert(all.take(i as int + 1).drop_last() =~= all.take(i as int));
            assert(all.take(i as int + 1).last() == category.files@[i as int]@);
        }
        if category.files[i].generator.is_some() {
            places.push(i);
        }
        i += 1;
    }
    proof {
        assert(all.take(all.len() as int) =~= all);
        lemma_generated_in_range(all);
    }
    if places.len() == 0 {
        return Err(RefreshFault::NoGeneratedFiles);
    }
    Ok(places)
}

/// What a refresh does with a file.
#[derive(Clone, Copy, Debug, PartialEq, Eq, Structural)]
pub enum RefreshDecision {
    Unchanged,
    UserModified,
    Install,
}

/// What a refresh does with a file: what a user changed is kept, unless it is
/// forced.
pub open spec fn refresh_decision(
    receipt_hash: u64,
    desired_hash: u64,
    current: Option<u64>,
    force: bool,
) -> RefreshDecision {
    if current == Some(receipt_hash) && desired_hash == receipt_hash {
        RefreshDecision::Unchanged
    } else if current is Some && current->0 != receipt_hash && !force {
        RefreshDecision::UserModified
    } else {
        RefreshDecision::Install
    }
}

/// What the refresh does with the file.
pub fn decide_refresh(
    receipt_hash: u64,
    desired_hash: u64,
    current: Option<u64>,
    force: bool,
) -> (decision: RefreshDecision)
    ensures
        decision == refresh_decision(receipt_hash, desired_hash, current, force),
{
    if current == Some(receipt_hash) && desired_hash == receipt_hash {
        return RefreshDecision::Unchanged;
    }
    let modified = match current {
        Some(current) => current != receipt_hash,
        None => false,
    };
    if modified && !force {
        RefreshDecision::UserModified
    } else {
        RefreshDecision::Install
    }
}

/// The receipt of a file that was generated anew.
pub open spec fn refreshed_receipt(
    entry: AppEntryView,
    file: AppFileView,
    destination: Seq<char>,
    hash: u64,
) -> AppEntryView {
    AppEntryView {
        source: entry.source,
        destination,
        backup: entry.backup,
        content_hash: hash,
        managed_keys: file.install_strategy,
        uses_env: true,
        requires_admin: file.requires_admin,
    }
}

/// What came of refreshing a file.
pub ghost enum RefreshResultView {
    Installed { hash: u64 },
    Unchanged,
    UserModified,
    Failed { error: Seq<char> },
}

/// What came of refreshing a file.
#[derive(Clone, Debug)]
pub enum RefreshResult {
    Installed { hash: u64 },
    Unchanged,
    UserModified,
    Failed { error: String },
}

impl View for RefreshResult {
    type V = RefreshResultView;

    open spec fn view(&self) -> RefreshResultView {
        match *self {
            RefreshResult::Installed { hash } => RefreshResultView::Installed { hash },
            RefreshResult::Unchanged => RefreshResultView::Unchanged,
            RefreshResult::UserModified => RefreshResultView::UserModified,
            RefreshResult::Failed { error } => RefreshResultView::Failed { error: error@ },
        }
    }
}

pub open spec fn refresh_status(result: RefreshResultView) -> LifecycleStatus {
    match result {
        RefreshResultView::Installed { .. } => LifecycleStatus::Changed,
        RefreshResultView::Unchanged => LifecycleStatus::Unchanged,
        RefreshResultView::UserModified => LifecycleStatus::Preserved,
        RefreshResultView::Failed { .. } => LifecycleStatus::Failed,
    }
}

pub open spec fn refresh_action(result: RefreshResultView) -> AppFileAction {
    match result {
        RefreshResultView::Installed { .. } => AppFileAction::Installed,
        RefreshResultView::Unchanged => AppFileAction::Unchanged,
        RefreshResultView::UserModified => AppFileAction::UserModified,
        RefreshResultView::Failed { .. } => AppFileAction::Failed,
    }
}

pub open spec fn refresh_effects(result: RefreshResultView) -> Seq<LifecycleEffect> {
    match result {
        RefreshResultView::Installed { .. } => seq![
            LifecycleEffect::ResourceWritten,
            LifecycleEffect::ReceiptWritten,
        ],
        RefreshResultView::UserModified => seq![LifecycleEffect::UserResourcePreserved],
        _ => Seq::empty(),
    }
}

/// The outcome of a refresh.
pub open spec fn refresh_outcome(
    category: Seq<char>,
    file: AppFileView,
    result: RefreshResultView,
) -> OutcomeView {
    match result {
        RefreshResultView::Failed { .. } => coded_outcome(
            app_target(category),
            Some(file.source_rel),
            LifecycleStatus::Failed,
            Seq::empty(),
            "app_refresh_failed"@,
        ),
        _ => plain_outcome(
            app_target(category),
            Some(file.source_rel),
            refresh_status(result),
            refresh_effects(result),
        ),
    }
}

/// The report of a refreshed file.
pub open spec fn refresh_report(
    category: Seq<char>,
    file: AppFileView,
    destination: Seq<char>,
    entry: AppEntryView,
    result: RefreshResultView,
) -> AppFileLifecycleReportView {
    AppFileLifecycleReportView {
        category,
        source: file.source_rel,
        destination,
        transforms: file.transforms,
        backup: entry.backup,
        restart_hint: file.restart_hint,
        generator_error: None,
        error: match result {
            RefreshResultView::Failed { error } => Some(error),
            _ => None,
        },
        status: refresh_status(result),
        action: refresh_action(result),
    }
}

/// A refresh under way.
#[derive(Clone, Debug)]
pub struct RefreshRun {
    manifest: AppManifest,
    report: AppLifecycleReport,
    changed: Vec<String>,
}

impl View for RefreshRun {
    type V = RunView;

    closed spec fn view(&self) -> RunView {
        run_view(self.manifest, self.report, self.changed@)
    }
}

/// What recording a refresh does.
pub open spec fn refresh_recorded(
    run: RunView,
    category: Seq<char>,
    file: AppFileView,
    destination: Seq<char>,
    entry: AppEntryView,
    result: RefreshResultView,
) -> RunView {
    let grown = run.grown(
        refresh_outcome(category, file, result),
        refresh_report(category, file, destination, entry, result),
    );
    match result {
        RefreshResultView::Installed { hash } => RunView {
            entries: upserted(
                run.entries,
                refreshed_receipt(entry, file, destination, hash),
            ),
            changed: run.changed.insert(category),
            ..grown
        },
        _ => grown,
    }
}

/// What came of refreshing a file whose content was installed.
pub fn refresh_result(outcome: &InstallOutcome) -> (result: RefreshResult)
    ensures
        result == match *outcome {
            InstallOutcome::Installed { hash } => RefreshResult::Installed { hash },
            InstallOutcome::BackedUpAndInstalled { hash, .. } => RefreshResult::Installed { hash },
            _ => RefreshResult::Unchanged,
        },
{
    match outcome {
        InstallOutcome::Installed { hash } => RefreshResult::Installed { hash: *hash },
        InstallOutcome::BackedUpAndInstalled { hash, .. } => RefreshResult::Installed {
            hash: *hash,
        },
        _ => RefreshResult::Unchanged,
    }
}

impl RefreshRun {
    /// The changed categories are in order, each once.
    pub closed spec fn well_formed(&self) -> bool {
        is_sorted_set(texts(self.changed@))
    }

    /// Starts with the receipts that were read.
    pub fn start(manifest: AppManifest, categories: Vec<AppCategory>) -> (run: RefreshRun)
        ensures
            run.well_formed(),
            run@ == fresh_run(
                LifecycleOperation::Update,
                false,
                manifest.schema_version,
                manifest@,
                category_views(categories@),
            ),
    {
        let run = RefreshRun {
            manifest,
            report: AppLifecycleReport::new(LifecycleOperation::Update, false, categories),
            changed: Vec::new(),
        };
        proof {
            lemma_fresh_run(run.manifest, run.report, run.changed@);
        }
        run
    }

    /// The receipts as they stand.
    pub fn manifest(&self) -> (manifest: &AppManifest)
        ensures
            manifest@ == self@.entries,
            manifest.schema_version == self@.version,
    {
        &self.manifest
    }

    /// The report as it stands.
    pub fn report(&self) -> (report: &AppLifecycleReport)
        ensures
            report.lifecycle.operation == self@.operation,
            report.lifecycle.dry_run == self@.dry_run,
            category_views(report.categories@) == self@.categories,
            outcome_views(report.lifecycle.outcomes@) == self@.outcomes,
            file_report_views(report.files@) == self@.files,
    {
        &self.report
    }

    /// The report.
    pub fn into_report(self) -> (report: AppLifecycleReport)
        ensures
            report.lifecycle.operation == self@.operation,
            report.lifecycle.dry_run == self@.dry_run,
            category_views(report.categories@) == self@.categories,
            outcome_views(report.lifecycle.outcomes@) == self@.outcomes,
            file_report_views(report.files@) == self@.files,
    {
        self.report
    }

    /// The categories that changed.
    pub fn changed(&self) -> (changed: &Vec<String>)
        requires
            self.well_formed(),
        ensures
            texts(changed@) == in_order(self@.changed),
            texts(changed@).to_set() == self@.changed,
    {
        proof {
            lemma_in_order(texts(self.changed@));
        }
        &self.changed
    }

    /// Adds outcomes that are about no file of their own.
    pub fn note_all(&mut self, outcomes: Vec<LifecycleOutcomeV1>)
        requires
            old(self).well_formed(),
        ensures
            final(self).well_formed(),
            final(self)@ == (RunView {
                outcomes: old(self)@.outcomes + outcome_views(outcomes@),
                ..old(self)@
            }),
    {
        self.report.lifecycle.push_all(outcomes);
    }

    /// Records what came of refreshing a file.
    pub fn record(
        &mut self,
        category: &str,
        file: &AppFile,
        destination: &str,
        entry: &AppEntry,
        result: RefreshResult,
    )
        requires
            old(self).well_formed(),
        ensures
            final(self).well_formed(),
            final(self)@ == refresh_recorded(
                old(self)@,
                category@,
                file@,
                destination@,
                entry@,
                result@,
            ),
    {
        let ghost came = result@;
        let mut effects: Vec<LifecycleEffect> = Vec::new();
        let (status, action, error): (LifecycleStatus, AppFileAction, Option<String>) =
            match result {
            RefreshResult::Installed { hash } => {
                self.manifest.upsert(
                    AppEntry {
                        source: entry.source.clone(),
                        destination: destination.to_owned(),
                        backup: copy_optional(&entry.backup),
                        content_hash: hash,
                        install_strategy: file.install_strategy.copied(),
                        uses_env: true,
                        requires_admin: file.requires_admin,
                    },
                );
                insert_sorted(&mut self.changed, category.to_owned());
                effects.push(LifecycleEffect::ResourceWritten);
                effects.push(LifecycleEffect::ReceiptWritten);
                (LifecycleStatus::Changed, AppFileAction::Installed, None)
            },
            RefreshResult::Unchanged => (
                LifecycleStatus::Unchanged,
                AppFileAction::Unchanged,
                None,
            ),
            RefreshResult::UserModified => {
                effects.push(LifecycleEffect::UserResourcePreserved);
                (LifecycleStatus::Preserved, AppFileAction::UserModified, None)
            },
            RefreshResult::Failed { error } => (
                LifecycleStatus::Failed,
                AppFileAction::Failed,
                Some(error),
            ),
        };
        proof {
            assert(effects@ =~= refresh_effects(came));
        }
        let target = target_of(category);
        let resource = Some(file.source_rel.clone());
        let outcome = if error.is_some() {
            LifecycleOutcomeV1::coded(
                target.as_str(),
                resource,
                status,
                effects,
                "app_refresh_failed",
            )
        } else {
            LifecycleOutcomeV1::new(target.as_str(), resource, status, effects)
        };
        self.report.lifecycle.push(outcome);
        let report = AppFileLifecycleReport {
            category: category.to_owned(),
            source: file.source_rel.clone(),
            destination: destination.to_owned(),
            transforms: copy_texts(file.transforms.as_slice()),
            backup: copy_optional(&entry.backup),
            restart_hint: copy_optional(&file.restart_hint),
            generator_error: None,
            error,
            status,
            action,
        };
        self.report.push_file(report);
    }
}

/// A refresh writes over what a user changed only where that is forced.
pub proof fn law_refresh_keeps_user_changes(
    receipt_hash: u64,
    desired_hash: u64,
    current: u64,
)
    requires
        current != receipt_hash,
    ensures
        refresh_decision(receipt_hash, desired_hash, Some(current), false)
            == RefreshDecision::UserModified,
{
}

pub proof fn lemma_generated_files(files: Seq<AppFileView>)
    requires
        files.len() <= usize::MAX,
    ensures
        forall|i: int|
            0 <= i < generated_files(files).len() ==> (#[trigger] generated_files(files)[i])
                < files.len() && files[generated_files(files)[i] as int].generator is Some,
    decreases files.len(),
{
    if files.len() > 0 {
        let head = files.drop_last();
        lemma_generated_files(head);
        let before = generated_files(head);
        let places = generated_files(files);
        assert forall|i: int| 0 <= i < places.len() implies (#[trigger] places[i]) < files.len()
            && files[places[i] as int].generator is Some by {
            if i < before.len() {
                assert(places[i] == before[i]);
                assert(head[before[i] as int] == files[before[i] as int]);
            }
        }
    }
}

proof fn lemma_file_place(files: Seq<AppFileView>, source: Seq<char>, style: PathStyle)
    ensures
        match file_place(files, source, style) {
            Some(place) => 0 <= place < files.len(),
            None => true,
        },
    decreases files.len(),
{
    if files.len() > 0 {
        lemma_file_place(files.drop_last(), source, style);
    }
}

/// The files that are refreshed all have a generator.
pub proof fn lemma_refreshed_files_are_generated(
    files: Seq<AppFileView>,
    selector: Option<Seq<char>>,
    style: PathStyle,
)
    requires
        files.len() <= usize::MAX,
    ensures
        match refresh_files(files, selector, style) {
            Ok(places) => forall|i: int|
                0 <= i < places.len() ==> files[(
                #[trigger] places[i]) as int].generator is Some,
            Err(_) => true,
        },
{
    lemma_generated_files(files);
    if let Some(source) = selector {
        lemma_file_place(files, source, style);
    }
}

} // verus!
