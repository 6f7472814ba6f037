//! Uninstalling Apps: which receipts are chosen, and what is reported and recorded
//! of each.

use vstd::prelude::*;
use vstd::string::*;

use crate::app_install::UninstallOutcome;
use crate::app_lifecycle::{
    app_target, fresh_run, lemma_fresh_run, run_view, target_of, RunView,
};
use crate::app_types::{
    file_report_views, category_views, copy_optional, AppCategory, AppFileAction, AppFileLifecycleReport,
    AppFileLifecycleReportView, AppLifecycleReport, AppUninstallLifecycleRequest,
};
use crate::lifecycle::{
    outcome_views, coded_outcome, plain_outcome, LifecycleEffect, LifecycleOperation, LifecycleOutcomeV1,
    LifecycleStatus, OutcomeView,
};
use crate::manifest::{
    entry_views, owns, without_dest, AppEntry, AppEntryView, AppManifest,
};
use crate::path::{paths_match, same_path};
use crate::plan::optional_text;
use crate::sorted::{insert_sorted, is_sorted_set};
use crate::text::{begins_with, cut_at, split_once, starts_with, texts};

verus! {

/// What stands between the first and the second `/` of a source; `app` where
/// there is no `/`.
pub open spec fn category_of(source: Seq<char>) -> Option<Seq<char>> {
    match cut_at(source, '/') {
        Some((_, rest)) => match cut_at(rest, '/') {
            Some((category, _)) => Some(category),
            None => Some(rest),
        },
        None => None,
    }
}

/// What stands after the second `/` of a source; the whole source where there is
/// none.
pub open spec fn file_of(source: Seq<char>) -> Seq<char> {
    match cut_at(source, '/') {
        Some((_, rest)) => match cut_at(rest, '/') {
            Some((_, file)) => file,
            None => source,
        },
        None => source,
    }
}

fn category_part(source: &str) -> (category: Option<String>)
    ensures
        optional_text(category) == category_of(source@),
{
    match split_once(source, '/') {
        Some((_, rest)) => match split_once(rest.as_str(), '/') {
            Some((category, _)) => Some(category),
            None => Some(rest),
        },
        None => None,
    }
}

fn file_part(source: &str) -> (file: String)
    ensures
        file@ == file_of(source@),
{
    match split_once(source, '/') {
        Some((_, rest)) => match split_once(rest.as_str(), '/') {
            Some((_, file)) => file,
            None => source.to_owned(),
        },
        None => source.to_owned(),
    }
}

/// Whether a path is one of the list.
pub open spec fn among_paths(paths: Seq<Seq<char>>, path: Seq<char>) -> bool {
    exists|i: int| 0 <= i < paths.len() && same_path(#[trigger] paths[i], path)
}

/// Whether a receipt belongs to the target of an uninstall: by its source, or by a
/// destination of the target's files. Without a target every receipt does.
pub open spec fn is_selected(
    entry: AppEntryView,
    target: Option<Seq<char>>,
    destinations: Seq<Seq<char>>,
) -> bool {
    match target {
        None => true,
        Some(category) => begins_with(entry.source, app_target(category) + "/"@) || among_paths(
            destinations,
            entry.destination,
        ),
    }
}

/// The receipts that belong to the target, in order.
pub open spec fn selected_entries(
    entries: Seq<AppEntryView>,
    target: Option<Seq<char>>,
    destinations: Seq<Seq<char>>,
) -> Seq<AppEntryView>
    decreases entries.len(),
{
    if entries.len() == 0 {
        Seq::empty()
    } else {
        let before = selected_entries(entries.drop_last(), target, destinations);
        if is_selected(entries.last(), target, destinations) {
            before.push(entries.last())
        } else {
            before
        }
    }
}

fn among(paths: &Vec<String>, path: &str) -> (found: bool)
    ensures
        found == among_paths(texts(paths@), path@),
{
    let mut i: usize = 0;
    while i < paths.len()
        invariant
            i <= paths.len(),
            forall|j: int| 0 <= j < i ==> !same_path(#[trigger] texts(paths@)[j], path@),
        decreases paths.len() - i,
    {
        proof {
            assert(texts(paths@)[i as int] == paths@[i as int]@);
        }
        if paths_match(paths[i].as_str(), path) {
            assert(same_path(texts(paths@)[i as int], path@));
            return true;
        }
        i += 1;
    }
    false
}

/// The receipts that belong to the target.
pub fn select_entries(
    manifest: &AppManifest,
    target: &Option<String>,
    destinations: &Vec<String>,
) -> (selected: Vec<AppEntry>)
    ensures
        entry_views(selected@) == selected_entries(
            manifest@,
            optional_text(*target),
            texts(destinations@),
        ),
{
    let ghost wanted = optional_text(*target);
    let ghost places = texts(destinations@);
    let mut selected: Vec<AppEntry> = Vec::new();
    let mut i: usize = 0;
    proof {
        assert(manifest@.take(0) =~= Seq::<AppEntryView>::empty());
        assert(entry_views(selected@) =~= Seq::<AppEntryView>::empty());
    }
    while i < manifest.entries.len()
        invariant
            i <= manifest.entries.len(),
            wanted == optional_text(*target),
            places == texts(destinations@),
            entry_views(selected@) == selected_entries(manifest@.take(i as int), wanted, places),
        decreases manifest.entries.len() - i,
    {
        let entry = &manifest.entries[i];
        let ghost before = selected@;
        proof {
            assert(manifest@.take(i as int + 1).drop_last() =~= manifest@.take(i as int));
            assert(manifest@.take(i as int + 1).last() == entry@);
        }
        let chosen = match target {
            None => true,
            Some(category) => {
                let mut prefix = target_of(category.as_str());
                prefix.append("/");
                starts_with(entry.source.as_str(), prefix.as_str()) || among(
                    destinations,
                    entry.destination.as_str(),
                )
            },
        };
        if chosen {
            selected.push(entry.copied());
            proof {
                assert(entry_views(selected@) =~= entry_views(before).push(entry@));
            }
        }
        i += 1;
    }
    proof {
        assert(manifest@.take(manifest@.len() as int) =~= manifest@);
    }
    selected
}

/// The categories that receipts name, and the target.
pub open spec fn named_categories(entries: Seq<AppEntryView>, target: Option<Seq<char>>) -> Set<
    Seq<char>,
>
    decreases entries.len(),
{
    if entries.len() == 0 {
        match target {
            Some(target) => Set::empty().insert(target),
            None => Set::empty(),
        }
    } else {
        let before = named_categories(entries.drop_last(), target);
        match category_of(entries.last().source) {
            Some(category) => before.insert(category),
            None => before,
        }
    }
}

/// The categories that the receipts name, and the target, in order.
pub fn category_names_of(selected: &Vec<AppEntry>, target: &Option<String>) -> (names: Vec<String>)
    ensures
        is_sorted_set(texts(names@)),
        texts(names@).to_set() == named_categories(entry_views(selected@), optional_text(*target)),
{
    let mut names: Vec<String> = Vec::new();
    let ghost all = entry_views(selected@);
    let ghost wanted = optional_text(*target);
    proof {
        assert(texts(names@).to_set() =~= Set::<Seq<char>>::empty());
    }
    if let Some(target) = target {
        insert_sorted(&mut names, target.clone());
    }
    let mut i: usize = 0;
    proof {
        assert(all.take(0) =~= Seq::<AppEntryView>::empty());
    }
    while i < selected.len()
        invariant
            i <= selected.len(),
            all == entry_views(selected@),
            wanted == optional_text(*target),
            is_sorted_set(texts(names@)),
            texts(names@).to_set() == named_categories(all.take(i as int), wanted),
        decreases selected.len() - i,
    {
        proof {
            assert(all.take(i as int + 1).drop_last() =~= all.take(i as int));
            assert(all.take(i as int + 1).last() == selected@[i as int]@);
        }
        if let Some(category) = category_part(selected[i].source.as_str()) {
            insert_sorted(&mut names, category);
        }
        i += 1;
    }
    proof {
        assert(all.take(all.len() as int) =~= all);
    }
    names
}

/// What came of an uninstall, or its error.
pub ghost enum UninstallResultView {
    Removed,
    ForceRemoved,
    Restored,
    ForceRestored,
    NotFound,
    UserModified,
    DryRun,
    Failed { error: Seq<char> },
}

/// What came of an uninstall, by its values.
pub open spec fn uninstall_result(result: Result<UninstallOutcome, String>) ->
    UninstallResultView {
    match result {
        Ok(UninstallOutcome::Removed) => UninstallResultView::Removed,
        Ok(UninstallOutcome::ForceRemoved) => UninstallResultView::ForceRemoved,
        Ok(UninstallOutcome::RestoredBackup { .. }) => UninstallResultView::Restored,
        Ok(UninstallOutcome::ForceRestoredBackup { .. }) => UninstallResultView::ForceRestored,
        Ok(UninstallOutcome::NotFound) => UninstallResultView::NotFound,
        Ok(UninstallOutcome::UserModified) => UninstallResultView::UserModified,
        Ok(UninstallOutcome::DryRun) => UninstallResultView::DryRun,
        Err(error) => UninstallResultView::Failed { error: error@ },
    }
}

pub open spec fn uninstall_status(result: UninstallResultView) -> LifecycleStatus {
    match result {
        UninstallResultView::UserModified => LifecycleStatus::Preserved,
        UninstallResultView::DryRun => LifecycleStatus::Previewed,
        UninstallResultView::Failed { .. } => LifecycleStatus::Failed,
        _ => LifecycleStatus::Changed,
    }
}

pub open spec fn uninstall_effects(result: UninstallResultView) -> Seq<LifecycleEffect> {
    match result {
        UninstallResultView::Removed => seq![
            LifecycleEffect::ResourceRemoved,
            LifecycleEffect::ReceiptRemoved,
        ],
        UninstallResultView::ForceRemoved => seq![
            LifecycleEffect::UserModificationOverridden,
            LifecycleEffect::ResourceRemoved,
            LifecycleEffect::ReceiptRemoved,
        ],
        UninstallResultView::Restored => seq![
            LifecycleEffect::BackupRestored,
            LifecycleEffect::ReceiptRemoved,
        ],
        UninstallResultView::ForceRestored => seq![
            LifecycleEffect::UserModificationOverridden,
            LifecycleEffect::BackupRestored,
            LifecycleEffect::ReceiptRemoved,
        ],
        UninstallResultView::NotFound => seq![LifecycleEffect::ReceiptRemoved],
        UninstallResultView::UserModified => seq![LifecycleEffect::UserResourcePreserved],
        UninstallResultView::DryRun => seq![
            LifecycleEffect::ResourceRemovePreviewed,
            LifecycleEffect::ReceiptRemovePreviewed,
        ],
        UninstallResultView::Failed { .. } => Seq::empty(),
    }
}

pub open spec fn uninstall_action(result: UninstallResultView) -> AppFileAction {
    match result {
        UninstallResultView::Removed => AppFileAction::Removed,
        UninstallResultView::ForceRemoved => AppFileAction::ForceRemoved,
        UninstallResultView::Restored => AppFileAction::Restored,
        UninstallResultView::ForceRestored => AppFileAction::ForceRestored,
        UninstallResultView::NotFound => AppFileAction::Missing,
        UninstallResultView::UserModified => AppFileAction::UserModified,
        UninstallResultView::DryRun => AppFileAction::PreviewRemove,
        UninstallResultView::Failed { .. } => AppFileAction::Failed,
    }
}

/// Whether an uninstall takes the receipt away.
pub open spec fn drops_receipt(result: UninstallResultView) -> bool {
    !(result is UserModified || result is DryRun || result is Failed)
}

/// The category under which a receipt is reported.
pub open spec fn reported_category(source: Seq<char>) -> Seq<char> {
    match category_of(source) {
        Some(category) => category,
        None => "app"@,
    }
}

/// The report of an uninstalled file.
pub open spec fn uninstall_report(
    entry: AppEntryView,
    error: Option<Seq<char>>,
    status: LifecycleStatus,
    action: AppFileAction,
) -> AppFileLifecycleReportView {
    AppFileLifecycleReportView {
        category: reported_category(entry.source),
        source: file_of(entry.source),
        destination: entry.destination,
        transforms: Seq::empty(),
        backup: entry.backup,
        restart_hint: None,
        generator_error: None,
        error,
        status,
        action,
    }
}

/// The outcome of an uninstalled file.
pub open spec fn uninstall_outcome_of(
    entry: AppEntryView,
    result: UninstallResultView,
) -> OutcomeView {
    let target = app_target(reported_category(entry.source));
    let resource = Some(file_of(entry.source));
    match result {
        UninstallResultView::Failed { .. } => coded_outcome(
            target,
            resource,
            LifecycleStatus::Failed,
            Seq::empty(),
            "app_uninstall_failed"@,
        ),
        _ => plain_outcome(target, resource, uninstall_status(result), uninstall_effects(result)),
    }
}

/// An uninstall under way.
#[derive(Clone, Debug)]
pub struct UninstallRun {
    manifest: AppManifest,
    report: AppLifecycleReport,
}

/// The effects, the status and the action of the result, as they are reported.
pub fn describe_uninstall(result: &Result<UninstallOutcome, String>) -> (described: (
    LifecycleStatus,
    Vec<LifecycleEffect>,
    bool,
    AppFileAction,
))
    ensures
        ({
            let came = uninstall_result(*result);
            &&& described.0 == uninstall_status(came)
            &&& described.1@ == uninstall_effects(came)
            &&& described.2 == drops_receipt(came)
            &&& described.3 == uninstall_action(came)
        }),
{
    let mut effects: Vec<LifecycleEffect> = Vec::new();
    let (status, drops, action): (LifecycleStatus, bool, AppFileAction) = match result {
        Ok(UninstallOutcome::Removed) => {
            effects.push(LifecycleEffect::ResourceRemoved);
            effects.push(LifecycleEffect::ReceiptRemoved);
            (LifecycleStatus::Changed, true, AppFileAction::Removed)
        },
        Ok(UninstallOutcome::ForceRemoved) => {
            effects.push(LifecycleEffect::UserModificationOverridden);
            effects.push(LifecycleEffect::ResourceRemoved);
            effects.push(LifecycleEffect::ReceiptRemoved);
            (LifecycleStatus::Changed, true, AppFileAction::ForceRemoved)
        },
        Ok(UninstallOutcome::RestoredBackup { .. }) => {
            effects.push(LifecycleEffect::BackupRestored);
            effects.push(LifecycleEffect::ReceiptRemoved);
            (LifecycleStatus::Changed, true, AppFileAction::Restored)
        },
        Ok(UninstallOutcome::ForceRestoredBackup { .. }) => {
            effects.push(LifecycleEffect::UserModificationOverridden);
            effects.push(LifecycleEffect::BackupRestored);
            effects.push(LifecycleEffect::ReceiptRemoved);
            (LifecycleStatus::Changed, true, AppFileAction::ForceRestored)
        },
        Ok(UninstallOutcome::NotFound) => {
            effects.push(LifecycleEffect::ReceiptRemoved);
            (LifecycleStatus::Changed, true, AppFileAction::Missing)
        },
        Ok(UninstallOutcome::UserModified) => {
            effects.push(LifecycleEffect::UserResourcePreserved);
            (LifecycleStatus::Preserved, false, AppFileAction::UserModified)
        },
        Ok(UninstallOutcome::DryRun) => {
            effects.push(LifecycleEffect::ResourceRemovePreviewed);
            effects.push(LifecycleEffect::ReceiptRemovePreviewed);
            (LifecycleStatus::Previewed, false, AppFileAction::PreviewRemove)
        },
        Err(_) => (LifecycleStatus::Failed, false, AppFileAction::Failed),
    };
    proof {
        assert(effects@ =~= uninstall_effects(uninstall_result(*result)));
    }
    (status, effects, drops, action)
}

impl View for UninstallRun {
    type V = RunView;

    closed spec fn view(&self) -> RunView {
        run_view(self.manifest, self.report, Seq::empty())
    }
}

/// What refusing to remove a file does that needs rights which were not granted.
pub open spec fn uninstall_refused(run: RunView, entry: AppEntryView) -> RunView {
    run.grown(
        coded_outcome(
            app_target(reported_category(entry.source)),
            Some(file_of(entry.source)),
            LifecycleStatus::Failed,
            Seq::empty(),
            "app_admin_not_authorized"@,
        ),
        uninstall_report(
            entry,
            Some("administrator permission was not granted"@),
            LifecycleStatus::Failed,
            AppFileAction::Failed,
        ),
    )
}

/// What recording an uninstall does.
pub open spec fn uninstall_recorded(
    run: RunView,
    entry: AppEntryView,
    result: UninstallResultView,
) -> RunView {
    RunView {
        entries: if drops_receipt(result) {
            without_dest(run.entries, entry.destination)
        } else {
            run.entries
        },
        ..run.grown(
            uninstall_outcome_of(entry, result),
            uninstall_report(
                entry,
                match result {
                    UninstallResultView::Failed { error } => Some(error),
                    _ => None,
                },
                uninstall_status(result),
                uninstall_action(result),
            ),
        )
    }
}

/// What is to be done with a receipt.
#[derive(Clone, Copy, Debug, PartialEq, Eq, Structural)]
pub enum UninstallStep {
    /// It is reported already; nothing is to be done.
    Recorded,
    Uninstall,
}

impl UninstallRun {
    /// Starts with the receipts that were read.
    pub fn start(manifest: AppManifest, dry_run: bool, categories: Vec<AppCategory>) -> (run:
        UninstallRun)
        ensures
            run@ == fresh_run(
                LifecycleOperation::Uninstall,
                dry_run,
                manifest.schema_version,
                manifest@,
                category_views(categories@),
            ),
    {
        let run = UninstallRun {
            manifest,
            report: AppLifecycleReport::new(LifecycleOperation::Uninstall, dry_run, categories),
        };
        proof {
            lemma_fresh_run(run.manifest, run.report, Seq::empty());
        }
        run
    }

    /// The receipts as they stand.
    pub fn manifest(&self) -> (manifest: &AppManifest)
        ensures
            manifest@ == self@.entries,
            manifest.schema_version == self@.version,
    {
        &self.manifest
    }

    /// The report as it stands.
    pub fn report(&self) -> (report: &AppLifecycleReport)
        ensures
            report.lifecycle.operation == self@.operation,
            report.lifecycle.dry_run == self@.dry_run,
            category_views(report.categories@) == self@.categories,
            outcome_views(report.lifecycle.outcomes@) == self@.outcomes,
            file_report_views(report.files@) == self@.files,
    {
        &self.report
    }

    /// The report.
    pub fn into_report(self) -> (report: AppLifecycleReport)
        ensures
            report.lifecycle.operation == self@.operation,
            report.lifecycle.dry_run == self@.dry_run,
            category_views(report.categories@) == self@.categories,
            outcome_views(report.lifecycle.outcomes@) == self@.outcomes,
            file_report_views(report.files@) == self@.files,
    {
        self.report
    }

    /// Adds an outcome that is about no file of its own.
    pub fn note(&mut self, outcome: LifecycleOutcomeV1)
        ensures
            final(self)@ == (RunView {
                outcomes: old(self)@.outcomes.push(outcome@),
                ..old(self)@
            }),
    {
        self.report.lifecycle.push(outcome);
    }

    /// Looks at a receipt: a file that needs rights that were not granted is
    /// reported as failed; any other is to be uninstalled.
    pub fn consider(&mut self, entry: &AppEntry, authorized: bool) -> (step: UninstallStep)
        ensures
            (final(self)@, step) == if entry.requires_admin && !authorized {
                (uninstall_refused(old(self)@, entry@), UninstallStep::Recorded)
            } else {
                (old(self)@, UninstallStep::Uninstall)
            },
    {
        if entry.requires_admin && !authorized {
            self.refuse(entry);
            UninstallStep::Recorded
        } else {
            UninstallStep::Uninstall
        }
    }

    fn push(
        &mut self,
        entry: &AppEntry,
        outcome: LifecycleOutcomeV1,
        error: Option<String>,
        status: LifecycleStatus,
        action: AppFileAction,
    )
        ensures
            final(self)@ == old(self)@.grown(
                outcome@,
                uninstall_report(entry@, optional_text(error), status, action),
            ),
            final(self).manifest == old(self).manifest,
    {
        let category = match category_part(entry.source.as_str()) {
            Some(category) => category,
            None => "app".to_owned(),
        };
        let report = AppFileLifecycleReport {
            category,
            source: file_part(entry.source.as_str()),
            destination: entry.destination.clone(),
            transforms: Vec::new(),
            backup: copy_optional(&entry.backup),
            restart_hint: None,
            generator_error: None,
            error,
            status,
            action,
        };
        proof {
            assert(texts(report.transforms@) =~= Seq::<Seq<char>>::empty());
        }
        self.report.lifecycle.push(outcome);
        self.report.push_file(report);
    }

    /// Records that rights which the file needs were not granted.
    pub fn refuse(&mut self, entry: &AppEntry)
        ensures
            final(self)@ == uninstall_refused(old(self)@, entry@),
    {
        let category = match category_part(entry.source.as_str()) {
            Some(category) => category,
            None => "app".to_owned(),
        };
        let effects: Vec<LifecycleEffect> = Vec::new();
        proof {
            assert(effects@ =~= Seq::<LifecycleEffect>::empty());
        }
        let outcome = LifecycleOutcomeV1::coded(
            target_of(category.as_str()).as_str(),
            Some(file_part(entry.source.as_str())),
            LifecycleStatus::Failed,
            effects,
            "app_admin_not_authorized",
        );
        self.push(
            entry,
            outcome,
            Some("administrator permission was not granted".to_owned()),
            LifecycleStatus::Failed,
            AppFileAction::Failed,
        );
    }

    /// Records what came of an uninstall.
    pub fn record(&mut self, entry: &AppEntry, result: Result<UninstallOutcome, String>)
        ensures
            final(self)@ == uninstall_recorded(old(self)@, entry@, uninstall_result(result)),
    {
        let (status, effects, drops, action) = describe_uninstall(&result);
        if drops {
            self.manifest.remove_by_dest(entry.destination.as_str());
        }
        let category = match category_part(entry.source.as_str()) {
            Some(category) => category,
            None => "app".to_owned(),
        };
        let target = target_of(category.as_str());
        let resource = Some(file_part(entry.source.as_str()));
        match result {
            Err(error) => {
                let outcome = LifecycleOutcomeV1::coded(
                    target.as_str(),
                    resource,
                    status,
                    effects,
                    "app_uninstall_failed",
                );
                self.push(entry, outcome, Some(error), status, action);
            },
            Ok(_) => {
                let outcome = LifecycleOutcomeV1::new(target.as_str(), resource, status, effects);
                self.push(entry, outcome, None, status, action);
            },
        }
    }
}

/// The preset prefixes whose cache an uninstall clears; none where the presets are
/// the user's own.
pub open spec fn cache_prefixes(
    is_external: bool,
    purge: bool,
    target: Option<Seq<char>>,
    names: Seq<Seq<char>>,
) -> Seq<Seq<char>> {
    if is_external {
        Seq::empty()
    } else {
        match target {
            None => if purge {
                seq!["app"@]
            } else {
                names.map_values(|name: Seq<char>| app_target(name))
            },
            Some(target) => seq![app_target(target)],
        }
    }
}

/// The preset prefixes whose cache the uninstall clears.
pub fn cache_targets(
    request: &AppUninstallLifecycleRequest,
    is_external: bool,
    names: &Vec<String>,
) -> (prefixes: Vec<String>)
    ensures
        texts(prefixes@) == cache_prefixes(
            is_external,
            request.purge,
            optional_text(request.target),
            texts(names@),
        ),
{
    let mut prefixes: Vec<String> = Vec::new();
    let ghost expected = cache_prefixes(
        is_external,
        request.purge,
        optional_text(request.target),
        texts(names@),
    );
    if is_external {
        proof {
            assert(texts(prefixes@) =~= expected);
        }
        return prefixes;
    }
    match &request.target {
        Some(target) => {
            prefixes.push(target_of(target.as_str()));
        },
        None => {
            if request.purge {
                prefixes.push("app".to_owned());
            } else {
                let mut i: usize = 0;
                proof {
                    assert(texts(prefixes@) =~= expected.take(0));
                }
                while i < names.len()
                    invariant
                        i <= names.len(),
                        expected == texts(names@).map_values(|name: Seq<char>| app_target(name)),
                        texts(prefixes@) == expected.take(i as int),
                    decreases names.len() - i,
                {
                    let ghost before = prefixes@;
                    prefixes.push(target_of(names[i].as_str()));
                    proof {
                        assert(expected[i as int] == app_target(names@[i as int]@));
                        assert(expected.take(i as int + 1) =~= expected.take(i as int).push(
                            expected[i as int],
                        ));
                        assert(texts(prefixes@) =~= texts(before).push(expected[i as int]));
                    }
                    i += 1;
                }
            }
        },
    }
    proof {
        assert(texts(prefixes@) =~= expected);
    }
    prefixes
}

/// Uninstalling takes away the receipt of the file it is about and no other: every
/// other destination is owned as before.
pub proof fn law_uninstall_isolates_target(
    entries: Seq<AppEntryView>,
    entry: AppEntryView,
    other: Seq<char>,
)
    ensures
        !owns(without_dest(entries, entry.destination), entry.destination),
        !same_path(entry.destination, other) ==> owns(
            without_dest(entries, entry.destination),
            other,
        ) == owns(entries, other),
{
    crate::manifest::law_remove_clears_destination(entries, entry.destination, other);
}

/// What is chosen for an uninstall belongs to its target.
pub proof fn law_selection_belongs_to_target(
    entries: Seq<AppEntryView>,
    target: Option<Seq<char>>,
    destinations: Seq<Seq<char>>,
    index: int,
)
    requires
        0 <= index < selected_entries(entries, target, destinations).len(),
    ensures
        is_selected(selected_entries(entries, target, destinations)[index], target, destinations),
        entries.contains(selected_entries(entries, target, destinations)[index]),
    decreases entries.len(),
{
    let head = entries.drop_last();
    let before = selected_entries(head, target, destinations);
    let all = selected_entries(entries, target, destinations);
    if index < before.len() {
        law_selection_belongs_to_target(head, target, destinations, index);
        assert(all[index] == before[index]);
        let k = choose|k: int| 0 <= k < head.len() && head[k] == before[index];
        assert(entries[k] == before[index]);
    } else {
        assert(all[index] == entries.last());
        assert(entries[entries.len() - 1] == entries.last());
    }
}

} // verus!
