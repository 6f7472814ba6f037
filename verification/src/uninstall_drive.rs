//! An uninstall of Apps, one demand at a time.
//!
//! The receipts have to be readable before anything is done. Rights are asked for
//! first, artifacts are taken down next, and only then are files removed. A preview
//! saves no receipts.

use vstd::prelude::*;
use vstd::string::*;

use crate::app_flow::{
    cache_preserved, count_privileged_receipts, external_purge_outcome, privileged_receipts,
    teardown_setup_outcome,
};
use crate::app_install::UninstallOutcome;
use crate::app_lifecycle::{app_target, asks_for_admin, fresh_run, target_of, RunView};
use crate::app_scope::{
    is_teardown, target_places, teardown_requests, teardowns_of, ScopeFault, ScopeFaultView,
    UninstallScope,
};
use crate::app_types::{
    category_views, file_report_views, AppArtifactRequest, AppCacheRequest, AppCategoryView,
    AppLifecycleReport, AppUninstallLifecycleRequest,
};
use crate::app_uninstall::{
    cache_prefixes, cache_targets, uninstall_recorded, uninstall_refused, uninstall_result,
    UninstallRun, UninstallStep,
};
use crate::host::{warning_event, RuntimeEvent, RuntimeEventView};
use crate::install_drive::{StartFault, StartFaultView};
use crate::lifecycle::{
    coded_outcome, outcome_views, LifecycleOperation, LifecycleOutcomeV1, LifecycleStatus,
};
use crate::manifest::{
    entry_views, is_supported, AppEntry, AppManifest, APP_MANIFEST_SCHEMA_VERSION,
};
use crate::plan::optional_text;
use crate::runtime::{app_categories_of, CoreRuntime};
use crate::text::texts;

verus! {

/// What an uninstall asks for next.
#[derive(Clone, Copy, Debug, PartialEq, Eq, Structural)]
pub enum UninstallDemand {
    /// Ask for the rights that this many files need.
    Authorize { count: usize },
    /// Take an artifact down.
    TearDown { index: usize },
    /// Look at a receipt; the host has nothing to do.
    Consider { index: usize },
    /// Take away the file of a receipt.
    Uninstall { index: usize },
    SaveReceipts,
    /// Clear copies of preset files.
    Reconcile { index: usize },
    Finish,
}

/// An uninstall under way.
#[derive(Clone, Debug)]
pub struct UninstallDrive {
    request: AppUninstallLifecycleRequest,
    external: bool,
    running_as_admin: bool,
    scope: UninstallScope,
    teardowns: Vec<AppArtifactRequest>,
    prefixes: Vec<String>,
    idle: bool,
    granted: Option<bool>,
    torn: usize,
    weighed: bool,
    settled: usize,
    saved: bool,
    cleared: usize,
    run: UninstallRun,
}

/// An uninstall under way, by its values.
pub ghost struct UninstallDriveView {
    pub target: Option<Seq<char>>,
    pub dry_run: bool,
    pub force: bool,
    pub purge: bool,
    pub external: bool,
    pub running_as_admin: bool,
    pub selected: Seq<AppEntry>,
    pub teardowns: Seq<AppArtifactRequest>,
    pub prefixes: Seq<Seq<char>>,
    /// A target was asked for of which nothing is installed.
    pub idle: bool,
    pub granted: Option<bool>,
    pub torn: int,
    pub weighed: bool,
    pub settled: int,
    pub saved: bool,
    pub cleared: int,
    pub run: RunView,
}

impl View for UninstallDrive {
    type V = UninstallDriveView;

    closed spec fn view(&self) -> UninstallDriveView {
        UninstallDriveView {
            target: optional_text(self.request.target),
            dry_run: self.request.dry_run,
            force: self.request.force,
            purge: self.request.purge,
            external: self.external,
            running_as_admin: self.running_as_admin,
            selected: self.scope.selected@,
            teardowns: self.teardowns@,
            prefixes: texts(self.prefixes@),
            idle: self.idle,
            granted: self.granted,
            torn: self.torn as int,
            weighed: self.weighed,
            settled: self.settled as int,
            saved: self.saved,
            cleared: self.cleared as int,
            run: self.run@,
        }
    }
}

impl UninstallDriveView {
    /// Whether rights have to be asked for before anything is taken down or removed.
    pub open spec fn asks(&self) -> bool {
        !self.dry_run && privileged_receipts(entry_views(self.selected)) > 0
            && !self.running_as_admin
    }

    /// Whether the files that need rights may be removed.
    pub open spec fn authorized(&self) -> bool {
        match self.granted {
            Some(granted) => granted,
            None => true,
        }
    }

    /// Rights come before teardowns, teardowns before removals, removals before the
    /// receipts are saved, and copies are cleared last.
    pub open spec fn well_formed(&self) -> bool {
        &&& self.run.dry_run == self.dry_run
        &&& self.run.version == APP_MANIFEST_SCHEMA_VERSION
        &&& self.run.operation == LifecycleOperation::Uninstall
        &&& 0 <= self.torn <= self.teardowns.len()
        &&& 0 <= self.settled <= self.selected.len()
        &&& 0 <= self.cleared <= self.prefixes.len()
        &&& self.torn > 0 || self.settled > 0 || self.weighed || self.saved || self.cleared > 0 ==> {
            self.asks() ==> self.granted is Some
        }
        &&& self.settled > 0 || self.weighed || self.saved || self.cleared > 0 ==> self.torn
            == self.teardowns.len()
        &&& self.weighed ==> self.settled < self.selected.len()
        &&& self.saved ==> !self.dry_run
        &&& self.saved || self.cleared > 0 ==> self.settled == self.selected.len()
        &&& self.cleared > 0 && !self.dry_run ==> self.saved
    }

    /// What the uninstall asks for next.
    pub open spec fn demand(&self) -> UninstallDemand {
        if self.idle {
            UninstallDemand::Finish
        } else if self.granted is None && self.asks() {
            UninstallDemand::Authorize {
                count: privileged_receipts(entry_views(self.selected)) as usize,
            }
        } else if self.torn < self.teardowns.len() {
            UninstallDemand::TearDown { index: self.torn as usize }
        } else if self.settled < self.selected.len() {
            if self.weighed {
                UninstallDemand::Uninstall { index: self.settled as usize }
            } else {
                UninstallDemand::Consider { index: self.settled as usize }
            }
        } else if !self.dry_run && !self.saved {
            UninstallDemand::SaveReceipts
        } else if self.cleared < self.prefixes.len() {
            UninstallDemand::Reconcile { index: self.cleared as usize }
        } else {
            UninstallDemand::Finish
        }
    }
}

/// Whether an uninstall that has just begun is about what it was asked for.
pub open spec fn begins_uninstall(
    drive: UninstallDriveView,
    core: CoreRuntime,
    manifest: AppManifest,
    request: AppUninstallLifecycleRequest,
    scope: UninstallScope,
    places: Seq<Seq<char>>,
    categories: Seq<AppCategoryView>,
) -> bool {
    let target = optional_text(request.target);
    let found = category_views(scope.categories@);
    &&& scope.fits(manifest@, target, places, categories)
    &&& drive.selected == scope.selected@
    &&& drive.teardowns.len() == teardowns_of(found).len()
    &&& forall|i: int|
        0 <= i < drive.teardowns.len() ==> is_teardown(
            #[trigger] drive.teardowns[i],
            teardowns_of(found)[i],
            request.dry_run,
        )
    &&& drive == (UninstallDriveView {
        target,
        dry_run: request.dry_run,
        force: request.force,
        purge: request.purge,
        external: core.context.is_external_presets,
        running_as_admin: core.context.running_as_admin,
        selected: scope.selected@,
        teardowns: drive.teardowns,
        prefixes: cache_prefixes(
            core.context.is_external_presets,
            request.purge,
            target,
            texts(scope.names@),
        ),
        idle: request.target is Some && scope.selected@.len() == 0,
        granted: None,
        torn: 0,
        weighed: false,
        settled: 0,
        saved: false,
        cleared: 0,
        run: fresh_run(
            LifecycleOperation::Uninstall,
            request.dry_run,
            APP_MANIFEST_SCHEMA_VERSION,
            manifest@,
            found,
        ),
    })
}

impl UninstallDrive {
    /// Starts an uninstall with the receipts that were read.
    pub fn start(
        core: &CoreRuntime,
        manifest: AppManifest,
        request: AppUninstallLifecycleRequest,
    ) -> (result: Result<UninstallDrive, StartFault>)
        ensures
            if !is_supported(manifest.schema_version) {
                result is Err && result->Err_0@ == (StartFaultView::UnsupportedManifest {
                    version: manifest.schema_version,
                })
            } else {
                match (
                    target_places(core.context, core.presets@, optional_text(request.target)),
                    app_categories_of(core.context, core.presets@, None),
                ) {
                    (Err(error), _) => result is Err && result->Err_0@ == (StartFaultView::Scope {
                        fault: ScopeFaultView::Metadata { error },
                    }),
                    (Ok(_), Err(error)) => result is Err && result->Err_0@ == (
                    StartFaultView::Scope { fault: ScopeFaultView::Metadata { error } }),
                    (Ok(places), Ok(categories)) => {
                        &&& result is Ok
                        &&& result->Ok_0@.well_formed()
                        &&& exists|scope: UninstallScope|
                            begins_uninstall(
                                result->Ok_0@,
                                *core,
                                manifest,
                                request,
                                scope,
                                places,
                                categories,
                            )
                    },
                }
            },
    {
        let ghost read = manifest;
        let manifest = match manifest.accept() {
            Ok(manifest) => manifest,
            Err(unsupported) => return Err(
                StartFault::UnsupportedManifest { version: unsupported.version },
            ),
        };
        let mut scope = match core.uninstall_scope(&manifest, &request.target) {
            Ok(scope) => scope,
            Err(error) => return Err(
                StartFault::Scope { fault: ScopeFault::Metadata { error } },
            ),
        };
        let ghost whole = scope;
        let teardowns = teardown_requests(&scope.categories, request.dry_run);
        let external = core.context.is_external_presets;
        let prefixes = cache_targets(&request, external, &scope.names);
        let idle = scope.is_idle(&request.target);
        let mut categories: Vec<crate::app_types::AppCategory> = Vec::new();
        categories.append(&mut scope.categories);
        proof {
            assert(categories@ =~= whole.categories@);
        }
        let run = UninstallRun::start(manifest, request.dry_run, categories);
        let drive = UninstallDrive {
            request,
            external,
            running_as_admin: core.context.running_as_admin,
            scope,
            teardowns,
            prefixes,
            idle,
            granted: None,
            torn: 0,
            weighed: false,
            settled: 0,
            saved: false,
            cleared: 0,
            run,
        };
        proof {
            let target = optional_text(request.target);
            let places = target_places(core.context, core.presets@, target)->Ok_0;
            let found = app_categories_of(core.context, core.presets@, None)->Ok_0;
            assert(begins_uninstall(drive@, *core, read, request, whole, places, found));
        }
        Ok(drive)
    }

    /// What the uninstall asks for next.
    pub fn next(&self) -> (demand: UninstallDemand)
        requires
            self@.well_formed(),
        ensures
            demand == self@.demand(),
    {
        let count = count_privileged_receipts(&self.scope.selected);
        if self.idle {
            UninstallDemand::Finish
        } else if self.granted.is_none() && asks_for_admin(
            self.request.dry_run,
            count,
            self.running_as_admin,
        ) {
            UninstallDemand::Authorize { count }
        } else if self.torn < self.teardowns.len() {
            UninstallDemand::TearDown { index: self.torn }
        } else if self.settled < self.scope.selected.len() {
            if self.weighed {
                UninstallDemand::Uninstall { index: self.settled }
            } else {
                UninstallDemand::Consider { index: self.settled }
            }
        } else if !self.request.dry_run && !self.saved {
            UninstallDemand::SaveReceipts
        } else if self.cleared < self.prefixes.len() {
            UninstallDemand::Reconcile { index: self.cleared }
        } else {
            UninstallDemand::Finish
        }
    }

    /// Goes on with the answer to whether rights are granted.
    pub fn authorized(&mut self, granted: bool)
        requires
            old(self)@.well_formed(),
            old(self)@.demand() is Authorize,
        ensures
            final(self)@.well_formed(),
            final(self)@ == (UninstallDriveView { granted: Some(granted), ..old(self)@ }),
    {
        self.granted = Some(granted);
    }

    /// The artifact that is taken down.
    pub fn teardown(&self) -> (request: &AppArtifactRequest)
        requires
            self@.well_formed(),
            self@.demand() is TearDown,
        ensures
            *request == self@.teardowns[self@.torn],
    {
        &self.teardowns[self.torn]
    }

    /// Goes on with what came of the teardown. One that could not be set up does not
    /// stop the uninstall; the event tells of it.
    pub fn torn_down(&mut self, result: Result<LifecycleOutcomeV1, String>) -> (event: Option<
        RuntimeEvent,
    >)
        requires
            old(self)@.well_formed(),
            old(self)@.demand() is TearDown,
        ensures
            final(self)@.well_formed(),
            ({
                let category = old(self)@.teardowns[old(self)@.torn].category@;
                let outcome = match result {
                    Ok(outcome) => outcome@,
                    Err(_) => coded_outcome(
                        app_target(category),
                        Some("artifact:teardown"@),
                        LifecycleStatus::Failed,
                        Seq::empty(),
                        "app_teardown_setup_failed"@,
                    ),
                };
                &&& final(self)@ == (UninstallDriveView {
                    torn: old(self)@.torn + 1,
                    run: RunView {
                        outcomes: old(self)@.run.outcomes.push(outcome),
                        ..old(self)@.run
                    },
                    ..old(self)@
                })
                &&& match result {
                    Ok(_) => event is None,
                    Err(error) => event is Some && event->0@ == (RuntimeEventView::Warning {
                        code: "app_artifact_teardown_failed"@,
                        target: Some(app_target(category)),
                        detail: error@,
                    }),
                }
            }),
    {
        proof {
            let total: usize = self.teardowns.len();
            assert(self.torn < total);
        }
        let category = self.teardowns[self.torn].category.clone();
        self.torn = self.torn + 1;
        match result {
            Ok(outcome) => {
                self.run.note(outcome);
                None
            },
            Err(error) => {
                self.run.note(teardown_setup_outcome(category.as_str()));
                let target = target_of(category.as_str());
                Some(warning_event("app_artifact_teardown_failed", target.as_str(), error))
            },
        }
    }

    /// Looks at the next receipt.
    pub fn consider(&mut self)
        requires
            old(self)@.well_formed(),
            old(self)@.demand() is Consider,
        ensures
            final(self)@.well_formed(),
            ({
                let before = old(self)@;
                let entry = before.selected[before.settled];
                final(self)@ == if entry.requires_admin && !before.authorized() {
                    UninstallDriveView {
                        run: uninstall_refused(before.run, entry@),
                        settled: before.settled + 1,
                        ..before
                    }
                } else {
                    UninstallDriveView { weighed: true, ..before }
                }
            }),
    {
        let granted = match self.granted {
            Some(granted) => granted,
            None => true,
        };
        proof {
            let total: usize = self.scope.selected.len();
            assert(self.settled < total);
        }
        match self.run.consider(&self.scope.selected[self.settled], granted) {
            UninstallStep::Recorded => {
                self.settled = self.settled + 1;
            },
            UninstallStep::Uninstall => {
                self.weighed = true;
            },
        }
    }

    /// The receipt whose file is taken away.
    pub fn entry(&self) -> (entry: &AppEntry)
        requires
            self@.well_formed(),
            self@.demand() is Uninstall,
        ensures
            *entry == self@.selected[self@.settled],
    {
        &self.scope.selected[self.settled]
    }

    /// Whether what a user changed is taken away too.
    pub fn force(&self) -> (force: bool)
        ensures
            force == self@.force,
    {
        self.request.force
    }

    /// Whether this is a preview.
    pub fn dry_run(&self) -> (dry_run: bool)
        ensures
            dry_run == self@.dry_run,
    {
        self.request.dry_run
    }

    /// Goes on with what came of taking the file away.
    pub fn uninstalled(&mut self, result: Result<UninstallOutcome, String>)
        requires
            old(self)@.well_formed(),
            old(self)@.demand() is Uninstall,
        ensures
            final(self)@.well_formed(),
            final(self)@ == (UninstallDriveView {
                run: uninstall_recorded(
                    old(self)@.run,
                    old(self)@.selected[old(self)@.settled]@,
                    uninstall_result(result),
                ),
                weighed: false,
                settled: old(self)@.settled + 1,
                ..old(self)@
            }),
    {
        proof {
            let total: usize = self.scope.selected.len();
            assert(self.settled < total);
        }
        self.run.record(&self.scope.selected[self.settled], result);
        self.weighed = false;
        self.settled = self.settled + 1;
    }

    /// The receipts as they stand.
    pub fn manifest(&self) -> (manifest: &AppManifest)
        requires
            self@.well_formed(),
        ensures
            manifest@ == self@.run.entries,
            manifest.schema_version == APP_MANIFEST_SCHEMA_VERSION,
    {
        self.run.manifest()
    }

    /// Goes on after the receipts were made durable.
    pub fn receipts_saved(&mut self)
        requires
            old(self)@.well_formed(),
            old(self)@.demand() is SaveReceipts,
        ensures
            final(self)@.well_formed(),
            final(self)@ == (UninstallDriveView { saved: true, ..old(self)@ }),
    {
        self.saved = true;
    }

    /// The copies that are cleared.
    pub fn cache_request(&self) -> (request: AppCacheRequest)
        requires
            self@.well_formed(),
            self@.demand() is Reconcile,
        ensures
            request.prefix@ == self@.prefixes[self@.cleared],
            request.dry_run == self@.dry_run,
            request.remove,
            request.purge == self@.purge,
            !request.overwrite,
    {
        proof {
            assert(texts(self.prefixes@)[self.cleared as int]
                == self.prefixes@[self.cleared as int]@);
        }
        AppCacheRequest {
            prefix: self.prefixes[self.cleared].clone(),
            dry_run: self.request.dry_run,
            remove: true,
            purge: self.request.purge,
            overwrite: false,
        }
    }

    /// Goes on after copies were cleared.
    pub fn reconciled(&mut self, outcome: LifecycleOutcomeV1)
        requires
            old(self)@.well_formed(),
            old(self)@.demand() is Reconcile,
        ensures
            final(self)@.well_formed(),
            final(self)@ == (UninstallDriveView {
                cleared: old(self)@.cleared + 1,
                run: RunView {
                    outcomes: old(self)@.run.outcomes.push(outcome@),
                    ..old(self)@.run
                },
                ..old(self)@
            }),
    {
        proof {
            let total: usize = self.prefixes.len();
            assert(self.cleared < total);
        }
        self.run.note(outcome);
        self.cleared = self.cleared + 1;
    }

    /// The report of a finished uninstall. A purge of external presets is reported as
    /// having left them alone.
    pub fn finish(self) -> (report: AppLifecycleReport)
        requires
            self@.well_formed(),
            self@.demand() is Finish,
        ensures
            report.lifecycle.operation == LifecycleOperation::Uninstall,
            report.lifecycle.dry_run == self@.dry_run,
            category_views(report.categories@) == self@.run.categories,
            file_report_views(report.files@) == self@.run.files,
            outcome_views(report.lifecycle.outcomes@) == if !self@.idle && self@.external
                && self@.purge {
                self@.run.outcomes.push(
                    cache_preserved(
                        match self@.target {
                            Some(category) => app_target(category),
                            None => "app"@,
                        },
                        "purge"@,
                    ),
                )
            } else {
                self@.run.outcomes
            },
    {
        let mut run = self.run;
        if !self.idle && self.external && self.request.purge {
            run.note(external_purge_outcome(&self.request.target));
        }
        run.into_report()
    }
}

/// No file is taken away before every artifact that has a teardown was taken down,
/// and nothing is taken down before rights were asked for where they are needed.
pub proof fn law_teardown_comes_before_removal(drive: UninstallDriveView)
    requires
        drive.well_formed(),
    ensures
        drive.demand() is Uninstall ==> drive.torn == drive.teardowns.len(),
        drive.demand() is TearDown || drive.demand() is Uninstall ==> (drive.asks()
            ==> drive.granted is Some),
{
}

/// A preview of an uninstall saves no receipts, asks for no rights, and only previews
/// what it hands to the host.
pub proof fn law_uninstall_preview_saves_nothing(drive: UninstallDriveView)
    requires
        drive.well_formed(),
        drive.dry_run,
    ensures
        !(drive.demand() is SaveReceipts),
        !(drive.demand() is Authorize),
        drive.run.dry_run,
{
}

} // verus!
