//! An install of Apps, one demand at a time.
//!
//! The receipts have to be readable before anything is done. The copies of preset
//! files come first, then every file is assessed, then rights are asked for, and only
//! then is anything installed. A preview neither saves receipts nor runs hooks.

use vstd::prelude::*;
use vstd::string::*;

use crate::app_flow::{cache_preserved, external_cache_outcome, privileged_files};
use crate::app_install::InstallOutcome;
use crate::app_lifecycle::{
    app_target, asks_for_admin, fresh_run, install_considered, install_recorded, install_result,
    target_of, AssessedAppFile, InstallRun, InstallStep, RunView,
};
use crate::app_scope::{install_scope_of, ScopeFault, ScopeFaultView};
use crate::app_types::{
    category_views, copy_categories, AppCacheRequest, AppCategory, AppCategoryView,
    AppGeneratorRequest, AppHookPhase, AppHookRequest, AppLifecycleReport, AppLifecycleRequest,
};
use crate::assess_run::{due_of, requests_generator, AssessRun, AssessRunView, DueFile};
use crate::lifecycle::{outcome_views, LifecycleOperation, LifecycleOutcomeV1, OutcomeView};
use crate::manifest::{is_supported, AppManifest, APP_MANIFEST_SCHEMA_VERSION};
use crate::plan::optional_text;
use crate::runtime::CoreRuntime;
use crate::sorted::in_order;
use crate::text::{copy_texts, texts};

verus! {

/// Why an operation does not start.
#[derive(Debug)]
pub enum StartFault {
    Scope { fault: ScopeFault },
    /// The receipts are those of another version of the program.
    UnsupportedManifest { version: u32 },
}

/// Why an operation does not start, by its values.
pub ghost enum StartFaultView {
    Scope { fault: ScopeFaultView },
    UnsupportedManifest { version: u32 },
}

impl View for StartFault {
    type V = StartFaultView;

    open spec fn view(&self) -> StartFaultView {
        match self {
            StartFault::Scope { fault } => StartFaultView::Scope { fault: fault@ },
            StartFault::UnsupportedManifest { version } => StartFaultView::UnsupportedManifest {
                version: *version,
            },
        }
    }
}

/// What an install asks for next.
#[derive(Clone, Copy, Debug, PartialEq, Eq, Structural)]
pub enum InstallDemand {
    /// Bring the copies of the preset files of a category up to date.
    Reconcile { index: usize },
    /// Assess a file: its generator runs now, if at all.
    Generate { index: usize },
    /// Ask for the rights that this many files need.
    Authorize { count: usize },
    /// Look at an assessed file; the host has nothing to do.
    Consider { index: usize },
    /// Put the content of an assessed file in place.
    Install { index: usize, is_managed: bool },
    SaveReceipts,
    Hooks,
    Finish,
}

/// An install under way.
#[derive(Clone, Debug)]
pub struct InstallDrive {
    dry_run: bool,
    force: bool,
    running_as_admin: bool,
    /// How many categories have copies of preset files.
    caches: usize,
    reconciled: usize,
    assess: AssessRun,
    granted: Option<bool>,
    weighed: Option<bool>,
    settled: usize,
    saved: bool,
    hooked: bool,
    run: InstallRun,
}

/// An install under way, by its values.
pub ghost struct InstallDriveView {
    pub dry_run: bool,
    pub force: bool,
    pub running_as_admin: bool,
    pub caches: int,
    pub reconciled: int,
    pub assess: AssessRunView,
    pub granted: Option<bool>,
    pub weighed: Option<bool>,
    pub settled: int,
    pub saved: bool,
    pub hooked: bool,
    pub run: RunView,
}

impl View for InstallDrive {
    type V = InstallDriveView;

    closed spec fn view(&self) -> InstallDriveView {
        InstallDriveView {
            dry_run: self.dry_run,
            force: self.force,
            running_as_admin: self.running_as_admin,
            caches: self.caches as int,
            reconciled: self.reconciled as int,
            assess: self.assess@,
            granted: self.granted,
            weighed: self.weighed,
            settled: self.settled as int,
            saved: self.saved,
            hooked: self.hooked,
            run: self.run@,
        }
    }
}

impl InstallDriveView {
    /// Whether rights have to be asked for before anything is installed.
    pub open spec fn asks(&self) -> bool {
        !self.dry_run && privileged_files(self.assess.files) > 0 && !self.running_as_admin
    }

    /// Whether the files that need rights may be installed.
    pub open spec fn authorized(&self) -> bool {
        match self.granted {
            Some(granted) => granted,
            None => true,
        }
    }

    /// Nothing is settled before everything was assessed and rights were asked for;
    /// receipts are saved, and hooks run, once everything is settled.
    pub open spec fn well_formed(&self) -> bool {
        &&& self.run.dry_run == self.dry_run
        &&& self.run.version == APP_MANIFEST_SCHEMA_VERSION
        &&& self.run.operation == LifecycleOperation::Install
        &&& 0 <= self.reconciled <= self.caches <= self.run.categories.len()
        &&& self.assess.well_formed()
        &&& self.assess.files.len() > 0 ==> self.reconciled == self.caches
        &&& 0 <= self.settled <= self.assess.files.len()
        &&& self.settled > 0 || self.weighed is Some || self.saved || self.granted is Some ==> {
            &&& self.reconciled == self.caches
            &&& self.assess.done()
        }
        &&& self.settled > 0 || self.weighed is Some || self.saved ==> {
            self.asks() ==> self.granted is Some
        }
        &&& self.weighed is Some ==> {
            &&& self.settled < self.assess.files.len()
            &&& self.assess.files[self.settled].content is Some
        }
        &&& self.saved ==> !self.dry_run && self.settled == self.assess.files.len()
        &&& self.hooked ==> self.saved
    }

    /// What the install asks for next.
    pub open spec fn demand(&self) -> InstallDemand {
        if self.reconciled < self.caches {
            InstallDemand::Reconcile { index: self.reconciled as usize }
        } else if !self.assess.done() {
            InstallDemand::Generate { index: self.assess.files.len() as usize }
        } else if self.granted is None && self.asks() {
            InstallDemand::Authorize { count: privileged_files(self.assess.files) as usize }
        } else if self.settled < self.assess.files.len() {
            match self.weighed {
                Some(is_managed) => InstallDemand::Install {
                    index: self.settled as usize,
                    is_managed,
                },
                None => InstallDemand::Consider { index: self.settled as usize },
            }
        } else if !self.dry_run && !self.saved {
            InstallDemand::SaveReceipts
        } else if !self.dry_run && !self.hooked {
            InstallDemand::Hooks
        } else {
            InstallDemand::Finish
        }
    }
}

/// What an install reports of the files of external presets.
pub open spec fn preserved_caches(categories: Seq<AppCategoryView>) -> Seq<OutcomeView> {
    categories.map_values(
        |category: AppCategoryView| cache_preserved(app_target(category.name), "preset-cache"@),
    )
}

/// What keeps an install from starting: its categories, its receipts, or the place
/// of one of its files.
pub open spec fn install_start(
    core: CoreRuntime,
    manifest: AppManifest,
    target: Option<Seq<char>>,
) -> Result<Seq<AppCategoryView>, StartFaultView> {
    match install_scope_of(core.context, core.presets@, target) {
        Err(fault) => Err(StartFaultView::Scope { fault }),
        Ok(categories) => if !is_supported(manifest.schema_version) {
            Err(StartFaultView::UnsupportedManifest { version: manifest.schema_version })
        } else {
            match due_of(core.context, categories) {
                Err(error) => Err(
                    StartFaultView::Scope { fault: ScopeFaultView::Metadata { error } },
                ),
                Ok(_) => Ok(categories),
            }
        },
    }
}

impl InstallDrive {
    /// Whether the install stands as `InstallDriveView::well_formed` says.
    pub closed spec fn well_formed(&self) -> bool {
        self@.well_formed() && self.run.well_formed()
    }

    /// Starts an install with the receipts that were read.
    pub fn start(core: &CoreRuntime, manifest: AppManifest, request: &AppLifecycleRequest) -> (
        result: Result<InstallDrive, StartFault>)
        ensures
            match install_start(*core, manifest, optional_text(request.target)) {
                Err(fault) => result is Err && result->Err_0@ == fault,
                Ok(categories) => {
                    let run = fresh_run(
                        LifecycleOperation::Install,
                        request.dry_run,
                        APP_MANIFEST_SCHEMA_VERSION,
                        manifest@,
                        categories,
                    );
                    let external = core.context.is_external_presets;
                    &&& result is Ok
                    &&& result->Ok_0.well_formed()
                    &&& result->Ok_0@ == (InstallDriveView {
                        dry_run: request.dry_run,
                        force: request.force,
                        running_as_admin: core.context.running_as_admin,
                        caches: if external {
                            0
                        } else {
                            categories.len() as int
                        },
                        reconciled: 0,
                        assess: AssessRunView {
                            due: due_of(core.context, categories)->Ok_0,
                            files: Seq::empty(),
                        },
                        granted: None,
                        weighed: None,
                        settled: 0,
                        saved: false,
                        hooked: false,
                        run: if external {
                            RunView { outcomes: preserved_caches(categories), ..run }
                        } else {
                            run
                        },
                    })
                },
            },
    {
        let categories = match core.install_scope(&request.target) {
            Ok(categories) => categories,
            Err(fault) => return Err(StartFault::Scope { fault }),
        };
        let manifest = match manifest.accept() {
            Ok(manifest) => manifest,
            Err(unsupported) => return Err(
                StartFault::UnsupportedManifest { version: unsupported.version },
            ),
        };
        let assess = match AssessRun::start(core, &categories) {
            Ok(assess) => assess,
            Err(error) => return Err(
                StartFault::Scope { fault: ScopeFault::Metadata { error } },
            ),
        };
        let ghost views = category_views(categories@);
        let external = core.context.is_external_presets;
        let total: usize = categories.len();
        let mut preserved: Vec<LifecycleOutcomeV1> = Vec::new();
        let mut i: usize = 0;
        proof {
            assert(outcome_views(preserved@) =~= preserved_caches(views).take(0));
        }
        while i < categories.len()
            invariant
                i <= categories.len(),
                views == category_views(categories@),
                outcome_views(preserved@) == preserved_caches(views).take(i as int),
            decreases categories.len() - i,
        {
            let ghost before = preserved@;
            preserved.push(external_cache_outcome(categories[i].name.as_str()));
            proof {
                assert(preserved_caches(views)[i as int] == cache_preserved(
                    app_target(categories@[i as int]@.name),
                    "preset-cache"@,
                ));
                assert(outcome_views(preserved@) =~= outcome_views(before).push(
                    preserved_caches(views)[i as int],
                ));
                assert(outcome_views(preserved@) =~= preserved_caches(views).take(i as int + 1));
            }
            i += 1;
        }
        let mut run = InstallRun::start(manifest, request.dry_run, categories);
        proof {
            assert(preserved_caches(views).take(views.len() as int) =~= preserved_caches(views));
            assert(assess@.files =~= Seq::<AssessedAppFile>::empty());
        }
        if external {
            run.note_all(preserved);
            proof {
                assert(run@.outcomes =~= preserved_caches(views));
            }
        }
        Ok(
            InstallDrive {
                dry_run: request.dry_run,
                force: request.force,
                running_as_admin: core.context.running_as_admin,
                caches: if external {
                    0
                } else {
                    total
                },
                reconciled: 0,
                assess,
                granted: None,
                weighed: None,
                settled: 0,
                saved: false,
                hooked: false,
                run,
            },
        )
    }

    /// What the install asks for next.
    pub fn next(&self) -> (demand: InstallDemand)
        requires
            self.well_formed(),
        ensures
            demand == self@.demand(),
            self@.well_formed(),
    {
        let count = self.assess.count_privileged();
        if self.reconciled < self.caches {
            InstallDemand::Reconcile { index: self.reconciled }
        } else if !self.assess.is_done() {
            InstallDemand::Generate { index: self.assess.count() }
        } else if self.granted.is_none() && asks_for_admin(
            self.dry_run,
            count,
            self.running_as_admin,
        ) {
            InstallDemand::Authorize { count }
        } else if self.settled < self.assess.count() {
            match self.weighed {
                Some(is_managed) => InstallDemand::Install { index: self.settled, is_managed },
                None => InstallDemand::Consider { index: self.settled },
            }
        } else if !self.dry_run && !self.saved {
            InstallDemand::SaveReceipts
        } else if !self.dry_run && !self.hooked {
            InstallDemand::Hooks
        } else {
            InstallDemand::Finish
        }
    }

    /// The categories that are installed.
    pub fn categories(&self) -> (categories: &Vec<AppCategory>)
        ensures
            category_views(categories@) == self@.run.categories,
    {
        &self.run.report().categories
    }

    /// The receipts as they stand.
    pub fn manifest(&self) -> (manifest: &AppManifest)
        requires
            self.well_formed(),
        ensures
            manifest@ == self@.run.entries,
            manifest.schema_version == APP_MANIFEST_SCHEMA_VERSION,
    {
        self.run.manifest()
    }

    /// The categories that changed.
    pub fn changed(&self) -> (changed: &Vec<String>)
        requires
            self.well_formed(),
        ensures
            texts(changed@) == in_order(self@.run.changed),
    {
        self.run.changed()
    }

    /// The copies that are brought up to date.
    pub fn cache_request(&self) -> (request: AppCacheRequest)
        requires
            self.well_formed(),
            self@.demand() is Reconcile,
        ensures
            request.prefix@ == app_target(self@.run.categories[self@.reconciled].name),
            request.dry_run == self@.dry_run,
            !request.remove,
            !request.purge,
            request.overwrite,
    {
        let categories = self.categories();
        proof {
            assert(category_views(categories@)[self.reconciled as int]
                == categories@[self.reconciled as int]@);
        }
        AppCacheRequest {
            prefix: target_of(categories[self.reconciled].name.as_str()),
            dry_run: self.dry_run,
            remove: false,
            purge: false,
            overwrite: true,
        }
    }

    /// Goes on after copies were brought up to date.
    pub fn reconciled(&mut self, outcome: LifecycleOutcomeV1)
        requires
            old(self).well_formed(),
            old(self)@.demand() is Reconcile,
        ensures
            final(self).well_formed(),
            final(self)@ == (InstallDriveView {
                reconciled: old(self)@.reconciled + 1,
                run: RunView {
                    outcomes: old(self)@.run.outcomes.push(outcome@),
                    ..old(self)@.run
                },
                ..old(self)@
            }),
    {
        self.run.note(outcome);
        self.reconciled = self.reconciled + 1;
    }

    /// The file that is assessed next.
    pub fn due(&self) -> (due: &DueFile)
        requires
            self.well_formed(),
            self@.demand() is Generate,
        ensures
            due@ == self@.assess.due[self@.assess.files.len() as int],
    {
        self.assess.next()
    }

    /// How the generator of the file that is assessed next is run, if it is.
    pub fn generator_request(&self) -> (request: Option<AppGeneratorRequest>)
        requires
            self.well_formed(),
            self@.demand() is Generate,
        ensures
            requests_generator(
                request,
                self@.assess.due[self@.assess.files.len() as int],
                self@.dry_run,
                true,
            ),
    {
        self.due().generator_request(self.dry_run, true)
    }

    /// Goes on with the content of the file, or with the error of a generator whose
    /// file is kept.
    pub fn assessed(&mut self, result: Result<Vec<u8>, String>)
        requires
            old(self).well_formed(),
            old(self)@.demand() is Generate,
        ensures
            final(self).well_formed(),
            final(self)@ == (InstallDriveView { assess: final(self)@.assess, ..old(self)@ }),
            final(self)@.assess.due == old(self)@.assess.due,
            final(self)@.assess.files.len() == old(self)@.assess.files.len() + 1,
            final(self)@.assess.files.drop_last() == old(self)@.assess.files,
            match result {
                Ok(content) => final(self)@.assess.files.last().content == Some(content),
                Err(error) => final(self)@.assess.files.last().generator_error == Some(error),
            },
    {
        match result {
            Ok(content) => self.assess.made(content),
            Err(error) => self.assess.kept(error),
        }
    }

    /// Goes on with the answer to whether rights are granted.
    pub fn authorized(&mut self, granted: bool)
        requires
            old(self).well_formed(),
            old(self)@.demand() is Authorize,
        ensures
            final(self).well_formed(),
            final(self)@ == (InstallDriveView { granted: Some(granted), ..old(self)@ }),
    {
        self.granted = Some(granted);
    }

    /// Looks at the next assessed file.
    pub fn consider(&mut self)
        requires
            old(self).well_formed(),
            old(self)@.demand() is Consider,
        ensures
            final(self).well_formed(),
            ({
                let before = old(self)@;
                let (run, step) = install_considered(
                    before.run,
                    before.assess.files[before.settled]@,
                    before.authorized(),
                );
                final(self)@ == match step {
                    InstallStep::Install { is_managed } => InstallDriveView {
                        weighed: Some(is_managed),
                        ..before
                    },
                    _ => InstallDriveView { run, settled: before.settled + 1, ..before },
                }
            }),
    {
        let granted = match self.granted {
            Some(granted) => granted,
            None => true,
        };
        let total: usize = self.assess.count();
        proof {
            let ghost file = self@.assess.files[self.settled as int];
            assert(crate::assess_run::is_assessed(file, self@.assess.due[self.settled as int]));
            assert(self.settled < total);
        }
        match self.run.consider(self.assess.file(self.settled), granted) {
            InstallStep::Install { is_managed } => {
                self.weighed = Some(is_managed);
            },
            _ => {
                self.settled = self.settled + 1;
            },
        }
    }

    /// The file that is put in place.
    pub fn file(&self) -> (file: &AssessedAppFile)
        requires
            self.well_formed(),
            self@.demand() is Install,
        ensures
            *file == self@.assess.files[self@.settled],
            file.content is Some,
    {
        self.assess.file(self.settled)
    }

    /// Whether what stands in the way is overwritten.
    pub fn force(&self) -> (force: bool)
        ensures
            force == self@.force,
    {
        self.force
    }

    /// Whether this is a preview.
    pub fn dry_run(&self) -> (dry_run: bool)
        ensures
            dry_run == self@.dry_run,
    {
        self.dry_run
    }

    /// Goes on with what came of putting the file in place.
    pub fn installed(&mut self, result: Result<InstallOutcome, String>)
        requires
            old(self).well_formed(),
            old(self)@.demand() is Install,
        ensures
            final(self).well_formed(),
            final(self)@ == (InstallDriveView {
                run: install_recorded(
                    old(self)@.run,
                    old(self)@.assess.files[old(self)@.settled]@,
                    install_result(result),
                ),
                weighed: None,
                settled: old(self)@.settled + 1,
                ..old(self)@
            }),
    {
        let total: usize = self.assess.count();
        assert(self.settled < total);
        self.run.record(self.assess.file(self.settled), result);
        self.weighed = None;
        self.settled = self.settled + 1;
    }

    /// The hooks that are run for the categories that changed.
    pub fn hook_request(&self) -> (request: AppHookRequest)
        requires
            self.well_formed(),
        ensures
            category_views(request.categories@) == self@.run.categories,
            texts(request.changed@) == in_order(self@.run.changed),
            request.phase == AppHookPhase::PostInstall,
            request.show_success,
    {
        AppHookRequest {
            categories: copy_categories(self.categories()),
            changed: copy_texts(self.changed().as_slice()),
            phase: AppHookPhase::PostInstall,
            show_success: true,
        }
    }

    /// Goes on after the receipts were made durable.
    pub fn receipts_saved(&mut self)
        requires
            old(self).well_formed(),
            old(self)@.demand() is SaveReceipts,
        ensures
            final(self).well_formed(),
            final(self)@ == (InstallDriveView { saved: true, ..old(self)@ }),
    {
        self.saved = true;
    }

    /// Goes on after the hooks ran, with what is reported of them.
    pub fn hooks_ran(&mut self, outcomes: Vec<LifecycleOutcomeV1>)
        requires
            old(self).well_formed(),
            old(self)@.demand() is Hooks,
        ensures
            final(self).well_formed(),
            final(self)@ == (InstallDriveView {
                hooked: true,
                run: RunView {
                    outcomes: old(self)@.run.outcomes + outcome_views(outcomes@),
                    ..old(self)@.run
                },
                ..old(self)@
            }),
    {
        self.run.note_all(outcomes);
        self.hooked = true;
    }

    /// The report of a finished install.
    pub fn finish(self) -> (report: AppLifecycleReport)
        requires
            self.well_formed(),
            self@.demand() is Finish,
        ensures
            report.lifecycle.operation == LifecycleOperation::Install,
            report.lifecycle.dry_run == self@.dry_run,
            category_views(report.categories@) == self@.run.categories,
            outcome_views(report.lifecycle.outcomes@) == self@.run.outcomes,
            crate::app_types::file_report_views(report.files@) == self@.run.files,
    {
        self.run.into_report()
    }
}

/// Every file is assessed, and rights were asked for, before anything is put in
/// place: generators run before the first write.
pub proof fn law_generators_come_first(drive: InstallDriveView)
    requires
        drive.well_formed(),
    ensures
        drive.demand() is Install ==> {
            &&& drive.assess.files.len() == drive.assess.due.len()
            &&& drive.asks() ==> drive.granted is Some
        },
{
}

/// A preview saves no receipts and runs no hooks; an install that is none does both,
/// in that order, before it ends.
pub proof fn law_preview_saves_nothing(drive: InstallDriveView)
    requires
        drive.well_formed(),
    ensures
        drive.dry_run ==> !(drive.demand() is SaveReceipts) && !(drive.demand() is Hooks),
        !drive.dry_run && drive.demand() is Finish ==> drive.saved && drive.hooked,
        drive.demand() is Hooks ==> drive.saved,
{
}

/// An install starts only with receipts that the program can read: no demand is made
/// of the host before their version was looked at.
pub proof fn law_unsupported_receipts_stop_an_install(
    core: CoreRuntime,
    manifest: AppManifest,
    target: Option<Seq<char>>,
)
    requires
        !is_supported(manifest.schema_version),
    ensures
        install_start(core, manifest, target) is Err,
{
}

/// The content that is put in place is the one that was assessed, and the receipt
/// that is recorded is of the same assessment.
pub proof fn law_one_assessment_serves_install_and_receipt(
    drive: InstallDriveView,
    hash: u64,
)
    requires
        drive.well_formed(),
        drive.demand() is Install,
        !drive.dry_run,
    ensures
        ({
            let file = drive.assess.files[drive.settled];
            let due = drive.assess.due[drive.settled];
            let after = install_recorded(
                drive.run,
                file@,
                crate::app_lifecycle::InstallResultView::Installed { hash },
            );
            &&& file.content is Some
            &&& file.destination@ == due.destination
            &&& after.entries == crate::manifest::upserted(
                drive.run.entries,
                crate::app_lifecycle::receipt_of(
                    file@,
                    hash,
                    crate::app_lifecycle::kept_backup(drive.run.entries, due.destination),
                ),
            )
            &&& after.changed.contains(due.category)
        }),
{
    let file = drive.assess.files[drive.settled];
    assert(crate::assess_run::is_assessed(file, drive.assess.due[drive.settled]));
}

} // verus!
