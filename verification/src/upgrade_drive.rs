//! An upgrade of installed Apps, one demand at a time.
//!
//! The receipts have to be readable before anything is done. Copies of preset files
//! come first, then every file is assessed, then rights are asked for. Installed files
//! are looked at one after the other; files that are new come after them. A file that
//! moves is put in its new place before its old one is cleared, and taken back where
//! the old one cannot be cleared.

use vstd::prelude::*;
use vstd::string::*;

use crate::app_dest::MetadataError;
use crate::app_flow::{
    count_privileged_files, installed_categories, privileged_files, receipt_categories,
};
use crate::app_install::{
    desired_app_hash, desired_hash_of, installed_app_hash, installed_hash_of, InstallOutcome,
    UninstallOutcome,
};
use crate::app_lifecycle::{
    app_source_parts, app_target, asks_for_admin, receipt_of, source_parts, target_of, AssessedAppFile,
    AssessedView,
};
use crate::app_scope::{
    has_presets, upgrade_entries, upgrade_entries_of, ScopeFault, ScopeFaultView,
};
use crate::app_types::{
    category_views, copy_categories, file_report_views, AppCacheRequest, AppCategory,
    AppCategoryView, AppGeneratorRequest, AppHookPhase, AppHookRequest,
    AppUpgradeLifecycleReport, AppUpgradeRequest,
};
use crate::app_uninstall::{law_selection_belongs_to_target, selected_entries, uninstall_result};
use crate::app_upgrade::{
    prunes, asks_to_prune, decide_upgrade, installed_identity, is_cleared, relocation_cleared,
    relocation_rollback_entry, upgrade_decision, upgrade_next, NewFileStep, RelocationNext,
    fresh_upgrade, lemma_new_files_name_their_category, lemma_pruning_names_its_category, lemma_records_name_their_category, names_only, UpgradeDecision, UpgradeRun, UpgradeStep, UpgradeView,
};
use crate::assess_run::{
    due_of, lemma_due_categories, requests_generator, AssessRun, AssessRunView, DueFile,
};
use crate::assessed_files::{
    assessed_views, by_source, lemma_by_source, source_in, sources_in, AssessedFiles,
};
use crate::context::RuntimeContext;
use crate::execution_machine::optional_content;
use crate::install_drive::{StartFault, StartFaultView};
use crate::json::JsonFault;
use crate::lifecycle::{outcome_views, LifecycleOperation, LifecycleOutcomeV1};
use crate::manifest::{
    entry_views, is_supported, owns, AppEntry, AppEntryView, AppManifest,
    APP_MANIFEST_SCHEMA_VERSION,
};
use crate::path::{paths_match, same_path};
use crate::plan::optional_text;
use crate::presets::PresetFileView;
use crate::refresh_drive::{fault_message, fault_text};
use crate::runtime::{
    all_destinations, app_categories_of, law_filter_names_its_category, CoreRuntime,
};
use crate::sorted::{in_order, is_sorted_set, lemma_in_order};
use crate::text::{begins_with, copy_texts, lemma_cut_at, texts};

verus! {

/// How far an upgrade came.
#[derive(Clone, Copy, Debug, PartialEq, Eq, Structural)]
pub enum UpgradePhase {
    Loading,
    Assessing,
    Settling,
    Adding,
    Ending,
}

/// How far the installed file at hand came.
#[derive(Clone, Copy, Debug, PartialEq, Eq, Structural)]
pub enum UpgradeStage {
    Begin,
    /// Its source is gone, and the user is asked.
    Ask,
    /// Its source is gone, and it is removed.
    Prune,
    /// What stands at its places is looked at.
    Look,
    Install,
    /// It is in its new place; the old one is cleared.
    Clear,
    /// The old place could not be cleared; the new file is taken back.
    TakeBack,
}

/// What an upgrade asks for next.
#[derive(Clone, Copy, Debug, PartialEq, Eq, Structural)]
pub enum UpgradeDemand {
    /// Go on; the host has nothing to do.
    Advance,
    /// Bring the copies of the preset files of a category up to date.
    Reconcile { index: usize },
    /// Assess a file: its generator runs now, if at all.
    Generate { index: usize },
    /// Ask for the rights that this many files need.
    Authorize { count: usize },
    /// The rights were not granted: nothing is upgraded.
    Refuse,
    /// Ask whether a file whose source is gone is to be removed.
    Confirm { index: usize },
    Prune { index: usize },
    /// Say what stands at the places of a file.
    Look { index: usize },
    Install { index: usize },
    /// Clear the place where the file stood before.
    Clear { index: usize },
    /// Take the file away from its new place again.
    TakeBack { index: usize },
    /// Say whether anything stands where a new file goes.
    LookNew { index: usize },
    InstallNew { index: usize },
    SaveReceipts,
    Hooks,
    Finish,
}

/// An upgrade under way.
#[derive(Clone, Debug)]
pub struct UpgradeDrive {
    request: AppUpgradeRequest,
    external: bool,
    running_as_admin: bool,
    selected: Vec<AppEntry>,
    names: Vec<String>,
    loaded: usize,
    cache_due: bool,
    categories: Vec<AppCategory>,
    assess: AssessRun,
    files: AssessedFiles,
    granted: Option<bool>,
    settled: usize,
    stage: UpgradeStage,
    at: Option<AssessedAppFile>,
    category: String,
    file: String,
    desired: u64,
    relocated: bool,
    hash: u64,
    added: usize,
    placing: bool,
    saved: bool,
    hooked: bool,
    phase: UpgradePhase,
    run: UpgradeRun,
}

/// An upgrade under way, by its values.
pub ghost struct UpgradeDriveView {
    pub prune_stale: bool,
    pub prompt_stale: bool,
    pub show_hook_success: bool,
    pub external: bool,
    pub running_as_admin: bool,
    pub selected: Seq<AppEntry>,
    pub names: Seq<Seq<char>>,
    pub loaded: int,
    /// The copies of the category that was loaded last are not up to date yet.
    pub cache_due: bool,
    pub categories: Seq<AppCategoryView>,
    pub assess: AssessRunView,
    /// The assessed files that no receipt was held against yet, in order.
    pub files: Seq<AssessedAppFile>,
    pub granted: Option<bool>,
    pub settled: int,
    pub stage: UpgradeStage,
    pub at: Option<AssessedAppFile>,
    pub category: Seq<char>,
    pub file: Seq<char>,
    pub desired: u64,
    pub relocated: bool,
    pub hash: u64,
    pub added: int,
    pub placing: bool,
    pub saved: bool,
    pub hooked: bool,
    pub phase: UpgradePhase,
    pub run: UpgradeView,
}

impl View for UpgradeDrive {
    type V = UpgradeDriveView;

    closed spec fn view(&self) -> UpgradeDriveView {
        UpgradeDriveView {
            prune_stale: self.request.prune_stale,
            prompt_stale: self.request.prompt_stale,
            show_hook_success: self.request.show_hook_success,
            external: self.external,
            running_as_admin: self.running_as_admin,
            selected: self.selected@,
            names: texts(self.names@),
            loaded: self.loaded as int,
            cache_due: self.cache_due,
            categories: category_views(self.categories@),
            assess: self.assess@,
            files: self.files.files@,
            granted: self.granted,
            settled: self.settled as int,
            stage: self.stage,
            at: self.at,
            category: self.category@,
            file: self.file@,
            desired: self.desired,
            relocated: self.relocated,
            hash: self.hash,
            added: self.added as int,
            placing: self.placing,
            saved: self.saved,
            hooked: self.hooked,
            phase: self.phase,
            run: self.run@,
        }
    }
}

/// Whether a phase comes after every file was assessed.
pub open spec fn is_assessed_phase(phase: UpgradePhase) -> bool {
    phase == UpgradePhase::Settling || phase == UpgradePhase::Adding || phase
        == UpgradePhase::Ending
}

/// Whether each file has its content, or the error that keeps it.
pub open spec fn all_made(known: Map<Seq<char>, AssessedView>) -> bool {
    forall|source: Seq<char>| #[trigger]
        known.contains_key(source) ==> known[source].content is Some
            || known[source].generator_error is Some
}

proof fn lemma_all_made(files: Seq<AssessedView>)
    requires
        forall|i: int|
            0 <= i < files.len() ==> (#[trigger] files[i]).content is Some
                || files[i].generator_error is Some,
    ensures
        all_made(by_source(files)),
    decreases files.len(),
{
    if files.len() > 0 {
        assert(files.last() == files[files.len() - 1]);
        assert forall|i: int| 0 <= i < files.drop_last().len() implies (
        #[trigger] files.drop_last()[i]).content is Some
            || files.drop_last()[i].generator_error is Some by {
            assert(files.drop_last()[i] == files[i]);
        }
        lemma_all_made(files.drop_last());
    }
}

/// Whether each file is of one of the named categories.
pub open spec fn all_named(known: Map<Seq<char>, AssessedView>, names: Seq<Seq<char>>) -> bool {
    forall|source: Seq<char>| #[trigger]
        known.contains_key(source) ==> names.contains(known[source].category)
}

proof fn lemma_all_named(files: Seq<AssessedView>, names: Seq<Seq<char>>)
    requires
        forall|i: int| 0 <= i < files.len() ==> names.contains((#[trigger] files[i]).category),
    ensures
        all_named(by_source(files), names),
    decreases files.len(),
{
    if files.len() > 0 {
        assert(names.contains(files[files.len() - 1].category));
        assert forall|i: int| 0 <= i < files.drop_last().len() implies names.contains(
            (#[trigger] files.drop_last()[i]).category,
        ) by {
            assert(files.drop_last()[i] == files[i]);
        }
        lemma_all_named(files.drop_last(), names);
    }
}

proof fn lemma_receipt_category(entries: Seq<AppEntryView>, index: int)
    requires
        0 <= index < entries.len(),
        source_parts(entries[index].source) is Some,
    ensures
        receipt_categories(entries).contains((source_parts(entries[index].source)->0).0),
    decreases entries.len(),
{
    if index < entries.len() - 1 {
        assert(entries.drop_last()[index] == entries[index]);
        lemma_receipt_category(entries.drop_last(), index);
    }
}

impl UpgradeDriveView {
    /// Whether the upgrade stays with the categories of the receipts that it is about:
    /// the presets that were read, the files that are due, the file at hand, and all
    /// that is reported are of those categories.
    pub open spec fn stays_within(&self) -> bool {
        &&& is_sorted_set(self.names)
        &&& self.names.to_set() == receipt_categories(entry_views(self.selected))
        &&& forall|i: int|
            0 <= i < self.categories.len() ==> self.names.contains(
                (#[trigger] self.categories[i]).name,
            )
        &&& forall|i: int|
            0 <= i < self.assess.due.len() ==> self.names.contains(
                (#[trigger] self.assess.due[i]).category,
            )
        &&& all_named(by_source(assessed_views(self.files)), self.names)
        &&& self.stage != UpgradeStage::Begin ==> self.names.contains(self.category)
        &&& self.stage == UpgradeStage::Look || self.stage == UpgradeStage::Install || self.stage
            == UpgradeStage::Clear || self.stage == UpgradeStage::TakeBack ==> self.at is Some
            && self.names.contains(self.at->0.category@)
        &&& names_only(self.run, self.names)
        &&& self.hooked ==> {
            &&& self.run.updated == in_order(self.run.changed)
            &&& is_sorted_set(self.run.updated)
            &&& self.run.updated.to_set() == self.run.changed
        }
        &&& !self.hooked ==> self.run.updated.len() == 0
    }

    /// Whether rights have to be asked for before anything is changed.
    pub open spec fn asks(&self) -> bool {
        privileged_files(self.files) > 0 && !self.running_as_admin
    }

    /// Whether nothing keeps files from being changed.
    pub open spec fn may_change(&self) -> bool {
        self.granted == Some(true) || (self.granted is None && (self.settled > 0 || self.stage
            != UpgradeStage::Begin || self.phase != UpgradePhase::Settling || !self.asks()))
    }

    pub open spec fn well_formed(&self) -> bool {
        &&& self.run.version == APP_MANIFEST_SCHEMA_VERSION
        &&& self.run.operation == LifecycleOperation::Upgrade
        &&& !self.run.dry_run
        &&& self.stays_within()
        &&& 0 <= self.loaded <= self.names.len()
        &&& self.cache_due ==> self.phase == UpgradePhase::Loading && self.loaded
            < self.names.len()
        &&& self.assess.well_formed()
        &&& is_assessed_phase(self.phase) ==> self.assess.done()
        &&& is_sorted_set(sources_in(assessed_views(self.files)))
        &&& all_made(by_source(assessed_views(self.files)))
        &&& 0 <= self.settled <= self.selected.len()
        &&& 0 <= self.added <= self.files.len()
        &&& self.phase != UpgradePhase::Adding && self.phase != UpgradePhase::Ending
            ==> self.added == 0
        &&& self.stage != UpgradeStage::Begin ==> {
            &&& self.phase == UpgradePhase::Settling
            &&& self.settled < self.selected.len()
            &&& self.granted != Some(false)
        }
        &&& self.stage == UpgradeStage::Look || self.stage == UpgradeStage::Install || self.stage
            == UpgradeStage::Clear || self.stage == UpgradeStage::TakeBack ==> self.at is Some
            && self.at->0.content is Some
        &&& self.stage == UpgradeStage::Clear || self.stage == UpgradeStage::TakeBack
            ==> self.relocated
        &&& self.phase == UpgradePhase::Adding || self.phase == UpgradePhase::Ending
            ==> self.settled == self.selected.len() && self.granted != Some(false)
        &&& self.placing ==> self.phase == UpgradePhase::Adding && self.added < self.files.len()
        &&& self.saved ==> self.phase == UpgradePhase::Ending
        &&& self.hooked ==> self.saved
    }

    /// What the upgrade asks for next.
    pub open spec fn demand(&self) -> UpgradeDemand {
        let index = self.settled as usize;
        match self.phase {
            UpgradePhase::Loading => if self.cache_due {
                UpgradeDemand::Reconcile { index: self.loaded as usize }
            } else {
                UpgradeDemand::Advance
            },
            UpgradePhase::Assessing => if self.assess.done() {
                UpgradeDemand::Advance
            } else {
                UpgradeDemand::Generate { index: self.assess.files.len() as usize }
            },
            UpgradePhase::Settling => if self.granted == Some(false) {
                UpgradeDemand::Refuse
            } else if !self.may_change() {
                UpgradeDemand::Authorize { count: privileged_files(self.files) as usize }
            } else {
                match self.stage {
                    UpgradeStage::Begin => UpgradeDemand::Advance,
                    UpgradeStage::Ask => UpgradeDemand::Confirm { index },
                    UpgradeStage::Prune => UpgradeDemand::Prune { index },
                    UpgradeStage::Look => UpgradeDemand::Look { index },
                    UpgradeStage::Install => UpgradeDemand::Install { index },
                    UpgradeStage::Clear => UpgradeDemand::Clear { index },
                    UpgradeStage::TakeBack => UpgradeDemand::TakeBack { index },
                }
            },
            UpgradePhase::Adding => if self.added < self.files.len() {
                if self.placing {
                    UpgradeDemand::InstallNew { index: self.added as usize }
                } else {
                    UpgradeDemand::LookNew { index: self.added as usize }
                }
            } else {
                UpgradeDemand::Advance
            },
            UpgradePhase::Ending => if !self.saved {
                UpgradeDemand::SaveReceipts
            } else if !self.hooked {
                UpgradeDemand::Hooks
            } else {
                UpgradeDemand::Finish
            },
        }
    }

    /// The receipt at hand.
    pub open spec fn entry(&self) -> AppEntry {
        self.selected[self.settled]
    }

    /// What is to be done with the file at hand, by what stands at its places: whether
    /// anything is at the new one, and what the old one holds. Beside it the identity
    /// of the content that it is to have.
    pub open spec fn decided(&self, present: bool, current: Option<Seq<u8>>) -> Result<
        (u64, UpgradeDecision),
        JsonFault,
    > {
        let assessment = self.at->0@;
        let keys = assessment.file.install_strategy;
        let relocated = !same_path(assessment.destination, self.entry().destination@);
        let occupied = relocated && (owns(self.run.entries, assessment.destination) || present);
        let found: Result<Option<u64>, JsonFault> = match current {
            Some(content) if !occupied => installed_hash_of(keys, content),
            _ => Ok(None),
        };
        match (desired_hash_of(keys, assessment.content->0), found) {
            (Err(fault), _) => Err(fault),
            (Ok(_), Err(fault)) => Err(fault),
            (Ok(desired), Ok(found)) => Ok(
                (
                    desired,
                    upgrade_decision(
                        self.entry().content_hash,
                        desired,
                        found,
                        relocated,
                        occupied,
                    ),
                ),
            ),
        }
    }

    /// After it was decided what to do with the file at hand.
    pub open spec fn after_looked(&self, desired: u64, decision: UpgradeDecision) -> UpgradeDriveView {
        let assessment = self.at->0@;
        if decision is Install {
            UpgradeDriveView {
                stage: UpgradeStage::Install,
                desired,
                relocated: !same_path(assessment.destination, self.entry().destination@),
                ..*self
            }
        } else {
            self.done_with(
                self.run.after_decision(decision, assessment, self.category, self.file),
            )
        }
    }

    /// Goes on to the next receipt.
    pub open spec fn done_with(&self, run: UpgradeView) -> UpgradeDriveView {
        UpgradeDriveView {
            run,
            stage: UpgradeStage::Begin,
            settled: self.settled + 1,
            ..*self
        }
    }
}

/// What keeps an upgrade from starting: its receipts.
pub open spec fn upgrade_start(manifest: AppManifest, category: Option<Seq<char>>) -> Result<
    Seq<AppEntryView>,
    StartFaultView,
> {
    if !is_supported(manifest.schema_version) {
        Err(StartFaultView::UnsupportedManifest { version: manifest.schema_version })
    } else {
        match upgrade_entries_of(manifest@, category) {
            Ok(selected) => Ok(selected),
            Err(fault) => Err(StartFaultView::Scope { fault }),
        }
    }
}

fn metadata_fault(error: MetadataError) -> (fault: StartFault)
    ensures
        fault@ == (StartFaultView::Scope { fault: ScopeFaultView::Metadata { error: error@ } }),
{
    StartFault::Scope { fault: ScopeFault::Metadata { error } }
}

/// What becomes of an upgrade when the next category is read: one without presets is
/// passed over; the copies of another's files are due, unless its presets are the
/// user's own.
pub open spec fn loaded(
    context: RuntimeContext,
    presets: Seq<PresetFileView>,
    before: UpgradeDriveView,
) -> Result<UpgradeDriveView, StartFaultView> {
    let name = before.names[before.loaded];
    if !has_presets(presets, name) {
        Ok(UpgradeDriveView { loaded: before.loaded + 1, ..before })
    } else {
        match app_categories_of(context, presets, Some(name)) {
            Err(error) => Err(
                StartFaultView::Scope { fault: ScopeFaultView::Metadata { error } },
            ),
            Ok(found) => if before.external {
                Ok(
                    UpgradeDriveView {
                        categories: before.categories + found,
                        loaded: before.loaded + 1,
                        ..before
                    },
                )
            } else {
                Ok(
                    UpgradeDriveView {
                        categories: before.categories + found,
                        cache_due: true,
                        ..before
                    },
                )
            },
        }
    }
}

/// What becomes of an upgrade when the next receipt is looked at: one with a source
/// that names no file is passed over, one whose source is gone is pruned, asked about
/// or kept, and of any other the places are looked at, unless the file is settled.
pub open spec fn weighed(before: UpgradeDriveView, after: UpgradeDriveView) -> bool {
    let source = before.entry().source@;
    let known = by_source(assessed_views(before.files));
    match source_parts(source) {
        None => after == before.done_with(before.run.after_invalid()),
        Some((category, file)) => {
            let left = UpgradeDriveView {
                files: after.files,
                category,
                file,
                ..before
            };
            &&& by_source(assessed_views(after.files)) == known.remove(source)
            &&& if !known.contains_key(source) {
                after == if before.prune_stale {
                    UpgradeDriveView { stage: UpgradeStage::Prune, ..left }
                } else if before.prompt_stale {
                    UpgradeDriveView { stage: UpgradeStage::Ask, ..left }
                } else {
                    left.done_with(before.run.after_stale(category, file))
                }
            } else {
                let (run, step) = before.run.after_considered(
                    known[source],
                    category,
                    file,
                );
                if step == UpgradeStep::Weigh {
                    &&& after.at is Some
                    &&& after.at->0@ == known[source]
                    &&& after == (UpgradeDriveView {
                        at: after.at,
                        stage: UpgradeStage::Look,
                        ..left
                    })
                } else {
                    after == left.done_with(run)
                }
            }
        },
    }
}

impl UpgradeDrive {
    /// Whether the upgrade stands as `UpgradeDriveView::well_formed` says.
    pub closed spec fn well_formed(&self) -> bool {
        self@.well_formed() && self.run.well_formed()
    }

    /// Starts an upgrade with the receipts that were read.
    pub fn start(core: &CoreRuntime, manifest: AppManifest, request: AppUpgradeRequest) -> (result:
        Result<UpgradeDrive, StartFault>)
        ensures
            match upgrade_start(manifest, optional_text(request.category)) {
                Err(fault) => result is Err && result->Err_0@ == fault,
                Ok(selected) => {
                    &&& result is Ok
                    &&& result->Ok_0.well_formed()
                    &&& entry_views(result->Ok_0@.selected) == selected
                    &&& result->Ok_0@ == (UpgradeDriveView {
                        prune_stale: request.prune_stale,
                        prompt_stale: request.prompt_stale,
                        show_hook_success: request.show_hook_success,
                        external: core.context.is_external_presets,
                        running_as_admin: core.context.running_as_admin,
                        selected: result->Ok_0@.selected,
                        names: in_order(receipt_categories(selected)),
                        loaded: 0,
                        cache_due: false,
                        categories: Seq::empty(),
                        assess: AssessRunView { due: Seq::empty(), files: Seq::empty() },
                        files: Seq::empty(),
                        granted: None,
                        settled: 0,
                        stage: UpgradeStage::Begin,
                        at: None,
                        category: Seq::empty(),
                        file: Seq::empty(),
                        desired: 0,
                        relocated: false,
                        hash: 0,
                        added: 0,
                        placing: false,
                        saved: false,
                        hooked: false,
                        phase: UpgradePhase::Loading,
                        run: fresh_upgrade(APP_MANIFEST_SCHEMA_VERSION, manifest@),
                    })
                },
            },
    {
        let manifest = match manifest.accept() {
            Ok(manifest) => manifest,
            Err(unsupported) => return Err(
                StartFault::UnsupportedManifest { version: unsupported.version },
            ),
        };
        let selected = match upgrade_entries(&manifest, &request.category) {
            Ok(selected) => selected,
            Err(fault) => return Err(StartFault::Scope { fault }),
        };
        let names = installed_categories(&selected);
        let none: Vec<AssessedAppFile> = Vec::new();
        let files = AssessedFiles::new(none);
        proof {
            lemma_in_order(texts(names@));
        }
        let run = UpgradeRun::start(manifest);
        let drive = UpgradeDrive {
            request,
            external: core.context.is_external_presets,
            running_as_admin: core.context.running_as_admin,
            selected,
            names,
            loaded: 0,
            cache_due: false,
            categories: Vec::new(),
            assess: AssessRun::empty(),
            files,
            granted: None,
            settled: 0,
            stage: UpgradeStage::Begin,
            at: None,
            category: String::new(),
            file: String::new(),
            desired: 0,
            relocated: false,
            hash: 0,
            added: 0,
            placing: false,
            saved: false,
            hooked: false,
            phase: UpgradePhase::Loading,
            run,
        };
        proof {
            assert(drive@.categories =~= Seq::empty());
            assert(by_source(assessed_views(drive@.files)) =~= Map::empty());
            if drive@.files.len() > 0 {
                lemma_by_source(assessed_views(drive@.files));
                assert(by_source(assessed_views(drive@.files)).contains_key(
                    source_in(assessed_views(drive@.files)[0]),
                ));
            }
            assert(drive@.files =~= Seq::empty());
            assert(drive@.category =~= Seq::empty());
            assert(drive@.file =~= Seq::empty());
        }
        Ok(drive)
    }

    fn asks_now(&self) -> (asks: bool)
        requires
            self@.phase == UpgradePhase::Settling,
            self@.granted != Some(false),
        ensures
            asks == !self@.may_change(),
    {
        let begins = match self.stage {
            UpgradeStage::Begin => true,
            _ => false,
        };
        let asks = self.granted.is_none() && self.settled == 0 && begins && asks_for_admin(
            false,
            count_privileged_files(&self.files.files),
            self.running_as_admin,
        );
        proof {
            if let Some(granted) = self.granted {
                assert(granted || self.granted == Some(false));
            }
        }
        asks
    }

    /// What the upgrade asks for next.
    pub fn next(&self) -> (demand: UpgradeDemand)
        requires
            self.well_formed(),
        ensures
            demand == self@.demand(),
            self@.well_formed(),
    {
        let index = self.settled;
        match self.phase {
            UpgradePhase::Loading => if self.cache_due {
                UpgradeDemand::Reconcile { index: self.loaded }
            } else {
                UpgradeDemand::Advance
            },
            UpgradePhase::Assessing => if self.assess.is_done() {
                UpgradeDemand::Advance
            } else {
                UpgradeDemand::Generate { index: self.assess.count() }
            },
            UpgradePhase::Settling => {
                if let Some(false) = self.granted {
                    return UpgradeDemand::Refuse;
                }
                if self.asks_now() {
                    return UpgradeDemand::Authorize {
                        count: count_privileged_files(&self.files.files),
                    };
                }
                match self.stage {
                    UpgradeStage::Begin => UpgradeDemand::Advance,
                    UpgradeStage::Ask => UpgradeDemand::Confirm { index },
                    UpgradeStage::Prune => UpgradeDemand::Prune { index },
                    UpgradeStage::Look => UpgradeDemand::Look { index },
                    UpgradeStage::Install => UpgradeDemand::Install { index },
                    UpgradeStage::Clear => UpgradeDemand::Clear { index },
                    UpgradeStage::TakeBack => UpgradeDemand::TakeBack { index },
                }
            },
            UpgradePhase::Adding => if self.added < self.files.files.len() {
                if self.placing {
                    UpgradeDemand::InstallNew { index: self.added }
                } else {
                    UpgradeDemand::LookNew { index: self.added }
                }
            } else {
                UpgradeDemand::Advance
            },
            UpgradePhase::Ending => if !self.saved {
                UpgradeDemand::SaveReceipts
            } else if !self.hooked {
                UpgradeDemand::Hooks
            } else {
                UpgradeDemand::Finish
            },
        }
    }

    fn load(&mut self, core: &CoreRuntime) -> (result: Result<(), StartFault>)
        requires
            old(self).well_formed(),
            old(self)@.demand() is Advance,
            old(self)@.phase == UpgradePhase::Loading,
            old(self)@.loaded < old(self)@.names.len(),
        ensures
            final(self).well_formed(),
            match loaded(core.context, core.presets@, old(self)@) {
                Err(fault) => result is Err && result->Err_0@ == fault && final(self)@ == old(
                    self,
                )@,
                Ok(after) => result is Ok && final(self)@ == after,
            },
    {
        proof {
            assert(texts(self.names@)[self.loaded as int] == self.names@[self.loaded as int]@);
            let total: usize = self.names.len();
            assert(self.loaded < total);
        }
        match core.upgrade_categories(self.names[self.loaded].as_str()) {
            Err(error) => return Err(metadata_fault(error)),
            Ok(None) => {
                self.loaded = self.loaded + 1;
            },
            Ok(Some(found)) => {
                let ghost held = self.categories@;
                let mut more = found;
                let ghost added = more@;
                self.categories.append(&mut more);
                proof {
                    law_filter_names_its_category(
                        core.context,
                        core.presets@,
                        self@.names[self@.loaded],
                    );
                    assert(self.categories@ =~= held + added);
                    assert(category_views(self.categories@) =~= category_views(held)
                        + category_views(added));
                }
                if self.external {
                    self.loaded = self.loaded + 1;
                } else {
                    self.cache_due = true;
                }
            },
        }
        Ok(())
    }

    fn weigh(&mut self)
        requires
            old(self).well_formed(),
            old(self)@.demand() is Advance,
            old(self)@.phase == UpgradePhase::Settling,
            old(self)@.settled < old(self)@.selected.len(),
        ensures
            final(self).well_formed(),
            weighed(old(self)@, final(self)@),
    {
        proof {
            let total: usize = self.selected.len();
            assert(self.settled < total);
        }
        proof {
            let entries = entry_views(self.selected@);
            assert(entries[self.settled as int] == self.selected@[self.settled as int]@);
            if source_parts(entries[self.settled as int].source) is Some {
                lemma_receipt_category(entries, self.settled as int);
                assert(self@.names.to_set().contains(
                    (source_parts(entries[self.settled as int].source)->0).0,
                ));
            }
        }
        let source = self.selected[self.settled].source.clone();
        let (category, file) = match app_source_parts(source.as_str()) {
            Some(parts) => parts,
            None => {
                self.run.skip_invalid_source();
                self.settled = self.settled + 1;
                return;
            },
        };
        let found = self.files.remove(source.as_str());
        self.category = category;
        self.file = file;
        match found {
            None => {
                if prunes(self.request.prune_stale, self.request.prompt_stale, false) {
                    self.stage = UpgradeStage::Prune;
                } else if asks_to_prune(self.request.prune_stale, self.request.prompt_stale) {
                    self.stage = UpgradeStage::Ask;
                } else {
                    self.run.keep_stale(self.category.as_str(), self.file.as_str());
                    self.settled = self.settled + 1;
                }
            },
            Some(assessment) => {
                proof {
                    lemma_records_name_their_category(
                        self.run@,
                        self@.names,
                        self.selected@[self.settled as int]@,
                        assessment@,
                        self.category@,
                        self.file@,
                    );
                }
                match self.run.consider(&assessment, self.category.as_str(), self.file.as_str()) {
                    UpgradeStep::Weigh => {
                        self.at = Some(assessment);
                        self.stage = UpgradeStage::Look;
                    },
                    UpgradeStep::Recorded | UpgradeStep::MissingContent => {
                        self.settled = self.settled + 1;
                    },
                }
            },
        }
    }

    /// Goes on where the host has nothing to do: the next category is read; once all
    /// are, their files are due; once those are assessed, the receipts are looked at;
    /// after them come new files, and then the end.
    pub fn advance(&mut self, core: &CoreRuntime) -> (result: Result<(), StartFault>)
        requires
            old(self).well_formed(),
            old(self)@.demand() is Advance,
        ensures
            final(self).well_formed(),
            result is Err ==> old(self)@.phase == UpgradePhase::Loading && final(self)@ == old(
                self,
            )@,
            old(self)@.phase == UpgradePhase::Loading && old(self)@.loaded == old(
                self,
            )@.names.len() ==> {
                let before = old(self)@;
                match all_destinations(core.context, before.categories) {
                    Err(error) => result is Err && result->Err_0@ == (StartFaultView::Scope {
                        fault: ScopeFaultView::Metadata { error },
                    }),
                    Ok(_) => match due_of(core.context, before.categories) {
                        Err(error) => result is Err && result->Err_0@ == (StartFaultView::Scope {
                            fault: ScopeFaultView::Metadata { error },
                        }),
                        Ok(due) => result is Ok && final(self)@ == (UpgradeDriveView {
                            assess: AssessRunView { due, files: Seq::empty() },
                            phase: UpgradePhase::Assessing,
                            ..before
                        }),
                    },
                }
            },
            old(self)@.phase == UpgradePhase::Assessing ==> {
                &&& final(self)@ == (UpgradeDriveView {
                    files: final(self)@.files,
                    phase: UpgradePhase::Settling,
                    ..old(self)@
                })
                &&& by_source(assessed_views(final(self)@.files)) == by_source(
                    assessed_views(old(self)@.assess.files),
                )
            },
            old(self)@.phase == UpgradePhase::Settling && old(self)@.settled == old(
                self,
            )@.selected.len() ==> final(self)@ == (UpgradeDriveView {
                phase: UpgradePhase::Adding,
                ..old(self)@
            }),
            old(self)@.phase == UpgradePhase::Adding ==> final(self)@ == (UpgradeDriveView {
                phase: UpgradePhase::Ending,
                ..old(self)@
            }),
            // While categories are read, one after the other.
            old(self)@.phase == UpgradePhase::Loading && old(self)@.loaded < old(
                self,
            )@.names.len() ==> match loaded(core.context, core.presets@, old(self)@) {
                Err(fault) => result is Err && result->Err_0@ == fault && final(self)@ == old(
                    self,
                )@,
                Ok(after) => result is Ok && final(self)@ == after,
            },
            // While receipts are looked at, one after the other.
            old(self)@.phase == UpgradePhase::Settling && old(self)@.settled < old(
                self,
            )@.selected.len() ==> weighed(old(self)@, final(self)@),
    {
        proof {
            assert(texts(self.names@).len() == self.names@.len());
        }
        match self.phase {
            UpgradePhase::Loading => {
                if self.loaded < self.names.len() {
                    return self.load(core);
                }
                if let Err(error) = core.validate_app_destinations(&self.categories) {
                    return Err(metadata_fault(error));
                }
                match AssessRun::start(core, &self.categories) {
                    Ok(assess) => {
                        proof {
                            assert(assess@.files =~= Seq::<AssessedAppFile>::empty());
                            lemma_due_categories(core.context, self@.categories, self@.names);
                        }
                        self.assess = assess;
                        self.phase = UpgradePhase::Assessing;
                    },
                    Err(error) => return Err(metadata_fault(error)),
                }
            },
            UpgradePhase::Assessing => {
                proof {
                    let made = assessed_views(self.assess@.files);
                    lemma_all_made(made);
                    assert forall|i: int| 0 <= i < made.len() implies self@.names.contains(
                        (#[trigger] made[i]).category,
                    ) by {
                        assert(made[i] == self.assess@.files[i]@);
                        assert(self@.names.contains(self.assess@.due[i].category));
                    }
                    lemma_all_named(made, self@.names);
                }
                self.files = AssessedFiles::new(self.assess.copies());
                self.phase = UpgradePhase::Settling;
            },
            UpgradePhase::Settling => {
                if self.settled < self.selected.len() {
                    self.weigh();
                } else {
                    self.phase = UpgradePhase::Adding;
                }
            },
            _ => {
                self.phase = UpgradePhase::Ending;
            },
        }
        Ok(())
    }

    /// The copies that are brought up to date.
    pub fn cache_request(&self) -> (request: AppCacheRequest)
        requires
            self.well_formed(),
            self@.demand() is Reconcile,
        ensures
            request.prefix@ == app_target(self@.names[self@.loaded]),
            !request.dry_run,
            !request.remove,
            !request.purge,
            request.overwrite,
    {
        proof {
            assert(texts(self.names@)[self.loaded as int] == self.names@[self.loaded as int]@);
        }
        AppCacheRequest {
            prefix: target_of(self.names[self.loaded].as_str()),
            dry_run: false,
            remove: false,
            purge: false,
            overwrite: true,
        }
    }

    /// Goes on after copies were brought up to date.
    pub fn reconciled(&mut self)
        requires
            old(self).well_formed(),
            old(self)@.demand() is Reconcile,
        ensures
            final(self).well_formed(),
            final(self)@ == (UpgradeDriveView {
                cache_due: false,
                loaded: old(self)@.loaded + 1,
                ..old(self)@
            }),
    {
        proof {
            let total: usize = self.names.len();
            assert(texts(self.names@).len() == total);
            assert(self.loaded < total);
        }
        self.cache_due = false;
        self.loaded = self.loaded + 1;
    }

    /// The file that is assessed next.
    pub fn due(&self) -> (due: &DueFile)
        requires
            self.well_formed(),
            self@.demand() is Generate,
        ensures
            due@ == self@.assess.due[self@.assess.files.len() as int],
    {
        self.assess.next()
    }

    /// How the generator of the file that is assessed next is run, if it is.
    pub fn generator_request(&self) -> (request: Option<AppGeneratorRequest>)
        requires
            self.well_formed(),
            self@.demand() is Generate,
        ensures
            requests_generator(
                request,
                self@.assess.due[self@.assess.files.len() as int],
                false,
                false,
            ),
    {
        self.due().generator_request(false, false)
    }

    /// Goes on with the content of the file, or with the error of a generator whose
    /// file is kept.
    pub fn assessed(&mut self, result: Result<Vec<u8>, String>)
        requires
            old(self).well_formed(),
            old(self)@.demand() is Generate,
        ensures
            final(self).well_formed(),
            final(self)@ == (UpgradeDriveView { assess: final(self)@.assess, ..old(self)@ }),
            final(self)@.assess.due == old(self)@.assess.due,
            final(self)@.assess.files.len() == old(self)@.assess.files.len() + 1,
            final(self)@.assess.files.drop_last() == old(self)@.assess.files,
            match result {
                Ok(content) => final(self)@.assess.files.last().content == Some(content),
                Err(error) => final(self)@.assess.files.last().generator_error == Some(error),
            },
    {
        match result {
            Ok(content) => self.assess.made(content),
            Err(error) => self.assess.kept(error),
        }
    }

    /// Goes on with the answer to whether rights are granted.
    pub fn authorized(&mut self, granted: bool)
        requires
            old(self).well_formed(),
            old(self)@.demand() is Authorize,
        ensures
            final(self).well_formed(),
            final(self)@ == (UpgradeDriveView { granted: Some(granted), ..old(self)@ }),
    {
        proof {
            if let Some(before) = self.granted {
                assert(before || self.granted == Some(false));
            }
            assert(self@.stage == UpgradeStage::Begin);
        }
        self.granted = Some(granted);
    }

    /// Goes on with the answer to whether a file whose source is gone is removed.
    pub fn confirmed(&mut self, confirmed: bool)
        requires
            old(self).well_formed(),
            old(self)@.demand() is Confirm,
        ensures
            final(self).well_formed(),
            final(self)@ == if confirmed {
                UpgradeDriveView { stage: UpgradeStage::Prune, ..old(self)@ }
            } else {
                old(self)@.done_with(
                    old(self)@.run.after_stale(old(self)@.category, old(self)@.file),
                )
            },
    {
        if confirmed {
            self.stage = UpgradeStage::Prune;
        } else {
            self.run.keep_stale(self.category.as_str(), self.file.as_str());
            self.step_on();
        }
    }

    fn step_on(&mut self)
        requires
            old(self).well_formed(),
            old(self)@.settled < old(self)@.selected.len(),
            old(self)@.phase == UpgradePhase::Settling,
            old(self)@.granted != Some(false),
        ensures
            final(self).well_formed(),
            final(self)@ == old(self)@.done_with(old(self)@.run),
    {
        proof {
            let total: usize = self.selected.len();
            assert(self.settled < total);
        }
        self.stage = UpgradeStage::Begin;
        self.settled = self.settled + 1;
    }

    /// The receipt at hand.
    pub fn entry(&self) -> (entry: &AppEntry)
        requires
            self.well_formed(),
            self@.settled < self@.selected.len(),
        ensures
            *entry == self@.entry(),
    {
        &self.selected[self.settled]
    }

    /// Goes on with what came of removing a file whose source is gone.
    pub fn pruned(&mut self, outcome: UninstallOutcome)
        requires
            old(self).well_formed(),
            old(self)@.demand() is Prune,
        ensures
            final(self).well_formed(),
            final(self)@ == old(self)@.done_with(
                old(self)@.run.after_pruned(
                    old(self)@.entry()@,
                    old(self)@.category,
                    old(self)@.file,
                    uninstall_result(Ok(outcome)),
                ),
            ),
    {
        proof {
            lemma_pruning_names_its_category(
                self.run@,
                self@.names,
                self.selected@[self.settled as int]@,
                self.category@,
                self.file@,
                uninstall_result(Ok(outcome)),
            );
        }
        self.run.record_pruned(
            &self.selected[self.settled],
            self.category.as_str(),
            self.file.as_str(),
            outcome,
        );
        self.step_on();
    }

    /// The assessed file at hand.
    pub fn file(&self) -> (file: &AssessedAppFile)
        requires
            self.well_formed(),
            self@.demand() is Look || self@.demand() is Install || self@.demand() is Clear
                || self@.demand() is TakeBack,
        ensures
            Some(*file) == self@.at,
            file.content is Some,
    {
        match &self.at {
            Some(file) => file,
            None => &self.files.files[0],
        }
    }

    /// Whether the file at hand goes to another place than the one it stands at.
    pub fn is_relocated(&self) -> (relocated: bool)
        requires
            self.well_formed(),
            self@.demand() is Look,
        ensures
            relocated == !same_path(self@.at->0.destination@, self@.entry().destination@),
    {
        !paths_match(
            self.file().destination.as_str(),
            self.selected[self.settled].destination.as_str(),
        )
    }

    /// Whether the place that the file is put in is already the library's.
    pub fn is_managed(&self) -> (managed: bool)
        requires
            self.well_formed(),
            self@.demand() is Install,
        ensures
            managed == !self@.relocated,
    {
        !self.relocated
    }

    /// Whether the file at hand cannot go to its new place: a receipt owns it, or
    /// something stands there.
    pub fn is_occupied(&self, present: bool) -> (occupied: bool)
        requires
            self.well_formed(),
            self@.demand() is Look,
        ensures
            occupied == (!same_path(self@.at->0.destination@, self@.entry().destination@) && (owns(
                self@.run.entries,
                self@.at->0.destination@,
            ) || present)),
    {
        self.is_relocated() && (present || self.run.manifest().owns_destination(
            self.file().destination.as_str(),
        ))
    }

    fn decide(&self, present: bool, current: &Option<Vec<u8>>) -> (result: Result<
        (u64, UpgradeDecision),
        String,
    >)
        requires
            self.well_formed(),
            self@.demand() is Look,
        ensures
            match self@.decided(present, optional_content(*current)) {
                Ok((desired, decision)) => result == Ok::<(u64, UpgradeDecision), String>(
                    (desired, decision),
                ),
                Err(fault) => result is Err && result->Err_0@ == fault_text(
                    fault,
                    self@.at->0@.file.install_strategy,
                ),
            },
    {
        let relocated = self.is_relocated();
        let occupied = self.is_occupied(present);
        let assessment = self.file();
        let desired: u64 = match &assessment.content {
            None => vstd::pervasive::unreached(),
            Some(content) => match desired_app_hash(&assessment.file, content.as_slice()) {
                Ok(desired) => desired,
                Err(fault) => return Err(fault_message(fault, &assessment.file)),
            },
        };
        let found: Option<u64> = match current {
            Some(content) => if occupied {
                None
            } else {
                match installed_app_hash(&assessment.file, content.as_slice()) {
                    Ok(found) => found,
                    Err(fault) => return Err(fault_message(fault, &assessment.file)),
                }
            },
            None => None,
        };
        let decision = decide_upgrade(
            self.selected[self.settled].content_hash,
            desired,
            found,
            relocated,
            occupied,
        );
        Ok((desired, decision))
    }

    fn settle(&mut self, decision: UpgradeDecision) -> (installs: bool)
        requires
            old(self).well_formed(),
            old(self)@.demand() is Look,
        ensures
            final(self).well_formed(),
            final(self)@.stage == UpgradeStage::Look,
            final(self)@.settled < final(self)@.selected.len(),
            final(self)@.phase == UpgradePhase::Settling,
            final(self)@.granted != Some(false),
            installs == decision is Install,
            final(self)@ == (UpgradeDriveView {
                run: old(self)@.run.after_decision(
                    decision,
                    old(self)@.at->0@,
                    old(self)@.category,
                    old(self)@.file,
                ),
                ..old(self)@
            }),
    {
        proof {
            lemma_records_name_their_category(
                self.run@,
                self@.names,
                self.selected@[self.settled as int]@,
                self.at->0@,
                self.category@,
                self.file@,
            );
        }
        match &self.at {
            None => false,
            Some(assessment) => self.run.settle(
                decision,
                assessment,
                self.category.as_str(),
                self.file.as_str(),
            ),
        }
    }

    fn place(&mut self, desired: u64, relocated: bool)
        requires
            old(self).well_formed(),
            old(self)@.stage == UpgradeStage::Look,
        ensures
            final(self).well_formed(),
            final(self)@ == (UpgradeDriveView {
                stage: UpgradeStage::Install,
                desired,
                relocated,
                ..old(self)@
            }),
    {
        self.desired = desired;
        self.relocated = relocated;
        self.stage = UpgradeStage::Install;
    }

    /// Goes on with what stands at the places of the file: whether anything is at the
    /// new one, and what the old one holds. An error of managed keys ends the upgrade.
    pub fn looked(&mut self, present: bool, current: Option<Vec<u8>>) -> (result: Result<
        (),
        String,
    >)
        requires
            old(self).well_formed(),
            old(self)@.demand() is Look,
        ensures
            final(self).well_formed(),
            match old(self)@.decided(present, optional_content(current)) {
                Err(fault) => result is Err && result->Err_0@ == fault_text(
                    fault,
                    old(self)@.at->0@.file.install_strategy,
                ) && final(self)@ == old(self)@,
                Ok((desired, decision)) => result is Ok && final(self)@ == old(self)@.after_looked(
                    desired,
                    decision,
                ),
            },
    {
        let relocated = self.is_relocated();
        let (desired, decision) = match self.decide(present, &current) {
            Ok(decided) => decided,
            Err(error) => return Err(error),
        };
        if self.settle(decision) {
            self.place(desired, relocated);
        } else {
            self.step_on();
        }
        Ok(())
    }

    fn upgraded(&mut self)
        requires
            old(self).well_formed(),
            old(self)@.at is Some,
            old(self)@.names.contains(old(self)@.category),
            old(self)@.names.contains(old(self)@.at->0.category@),
            old(self)@.settled < old(self)@.selected.len(),
            old(self)@.phase == UpgradePhase::Settling,
            old(self)@.granted != Some(false),
        ensures
            final(self).well_formed(),
            final(self)@ == old(self)@.done_with(
                old(self)@.run.after_upgraded(
                    old(self)@.entry()@,
                    old(self)@.at->0@,
                    old(self)@.category,
                    old(self)@.file,
                    old(self)@.hash,
                    old(self)@.relocated,
                ),
            ),
    {
        proof {
            lemma_records_name_their_category(
                self.run@,
                self@.names,
                self.selected@[self.settled as int]@,
                self.at->0@,
                self.category@,
                self.file@,
            );
        }
        if let Some(assessment) = &self.at {
            self.run.record_upgraded(
                &self.selected[self.settled],
                assessment,
                self.category.as_str(),
                self.file.as_str(),
                self.hash,
                self.relocated,
            );
        }
        self.step_on();
    }

    /// Goes on with what came of putting the file in place.
    pub fn installed(&mut self, result: Result<InstallOutcome, String>)
        requires
            old(self).well_formed(),
            old(self)@.demand() is Install,
        ensures
            final(self).well_formed(),
            ({
                let before = old(self)@;
                final(self)@ == match result {
                    Err(error) => before.done_with(
                        before.run.after_failed(
                            before.at->0@,
                            before.category,
                            before.file,
                            "app_upgrade_failed"@,
                            error@,
                        ),
                    ),
                    Ok(outcome) => {
                        let hash = match outcome {
                            InstallOutcome::Installed { hash } => hash,
                            InstallOutcome::BackedUpAndInstalled { hash, .. } => hash,
                            _ => before.desired,
                        };
                        let placed = UpgradeDriveView { hash, ..before };
                        if before.relocated {
                            UpgradeDriveView { stage: UpgradeStage::Clear, ..placed }
                        } else {
                            placed.done_with(
                                before.run.after_upgraded(
                                    before.entry()@,
                                    before.at->0@,
                                    before.category,
                                    before.file,
                                    hash,
                                    false,
                                ),
                            )
                        }
                    },
                }
            }),
    {
        let next = upgrade_next(self.relocated, result.is_ok(), None);
        match result {
            Err(error) => {
                if let Some(assessment) = &self.at {
                    self.run.record_failed(
                        assessment,
                        self.category.as_str(),
                        self.file.as_str(),
                        "app_upgrade_failed",
                        error,
                    );
                }
                self.step_on();
            },
            Ok(outcome) => {
                self.hash = installed_identity(&outcome, self.desired);
                match next {
                    RelocationNext::ClearOld => {
                        self.stage = UpgradeStage::Clear;
                    },
                    _ => self.upgraded(),
                }
            },
        }
    }

    /// Goes on with what came of clearing the old place.
    pub fn cleared(&mut self, result: Result<UninstallOutcome, String>)
        requires
            old(self).well_formed(),
            old(self)@.demand() is Clear,
        ensures
            final(self).well_formed(),
            ({
                let before = old(self)@;
                final(self)@ == if is_cleared(uninstall_result(result)) {
                    before.done_with(
                        before.run.after_upgraded(
                            before.entry()@,
                            before.at->0@,
                            before.category,
                            before.file,
                            before.hash,
                            true,
                        ),
                    )
                } else {
                    UpgradeDriveView { stage: UpgradeStage::TakeBack, ..before }
                }
            }),
    {
        match upgrade_next(true, true, Some(relocation_cleared(&result))) {
            RelocationNext::TakeBack => {
                self.stage = UpgradeStage::TakeBack;
            },
            _ => self.upgraded(),
        }
    }

    /// The receipt by which the file is taken away from its new place again.
    pub fn take_back_entry(&self) -> (entry: AppEntry)
        requires
            self.well_formed(),
            self@.demand() is TakeBack,
        ensures
            entry@ == (AppEntryView {
                source: self@.entry()@.source,
                destination: self@.at->0@.destination,
                backup: None,
                content_hash: self@.hash,
                managed_keys: self@.at->0@.file.install_strategy,
                uses_env: true,
                requires_admin: self@.at->0@.file.requires_admin,
            }),
    {
        relocation_rollback_entry(&self.selected[self.settled], self.file(), self.hash)
    }

    /// Goes on after the file was taken back.
    pub fn taken_back(&mut self)
        requires
            old(self).well_formed(),
            old(self)@.demand() is TakeBack,
        ensures
            final(self).well_formed(),
            final(self)@ == old(self)@.done_with(
                old(self)@.run.after_rollback(old(self)@.category, old(self)@.file),
            ),
    {
        self.run.record_relocation_rollback(self.category.as_str(), self.file.as_str());
        self.step_on();
    }

    /// The new file at hand.
    pub fn new_file(&self) -> (file: &AssessedAppFile)
        requires
            self.well_formed(),
            self@.demand() is LookNew || self@.demand() is InstallNew,
        ensures
            *file == self@.files[self@.added],
    {
        &self.files.files[self.added]
    }

    /// Goes on with whether anything stands where the new file goes.
    pub fn looked_new(&mut self, present: bool)
        requires
            old(self).well_formed(),
            old(self)@.demand() is LookNew,
        ensures
            final(self).well_formed(),
            ({
                let before = old(self)@;
                let (run, step) = before.run.after_new_considered(
                    before.files[before.added]@,
                    present,
                );
                final(self)@ == match step {
                    NewFileStep::Install => UpgradeDriveView { placing: true, ..before },
                    NewFileStep::Done => UpgradeDriveView {
                        run,
                        added: before.added + 1,
                        ..before
                    },
                }
            }),
    {
        proof {
            let total: usize = self.files.files.len();
            assert(self.added < total);
        }
        match self.run.consider_new(&self.files.files[self.added], present) {
            NewFileStep::Install => {
                self.placing = true;
            },
            NewFileStep::Done => {
                self.added = self.added + 1;
            },
        }
    }

    /// Goes on with what came of putting the new file in place.
    pub fn installed_new(&mut self, result: Result<InstallOutcome, String>)
        requires
            old(self).well_formed(),
            old(self)@.demand() is InstallNew,
        ensures
            final(self).well_formed(),
            ({
                let before = old(self)@;
                let assessment = before.files[before.added]@;
                final(self)@ == (UpgradeDriveView {
                    run: match result {
                        Ok(outcome) => before.run.after_new(assessment, outcome),
                        Err(error) => before.run.after_failed(
                            assessment,
                            assessment.category,
                            assessment.file.source_rel,
                            "app_install_failed"@,
                            error@,
                        ),
                    },
                    placing: false,
                    added: before.added + 1,
                    ..before
                })
            }),
    {
        proof {
            let total: usize = self.files.files.len();
            assert(self.added < total);
        }
        let assessment = &self.files.files[self.added];
        proof {
            let views = assessed_views(self.files.files@);
            lemma_by_source(views);
            assert(views[self.added as int] == assessment@);
            assert(by_source(views).contains_key(source_in(views[self.added as int])));
            lemma_records_name_their_category(
                self.run@,
                self@.names,
                receipt_of(assessment@, 0, None),
                assessment@,
                assessment@.category,
                assessment@.file.source_rel,
            );
            if result is Ok {
                lemma_new_files_name_their_category(
                    self.run@,
                    self@.names,
                    assessment@,
                    result->Ok_0,
                );
            }
        }
        match result {
            Ok(outcome) => self.run.record_new(assessment, outcome),
            Err(error) => self.run.record_failed(
                assessment,
                assessment.category.as_str(),
                assessment.file.source_rel.as_str(),
                "app_install_failed",
                error,
            ),
        }
        self.placing = false;
        self.added = self.added + 1;
    }

    /// The receipts as they stand.
    pub fn manifest(&self) -> (manifest: &AppManifest)
        requires
            self.well_formed(),
        ensures
            manifest@ == self@.run.entries,
            manifest.schema_version == APP_MANIFEST_SCHEMA_VERSION,
    {
        self.run.manifest()
    }

    /// The categories that changed.
    pub fn changed(&self) -> (changed: &Vec<String>)
        requires
            self.well_formed(),
        ensures
            texts(changed@) == in_order(self@.run.changed),
    {
        self.run.changed()
    }

    /// The categories that were read.
    pub fn categories(&self) -> (categories: &Vec<AppCategory>)
        ensures
            category_views(categories@) == self@.categories,
    {
        &self.categories
    }

    /// The hooks that are run for the categories that changed.
    pub fn hook_request(&self) -> (request: AppHookRequest)
        requires
            self.well_formed(),
        ensures
            category_views(request.categories@) == self@.categories,
            texts(request.changed@) == in_order(self@.run.changed),
            request.phase == AppHookPhase::PostUpgrade,
            request.show_success == self@.show_hook_success,
    {
        AppHookRequest {
            categories: copy_categories(self.categories()),
            changed: copy_texts(self.changed().as_slice()),
            phase: AppHookPhase::PostUpgrade,
            show_success: self.request.show_hook_success,
        }
    }

    /// Goes on after the receipts were made durable.
    pub fn receipts_saved(&mut self)
        requires
            old(self).well_formed(),
            old(self)@.demand() is SaveReceipts,
        ensures
            final(self).well_formed(),
            final(self)@ == (UpgradeDriveView { saved: true, ..old(self)@ }),
    {
        self.saved = true;
    }

    /// Goes on after the hooks ran, with what is reported of them.
    pub fn hooks_ran(&mut self, outcomes: Vec<LifecycleOutcomeV1>)
        requires
            old(self).well_formed(),
            old(self)@.demand() is Hooks,
        ensures
            final(self).well_formed(),
            final(self)@ == (UpgradeDriveView {
                hooked: true,
                run: UpgradeView {
                    outcomes: old(self)@.run.outcomes + outcome_views(outcomes@),
                    updated: in_order(old(self)@.run.changed),
                    ..old(self)@.run
                },
                ..old(self)@
            }),
    {
        self.run.note_all(outcomes);
        self.run.name_updated();
        self.hooked = true;
    }

    /// The report of a finished upgrade.
    pub fn finish(self) -> (report: AppUpgradeLifecycleReport)
        requires
            self.well_formed(),
            self@.demand() is Finish,
        ensures
            report.lifecycle.operation == LifecycleOperation::Upgrade,
            !report.lifecycle.dry_run,
            outcome_views(report.lifecycle.outcomes@) == self@.run.outcomes,
            file_report_views(report.files@) == self@.run.files,
            texts(report.updated_categories@) == self@.run.updated,
            texts(report.restart_hints@) == in_order(self@.run.restart_hints),
            report.skipped == self@.run.skipped,
            report.failed == self@.run.failed,
            report.user_modified == self@.run.user_modified,
    {
        self.run.into_report()
    }
}

/// Whether a demand changes files that are not copies of presets.
pub open spec fn changes_files(demand: UpgradeDemand) -> bool {
    demand is Prune || demand is Install || demand is Clear || demand is TakeBack
        || demand is InstallNew
}

/// An upgrade stays with the categories of the receipts that it is about. Each file
/// that it reports is of one of them; the categories that it names as updated are in
/// ascending order and among them; and so is the category of each file that is
/// generated or changed, and of each hook that is run.
pub proof fn law_upgrade_stays_with_installed_categories(drive: UpgradeDriveView)
    requires
        drive.well_formed(),
    ensures
        ({
            let installed = receipt_categories(entry_views(drive.selected));
            &&& forall|i: int|
                0 <= i < drive.run.files.len() ==> installed.contains(
                    (#[trigger] drive.run.files[i]).category,
                )
            &&& is_sorted_set(drive.run.updated)
            &&& forall|i: int|
                0 <= i < drive.run.updated.len() ==> installed.contains(
                    #[trigger] drive.run.updated[i],
                )
            &&& drive.demand() is Reconcile ==> installed.contains(drive.names[drive.loaded])
            &&& drive.demand() is Generate ==> installed.contains(
                drive.assess.due[drive.assess.files.len() as int].category,
            )
            &&& drive.demand() is Install || drive.demand() is Clear || drive.demand() is TakeBack
                ==> installed.contains(drive.at->0.category@)
            &&& drive.demand() is InstallNew ==> installed.contains(
                drive.files[drive.added].category@,
            )
            &&& drive.demand() is Hooks ==> drive.run.changed.subset_of(installed) && forall|i: int|
                0 <= i < drive.categories.len() ==> installed.contains(
                    (#[trigger] drive.categories[i]).name,
                )
        }),
{
    let installed = receipt_categories(entry_views(drive.selected));
    assert forall|name: Seq<char>| drive.names.contains(name) implies #[trigger]
        installed.contains(name) by {
        assert(drive.names.to_set().contains(name));
    }
    assert forall|i: int| 0 <= i < drive.run.updated.len() implies installed.contains(
        #[trigger] drive.run.updated[i],
    ) by {
        assert(drive.run.updated.to_set().contains(drive.run.updated[i]));
    }
    if drive.demand() is InstallNew {
        let views = assessed_views(drive.files);
        lemma_by_source(views);
        assert(views[drive.added] == drive.files[drive.added]@);
        assert(by_source(views).contains_key(source_in(views[drive.added])));
    }
}

/// Where one category was asked for, an upgrade is about that one only.
pub proof fn law_asked_category_is_the_only_one(
    entries: Seq<AppEntryView>,
    category: Seq<char>,
)
    requires
        !category.contains('/'),
        upgrade_entries_of(entries, Some(category)) is Ok,
    ensures
        receipt_categories(upgrade_entries_of(entries, Some(category))->Ok_0) == Set::empty().insert(
            category,
        ),
{
    let selected = selected_entries(entries, Some(category), Seq::empty());
    assert forall|i: int| 0 <= i < selected.len() implies source_parts(
        (#[trigger] selected[i]).source,
    ) is Some && (source_parts(selected[i].source)->0).0 == category by {
        law_selection_belongs_to_target(entries, Some(category), Seq::empty(), i);
        lemma_source_of(selected[i].source, category);
    }
    lemma_one_category(selected, category);
}

proof fn lemma_source_of(source: Seq<char>, category: Seq<char>)
    requires
        !category.contains('/'),
        begins_with(source, app_target(category) + "/"@),
    ensures
        source_parts(source) is Some,
        (source_parts(source)->0).0 == category,
{
    reveal_strlit("app/");
    reveal_strlit("app");
    reveal_strlit("/");
    let start = app_target(category) + "/"@;
    assert(source.take(start.len() as int) == start);
    assert forall|i: int| 0 <= i < start.len() implies source[i] == #[trigger] start[i] by {
        assert(source.take(start.len() as int)[i] == start[i]);
    }
    assert(source[0] == start[0] && source[1] == start[1] && source[2] == start[2] && source[3]
        == start[3]);
    lemma_cut_at(source, '/', 3);
    assert(source.take(3) =~= "app"@);
    let rest = source.skip(4);
    let end = category.len() as int;
    assert forall|i: int| 0 <= i < end implies #[trigger] rest[i] == category[i] by {
        assert(source[i + 4] == start[i + 4]);
    }
    assert(rest[end] == '/') by {
        assert(source[end + 4] == start[end + 4]);
    }
    assert forall|i: int| 0 <= i < end implies rest[i] != '/' by {
        assert(category.contains(category[i]));
        assert(rest[i] == category[i]);
    }
    lemma_cut_at(rest, '/', end);
    assert(rest.take(end) =~= category);
}

proof fn lemma_one_category(entries: Seq<AppEntryView>, category: Seq<char>)
    requires
        forall|i: int|
            0 <= i < entries.len() ==> source_parts((#[trigger] entries[i]).source) is Some && (
            source_parts(entries[i].source)->0).0 == category,
    ensures
        entries.len() == 0 ==> receipt_categories(entries) == Set::<Seq<char>>::empty(),
        entries.len() > 0 ==> receipt_categories(entries) == Set::empty().insert(category),
    decreases entries.len(),
{
    if entries.len() > 0 {
        assert(entries.last() == entries[entries.len() - 1]);
        assert forall|i: int| 0 <= i < entries.drop_last().len() implies source_parts(
            (#[trigger] entries.drop_last()[i]).source,
        ) is Some && (source_parts(entries.drop_last()[i].source)->0).0 == category by {
            assert(entries.drop_last()[i] == entries[i]);
        }
        lemma_one_category(entries.drop_last(), category);
        assert(receipt_categories(entries) =~= Set::empty().insert(category));
    }
}

/// No file is changed before every file was assessed, and none where rights were
/// refused.
pub proof fn law_upgrade_changes_nothing_before_it_is_assessed(drive: UpgradeDriveView)
    requires
        drive.well_formed(),
    ensures
        changes_files(drive.demand()) ==> drive.assess.done() && drive.granted != Some(false),
        drive.phase == UpgradePhase::Settling && drive.granted == Some(false)
            ==> drive.demand() is Refuse,
        drive.phase == UpgradePhase::Settling && drive.settled == 0 && drive.stage
            == UpgradeStage::Begin && drive.asks() && drive.granted is None
            ==> drive.demand() is Authorize,
{
}

/// No receipt is looked at whose file has neither content nor an error that keeps it.
pub proof fn law_upgrade_misses_no_content(
    drive: UpgradeDriveView,
    source: Seq<char>,
    category: Seq<char>,
    file: Seq<char>,
)
    requires
        drive.well_formed(),
        by_source(assessed_views(drive.files)).contains_key(source),
    ensures
        drive.run.after_considered(
            by_source(assessed_views(drive.files))[source],
            category,
            file,
        ).1 != UpgradeStep::MissingContent,
{
}

/// The old place of a file is cleared, and a file is taken back, only where the file
/// moves; receipts are saved before hooks run.
pub proof fn law_only_relocations_are_cleared(drive: UpgradeDriveView)
    requires
        drive.well_formed(),
    ensures
        drive.demand() is Clear || drive.demand() is TakeBack ==> drive.relocated,
        drive.demand() is Hooks ==> drive.saved,
{
}

} // verus!
