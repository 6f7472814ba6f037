//! A refresh of generated files, one demand at a time.
//!
//! The receipts have to be readable, the files installed and the rights granted
//! before a generator runs. Receipts are saved, and hooks run, only where something
//! changed.

use vstd::prelude::*;
use vstd::string::*;

use crate::app_flow::{refreshed_places, select_refreshed};
use crate::app_install::{
    desired_app_hash, desired_hash_of, installed_app_hash, installed_hash_of, InstallOutcome,
};
use crate::app_lifecycle::{asks_for_admin, fresh_run, RunView};
use crate::app_metadata::MetadataFault;
use crate::app_refresh::{
    decide_refresh, lemma_refreshed_files_are_generated, refresh_candidates, refresh_decision,
    refresh_files, refresh_recorded, refresh_result, RefreshDecision, RefreshFault, RefreshResult,
    RefreshResultView, RefreshRun,
};
use crate::app_scope::{ScopeFault, ScopeFaultView};
use crate::app_types::{
    category_views, copy_categories, file_report_views, AppCategory, AppCategoryView, AppFile,
    AppGeneratorRequest, AppHookPhase, AppHookRequest, AppLifecycleReport, AppRefreshRequest,
};
use crate::context::{env_lookup, env_pairs, env_value, platform_style, RuntimeContext};
use crate::install_drive::{StartFault, StartFaultView};
use crate::json::JsonFault;
use crate::lifecycle::{outcome_views, LifecycleOperation, LifecycleOutcomeV1};
use crate::manifest::{
    dest_index, is_supported, lemma_dest_index, AppEntry, AppEntryView, AppInstallStrategy,
    AppManifest, APP_MANIFEST_SCHEMA_VERSION,
};
use crate::plan::optional_text;
use crate::runtime::{app_categories_of, destination_in, CoreRuntime};
use crate::sorted::in_order;
use crate::text::{copy_texts, joined, texts};

verus! {

/// Why a refresh does not start.
#[derive(Debug)]
pub enum RefreshStartFault {
    Start { fault: StartFault },
    /// There is nothing to refresh, in words.
    Nothing { message: String },
}

/// Why a refresh does not start, by its values.
pub ghost enum RefreshStartView {
    Start { fault: StartFaultView },
    Nothing { message: Seq<char> },
}

impl View for RefreshStartFault {
    type V = RefreshStartView;

    open spec fn view(&self) -> RefreshStartView {
        match self {
            RefreshStartFault::Start { fault } => RefreshStartView::Start { fault: fault@ },
            RefreshStartFault::Nothing { message } => RefreshStartView::Nothing {
                message: message@,
            },
        }
    }
}

/// A file that is refreshed.
#[derive(Clone, Debug)]
pub struct RefreshFile {
    pub file: AppFile,
    pub destination: String,
    pub entry: AppEntry,
}

/// What a refresh asks for next.
#[derive(Clone, Copy, Debug, PartialEq, Eq, Structural)]
pub enum RefreshDemand {
    /// Ask for the rights that this many files need.
    Authorize { count: usize },
    /// The rights were not granted: nothing is refreshed.
    Refuse,
    /// Look at a file; the host has nothing to do.
    Consider { index: usize },
    Generate { index: usize },
    /// Apply the transforms of the file to what its generator made.
    Transform { index: usize },
    /// Read what stands at the destination.
    Read { index: usize },
    Install { index: usize },
    SaveReceipts,
    Hooks,
    Finish,
}

/// How far the file at hand came.
#[derive(Clone, Copy, Debug, PartialEq, Eq, Structural)]
pub enum RefreshStage {
    Begin,
    Generate,
    Transform,
    Read,
    Install,
}

/// A refresh under way.
#[derive(Clone, Debug)]
pub struct RefreshDrive {
    category: String,
    force: bool,
    running_as_admin: bool,
    files: Vec<RefreshFile>,
    granted: Option<bool>,
    stage: RefreshStage,
    content: Vec<u8>,
    desired: u64,
    settled: usize,
    saved: bool,
    hooked: bool,
    run: RefreshRun,
}

/// A refresh under way, by its values.
pub ghost struct RefreshDriveView {
    pub category: Seq<char>,
    pub force: bool,
    pub running_as_admin: bool,
    pub files: Seq<RefreshFile>,
    pub granted: Option<bool>,
    pub stage: RefreshStage,
    /// What the generator made; once transformed, what is to be installed.
    pub content: Seq<u8>,
    pub desired: u64,
    pub settled: int,
    pub saved: bool,
    pub hooked: bool,
    pub run: RunView,
}

impl View for RefreshDrive {
    type V = RefreshDriveView;

    closed spec fn view(&self) -> RefreshDriveView {
        RefreshDriveView {
            category: self.category@,
            force: self.force,
            running_as_admin: self.running_as_admin,
            files: self.files@,
            granted: self.granted,
            stage: self.stage,
            content: self.content@,
            desired: self.desired,
            settled: self.settled as int,
            saved: self.saved,
            hooked: self.hooked,
            run: self.run@,
        }
    }
}

/// How many of the files need the rights of an administrator.
pub open spec fn privileged_refreshes(files: Seq<RefreshFile>) -> nat
    decreases files.len(),
{
    if files.len() == 0 {
        0
    } else {
        privileged_refreshes(files.drop_last()) + if files.last().file.requires_admin {
            1nat
        } else {
            0nat
        }
    }
}

fn count_privileged(files: &Vec<RefreshFile>) -> (count: usize)
    ensures
        count == privileged_refreshes(files@),
{
    let mut count: usize = 0;
    let mut i: usize = 0;
    proof {
        assert(files@.take(0) =~= Seq::<RefreshFile>::empty());
    }
    while i < files.len()
        invariant
            i <= files.len(),
            count <= i,
            count == privileged_refreshes(files@.take(i as int)),
        decreases files.len() - i,
    {
        proof {
            assert(files@.take(i as int + 1).drop_last() =~= files@.take(i as int));
            assert(files@.take(i as int + 1).last() == files@[i as int]);
        }
        if files[i].file.requires_admin {
            count += 1;
        }
        i += 1;
    }
    proof {
        assert(files@.take(files@.len() as int) =~= files@);
    }
    count
}

/// A fault of managed keys in words.
pub open spec fn fault_text(fault: JsonFault, keys: Option<Seq<Seq<char>>>) -> Seq<char> {
    match keys {
        Some(keys) => fault.full_text(keys),
        None => fault.text(),
    }
}

/// A fault of the managed keys of a file in words.
pub fn fault_message(fault: JsonFault, file: &AppFile) -> (message: String)
    ensures
        message@ == fault_text(fault, file@.install_strategy),
{
    match &file.install_strategy {
        AppInstallStrategy::JsonMerge { managed_keys } => fault.message(managed_keys.as_slice()),
        AppInstallStrategy::Copy => fault.summary().to_owned(),
    }
}

impl RefreshDriveView {
    /// Whether rights have to be asked for before a generator runs.
    pub open spec fn asks(&self) -> bool {
        privileged_refreshes(self.files) > 0 && !self.running_as_admin
    }

    /// Nothing runs before rights were granted where they are needed; receipts are
    /// saved, and hooks run, once every file is settled and something changed.
    pub open spec fn well_formed(&self) -> bool {
        &&& self.run.version == APP_MANIFEST_SCHEMA_VERSION
        &&& self.run.operation == LifecycleOperation::Update
        &&& !self.run.dry_run
        &&& 0 <= self.settled <= self.files.len()
        &&& forall|i: int|
            0 <= i < self.files.len() ==> (#[trigger] self.files[i]).file.generator is Some
        &&& self.stage != RefreshStage::Begin || self.settled > 0 || self.saved ==> {
            &&& self.granted != Some(false)
            &&& self.asks() ==> self.granted == Some(true)
        }
        &&& self.stage != RefreshStage::Begin ==> self.settled < self.files.len()
        &&& self.saved ==> self.settled == self.files.len() && self.run.changed != Set::<
            Seq<char>,
        >::empty()
        &&& self.hooked ==> self.saved
    }

    /// What the refresh asks for next.
    pub open spec fn demand(&self) -> RefreshDemand {
        let index = self.settled as usize;
        if self.granted is None && self.asks() {
            RefreshDemand::Authorize { count: privileged_refreshes(self.files) as usize }
        } else if self.granted == Some(false) {
            RefreshDemand::Refuse
        } else if self.settled < self.files.len() {
            match self.stage {
                RefreshStage::Begin => RefreshDemand::Consider { index },
                RefreshStage::Generate => RefreshDemand::Generate { index },
                RefreshStage::Transform => RefreshDemand::Transform { index },
                RefreshStage::Read => RefreshDemand::Read { index },
                RefreshStage::Install => RefreshDemand::Install { index },
            }
        } else if self.run.changed != Set::<Seq<char>>::empty() && !self.saved {
            RefreshDemand::SaveReceipts
        } else if self.run.changed != Set::<Seq<char>>::empty() && !self.hooked {
            RefreshDemand::Hooks
        } else {
            RefreshDemand::Finish
        }
    }

    /// The file at hand.
    pub open spec fn at(&self) -> RefreshFile {
        self.files[self.settled]
    }

    /// Goes on to the next file with what came of this one.
    pub open spec fn done_with(&self, result: RefreshResultView) -> RefreshDriveView {
        RefreshDriveView {
            run: refresh_recorded(
                self.run,
                self.category,
                self.at().file@,
                self.at().destination@,
                self.at().entry@,
                result,
            ),
            stage: RefreshStage::Begin,
            settled: self.settled + 1,
            ..*self
        }
    }

    /// What reading the destination leads to.
    pub open spec fn after_read(&self, current: Option<Seq<u8>>) -> RefreshDriveView {
        let found = match current {
            Some(content) => installed_hash_of(self.at().file@.install_strategy, content),
            None => Ok(None),
        };
        match found {
            Err(fault) => self.done_with(
                RefreshResultView::Failed {
                    error: fault_text(fault, self.at().file@.install_strategy),
                },
            ),
            Ok(found) => match refresh_decision(
                self.at().entry.content_hash,
                self.desired,
                found,
                self.force,
            ) {
                RefreshDecision::Unchanged => self.done_with(RefreshResultView::Unchanged),
                RefreshDecision::UserModified => self.done_with(RefreshResultView::UserModified),
                RefreshDecision::Install => RefreshDriveView {
                    stage: RefreshStage::Install,
                    ..*self
                },
            },
        }
    }
}

/// The places of the candidates of a refresh.
pub open spec fn candidate_places(
    context: RuntimeContext,
    category: AppCategoryView,
    candidates: Seq<usize>,
) -> Result<Seq<Seq<char>>, MetadataFault>
    decreases candidates.len(),
{
    if candidates.len() == 0 {
        Ok(Seq::empty())
    } else {
        match candidate_places(context, category, candidates.drop_last()) {
            Err(error) => Err(error),
            Ok(before) => match destination_in(
                context,
                category,
                category.files[candidates.last() as int],
            ) {
                Ok(path) => Ok(before.push(path)),
                Err(error) => Err(error),
            },
        }
    }
}

proof fn lemma_place_error_stays(
    context: RuntimeContext,
    category: AppCategoryView,
    candidates: Seq<usize>,
    count: int,
)
    requires
        0 <= count <= candidates.len(),
        candidate_places(context, category, candidates.take(count)) is Err,
    ensures
        candidate_places(context, category, candidates) == candidate_places(
            context,
            category,
            candidates.take(count),
        ),
    decreases candidates.len() - count,
{
    if count == candidates.len() {
        assert(candidates.take(count) =~= candidates);
    } else {
        assert(candidates.take(count + 1).drop_last() =~= candidates.take(count));
        lemma_place_error_stays(context, category, candidates, count + 1);
    }
}

/// The files that a refresh is about, as places in the category and as paths; or why
/// it does not start.
pub open spec fn refresh_start(core: CoreRuntime, manifest: AppManifest, request: AppRefreshRequest) ->
    Result<(AppCategoryView, Seq<usize>, Seq<Seq<char>>, Seq<usize>), RefreshStartView> {
    let name = request.category@;
    let asked = optional_text(request.file);
    let named = match asked {
        Some(file) => file,
        None => Seq::empty(),
    };
    match app_categories_of(core.context, core.presets@, Some(name)) {
        Err(error) => Err(
            RefreshStartView::Start {
                fault: StartFaultView::Scope { fault: ScopeFaultView::Metadata { error } },
            },
        ),
        Ok(categories) => if categories.len() == 0 {
            Err(
                RefreshStartView::Start {
                    fault: StartFaultView::Scope { fault: ScopeFaultView::CategoryNotFound },
                },
            )
        } else if !is_supported(manifest.schema_version) {
            Err(
                RefreshStartView::Start {
                    fault: StartFaultView::UnsupportedManifest {
                        version: manifest.schema_version,
                    },
                },
            )
        } else {
            let category = categories[0];
            match refresh_files(category.files, asked, platform_style(core.context.platform)) {
                Err(fault) => Err(RefreshStartView::Nothing { message: fault.text(name, named) }),
                Ok(candidates) => match candidate_places(core.context, category, candidates) {
                    Err(error) => Err(
                        RefreshStartView::Start {
                            fault: StartFaultView::Scope {
                                fault: ScopeFaultView::Metadata { error },
                            },
                        },
                    ),
                    Ok(places) => match refreshed_places(manifest@, places, asked is Some) {
                        Err(fault) => Err(
                            RefreshStartView::Nothing {
                                message: fault.text(
                                    name,
                                    match fault {
                                        RefreshFault::NotInstalled { index } =>
                                            category.files[candidates[index as int] as int].source_rel,
                                        _ => named,
                                    },
                                ),
                            },
                        ),
                        Ok(chosen) => Ok((category, candidates, places, chosen)),
                    },
                },
            }
        },
    }
}

/// Whether a file is the one at a place of the category, with its receipt.
pub open spec fn is_refresh_file(
    file: RefreshFile,
    entries: Seq<AppEntryView>,
    category: AppCategoryView,
    candidates: Seq<usize>,
    places: Seq<Seq<char>>,
    chosen: usize,
) -> bool {
    &&& file.file@ == category.files[candidates[chosen as int] as int]
    &&& file.destination@ == places[chosen as int]
    &&& match dest_index(entries, places[chosen as int]) {
        Some(index) => file.entry@ == entries[index],
        None => false,
    }
}

impl RefreshDrive {
    /// Whether the refresh stands as `RefreshDriveView::well_formed` says.
    pub closed spec fn well_formed(&self) -> bool {
        self@.well_formed() && self.run.well_formed()
    }

    fn places_for(
        core: &CoreRuntime,
        category: &AppCategory,
        candidates: &Vec<usize>,
    ) -> (result: Result<Vec<String>, crate::app_dest::MetadataError>)
        requires
            forall|i: int|
                0 <= i < candidates@.len() ==> (#[trigger] candidates@[i]) < category.files@.len(),
        ensures
            match candidate_places(core.context, category@, candidates@) {
                Ok(places) => result is Ok && texts(result->Ok_0@) == places,
                Err(error) => result is Err && result->Err_0@ == error,
            },
    {
        let mut places: Vec<String> = Vec::new();
        let mut i: usize = 0;
        proof {
            assert(candidates@.take(0) =~= Seq::<usize>::empty());
            assert(texts(places@) =~= Seq::<Seq<char>>::empty());
        }
        while i < candidates.len()
            invariant
                i <= candidates.len(),
                forall|j: int|
                    0 <= j < candidates@.len() ==> (#[trigger] candidates@[j])
                        < category.files@.len(),
                candidate_places(core.context, category@, candidates@.take(i as int)) == Ok::<
                    Seq<Seq<char>>,
                    MetadataFault,
                >(texts(places@)),
            decreases candidates.len() - i,
        {
            let place: usize = candidates[i];
            proof {
                assert(candidates@.take(i as int + 1).drop_last() =~= candidates@.take(i as int));
                assert(candidates@.take(i as int + 1).last() == place);
                assert(category@.files[place as int] == category.files@[place as int]@);
            }
            match core.app_destination(category, &category.files[place]) {
                Ok(path) => {
                    let ghost before = places@;
                    let ghost view = path@;
                    places.push(path);
                    proof {
                        assert(texts(places@) =~= texts(before).push(view));
                    }
                },
                Err(error) => {
                    proof {
                        lemma_place_error_stays(
                            core.context,
                            category@,
                            candidates@,
                            i as int + 1,
                        );
                    }
                    return Err(error);
                },
            }
            i += 1;
        }
        proof {
            assert(candidates@.take(candidates@.len() as int) =~= candidates@);
        }
        Ok(places)
    }

    /// Starts a refresh with the receipts that were read.
    pub fn start(core: &CoreRuntime, manifest: AppManifest, request: &AppRefreshRequest) -> (result:
        Result<RefreshDrive, RefreshStartFault>)
        ensures
            match refresh_start(*core, manifest, *request) {
                Err(fault) => result is Err && result->Err_0@ == fault,
                Ok((category, candidates, places, chosen)) => {
                    &&& result is Ok
                    &&& result->Ok_0.well_formed()
                    &&& result->Ok_0@ == (RefreshDriveView {
                        category: request.category@,
                        force: request.force,
                        running_as_admin: core.context.running_as_admin,
                        files: result->Ok_0@.files,
                        granted: None,
                        stage: RefreshStage::Begin,
                        content: Seq::empty(),
                        desired: 0,
                        settled: 0,
                        saved: false,
                        hooked: false,
                        run: fresh_run(
                            LifecycleOperation::Update,
                            false,
                            APP_MANIFEST_SCHEMA_VERSION,
                            manifest@,
                            seq![category],
                        ),
                    })
                    &&& result->Ok_0@.files.len() == chosen.len()
                    &&& forall|i: int|
                        0 <= i < chosen.len() ==> is_refresh_file(
                            #[trigger] result->Ok_0@.files[i],
                            manifest@,
                            category,
                            candidates,
                            places,
                            chosen[i],
                        )
                },
            },
    {
        let name = request.category.as_str();
        let named: String = match &request.file {
            Some(file) => file.clone(),
            None => String::new(),
        };
        proof {
            assert(request.file is None ==> named@ =~= Seq::<char>::empty());
        }
        let mut categories = match core.app_categories(Some(name)) {
            Ok(categories) => categories,
            Err(error) => return Err(
                RefreshStartFault::Start {
                    fault: StartFault::Scope { fault: ScopeFault::Metadata { error } },
                },
            ),
        };
        proof {
            assert(category_views(categories@).len() == categories@.len());
        }
        if categories.len() == 0 {
            return Err(
                RefreshStartFault::Start {
                    fault: StartFault::Scope { fault: ScopeFault::CategoryNotFound },
                },
            );
        }
        proof {
            assert(category_views(categories@)[0] == categories@[0]@);
        }
        let manifest = match manifest.accept() {
            Ok(manifest) => manifest,
            Err(unsupported) => return Err(
                RefreshStartFault::Start {
                    fault: StartFault::UnsupportedManifest { version: unsupported.version },
                },
            ),
        };
        let category = categories.remove(0);
        let candidates = match refresh_candidates(
            &category,
            &request.file,
            core.context.platform.path_style(),
        ) {
            Ok(candidates) => candidates,
            Err(fault) => return Err(
                RefreshStartFault::Nothing { message: fault.message(name, named.as_str()) },
            ),
        };
        let total: usize = category.files.len();
        proof {
            assert(category@.files.len() == total);
            lemma_refreshed_files_are_generated(
                category@.files,
                optional_text(request.file),
                platform_style(core.context.platform),
            );
        }
        let places = match RefreshDrive::places_for(core, &category, &candidates) {
            Ok(places) => places,
            Err(error) => return Err(
                RefreshStartFault::Start {
                    fault: StartFault::Scope { fault: ScopeFault::Metadata { error } },
                },
            ),
        };
        proof {
            lemma_places_count(core.context, category@, candidates@);
            let total: usize = places.len();
            assert(texts(places@).len() == total);
        }
        let chosen = match select_refreshed(&manifest, &places, request.file.is_some()) {
            Ok(chosen) => chosen,
            Err(fault) => {
                proof {
                    crate::app_flow::lemma_refreshed_places(
                        manifest@,
                        texts(places@),
                        request.file is Some,
                    );
                }
                if let RefreshFault::NotInstalled { index } = fault {
                    let file = &category.files[candidates[index]];
                    proof {
                        assert(category@.files[candidates@[index as int] as int] == file@);
                    }
                    return Err(
                        RefreshStartFault::Nothing {
                            message: fault.message(name, file.source_rel.as_str()),
                        },
                    );
                }
                return Err(
                    RefreshStartFault::Nothing { message: fault.message(name, named.as_str()) },
                );
            },
        };
        proof {
            crate::app_flow::lemma_refreshed_places(
                manifest@,
                texts(places@),
                request.file is Some,
            );
        }
        let mut files: Vec<RefreshFile> = Vec::new();
        let mut i: usize = 0;
        while i < chosen.len()
            invariant
                i <= chosen.len(),
                files@.len() == i,
                texts(places@).len() == places@.len(),
                places@.len() == candidates@.len(),
                forall|j: int|
                    0 <= j < candidates@.len() ==> (#[trigger] candidates@[j])
                        < category.files@.len(),
                forall|j: int|
                    0 <= j < candidates@.len() ==> category@.files[(
                    #[trigger] candidates@[j]) as int].generator is Some,
                forall|j: int|
                    0 <= j < chosen@.len() ==> (#[trigger] chosen@[j]) < places@.len()
                        && crate::manifest::owns(manifest@, texts(places@)[chosen@[j] as int]),
                forall|j: int|
                    0 <= j < i ==> is_refresh_file(
                        #[trigger] files@[j],
                        manifest@,
                        category@,
                        candidates@,
                        texts(places@),
                        chosen@[j],
                    ) && files@[j].file.generator is Some,
            decreases chosen.len() - i,
        {
            let place: usize = chosen[i];
            let at: usize = candidates[place];
            proof {
                assert(texts(places@)[place as int] == places@[place as int]@);
                lemma_dest_index(manifest@, places@[place as int]@);
                assert(category@.files[at as int] == category.files@[at as int]@);
                assert(category@.files[candidates@[place as int] as int].generator is Some);
            }
            if let Some(entry) = manifest.find_by_dest(places[place].as_str()) {
                let file = category.files[at].copied();
                proof {
                    assert(file@.generator is Some);
                }
                files.push(
                    RefreshFile {
                        file,
                        destination: places[place].clone(),
                        entry: entry.copied(),
                    },
                );
            }
            i += 1;
        }
        let mut kept: Vec<AppCategory> = Vec::new();
        kept.push(category);
        let run = RefreshRun::start(manifest, kept);
        let drive = RefreshDrive {
            category: request.category.clone(),
            force: request.force,
            running_as_admin: core.context.running_as_admin,
            files,
            granted: None,
            stage: RefreshStage::Begin,
            content: Vec::new(),
            desired: 0,
            settled: 0,
            saved: false,
            hooked: false,
            run,
        };
        proof {
            assert(category_views(kept@) =~= seq![category@]);
            assert(drive@.content =~= Seq::<u8>::empty());
        }
        Ok(drive)
    }

    fn has_changed(&self) -> (changed: bool)
        requires
            self.well_formed(),
        ensures
            changed == (self@.run.changed != Set::<Seq<char>>::empty()),
    {
        let changed = self.run.changed();
        proof {
            let list = texts(changed@);
            if list.len() > 0 {
                assert(list.to_set().contains(list[0]));
            } else {
                assert(list.to_set() =~= Set::<Seq<char>>::empty());
            }
        }
        changed.len() > 0
    }

    /// What the refresh asks for next.
    pub fn next(&self) -> (demand: RefreshDemand)
        requires
            self.well_formed(),
        ensures
            demand == self@.demand(),
            self@.well_formed(),
    {
        let count = count_privileged(&self.files);
        let index = self.settled;
        if self.granted.is_none() && asks_for_admin(false, count, self.running_as_admin) {
            return RefreshDemand::Authorize { count };
        }
        if let Some(false) = self.granted {
            return RefreshDemand::Refuse;
        }
        if self.settled < self.files.len() {
            match self.stage {
                RefreshStage::Begin => RefreshDemand::Consider { index },
                RefreshStage::Generate => RefreshDemand::Generate { index },
                RefreshStage::Transform => RefreshDemand::Transform { index },
                RefreshStage::Read => RefreshDemand::Read { index },
                RefreshStage::Install => RefreshDemand::Install { index },
            }
        } else if self.has_changed() && !self.saved {
            RefreshDemand::SaveReceipts
        } else if self.has_changed() && !self.hooked {
            RefreshDemand::Hooks
        } else {
            RefreshDemand::Finish
        }
    }

    /// Goes on with the answer to whether rights are granted.
    pub fn authorized(&mut self, granted: bool)
        requires
            old(self).well_formed(),
            old(self)@.demand() is Authorize,
        ensures
            final(self).well_formed(),
            final(self)@ == (RefreshDriveView { granted: Some(granted), ..old(self)@ }),
    {
        self.granted = Some(granted);
    }

    fn settle(&mut self, result: RefreshResult)
        requires
            old(self).well_formed(),
            old(self)@.settled < old(self)@.files.len(),
            !old(self)@.saved,
            old(self)@.granted != Some(false),
            old(self)@.asks() ==> old(self)@.granted == Some(true),
        ensures
            final(self).well_formed(),
            final(self)@ == old(self)@.done_with(result@),
    {
        proof {
            let total: usize = self.files.len();
            assert(self.settled < total);
        }
        let at = &self.files[self.settled];
        self.run.record(
            self.category.as_str(),
            &at.file,
            at.destination.as_str(),
            &at.entry,
            result,
        );
        self.stage = RefreshStage::Begin;
        self.settled = self.settled + 1;
    }

    /// Looks at the file at hand: without the variable that its generator needs it
    /// fails.
    pub fn consider(&mut self, context: &RuntimeContext)
        requires
            old(self).well_formed(),
            old(self)@.demand() is Consider,
        ensures
            final(self).well_formed(),
            ({
                let before = old(self)@;
                let needed = before.at().file@.generator->0.when_env;
                final(self)@ == if env_lookup(env_pairs(context.env@), needed) is None {
                    before.done_with(
                        RefreshResultView::Failed {
                            error: "app '"@ + before.category + "' generator requires config env '"@
                                + needed + "'"@,
                        },
                    )
                } else {
                    RefreshDriveView { stage: RefreshStage::Generate, ..before }
                }
            }),
    {
        proof {
            assert(self@.files[self.settled as int].file.generator is Some);
            if let Some(granted) = self.granted {
                assert(granted || self.granted == Some(false));
            }
        }
        let needed: String = match &self.files[self.settled].file.generator {
            Some(generator) => generator.when_env.clone(),
            None => String::new(),
        };
        if env_value(&context.env, needed.as_str()).is_some() {
            self.stage = RefreshStage::Generate;
            return;
        }
        let mut error = joined("app '", self.category.as_str());
        error.append("' generator requires config env '");
        error.append(needed.as_str());
        error.append("'");
        self.settle(RefreshResult::Failed { error });
    }

    /// What is asked of the generator.
    pub fn generator_request(&self) -> (request: AppGeneratorRequest)
        requires
            self.well_formed(),
            self@.demand() is Generate,
        ensures
            request.category@ == self@.category,
            request.source@ == self@.at().file@.source_rel,
            request.generator@ == self@.at().file@.generator->0,
            request.explicit,
    {
        proof {
            assert(self@.files[self.settled as int].file.generator is Some);
        }
        let file = &self.files[self.settled].file;
        let generator = match &file.generator {
            Some(generator) => generator.copied(),
            None => crate::app_types::AppGenerator {
                script: String::new(),
                runtime: crate::app_types::ArtifactRuntime::Native,
                env: Vec::new(),
                when_env: String::new(),
                auto: false,
            },
        };
        AppGeneratorRequest {
            category: self.category.clone(),
            source: file.source_rel.clone(),
            generator,
            explicit: true,
        }
    }

    /// Goes on with what the generator made.
    pub fn generated(&mut self, result: Result<Option<Vec<u8>>, String>)
        requires
            old(self).well_formed(),
            old(self)@.demand() is Generate,
        ensures
            final(self).well_formed(),
            final(self)@ == match result {
                Ok(Some(content)) => RefreshDriveView {
                    stage: RefreshStage::Transform,
                    content: content@,
                    ..old(self)@
                },
                Ok(None) => old(self)@.done_with(
                    RefreshResultView::Failed {
                        error: "explicit App generator produced no content"@,
                    },
                ),
                Err(error) => old(self)@.done_with(RefreshResultView::Failed { error: error@ }),
            },
    {
        match result {
            Ok(Some(content)) => {
                self.content = content;
                self.stage = RefreshStage::Transform;
            },
            Ok(None) => {
                let error = "explicit App generator produced no content".to_owned();
                self.settle(RefreshResult::Failed { error });
            },
            Err(error) => self.settle(RefreshResult::Failed { error }),
        }
    }

    /// The file at hand.
    pub fn file(&self) -> (file: &RefreshFile)
        requires
            self.well_formed(),
            self@.settled < self@.files.len(),
        ensures
            *file == self@.at(),
    {
        &self.files[self.settled]
    }

    /// What the generator made; once transformed, what is to be installed.
    pub fn content(&self) -> (content: &Vec<u8>)
        ensures
            content@ == self@.content,
    {
        &self.content
    }

    /// Goes on with the transformed content.
    pub fn transformed(&mut self, result: Result<Vec<u8>, String>)
        requires
            old(self).well_formed(),
            old(self)@.demand() is Transform,
        ensures
            final(self).well_formed(),
            final(self)@ == match result {
                Ok(content) => match desired_hash_of(
                    old(self)@.at().file@.install_strategy,
                    content@,
                ) {
                    Ok(desired) => RefreshDriveView {
                        stage: RefreshStage::Read,
                        content: content@,
                        desired,
                        ..old(self)@
                    },
                    Err(fault) => old(self)@.done_with(
                        RefreshResultView::Failed {
                            error: fault_text(fault, old(self)@.at().file@.install_strategy),
                        },
                    ),
                },
                Err(error) => old(self)@.done_with(RefreshResultView::Failed { error: error@ }),
            },
    {
        let content = match result {
            Ok(content) => content,
            Err(error) => {
                self.settle(RefreshResult::Failed { error });
                return;
            },
        };
        let file = &self.files[self.settled].file;
        match desired_app_hash(file, content.as_slice()) {
            Ok(desired) => {
                self.desired = desired;
                self.content = content;
                self.stage = RefreshStage::Read;
            },
            Err(fault) => {
                let error = fault_message(fault, file);
                self.settle(RefreshResult::Failed { error });
            },
        }
    }

    /// Goes on with what stands at the destination.
    pub fn read(&mut self, result: Result<Option<Vec<u8>>, String>)
        requires
            old(self).well_formed(),
            old(self)@.demand() is Read,
        ensures
            final(self).well_formed(),
            final(self)@ == match result {
                Ok(Some(current)) => old(self)@.after_read(Some(current@)),
                Ok(None) => old(self)@.after_read(None),
                Err(error) => old(self)@.done_with(RefreshResultView::Failed { error: error@ }),
            },
    {
        let current = match result {
            Ok(current) => current,
            Err(error) => {
                self.settle(RefreshResult::Failed { error });
                return;
            },
        };
        let at = &self.files[self.settled];
        let found: Option<u64> = match &current {
            None => None,
            Some(content) => match installed_app_hash(&at.file, content.as_slice()) {
                Ok(found) => found,
                Err(fault) => {
                    let error = fault_message(fault, &at.file);
                    self.settle(RefreshResult::Failed { error });
                    return;
                },
            },
        };
        match decide_refresh(at.entry.content_hash, self.desired, found, self.force) {
            RefreshDecision::Unchanged => self.settle(RefreshResult::Unchanged),
            RefreshDecision::UserModified => self.settle(RefreshResult::UserModified),
            RefreshDecision::Install => {
                self.stage = RefreshStage::Install;
            },
        }
    }

    /// Goes on with what came of putting the content in place.
    pub fn installed(&mut self, result: Result<InstallOutcome, String>)
        requires
            old(self).well_formed(),
            old(self)@.demand() is Install,
        ensures
            final(self).well_formed(),
            final(self)@ == old(self)@.done_with(
                match result {
                    Ok(InstallOutcome::Installed { hash }) => RefreshResultView::Installed {
                        hash,
                    },
                    Ok(InstallOutcome::BackedUpAndInstalled { hash, .. }) =>
                        RefreshResultView::Installed { hash },
                    Ok(_) => RefreshResultView::Unchanged,
                    Err(error) => RefreshResultView::Failed { error: error@ },
                },
            ),
    {
        match result {
            Ok(outcome) => self.settle(refresh_result(&outcome)),
            Err(error) => self.settle(RefreshResult::Failed { error }),
        }
    }

    /// The receipts as they stand.
    pub fn manifest(&self) -> (manifest: &AppManifest)
        requires
            self.well_formed(),
        ensures
            manifest@ == self@.run.entries,
            manifest.schema_version == APP_MANIFEST_SCHEMA_VERSION,
    {
        self.run.manifest()
    }

    /// The categories that changed.
    pub fn changed(&self) -> (changed: &Vec<String>)
        requires
            self.well_formed(),
        ensures
            texts(changed@) == in_order(self@.run.changed),
    {
        self.run.changed()
    }

    /// The category that is refreshed.
    pub fn categories(&self) -> (categories: &Vec<AppCategory>)
        ensures
            category_views(categories@) == self@.run.categories,
    {
        &self.run.report().categories
    }

    /// The hooks that are run for the categories that changed.
    pub fn hook_request(&self) -> (request: AppHookRequest)
        requires
            self.well_formed(),
        ensures
            category_views(request.categories@) == self@.run.categories,
            texts(request.changed@) == in_order(self@.run.changed),
            request.phase == AppHookPhase::PostUpgrade,
            request.show_success,
    {
        AppHookRequest {
            categories: copy_categories(self.categories()),
            changed: copy_texts(self.changed().as_slice()),
            phase: AppHookPhase::PostUpgrade,
            show_success: true,
        }
    }

    /// Goes on after the receipts were made durable.
    pub fn receipts_saved(&mut self)
        requires
            old(self).well_formed(),
            old(self)@.demand() is SaveReceipts,
        ensures
            final(self).well_formed(),
            final(self)@ == (RefreshDriveView { saved: true, ..old(self)@ }),
    {
        self.saved = true;
    }

    /// Goes on after the hooks ran, with what is reported of them.
    pub fn hooks_ran(&mut self, outcomes: Vec<LifecycleOutcomeV1>)
        requires
            old(self).well_formed(),
            old(self)@.demand() is Hooks,
        ensures
            final(self).well_formed(),
            final(self)@ == (RefreshDriveView {
                hooked: true,
                run: RunView {
                    outcomes: old(self)@.run.outcomes + outcome_views(outcomes@),
                    ..old(self)@.run
                },
                ..old(self)@
            }),
    {
        self.run.note_all(outcomes);
        self.hooked = true;
    }

    /// The report of a finished refresh.
    pub fn finish(self) -> (report: AppLifecycleReport)
        requires
            self.well_formed(),
            self@.demand() is Finish,
        ensures
            report.lifecycle.operation == LifecycleOperation::Update,
            !report.lifecycle.dry_run,
            category_views(report.categories@) == self@.run.categories,
            outcome_views(report.lifecycle.outcomes@) == self@.run.outcomes,
            file_report_views(report.files@) == self@.run.files,
    {
        self.run.into_report()
    }
}

proof fn lemma_places_count(
    context: RuntimeContext,
    category: AppCategoryView,
    candidates: Seq<usize>,
)
    ensures
        match candidate_places(context, category, candidates) {
            Ok(places) => places.len() == candidates.len(),
            Err(_) => true,
        },
    decreases candidates.len(),
{
    if candidates.len() > 0 {
        lemma_places_count(context, category, candidates.drop_last());
    }
}

/// No generator runs, and nothing is read or written, before the rights that are
/// needed were granted.
pub proof fn law_refresh_needs_its_rights(drive: RefreshDriveView)
    requires
        drive.well_formed(),
    ensures
        drive.demand() is Generate || drive.demand() is Read || drive.demand() is Install ==> (
        drive.asks() ==> drive.granted == Some(true)),
        drive.granted == Some(false) ==> drive.demand() is Refuse,
{
}

/// Receipts are saved, and hooks run, only where a file was refreshed.
pub proof fn law_idle_refresh_saves_nothing(drive: RefreshDriveView)
    requires
        drive.well_formed(),
        drive.run.changed == Set::<Seq<char>>::empty(),
    ensures
        !(drive.demand() is SaveReceipts),
        !(drive.demand() is Hooks),
{
}

} // verus!
