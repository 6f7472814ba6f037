//! What a lifecycle operation is about: its categories and its receipts.

use vstd::prelude::*;
use vstd::string::*;

use crate::app_dest::MetadataError;
use crate::app_lifecycle::{app_target, target_of};
use crate::app_metadata::MetadataFault;
use crate::app_types::{
    category_views, AppArtifactAction, AppArtifactRequest, AppArtifactView, AppCategory,
    AppCategoryView, AppFileView,
};
use crate::app_uninstall::{
    category_names_of, named_categories, select_entries, selected_entries,
};
use crate::context::RuntimeContext;
use crate::manifest::{entry_views, AppEntry, AppEntryView, AppManifest};
use crate::plan::optional_text;
use crate::presets::{PresetFileView, PresetSnapshot};
use crate::runtime::{all_destinations, app_categories_of, destination_in, CoreRuntime};
use crate::sorted::is_sorted_set;
use crate::text::{begins_with, joined, list_contains, starts_with, texts};

verus! {

/// Why an operation has nothing to work on.
#[derive(Debug)]
pub enum ScopeFault {
    Metadata { error: MetadataError },
    /// There is no category of that name.
    CategoryNotFound,
    /// No file of that category is installed.
    NotInstalled,
}

/// Why an operation has nothing to work on, by its values.
pub ghost enum ScopeFaultView {
    Metadata { error: MetadataFault },
    CategoryNotFound,
    NotInstalled,
}

impl View for ScopeFault {
    type V = ScopeFaultView;

    open spec fn view(&self) -> ScopeFaultView {
        match self {
            ScopeFault::Metadata { error } => ScopeFaultView::Metadata { error: error@ },
            ScopeFault::CategoryNotFound => ScopeFaultView::CategoryNotFound,
            ScopeFault::NotInstalled => ScopeFaultView::NotInstalled,
        }
    }
}

impl ScopeFault {
    /// The fault in words, for the name that was asked for. A fault of the metadata
    /// has the detail of its own.
    pub open spec fn text(self, name: Seq<char>) -> Seq<char> {
        match self {
            ScopeFault::Metadata { error } => error.detail@,
            ScopeFault::CategoryNotFound => "app preset category not found: "@ + name,
            ScopeFault::NotInstalled => "app preset is not installed: "@ + name,
        }
    }

    /// The fault in words.
    pub fn message(&self, name: &str) -> (message: String)
        ensures
            message@ == self.text(name@),
    {
        match self {
            ScopeFault::Metadata { error } => error.detail.clone(),
            ScopeFault::CategoryNotFound => joined("app preset category not found: ", name),
            ScopeFault::NotInstalled => joined("app preset is not installed: ", name),
        }
    }
}

/// The categories that an install is about. One that was asked for has to be there,
/// and no two files may go to the same place.
pub open spec fn install_scope_of(
    context: RuntimeContext,
    presets: Seq<PresetFileView>,
    target: Option<Seq<char>>,
) -> Result<Seq<AppCategoryView>, ScopeFaultView> {
    match app_categories_of(context, presets, target) {
        Err(error) => Err(ScopeFaultView::Metadata { error }),
        Ok(categories) => if target is Some && categories.len() == 0 {
            Err(ScopeFaultView::CategoryNotFound)
        } else {
            match all_destinations(context, categories) {
                Err(error) => Err(ScopeFaultView::Metadata { error }),
                Ok(_) => Ok(categories),
            }
        },
    }
}

/// The places of the files of a category that have one.
pub open spec fn places_of_files(
    context: RuntimeContext,
    category: AppCategoryView,
    files: Seq<AppFileView>,
) -> Seq<Seq<char>>
    decreases files.len(),
{
    if files.len() == 0 {
        Seq::empty()
    } else {
        let before = places_of_files(context, category, files.drop_last());
        match destination_in(context, category, files.last()) {
            Ok(path) => before.push(path),
            Err(_) => before,
        }
    }
}

/// The places of the files of categories that have one.
pub open spec fn places_of(context: RuntimeContext, categories: Seq<AppCategoryView>) -> Seq<
    Seq<char>,
>
    decreases categories.len(),
{
    if categories.len() == 0 {
        Seq::empty()
    } else {
        let last = categories.last();
        places_of(context, categories.drop_last()) + places_of_files(context, last, last.files)
    }
}

/// The places of the files of the target of an uninstall.
pub open spec fn target_places(
    context: RuntimeContext,
    presets: Seq<PresetFileView>,
    target: Option<Seq<char>>,
) -> Result<Seq<Seq<char>>, MetadataFault> {
    match target {
        None => Ok(Seq::empty()),
        Some(_) => match app_categories_of(context, presets, target) {
            Ok(categories) => Ok(places_of(context, categories)),
            Err(error) => Err(error),
        },
    }
}

/// The categories whose names are among those given, in order.
pub open spec fn categories_named(
    categories: Seq<AppCategoryView>,
    names: Set<Seq<char>>,
) -> Seq<AppCategoryView>
    decreases categories.len(),
{
    if categories.len() == 0 {
        Seq::empty()
    } else {
        let before = categories_named(categories.drop_last(), names);
        if names.contains(categories.last().name) {
            before.push(categories.last())
        } else {
            before
        }
    }
}

/// What an uninstall is about.
#[derive(Clone, Debug)]
pub struct UninstallScope {
    pub selected: Vec<AppEntry>,
    pub names: Vec<String>,
    pub categories: Vec<AppCategory>,
}

impl UninstallScope {
    /// The receipts that belong to the target, the names of their categories, and
    /// those of the categories that are there.
    pub open spec fn fits(
        &self,
        entries: Seq<AppEntryView>,
        target: Option<Seq<char>>,
        places: Seq<Seq<char>>,
        categories: Seq<AppCategoryView>,
    ) -> bool {
        let selected = selected_entries(entries, target, places);
        let names = named_categories(selected, target);
        &&& entry_views(self.selected@) == selected
        &&& is_sorted_set(texts(self.names@))
        &&& texts(self.names@).to_set() == names
        &&& category_views(self.categories@) == categories_named(categories, names)
    }

    /// Whether a target was asked for of which nothing is installed.
    pub fn is_idle(&self, target: &Option<String>) -> (idle: bool)
        ensures
            idle == (target is Some && self.selected@.len() == 0),
    {
        target.is_some() && self.selected.len() == 0
    }
}

/// The teardowns of categories that have one: the name of each, and its artifact.
pub open spec fn teardowns_of(categories: Seq<AppCategoryView>) -> Seq<(Seq<char>, AppArtifactView)>
    decreases categories.len(),
{
    if categories.len() == 0 {
        Seq::empty()
    } else {
        let before = teardowns_of(categories.drop_last());
        match categories.last().artifact {
            Some(artifact) => if artifact.teardown is Some {
                before.push((categories.last().name, artifact))
            } else {
                before
            },
            None => before,
        }
    }
}

/// Whether a request takes an artifact down as part of an uninstall.
pub open spec fn is_teardown(
    request: AppArtifactRequest,
    teardown: (Seq<char>, AppArtifactView),
    dry_run: bool,
) -> bool {
    &&& request.category@ == teardown.0
    &&& request.artifact@ == teardown.1
    &&& request.action == AppArtifactAction::Remove
    &&& request.implicit
    &&& request.dry_run == dry_run
}

/// The teardowns that come before the files of the categories are removed.
pub fn teardown_requests(categories: &Vec<AppCategory>, dry_run: bool) -> (requests: Vec<
    AppArtifactRequest,
>)
    ensures
        requests@.len() == teardowns_of(category_views(categories@)).len(),
        forall|i: int|
            0 <= i < requests@.len() ==> is_teardown(
                #[trigger] requests@[i],
                teardowns_of(category_views(categories@))[i],
                dry_run,
            ),
{
    let ghost all = category_views(categories@);
    let mut requests: Vec<AppArtifactRequest> = Vec::new();
    let mut i: usize = 0;
    proof {
        assert(all.take(0) =~= Seq::<AppCategoryView>::empty());
    }
    while i < categories.len()
        invariant
            i <= categories.len(),
            all == category_views(categories@),
            requests@.len() == teardowns_of(all.take(i as int)).len(),
            forall|j: int|
                0 <= j < requests@.len() ==> is_teardown(
                    #[trigger] requests@[j],
                    teardowns_of(all.take(i as int))[j],
                    dry_run,
                ),
        decreases categories.len() - i,
    {
        proof {
            assert(all.take(i as int + 1).drop_last() =~= all.take(i as int));
            assert(all.take(i as int + 1).last() == categories@[i as int]@);
        }
        if let Some(artifact) = &categories[i].artifact {
            if artifact.teardown.is_some() {
                requests.push(
                    AppArtifactRequest {
                        category: categories[i].name.clone(),
                        artifact: artifact.copied(),
                        action: AppArtifactAction::Remove,
                        implicit: true,
                        dry_run,
                    },
                );
            }
        }
        i += 1;
    }
    proof {
        assert(all.take(all.len() as int) =~= all);
    }
    requests
}

/// The receipts that an upgrade is about. Where a category was asked for, something
/// of it has to be installed.
pub open spec fn upgrade_entries_of(entries: Seq<AppEntryView>, category: Option<Seq<char>>) ->
    Result<Seq<AppEntryView>, ScopeFaultView> {
    let selected = selected_entries(entries, category, Seq::empty());
    if category is Some && selected.len() == 0 {
        Err(ScopeFaultView::NotInstalled)
    } else {
        Ok(selected)
    }
}

/// The receipts that the upgrade is about.
pub fn upgrade_entries(manifest: &AppManifest, category: &Option<String>) -> (result: Result<
    Vec<AppEntry>,
    ScopeFault,
>)
    ensures
        match upgrade_entries_of(manifest@, optional_text(*category)) {
            Ok(selected) => result is Ok && entry_views(result->Ok_0@) == selected,
            Err(fault) => result is Err && result->Err_0@ == fault,
        },
{
    let nowhere: Vec<String> = Vec::new();
    let selected = select_entries(manifest, category, &nowhere);
    proof {
        assert(texts(nowhere@) =~= Seq::<Seq<char>>::empty());
        assert(entry_views(selected@).len() == selected@.len());
    }
    if category.is_some() && selected.len() == 0 {
        return Err(ScopeFault::NotInstalled);
    }
    Ok(selected)
}

/// Whether there are preset files of a category.
pub open spec fn has_presets(presets: Seq<PresetFileView>, name: Seq<char>) -> bool {
    exists|i: int|
        0 <= i < presets.len() && begins_with(
            (#[trigger] presets[i]).path,
            app_target(name) + "/"@,
        )
}

fn finds_presets(presets: &PresetSnapshot, name: &str) -> (found: bool)
    ensures
        found == has_presets(presets@, name@),
{
    let mut prefix = target_of(name);
    prefix.append("/");
    let mut i: usize = 0;
    while i < presets.files.len()
        invariant
            i <= presets.files.len(),
            prefix@ == app_target(name@) + "/"@,
            forall|j: int|
                0 <= j < i ==> !begins_with((#[trigger] presets@[j]).path, prefix@),
        decreases presets.files.len() - i,
    {
        proof {
            assert(presets@[i as int] == presets.files@[i as int]@);
        }
        if starts_with(presets.files[i].path.as_str(), prefix.as_str()) {
            return true;
        }
        i += 1;
    }
    false
}

impl CoreRuntime {
    /// The categories that an install is about.
    pub fn install_scope(&self, target: &Option<String>) -> (result: Result<
        Vec<AppCategory>,
        ScopeFault,
    >)
        ensures
            match install_scope_of(self.context, self.presets@, optional_text(*target)) {
                Ok(categories) => result is Ok && category_views(result->Ok_0@) == categories,
                Err(fault) => result is Err && result->Err_0@ == fault,
            },
    {
        let filter: Option<&str> = match target {
            Some(target) => Some(target.as_str()),
            None => None,
        };
        let categories = match self.app_categories(filter) {
            Ok(categories) => categories,
            Err(error) => return Err(ScopeFault::Metadata { error }),
        };
        proof {
            assert(category_views(categories@).len() == categories@.len());
        }
        if target.is_some() && categories.len() == 0 {
            return Err(ScopeFault::CategoryNotFound);
        }
        match self.validate_app_destinations(&categories) {
            Ok(()) => Ok(categories),
            Err(error) => Err(ScopeFault::Metadata { error }),
        }
    }

    fn category_places(&self, category: &AppCategory, places: &mut Vec<String>)
        ensures
            texts(final(places)@) == texts(old(places)@) + places_of_files(
                self.context,
                category@,
                category@.files,
            ),
    {
        let ghost before = texts(places@);
        let ghost all = category@.files;
        let mut i: usize = 0;
        proof {
            assert(all.take(0) =~= Seq::<AppFileView>::empty());
            assert(texts(places@) =~= before + Seq::<Seq<char>>::empty());
        }
        while i < category.files.len()
            invariant
                i <= category.files.len(),
                all == category@.files,
                texts(places@) == before + places_of_files(
                    self.context,
                    category@,
                    all.take(i as int),
                ),
            decreases category.files.len() - i,
        {
            let ghost held = places@;
            proof {
                assert(all.take(i as int + 1).drop_last() =~= all.take(i as int));
                assert(all.take(i as int + 1).last() == category.files@[i as int]@);
            }
            if let Ok(path) = self.app_destination(category, &category.files[i]) {
                places.push(path);
                proof {
                    assert(texts(places@) =~= texts(held).push(path@));
                    assert(texts(places@) =~= before + places_of_files(
                        self.context,
                        category@,
                        all.take(i as int + 1),
                    ));
                }
            }
            i += 1;
        }
        proof {
            assert(all.take(all.len() as int) =~= all);
        }
    }

    fn all_places(&self, categories: &Vec<AppCategory>) -> (places: Vec<String>)
        ensures
            texts(places@) == places_of(self.context, category_views(categories@)),
    {
        let ghost all = category_views(categories@);
        let mut places: Vec<String> = Vec::new();
        let mut i: usize = 0;
        proof {
            assert(all.take(0) =~= Seq::<AppCategoryView>::empty());
            assert(texts(places@) =~= Seq::<Seq<char>>::empty());
        }
        while i < categories.len()
            invariant
                i <= categories.len(),
                all == category_views(categories@),
                texts(places@) == places_of(self.context, all.take(i as int)),
            decreases categories.len() - i,
        {
            proof {
                assert(all.take(i as int + 1).drop_last() =~= all.take(i as int));
                assert(all.take(i as int + 1).last() == categories@[i as int]@);
            }
            self.category_places(&categories[i], &mut places);
            i += 1;
        }
        proof {
            assert(all.take(all.len() as int) =~= all);
        }
        places
    }

    /// What an uninstall is about.
    pub fn uninstall_scope(&self, manifest: &AppManifest, target: &Option<String>) -> (result:
        Result<UninstallScope, MetadataError>)
        ensures
            match (
                target_places(self.context, self.presets@, optional_text(*target)),
                app_categories_of(self.context, self.presets@, None),
            ) {
                (Err(error), _) => result is Err && result->Err_0@ == error,
                (Ok(_), Err(error)) => result is Err && result->Err_0@ == error,
                (Ok(places), Ok(categories)) => result is Ok && result->Ok_0.fits(
                    manifest@,
                    optional_text(*target),
                    places,
                    categories,
                ),
            },
    {
        let places = match target {
            Some(name) => match self.app_categories(Some(name.as_str())) {
                Ok(categories) => self.all_places(&categories),
                Err(error) => return Err(error),
            },
            None => {
                let none: Vec<String> = Vec::new();
                proof {
                    assert(texts(none@) =~= Seq::<Seq<char>>::empty());
                }
                none
            },
        };
        let found = match self.app_categories(None) {
            Ok(found) => found,
            Err(error) => return Err(error),
        };
        let selected = select_entries(manifest, target, &places);
        let names = category_names_of(&selected, target);
        let ghost all = category_views(found@);
        let ghost wanted = texts(names@).to_set();
        let mut categories: Vec<AppCategory> = Vec::new();
        let mut rest = found;
        let ghost total = all.len() as int;
        proof {
            assert(all.take(0) =~= Seq::<AppCategoryView>::empty());
            assert(category_views(categories@) =~= Seq::<AppCategoryView>::empty());
            assert(category_views(rest@) =~= all.skip(0));
        }
        let ghost mut done: int = 0;
        while rest.len() > 0
            invariant
                0 <= done <= total,
                total == all.len(),
                wanted == texts(names@).to_set(),
                category_views(rest@) == all.skip(done),
                category_views(categories@) == categories_named(all.take(done), wanted),
            decreases rest.len(),
        {
            proof {
                assert(category_views(rest@).len() == rest@.len());
                assert(all.skip(done)[0] == all[done]);
                assert(category_views(rest@)[0] == rest@[0]@);
                assert(all.take(done + 1).drop_last() =~= all.take(done));
                assert(all.take(done + 1).last() == all[done]);
            }
            let ghost before = rest@;
            let category = rest.remove(0);
            proof {
                assert(category_views(rest@) =~= category_views(before).skip(1));
                assert(all.skip(done).skip(1) =~= all.skip(done + 1));
            }
            if list_contains(names.as_slice(), category.name.as_str()) {
                let ghost held = categories@;
                categories.push(category);
                proof {
                    assert(category_views(categories@) =~= category_views(held).push(category@));
                }
            }
            proof {
                done = done + 1;
            }
        }
        proof {
            assert(category_views(rest@).len() == rest@.len());
            assert(done == total);
            assert(all.take(total) =~= all);
        }
        Ok(UninstallScope { selected, names, categories })
    }

    /// The categories that an upgrade reads for a name that receipts have; nothing
    /// where there are no presets of that name any more.
    pub fn upgrade_categories(&self, name: &str) -> (result: Result<
        Option<Vec<AppCategory>>,
        MetadataError,
    >)
        ensures
            if has_presets(self.presets@, name@) {
                match app_categories_of(self.context, self.presets@, Some(name@)) {
                    Ok(categories) => result is Ok && result->Ok_0 is Some && category_views(
                        result->Ok_0->0@,
                    ) == categories,
                    Err(error) => result is Err && result->Err_0@ == error,
                }
            } else {
                result is Ok && result->Ok_0 is None
            },
    {
        if !finds_presets(&self.presets, name) {
            return Ok(None);
        }
        match self.app_categories(Some(name)) {
            Ok(categories) => Ok(Some(categories)),
            Err(error) => Err(error),
        }
    }
}

} // verus!
