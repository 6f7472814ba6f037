//! Decisions that the lifecycle operations of Apps share.

use vstd::prelude::*;
use vstd::string::*;

use crate::app_lifecycle::{app_source_parts, app_target, source_parts, target_of, AssessedAppFile};
use crate::app_refresh::RefreshFault;
use crate::lifecycle::{
    coded_outcome, LifecycleEffect, LifecycleOutcomeV1, LifecycleStatus, OutcomeView,
};
use crate::manifest::{entry_views, owns, AppEntry, AppEntryView, AppManifest};
use crate::sorted::{insert_sorted, is_sorted_set};
use crate::text::{joined, texts};

verus! {

/// The outcome where presets are external and are left as they are.
pub open spec fn cache_preserved(target: Seq<char>, resource: Seq<char>) -> OutcomeView {
    coded_outcome(
        target,
        Some(resource),
        LifecycleStatus::Skipped,
        seq![LifecycleEffect::UserResourcePreserved],
        "app_external_preset_cache_preserved"@,
    )
}

fn preserve_cache(target: &str, resource: &str) -> (outcome: LifecycleOutcomeV1)
    ensures
        outcome@ == cache_preserved(target@, resource@),
{
    let mut effects: Vec<LifecycleEffect> = Vec::new();
    effects.push(LifecycleEffect::UserResourcePreserved);
    proof {
        assert(effects@ =~= seq![LifecycleEffect::UserResourcePreserved]);
    }
    LifecycleOutcomeV1::coded(
        target,
        Some(resource.to_owned()),
        LifecycleStatus::Skipped,
        effects,
        "app_external_preset_cache_preserved",
    )
}

/// What an install reports of the files of an external preset.
pub fn external_cache_outcome(category: &str) -> (outcome: LifecycleOutcomeV1)
    ensures
        outcome@ == cache_preserved(app_target(category@), "preset-cache"@),
{
    let target = target_of(category);
    preserve_cache(target.as_str(), "preset-cache")
}

/// What a purge reports of the files of external presets.
pub fn external_purge_outcome(target: &Option<String>) -> (outcome: LifecycleOutcomeV1)
    ensures
        outcome@ == cache_preserved(
            match *target {
                Some(category) => app_target(category@),
                None => "app"@,
            },
            "purge"@,
        ),
{
    match target {
        Some(category) => {
            let target = target_of(category.as_str());
            preserve_cache(target.as_str(), "purge")
        },
        None => preserve_cache("app", "purge"),
    }
}

/// The outcome of a teardown that could not be set up.
pub fn teardown_setup_outcome(category: &str) -> (outcome: LifecycleOutcomeV1)
    ensures
        outcome@ == coded_outcome(
            app_target(category@),
            Some("artifact:teardown"@),
            LifecycleStatus::Failed,
            Seq::empty(),
            "app_teardown_setup_failed"@,
        ),
{
    let target = target_of(category);
    let effects: Vec<LifecycleEffect> = Vec::new();
    proof {
        assert(effects@ =~= Seq::<LifecycleEffect>::empty());
    }
    LifecycleOutcomeV1::coded(
        target.as_str(),
        Some("artifact:teardown".to_owned()),
        LifecycleStatus::Failed,
        effects,
        "app_teardown_setup_failed",
    )
}

/// The categories of which receipts are there.
pub open spec fn receipt_categories(entries: Seq<AppEntryView>) -> Set<Seq<char>>
    decreases entries.len(),
{
    if entries.len() == 0 {
        Set::empty()
    } else {
        let before = receipt_categories(entries.drop_last());
        match source_parts(entries.last().source) {
            Some((category, _)) => before.insert(category),
            None => before,
        }
    }
}

/// The categories of which receipts are there, in order.
pub fn installed_categories(entries: &Vec<AppEntry>) -> (names: Vec<String>)
    ensures
        is_sorted_set(texts(names@)),
        texts(names@).to_set() == receipt_categories(entry_views(entries@)),
{
    let mut names: Vec<String> = Vec::new();
    let ghost all = entry_views(entries@);
    let mut i: usize = 0;
    proof {
        assert(all.take(0) =~= Seq::<AppEntryView>::empty());
        assert(texts(names@).to_set() =~= Set::<Seq<char>>::empty());
    }
    while i < entries.len()
        invariant
            i <= entries.len(),
            all == entry_views(entries@),
            is_sorted_set(texts(names@)),
            texts(names@).to_set() == receipt_categories(all.take(i as int)),
        decreases entries.len() - i,
    {
        proof {
            assert(all.take(i as int + 1).drop_last() =~= all.take(i as int));
            assert(all.take(i as int + 1).last() == entries@[i as int]@);
        }
        if let Some((category, _)) = app_source_parts(entries[i].source.as_str()) {
            insert_sorted(&mut names, category);
        }
        i += 1;
    }
    proof {
        assert(all.take(all.len() as int) =~= all);
    }
    names
}

/// How many files need the rights of an administrator.
pub open spec fn privileged_files(files: Seq<AssessedAppFile>) -> nat
    decreases files.len(),
{
    if files.len() == 0 {
        0
    } else {
        privileged_files(files.drop_last()) + if files.last().file.requires_admin {
            1nat
        } else {
            0nat
        }
    }
}

/// How many of the files need the rights of an administrator.
pub fn count_privileged_files(files: &Vec<AssessedAppFile>) -> (count: usize)
    ensures
        count == privileged_files(files@),
{
    let mut count: usize = 0;
    let mut i: usize = 0;
    proof {
        assert(files@.take(0) =~= Seq::<AssessedAppFile>::empty());
    }
    while i < files.len()
        invariant
            i <= files.len(),
            count <= i,
            count == privileged_files(files@.take(i as int)),
        decreases files.len() - i,
    {
        proof {
            assert(files@.take(i as int + 1).drop_last() =~= files@.take(i as int));
            assert(files@.take(i as int + 1).last() == files@[i as int]);
        }
        if files[i].file.requires_admin {
            count += 1;
        }
        i += 1;
    }
    proof {
        assert(files@.take(files@.len() as int) =~= files@);
    }
    count
}

/// How many receipts are of files that need the rights of an administrator.
pub open spec fn privileged_receipts(entries: Seq<AppEntryView>) -> nat
    decreases entries.len(),
{
    if entries.len() == 0 {
        0
    } else {
        privileged_receipts(entries.drop_last()) + if entries.last().requires_admin {
            1nat
        } else {
            0nat
        }
    }
}

/// How many of the receipts are of files that need the rights of an administrator.
pub fn count_privileged_receipts(entries: &Vec<AppEntry>) -> (count: usize)
    ensures
        count == privileged_receipts(entry_views(entries@)),
{
    let ghost all = entry_views(entries@);
    let mut count: usize = 0;
    let mut i: usize = 0;
    proof {
        assert(all.take(0) =~= Seq::<AppEntryView>::empty());
    }
    while i < entries.len()
        invariant
            i <= entries.len(),
            count <= i,
            all == entry_views(entries@),
            count == privileged_receipts(all.take(i as int)),
        decreases entries.len() - i,
    {
        proof {
            assert(all.take(i as int + 1).drop_last() =~= all.take(i as int));
            assert(all.take(i as int + 1).last() == entries@[i as int]@);
        }
        if entries[i].requires_admin {
            count += 1;
        }
        i += 1;
    }
    proof {
        assert(all.take(all.len() as int) =~= all);
    }
    count
}

/// Which of the files that a refresh is about are installed, by their places in the
/// list of destinations. A file that was asked for has to be.
pub open spec fn installed_places(
    entries: Seq<AppEntryView>,
    destinations: Seq<Seq<char>>,
    asked_for: bool,
) -> Result<Seq<usize>, RefreshFault>
    decreases destinations.len(),
{
    if destinations.len() == 0 {
        Ok(Seq::empty())
    } else {
        match installed_places(entries, destinations.drop_last(), asked_for) {
            Err(fault) => Err(fault),
            Ok(before) => if owns(entries, destinations.last()) {
                Ok(before.push((destinations.len() - 1) as usize))
            } else if asked_for {
                Err(RefreshFault::NotInstalled { index: (destinations.len() - 1) as usize })
            } else {
                Ok(before)
            },
        }
    }
}

/// The files that are refreshed, by their places; at least one.
pub open spec fn refreshed_places(
    entries: Seq<AppEntryView>,
    destinations: Seq<Seq<char>>,
    asked_for: bool,
) -> Result<Seq<usize>, RefreshFault> {
    match installed_places(entries, destinations, asked_for) {
        Err(fault) => Err(fault),
        Ok(places) => if places.len() == 0 {
            Err(RefreshFault::NoneInstalled)
        } else {
            Ok(places)
        },
    }
}

proof fn lemma_place_fault_stays(
    entries: Seq<AppEntryView>,
    destinations: Seq<Seq<char>>,
    asked_for: bool,
    count: int,
)
    requires
        0 <= count <= destinations.len(),
        installed_places(entries, destinations.take(count), asked_for) is Err,
    ensures
        installed_places(entries, destinations, asked_for) == installed_places(
            entries,
            destinations.take(count),
            asked_for,
        ),
    decreases destinations.len() - count,
{
    if count == destinations.len() {
        assert(destinations.take(count) =~= destinations);
    } else {
        assert(destinations.take(count + 1).drop_last() =~= destinations.take(count));
        lemma_place_fault_stays(entries, destinations, asked_for, count + 1);
    }
}

pub proof fn lemma_refreshed_places(
    entries: Seq<AppEntryView>,
    destinations: Seq<Seq<char>>,
    asked_for: bool,
)
    requires
        destinations.len() <= usize::MAX,
    ensures
        match installed_places(entries, destinations, asked_for) {
            Ok(places) => forall|i: int|
                0 <= i < places.len() ==> (#[trigger] places[i]) < destinations.len() && owns(
                    entries,
                    destinations[places[i] as int],
                ),
            Err(RefreshFault::NotInstalled { index }) => index < destinations.len(),
            Err(_) => true,
        },
    decreases destinations.len(),
{
    if destinations.len() > 0 {
        let head = destinations.drop_last();
        lemma_refreshed_places(entries, head, asked_for);
        if let Ok(before) = installed_places(entries, head, asked_for) {
            assert forall|i: int| 0 <= i < before.len() implies head[before[i] as int]
                == destinations[(#[trigger] before[i]) as int] by {}
        }
    }
}

/// The files that are refreshed, by their places.
pub fn select_refreshed(manifest: &AppManifest, destinations: &Vec<String>, asked_for: bool) -> (
    result: Result<Vec<usize>, RefreshFault>)
    ensures
        match refreshed_places(manifest@, texts(destinations@), asked_for) {
            Ok(places) => result is Ok && result->Ok_0@ == places,
            Err(fault) => result is Err && result->Err_0 == fault,
        },
{
    let ghost all = texts(destinations@);
    let mut places: Vec<usize> = Vec::new();
    let mut i: usize = 0;
    proof {
        assert(all.take(0) =~= Seq::<Seq<char>>::empty());
        assert(places@ =~= Seq::<usize>::empty());
    }
    while i < destinations.len()
        invariant
            i <= destinations.len(),
            all == texts(destinations@),
            installed_places(manifest@, all.take(i as int), asked_for) == Ok::<
                Seq<usize>,
                RefreshFault,
            >(places@),
        decreases destinations.len() - i,
    {
        proof {
            assert(all.take(i as int + 1).drop_last() =~= all.take(i as int));
            assert(all.take(i as int + 1).last() == destinations@[i as int]@);
        }
        if manifest.owns_destination(destinations[i].as_str()) {
            places.push(i);
        } else if asked_for {
            proof {
                lemma_place_fault_stays(manifest@, all, asked_for, i as int + 1);
            }
            return Err(RefreshFault::NotInstalled { index: i });
        }
        i += 1;
    }
    proof {
        assert(all.take(all.len() as int) =~= all);
    }
    if places.len() == 0 {
        return Err(RefreshFault::NoneInstalled);
    }
    Ok(places)
}

impl RefreshFault {
    pub open spec fn text(self, category: Seq<char>, file: Seq<char>) -> Seq<char> {
        let head = "app '"@ + category;
        match self {
            RefreshFault::FileNotFound => head + "' file not found: "@ + file,
            RefreshFault::NotGenerated => head + "' file is not generated: "@ + file,
            RefreshFault::NoGeneratedFiles => head + "' has no generated files"@,
            RefreshFault::NotInstalled { .. } => head + "' generated file is not installed: "@
                + file,
            RefreshFault::NoneInstalled => head
                + "' has no installed generated files; run `shine install app/"@ + category
                + "` first"@,
        }
    }

    /// The fault in words. `file` is the file that it is about, where it is about
    /// one.
    pub fn message(self, category: &str, file: &str) -> (message: String)
        ensures
            message@ == self.text(category@, file@),
    {
        let mut message = joined("app '", category);
        match self {
            RefreshFault::FileNotFound => {
                message.append("' file not found: ");
                message.append(file);
            },
            RefreshFault::NotGenerated => {
                message.append("' file is not generated: ");
                message.append(file);
            },
            RefreshFault::NoGeneratedFiles => {
                message.append("' has no generated files");
            },
            RefreshFault::NotInstalled { .. } => {
                message.append("' generated file is not installed: ");
                message.append(file);
            },
            RefreshFault::NoneInstalled => {
                message.append("' has no installed generated files; run `shine install app/");
                message.append(category);
                message.append("` first");
            },
        }
        message
    }
}

} // verus!
