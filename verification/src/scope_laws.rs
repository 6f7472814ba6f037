//! What an operation is about: which receipts, categories, files and copies, and that none
//! of them is missed.

use vstd::prelude::*;
use vstd::string::*;

use crate::app_cache::{
    cache_outcome, cache_plan, cached_files, held, lemma_untouched, settled, target_path, touches,
    CacheTargetView, Disk,
};
use crate::app_flow::{
    installed_places, privileged_files, privileged_receipts, receipt_categories, refreshed_places,
};
use crate::app_lifecycle::{source_parts, AssessedAppFile};
use crate::app_refresh::{file_place, generated_files, refresh_files};
use crate::app_scope::{categories_named, install_scope_of, teardowns_of, upgrade_entries_of};
use crate::app_types::{AppArtifactView, AppCacheRequest, AppCategoryView, AppFileView};
use crate::app_uninstall::selected_entries;
use crate::context::RuntimeContext;
use crate::env::{env_spec_of, env_specs_of, is_env_key};
use crate::guard_laws::is_unowned;
use crate::lifecycle::LifecycleStatus;
use crate::manifest::{owns, AppEntryView};
use crate::path::{path_join, same_path, same_path_on, PathStyle};
use crate::presets::PresetFileView;
use crate::runtime::{
    all_destinations, app_categories_of, destination_in, file_destinations, taken_place,
};
use crate::text::{begins_with, lemma_cut_at};

verus! {

/// A receipt is of a file of a category exactly where its source is written so: the
/// category ends at the first separator behind the kind.
pub proof fn law_sources_name_category_and_file(category: Seq<char>, file: Seq<char>)
    requires
        !category.contains('/'),
    ensures
        source_parts("app/"@ + category + "/"@ + file) == Some((category, file)),
{
    reveal_strlit("app/");
    reveal_strlit("app");
    reveal_strlit("/");
    let rest = category + "/"@ + file;
    let source = "app/"@ + category + "/"@ + file;
    lemma_cut_at(source, '/', 3);
    assert(source.take(3) =~= "app"@);
    assert(source.skip(4) =~= rest);
    assert forall|j: int| 0 <= j < category.len() implies rest[j] != '/' by {
        assert(rest[j] == category[j]);
        assert(category.contains(category[j]));
    }
    lemma_cut_at(rest, '/', category.len() as int);
    assert(rest.take(category.len() as int) =~= category);
    assert(rest.skip(category.len() as int + 1) =~= file);
}

/// The categories of receipts are those that some receipt is of.
pub proof fn law_receipts_name_their_categories(entries: Seq<AppEntryView>, name: Seq<char>)
    ensures
        receipt_categories(entries).contains(name) <==> exists|i: int|
            0 <= i < entries.len() && source_parts((#[trigger] entries[i]).source) is Some && (
            source_parts(entries[i].source)->0).0 == name,
    decreases entries.len(),
{
    if entries.len() > 0 {
        let head = entries.drop_last();
        law_receipts_name_their_categories(head, name);
        assert(entries[entries.len() - 1] == entries.last());
        assert(forall|i: int| 0 <= i < head.len() ==> head[i] == #[trigger] entries[i]);
        if receipt_categories(head).contains(name) {
            let i = choose|i: int|
                0 <= i < head.len() && source_parts((#[trigger] head[i]).source) is Some && (
                source_parts(head[i].source)->0).0 == name;
            assert(entries[i] == head[i]);
        }
    }
}

/// Rights are asked for exactly where some file, or some receipt, needs them.
pub proof fn law_rights_are_asked_for_where_needed(
    files: Seq<AssessedAppFile>,
    entries: Seq<AppEntryView>,
)
    ensures
        privileged_files(files) > 0 <==> exists|i: int|
            0 <= i < files.len() && (#[trigger] files[i]).file.requires_admin,
        privileged_files(files) <= files.len(),
        privileged_receipts(entries) > 0 <==> exists|i: int|
            0 <= i < entries.len() && (#[trigger] entries[i]).requires_admin,
        privileged_receipts(entries) <= entries.len(),
    decreases files.len() + entries.len(),
{
    if files.len() > 0 {
        let head = files.drop_last();
        law_rights_are_asked_for_where_needed(head, Seq::empty());
        assert(files[files.len() - 1] == files.last());
        assert(forall|i: int| 0 <= i < head.len() ==> head[i] == #[trigger] files[i]);
        if exists|i: int| 0 <= i < head.len() && (#[trigger] head[i]).file.requires_admin {
            let i = choose|i: int|
                0 <= i < head.len() && (#[trigger] head[i]).file.requires_admin;
            assert(files[i].file.requires_admin);
        }
    }
    if entries.len() > 0 {
        let head = entries.drop_last();
        law_rights_are_asked_for_where_needed(Seq::empty(), head);
        assert(entries[entries.len() - 1] == entries.last());
        assert(forall|i: int| 0 <= i < head.len() ==> head[i] == #[trigger] entries[i]);
        if exists|i: int| 0 <= i < head.len() && (#[trigger] head[i]).requires_admin {
            let i = choose|i: int| 0 <= i < head.len() && (#[trigger] head[i]).requires_admin;
            assert(entries[i].requires_admin);
        }
    }
}

/// An upgrade is about the receipts of the category that was asked for, and about all
/// where none was; a category of which nothing is installed is an error.
pub proof fn law_upgrade_is_about_what_is_installed(
    entries: Seq<AppEntryView>,
    category: Option<Seq<char>>,
    entry: AppEntryView,
)
    ensures
        ({
            let belongs = match category {
                None => true,
                Some(name) => begins_with(entry.source, "app/"@ + name + "/"@),
            };
            match upgrade_entries_of(entries, category) {
                Ok(selected) => {
                    &&& selected.contains(entry) <==> entries.contains(entry) && belongs
                    &&& category is Some ==> selected.len() > 0
                },
                Err(_) => category is Some && (entries.contains(entry) ==> !belongs),
            }
        }),
{
    crate::report_laws::law_uninstall_misses_no_receipt(entries, category, Seq::empty(), entry);
    let selected = selected_entries(entries, category, Seq::empty());
    if category is Some {
        let start = "app/"@ + category->0 + "/"@;
        assert(entry.source.take(start.len() as int) == entry.source.subrange(
            0,
            start.len() as int,
        ));
        if selected.len() == 0 && selected.contains(entry) {
            let i = choose|i: int| 0 <= i < selected.len() && selected[i] == entry;
        }
    }
}

/// The categories that are named are all of that name among those given, and no others.
pub proof fn law_named_categories_are_all_found(
    categories: Seq<AppCategoryView>,
    names: Set<Seq<char>>,
    category: AppCategoryView,
)
    ensures
        categories_named(categories, names).contains(category) <==> categories.contains(category)
            && names.contains(category.name),
    decreases categories.len(),
{
    if categories.len() > 0 {
        let head = categories.drop_last();
        law_named_categories_are_all_found(head, names, category);
        let before = categories_named(head, names);
        let all = categories_named(categories, names);
        let last = categories.last();
        assert(categories[categories.len() - 1] == last);
        assert(categories.contains(category) <==> head.contains(category) || last == category) by {
            if categories.contains(category) {
                let i = choose|i: int| 0 <= i < categories.len() && categories[i] == category;
                if i < head.len() {
                    assert(head[i] == category);
                }
            }
            if head.contains(category) {
                let i = choose|i: int| 0 <= i < head.len() && head[i] == category;
                assert(categories[i] == category);
            }
        }
        lemma_pushed(before, last, category);
    }
}

proof fn lemma_pushed<A>(list: Seq<A>, last: A, item: A)
    ensures
        list.push(last).contains(item) <==> list.contains(item) || last == item,
{
    let all = list.push(last);
    if all.contains(item) {
        let i = choose|i: int| 0 <= i < all.len() && all[i] == item;
        if i < list.len() {
            assert(list[i] == item);
        }
    }
    if list.contains(item) {
        let i = choose|i: int| 0 <= i < list.len() && list[i] == item;
        assert(all[i] == item);
    }
    assert(all[list.len() as int] == last);
}

/// An uninstall takes down the artifacts of exactly the categories that have a teardown.
pub proof fn law_no_teardown_is_missed(
    categories: Seq<AppCategoryView>,
    name: Seq<char>,
    artifact: AppArtifactView,
)
    ensures
        teardowns_of(categories).contains((name, artifact)) <==> {
            &&& artifact.teardown is Some
            &&& exists|i: int|
                0 <= i < categories.len() && (#[trigger] categories[i]).name == name
                    && categories[i].artifact == Some(artifact)
        },
    decreases categories.len(),
{
    if categories.len() > 0 {
        let head = categories.drop_last();
        law_no_teardown_is_missed(head, name, artifact);
        let before = teardowns_of(head);
        let last = categories.last();
        assert(categories[categories.len() - 1] == last);
        assert(forall|i: int| 0 <= i < head.len() ==> head[i] == #[trigger] categories[i]);
        if exists|i: int|
            0 <= i < head.len() && (#[trigger] head[i]).name == name && head[i].artifact == Some(
                artifact,
            ) {
            let i = choose|i: int|
                0 <= i < head.len() && (#[trigger] head[i]).name == name && head[i].artifact
                    == Some(artifact);
            assert(categories[i] == head[i]);
        }
        if last.artifact is Some {
            lemma_pushed(before, (last.name, last.artifact->0), (name, artifact));
        }
    }
}

proof fn lemma_generated(files: Seq<AppFileView>, place: usize)
    requires
        files.len() <= usize::MAX,
    ensures
        generated_files(files).contains(place) <==> place < files.len()
            && files[place as int].generator is Some,
    decreases files.len(),
{
    if files.len() > 0 {
        let head = files.drop_last();
        lemma_generated(head, place);
        let before = generated_files(head);
        let own = (files.len() - 1) as usize;
        lemma_pushed(before, own, place);
        if place < head.len() {
            assert(head[place as int] == files[place as int]);
        }
    }
}

proof fn lemma_file_place(files: Seq<AppFileView>, source: Seq<char>, style: PathStyle)
    ensures
        match file_place(files, source, style) {
            Some(place) => 0 <= place < files.len() && same_path_on(
                files[place].source_rel,
                source,
                style,
            ) && forall|i: int|
                0 <= i < place ==> !same_path_on((#[trigger] files[i]).source_rel, source, style),
            None => forall|i: int|
                0 <= i < files.len() ==> !same_path_on(
                    (#[trigger] files[i]).source_rel,
                    source,
                    style,
                ),
        },
    decreases files.len(),
{
    if files.len() > 0 {
        let head = files.drop_last();
        lemma_file_place(head, source, style);
        assert(forall|i: int| 0 <= i < head.len() ==> head[i] == #[trigger] files[i]);
    }
}

/// A refresh is about the one file that was asked for, which has a generator, or about
/// every file that has one; there is always at least one.
pub proof fn law_refresh_is_about_generated_files(
    files: Seq<AppFileView>,
    selector: Option<Seq<char>>,
    style: PathStyle,
    place: usize,
)
    requires
        files.len() <= usize::MAX,
    ensures
        match (selector, refresh_files(files, selector, style)) {
            (None, Ok(places)) => {
                &&& places.len() > 0
                &&& places.contains(place) <==> place < files.len()
                    && files[place as int].generator is Some
            },
            (None, Err(_)) => place < files.len() ==> files[place as int].generator is None,
            (Some(source), Ok(places)) => {
                &&& places.len() == 1 && places[0] < files.len()
                &&& same_path_on(files[places[0] as int].source_rel, source, style)
                &&& files[places[0] as int].generator is Some
            },
            (Some(source), Err(_)) => {
                ||| forall|i: int|
                    0 <= i < files.len() ==> !same_path_on(
                        (#[trigger] files[i]).source_rel,
                        source,
                        style,
                    )
                ||| exists|i: int|
                    0 <= i < files.len() && same_path_on(
                        (#[trigger] files[i]).source_rel,
                        source,
                        style,
                    ) && files[i].generator is None
            },
        },
{
    lemma_generated(files, place);
    if let Some(source) = selector {
        lemma_file_place(files, source, style);
    }
}

/// Of the files that a refresh is about those are refreshed that are installed, in order;
/// a file that was asked for and is not installed is an error, and so is that none is.
pub proof fn law_refresh_takes_installed_files(
    entries: Seq<AppEntryView>,
    destinations: Seq<Seq<char>>,
    asked_for: bool,
    place: usize,
)
    requires
        destinations.len() <= usize::MAX,
    ensures
        match refreshed_places(entries, destinations, asked_for) {
            Ok(places) => {
                &&& places.len() > 0
                &&& places.contains(place) <==> place < destinations.len() && !is_unowned(
                    entries,
                    destinations[place as int],
                )
                &&& asked_for && place < destinations.len() ==> !is_unowned(
                    entries,
                    destinations[place as int],
                )
            },
            Err(_) => {
                ||| asked_for && exists|i: int|
                    0 <= i < destinations.len() && is_unowned(entries, #[trigger] destinations[i])
                ||| forall|i: int|
                    0 <= i < destinations.len() ==> is_unowned(entries, #[trigger] destinations[i])
            },
        },
{
    lemma_installed(entries, destinations, asked_for, place);
    if let Ok(places) = installed_places(entries, destinations, asked_for) {
        if places.len() == 0 {
            assert forall|i: int| 0 <= i < destinations.len() implies is_unowned(
                entries,
                #[trigger] destinations[i],
            ) by {
                lemma_installed(entries, destinations, asked_for, i as usize);
                if !is_unowned(entries, destinations[i]) {
                    assert(places.contains(i as usize));
                }
            }
        }
    }
}

proof fn lemma_installed(
    entries: Seq<AppEntryView>,
    destinations: Seq<Seq<char>>,
    asked_for: bool,
    place: usize,
)
    requires
        destinations.len() <= usize::MAX,
    ensures
        match installed_places(entries, destinations, asked_for) {
            Ok(places) => {
                &&& places.contains(place) <==> place < destinations.len() && !is_unowned(
                    entries,
                    destinations[place as int],
                )
                &&& asked_for && place < destinations.len() ==> !is_unowned(
                    entries,
                    destinations[place as int],
                )
            },
            Err(_) => asked_for && exists|i: int|
                0 <= i < destinations.len() && is_unowned(entries, #[trigger] destinations[i]),
        },
    decreases destinations.len(),
{
    if destinations.len() > 0 {
        let head = destinations.drop_last();
        lemma_installed(entries, head, asked_for, place);
        let own = (destinations.len() - 1) as usize;
        assert(owns(entries, destinations.last()) <==> !is_unowned(entries, destinations.last()));
        assert(destinations[own as int] == destinations.last());
        match installed_places(entries, head, asked_for) {
            Ok(before) => {
                lemma_pushed(before, own, place);
                if place < head.len() {
                    assert(head[place as int] == destinations[place as int]);
                }
            },
            Err(_) => {
                let i = choose|i: int|
                    0 <= i < head.len() && is_unowned(entries, #[trigger] head[i]);
                assert(destinations[i] == head[i]);
            },
        }
    }
}

/// Two files never go to the same place: where two of a category would, the category is
/// refused, and where none would and each has a place, it is accepted.
pub proof fn law_files_with_places_of_their_own_are_accepted(
    context: RuntimeContext,
    category: AppCategoryView,
    files: Seq<AppFileView>,
    taken: Seq<(Seq<char>, Seq<char>)>,
)
    ensures
        ({
            let fine = {
                &&& forall|i: int|
                    0 <= i < files.len() ==> destination_in(
                        context,
                        category,
                        #[trigger] files[i],
                    ) is Ok
                &&& forall|i: int, j: int|
                    0 <= i < files.len() && 0 <= j < taken.len() ==> !same_path(
                        (#[trigger] taken[j]).0,
                        destination_in(context, category, #[trigger] files[i])->Ok_0,
                    )
                &&& forall|i: int, j: int|
                    0 <= i < j < files.len() ==> !same_path(
                        destination_in(context, category, #[trigger] files[i])->Ok_0,
                        destination_in(context, category, #[trigger] files[j])->Ok_0,
                    )
            };
            &&& fine ==> file_destinations(context, category, files, taken) is Ok
            &&& (exists|i: int|
                0 <= i < files.len() && destination_in(
                    context,
                    category,
                    #[trigger] files[i],
                ) is Err) ==> file_destinations(context, category, files, taken) is Err
        }),
    decreases files.len(),
{
    lemma_places(context, category, files, taken);
}

proof fn lemma_taken(taken: Seq<(Seq<char>, Seq<char>)>, destination: Seq<char>)
    ensures
        taken_place(taken, destination) is Some <==> exists|j: int|
            0 <= j < taken.len() && same_path((#[trigger] taken[j]).0, destination),
    decreases taken.len(),
{
    if taken.len() > 0 {
        let head = taken.drop_last();
        lemma_taken(head, destination);
        assert(taken[taken.len() - 1] == taken.last());
        assert(forall|i: int| 0 <= i < head.len() ==> head[i] == #[trigger] taken[i]);
        if exists|j: int| 0 <= j < head.len() && same_path((#[trigger] head[j]).0, destination) {
            let j = choose|j: int|
                0 <= j < head.len() && same_path((#[trigger] head[j]).0, destination);
            assert(taken[j] == head[j]);
        }
    }
}

proof fn lemma_places(
    context: RuntimeContext,
    category: AppCategoryView,
    files: Seq<AppFileView>,
    taken: Seq<(Seq<char>, Seq<char>)>,
)
    ensures
        match file_destinations(context, category, files, taken) {
            Ok(all) => {
                &&& all.len() == taken.len() + files.len()
                &&& forall|j: int| 0 <= j < taken.len() ==> all[j] == #[trigger] taken[j]
                &&& forall|i: int|
                    0 <= i < files.len() ==> destination_in(
                        context,
                        category,
                        #[trigger] files[i],
                    ) is Ok && all[taken.len() + i].0 == destination_in(
                        context,
                        category,
                        files[i],
                    )->Ok_0
            },
            Err(_) => {
                ||| exists|i: int|
                    0 <= i < files.len() && destination_in(
                        context,
                        category,
                        #[trigger] files[i],
                    ) is Err
                ||| exists|i: int, j: int|
                    0 <= i < files.len() && 0 <= j < taken.len() && same_path(
                        (#[trigger] taken[j]).0,
                        destination_in(context, category, #[trigger] files[i])->Ok_0,
                    )
                ||| exists|i: int, j: int|
                    0 <= i < j < files.len() && same_path(
                        destination_in(context, category, #[trigger] files[i])->Ok_0,
                        destination_in(context, category, #[trigger] files[j])->Ok_0,
                    )
            },
        },
    decreases files.len(),
{
    if files.len() > 0 {
        let head = files.drop_last();
        let last = files.len() - 1;
        lemma_places(context, category, head, taken);
        assert(files[last] == files.last());
        assert(forall|i: int| 0 <= i < head.len() ==> head[i] == #[trigger] files[i]);
        match file_destinations(context, category, head, taken) {
            Ok(before) => {
                if let Ok(destination) = destination_in(context, category, files.last()) {
                    lemma_taken(before, destination);
                    if taken_place(before, destination) is Some {
                        let j = choose|j: int|
                            0 <= j < before.len() && same_path(
                                (#[trigger] before[j]).0,
                                destination,
                            );
                        if j < taken.len() {
                            assert(before[j] == taken[j]);
                            assert(same_path(
                                taken[j].0,
                                destination_in(context, category, files[last])->Ok_0,
                            ));
                        } else {
                            let i = j - taken.len();
                            assert(head[i] == files[i]);
                            assert(before[taken.len() + i].0 == destination_in(
                                context,
                                category,
                                files[i],
                            )->Ok_0);
                            assert(same_path(
                                destination_in(context, category, files[i])->Ok_0,
                                destination_in(context, category, files[last])->Ok_0,
                            ));
                        }
                    } else {
                        let all = before.push((
                            destination,
                            crate::app_lifecycle::app_source(
                                category.name,
                                files.last().source_rel,
                            ),
                        ));
                        assert(file_destinations(context, category, files, taken)->Ok_0 == all);
                        assert forall|i: int| 0 <= i < files.len() implies destination_in(
                            context,
                            category,
                            #[trigger] files[i],
                        ) is Ok && all[taken.len() + i].0 == destination_in(
                            context,
                            category,
                            files[i],
                        )->Ok_0 by {
                            if i < last {
                                assert(head[i] == files[i]);
                            }
                        }
                    }
                }
            },
            Err(_) => {
                if exists|i: int|
                    0 <= i < head.len() && destination_in(
                        context,
                        category,
                        #[trigger] head[i],
                    ) is Err {
                    let i = choose|i: int|
                        0 <= i < head.len() && destination_in(
                            context,
                            category,
                            #[trigger] head[i],
                        ) is Err;
                    assert(files[i] == head[i]);
                } else if exists|i: int, j: int|
                    0 <= i < head.len() && 0 <= j < taken.len() && same_path(
                        (#[trigger] taken[j]).0,
                        destination_in(context, category, #[trigger] head[i])->Ok_0,
                    ) {
                    let (i, j) = choose|i: int, j: int|
                        0 <= i < head.len() && 0 <= j < taken.len() && same_path(
                            (#[trigger] taken[j]).0,
                            destination_in(context, category, #[trigger] head[i])->Ok_0,
                        );
                    assert(files[i] == head[i]);
                } else {
                    let (i, j) = choose|i: int, j: int|
                        0 <= i < j < head.len() && same_path(
                            destination_in(context, category, #[trigger] head[i])->Ok_0,
                            destination_in(context, category, #[trigger] head[j])->Ok_0,
                        );
                    assert(files[i] == head[i] && files[j] == head[j]);
                }
            },
        }
    }
}

/// An install is about the categories that there are, and about the one that was asked
/// for; one that is not there is an error, and so is that two files go to the same place.
pub proof fn law_install_is_about_categories_that_are_there(
    context: RuntimeContext,
    presets: Seq<PresetFileView>,
    target: Option<Seq<char>>,
)
    ensures
        match install_scope_of(context, presets, target) {
            Ok(categories) => {
                &&& app_categories_of(context, presets, target) is Ok && app_categories_of(
                    context,
                    presets,
                    target,
                )->Ok_0 == categories
                &&& all_destinations(context, categories) is Ok
                &&& target is Some ==> categories.len() > 0
            },
            Err(_) => {
                let found = app_categories_of(context, presets, target);
                ||| found is Err
                ||| target is Some && found->Ok_0.len() == 0
                ||| all_destinations(context, found->Ok_0) is Err
            },
        },
{
}

/// A variable is named by its name, or by the name it has and the name that code sees it
/// by; nothing else names one.
pub proof fn law_variables_are_named(name: Seq<char>, seen: Seq<char>)
    requires
        is_env_key(name),
        is_env_key(seen),
    ensures
        env_spec_of(name) == Some((name, name)),
        env_spec_of(name + ":"@ + seen) == Some((name, seen)),
{
    reveal_strlit(":");
    assert forall|j: int| 0 <= j < name.len() implies name[j] != ':' by {
        assert(crate::env::is_env_char(name[j], j == 0));
    }
    lemma_cut_at(name, ':', name.len() as int);
    let both = name + ":"@ + seen;
    assert forall|j: int| 0 <= j < name.len() implies both[j] != ':' by {
        assert(both[j] == name[j]);
    }
    lemma_cut_at(both, ':', name.len() as int);
    assert(both.take(name.len() as int) =~= name);
    assert(both.skip(name.len() as int + 1) =~= seen);
}

/// A list of variables is accepted exactly where each of its texts names one, and then
/// gives them in order.
pub proof fn law_variables_are_listed_in_order(list: Seq<Seq<char>>)
    ensures
        match env_specs_of(list) {
            Ok(specs) => specs.len() == list.len() && forall|i: int|
                0 <= i < list.len() ==> env_spec_of(#[trigger] list[i]) == Some(specs[i]),
            Err(text) => list.contains(text) && env_spec_of(text) is None,
        },
    decreases list.len(),
{
    if list.len() > 0 {
        let head = list.drop_last();
        law_variables_are_listed_in_order(head);
        assert(list[list.len() - 1] == list.last());
        assert(forall|i: int| 0 <= i < head.len() ==> head[i] == #[trigger] list[i]);
        match env_specs_of(head) {
            Ok(before) => {
                assert(list.contains(list.last()));
            },
            Err(text) => {
                let i = choose|i: int| 0 <= i < head.len() && head[i] == text;
                assert(list[i] == text);
            },
        }
    }
}

proof fn lemma_copies(
    presets_dir: Seq<char>,
    files: Seq<PresetFileView>,
    target: Seq<char>,
    index: int,
)
    requires
        0 <= index < files.len(),
        files[index].path == target || begins_with(files[index].path, target + "/"@),
    ensures
        cached_files(presets_dir, files, target).contains(
            CacheTargetView::File {
                path: path_join(presets_dir, files[index].path),
                content: files[index].bytes,
            },
        ),
    decreases files.len(),
{
    let head = files.drop_last();
    let before = cached_files(presets_dir, head, target);
    let all = cached_files(presets_dir, files, target);
    let item = CacheTargetView::File {
        path: path_join(presets_dir, files[index].path),
        content: files[index].bytes,
    };
    if index < head.len() {
        assert(head[index] == files[index]);
        lemma_copies(presets_dir, head, target, index);
        let k = choose|k: int| 0 <= k < before.len() && before[k] == item;
        assert(all[k] == item);
    } else {
        assert(all[before.len() as int] == item);
    }
}

proof fn lemma_settled_at(
    request: AppCacheRequest,
    targets: Seq<CacheTargetView>,
    disk: Disk,
    at: int,
)
    requires
        0 <= at < targets.len(),
        targets[at] is File,
        forall|i: int|
            0 <= i < targets.len() && i != at ==> !touches(
                #[trigger] targets[i],
                target_path(targets[at]),
            ),
    ensures
        ({
            let path = target_path(targets[at]);
            let found = held(disk, path);
            let left = held(settled(request, targets, disk).1, path);
            left == if request.dry_run {
                found
            } else if request.remove {
                None
            } else if found is None || request.overwrite {
                Some(targets[at]->content)
            } else {
                found
            }
        }),
    decreases targets.len(),
{
    let path = target_path(targets[at]);
    let head = targets.drop_last();
    let last = targets.len() - 1;
    if at < last {
        assert(head[at] == targets[at]);
        assert forall|i: int| 0 <= i < head.len() && i != at implies !touches(
            #[trigger] head[i],
            target_path(head[at]),
        ) by {
            assert(!touches(targets[i], path));
        }
        lemma_settled_at(request, head, disk, at);
        assert(!touches(targets[last], path));
    } else {
        assert forall|i: int| 0 <= i < head.len() implies !touches(#[trigger] head[i], path) by {
            assert(!touches(targets[i], path));
        }
        lemma_untouched(request, head, disk, path);
    }
}

/// What reconciling the copies leaves of each preset file at or under the prefix, where no
/// other is copied to its place: the file itself where there was none or where copies are
/// overwritten, otherwise what stood there; nothing where copies are removed; and in a
/// preview what stood there.
pub proof fn law_copies_are_brought_in_line(
    context: RuntimeContext,
    files: Seq<PresetFileView>,
    request: AppCacheRequest,
    disk: Disk,
    target: Seq<char>,
    at: int,
)
    requires
        target == crate::app_cache::without_slashes(request.prefix@),
        !(request.remove && request.purge),
        ({
            let plan = cache_plan(context, files, request);
            &&& 0 <= at < plan.len()
            &&& forall|i: int|
                0 <= i < plan.len() && i != at ==> target_path(#[trigger] plan[i]) != target_path(
                    plan[at],
                )
        }),
    ensures
        ({
            let plan = cache_plan(context, files, request);
            let path = target_path(plan[at]);
            let found = held(disk, path);
            let left = held(settled(request, plan, disk).1, path);
            &&& plan[at] is File
            &&& request.dry_run ==> left == found
            &&& !request.dry_run && request.remove ==> left is None
            &&& !request.dry_run && !request.remove && (found is None || request.overwrite)
                ==> left == Some(plan[at]->content)
            &&& !request.dry_run && !request.remove && found is Some && !request.overwrite
                ==> left == found
        }),
{
    let plan = cache_plan(context, files, request);
    assert(plan =~= cached_files(context.presets_dir@, files, target));
    crate::app_cache::law_cache_stays_with_its_target(context.presets_dir@, files, target, at);
    assert forall|i: int| 0 <= i < plan.len() && i != at implies !touches(
        #[trigger] plan[i],
        target_path(plan[at]),
    ) by {
        crate::app_cache::law_cache_stays_with_its_target(context.presets_dir@, files, target, i);
    }
    lemma_settled_at(request, plan, disk, at);
}

/// Every preset file at or under the prefix is among what is reconciled; a purge takes the
/// directory of the prefix too, and for all Apps the receipts, and nothing else does.
pub proof fn law_no_copy_is_missed(
    context: RuntimeContext,
    files: Seq<PresetFileView>,
    request: AppCacheRequest,
    target: Seq<char>,
    index: int,
)
    requires
        target == crate::app_cache::without_slashes(request.prefix@),
    ensures
        ({
            let plan = cache_plan(context, files, request);
            let purges = request.remove && request.purge;
            &&& 0 <= index < files.len() && (files[index].path == target || begins_with(
                files[index].path,
                target + "/"@,
            )) ==> plan.contains(
                CacheTargetView::File {
                    path: path_join(context.presets_dir@, files[index].path),
                    content: files[index].bytes,
                },
            )
            &&& plan.contains(
                CacheTargetView::Root { path: path_join(context.presets_dir@, target) },
            ) <==> purges
            &&& plan.contains(CacheTargetView::Manifest { path: context.manifest_text() })
                <==> purges && target == "app"@
        }),
{
    let plan = cache_plan(context, files, request);
    let copies = cached_files(context.presets_dir@, files, target);
    let more = crate::app_cache::purged(context, request);
    assert(plan =~= copies + more);
    assert forall|i: int| 0 <= i < copies.len() implies (#[trigger] copies[i]) is File by {
        crate::app_cache::law_cache_stays_with_its_target(context.presets_dir@, files, target, i);
    }
    if 0 <= index < files.len() && (files[index].path == target || begins_with(
        files[index].path,
        target + "/"@,
    )) {
        lemma_copies(context.presets_dir@, files, target, index);
        let item = CacheTargetView::File {
            path: path_join(context.presets_dir@, files[index].path),
            content: files[index].bytes,
        };
        let k = choose|k: int| 0 <= k < copies.len() && copies[k] == item;
        assert(plan[k] == item);
    }
    let root = CacheTargetView::Root { path: path_join(context.presets_dir@, target) };
    let manifest = CacheTargetView::Manifest { path: context.manifest_text() };
    if plan.contains(root) {
        let k = choose|k: int| 0 <= k < plan.len() && plan[k] == root;
        if k < copies.len() {
            assert(copies[k] is File);
        } else {
            assert(more[k - copies.len()] == root);
        }
    }
    if plan.contains(manifest) {
        let k = choose|k: int| 0 <= k < plan.len() && plan[k] == manifest;
        if k < copies.len() {
            assert(copies[k] is File);
        } else {
            assert(more[k - copies.len()] == manifest);
        }
    }
    if request.remove && request.purge {
        assert(plan[copies.len() as int] == more[0]);
        if target == "app"@ {
            assert(plan[copies.len() as int + 1] == more[1]);
        }
    }
}

/// Where every copy is there and none is to change, nothing is done and nothing is
/// reported as done.
pub proof fn law_copies_in_line_are_left_alone(
    request: AppCacheRequest,
    targets: Seq<CacheTargetView>,
    disk: Disk,
)
    requires
        forall|i: int|
            0 <= i < targets.len() ==> {
                let found = held(disk, target_path(#[trigger] targets[i]));
                match targets[i] {
                    CacheTargetView::File { content, .. } => if request.remove {
                        found is None
                    } else {
                        found == Some(content) || found is Some && !request.overwrite
                    },
                    _ => found is None,
                }
            },
    ensures
        settled(request, targets, disk).1 == disk,
        cache_outcome(request, settled(request, targets, disk).0).status
            == LifecycleStatus::Unchanged,
        cache_outcome(request, settled(request, targets, disk).0).effects.len() == 0,
    decreases targets.len(),
{
    if targets.len() > 0 {
        let head = targets.drop_last();
        assert forall|i: int| 0 <= i < head.len() implies ({
            let found = held(disk, target_path(#[trigger] head[i]));
            match head[i] {
                CacheTargetView::File { content, .. } => if request.remove {
                    found is None
                } else {
                    found == Some(content) || found is Some && !request.overwrite
                },
                _ => found is None,
            }
        }) by {
            assert(head[i] == targets[i]);
        }
        law_copies_in_line_are_left_alone(request, head, disk);
        assert(targets[targets.len() - 1] == targets.last());
    }
}

/// Where something has to change, that is reported: as a change, and as one to come in a
/// preview.
pub proof fn law_changed_copies_are_reported(
    request: AppCacheRequest,
    targets: Seq<CacheTargetView>,
    disk: Disk,
)
    requires
        targets.len() > 0,
        ({
            let found = held(disk, target_path(targets[0]));
            match targets[0] {
                CacheTargetView::File { content, .. } => if request.remove {
                    found is Some
                } else {
                    found is None || request.overwrite && found != Some(content)
                },
                _ => found is Some,
            }
        }),
    ensures
        cache_outcome(request, settled(request, targets, disk).0).status == if request.dry_run {
            LifecycleStatus::Previewed
        } else {
            LifecycleStatus::Changed
        },
    decreases targets.len(),
{
    let head = targets.drop_last();
    if head.len() > 0 {
        assert(head[0] == targets[0]);
        law_changed_copies_are_reported(request, head, disk);
    } else {
        assert(settled(request, head, disk).1 == disk);
        assert(targets.last() == targets[0]);
    }
}

/// Where presets are the user's own nothing is done to copies, and that is said.
pub proof fn law_external_presets_are_left_as_they_are(target: Seq<char>, resource: Seq<char>)
    ensures
        ({
            let outcome = crate::app_flow::cache_preserved(target, resource);
            &&& outcome.status == LifecycleStatus::Skipped
            &&& outcome.target == target && outcome.resource == Some(resource)
            &&& outcome.effects == seq![
                crate::lifecycle::LifecycleEffect::UserResourcePreserved,
            ]
            &&& outcome.diagnostic_codes == seq!["app_external_preset_cache_preserved"@]
        }),
{
}

/// The target of a request is its prefix without separators at its end.
pub proof fn law_prefixes_end_at_a_name(prefix: Seq<char>, name: Seq<char>)
    ensures
        name.len() > 0 && name.last() != '/' ==> crate::app_cache::without_slashes(name) == name,
        crate::app_cache::without_slashes(prefix.push('/')) == crate::app_cache::without_slashes(
            prefix,
        ),
        crate::app_cache::without_slashes(prefix).len() > 0
            ==> crate::app_cache::without_slashes(prefix).last() != '/',
    decreases prefix.len(),
{
    assert(prefix.push('/').drop_last() =~= prefix);
    if prefix.len() > 0 && prefix.last() == '/' {
        law_prefixes_end_at_a_name(prefix.drop_last(), name);
    }
}

} // verus!
