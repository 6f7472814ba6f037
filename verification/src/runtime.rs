//! The runtime: a context and the preset files that one command works on.

use vstd::prelude::*;
use vstd::string::*;

use crate::app_categories::{
    app_prefix, app_prefix_of, categories_of, category_names, category_set, logical_below,
    logical_under, optional_str, parse_app_categories,
};
use crate::app_dest::{destination_of, resolve_destination, MetadataCode, MetadataError};
use crate::app_lifecycle::{app_source, source_of};
use crate::app_metadata::MetadataFault;
use crate::app_types::{
    app_file_views, category_views, AppCategory, AppCategoryView, AppFile, AppFileView,
    ArtifactRuntime,
};
use crate::context::{platform_style, RuntimeContext, RuntimePlatform};
use crate::json::{has_json_member, json_has_member};
use crate::path::{paths_match, same_path};
use crate::presets::{preset_file, PresetFile, PresetFileView, PresetSnapshot, PresetSourceKind};
use crate::sorted::{in_order, lemma_in_order};
use crate::text::{char_lists, chars_of, joined, pieces, split_chars, string_of, texts};

verus! {

/// A context with its preset files.
#[derive(Clone, Debug)]
pub struct CoreRuntime {
    pub context: RuntimeContext,
    pub presets: PresetSnapshot,
}

/// The App categories of a platform that a filter lets through. Where the presets
/// are external, a filter that lets none through is an error.
pub open spec fn app_categories_on(
    platform: RuntimePlatform,
    external: bool,
    files: Seq<PresetFileView>,
    filter: Option<Seq<char>>,
) -> Result<Seq<AppCategoryView>, MetadataFault> {
    let names = in_order(category_set(files, "app"@, filter));
    if filter is Some && names.len() == 0 && external {
        Err((MetadataCode::CategoryNotFound, filter->0))
    } else {
        categories_of(files, platform, names)
    }
}

/// The App categories of a context that a filter lets through.
pub open spec fn app_categories_of(
    context: RuntimeContext,
    files: Seq<PresetFileView>,
    filter: Option<Seq<char>>,
) -> Result<Seq<AppCategoryView>, MetadataFault> {
    app_categories_on(context.platform, context.is_external_presets, files, filter)
}

/// The App categories of the platform that the filter lets through.
pub fn find_app_categories(
    platform: RuntimePlatform,
    external: bool,
    presets: &PresetSnapshot,
    filter: Option<&str>,
) -> (result: Result<Vec<AppCategory>, MetadataError>)
    ensures
        match app_categories_on(platform, external, presets@, optional_str(filter)) {
            Err(error) => result is Err && result->Err_0@ == error,
            Ok(categories) => result is Ok && category_views(result->Ok_0@) == categories,
        },
{
    let names = category_names(presets, "app", filter);
    proof {
        assert(texts(names@).len() == names@.len());
    }
    if let Some(filter) = filter {
        if names.len() == 0 && external {
            return Err(
                MetadataError {
                    code: MetadataCode::CategoryNotFound,
                    detail: filter.to_owned(),
                },
            );
        }
    }
    parse_app_categories(presets, platform, &names)
}

/// Where a file of a category goes.
pub open spec fn destination_in(
    context: RuntimeContext,
    category: AppCategoryView,
    file: AppFileView,
) -> Result<Seq<char>, MetadataFault> {
    destination_of(
        context,
        category.name,
        category.destination_root,
        file.destination_root,
        file.legacy_dest_annotation,
        file.target_rel,
    )
}

/// The place of the first destination that is the same path.
pub open spec fn taken_place(taken: Seq<(Seq<char>, Seq<char>)>, destination: Seq<char>) -> Option<
    int,
>
    decreases taken.len(),
{
    if taken.len() == 0 {
        None
    } else {
        match taken_place(taken.drop_last(), destination) {
            Some(place) => Some(place),
            None => if same_path(taken.last().0, destination) {
                Some(taken.len() - 1)
            } else {
                None
            },
        }
    }
}

/// The files that go to the same destination, and the destination.
pub open spec fn conflict_text(
    previous: Seq<char>,
    source: Seq<char>,
    destination: Seq<char>,
) -> Seq<char> {
    previous + " and "@ + source + " both resolve to "@ + destination
}

/// The destinations of the files of a category behind those already taken, each
/// with its source; the first file whose destination is invalid or taken is
/// refused.
pub open spec fn file_destinations(
    context: RuntimeContext,
    category: AppCategoryView,
    files: Seq<AppFileView>,
    taken: Seq<(Seq<char>, Seq<char>)>,
) -> Result<Seq<(Seq<char>, Seq<char>)>, MetadataFault>
    decreases files.len(),
{
    if files.len() == 0 {
        Ok(taken)
    } else {
        match file_destinations(context, category, files.drop_last(), taken) {
            Err(error) => Err(error),
            Ok(before) => match destination_in(context, category, files.last()) {
                Err(error) => Err(error),
                Ok(destination) => {
                    let source = app_source(category.name, files.last().source_rel);
                    match taken_place(before, destination) {
                        Some(place) => Err(
                            (
                                MetadataCode::ConflictingDestinations,
                                conflict_text(before[place].1, source, destination),
                            ),
                        ),
                        None => Ok(before.push((destination, source))),
                    }
                },
            },
        }
    }
}

/// The destinations of all files of the categories.
pub open spec fn all_destinations(
    context: RuntimeContext,
    categories: Seq<AppCategoryView>,
) -> Result<Seq<(Seq<char>, Seq<char>)>, MetadataFault>
    decreases categories.len(),
{
    if categories.len() == 0 {
        Ok(Seq::empty())
    } else {
        match all_destinations(context, categories.drop_last()) {
            Err(error) => Err(error),
            Ok(before) => file_destinations(
                context,
                categories.last(),
                categories.last().files,
                before,
            ),
        }
    }
}

/// The first two names of a preset path.
pub open spec fn kind_and_category(logical: Seq<char>) -> (Seq<char>, Seq<char>) {
    let parts = pieces(logical, '/');
    (
        parts[0],
        if parts.len() > 1 {
            parts[1]
        } else {
            Seq::empty()
        },
    )
}

/// A preset file that is of the given source.
pub open spec fn file_of_kind(
    files: Seq<PresetFileView>,
    path: Seq<char>,
    kind: PresetSourceKind,
) -> Option<PresetFileView> {
    match preset_file(files, path) {
        Some(file) => if file.source_kind == kind {
            Some(file)
        } else {
            None
        },
        None => None,
    }
}

/// A file beside the category of a preset path.
pub open spec fn category_file(logical: Seq<char>, name: Seq<char>) -> Seq<char> {
    kind_and_category(logical).0 + "/"@ + kind_and_category(logical).1 + "/"@ + name
}

/// How Bun is told to deal with dependencies of a script. Only external presets
/// may have any, and only with a lock file and without trusted dependencies.
pub open spec fn bun_argument(files: Seq<PresetFileView>, logical: Seq<char>) -> Result<
    Seq<char>,
    MetadataFault,
> {
    match preset_file(files, logical) {
        None => Err((MetadataCode::BunScriptMissing, logical)),
        Some(script) => if script.source_kind == PresetSourceKind::Embedded {
            Ok("--no-install"@)
        } else {
            let package = file_of_kind(
                files,
                category_file(logical, "package.json"@),
                script.source_kind,
            );
            let lock = file_of_kind(
                files,
                category_file(logical, "bun.lock"@),
                script.source_kind,
            );
            match (package, lock) {
                (None, None) => Ok("--no-install"@),
                (Some(package), Some(_)) => match json_has_member(
                    package.bytes,
                    "trustedDependencies"@,
                ) {
                    None => Err((MetadataCode::BunPackageInvalid, logical)),
                    Some(true) => Err((MetadataCode::BunTrustedDependencies, logical)),
                    Some(false) => Ok("--install=fallback"@),
                },
                _ => Err((MetadataCode::BunLockIncomplete, logical)),
            }
        },
    }
}

/// The scripts of the files that Bun runs.
pub open spec fn generator_scripts(name: Seq<char>, files: Seq<AppFileView>) -> Seq<Seq<char>>
    decreases files.len(),
{
    if files.len() == 0 {
        Seq::empty()
    } else {
        let before = generator_scripts(name, files.drop_last());
        match files.last().generator {
            Some(generator) => if generator.runtime == ArtifactRuntime::Bun {
                before.push(app_source(name, generator.script))
            } else {
                before
            },
            None => before,
        }
    }
}

/// The scripts of a category that Bun runs: that of the artifact first.
pub open spec fn bun_scripts(category: AppCategoryView) -> Seq<Seq<char>> {
    let own = match category.artifact {
        Some(artifact) => if artifact.runtime == ArtifactRuntime::Bun {
            seq![app_source(category.name, artifact.script)]
        } else {
            Seq::empty()
        },
        None => Seq::empty(),
    };
    own + generator_scripts(category.name, category.files)
}

/// The scripts of the categories that Bun runs.
pub open spec fn all_bun_scripts(categories: Seq<AppCategoryView>) -> Seq<Seq<char>>
    decreases categories.len(),
{
    if categories.len() == 0 {
        Seq::empty()
    } else {
        all_bun_scripts(categories.drop_last()) + bun_scripts(categories.last())
    }
}

/// What is wrong with the first script that Bun cannot be given.
pub open spec fn first_bun_fault(files: Seq<PresetFileView>, scripts: Seq<Seq<char>>) -> Option<
    MetadataFault,
>
    decreases scripts.len(),
{
    if scripts.len() == 0 {
        None
    } else {
        match first_bun_fault(files, scripts.drop_last()) {
            Some(error) => Some(error),
            None => match bun_argument(files, scripts.last()) {
                Err(error) => Some(error),
                Ok(_) => None,
            },
        }
    }
}

/// Whether a category is in order, and whether it has metadata.
pub open spec fn snapshot_verdict(
    context: RuntimeContext,
    files: Seq<PresetFileView>,
    category: Seq<char>,
) -> Result<bool, MetadataFault> {
    match app_categories_of(context, files, Some(category)) {
        Err(error) => Err(error),
        Ok(categories) => match all_destinations(context, categories) {
            Err(error) => Err(error),
            Ok(_) => match first_bun_fault(files, all_bun_scripts(categories)) {
                Some(error) => Err(error),
                None => Ok(preset_file(files, app_prefix(category) + "shine.toml"@) is Some),
            },
        },
    }
}

/// A destination that is taken, and the source of the file that takes it.
struct TakenDestination {
    path: String,
    source: String,
}

spec fn taken_views(taken: Seq<TakenDestination>) -> Seq<(Seq<char>, Seq<char>)> {
    taken.map_values(|item: TakenDestination| (item.path@, item.source@))
}

proof fn lemma_taken_place(taken: Seq<(Seq<char>, Seq<char>)>, destination: Seq<char>)
    ensures
        match taken_place(taken, destination) {
            Some(place) => 0 <= place < taken.len() && same_path(taken[place].0, destination)
                && forall|j: int|
                0 <= j < place ==> !same_path((#[trigger] taken[j]).0, destination),
            None => forall|j: int|
                0 <= j < taken.len() ==> !same_path((#[trigger] taken[j]).0, destination),
        },
    decreases taken.len(),
{
    if taken.len() > 0 {
        lemma_taken_place(taken.drop_last(), destination);
        assert forall|j: int| 0 <= j < taken.len() - 1 implies taken.drop_last()[j]
            == taken[j] by {}
    }
}

fn find_taken(taken: &Vec<TakenDestination>, destination: &str) -> (place: Option<usize>)
    ensures
        match place {
            Some(place) => taken_place(taken_views(taken@), destination@) == Some(place as int)
                && place < taken@.len(),
            None => taken_place(taken_views(taken@), destination@) is None,
        },
{
    let ghost all = taken_views(taken@);
    proof {
        lemma_taken_place(all, destination@);
    }
    let mut i: usize = 0;
    while i < taken.len()
        invariant
            i <= taken.len(),
            all == taken_views(taken@),
            forall|j: int| 0 <= j < i ==> !same_path((#[trigger] all[j]).0, destination@),
        decreases taken.len() - i,
    {
        proof {
            assert(all[i as int] == (taken@[i as int].path@, taken@[i as int].source@));
        }
        if paths_match(taken[i].path.as_str(), destination) {
            proof {
                lemma_taken_place(all, destination@);
            }
            return Some(i);
        }
        i += 1;
    }
    proof {
        lemma_taken_place(all, destination@);
    }
    None
}

proof fn lemma_file_error_stays(
    context: RuntimeContext,
    category: AppCategoryView,
    files: Seq<AppFileView>,
    taken: Seq<(Seq<char>, Seq<char>)>,
    count: int,
)
    requires
        0 <= count <= files.len(),
        file_destinations(context, category, files.take(count), taken) is Err,
    ensures
        file_destinations(context, category, files, taken) == file_destinations(
            context,
            category,
            files.take(count),
            taken,
        ),
    decreases files.len() - count,
{
    if count == files.len() {
        assert(files.take(count) =~= files);
    } else {
        assert(files.take(count + 1).drop_last() =~= files.take(count));
        lemma_file_error_stays(context, category, files, taken, count + 1);
    }
}

proof fn lemma_category_error_stays(
    context: RuntimeContext,
    categories: Seq<AppCategoryView>,
    count: int,
)
    requires
        0 <= count <= categories.len(),
        all_destinations(context, categories.take(count)) is Err,
    ensures
        all_destinations(context, categories) == all_destinations(
            context,
            categories.take(count),
        ),
    decreases categories.len() - count,
{
    if count == categories.len() {
        assert(categories.take(count) =~= categories);
    } else {
        assert(categories.take(count + 1).drop_last() =~= categories.take(count));
        lemma_category_error_stays(context, categories, count + 1);
    }
}

proof fn lemma_bun_fault_stays(
    files: Seq<PresetFileView>,
    scripts: Seq<Seq<char>>,
    count: int,
)
    requires
        0 <= count <= scripts.len(),
        first_bun_fault(files, scripts.take(count)) is Some,
    ensures
        first_bun_fault(files, scripts) == first_bun_fault(files, scripts.take(count)),
    decreases scripts.len() - count,
{
    if count == scripts.len() {
        assert(scripts.take(count) =~= scripts);
    } else {
        assert(scripts.take(count + 1).drop_last() =~= scripts.take(count));
        lemma_bun_fault_stays(files, scripts, count + 1);
    }
}

fn place_category(
    context: &RuntimeContext,
    category: &AppCategory,
    earlier: Vec<TakenDestination>,
) -> (result: Result<Vec<TakenDestination>, MetadataError>)
    ensures
        match file_destinations(*context, category@, category@.files, taken_views(earlier@)) {
            Err(error) => result is Err && result->Err_0@ == error,
            Ok(after) => result is Ok && taken_views(result->Ok_0@) == after,
        },
{
    let ghost files = category@.files;
    let ghost before = taken_views(earlier@);
    let mut taken = earlier;
    let mut i: usize = 0;
    proof {
        assert(files.take(0) =~= Seq::<AppFileView>::empty());
    }
    while i < category.files.len()
        invariant
            i <= category.files.len(),
            files == app_file_views(category.files@),
            files == category@.files,
            before == taken_views(earlier@),
            file_destinations(*context, category@, files.take(i as int), before) == Ok::<
                Seq<(Seq<char>, Seq<char>)>,
                MetadataFault,
            >(taken_views(taken@)),
        decreases category.files.len() - i,
    {
        let file = &category.files[i];
        let ghost now = taken@;
        proof {
            assert(files.take(i as int + 1).drop_last() =~= files.take(i as int));
            assert(files.take(i as int + 1).last() == file@);
        }
        let destination = match resolve_destination(context, category, file) {
            Ok(destination) => destination,
            Err(error) => {
                proof {
                    lemma_file_error_stays(*context, category@, files, before, i as int + 1);
                }
                return Err(error);
            },
        };
        let source = source_of(category.name.as_str(), file.source_rel.as_str());
        if let Some(place) = find_taken(&taken, destination.as_str()) {
            proof {
                assert(taken_views(taken@)[place as int].1 == taken@[place as int].source@);
                lemma_file_error_stays(*context, category@, files, before, i as int + 1);
            }
            let mut detail: String = taken[place].source.clone();
            detail.append(" and ");
            detail.append(source.as_str());
            detail.append(" both resolve to ");
            detail.append(destination.as_str());
            return Err(MetadataError { code: MetadataCode::ConflictingDestinations, detail });
        }
        let ghost added = (destination@, source@);
        taken.push(TakenDestination { path: destination, source });
        proof {
            assert(taken_views(taken@) =~= taken_views(now).push(added));
        }
        i += 1;
    }
    proof {
        assert(files.take(files.len() as int) =~= files);
    }
    Ok(taken)
}

fn push_generator_scripts(category: &AppCategory, scripts: &mut Vec<String>)
    ensures
        texts(final(scripts)@) == texts(old(scripts)@) + generator_scripts(
            category@.name,
            category@.files,
        ),
{
    let ghost before = texts(scripts@);
    let ghost files = category@.files;
    let mut i: usize = 0;
    proof {
        assert(files.take(0) =~= Seq::<AppFileView>::empty());
        assert(texts(scripts@) =~= before + generator_scripts(category@.name, files.take(0)));
    }
    while i < category.files.len()
        invariant
            i <= category.files.len(),
            files == app_file_views(category.files@),
            texts(scripts@) == before + generator_scripts(category@.name, files.take(i as int)),
        decreases category.files.len() - i,
    {
        let ghost now = scripts@;
        proof {
            assert(files.take(i as int + 1).drop_last() =~= files.take(i as int));
            assert(files.take(i as int + 1).last() == category.files@[i as int]@);
        }
        if let Some(generator) = &category.files[i].generator {
            if generator.runtime == ArtifactRuntime::Bun {
                let script = source_of(category.name.as_str(), generator.script.as_str());
                let ghost added = script@;
                scripts.push(script);
                proof {
                    assert(texts(scripts@) =~= texts(now).push(added));
                    assert(texts(scripts@) =~= before + generator_scripts(
                        category@.name,
                        files.take(i as int + 1),
                    ));
                }
            }
        }
        i += 1;
    }
    proof {
        assert(files.take(files.len() as int) =~= files);
    }
}

fn collect_bun_scripts(categories: &Vec<AppCategory>) -> (scripts: Vec<String>)
    ensures
        texts(scripts@) == all_bun_scripts(category_views(categories@)),
{
    let mut scripts: Vec<String> = Vec::new();
    let ghost all = category_views(categories@);
    let mut i: usize = 0;
    proof {
        assert(all.take(0) =~= Seq::<AppCategoryView>::empty());
        assert(texts(scripts@) =~= Seq::<Seq<char>>::empty());
    }
    while i < categories.len()
        invariant
            i <= categories.len(),
            all == category_views(categories@),
            texts(scripts@) == all_bun_scripts(all.take(i as int)),
        decreases categories.len() - i,
    {
        let category = &categories[i];
        let ghost before = texts(scripts@);
        proof {
            assert(all.take(i as int + 1).drop_last() =~= all.take(i as int));
            assert(all.take(i as int + 1).last() == category@);
        }
        let ghost own = match category@.artifact {
            Some(artifact) => if artifact.runtime == ArtifactRuntime::Bun {
                seq![app_source(category@.name, artifact.script)]
            } else {
                Seq::empty()
            },
            None => Seq::empty(),
        };
        if let Some(artifact) = &category.artifact {
            if artifact.runtime == ArtifactRuntime::Bun {
                let ghost now = scripts@;
                let script = source_of(category.name.as_str(), artifact.script.as_str());
                let ghost added = script@;
                scripts.push(script);
                proof {
                    assert(texts(scripts@) =~= texts(now).push(added));
                }
            }
        }
        proof {
            assert(texts(scripts@) =~= before + own);
        }
        push_generator_scripts(category, &mut scripts);
        proof {
            assert(texts(scripts@) =~= before + bun_scripts(category@));
        }
        i += 1;
    }
    proof {
        assert(all.take(all.len() as int) =~= all);
    }
    scripts
}

fn names_of(logical: &str) -> (names: (String, String))
    ensures
        (names.0@, names.1@) == kind_and_category(logical@),
{
    let chars = chars_of(logical);
    let parts = split_chars(chars.as_slice(), '/');
    proof {
        assert(char_lists(parts@).len() == parts@.len());
        assert(char_lists(parts@)[0] == parts@[0]@);
    }
    let kind = string_of(parts[0].as_slice());
    let category = if parts.len() > 1 {
        proof {
            assert(char_lists(parts@)[1] == parts@[1]@);
        }
        string_of(parts[1].as_slice())
    } else {
        String::new()
    };
    proof {
        if parts@.len() <= 1 {
            assert(category@ =~= Seq::<char>::empty());
        }
    }
    (kind, category)
}

/// Where the preset file stands that an App file is made from.
pub open spec fn source_path(
    category: Seq<char>,
    source_rel: Seq<char>,
    platform: RuntimePlatform,
) -> Seq<char> {
    logical_under(app_prefix(category), source_rel, platform_style(platform))
}

impl CoreRuntime {
    pub fn new(context: RuntimeContext, presets: PresetSnapshot) -> (runtime: CoreRuntime)
        ensures
            runtime.context == context,
            runtime.presets == presets,
    {
        CoreRuntime { context, presets }
    }

    /// The App categories that the filter lets through, with and without metadata.
    pub fn app_categories(&self, filter: Option<&str>) -> (result: Result<
        Vec<AppCategory>,
        MetadataError,
    >)
        ensures
            match app_categories_of(self.context, self.presets@, optional_str(filter)) {
                Err(error) => result is Err && result->Err_0@ == error,
                Ok(categories) => result is Ok && category_views(result->Ok_0@) == categories,
            },
    {
        find_app_categories(
            self.context.platform,
            self.context.is_external_presets,
            &self.presets,
            filter,
        )
    }

    /// The preset file that an App file is made from.
    pub fn app_source_bytes(&self, category: &str, file: &AppFile) -> (result: Result<
        &[u8],
        MetadataError,
    >)
        ensures
            match preset_file(
                self.presets@,
                source_path(category@, file@.source_rel, self.context.platform),
            ) {
                Some(source) => result is Ok && result->Ok_0@ == source.bytes,
                None => result is Err && result->Err_0@ == (
                    MetadataCode::MissingPresetFile,
                    source_path(category@, file@.source_rel, self.context.platform),
                ),
            },
    {
        let prefix = app_prefix_of(category);
        let path = logical_below(
            prefix.as_str(),
            file.source_rel.as_str(),
            self.context.platform.path_style(),
        );
        match self.presets.get(path.as_str()) {
            Some(bytes) => Ok(bytes),
            None => Err(MetadataError { code: MetadataCode::MissingPresetFile, detail: path }),
        }
    }

    /// Where the file of the category goes.
    pub fn app_destination(&self, category: &AppCategory, file: &AppFile) -> (result: Result<
        String,
        MetadataError,
    >)
        ensures
            match destination_in(self.context, category@, file@) {
                Ok(path) => result is Ok && result->Ok_0@ == path,
                Err(error) => result is Err && result->Err_0@ == error,
            },
    {
        resolve_destination(&self.context, category, file)
    }

    /// Refuses categories of which two files go to the same place.
    pub fn validate_app_destinations(&self, categories: &Vec<AppCategory>) -> (result: Result<
        (),
        MetadataError,
    >)
        ensures
            match all_destinations(self.context, category_views(categories@)) {
                Err(error) => result is Err && result->Err_0@ == error,
                Ok(_) => result is Ok,
            },
    {
        let mut taken: Vec<TakenDestination> = Vec::new();
        let ghost all = category_views(categories@);
        let mut i: usize = 0;
        proof {
            assert(all.take(0) =~= Seq::<AppCategoryView>::empty());
            assert(taken_views(taken@) =~= Seq::<(Seq<char>, Seq<char>)>::empty());
        }
        while i < categories.len()
            invariant
                i <= categories.len(),
                all == category_views(categories@),
                all_destinations(self.context, all.take(i as int)) == Ok::<
                    Seq<(Seq<char>, Seq<char>)>,
                    MetadataFault,
                >(taken_views(taken@)),
            decreases categories.len() - i,
        {
            proof {
                assert(all.take(i as int + 1).drop_last() =~= all.take(i as int));
                assert(all.take(i as int + 1).last() == categories@[i as int]@);
            }
            match place_category(&self.context, &categories[i], taken) {
                Ok(after) => {
                    taken = after;
                },
                Err(error) => {
                    proof {
                        lemma_category_error_stays(self.context, all, i as int + 1);
                    }
                    return Err(error);
                },
            }
            i += 1;
        }
        proof {
            assert(all.take(all.len() as int) =~= all);
        }
        Ok(())
    }

    fn category_companion(&self, logical: &str, name: &str, kind: PresetSourceKind) -> (file:
        Option<&PresetFile>)
        ensures
            match file {
                Some(file) => file_of_kind(self.presets@, category_file(logical@, name@), kind)
                    == Some(file@),
                None => file_of_kind(self.presets@, category_file(logical@, name@), kind) is None,
            },
    {
        let (first, second) = names_of(logical);
        let mut path = joined(first.as_str(), "/");
        path.append(second.as_str());
        path.append("/");
        path.append(name);
        match self.presets.file(path.as_str()) {
            Some(file) => if file.origin.source_kind == kind {
                Some(file)
            } else {
                None
            },
            None => None,
        }
    }

    /// How Bun is told to deal with the dependencies of the script.
    pub fn bun_dependency_arg(&self, logical: &str) -> (result: Result<String, MetadataError>)
        ensures
            match bun_argument(self.presets@, logical@) {
                Ok(argument) => result is Ok && result->Ok_0@ == argument,
                Err(error) => result is Err && result->Err_0@ == error,
            },
    {
        let script = match self.presets.file(logical) {
            Some(script) => script,
            None => {
                return Err(
                    MetadataError {
                        code: MetadataCode::BunScriptMissing,
                        detail: logical.to_owned(),
                    },
                );
            },
        };
        let kind = script.origin.source_kind;
        if kind == PresetSourceKind::Embedded {
            return Ok("--no-install".to_owned());
        }
        let package = self.category_companion(logical, "package.json", kind);
        let lock = self.category_companion(logical, "bun.lock", kind);
        let code = match (package, lock) {
            (None, None) => return Ok("--no-install".to_owned()),
            (Some(package), Some(_)) => match has_json_member(
                package.bytes.as_slice(),
                "trustedDependencies",
            ) {
                None => MetadataCode::BunPackageInvalid,
                Some(true) => MetadataCode::BunTrustedDependencies,
                Some(false) => return Ok("--install=fallback".to_owned()),
            },
            _ => MetadataCode::BunLockIncomplete,
        };
        Err(MetadataError { code, detail: logical.to_owned() })
    }

    fn check_bun_scripts(&self, scripts: &Vec<String>) -> (fault: Option<MetadataError>)
        ensures
            match first_bun_fault(self.presets@, texts(scripts@)) {
                Some(error) => fault is Some && fault->0@ == error,
                None => fault is None,
            },
    {
        let ghost all = texts(scripts@);
        let mut i: usize = 0;
        proof {
            assert(all.take(0) =~= Seq::<Seq<char>>::empty());
        }
        while i < scripts.len()
            invariant
                i <= scripts.len(),
                all == texts(scripts@),
                first_bun_fault(self.presets@, all.take(i as int)) is None,
            decreases scripts.len() - i,
        {
            proof {
                assert(all.take(i as int + 1).drop_last() =~= all.take(i as int));
                assert(all.take(i as int + 1).last() == scripts@[i as int]@);
            }
            if let Err(error) = self.bun_dependency_arg(scripts[i].as_str()) {
                proof {
                    lemma_bun_fault_stays(self.presets@, all, i as int + 1);
                }
                return Some(error);
            }
            i += 1;
        }
        proof {
            assert(all.take(all.len() as int) =~= all);
        }
        None
    }

    /// Whether the category is in order, and whether it has metadata.
    pub fn validate_app_category_snapshot(&self, category: &str) -> (result: Result<
        bool,
        MetadataError,
    >)
        ensures
            match snapshot_verdict(self.context, self.presets@, category@) {
                Ok(has_metadata) => result is Ok && result->Ok_0 == has_metadata,
                Err(error) => result is Err && result->Err_0@ == error,
            },
    {
        let prefix = app_prefix_of(category);
        let metadata = joined(prefix.as_str(), "shine.toml");
        let has_metadata = self.presets.file(metadata.as_str()).is_some();
        let categories = match self.app_categories(Some(category)) {
            Ok(categories) => categories,
            Err(error) => return Err(error),
        };
        if let Err(error) = self.validate_app_destinations(&categories) {
            return Err(error);
        }
        let scripts = collect_bun_scripts(&categories);
        if let Some(error) = self.check_bun_scripts(&scripts) {
            return Err(error);
        }
        Ok(has_metadata)
    }
}

/// Whether no two destinations are the same path.
pub open spec fn all_apart(taken: Seq<(Seq<char>, Seq<char>)>) -> bool {
    forall|i: int, j: int|
        0 <= i < j < taken.len() ==> !same_path((#[trigger] taken[i]).0, (#[trigger] taken[j]).0)
}

proof fn lemma_file_destinations_apart(
    context: RuntimeContext,
    category: AppCategoryView,
    files: Seq<AppFileView>,
    taken: Seq<(Seq<char>, Seq<char>)>,
)
    requires
        all_apart(taken),
        file_destinations(context, category, files, taken) is Ok,
    ensures
        all_apart(file_destinations(context, category, files, taken)->Ok_0),
    decreases files.len(),
{
    if files.len() > 0 {
        lemma_file_destinations_apart(context, category, files.drop_last(), taken);
        let before = file_destinations(context, category, files.drop_last(), taken)->Ok_0;
        let destination = destination_in(context, category, files.last())->Ok_0;
        lemma_taken_place(before, destination);
    }
}

/// Categories that are accepted put no two files at the same path.
pub proof fn law_accepted_destinations_are_distinct(
    context: RuntimeContext,
    categories: Seq<AppCategoryView>,
)
    requires
        all_destinations(context, categories) is Ok,
    ensures
        all_apart(all_destinations(context, categories)->Ok_0),
    decreases categories.len(),
{
    if categories.len() > 0 {
        law_accepted_destinations_are_distinct(context, categories.drop_last());
        lemma_file_destinations_apart(
            context,
            categories.last(),
            categories.last().files,
            all_destinations(context, categories.drop_last())->Ok_0,
        );
    }
}

proof fn lemma_category_set(files: Seq<PresetFileView>, kind: Seq<char>, name: Seq<char>)
    ensures
        category_set(files, kind, Some(name)).subset_of(Set::empty().insert(name)),
    decreases files.len(),
{
    if files.len() > 0 {
        lemma_category_set(files.drop_last(), kind, name);
    }
}

proof fn lemma_named_categories(
    files: Seq<PresetFileView>,
    platform: RuntimePlatform,
    names: Seq<Seq<char>>,
    name: Seq<char>,
)
    requires
        forall|i: int| 0 <= i < names.len() ==> #[trigger] names[i] == name,
        categories_of(files, platform, names) is Ok,
    ensures
        ({
            let found = categories_of(files, platform, names)->Ok_0;
            forall|i: int| 0 <= i < found.len() ==> (#[trigger] found[i]).name == name
        }),
    decreases names.len(),
{
    if names.len() > 0 {
        assert(names.last() == name);
        assert forall|i: int| 0 <= i < names.drop_last().len() implies #[trigger]
            names.drop_last()[i] == name by {
            assert(names.drop_last()[i] == names[i]);
        }
        lemma_named_categories(files, platform, names.drop_last(), name);
    }
}

/// A filter lets the category of its name through, and no other.
pub proof fn law_filter_names_its_category(
    context: RuntimeContext,
    files: Seq<PresetFileView>,
    name: Seq<char>,
)
    requires
        app_categories_of(context, files, Some(name)) is Ok,
    ensures
        ({
            let found = app_categories_of(context, files, Some(name))->Ok_0;
            forall|i: int| 0 <= i < found.len() ==> (#[trigger] found[i]).name == name
        }),
{
    let set = category_set(files, "app"@, Some(name));
    let list: Seq<Seq<char>> = if set.contains(name) {
        seq![name]
    } else {
        Seq::empty()
    };
    lemma_category_set(files, "app"@, name);
    assert(list.to_set() =~= set) by {
        if set.contains(name) {
            assert(list[0] == name);
        }
    }
    lemma_in_order(list);
    lemma_named_categories(files, context.platform, list, name);
}

} // verus!
