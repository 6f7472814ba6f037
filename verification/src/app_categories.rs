//! The App categories that a snapshot of preset files holds.

use vstd::prelude::*;
use vstd::string::*;

use crate::app_dest::{
    metadata_error, normalize_relative, optional_texts, platform_matches, platform_wanted,
    relative_fault, selected_category, selected_file, MetadataCode, MetadataError,
};
use crate::app_metadata::{
    annotation_of, artifact, artifact_of, description_of, dest_annotation, generator,
    generator_of, hooks, hooks_of, install_strategy, legacy_description, strategy_of, transforms,
    transforms_of, MetadataFault,
};
use crate::app_metadata_types::{CategoryToml, FileToml, ListModeToml};
use crate::app_types::{
    app_file_views, category_views, copy_optional, hook_views, optional_permissions, optional_root,
    AppCategory, AppCategoryView, AppDestinationRoot, AppFile, AppFileView, AppHookView,
    AppListMode, DestinationRootView, PermissionDeclarationV1,
};
use crate::context::{platform_style, RuntimePlatform};
use crate::manifest::AppInstallStrategy;
use crate::path::{logical_path_on, logical_text, path_parts, PathStyle};
use crate::plan::optional_text;
use crate::presets::{preset_file, PresetFileView, PresetSnapshot};
use crate::sorted::{in_order, insert_sorted, is_sorted_set, lemma_in_order};
use crate::text::{after_prefix, begins_with, cut_at, joined, same_text, split_once, texts};

verus! {

/// The category that a preset path of a kind belongs to.
pub open spec fn category_in(path: Seq<char>, kind: Seq<char>) -> Option<Seq<char>> {
    let prefix = kind + "/"@;
    if begins_with(path, prefix) {
        match cut_at(path.skip(prefix.len() as int), '/') {
            Some((category, _)) => Some(category),
            None => None,
        }
    } else {
        None
    }
}

/// Whether a filter lets a name through.
pub open spec fn passes(filter: Option<Seq<char>>, name: Seq<char>) -> bool {
    match filter {
        Some(filter) => filter == name,
        None => true,
    }
}

/// The categories of a kind that the files belong to and the filter lets through.
pub open spec fn category_set(
    files: Seq<PresetFileView>,
    kind: Seq<char>,
    filter: Option<Seq<char>>,
) -> Set<Seq<char>>
    decreases files.len(),
{
    if files.len() == 0 {
        Set::empty()
    } else {
        let before = category_set(files.drop_last(), kind, filter);
        match category_in(files.last().path, kind) {
            Some(name) => if passes(filter, name) {
                before.insert(name)
            } else {
                before
            },
            None => before,
        }
    }
}

/// A text that may be absent.
pub open spec fn optional_str(text: Option<&str>) -> Option<Seq<char>> {
    match text {
        Some(text) => Some(text@),
        None => None,
    }
}

/// The categories of the kind, in order.
pub fn category_names(presets: &PresetSnapshot, kind: &str, filter: Option<&str>) -> (names: Vec<
    String,
>)
    ensures
        is_sorted_set(texts(names@)),
        texts(names@).to_set() == category_set(presets@, kind@, optional_str(filter)),
        texts(names@) == in_order(category_set(presets@, kind@, optional_str(filter))),
{
    let prefix = joined(kind, "/");
    let mut names: Vec<String> = Vec::new();
    let ghost all = presets@;
    let ghost wanted = optional_str(filter);
    let mut i: usize = 0;
    proof {
        assert(all.take(0) =~= Seq::<PresetFileView>::empty());
        assert(texts(names@).to_set() =~= Set::<Seq<char>>::empty());
    }
    while i < presets.files.len()
        invariant
            i <= presets.files.len(),
            all == presets@,
            wanted == optional_str(filter),
            prefix@ == kind@ + "/"@,
            is_sorted_set(texts(names@)),
            texts(names@).to_set() == category_set(all.take(i as int), kind@, wanted),
        decreases presets.files.len() - i,
    {
        let path = &presets.files[i].path;
        proof {
            assert(all.take(i as int + 1).drop_last() =~= all.take(i as int));
            assert(all.take(i as int + 1).last() == presets.files@[i as int]@);
        }
        if let Some(rest) = after_prefix(path.as_str(), prefix.as_str()) {
            if let Some((category, _)) = split_once(rest.as_str(), '/') {
                let kept = match filter {
                    Some(filter) => same_text(filter, category.as_str()),
                    None => true,
                };
                if kept {
                    insert_sorted(&mut names, category);
                }
            }
        }
        i += 1;
    }
    proof {
        assert(all.take(all.len() as int) =~= all);
        lemma_in_order(texts(names@));
    }
    names
}

/// The directory of the preset files of a category, with a `/` behind it.
pub open spec fn app_prefix(name: Seq<char>) -> Seq<char> {
    "app/"@ + name + "/"@
}

/// The directory of the preset files of the category.
pub fn app_prefix_of(name: &str) -> (prefix: String)
    ensures
        prefix@ == app_prefix(name@),
{
    let mut prefix = joined("app/", name);
    prefix.append("/");
    prefix
}

/// The files under a directory but for its metadata, by their paths below it.
pub open spec fn files_under(files: Seq<PresetFileView>, prefix: Seq<char>) -> Seq<Seq<char>>
    decreases files.len(),
{
    if files.len() == 0 {
        Seq::empty()
    } else {
        let before = files_under(files.drop_last(), prefix);
        let path = files.last().path;
        let relative = path.skip(prefix.len() as int);
        if begins_with(path, prefix) && relative.len() > 0 && relative != "shine.toml"@ {
            before.push(relative)
        } else {
            before
        }
    }
}

/// The files under the directory, by their paths below it.
pub fn collect_category_files(presets: &PresetSnapshot, prefix: &str) -> (list: Vec<String>)
    ensures
        texts(list@) == files_under(presets@, prefix@),
{
    let mut list: Vec<String> = Vec::new();
    let ghost all = presets@;
    let mut i: usize = 0;
    proof {
        assert(all.take(0) =~= Seq::<PresetFileView>::empty());
        assert(texts(list@) =~= Seq::<Seq<char>>::empty());
    }
    while i < presets.files.len()
        invariant
            i <= presets.files.len(),
            all == presets@,
            texts(list@) == files_under(all.take(i as int), prefix@),
        decreases presets.files.len() - i,
    {
        let path = &presets.files[i].path;
        let ghost before = list@;
        proof {
            assert(all.take(i as int + 1).drop_last() =~= all.take(i as int));
            assert(all.take(i as int + 1).last() == presets.files@[i as int]@);
        }
        if let Some(relative) = after_prefix(path.as_str(), prefix) {
            if !relative.as_str().is_empty() && !same_text(relative.as_str(), "shine.toml") {
                let ghost added = relative@;
                list.push(relative);
                proof {
                    assert(texts(list@) =~= texts(before).push(added));
                }
            }
        }
        i += 1;
    }
    proof {
        assert(all.take(all.len() as int) =~= all);
    }
    list
}

/// A file that is installed as it is.
pub open spec fn plain_file(
    source: Seq<char>,
    description: Option<Seq<char>>,
    annotation: Option<Seq<char>>,
) -> AppFileView {
    AppFileView {
        source_rel: source,
        target_rel: source,
        destination_root: None,
        description,
        display_name: None,
        legacy_dest_annotation: annotation,
        transforms: Seq::empty(),
        install_strategy: None,
        requires_admin: false,
        restart_hint: None,
        generator: None,
    }
}

fn make_plain_file(
    source: String,
    description: Option<String>,
    annotation: Option<String>,
) -> (file: AppFile)
    ensures
        file@ == plain_file(source@, optional_text(description), optional_text(annotation)),
{
    let file = AppFile {
        target_rel: source.clone(),
        source_rel: source,
        destination_root: None,
        description,
        display_name: None,
        legacy_dest_annotation: annotation,
        transforms: Vec::new(),
        install_strategy: AppInstallStrategy::Copy,
        requires_admin: false,
        restart_hint: None,
        generator: None,
    };
    proof {
        assert(texts(file.transforms@) =~= Seq::<Seq<char>>::empty());
    }
    file
}

/// Where a preset file stands that is named relative to a directory.
pub open spec fn logical_under(
    prefix: Seq<char>,
    relative: Seq<char>,
    style: PathStyle,
) -> Seq<char> {
    prefix + logical_text(path_parts(relative, style))
}

/// Where the preset file stands.
pub fn logical_below(prefix: &str, relative: &str, style: PathStyle) -> (path: String)
    ensures
        path@ == logical_under(prefix@, relative@, style),
{
    let name = logical_path_on(relative, style);
    joined(prefix, name.as_str())
}

/// The content of a preset file; empty where there is none.
pub open spec fn preset_bytes(files: Seq<PresetFileView>, path: Seq<char>) -> Seq<u8> {
    match preset_file(files, path) {
        Some(file) => file.bytes,
        None => Seq::empty(),
    }
}

/// A file of a category without metadata: its own lines may describe it and say
/// where it goes.
pub open spec fn legacy_file(
    files: Seq<PresetFileView>,
    prefix: Seq<char>,
    source: Seq<char>,
) -> AppFileView {
    let bytes = preset_bytes(files, logical_under(prefix, source, PathStyle::Unix));
    plain_file(source, description_of(bytes), annotation_of(bytes))
}

/// The files of a category without metadata.
pub open spec fn legacy_files(
    files: Seq<PresetFileView>,
    prefix: Seq<char>,
    sources: Seq<Seq<char>>,
) -> Seq<AppFileView> {
    sources.map_values(|source: Seq<char>| legacy_file(files, prefix, source))
}

/// Files that are installed as they are.
pub open spec fn plain_files(sources: Seq<Seq<char>>) -> Seq<AppFileView> {
    sources.map_values(|source: Seq<char>| plain_file(source, None, None))
}

fn make_legacy_files(presets: &PresetSnapshot, prefix: &str) -> (files: Vec<AppFile>)
    ensures
        app_file_views(files@) == legacy_files(presets@, prefix@, files_under(presets@, prefix@)),
{
    let sources = collect_category_files(presets, prefix);
    let ghost all = legacy_files(presets@, prefix@, texts(sources@));
    let mut files: Vec<AppFile> = Vec::new();
    let mut i: usize = 0;
    proof {
        assert(app_file_views(files@) =~= all.take(0));
    }
    while i < sources.len()
        invariant
            i <= sources.len(),
            all == legacy_files(presets@, prefix@, texts(sources@)),
            app_file_views(files@) == all.take(i as int),
        decreases sources.len() - i,
    {
        let ghost before = files@;
        let path = logical_below(prefix, sources[i].as_str(), PathStyle::Unix);
        let empty: Vec<u8> = Vec::new();
        let bytes: &[u8] = match presets.get(path.as_str()) {
            Some(bytes) => bytes,
            None => empty.as_slice(),
        };
        proof {
            assert(bytes@ =~= preset_bytes(presets@, path@));
        }
        let description = legacy_description(bytes);
        let annotation = dest_annotation(bytes);
        let file = make_plain_file(sources[i].clone(), description, annotation);
        let ghost added = file@;
        files.push(file);
        proof {
            assert(all[i as int] == added) by {
                assert(texts(sources@)[i as int] == sources@[i as int]@);
            }
            assert(all.take(i as int + 1) =~= all.take(i as int).push(added));
            assert(app_file_views(files@) =~= app_file_views(before).push(added));
        }
        i += 1;
    }
    proof {
        assert(all.take(all.len() as int) =~= all);
    }
    files
}

fn make_plain_files(presets: &PresetSnapshot, prefix: &str) -> (files: Vec<AppFile>)
    ensures
        app_file_views(files@) == plain_files(files_under(presets@, prefix@)),
{
    let sources = collect_category_files(presets, prefix);
    let ghost all = plain_files(texts(sources@));
    let mut files: Vec<AppFile> = Vec::new();
    let mut i: usize = 0;
    proof {
        assert(app_file_views(files@) =~= all.take(0));
    }
    while i < sources.len()
        invariant
            i <= sources.len(),
            all == plain_files(texts(sources@)),
            app_file_views(files@) == all.take(i as int),
        decreases sources.len() - i,
    {
        let ghost before = files@;
        let file = make_plain_file(sources[i].clone(), None, None);
        let ghost added = file@;
        files.push(file);
        proof {
            assert(all[i as int] == added) by {
                assert(texts(sources@)[i as int] == sources@[i as int]@);
            }
            assert(all.take(i as int + 1) =~= all.take(i as int).push(added));
            assert(app_file_views(files@) =~= app_file_views(before).push(added));
        }
        i += 1;
    }
    proof {
        assert(all.take(all.len() as int) =~= all);
    }
    files
}

/// Where a file of the metadata goes on a platform; none where it is not for it.
pub open spec fn file_place(file: FileToml, platform: RuntimePlatform) -> Result<
    Option<Option<DestinationRootView>>,
    MetadataFault,
> {
    match platform_wanted(optional_texts(file.platforms), platform) {
        Err(error) => Err(error),
        Ok(false) => Ok(None),
        Ok(true) => match file.dest {
            None => Ok(Some(None)),
            Some(dest) => match selected_file(dest, platform) {
                Err(error) => Err(error),
                Ok(None) => Ok(None),
                Ok(Some(root)) => Ok(Some(Some(root))),
            },
        },
    }
}

/// Where the file goes on the platform.
fn place_file(file: &FileToml, platform: RuntimePlatform) -> (result: Result<
    Option<Option<AppDestinationRoot>>,
    MetadataError,
>)
    ensures
        match file_place(*file, platform) {
            Err(error) => result is Err && result->Err_0@ == error,
            Ok(None) => result is Ok && result->Ok_0 is None,
            Ok(Some(root)) => result is Ok && result->Ok_0 is Some && optional_root(
                result->Ok_0->0,
            ) == root,
        },
{
    match platform_matches(&file.platforms, platform) {
        Ok(true) => {},
        Ok(false) => return Ok(None),
        Err(error) => return Err(error),
    }
    match &file.dest {
        None => Ok(Some(None)),
        Some(dest) => match dest.select_file(platform) {
            Ok(Some(root)) => Ok(Some(Some(root))),
            Ok(None) => Ok(None),
            Err(error) => Err(error),
        },
    }
}

/// The target that a file of the metadata names; its source where it names none.
pub open spec fn target_name(file: FileToml) -> Seq<char> {
    match file.target {
        Some(target) => target@,
        None => file.source@,
    }
}

/// A file of the metadata on a platform; none where it is not for it.
pub open spec fn resolved_file(
    files: Seq<PresetFileView>,
    prefix: Seq<char>,
    platform: RuntimePlatform,
    file: FileToml,
) -> Result<Option<AppFileView>, MetadataFault> {
    match file_place(file, platform) {
        Err(error) => Err(error),
        Ok(None) => Ok(None),
        Ok(Some(root)) => match relative_fault(file.source@, platform) {
            Some(fault) => Err((MetadataCode::SourceInvalid, fault.text())),
            None => match relative_fault(target_name(file), platform) {
                Some(fault) => Err((MetadataCode::TargetInvalid, fault.text())),
                None => if preset_file(
                    files,
                    logical_under(prefix, file.source@, platform_style(platform)),
                ) is None {
                    Err((MetadataCode::MissingFile, file.source@))
                } else {
                    match transforms_of(file) {
                        Err(error) => Err(error),
                        Ok(transforms) => match strategy_of(file) {
                            Err(error) => Err(error),
                            Ok(strategy) => match generator_of(file.generator, platform) {
                                Err(error) => Err(error),
                                Ok(generator) => if generator is Some && preset_file(
                                    files,
                                    logical_under(
                                        prefix,
                                        generator->0.script,
                                        platform_style(platform),
                                    ),
                                ) is None {
                                    Err((MetadataCode::MissingGenerator, generator->0.script))
                                } else {
                                    Ok(
                                        Some(
                                            AppFileView {
                                                source_rel: file.source@,
                                                target_rel: target_name(file),
                                                destination_root: root,
                                                description: optional_text(file.description),
                                                display_name: optional_text(file.display_name),
                                                legacy_dest_annotation: None,
                                                transforms,
                                                install_strategy: strategy,
                                                requires_admin: file.requires_admin,
                                                restart_hint: optional_text(file.restart_hint),
                                                generator,
                                            },
                                        ),
                                    )
                                },
                            },
                        },
                    }
                },
            },
        },
    }
}

/// The file of the metadata on the platform.
pub fn resolve_file(
    presets: &PresetSnapshot,
    prefix: &str,
    platform: RuntimePlatform,
    file: &FileToml,
) -> (result: Result<Option<AppFile>, MetadataError>)
    ensures
        match resolved_file(presets@, prefix@, platform, *file) {
            Err(error) => result is Err && result->Err_0@ == error,
            Ok(None) => result is Ok && result->Ok_0 is None,
            Ok(Some(resolved)) => result is Ok && result->Ok_0 is Some && result->Ok_0->0@
                == resolved,
        },
{
    let destination_root = match place_file(file, platform) {
        Err(error) => return Err(error),
        Ok(None) => return Ok(None),
        Ok(Some(root)) => root,
    };
    let source_rel = match normalize_relative(file.source.as_str(), platform) {
        Ok(source) => source,
        Err(fault) => {
            return Err(metadata_error(MetadataCode::SourceInvalid, fault.message()));
        },
    };
    let target: &String = match &file.target {
        Some(target) => target,
        None => &file.source,
    };
    let target_rel = match normalize_relative(target.as_str(), platform) {
        Ok(target) => target,
        Err(fault) => {
            return Err(metadata_error(MetadataCode::TargetInvalid, fault.message()));
        },
    };
    let source_logical = logical_below(prefix, source_rel.as_str(), platform.path_style());
    if presets.get(source_logical.as_str()).is_none() {
        return Err(metadata_error(MetadataCode::MissingFile, source_rel.as_str()));
    }
    let transforms = match transforms(file) {
        Ok(transforms) => transforms,
        Err(error) => return Err(error),
    };
    let install_strategy = match install_strategy(file) {
        Ok(strategy) => strategy,
        Err(error) => return Err(error),
    };
    let generator = match generator(&file.generator, platform) {
        Ok(generator) => generator,
        Err(error) => return Err(error),
    };
    if let Some(generator) = &generator {
        let script = logical_below(
            prefix,
            generator.script.as_str(),
            platform.path_style(),
        );
        if presets.get(script.as_str()).is_none() {
            return Err(metadata_error(MetadataCode::MissingGenerator, generator.script.as_str()));
        }
    }
    Ok(
        Some(
            AppFile {
                source_rel,
                target_rel,
                destination_root,
                description: copy_optional(&file.description),
                display_name: copy_optional(&file.display_name),
                legacy_dest_annotation: None,
                transforms,
                install_strategy,
                requires_admin: file.requires_admin,
                restart_hint: copy_optional(&file.restart_hint),
                generator,
            },
        ),
    )
}

/// The files of the metadata that are for a platform.
pub open spec fn resolved_files(
    files: Seq<PresetFileView>,
    prefix: Seq<char>,
    platform: RuntimePlatform,
    list: Seq<FileToml>,
) -> Result<Seq<AppFileView>, MetadataFault>
    decreases list.len(),
{
    if list.len() == 0 {
        Ok(Seq::empty())
    } else {
        match resolved_files(files, prefix, platform, list.drop_last()) {
            Err(error) => Err(error),
            Ok(before) => match resolved_file(files, prefix, platform, list.last()) {
                Err(error) => Err(error),
                Ok(None) => Ok(before),
                Ok(Some(file)) => Ok(before.push(file)),
            },
        }
    }
}

proof fn lemma_resolved_error_stays(
    files: Seq<PresetFileView>,
    prefix: Seq<char>,
    platform: RuntimePlatform,
    list: Seq<FileToml>,
    count: int,
)
    requires
        0 <= count <= list.len(),
        resolved_files(files, prefix, platform, list.take(count)) is Err,
    ensures
        resolved_files(files, prefix, platform, list) == resolved_files(
            files,
            prefix,
            platform,
            list.take(count),
        ),
    decreases list.len() - count,
{
    if count == list.len() {
        assert(list.take(count) =~= list);
    } else {
        assert(list.take(count + 1).drop_last() =~= list.take(count));
        lemma_resolved_error_stays(files, prefix, platform, list, count + 1);
    }
}

fn resolve_files(
    presets: &PresetSnapshot,
    prefix: &str,
    platform: RuntimePlatform,
    list: &Vec<FileToml>,
) -> (result: Result<Vec<AppFile>, MetadataError>)
    ensures
        match resolved_files(presets@, prefix@, platform, list@) {
            Err(error) => result is Err && result->Err_0@ == error,
            Ok(files) => result is Ok && app_file_views(result->Ok_0@) == files,
        },
{
    let mut files: Vec<AppFile> = Vec::new();
    let mut i: usize = 0;
    proof {
        assert(list@.take(0) =~= Seq::<FileToml>::empty());
        assert(app_file_views(files@) =~= Seq::<AppFileView>::empty());
    }
    while i < list.len()
        invariant
            i <= list.len(),
            resolved_files(presets@, prefix@, platform, list@.take(i as int)) == Ok::<
                Seq<AppFileView>,
                MetadataFault,
            >(app_file_views(files@)),
        decreases list.len() - i,
    {
        let ghost before = files@;
        proof {
            assert(list@.take(i as int + 1).drop_last() =~= list@.take(i as int));
            assert(list@.take(i as int + 1).last() == list@[i as int]);
        }
        match resolve_file(presets, prefix, platform, &list[i]) {
            Err(error) => {
                proof {
                    lemma_resolved_error_stays(
                        presets@,
                        prefix@,
                        platform,
                        list@,
                        i as int + 1,
                    );
                }
                return Err(error);
            },
            Ok(None) => {},
            Ok(Some(file)) => {
                let ghost added = file@;
                files.push(file);
                proof {
                    assert(app_file_views(files@) =~= app_file_views(before).push(added));
                }
            },
        }
        i += 1;
    }
    proof {
        assert(list@.take(list@.len() as int) =~= list@);
    }
    Ok(files)
}

/// How a category is listed.
pub open spec fn list_mode_of(mode: Option<ListModeToml>, explicit: bool) -> AppListMode {
    match mode {
        Some(ListModeToml::Category) => AppListMode::Category,
        Some(ListModeToml::Files) => AppListMode::Files,
        None => if explicit {
            AppListMode::Files
        } else {
            AppListMode::Category
        },
    }
}

/// A category without metadata.
pub open spec fn legacy_category(
    files: Seq<PresetFileView>,
    name: Seq<char>,
) -> Option<AppCategoryView> {
    let prefix = app_prefix(name);
    let inner = legacy_files(files, prefix, files_under(files, prefix));
    if inner.len() == 0 {
        None
    } else {
        Some(
            AppCategoryView {
                name,
                description: None,
                destination_root: None,
                files: inner,
                list_mode: AppListMode::Category,
                post_upgrade: Seq::empty(),
                post_install: Seq::empty(),
                uses_metadata: false,
                has_explicit_files: false,
                artifact: None,
                permissions: None,
            },
        )
    }
}

/// The files of a category with metadata.
pub open spec fn category_files(
    files: Seq<PresetFileView>,
    platform: RuntimePlatform,
    name: Seq<char>,
    metadata: CategoryToml,
) -> Result<Seq<AppFileView>, MetadataFault> {
    let prefix = app_prefix(name);
    match metadata.files {
        Some(list) => resolved_files(files, prefix, platform, list@),
        None => Ok(plain_files(files_under(files, prefix))),
    }
}

/// A category with metadata on a platform; none where it is not for it or has no
/// file there.
pub open spec fn metadata_category(
    files: Seq<PresetFileView>,
    platform: RuntimePlatform,
    name: Seq<char>,
    metadata: CategoryToml,
) -> Result<Option<AppCategoryView>, MetadataFault> {
    match selected_category(metadata.dest, platform) {
        Err(error) => Err(error),
        Ok(None) => Ok(None),
        Ok(Some(root)) => match category_files(files, platform, name, metadata) {
            Err(error) => Err(error),
            Ok(inner) => if inner.len() == 0 {
                Ok(None)
            } else {
                match hooks_of(metadata.post_upgrade, "post_upgrade"@) {
                    Err(error) => Err(error),
                    Ok(post_upgrade) => match hooks_of(metadata.post_install, "post_install"@) {
                        Err(error) => Err(error),
                        Ok(post_install) => match artifact_of(metadata.artifact) {
                            Err(error) => Err(error),
                            Ok(artifact) => Ok(
                                Some(
                                    AppCategoryView {
                                        name,
                                        description: optional_text(metadata.description),
                                        destination_root: Some(root),
                                        files: inner,
                                        list_mode: list_mode_of(
                                            metadata.list_mode,
                                            metadata.files is Some,
                                        ),
                                        post_upgrade,
                                        post_install,
                                        uses_metadata: true,
                                        has_explicit_files: metadata.files is Some,
                                        artifact,
                                        permissions: optional_permissions(metadata.permissions),
                                    },
                                ),
                            ),
                        },
                    },
                }
            },
        },
    }
}

/// A category of a snapshot on a platform. Metadata that could not be read is an
/// error.
pub open spec fn app_category_of(
    files: Seq<PresetFileView>,
    platform: RuntimePlatform,
    name: Seq<char>,
) -> Result<Option<AppCategoryView>, MetadataFault> {
    match preset_file(files, app_prefix(name) + "shine.toml"@) {
        None => Ok(legacy_category(files, name)),
        Some(file) => match file.metadata {
            None => Err((MetadataCode::Unreadable, app_prefix(name) + "shine.toml"@)),
            Some(metadata) => metadata_category(files, platform, name, metadata),
        },
    }
}

fn make_legacy_category(presets: &PresetSnapshot, name: &str) -> (category: Option<AppCategory>)
    ensures
        match category {
            Some(category) => legacy_category(presets@, name@) == Some(category@),
            None => legacy_category(presets@, name@) is None,
        },
{
    let prefix = app_prefix_of(name);
    let files = make_legacy_files(presets, prefix.as_str());
    proof {
        assert(app_file_views(files@).len() == files@.len());
    }
    if files.len() == 0 {
        return None;
    }
    let category = AppCategory {
        name: name.to_owned(),
        description: None,
        destination_root: None,
        files,
        list_mode: AppListMode::Category,
        post_upgrade: Vec::new(),
        post_install: Vec::new(),
        uses_metadata: false,
        has_explicit_files: false,
        artifact: None,
        permissions: None,
    };
    proof {
        assert(hook_views(category.post_upgrade@) =~= Seq::<AppHookView>::empty());
        assert(hook_views(category.post_install@) =~= Seq::<AppHookView>::empty());
    }
    Some(category)
}

fn copy_permissions(permissions: &Option<PermissionDeclarationV1>) -> (copy: Option<
    PermissionDeclarationV1,
>)
    ensures
        optional_permissions(copy) == optional_permissions(*permissions),
{
    match permissions {
        Some(permissions) => Some(permissions.copied()),
        None => None,
    }
}

fn make_category(
    presets: &PresetSnapshot,
    platform: RuntimePlatform,
    name: &str,
    metadata: &CategoryToml,
) -> (result: Result<Option<AppCategory>, MetadataError>)
    ensures
        match metadata_category(presets@, platform, name@, *metadata) {
            Err(error) => result is Err && result->Err_0@ == error,
            Ok(None) => result is Ok && result->Ok_0 is None,
            Ok(Some(category)) => result is Ok && result->Ok_0 is Some && result->Ok_0->0@
                == category,
        },
{
    let destination_root = match metadata.dest.select(platform) {
        Err(error) => return Err(error),
        Ok(None) => return Ok(None),
        Ok(Some(root)) => root,
    };
    let prefix = app_prefix_of(name);
    let explicit = metadata.files.is_some();
    let files: Vec<AppFile> = match &metadata.files {
        Some(list) => match resolve_files(presets, prefix.as_str(), platform, list) {
            Ok(files) => files,
            Err(error) => return Err(error),
        },
        None => make_plain_files(presets, prefix.as_str()),
    };
    proof {
        assert(app_file_views(files@).len() == files@.len());
    }
    if files.len() == 0 {
        return Ok(None);
    }
    let list_mode = match metadata.list_mode {
        Some(ListModeToml::Category) => AppListMode::Category,
        Some(ListModeToml::Files) => AppListMode::Files,
        None => if explicit {
            AppListMode::Files
        } else {
            AppListMode::Category
        },
    };
    let post_upgrade = match hooks(&metadata.post_upgrade, "post_upgrade") {
        Ok(list) => list,
        Err(error) => return Err(error),
    };
    let post_install = match hooks(&metadata.post_install, "post_install") {
        Ok(list) => list,
        Err(error) => return Err(error),
    };
    let artifact = match artifact(&metadata.artifact) {
        Ok(artifact) => artifact,
        Err(error) => return Err(error),
    };
    Ok(
        Some(
            AppCategory {
                name: name.to_owned(),
                description: copy_optional(&metadata.description),
                destination_root: Some(destination_root),
                files,
                list_mode,
                post_upgrade,
                post_install,
                uses_metadata: true,
                has_explicit_files: explicit,
                artifact,
                permissions: copy_permissions(&metadata.permissions),
            },
        ),
    )
}

/// The category of the snapshot on the platform.
pub fn parse_app_category(presets: &PresetSnapshot, platform: RuntimePlatform, name: &str) -> (
    result: Result<Option<AppCategory>, MetadataError>)
    ensures
        match app_category_of(presets@, platform, name@) {
            Err(error) => result is Err && result->Err_0@ == error,
            Ok(None) => result is Ok && result->Ok_0 is None,
            Ok(Some(category)) => result is Ok && result->Ok_0 is Some && result->Ok_0->0@
                == category,
        },
{
    let prefix = app_prefix_of(name);
    let path = joined(prefix.as_str(), "shine.toml");
    match presets.file(path.as_str()) {
        None => Ok(make_legacy_category(presets, name)),
        Some(file) => match &file.metadata {
            None => Err(MetadataError { code: MetadataCode::Unreadable, detail: path }),
            Some(metadata) => make_category(presets, platform, name, metadata),
        },
    }
}

/// The categories with the given names on a platform.
pub open spec fn categories_of(
    files: Seq<PresetFileView>,
    platform: RuntimePlatform,
    names: Seq<Seq<char>>,
) -> Result<Seq<AppCategoryView>, MetadataFault>
    decreases names.len(),
{
    if names.len() == 0 {
        Ok(Seq::empty())
    } else {
        match categories_of(files, platform, names.drop_last()) {
            Err(error) => Err(error),
            Ok(before) => match app_category_of(files, platform, names.last()) {
                Err(error) => Err(error),
                Ok(None) => Ok(before),
                Ok(Some(category)) => Ok(before.push(category)),
            },
        }
    }
}

proof fn lemma_categories_error_stays(
    files: Seq<PresetFileView>,
    platform: RuntimePlatform,
    names: Seq<Seq<char>>,
    count: int,
)
    requires
        0 <= count <= names.len(),
        categories_of(files, platform, names.take(count)) is Err,
    ensures
        categories_of(files, platform, names) == categories_of(
            files,
            platform,
            names.take(count),
        ),
    decreases names.len() - count,
{
    if count == names.len() {
        assert(names.take(count) =~= names);
    } else {
        assert(names.take(count + 1).drop_last() =~= names.take(count));
        lemma_categories_error_stays(files, platform, names, count + 1);
    }
}

/// The categories with the given names on the platform.
pub fn parse_app_categories(
    presets: &PresetSnapshot,
    platform: RuntimePlatform,
    names: &Vec<String>,
) -> (result: Result<Vec<AppCategory>, MetadataError>)
    ensures
        match categories_of(presets@, platform, texts(names@)) {
            Err(error) => result is Err && result->Err_0@ == error,
            Ok(categories) => result is Ok && category_views(result->Ok_0@) == categories,
        },
{
    let ghost all = texts(names@);
    let mut categories: Vec<AppCategory> = Vec::new();
    let mut i: usize = 0;
    proof {
        assert(all.take(0) =~= Seq::<Seq<char>>::empty());
        assert(category_views(categories@) =~= Seq::<AppCategoryView>::empty());
    }
    while i < names.len()
        invariant
            i <= names.len(),
            all == texts(names@),
            categories_of(presets@, platform, all.take(i as int)) == Ok::<
                Seq<AppCategoryView>,
                MetadataFault,
            >(category_views(categories@)),
        decreases names.len() - i,
    {
        let ghost before = categories@;
        proof {
            assert(all.take(i as int + 1).drop_last() =~= all.take(i as int));
            assert(all.take(i as int + 1).last() == names@[i as int]@);
        }
        match parse_app_category(presets, platform, names[i].as_str()) {
            Err(error) => {
                proof {
                    lemma_categories_error_stays(presets@, platform, all, i as int + 1);
                }
                return Err(error);
            },
            Ok(None) => {},
            Ok(Some(category)) => {
                let ghost added = category@;
                categories.push(category);
                proof {
                    assert(category_views(categories@) =~= category_views(before).push(added));
                }
            },
        }
        i += 1;
    }
    proof {
        assert(all.take(all.len() as int) =~= all);
    }
    Ok(categories)
}

} // verus!
