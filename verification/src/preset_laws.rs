//! What preset files and their metadata mean: which categories and files there are, which
//! of them are for a platform, and where they go.

use vstd::prelude::*;
use vstd::string::*;

use crate::app_categories::{
    app_category_of, category_in, category_set, file_place, files_under, logical_under,
    resolved_file, resolved_files,
};
use crate::app_dest::{
    destination_fault, destination_of, expanded, platform_choice, platform_listed, platform_named,
    platform_wanted, relative_fault, selected_category, selected_file,
};
use crate::app_metadata::{
    artifact_of, generator_of, hook_list, hooks_of, runtime_of, strategy_of, transforms_of,
    unknown_transform,
};
use crate::app_metadata_types::{
    ArtifactRuntimeToml, ArtifactToml, DestToml, FileToml, GeneratorToml, HookSpecToml, HookToml,
    InstallModeToml, PlatformDestToml,
};
use crate::app_types::{ArtifactRuntime, DestinationRootView};
use crate::context::{context_style, platform_style, RuntimeContext, RuntimePlatform};
use crate::env::env_specs_of;
use crate::lexical::{lowered, replaced, trimmed};
use crate::path::{extension_of, is_absolute, path_components, path_join, path_parts, PathStyle};
use crate::presets::{preset_file, PresetFileView};
use crate::text::{begins_with, cut_at, lemma_cut_at, pieces, texts};
use crate::text_laws::law_texts_are_cut_at_the_first_mark;

verus! {

/// Whether a preset path is of a file in a category of a kind.
pub open spec fn is_in(path: Seq<char>, kind: Seq<char>, name: Seq<char>) -> bool {
    &&& !name.contains('/')
    &&& exists|file: Seq<char>| path == #[trigger] (kind + "/"@ + name + "/"@ + file)
}

proof fn lemma_category_in(path: Seq<char>, kind: Seq<char>, name: Seq<char>)
    ensures
        category_in(path, kind) == Some(name) <==> is_in(path, kind, name),
{
    reveal_strlit("/");
    let prefix = kind + "/"@;
    let rest = path.skip(prefix.len() as int);
    if category_in(path, kind) == Some(name) {
        law_texts_are_cut_at_the_first_mark(rest, '/');
        let file = (cut_at(rest, '/')->0).1;
        assert(path =~= prefix + rest);
        assert(path =~= kind + "/"@ + name + "/"@ + file);
    }
    if is_in(path, kind, name) {
        let file = choose|file: Seq<char>| path == #[trigger] (kind + "/"@ + name + "/"@ + file);
        assert(path.subrange(0, prefix.len() as int) =~= prefix);
        assert(rest =~= name + "/"@ + file);
        assert forall|j: int| 0 <= j < name.len() implies rest[j] != '/' by {
            assert(rest[j] == name[j]);
            assert(name.contains(name[j]));
        }
        lemma_cut_at(rest, '/', name.len() as int);
        assert(rest.take(name.len() as int) =~= name);
    }
}

/// The categories of a kind are those that some preset file is in, and that the filter
/// names where there is one: none is missed, and none is made up.
pub proof fn law_categories_are_those_of_the_files(
    files: Seq<PresetFileView>,
    kind: Seq<char>,
    filter: Option<Seq<char>>,
    name: Seq<char>,
)
    ensures
        category_set(files, kind, filter).contains(name) <==> {
            &&& filter is Some ==> filter->0 == name
            &&& exists|i: int| 0 <= i < files.len() && is_in((#[trigger] files[i]).path, kind, name)
        },
    decreases files.len(),
{
    if files.len() > 0 {
        let head = files.drop_last();
        law_categories_are_those_of_the_files(head, kind, filter, name);
        lemma_category_in(files.last().path, kind, name);
        assert(files[files.len() - 1] == files.last());
        assert(forall|i: int| 0 <= i < head.len() ==> head[i] == #[trigger] files[i]);
        if exists|i: int| 0 <= i < head.len() && is_in((#[trigger] head[i]).path, kind, name) {
            let i = choose|i: int|
                0 <= i < head.len() && is_in((#[trigger] head[i]).path, kind, name);
            assert(files[i] == head[i]);
        }
    }
}

/// The files of a directory are all that stand under it but for its metadata, by their
/// paths below it.
pub proof fn law_directories_hold_their_files(
    files: Seq<PresetFileView>,
    prefix: Seq<char>,
    relative: Seq<char>,
)
    ensures
        files_under(files, prefix).contains(relative) <==> {
            &&& relative.len() > 0 && relative != "shine.toml"@
            &&& exists|i: int| 0 <= i < files.len() && (#[trigger] files[i]).path == prefix + relative
        },
        files_under(files, prefix).len() <= files.len(),
    decreases files.len(),
{
    if files.len() > 0 {
        let head = files.drop_last();
        law_directories_hold_their_files(head, prefix, relative);
        let path = files.last().path;
        let below = path.skip(prefix.len() as int);
        let before = files_under(head, prefix);
        let all = files_under(files, prefix);
        assert(files[files.len() - 1] == files.last());
        assert(forall|i: int| 0 <= i < head.len() ==> head[i] == #[trigger] files[i]);
        if begins_with(path, prefix) {
            assert(path =~= prefix + below);
        }
        if path == prefix + relative {
            assert(path.subrange(0, prefix.len() as int) =~= prefix);
            assert(below =~= relative);
        }
        if all.len() > before.len() {
            assert(all == before.push(below));
            if before.contains(relative) {
                let k = choose|k: int| 0 <= k < before.len() && before[k] == relative;
                assert(all[k] == relative);
            }
            assert(all[before.len() as int] == below);
            if all.contains(relative) {
                let k = choose|k: int| 0 <= k < all.len() && all[k] == relative;
                if k < before.len() {
                    assert(before[k] == relative);
                }
            }
        }
        if exists|i: int| 0 <= i < head.len() && (#[trigger] head[i]).path == prefix + relative {
            let i = choose|i: int|
                0 <= i < head.len() && (#[trigger] head[i]).path == prefix + relative;
            assert(files[i] == head[i]);
        }
    }
}

/// A preset path stands for a file exactly where there is one of that path, and then for
/// one of that path.
pub proof fn law_preset_paths_are_found(files: Seq<PresetFileView>, path: Seq<char>)
    ensures
        preset_file(files, path) is Some <==> exists|i: int|
            0 <= i < files.len() && (#[trigger] files[i]).path == path,
        preset_file(files, path) is Some ==> preset_file(files, path)->0.path == path
            && files.contains(preset_file(files, path)->0),
    decreases files.len(),
{
    if files.len() > 0 {
        let head = files.drop_last();
        law_preset_paths_are_found(head, path);
        assert(files[files.len() - 1] == files.last());
        assert(forall|i: int| 0 <= i < head.len() ==> head[i] == #[trigger] files[i]);
        if preset_file(head, path) is Some {
            let found = preset_file(head, path)->0;
            let i = choose|i: int| 0 <= i < head.len() && head[i] == found;
            assert(files[i] == found);
            lemma_place(head, path);
            assert(preset_file(files, path) == Some(found));
        } else {
            assert(!exists|i: int| 0 <= i < head.len() && (#[trigger] head[i]).path == path);
            assert(forall|i: int| 0 <= i < head.len() ==> (#[trigger] files[i]).path != path) by {
                assert forall|i: int| 0 <= i < head.len() implies (#[trigger] files[i]).path
                    != path by {
                    assert(head[i].path != path);
                }
            }
        }
    }
}

proof fn lemma_place(files: Seq<PresetFileView>, path: Seq<char>)
    ensures
        crate::presets::preset_place(files, path) is Some ==> 0
            <= crate::presets::preset_place(files, path)->0 < files.len(),
    decreases files.len(),
{
    if files.len() > 0 {
        lemma_place(files.drop_last(), path);
    }
}

/// A platform takes what is meant for it before what is meant for all Unix systems, and
/// Windows is none of those.
pub proof fn law_platforms_take_their_own_destination(dest: PlatformDestToml)
    ensures
        dest.macos is Some ==> platform_choice(dest, RuntimePlatform::Macos) == Some(
            dest.macos->0@,
        ),
        dest.linux is Some ==> platform_choice(dest, RuntimePlatform::Linux) == Some(
            dest.linux->0@,
        ),
        dest.windows is Some ==> platform_choice(dest, RuntimePlatform::Windows) == Some(
            dest.windows->0@,
        ),
        dest.windows is None ==> platform_choice(dest, RuntimePlatform::Windows) is None,
        dest.macos is None && dest.linux is None ==> platform_choice(dest, RuntimePlatform::Macos)
            == platform_choice(dest, RuntimePlatform::Linux),
        dest.unix is Some && dest.macos is None ==> platform_choice(dest, RuntimePlatform::Macos)
            == Some(dest.unix->0@),
        dest.unix is None && dest.macos is None ==> platform_choice(dest, RuntimePlatform::Macos)
            is None,
        dest.unix is Some && dest.linux is None ==> platform_choice(dest, RuntimePlatform::Linux)
            == Some(dest.unix->0@),
        dest.unix is None && dest.linux is None ==> platform_choice(dest, RuntimePlatform::Linux)
            is None,
{
}

/// Whether a name stands for a platform.
pub open spec fn names_platform(name: Seq<char>, platform: RuntimePlatform) -> bool {
    let word = lowered(trimmed(name));
    ||| word == "windows"@ && platform == RuntimePlatform::Windows
    ||| word == "linux"@ && platform == RuntimePlatform::Linux
    ||| word == "macos"@ && platform == RuntimePlatform::Macos
    ||| word == "unix"@ && (platform == RuntimePlatform::Linux || platform
        == RuntimePlatform::Macos)
}

/// Whether a name stands for some platform.
pub open spec fn names_some_platform(name: Seq<char>) -> bool {
    ||| names_platform(name, RuntimePlatform::Windows)
    ||| names_platform(name, RuntimePlatform::Linux)
    ||| names_platform(name, RuntimePlatform::Macos)
}

proof fn lemma_words()
    ensures
        "macos"@ != "linux"@,
        "macos"@ != "windows"@,
        "macos"@ != "unix"@,
        "linux"@ != "windows"@,
        "linux"@ != "unix"@,
        "windows"@ != "unix"@,
{
    reveal_strlit("macos");
    reveal_strlit("linux");
    reveal_strlit("windows");
    reveal_strlit("unix");
    assert("macos"@[0] == 'm');
    assert("linux"@[0] == 'l');
    assert("windows"@[0] == 'w');
    assert("unix"@[0] == 'u');
}

proof fn lemma_listed(names: Seq<Seq<char>>, platform: RuntimePlatform)
    ensures
        match platform_listed(names, platform) {
            Ok(listed) => {
                &&& forall|i: int| 0 <= i < names.len() ==> names_some_platform(#[trigger] names[i])
                &&& listed <==> exists|i: int|
                    0 <= i < names.len() && names_platform(#[trigger] names[i], platform)
            },
            Err((_, text)) => names.contains(text) && !names_some_platform(text),
        },
    decreases names.len(),
{
    if names.len() > 0 {
        let head = names.drop_last();
        lemma_listed(head, platform);
        lemma_words();
        assert(names[names.len() - 1] == names.last());
        assert(forall|i: int| 0 <= i < head.len() ==> head[i] == #[trigger] names[i]);
        match platform_listed(head, platform) {
            Ok(listed) => {
                assert(platform_named(names.last(), platform) is Some <==> names_some_platform(
                    names.last(),
                ));
                if listed {
                    let i = choose|i: int|
                        0 <= i < head.len() && names_platform(#[trigger] head[i], platform);
                    assert(names[i] == head[i]);
                }
                assert(names.contains(names.last()));
            },
            Err((_, text)) => {
                let i = choose|i: int| 0 <= i < head.len() && head[i] == text;
                assert(names[i] == text);
            },
        }
    }
}

/// A file without platforms is for all of them; one with platforms is for those that one
/// of the names stands for; an empty list, and a name that stands for none, is an error.
pub proof fn law_files_are_for_their_platforms(
    names: Option<Seq<Seq<char>>>,
    platform: RuntimePlatform,
)
    ensures
        match names {
            None => platform_wanted(names, platform) is Ok && platform_wanted(
                names,
                platform,
            )->Ok_0,
            Some(names) => match platform_wanted(Some(names), platform) {
                Ok(wanted) => {
                    &&& names.len() > 0
                    &&& forall|i: int|
                        0 <= i < names.len() ==> names_some_platform(#[trigger] names[i])
                    &&& wanted <==> exists|i: int|
                        0 <= i < names.len() && names_platform(#[trigger] names[i], platform)
                },
                Err((_, text)) => names.len() == 0 || names.contains(text)
                    && !names_some_platform(text),
            },
        },
{
    if let Some(names) = names {
        lemma_listed(names, platform);
    }
}

/// A relative path is accepted exactly where it is not empty, not absolute and never leads
/// up.
pub proof fn law_relative_paths(path: Seq<char>, platform: RuntimePlatform)
    ensures
        relative_fault(path, platform) is None <==> {
            &&& path.len() > 0
            &&& !is_absolute(
                path,
                if platform == RuntimePlatform::Windows {
                    PathStyle::Windows
                } else {
                    PathStyle::Unix
                },
            )
            &&& !path_parts(
                path,
                if platform == RuntimePlatform::Windows {
                    PathStyle::Windows
                } else {
                    PathStyle::Unix
                },
            ).contains(seq!['.', '.'])
        },
{
}

/// A destination is accepted exactly where it starts at the user's home or is absolute,
/// and no name in it leads up, however its separators are written.
pub proof fn law_destinations(path: Seq<char>, platform: RuntimePlatform)
    ensures
        destination_fault(path, platform) is None <==> {
            &&& {
                ||| path == "~"@
                ||| exists|rest: Seq<char>| path == #[trigger] ("~/"@ + rest)
                ||| exists|rest: Seq<char>| path == #[trigger] ("~\\"@ + rest)
                ||| exists|rest: Seq<char>| path == #[trigger] ("$HOME/"@ + rest)
                ||| is_absolute(
                    path,
                    if platform == RuntimePlatform::Windows {
                        PathStyle::Windows
                    } else {
                        PathStyle::Unix
                    },
                )
            }
            &&& !pieces(replaced(path, '\\', '/'), '/').contains(seq!['.', '.'])
        },
{
    lemma_begins(path, "~/"@);
    lemma_begins(path, "~\\"@);
    lemma_begins(path, "$HOME/"@);
}

proof fn lemma_begins(text: Seq<char>, prefix: Seq<char>)
    ensures
        begins_with(text, prefix) <==> exists|rest: Seq<char>| text == #[trigger] (prefix + rest),
{
    if begins_with(text, prefix) {
        assert(text =~= prefix + text.skip(prefix.len() as int));
    }
    if exists|rest: Seq<char>| text == #[trigger] (prefix + rest) {
        let rest = choose|rest: Seq<char>| text == #[trigger] (prefix + rest);
        assert(text.subrange(0, prefix.len() as int) =~= prefix);
    }
}

/// The ways to write the user's home mean the same, and any other destination is left as
/// it is.
pub proof fn law_home_is_put_in(raw: Seq<char>, rest: Seq<char>, home: Seq<char>)
    ensures
        expanded("~"@, home) == home,
        expanded("$HOME"@, home) == home,
        expanded("~/"@ + rest, home) == path_join(home, rest),
        expanded("~\\"@ + rest, home) == path_join(home, rest),
        expanded("$HOME/"@ + rest, home) == path_join(home, rest),
        (raw.len() == 0 || raw[0] != '~' && raw[0] != '$') ==> expanded(raw, home) == raw,
{
    reveal_strlit("~");
    reveal_strlit("~/");
    reveal_strlit("~\\");
    reveal_strlit("$HOME");
    reveal_strlit("$HOME/");
    lemma_begins("~/"@ + rest, "~/"@);
    lemma_begins("~\\"@ + rest, "~\\"@);
    lemma_begins("$HOME/"@ + rest, "$HOME/"@);
    assert(("~/"@ + rest).skip(2) =~= rest);
    assert(("~\\"@ + rest).skip(2) =~= rest);
    assert(("$HOME/"@ + rest).skip(6) =~= rest);
    assert(("~/"@ + rest)[1] == '/');
    assert(("~\\"@ + rest)[1] == '\\');
    assert(("$HOME/"@ + rest)[0] == '$');
    assert(("$HOME/"@ + rest).len() > 5);
    if begins_with("~\\"@ + rest, "~/"@) {
        assert(("~\\"@ + rest).subrange(0, 2)[1] == '/');
    }
    if begins_with("$HOME/"@ + rest, "~/"@) {
        assert(("$HOME/"@ + rest).subrange(0, 2)[0] == '~');
    }
    if begins_with("$HOME/"@ + rest, "~\\"@) {
        assert(("$HOME/"@ + rest).subrange(0, 2)[0] == '~');
    }
    if raw.len() == 0 || raw[0] != '~' && raw[0] != '$' {
        if begins_with(raw, "~/"@) {
            assert(raw.subrange(0, 2)[0] == '~');
        }
        if begins_with(raw, "~\\"@) {
            assert(raw.subrange(0, 2)[0] == '~');
        }
        if begins_with(raw, "$HOME/"@) {
            assert(raw.subrange(0, 6)[0] == '$');
        }
    }
}

/// Where a file goes: under its own root, or else under that of its category, or else
/// where its annotation says, or else under the directory of its category among the Apps.
/// A root under the data directory never leaves it to the home, and a path that is not
/// absolute once the home is put in is refused.
pub proof fn law_files_go_under_their_nearest_root(
    context: RuntimeContext,
    name: Seq<char>,
    category_root: Option<Seq<char>>,
    file_root: Option<DestinationRootView>,
    annotation: Option<Seq<char>>,
    target: Seq<char>,
)
    ensures
        ({
            let place = destination_of(
                context,
                name,
                category_root,
                file_root,
                annotation,
                target,
            );
            let under = |base: Seq<char>|
                if path_components(path_join(base, target)).contains(seq!['.', '.']) {
                    place is Err
                } else {
                    place is Ok && place->Ok_0 == path_join(base, target)
                };
            let at_home = |path: Seq<char>| expanded(path, context.home_dir@);
            let absolute = |path: Seq<char>|
                is_absolute(at_home(path), context_style(context.platform, context.home_dir@));
            match file_root {
                Some(DestinationRootView::DataDir { path }) => under(
                    path_join(context.data_dir@, path),
                ),
                Some(DestinationRootView::Path { path }) => if absolute(path) {
                    under(at_home(path))
                } else {
                    place is Err
                },
                None => match category_root {
                    Some(path) => if absolute(path) {
                        under(at_home(path))
                    } else {
                        place is Err
                    },
                    None => match annotation {
                        Some(path) => if absolute(path) {
                            place is Ok && place->Ok_0 == at_home(path)
                        } else {
                            place is Err
                        },
                        None => under(path_join(context.app_default_dest_root@, name)),
                    },
                },
            }
        }),
{
}

/// What a destination of the metadata gives on a platform: a single path for all of them,
/// the platform's own path of a map, none where the map has none for it; a category has no
/// root under the data directory.
pub proof fn law_destinations_of_the_metadata(dest: DestToml, platform: RuntimePlatform)
    ensures
        match dest {
            DestToml::Single(path) => match selected_category(dest, platform) {
                Ok(found) => found == Some(path@) && destination_fault(path@, platform) is None,
                Err(_) => destination_fault(path@, platform) is Some,
            },
            DestToml::Rooted(_) => selected_category(dest, platform) is Err,
            DestToml::Platforms(paths) => match selected_category(dest, platform) {
                Ok(found) => found == platform_choice(paths, platform) && (found is Some
                    ==> destination_fault(found->0, platform) is None) && (paths.macos is Some
                    || paths.linux is Some || paths.windows is Some || paths.unix is Some),
                Err(_) => (paths.macos is None && paths.linux is None && paths.windows is None
                    && paths.unix is None) || (platform_choice(paths, platform) is Some
                    && destination_fault(platform_choice(paths, platform)->0, platform) is Some),
            },
        },
        match dest {
            DestToml::Rooted(rooted) => match selected_file(dest, platform) {
                Ok(found) => found == Some(DestinationRootView::DataDir { path: rooted.path@ })
                    && relative_fault(rooted.path@, platform) is None,
                Err(_) => relative_fault(rooted.path@, platform) is Some,
            },
            _ => match selected_file(dest, platform) {
                Ok(Some(DestinationRootView::Path { path })) => selected_category(dest, platform)
                    is Ok && selected_category(dest, platform)->Ok_0 == Some(path),
                Ok(Some(_)) => false,
                Ok(None) => selected_category(dest, platform) is Ok && selected_category(
                    dest,
                    platform,
                )->Ok_0 is None,
                Err(_) => selected_category(dest, platform) is Err,
            },
        },
{
}

proof fn lemma_unknown(list: Seq<Seq<char>>)
    ensures
        unknown_transform(list) is None <==> forall|i: int|
            0 <= i < list.len() ==> #[trigger] list[i] == "template"@,
    decreases list.len(),
{
    if list.len() > 0 {
        let head = list.drop_last();
        lemma_unknown(head);
        assert(list[list.len() - 1] == list.last());
        assert(forall|i: int| 0 <= i < head.len() ==> head[i] == #[trigger] list[i]);
        if unknown_transform(head) is Some {
            let i = choose|i: int| 0 <= i < head.len() && #[trigger] head[i] != "template"@;
            assert(list[i] != "template"@);
        }
    }
}

/// The transforms that a file names, in one way or in the other.
pub open spec fn transforms_named(file: FileToml) -> Seq<Seq<char>> {
    if file.transform is Some {
        seq![file.transform->0@]
    } else if file.transforms is Some {
        texts(file.transforms->0@)
    } else {
        Seq::empty()
    }
}

/// The transforms of a file are those it names, in one way or in the other but not in
/// both, and each is the one that there is.
pub proof fn law_transforms_are_those_named(file: FileToml)
    ensures
        ({
            let named = transforms_named(file);
            match transforms_of(file) {
                Ok(list) => list == named && !(file.transform is Some && file.transforms is Some)
                    && forall|i: int| 0 <= i < list.len() ==> #[trigger] list[i] == "template"@,
                Err(_) => (file.transform is Some && file.transforms is Some) || exists|i: int|
                    0 <= i < named.len() && #[trigger] named[i] != "template"@,
            }
        }),
{
    lemma_unknown(transforms_named(file));
}

/// A file is merged by its keys exactly where its metadata asks for that, and then by the
/// keys it names: at least one, none of them blank and none of them with a `.`. A file that
/// is copied names no keys.
pub proof fn law_strategies_are_those_named(file: FileToml)
    ensures
        ({
            let merges = file.install_mode is Some && file.install_mode->0
                == InstallModeToml::JsonMerge;
            match strategy_of(file) {
                Ok(None) => !merges && file.managed_keys is None,
                Ok(Some(keys)) => {
                    &&& merges && file.managed_keys is Some
                    &&& keys == texts(file.managed_keys->0@)
                    &&& keys.len() > 0
                    &&& forall|i: int|
                        0 <= i < keys.len() ==> trimmed(#[trigger] keys[i]).len() > 0
                            && !keys[i].contains('.')
                },
                Err(_) => if merges {
                    file.managed_keys is None || file.managed_keys->0@.len() == 0 || exists|i: int|
                        0 <= i < file.managed_keys->0@.len() && (trimmed(
                            (#[trigger] file.managed_keys->0@[i])@,
                        ).len() == 0 || file.managed_keys->0@[i]@.contains('.'))
                } else {
                    file.managed_keys is Some
                },
            }
        }),
{
    if file.managed_keys is Some {
        let keys = file.managed_keys->0@;
        assert forall|i: int| 0 <= i < keys.len() implies texts(keys)[i] == (
        #[trigger] keys[i])@ by {}
    }
}

/// A script is run by Bun exactly where its metadata asks for that and Bun can run it, by
/// its extension; a script that Bun should run and cannot is an error.
pub proof fn law_scripts_are_run_by_what_is_asked_for(
    value: Option<ArtifactRuntimeToml>,
    script: Seq<char>,
)
    ensures
        ({
            let bun = value is Some && value->0 == ArtifactRuntimeToml::Bun;
            let extension = extension_of(script);
            let can = extension is Some && (extension->0 == "ts"@ || extension->0 == "js"@
                || extension->0 == "mts"@ || extension->0 == "mjs"@);
            match runtime_of(value, script) {
                Ok(runtime) => runtime == if bun {
                    ArtifactRuntime::Bun
                } else {
                    ArtifactRuntime::Native
                } && (bun ==> can),
                Err(_) => bun && !can,
            }
        }),
{
}

/// The artifact of a category has a script, and a teardown where one is named; none of
/// them is blank, and both run the same way.
pub proof fn law_artifacts_are_those_named(value: Option<ArtifactToml>)
    ensures
        match artifact_of(value) {
            Ok(None) => value is None,
            Ok(Some(artifact)) => {
                &&& value is Some
                &&& artifact.script == value->0.script@ && trimmed(artifact.script).len() > 0
                &&& artifact.teardown is Some <==> value->0.teardown is Some
                &&& artifact.teardown is Some ==> artifact.teardown->0 == value->0.teardown->0@
                    && trimmed(artifact.teardown->0).len() > 0
                &&& runtime_of(value->0.runtime, artifact.script) is Ok && runtime_of(
                    value->0.runtime,
                    artifact.script,
                )->Ok_0 == artifact.runtime
                &&& artifact.teardown is Some ==> runtime_of(
                    value->0.runtime,
                    artifact.teardown->0,
                ) is Ok
                &&& artifact.env.len() == 0
            },
            Err(_) => {
                &&& value is Some
                &&& {
                    ||| trimmed(value->0.script@).len() == 0
                    ||| value->0.teardown is Some && trimmed(value->0.teardown->0@).len() == 0
                    ||| runtime_of(value->0.runtime, value->0.script@) is Err
                    ||| value->0.teardown is Some && runtime_of(
                        value->0.runtime,
                        value->0.teardown->0@,
                    ) is Err
                }
            },
        },
{
}

/// A generator runs the script that its metadata names, with the variables it names, and
/// only where a variable is set that is among those.
pub proof fn law_generators_are_those_named(
    value: Option<GeneratorToml>,
    platform: RuntimePlatform,
)
    ensures
        match generator_of(value, platform) {
            Ok(None) => value is None,
            Ok(Some(generator)) => {
                &&& value is Some
                &&& generator.script == value->0.script@
                &&& relative_fault(generator.script, platform) is None
                &&& runtime_of(value->0.runtime, generator.script) is Ok && runtime_of(
                    value->0.runtime,
                    generator.script,
                )->Ok_0 == generator.runtime
                &&& env_specs_of(texts(value->0.env@)) is Ok && env_specs_of(
                    texts(value->0.env@),
                )->Ok_0 == generator.env
                &&& generator.when_env == value->0.when_env@
                &&& exists|i: int|
                    0 <= i < generator.env.len() && (#[trigger] generator.env[i]).0
                        == generator.when_env
                &&& generator.auto == value->0.auto
            },
            Err(_) => value is Some,
        },
{
    if let Ok(Some(generator)) = generator_of(value, platform) {
        assert(crate::app_metadata::is_source(generator.env, generator.when_env));
    }
}

proof fn lemma_hooks(list: Seq<HookToml>, field: Seq<char>)
    ensures
        match hook_list(list, field) {
            Ok(hooks) => {
                &&& hooks.len() == list.len()
                &&& forall|i: int|
                    0 <= i < list.len() ==> {
                        &&& (#[trigger] hooks[i]).command == list[i].command@
                        &&& trimmed(hooks[i].command).len() > 0
                        &&& hooks[i].args == texts(list[i].args@)
                        &&& hooks[i].show_output == list[i].show_output
                    }
            },
            Err(_) => exists|i: int|
                0 <= i < list.len() && trimmed((#[trigger] list[i]).command@).len() == 0,
        },
    decreases list.len(),
{
    if list.len() > 0 {
        let head = list.drop_last();
        lemma_hooks(head, field);
        assert(list[list.len() - 1] == list.last());
        assert(forall|i: int| 0 <= i < head.len() ==> head[i] == #[trigger] list[i]);
        match hook_list(head, field) {
            Ok(before) => {
                if let Ok(hooks) = hook_list(list, field) {
                    assert forall|i: int| 0 <= i < list.len() implies {
                        &&& (#[trigger] hooks[i]).command == list[i].command@
                        &&& trimmed(hooks[i].command).len() > 0
                        &&& hooks[i].args == texts(list[i].args@)
                        &&& hooks[i].show_output == list[i].show_output
                    } by {
                        if i < head.len() {
                            assert(hooks[i] == before[i]);
                            assert(head[i] == list[i]);
                        }
                    }
                }
            },
            Err(_) => {
                let i = choose|i: int|
                    0 <= i < head.len() && trimmed((#[trigger] head[i]).command@).len() == 0;
                assert(list[i] == head[i]);
            },
        }
    }
}

/// The hooks that the metadata lists.
pub open spec fn hooks_listed(value: Option<HookSpecToml>) -> Seq<HookToml> {
    match value {
        None => Seq::empty(),
        Some(HookSpecToml::Single(hook)) => seq![hook],
        Some(HookSpecToml::Multiple(list)) => list@,
    }
}

/// The hooks of a phase are those that the metadata lists, each with its command, its
/// arguments and whether its output is shown, in their order; a blank command and an empty
/// list are errors.
pub proof fn law_hooks_are_those_listed(value: Option<HookSpecToml>, field: Seq<char>)
    ensures
        ({
            let listed = hooks_listed(value);
            match hooks_of(value, field) {
                Ok(hooks) => {
                    &&& hooks.len() == listed.len()
                    &&& value is Some ==> hooks.len() > 0
                    &&& forall|i: int|
                        0 <= i < listed.len() ==> {
                            &&& (#[trigger] hooks[i]).command == listed[i].command@
                            &&& trimmed(hooks[i].command).len() > 0
                            &&& hooks[i].args == texts(listed[i].args@)
                            &&& hooks[i].show_output == listed[i].show_output
                        }
                },
                Err(_) => value is Some && (listed.len() == 0 || exists|i: int|
                    0 <= i < listed.len() && trimmed((#[trigger] listed[i]).command@).len() == 0),
            }
        }),
{
    lemma_hooks(hooks_listed(value), field);
}

/// A file of the metadata. It is left out on a platform exactly where it is not for it or
/// has no destination there; otherwise it is what the metadata says of it, and the preset
/// file that it names, and the script of its generator, are there.
pub proof fn law_files_are_those_of_the_metadata(
    files: Seq<PresetFileView>,
    prefix: Seq<char>,
    platform: RuntimePlatform,
    file: FileToml,
)
    ensures
        match resolved_file(files, prefix, platform, file) {
            Ok(None) => file_place(file, platform) is Ok && file_place(file, platform)->Ok_0
                is None,
            Ok(Some(found)) => {
                &&& file_place(file, platform) is Ok && file_place(file, platform)->Ok_0 == Some(
                    found.destination_root,
                )
                &&& found.source_rel == file.source@
                &&& found.target_rel == if file.target is Some {
                    file.target->0@
                } else {
                    file.source@
                }
                &&& relative_fault(found.source_rel, platform) is None
                &&& relative_fault(found.target_rel, platform) is None
                &&& preset_file(
                    files,
                    logical_under(prefix, found.source_rel, platform_style(platform)),
                ) is Some
                &&& found.requires_admin == file.requires_admin
                &&& found.restart_hint is Some <==> file.restart_hint is Some
                &&& found.restart_hint is Some ==> found.restart_hint->0 == file.restart_hint->0@
                &&& found.legacy_dest_annotation is None
                &&& transforms_of(file) is Ok && transforms_of(file)->Ok_0 == found.transforms
                &&& strategy_of(file) is Ok && strategy_of(file)->Ok_0 == found.install_strategy
                &&& generator_of(file.generator, platform) is Ok && generator_of(
                    file.generator,
                    platform,
                )->Ok_0 == found.generator
                &&& found.generator is Some ==> preset_file(
                    files,
                    logical_under(prefix, found.generator->0.script, platform_style(platform)),
                ) is Some
            },
            Err(_) => {
                ||| file_place(file, platform) is Err
                ||| relative_fault(file.source@, platform) is Some
                ||| file.target is Some && relative_fault(file.target->0@, platform) is Some
                ||| preset_file(
                    files,
                    logical_under(prefix, file.source@, platform_style(platform)),
                ) is None
                ||| transforms_of(file) is Err
                ||| strategy_of(file) is Err
                ||| generator_of(file.generator, platform) is Err
                ||| file.generator is Some && preset_file(
                    files,
                    logical_under(prefix, file.generator->0.script@, platform_style(platform)),
                ) is None
            },
        },
        match file_place(file, platform) {
            Ok(None) => {
                ||| file.platforms is Some && platform_wanted(
                    Some(texts(file.platforms->0@)),
                    platform,
                ) is Ok && !(platform_wanted(Some(texts(file.platforms->0@)), platform)->Ok_0)
                ||| file.dest is Some && selected_file(file.dest->0, platform) is Ok
                    && selected_file(file.dest->0, platform)->Ok_0 is None
            },
            Ok(Some(root)) => {
                &&& file.platforms is Some ==> platform_wanted(
                    Some(texts(file.platforms->0@)),
                    platform,
                ) is Ok && platform_wanted(Some(texts(file.platforms->0@)), platform)->Ok_0
                &&& match file.dest {
                    None => root is None,
                    Some(dest) => root is Some && selected_file(dest, platform) is Ok
                        && selected_file(dest, platform)->Ok_0 == root,
                }
            },
            Err(_) => {
                ||| file.platforms is Some && platform_wanted(
                    Some(texts(file.platforms->0@)),
                    platform,
                ) is Err
                ||| file.dest is Some && selected_file(file.dest->0, platform) is Err
            },
        },
{
}

/// The files of a category with a list of files are those of the list that are for the
/// platform, and none is missed.
pub proof fn law_no_file_of_the_metadata_is_missed(
    files: Seq<PresetFileView>,
    prefix: Seq<char>,
    platform: RuntimePlatform,
    list: Seq<FileToml>,
    index: int,
)
    requires
        0 <= index < list.len(),
    ensures
        match resolved_files(files, prefix, platform, list) {
            Ok(found) => {
                &&& found.len() <= list.len()
                &&& resolved_file(files, prefix, platform, list[index]) is Ok
                &&& resolved_file(files, prefix, platform, list[index])->Ok_0 is Some
                    ==> found.contains(
                    resolved_file(files, prefix, platform, list[index])->Ok_0->0,
                )
            },
            Err(_) => true,
        },
        (forall|i: int|
            0 <= i < list.len() ==> resolved_file(
                files,
                prefix,
                platform,
                #[trigger] list[i],
            ) is Ok) ==> resolved_files(files, prefix, platform, list) is Ok,
    decreases list.len(),
{
    lemma_resolved(files, prefix, platform, list);
}

proof fn lemma_resolved(
    files: Seq<PresetFileView>,
    prefix: Seq<char>,
    platform: RuntimePlatform,
    list: Seq<FileToml>,
)
    ensures
        match resolved_files(files, prefix, platform, list) {
            Ok(found) => found.len() <= list.len() && forall|index: int|
                0 <= index < list.len() ==> {
                    &&& resolved_file(files, prefix, platform, #[trigger] list[index]) is Ok
                    &&& resolved_file(files, prefix, platform, list[index])->Ok_0 is Some
                        ==> found.contains(
                        resolved_file(files, prefix, platform, list[index])->Ok_0->0,
                    )
                },
            Err(_) => exists|i: int|
                0 <= i < list.len() && resolved_file(
                    files,
                    prefix,
                    platform,
                    #[trigger] list[i],
                ) is Err,
        },
    decreases list.len(),
{
    if list.len() > 0 {
        let head = list.drop_last();
        lemma_resolved(files, prefix, platform, head);
        assert(list[list.len() - 1] == list.last());
        assert(forall|i: int| 0 <= i < head.len() ==> head[i] == #[trigger] list[i]);
        match resolved_files(files, prefix, platform, head) {
            Ok(before) => {
                if let Ok(found) = resolved_files(files, prefix, platform, list) {
                    assert forall|index: int| 0 <= index < list.len() implies {
                        &&& resolved_file(files, prefix, platform, #[trigger] list[index]) is Ok
                        &&& resolved_file(files, prefix, platform, list[index])->Ok_0 is Some
                            ==> found.contains(
                            resolved_file(files, prefix, platform, list[index])->Ok_0->0,
                        )
                    } by {
                        let own = resolved_file(files, prefix, platform, list[index]);
                        if index < head.len() {
                            assert(head[index] == list[index]);
                            if own->Ok_0 is Some {
                                let k = choose|k: int|
                                    0 <= k < before.len() && before[k] == own->Ok_0->0;
                                assert(found[k] == before[k]);
                            }
                        } else if own->Ok_0 is Some {
                            assert(found.last() == own->Ok_0->0);
                            assert(found.contains(found.last()));
                        }
                    }
                }
            },
            Err(_) => {
                let i = choose|i: int|
                    0 <= i < head.len() && resolved_file(
                        files,
                        prefix,
                        platform,
                        #[trigger] head[i],
                    ) is Err;
                assert(list[i] == head[i]);
            },
        }
    }
}

/// A category is what its metadata says where it has any, and what its files say where it
/// has none; metadata that cannot be read is an error. A category without a file on the
/// platform is left out.
pub proof fn law_categories_are_what_their_metadata_says(
    files: Seq<PresetFileView>,
    platform: RuntimePlatform,
    name: Seq<char>,
)
    ensures
        ({
            let prefix = "app/"@ + name + "/"@;
            let described = preset_file(files, prefix + "shine.toml"@);
            match app_category_of(files, platform, name) {
                Ok(Some(category)) => {
                    &&& category.name == name
                    &&& category.files.len() > 0
                    &&& category.uses_metadata <==> described is Some
                    &&& described is None ==> {
                        &&& category.destination_root is None && category.artifact is None
                        &&& category.post_install.len() == 0 && category.post_upgrade.len() == 0
                        &&& category.files.len() == files_under(files, prefix).len()
                        &&& forall|i: int|
                            0 <= i < category.files.len() ==> {
                                &&& (#[trigger] category.files[i]).source_rel == files_under(
                                    files,
                                    prefix,
                                )[i]
                                &&& category.files[i].target_rel == category.files[i].source_rel
                                &&& category.files[i].install_strategy is None
                                &&& !category.files[i].requires_admin
                                &&& category.files[i].generator is None
                                &&& category.files[i].transforms.len() == 0
                            }
                    }
                    &&& described is Some ==> {
                        let metadata = described->0.metadata->0;
                        &&& described->0.metadata is Some
                        &&& selected_category(metadata.dest, platform) is Ok && selected_category(
                            metadata.dest,
                            platform,
                        )->Ok_0 == category.destination_root
                        &&& category.destination_root is Some
                        &&& hooks_of(metadata.post_install, "post_install"@) is Ok && hooks_of(
                            metadata.post_install,
                            "post_install"@,
                        )->Ok_0 == category.post_install
                        &&& hooks_of(metadata.post_upgrade, "post_upgrade"@) is Ok && hooks_of(
                            metadata.post_upgrade,
                            "post_upgrade"@,
                        )->Ok_0 == category.post_upgrade
                        &&& artifact_of(metadata.artifact) is Ok && artifact_of(
                            metadata.artifact,
                        )->Ok_0 == category.artifact
                        &&& metadata.files is Some ==> resolved_files(
                            files,
                            prefix,
                            platform,
                            metadata.files->0@,
                        ) is Ok && resolved_files(
                            files,
                            prefix,
                            platform,
                            metadata.files->0@,
                        )->Ok_0 == category.files
                        &&& metadata.files is None ==> category.files.len() == files_under(
                            files,
                            prefix,
                        ).len() && forall|i: int|
                            0 <= i < category.files.len() ==> (
                            #[trigger] category.files[i]).source_rel == files_under(files, prefix)[i]
                                && category.files[i].legacy_dest_annotation is None
                    }
                },
                Ok(None) => {
                    &&& described is None ==> files_under(files, prefix).len() == 0
                    &&& described is Some ==> described->0.metadata is Some
                },
                Err(_) => described is Some,
            }
        }),
{
}

/// The destination that a file names for itself stands in its first line, or in its second
/// where the first names an interpreter; it is what follows the mark there, trimmed, and is
/// not blank.
pub proof fn law_files_may_name_their_destination(text: Seq<char>, named: Seq<char>)
    ensures
        crate::app_metadata::annotation_in(text) == Some(named) <==> {
            let lines = crate::lexical::lines_of(text);
            let skips = lines.len() > 0 && begins_with(lines[0], "#!"@);
            let line = if skips {
                trimmed(lines[1])
            } else {
                trimmed(lines[0])
            };
            &&& lines.len() > if skips {
                1int
            } else {
                0int
            }
            &&& begins_with(line, "# shine-dest:"@)
            &&& named == trimmed(line.skip("# shine-dest:"@.len() as int))
            &&& named.len() > 0
        },
{
}

/// The description of a file is the first comment line of it that is not blank and names no
/// interpreter.
pub proof fn law_files_may_describe_themselves(lines: Seq<Seq<char>>, at: int)
    requires
        0 <= at < lines.len(),
        ({
            let line = trimmed(lines[at]);
            &&& !begins_with(lines[at], "#!"@) && begins_with(line, "# "@)
            &&& trimmed(line.skip(2)).len() > 0
        }),
        forall|i: int|
            0 <= i < at ==> begins_with(#[trigger] lines[i], "#!"@) || !begins_with(
                trimmed(lines[i]),
                "# "@,
            ) || trimmed(trimmed(lines[i]).skip(2)).len() == 0,
    ensures
        crate::app_metadata::first_description(lines) == Some(trimmed(trimmed(lines[at]).skip(2))),
    decreases lines.len(),
{
    let head = lines.drop_last();
    if at < head.len() {
        assert(head[at] == lines[at]);
        assert forall|i: int| 0 <= i < at implies begins_with(#[trigger] head[i], "#!"@)
            || !begins_with(trimmed(head[i]), "# "@) || trimmed(trimmed(head[i]).skip(2)).len()
            == 0 by {
            assert(head[i] == lines[i]);
        }
        law_files_may_describe_themselves(head, at);
    } else {
        assert forall|i: int| 0 <= i < head.len() implies begins_with(#[trigger] head[i], "#!"@)
            || !begins_with(trimmed(head[i]), "# "@) || trimmed(trimmed(head[i]).skip(2)).len()
            == 0 by {
            assert(head[i] == lines[i]);
        }
        lemma_undescribed(head);
        assert(lines.last() == lines[at]);
    }
}

proof fn lemma_undescribed(lines: Seq<Seq<char>>)
    requires
        forall|i: int|
            0 <= i < lines.len() ==> begins_with(#[trigger] lines[i], "#!"@) || !begins_with(
                trimmed(lines[i]),
                "# "@,
            ) || trimmed(trimmed(lines[i]).skip(2)).len() == 0,
    ensures
        crate::app_metadata::first_description(lines) is None,
    decreases lines.len(),
{
    if lines.len() > 0 {
        let head = lines.drop_last();
        assert forall|i: int| 0 <= i < head.len() implies begins_with(#[trigger] head[i], "#!"@)
            || !begins_with(trimmed(head[i]), "# "@) || trimmed(trimmed(head[i]).skip(2)).len()
            == 0 by {
            assert(head[i] == lines[i]);
        }
        lemma_undescribed(head);
        assert(lines[lines.len() - 1] == lines.last());
    }
}

/// A category is listed as its metadata asks; where it does not say, by its files where it
/// lists them and as a whole where it does not. Descriptions are those of the metadata.
pub proof fn law_categories_are_listed_as_asked(
    files: Seq<PresetFileView>,
    platform: RuntimePlatform,
    name: Seq<char>,
    metadata: crate::app_metadata_types::CategoryToml,
)
    ensures
        match crate::app_categories::metadata_category(files, platform, name, metadata) {
            Ok(Some(category)) => {
                &&& category.list_mode == match metadata.list_mode {
                    Some(crate::app_metadata_types::ListModeToml::Category) =>
                        crate::app_types::AppListMode::Category,
                    Some(crate::app_metadata_types::ListModeToml::Files) =>
                        crate::app_types::AppListMode::Files,
                    None => if metadata.files is Some {
                        crate::app_types::AppListMode::Files
                    } else {
                        crate::app_types::AppListMode::Category
                    },
                }
                &&& category.has_explicit_files <==> metadata.files is Some
                &&& category.description is Some <==> metadata.description is Some
                &&& category.description is Some ==> category.description->0
                    == metadata.description->0@
                &&& category.permissions is Some <==> metadata.permissions is Some
            },
            _ => true,
        },
{
}

} // verus!
