//! From the metadata of an App category to its files, hooks and artifact.

use vstd::prelude::*;
use vstd::string::*;
use vstd::utf8::{decode_utf8, encode_utf8_decode_utf8, valid_utf8};

use crate::app_dest::{
    metadata_error, normalize_relative, relative_fault, MetadataCode, MetadataError,
};
use crate::app_metadata_types::{
    ArtifactRuntimeToml, ArtifactToml, FileToml, GeneratorToml, HookSpecToml, HookToml,
    InstallModeToml,
};
use crate::app_types::{
    copy_optional, env_spec_views, hook_views, optional_artifact, optional_generator, AppArtifact,
    AppArtifactView, AppGenerator, AppGeneratorView, AppHook, AppHookView, ArtifactRuntime,
    EnvVarSpec,
};
use crate::context::RuntimePlatform;
use crate::env::{env_specs_of, is_env_key, parse_env_specs, validate_env_key};
use crate::lexical::{contains_char, is_blank, lines, lines_of, trim, trimmed, utf8_text};
use crate::manifest::{strategy_keys, AppInstallStrategy};
use crate::path::{extension, extension_of};
use crate::plan::optional_text;
use crate::text::{after_prefix, begins_with, copy_texts, same_text, starts_with, texts};

verus! {

/// A fault of metadata, by its values.
pub type MetadataFault = (MetadataCode, Seq<char>);

/// The place of the first text that names no transform.
pub open spec fn unknown_transform(list: Seq<Seq<char>>) -> Option<int>
    decreases list.len(),
{
    if list.len() == 0 {
        None
    } else {
        match unknown_transform(list.drop_last()) {
            Some(place) => Some(place),
            None => if list.last() == "template"@ {
                None
            } else {
                Some(list.len() - 1)
            },
        }
    }
}

/// The transforms of a file.
pub open spec fn transforms_of(file: FileToml) -> Result<Seq<Seq<char>>, MetadataFault> {
    if file.transform is Some && file.transforms is Some {
        Err((MetadataCode::TransformConflict, Seq::empty()))
    } else {
        let list = match file.transform {
            Some(transform) => seq![transform@],
            None => match file.transforms {
                Some(list) => texts(list@),
                None => Seq::empty(),
            },
        };
        match unknown_transform(list) {
            Some(place) => Err((MetadataCode::UnknownTransform, list[place])),
            None => Ok(list),
        }
    }
}

fn find_unknown_transform(list: &Vec<String>) -> (place: Option<usize>)
    ensures
        match place {
            Some(place) => unknown_transform(texts(list@)) == Some(place as int) && place
                < list@.len(),
            None => unknown_transform(texts(list@)) is None,
        },
{
    let ghost all = texts(list@);
    let mut found: Option<usize> = None;
    let mut i: usize = 0;
    proof {
        assert(all.take(0) =~= Seq::<Seq<char>>::empty());
    }
    while i < list.len()
        invariant
            i <= list.len(),
            all == texts(list@),
            match found {
                Some(place) => unknown_transform(all.take(i as int)) == Some(place as int) && place
                    < list@.len(),
                None => unknown_transform(all.take(i as int)) is None,
            },
        decreases list.len() - i,
    {
        proof {
            assert(all.take(i as int + 1).drop_last() =~= all.take(i as int));
            assert(all.take(i as int + 1).last() == list@[i as int]@);
        }
        if found.is_none() && !same_text(list[i].as_str(), "template") {
            found = Some(i);
        }
        i += 1;
    }
    proof {
        assert(all.take(all.len() as int) =~= all);
    }
    found
}

/// The transforms of the file.
pub fn transforms(file: &FileToml) -> (result: Result<Vec<String>, MetadataError>)
    ensures
        match transforms_of(*file) {
            Ok(list) => result is Ok && texts(result->Ok_0@) == list,
            Err(error) => result is Err && result->Err_0@ == error,
        },
{
    let list: Vec<String> = match (&file.transform, &file.transforms) {
        (Some(_), Some(_)) => {
            return Err(
                MetadataError { code: MetadataCode::TransformConflict, detail: String::new() },
            );
        },
        (Some(transform), None) => {
            let mut list: Vec<String> = Vec::new();
            list.push(transform.clone());
            proof {
                assert(texts(list@) =~= seq![transform@]);
            }
            list
        },
        (None, Some(list)) => copy_texts(list.as_slice()),
        (None, None) => {
            let list: Vec<String> = Vec::new();
            proof {
                assert(texts(list@) =~= Seq::<Seq<char>>::empty());
            }
            list
        },
    };
    match find_unknown_transform(&list) {
        Some(place) => {
            proof {
                assert(texts(list@)[place as int] == list@[place as int]@);
            }
            Err(metadata_error(MetadataCode::UnknownTransform, list[place].as_str()))
        },
        None => Ok(list),
    }
}

/// Whether a text can be a managed key: not blank, and without a `.`.
pub open spec fn is_managed_key(key: Seq<char>) -> bool {
    trimmed(key).len() > 0 && !key.contains('.')
}

/// The install strategy of a file: none for a copy, the managed keys for a merge.
pub open spec fn strategy_of(file: FileToml) -> Result<Option<Seq<Seq<char>>>, MetadataFault> {
    if file.install_mode == Some(InstallModeToml::JsonMerge) {
        match file.managed_keys {
            None => Err((MetadataCode::ManagedKeysMissing, Seq::empty())),
            Some(keys) => if keys@.len() == 0 || exists|i: int|
                0 <= i < keys@.len() && !is_managed_key((#[trigger] keys@[i])@) {
                Err((MetadataCode::ManagedKeysInvalid, Seq::empty()))
            } else {
                Ok(Some(texts(keys@)))
            },
        }
    } else if file.managed_keys is Some {
        Err((MetadataCode::ManagedKeysWithoutMerge, Seq::empty()))
    } else {
        Ok(None)
    }
}

/// The install strategy of the file.
pub fn install_strategy(file: &FileToml) -> (result: Result<AppInstallStrategy, MetadataError>)
    ensures
        match strategy_of(*file) {
            Ok(keys) => result is Ok && strategy_keys(result->Ok_0) == keys,
            Err(error) => result is Err && result->Err_0@ == error,
        },
{
    let merges = match file.install_mode {
        Some(mode) => mode == InstallModeToml::JsonMerge,
        None => false,
    };
    if !merges {
        return if file.managed_keys.is_some() {
            Err(
                MetadataError {
                    code: MetadataCode::ManagedKeysWithoutMerge,
                    detail: String::new(),
                },
            )
        } else {
            Ok(AppInstallStrategy::Copy)
        };
    }
    match &file.managed_keys {
        None => Err(
            MetadataError { code: MetadataCode::ManagedKeysMissing, detail: String::new() },
        ),
        Some(keys) => {
            let mut valid = keys.len() > 0;
            let mut i: usize = 0;
            while i < keys.len()
                invariant
                    i <= keys.len(),
                    valid == (keys@.len() > 0 && forall|j: int|
                        0 <= j < i ==> is_managed_key((#[trigger] keys@[j])@)),
                decreases keys.len() - i,
            {
                if is_blank(keys[i].as_str()) || contains_char(keys[i].as_str(), '.') {
                    assert(!is_managed_key(keys@[i as int]@));
                    valid = false;
                }
                i += 1;
            }
            if !valid {
                return Err(
                    MetadataError { code: MetadataCode::ManagedKeysInvalid, detail: String::new() },
                );
            }
            Ok(AppInstallStrategy::JsonMerge { managed_keys: copy_texts(keys.as_slice()) })
        },
    }
}

/// Whether Bun can run a script, by its extension.
pub open spec fn is_bun_script(script: Seq<char>) -> bool {
    match extension_of(script) {
        Some(extension) => extension == "ts"@ || extension == "js"@ || extension == "mts"@
            || extension == "mjs"@,
        None => false,
    }
}

/// Whether Bun can run the script.
pub fn require_bun_extension(script: &str) -> (result: bool)
    ensures
        result == is_bun_script(script@),
{
    match extension(script) {
        Some(extension) => same_text(extension.as_str(), "ts") || same_text(
            extension.as_str(),
            "js",
        ) || same_text(extension.as_str(), "mts") || same_text(extension.as_str(), "mjs"),
        None => false,
    }
}

/// What runs a script.
pub open spec fn runtime_of(value: Option<ArtifactRuntimeToml>, script: Seq<char>) -> Result<
    ArtifactRuntime,
    MetadataFault,
> {
    if value == Some(ArtifactRuntimeToml::Bun) {
        if is_bun_script(script) {
            Ok(ArtifactRuntime::Bun)
        } else {
            Err((MetadataCode::BunExtension, script))
        }
    } else {
        Ok(ArtifactRuntime::Native)
    }
}

/// What runs the script.
pub fn artifact_runtime(value: Option<ArtifactRuntimeToml>, script: &str) -> (result: Result<
    ArtifactRuntime,
    MetadataError,
>)
    ensures
        match runtime_of(value, script@) {
            Ok(runtime) => result is Ok && result->Ok_0 == runtime,
            Err(error) => result is Err && result->Err_0@ == error,
        },
{
    let bun = match value {
        Some(runtime) => runtime == ArtifactRuntimeToml::Bun,
        None => false,
    };
    if !bun {
        return Ok(ArtifactRuntime::Native);
    }
    if require_bun_extension(script) {
        Ok(ArtifactRuntime::Bun)
    } else {
        Err(metadata_error(MetadataCode::BunExtension, script))
    }
}

/// The hooks that a list of metadata gives; a hook without a command is refused.
pub open spec fn hook_list(list: Seq<HookToml>, field: Seq<char>) -> Result<
    Seq<AppHookView>,
    MetadataFault,
>
    decreases list.len(),
{
    if list.len() == 0 {
        Ok(Seq::empty())
    } else {
        match hook_list(list.drop_last(), field) {
            Err(error) => Err(error),
            Ok(before) => if trimmed(list.last().command@).len() == 0 {
                Err((MetadataCode::HookCommandEmpty, field))
            } else {
                Ok(
                    before.push(
                        AppHookView {
                            command: list.last().command@,
                            args: texts(list.last().args@),
                            show_output: list.last().show_output,
                            env: Seq::empty(),
                        },
                    ),
                )
            },
        }
    }
}

/// The hooks of a phase.
pub open spec fn hooks_of(value: Option<HookSpecToml>, field: Seq<char>) -> Result<
    Seq<AppHookView>,
    MetadataFault,
> {
    match value {
        None => Ok(Seq::empty()),
        Some(HookSpecToml::Single(hook)) => hook_list(seq![hook], field),
        Some(HookSpecToml::Multiple(list)) => if list@.len() == 0 {
            Err((MetadataCode::HooksEmpty, field))
        } else {
            hook_list(list@, field)
        },
    }
}

fn hook_of(hook: &HookToml) -> (result: AppHook)
    ensures
        result@ == (AppHookView {
            command: hook.command@,
            args: texts(hook.args@),
            show_output: hook.show_output,
            env: Seq::empty(),
        }),
{
    let result = AppHook {
        command: hook.command.clone(),
        args: copy_texts(hook.args.as_slice()),
        show_output: hook.show_output,
        env: Vec::new(),
    };
    proof {
        assert(env_spec_views(result.env@) =~= Seq::<(Seq<char>, Seq<char>)>::empty());
    }
    result
}

proof fn lemma_hook_error_stays(list: Seq<HookToml>, field: Seq<char>, count: int)
    requires
        0 <= count <= list.len(),
        hook_list(list.take(count), field) is Err,
    ensures
        hook_list(list, field) == hook_list(list.take(count), field),
    decreases list.len() - count,
{
    if count == list.len() {
        assert(list.take(count) =~= list);
    } else {
        assert(list.take(count + 1).drop_last() =~= list.take(count));
        lemma_hook_error_stays(list, field, count + 1);
    }
}

fn read_hooks(list: &Vec<HookToml>, field: &str) -> (result: Result<Vec<AppHook>, MetadataError>)
    ensures
        match hook_list(list@, field@) {
            Ok(hooks) => result is Ok && hook_views(result->Ok_0@) == hooks,
            Err(error) => result is Err && result->Err_0@ == error,
        },
{
    let mut hooks: Vec<AppHook> = Vec::new();
    let mut i: usize = 0;
    proof {
        assert(list@.take(0) =~= Seq::<HookToml>::empty());
        assert(hook_views(hooks@) =~= Seq::<AppHookView>::empty());
    }
    while i < list.len()
        invariant
            i <= list.len(),
            hook_list(list@.take(i as int), field@) == Ok::<Seq<AppHookView>, MetadataFault>(
                hook_views(hooks@),
            ),
        decreases list.len() - i,
    {
        let ghost before = hooks@;
        proof {
            assert(list@.take(i as int + 1).drop_last() =~= list@.take(i as int));
            assert(list@.take(i as int + 1).last() == list@[i as int]);
        }
        if is_blank(list[i].command.as_str()) {
            proof {
                lemma_hook_error_stays(list@, field@, i as int + 1);
            }
            return Err(metadata_error(MetadataCode::HookCommandEmpty, field));
        }
        let hook = hook_of(&list[i]);
        let ghost added = hook@;
        hooks.push(hook);
        proof {
            assert(hook_views(hooks@) =~= hook_views(before).push(added));
        }
        i += 1;
    }
    proof {
        assert(list@.take(list@.len() as int) =~= list@);
    }
    Ok(hooks)
}

/// The hooks of the phase.
pub fn hooks(value: &Option<HookSpecToml>, field: &str) -> (result: Result<
    Vec<AppHook>,
    MetadataError,
>)
    ensures
        match hooks_of(*value, field@) {
            Ok(hooks) => result is Ok && hook_views(result->Ok_0@) == hooks,
            Err(error) => result is Err && result->Err_0@ == error,
        },
{
    match value {
        None => {
            let hooks: Vec<AppHook> = Vec::new();
            proof {
                assert(hook_views(hooks@) =~= Seq::<AppHookView>::empty());
            }
            Ok(hooks)
        },
        Some(HookSpecToml::Single(hook)) => {
            proof {
                reveal_with_fuel(hook_list, 2);
                assert(seq![*hook].drop_last() =~= Seq::<HookToml>::empty());
                assert(seq![*hook].last() == *hook);
            }
            if is_blank(hook.command.as_str()) {
                return Err(metadata_error(MetadataCode::HookCommandEmpty, field));
            }
            let mut hooks: Vec<AppHook> = Vec::new();
            let only = hook_of(hook);
            let ghost added = only@;
            hooks.push(only);
            proof {
                assert(hook_views(hooks@) =~= Seq::<AppHookView>::empty().push(added));
            }
            Ok(hooks)
        },
        Some(HookSpecToml::Multiple(list)) => {
            if list.len() == 0 {
                return Err(metadata_error(MetadataCode::HooksEmpty, field));
            }
            read_hooks(list, field)
        },
    }
}

/// The artifact of a category.
pub open spec fn artifact_of(value: Option<ArtifactToml>) -> Result<
    Option<AppArtifactView>,
    MetadataFault,
> {
    match value {
        None => Ok(None),
        Some(value) => if trimmed(value.script@).len() == 0 || (value.teardown is Some && trimmed(
            value.teardown->0@,
        ).len() == 0) {
            Err((MetadataCode::ArtifactScriptEmpty, Seq::empty()))
        } else {
            match runtime_of(value.runtime, value.script@) {
                Err(error) => Err(error),
                Ok(runtime) => if runtime == ArtifactRuntime::Bun && value.teardown is Some
                    && !is_bun_script(value.teardown->0@) {
                    Err((MetadataCode::BunExtension, value.teardown->0@))
                } else {
                    Ok(
                        Some(
                            AppArtifactView {
                                script: value.script@,
                                teardown: optional_text(value.teardown),
                                runtime,
                                env: Seq::empty(),
                            },
                        ),
                    )
                },
            }
        },
    }
}

/// The artifact of the category.
pub fn artifact(value: &Option<ArtifactToml>) -> (result: Result<
    Option<AppArtifact>,
    MetadataError,
>)
    ensures
        match artifact_of(*value) {
            Ok(artifact) => result is Ok && optional_artifact(result->Ok_0) == artifact,
            Err(error) => result is Err && result->Err_0@ == error,
        },
{
    let value = match value {
        None => return Ok(None),
        Some(value) => value,
    };
    let teardown_blank = match &value.teardown {
        Some(teardown) => is_blank(teardown.as_str()),
        None => false,
    };
    if is_blank(value.script.as_str()) || teardown_blank {
        return Err(
            MetadataError { code: MetadataCode::ArtifactScriptEmpty, detail: String::new() },
        );
    }
    let runtime = match artifact_runtime(value.runtime, value.script.as_str()) {
        Ok(runtime) => runtime,
        Err(error) => return Err(error),
    };
    if runtime == ArtifactRuntime::Bun {
        if let Some(teardown) = &value.teardown {
            if !require_bun_extension(teardown.as_str()) {
                return Err(metadata_error(MetadataCode::BunExtension, teardown.as_str()));
            }
        }
    }
    let artifact = AppArtifact {
        script: value.script.clone(),
        teardown: copy_optional(&value.teardown),
        runtime,
        env: Vec::new(),
    };
    proof {
        assert(env_spec_views(artifact.env@) =~= Seq::<(Seq<char>, Seq<char>)>::empty());
    }
    Ok(Some(artifact))
}

/// Whether a variable is the source of one of the list.
pub open spec fn is_source(list: Seq<(Seq<char>, Seq<char>)>, name: Seq<char>) -> bool {
    exists|i: int| 0 <= i < list.len() && (#[trigger] list[i]).0 == name
}

/// The generator of a file.
pub open spec fn generator_of(
    value: Option<GeneratorToml>,
    platform: RuntimePlatform,
) -> Result<Option<AppGeneratorView>, MetadataFault> {
    match value {
        None => Ok(None),
        Some(value) => match relative_fault(value.script@, platform) {
            Some(fault) => Err((MetadataCode::GeneratorScriptInvalid, fault.text())),
            None => match runtime_of(value.runtime, value.script@) {
                Err(error) => Err(error),
                Ok(runtime) => match env_specs_of(texts(value.env@)) {
                    Err(text) => Err((MetadataCode::GeneratorEnvInvalid, text)),
                    Ok(env) => if !is_env_key(value.when_env@) {
                        Err((MetadataCode::GeneratorWhenEnvInvalid, value.when_env@))
                    } else if !is_source(env, value.when_env@) {
                        Err((MetadataCode::GeneratorWhenEnvUndeclared, value.when_env@))
                    } else {
                        Ok(
                            Some(
                                AppGeneratorView {
                                    script: value.script@,
                                    runtime,
                                    env,
                                    when_env: value.when_env@,
                                    auto: value.auto,
                                },
                            ),
                        )
                    },
                },
            },
        },
    }
}

fn declares_source(list: &Vec<EnvVarSpec>, name: &str) -> (found: bool)
    ensures
        found == is_source(env_spec_views(list@), name@),
{
    let ghost all = env_spec_views(list@);
    let mut i: usize = 0;
    while i < list.len()
        invariant
            i <= list.len(),
            all == env_spec_views(list@),
            forall|j: int| 0 <= j < i ==> (#[trigger] all[j]).0 != name@,
        decreases list.len() - i,
    {
        proof {
            assert(all[i as int] == list@[i as int]@);
        }
        if same_text(list[i].source.as_str(), name) {
            assert(all[i as int].0 == name@);
            return true;
        }
        i += 1;
    }
    false
}

/// The generator of the file.
pub fn generator(value: &Option<GeneratorToml>, platform: RuntimePlatform) -> (result: Result<
    Option<AppGenerator>,
    MetadataError,
>)
    ensures
        match generator_of(*value, platform) {
            Ok(generator) => result is Ok && optional_generator(result->Ok_0) == generator,
            Err(error) => result is Err && result->Err_0@ == error,
        },
{
    let value = match value {
        None => return Ok(None),
        Some(value) => value,
    };
    let script = match normalize_relative(value.script.as_str(), platform) {
        Ok(script) => script,
        Err(fault) => {
            return Err(metadata_error(MetadataCode::GeneratorScriptInvalid, fault.message()));
        },
    };
    let runtime = match artifact_runtime(value.runtime, value.script.as_str()) {
        Ok(runtime) => runtime,
        Err(error) => return Err(error),
    };
    let env = match parse_env_specs(&value.env) {
        Ok(env) => env,
        Err(text) => {
            return Err(MetadataError { code: MetadataCode::GeneratorEnvInvalid, detail: text });
        },
    };
    if !validate_env_key(value.when_env.as_str()) {
        return Err(
            metadata_error(MetadataCode::GeneratorWhenEnvInvalid, value.when_env.as_str()),
        );
    }
    if !declares_source(&env, value.when_env.as_str()) {
        return Err(
            metadata_error(MetadataCode::GeneratorWhenEnvUndeclared, value.when_env.as_str()),
        );
    }
    Ok(
        Some(
            AppGenerator {
                script,
                runtime,
                env,
                when_env: value.when_env.clone(),
                auto: value.auto,
            },
        ),
    )
}

/// A value that is not empty once it is trimmed.
pub open spec fn trimmed_value(text: Seq<char>) -> Option<Seq<char>> {
    if trimmed(text).len() == 0 {
        None
    } else {
        Some(trimmed(text))
    }
}

/// The destination that a legacy file names in its first line, or in its second
/// where the first one names its interpreter.
pub open spec fn annotation_in(text: Seq<char>) -> Option<Seq<char>> {
    let all = lines_of(text);
    let line = if all.len() == 0 {
        None
    } else if begins_with(all[0], "#!"@) {
        if all.len() > 1 {
            Some(all[1])
        } else {
            None
        }
    } else {
        Some(all[0])
    };
    match line {
        None => None,
        Some(line) => if begins_with(trimmed(line), "# shine-dest:"@) {
            trimmed_value(trimmed(line).skip("# shine-dest:"@.len() as int))
        } else {
            None
        },
    }
}

/// The description that a line of a legacy file holds.
pub open spec fn description_in_line(line: Seq<char>) -> Option<Seq<char>> {
    if begins_with(line, "#!"@) {
        None
    } else if begins_with(trimmed(line), "# "@) {
        trimmed_value(trimmed(line).skip(2))
    } else {
        None
    }
}

/// The first description among the lines.
pub open spec fn first_description(all: Seq<Seq<char>>) -> Option<Seq<char>>
    decreases all.len(),
{
    if all.len() == 0 {
        None
    } else {
        match first_description(all.drop_last()) {
            Some(description) => Some(description),
            None => description_in_line(all.last()),
        }
    }
}

fn non_blank(text: String) -> (value: Option<String>)
    ensures
        optional_text(value) == trimmed_value(text@),
{
    let inner = trim(text.as_str());
    if inner.as_str().is_empty() {
        None
    } else {
        Some(inner)
    }
}

/// The destination that a legacy file names; none where it is no text.
pub open spec fn annotation_of(bytes: Seq<u8>) -> Option<Seq<char>> {
    if valid_utf8(bytes) {
        annotation_in(decode_utf8(bytes))
    } else {
        None
    }
}

/// The description that a legacy file holds; none where it is no text.
pub open spec fn description_of(bytes: Seq<u8>) -> Option<Seq<char>> {
    if valid_utf8(bytes) {
        first_description(lines_of(decode_utf8(bytes)))
    } else {
        None
    }
}

/// The destination that the legacy file names.
pub fn dest_annotation(content: &[u8]) -> (annotation: Option<String>)
    ensures
        optional_text(annotation) == annotation_of(content@),
{
    let text = match utf8_text(content) {
        Some(text) => text,
        None => return None,
    };
    proof {
        encode_utf8_decode_utf8(text@);
    }
    let all = lines(text.as_str());
    proof {
        assert(texts(all@).len() == all@.len());
    }
    if all.len() == 0 {
        return None;
    }
    proof {
        assert(texts(all@)[0] == all@[0]@);
    }
    let line: &String = if starts_with(all[0].as_str(), "#!") {
        if all.len() < 2 {
            return None;
        }
        proof {
            assert(texts(all@)[1] == all@[1]@);
        }
        &all[1]
    } else {
        &all[0]
    };
    let inner = trim(line.as_str());
    match after_prefix(inner.as_str(), "# shine-dest:") {
        Some(rest) => non_blank(rest),
        None => None,
    }
}

/// The description that the legacy file holds.
pub fn legacy_description(content: &[u8]) -> (description: Option<String>)
    ensures
        optional_text(description) == description_of(content@),
{
    let text = match utf8_text(content) {
        Some(text) => text,
        None => return None,
    };
    proof {
        encode_utf8_decode_utf8(text@);
    }
    let all = lines(text.as_str());
    let ghost list = texts(all@);
    let mut found: Option<String> = None;
    let mut i: usize = 0;
    proof {
        assert(list.take(0) =~= Seq::<Seq<char>>::empty());
        reveal_strlit("# ");
    }
    while i < all.len()
        invariant
            i <= all.len(),
            list == texts(all@),
            "# "@.len() == 2,
            optional_text(found) == first_description(list.take(i as int)),
        decreases all.len() - i,
    {
        proof {
            assert(list.take(i as int + 1).drop_last() =~= list.take(i as int));
            assert(list.take(i as int + 1).last() == all@[i as int]@);
        }
        if found.is_none() && !starts_with(all[i].as_str(), "#!") {
            let inner = trim(all[i].as_str());
            if let Some(rest) = after_prefix(inner.as_str(), "# ") {
                found = non_blank(rest);
            }
        }
        i += 1;
    }
    proof {
        assert(list.take(list.len() as int) =~= list);
    }
    found
}

} // verus!
