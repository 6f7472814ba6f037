//! When the code of an App runs, what it sees, and what follows from what it leaves.

use vstd::prelude::*;
use vstd::string::*;
use vstd::utf8::valid_utf8;

use crate::app_artifact::{artifact_result, artifact_start};
use crate::app_code::{
    category_named, generator_call, generator_result, generator_start, hook_failure, hook_note,
    hook_outcome, hook_start, note_of,
};
use crate::app_scripts::{
    artifact_env, category_writes, code_allowed, first_unset, listed_env, script_of, script_path,
    script_writes,
};
use crate::app_types::{
    AppArtifactAction, AppArtifactRequest, AppCategoryView, AppGeneratorView, AppHookPhase,
    AppHookView, ArtifactRuntime,
};
use crate::context::{env_lookup, env_pairs, RuntimeContext};
use crate::host::{ProcessIo, ProcessOutput};
use crate::lifecycle::{LifecycleEffect, LifecycleStatus};
use crate::path::{file_name_of, path_join};
use crate::presets::{preset_file, PresetFileView, PresetSourceKind};
use crate::recovery_run::HostStepView;
use crate::runtime::bun_argument;
use crate::text::begins_with;

verus! {

/// Whether some file of a category comes from the overlay.
pub open spec fn is_overlaid(files: Seq<PresetFileView>, category: Seq<char>) -> bool {
    exists|i: int|
        0 <= i < files.len() && (#[trigger] files[i]).is_overlay && begins_with(
            files[i].path,
            "app/"@ + category + "/"@,
        )
}

/// The code of a category may run exactly where hooks are allowed, or where it is neither
/// of an external preset nor overlaid.
pub proof fn law_code_needs_consent(
    context: RuntimeContext,
    files: Seq<PresetFileView>,
    category: Seq<char>,
)
    ensures
        code_allowed(context, files, category) <==> {
            ||| context.allow_app_hooks
            ||| !context.is_external_presets && !is_overlaid(files, category)
        },
{
    if is_overlaid(files, category) {
        let i = choose|i: int|
            0 <= i < files.len() && (#[trigger] files[i]).is_overlay && begins_with(
                files[i].path,
                "app/"@ + category + "/"@,
            );
        assert(crate::app_scripts::has_overlay_code(files, category));
    }
}

/// A generator runs exactly where its variable is set, where it was asked for or runs by
/// itself, and where its code may run; where only the last fails it is refused, and
/// otherwise there is nothing to do.
pub proof fn law_generators_run_when_they_should(
    context: RuntimeContext,
    files: Seq<PresetFileView>,
    category: Seq<char>,
    generator: AppGeneratorView,
    explicit: bool,
)
    ensures
        ({
            let start = generator_start(context, files, category, generator, explicit);
            let due = env_lookup(env_pairs(context.env@), generator.when_env) is Some && (explicit
                || generator.auto);
            &&& start is Nothing <==> !due
            &&& start is Run <==> due && code_allowed(context, files, category)
            &&& start is Refused <==> due && !code_allowed(context, files, category)
            &&& start is Run ==> start->Run_call == generator_call(
                context,
                files,
                category,
                generator,
            )
        }),
{
}

proof fn lemma_set(specs: Seq<(Seq<char>, Seq<char>)>, env: Seq<(Seq<char>, Seq<char>)>)
    ensures
        first_unset(specs, env) is None <==> forall|i: int|
            0 <= i < specs.len() ==> env_lookup(env, (#[trigger] specs[i]).0) is Some,
    decreases specs.len(),
{
    if specs.len() > 0 {
        let head = specs.drop_last();
        lemma_set(head, env);
        assert(specs[specs.len() - 1] == specs.last());
        assert(forall|i: int| 0 <= i < head.len() ==> head[i] == #[trigger] specs[i]);
        if first_unset(head, env) is Some {
            let i = choose|i: int|
                0 <= i < head.len() && env_lookup(env, (#[trigger] head[i]).0) is None;
            assert(env_lookup(env, specs[i].0) is None);
        }
    }
}

/// The variables that code is given are those of its list that have a value, each under
/// the name that the code sees it by; none that is not listed.
pub proof fn law_code_sees_the_listed_variables(
    specs: Seq<(Seq<char>, Seq<char>)>,
    env: Seq<(Seq<char>, Seq<char>)>,
    pair: (Seq<char>, Seq<char>),
)
    ensures
        listed_env(specs, env).contains(pair) <==> exists|i: int|
            0 <= i < specs.len() && (#[trigger] specs[i]).1 == pair.0 && env_lookup(
                env,
                specs[i].0,
            ) == Some(pair.1),
    decreases specs.len(),
{
    if specs.len() > 0 {
        let head = specs.drop_last();
        law_code_sees_the_listed_variables(head, env, pair);
        assert(specs[specs.len() - 1] == specs.last());
        assert(forall|i: int| 0 <= i < head.len() ==> head[i] == #[trigger] specs[i]);
        let before = listed_env(head, env);
        let all = listed_env(specs, env);
        if before.contains(pair) {
            let i = choose|i: int|
                0 <= i < head.len() && (#[trigger] head[i]).1 == pair.0 && env_lookup(
                    env,
                    head[i].0,
                ) == Some(pair.1);
            assert(specs[i] == head[i]);
            let k = choose|k: int| 0 <= k < before.len() && before[k] == pair;
            assert(all[k] == pair);
        }
        if env_lookup(env, specs.last().0) is Some {
            let own = (specs.last().1, env_lookup(env, specs.last().0)->0);
            assert(all == before.push(own));
            assert(all[before.len() as int] == own);
            if all.contains(pair) {
                let k = choose|k: int| 0 <= k < all.len() && all[k] == pair;
                if k < before.len() {
                    assert(before[k] == pair);
                }
            }
        }
    }
}

/// A generator is called with its script, only where every variable that it lists is set,
/// with those variables and without a hand on the streams of the program.
pub proof fn law_generators_are_called_as_written(
    context: RuntimeContext,
    files: Seq<PresetFileView>,
    category: Seq<char>,
    generator: AppGeneratorView,
    index: int,
)
    ensures
        ({
            let call = generator_call(context, files, category, generator);
            let logical = "app/"@ + category + "/"@ + generator.script;
            let script = script_of(
                context,
                files,
                category,
                logical,
                generator.runtime,
                false,
            );
            let env = env_pairs(context.env@);
            &&& call is Ok <==> script is Ok && forall|i: int|
                0 <= i < generator.env.len() ==> env_lookup(
                    env,
                    (#[trigger] generator.env[i]).0,
                ) is Some
            &&& call is Ok ==> {
                &&& call->Ok_0.program == script->Ok_0.program
                &&& call->Ok_0.args == script->Ok_0.args
                &&& call->Ok_0.cwd == Some(script->Ok_0.category_root)
                &&& call->Ok_0.io == ProcessIo::Captured
                &&& call->Ok_0.timeout_seconds is Some && call->Ok_0.stdout_limit is Some
                    && call->Ok_0.stderr_limit is Some
                &&& 0 <= index < generator.env.len() ==> call->Ok_0.env.contains(
                    (
                        generator.env[index].1,
                        env_lookup(env, generator.env[index].0)->0,
                    ),
                )
            }
        }),
{
    let env = env_pairs(context.env@);
    lemma_set(generator.env, env);
    let call = generator_call(context, files, category, generator);
    if call is Ok && 0 <= index < generator.env.len() {
        let pair = (generator.env[index].1, env_lookup(env, generator.env[index].0)->0);
        assert(env_lookup(env, generator.env[index].0) is Some);
        law_code_sees_the_listed_variables(generator.env, env, pair);
        let listed = listed_env(generator.env, env);
        let k = choose|k: int| 0 <= k < listed.len() && listed[k] == pair;
        assert(call->Ok_0.env[k] == pair);
    }
}

proof fn lemma_category_writes(
    presets_dir: Seq<char>,
    files: Seq<PresetFileView>,
    prefix: Seq<char>,
    index: int,
)
    requires
        0 <= index < files.len(),
        begins_with(files[index].path, prefix),
    ensures
        category_writes(presets_dir, files, prefix).contains(
            HostStepView::WriteFile {
                path: path_join(presets_dir, files[index].path),
                content: files[index].bytes,
                privileged: false,
            },
        ),
    decreases files.len(),
{
    let head = files.drop_last();
    let before = category_writes(presets_dir, head, prefix);
    let all = category_writes(presets_dir, files, prefix);
    if index < head.len() {
        assert(head[index] == files[index]);
        lemma_category_writes(presets_dir, head, prefix, index);
        let step = HostStepView::WriteFile {
            path: path_join(presets_dir, files[index].path),
            content: files[index].bytes,
            privileged: false,
        };
        let k = choose|k: int| 0 <= k < before.len() && before[k] == step;
        assert(all[k] == step);
    } else {
        assert(all[before.len() as int] == all.last());
    }
}

/// A script that does not stand on disk is written there before it is run: what is written
/// holds the script, at the very path that it is run from, and for a whole category every
/// other file of it. A script that stands on disk is run where it stands, and nothing is
/// written.
pub proof fn law_scripts_are_written_where_they_run(
    context: RuntimeContext,
    files: Seq<PresetFileView>,
    category: Seq<char>,
    logical: Seq<char>,
    whole: bool,
    index: int,
)
    requires
        preset_file(files, logical) is Some,
        whole ==> begins_with(logical, "app/"@ + category + "/"@),
    ensures
        ({
            let file = preset_file(files, logical)->0;
            let steps = script_writes(context, files, category, logical, whole);
            let path = script_path(context, file, category, logical, whole);
            &&& file.physical_path is Some ==> path is Ok && path->Ok_0 == file.physical_path->0
                && steps.len() == 0
            &&& file.physical_path is None && path is Ok ==> steps.contains(
                HostStepView::WriteFile {
                    path: path->Ok_0,
                    content: file.bytes,
                    privileged: false,
                },
            )
            &&& file.physical_path is None && !whole ==> steps.len() <= 1 && (path is Ok
                <==> file_name_of(logical) is Some)
            &&& file.physical_path is None && whole && 0 <= index < files.len() && begins_with(
                files[index].path,
                "app/"@ + category + "/"@,
            ) ==> steps.contains(
                HostStepView::WriteFile {
                    path: path_join(context.presets_dir@, files[index].path),
                    content: files[index].bytes,
                    privileged: false,
                },
            )
        }),
{
    let file = preset_file(files, logical)->0;
    let steps = script_writes(context, files, category, logical, whole);
    let prefix = "app/"@ + category + "/"@;
    crate::preset_laws::law_preset_paths_are_found(files, logical);
    if file.physical_path is None {
        if whole {
            let own = choose|i: int| 0 <= i < files.len() && files[i] == file;
            lemma_category_writes(context.presets_dir@, files, prefix, own);
            if 0 <= index < files.len() && begins_with(files[index].path, prefix) {
                lemma_category_writes(context.presets_dir@, files, prefix, index);
            }
        } else if file_name_of(logical) is Some {
            assert(steps.contains(steps[0]));
        }
    }
}

/// A native script is its own program; what Bun runs is given to Bun, with the way that
/// its dependencies are dealt with. A script that is not there is not run.
pub proof fn law_scripts_are_run_by_their_runtime(
    context: RuntimeContext,
    files: Seq<PresetFileView>,
    category: Seq<char>,
    logical: Seq<char>,
    runtime: ArtifactRuntime,
    whole: bool,
)
    ensures
        match script_of(context, files, category, logical, runtime, whole) {
            Ok(script) => {
                let file = preset_file(files, logical)->0;
                let path = script_path(context, file, category, logical, whole);
                &&& preset_file(files, logical) is Some && path is Ok
                &&& runtime == ArtifactRuntime::Native ==> script.program == path->Ok_0
                    && script.args.len() == 0
                &&& runtime == ArtifactRuntime::Bun ==> {
                    &&& script.program == "bun"@ && script.args.len() == 2
                    &&& script.args[1] == path->Ok_0
                    &&& bun_argument(files, logical) is Ok && script.args[0] == bun_argument(
                        files,
                        logical,
                    )->Ok_0
                }
            },
            Err(_) => true,
        },
        preset_file(files, logical) is None ==> script_of(
            context,
            files,
            category,
            logical,
            runtime,
            whole,
        ) is Err,
{
}

/// Bun installs dependencies only for a script that is not part of the program itself, and
/// only where a package and its lock stand beside it, of the same source, and the package
/// trusts no dependency; a package without a lock, or a lock without a package, is an
/// error.
pub proof fn law_dependencies_are_locked(
    files: Seq<PresetFileView>,
    kind: Seq<char>,
    category: Seq<char>,
    name: Seq<char>,
)
    requires
        !kind.contains('/'),
        !category.contains('/'),
        kind.len() > 0,
    ensures
        ({
            let logical = kind + "/"@ + category + "/"@ + name;
            let beside = kind + "/"@ + category + "/"@;
            let script = preset_file(files, logical);
            let package = preset_file(files, beside + "package.json"@);
            let lock = preset_file(files, beside + "bun.lock"@);
            let has_package = package is Some && package->0.source_kind == script->0.source_kind;
            let has_lock = lock is Some && lock->0.source_kind == script->0.source_kind;
            &&& script is None ==> bun_argument(files, logical) is Err
            &&& script is Some && script->0.source_kind == PresetSourceKind::Embedded
                ==> bun_argument(files, logical) is Ok && bun_argument(files, logical)->Ok_0
                == "--no-install"@
            &&& script is Some && script->0.source_kind != PresetSourceKind::Embedded ==> {
                &&& !has_package && !has_lock ==> bun_argument(files, logical) is Ok
                    && bun_argument(files, logical)->Ok_0 == "--no-install"@
                &&& has_package != has_lock ==> bun_argument(files, logical) is Err
                &&& has_package && has_lock ==> {
                    let trusts = crate::json::json_has_member(
                        package->0.bytes,
                        "trustedDependencies"@,
                    );
                    &&& bun_argument(files, logical) is Ok <==> trusts == Some(false)
                    &&& trusts == Some(false) ==> bun_argument(files, logical)->Ok_0
                        == "--install=fallback"@
                }
            }
        }),
{
    lemma_kind_and_category(kind, category, name);
}

proof fn lemma_kind_and_category(kind: Seq<char>, category: Seq<char>, name: Seq<char>)
    requires
        !kind.contains('/'),
        !category.contains('/'),
    ensures
        crate::runtime::kind_and_category(kind + "/"@ + category + "/"@ + name) == (kind, category),
{
    reveal_strlit("/");
    let empty = Seq::<char>::empty();
    crate::text_laws::lemma_pieces_end(empty, kind);
    assert(empty + kind =~= kind);
    assert(crate::text::pieces(empty, '/') =~= seq![empty]);
    assert(crate::text::pieces(kind, '/') =~= seq![kind]);
    let first = kind + "/"@;
    assert(first.drop_last() =~= kind);
    assert(first.last() == '/');
    assert(crate::text::pieces(first, '/') =~= seq![kind, empty]);
    crate::text_laws::lemma_pieces_end(first, category);
    assert(empty + category =~= category);
    assert(crate::text::pieces(first + category, '/') =~= seq![kind, category]);
    let second = first + category + "/"@;
    assert(second.drop_last() =~= first + category);
    assert(second.last() == '/');
    assert(crate::text::pieces(second, '/') =~= seq![kind, category, empty]);
    crate::text_laws::lemma_pieces_grow(second, name, 0);
    crate::text_laws::lemma_pieces_grow(second, name, 1);
}

/// An artifact is applied by its script and taken down by its teardown; a preview runs
/// nothing and says what would run; what the user did not ask for runs only where the code
/// may run, and otherwise that is said; anything else runs.
pub proof fn law_artifacts_run_when_they_should(
    context: RuntimeContext,
    files: Seq<PresetFileView>,
    request: AppArtifactRequest,
)
    ensures
        ({
            let start = artifact_start(context, files, request);
            let script = if request.action == AppArtifactAction::Apply {
                Some(request.artifact@.script)
            } else {
                request.artifact@.teardown
            };
            let held_back = request.implicit && !code_allowed(context, files, request.category@);
            &&& start is Refused <==> script is None
            &&& start is Run <==> script is Some && !request.dry_run && !held_back
            &&& start is Done && request.dry_run ==> {
                &&& start->outcome.status == LifecycleStatus::Previewed
                &&& start->outcome.effects == seq![LifecycleEffect::CodeExecutionPreviewed]
                &&& start->event is None
            }
            &&& start is Done && !request.dry_run ==> {
                &&& start->outcome.status == LifecycleStatus::Skipped
                &&& start->outcome.effects.len() == 0
                &&& start->event is Some
            }
            &&& start is Done ==> start->outcome.target == "app/"@ + request.category@
            &&& start is Run && start->Run_call is Ok ==> {
                let prepared = script_of(
                    context,
                    files,
                    request.category@,
                    "app/"@ + request.category@ + "/"@ + script->0,
                    request.artifact@.runtime,
                    true,
                );
                &&& prepared is Ok
                &&& start->Run_call->Ok_0.program == prepared->Ok_0.program
                &&& start->Run_call->Ok_0.args == prepared->Ok_0.args
                &&& start->Run_call->Ok_0.cwd == Some(prepared->Ok_0.category_root)
                &&& start->Run_call->Ok_0.env == artifact_env(
                    context,
                    request.category@,
                    prepared->Ok_0.category_root,
                    request.artifact@.env,
                )
                &&& start->Run_call->Ok_0.io == ProcessIo::Captured <==> request.implicit
            }
        }),
{
}

/// What follows from what an artifact left: code that ended well is a change; a failure is
/// an error where the user asked for it, and otherwise is reported and told.
pub proof fn law_artifact_failures_are_not_changes(
    request: AppArtifactRequest,
    result: Result<ProcessOutput, String>,
)
    ensures
        ({
            let well = result is Ok && result->Ok_0.exit_code == Some(0i32);
            let came = artifact_result(request, result);
            &&& came is Err <==> !well && !request.implicit
            &&& came is Ok ==> {
                let (outcome, event) = came->Ok_0;
                &&& outcome.status == LifecycleStatus::Changed <==> well
                &&& outcome.status == LifecycleStatus::Failed <==> !well
                &&& outcome.effects.contains(LifecycleEffect::CodeExecuted) <==> well
                &&& event is Some <==> !well
                &&& outcome.target == "app/"@ + request.category@
            }
        }),
{
    let came = artifact_result(request, result);
    if came is Ok {
        let (outcome, event) = came->Ok_0;
        if outcome.effects.len() > 0 {
            assert(outcome.effects.contains(outcome.effects[0]));
        }
    }
}

/// A generator's output is taken, unchanged, exactly where it ended well and its output is
/// text.
pub proof fn law_generator_output_is_taken_as_it_is(
    category: Seq<char>,
    exit_code: Option<i32>,
    stdout: Seq<u8>,
    stderr: Seq<u8>,
)
    ensures
        match generator_result(category, exit_code, stdout, stderr) {
            Ok((content, note)) => exit_code == Some(0i32) && valid_utf8(stdout) && content
                == stdout && note == note_of(stderr),
            Err(_) => exit_code != Some(0i32) || !valid_utf8(stdout),
        },
{
}

/// The hooks of a category run in a phase exactly where it has any for that phase and its
/// code may run; each is called with its command and its arguments.
pub proof fn law_hooks_run_when_they_should(
    context: RuntimeContext,
    files: Seq<PresetFileView>,
    categories: Seq<AppCategoryView>,
    phase: AppHookPhase,
    name: Seq<char>,
    index: int,
)
    ensures
        ({
            let start = hook_start(context, files, categories, phase, name);
            let found = category_named(categories, name);
            let hooks = if phase == AppHookPhase::PostInstall {
                found->0.post_install
            } else {
                found->0.post_upgrade
            };
            let due = found is Some && hooks.len() > 0;
            &&& start is Nothing <==> !due
            &&& start is Run <==> due && code_allowed(context, files, name)
            &&& start is Refused <==> due && !code_allowed(context, files, name)
            &&& start is Run ==> start->calls.len() == hooks.len()
            &&& start is Run && 0 <= index < hooks.len() ==> start->calls[index].program
                == hooks[index].command && start->calls[index].args == hooks[index].args
                && start->calls[index].io == ProcessIo::Captured
        }),
{
}

/// A category is found by its name exactly where there is one of that name.
pub proof fn law_categories_are_found_by_name(categories: Seq<AppCategoryView>, name: Seq<char>)
    ensures
        category_named(categories, name) is Some <==> exists|i: int|
            0 <= i < categories.len() && (#[trigger] categories[i]).name == name,
        category_named(categories, name) is Some ==> category_named(categories, name)->0.name
            == name && categories.contains(category_named(categories, name)->0),
    decreases categories.len(),
{
    if categories.len() > 0 {
        let head = categories.drop_last();
        law_categories_are_found_by_name(head, name);
        assert(categories[categories.len() - 1] == categories.last());
        assert(forall|i: int| 0 <= i < head.len() ==> head[i] == #[trigger] categories[i]);
        if category_named(head, name) is Some && categories.last().name != name {
            let found = category_named(head, name)->0;
            let i = choose|i: int| 0 <= i < head.len() && head[i] == found;
            assert(categories[i] == found);
        }
        if exists|i: int| 0 <= i < head.len() && (#[trigger] head[i]).name == name {
            let i = choose|i: int| 0 <= i < head.len() && (#[trigger] head[i]).name == name;
            assert(categories[i].name == name);
        }
    }
}

/// A hook failed exactly where it could not be run or did not end well, and it has
/// something to say only where it ended well and its output is to be shown.
pub proof fn law_hooks_fail_by_their_exit(
    hook: AppHookView,
    command: Seq<char>,
    result: Result<ProcessOutput, String>,
    show_success: bool,
)
    ensures
        ({
            let well = result is Ok && result->Ok_0.exit_code == Some(0i32);
            &&& hook_failure(command, result) is None <==> well
            &&& hook_note(hook, result, show_success) == if well && show_success
                && hook.show_output {
                note_of(result->Ok_0.stdout@)
            } else {
                None
            }
        }),
{
}

/// What the hooks of a category came to is a change where all ended well, and a failure
/// otherwise.
pub proof fn law_hook_outcomes(category: Seq<char>, phase: AppHookPhase, completed: bool)
    ensures
        ({
            let outcome = hook_outcome(category, phase, completed);
            &&& outcome.target == "app/"@ + category
            &&& outcome.resource == Some(
                if phase == AppHookPhase::PostInstall {
                    "hook:post-install"@
                } else {
                    "hook:post-upgrade"@
                },
            )
            &&& outcome.status == if completed {
                LifecycleStatus::Changed
            } else {
                LifecycleStatus::Failed
            }
            &&& completed ==> outcome.effects == seq![LifecycleEffect::CodeExecuted]
                && outcome.diagnostic_codes.len() == 0
            &&& !completed ==> outcome.effects.len() == 0 && outcome.diagnostic_codes
                == seq!["app_hook_failed"@]
        }),
{
}

/// A variable has the value of its last entry, and none where it has no entry.
pub proof fn law_the_last_value_of_a_variable_counts(
    env: Seq<(Seq<char>, Seq<char>)>,
    name: Seq<char>,
    at: int,
)
    ensures
        env_lookup(env, name) is Some <==> exists|i: int|
            0 <= i < env.len() && (#[trigger] env[i]).0 == name,
        0 <= at < env.len() && env[at].0 == name && (forall|i: int|
            at < i < env.len() ==> (#[trigger] env[i]).0 != name) ==> env_lookup(env, name)
            == Some(env[at].1),
    decreases env.len(),
{
    if env.len() > 0 {
        let head = env.drop_last();
        let last = env.len() - 1;
        law_the_last_value_of_a_variable_counts(head, name, at);
        assert(env[last] == env.last());
        assert(forall|i: int| 0 <= i < head.len() ==> head[i] == #[trigger] env[i]);
        if exists|i: int| 0 <= i < head.len() && (#[trigger] head[i]).0 == name {
            let i = choose|i: int| 0 <= i < head.len() && (#[trigger] head[i]).0 == name;
            assert(env[i].0 == name);
        }
        if 0 <= at < last && env[at].0 == name && (forall|i: int|
            at < i < env.len() ==> (#[trigger] env[i]).0 != name) {
            assert(env[last].0 != name);
            assert(head[at] == env[at]);
            assert forall|i: int| at < i < head.len() implies (#[trigger] head[i]).0 != name by {
                assert(env[i].0 != name);
            }
        }
    }
}

/// What is told once the hooks of a category are through: a failure always, success where
/// that is to be shown, and then each note in its turn.
pub proof fn law_hooks_tell_failures_always(
    category: Seq<char>,
    failure: Option<Seq<char>>,
    notes: Seq<Seq<char>>,
    show_success: bool,
    index: int,
)
    ensures
        ({
            let events = crate::app_code::hook_events(category, failure, notes, show_success);
            let first = if failure is Some || show_success {
                1int
            } else {
                0int
            };
            &&& events.len() == first + notes.len()
            &&& failure is Some ==> events[0] is Warning && events[0]->detail == failure->0
            &&& failure is None && show_success ==> events[0] is Progress
            &&& 0 <= index < notes.len() ==> events[first + index] is ProcessOutput
                && events[first + index]->text == notes[index]
        }),
{
}

} // verus!
