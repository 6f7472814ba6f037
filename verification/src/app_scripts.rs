//! The code of App presets: whether it may run, what it sees of the environment,
//! and how it is called.

use vstd::prelude::*;
use vstd::string::*;

use crate::app_categories::{app_prefix, app_prefix_of};
use crate::app_dest::MetadataCode;
use crate::app_types::{env_spec_views, ArtifactRuntime, EnvVarSpec};
use crate::context::{env_lookup, env_pairs, env_value, set_env, EnvValue, RuntimeContext};
use crate::path::{file_name, file_name_of, join, parent, parent_of, path_join};
use crate::plan::optional_text;
use crate::presets::{preset_file, PresetFile, PresetFileView};
use crate::recovery_run::{host_step_views, HostStep, HostStepView};
use crate::runtime::{bun_argument, CoreRuntime};
use crate::text::{begins_with, joined, push_text, starts_with, texts};

verus! {

/// Whether one of the files comes from the overlay and is of the category.
pub open spec fn has_overlay_code(files: Seq<PresetFileView>, category: Seq<char>) -> bool {
    exists|i: int|
        0 <= i < files.len() && begins_with((#[trigger] files[i]).path, app_prefix(category))
            && files[i].is_overlay
}

/// Whether the code of a category may run: that of an external preset or an
/// overlay only where it was allowed.
pub open spec fn code_allowed(
    context: RuntimeContext,
    files: Seq<PresetFileView>,
    category: Seq<char>,
) -> bool {
    context.allow_app_hooks || !(context.is_external_presets || has_overlay_code(files, category))
}

/// Why code does not run.
pub open spec fn code_refusal(category: Seq<char>, capability: Seq<char>) -> Seq<char> {
    "app '"@ + category + "' "@ + capability
        + " requires allow_app_hooks = true for external preset code"@
}

/// A directory of an App under a root.
pub open spec fn app_directory(root: Seq<char>, names: (Seq<char>, Seq<char>), category: Seq<char>) -> Seq<
    char,
> {
    path_join(path_join(path_join(root, names.0), names.1), category)
}

/// The directory of the App under the root.
pub fn app_directory_of(root: &str, first: &str, second: &str, category: &str) -> (path: String)
    ensures
        path@ == app_directory(root@, (first@, second@), category@),
{
    let outer = join(root, first);
    let inner = join(outer.as_str(), second);
    join(inner.as_str(), category)
}

/// The variables that the code of an App always sees.
pub open spec fn fixed_env(
    context: RuntimeContext,
    category: Seq<char>,
    app_dir: Seq<char>,
) -> Seq<(Seq<char>, Seq<char>)> {
    let own = seq![
        ("SHINE_APP_ID"@, category),
        ("SHINE_APP_DIR"@, app_dir),
        ("SHINE_APP_SOURCE_DIR"@, path_join(path_join(context.presets_dir@, "app"@), category)),
        ("SHINE_APP_HTTP_DIR"@, app_directory(context.shine_dir@, ("http"@, "app"@), category)),
        ("SHINE_CONFIG_DIR"@, context.shine_dir@),
        ("SHINE_CACHE_DIR"@, app_directory(context.cache_dir@, ("shine"@, "app"@), category)),
        ("SHINE_STATE_DIR"@, app_directory(context.shine_dir@, ("state"@, "app"@), category)),
    ];
    match context.overlay_dir {
        Some(overlay) => own.push(
            ("SHINE_APP_OVERLAY_DIR"@, path_join(path_join(overlay@, "app"@), category)),
        ),
        None => own,
    }
}

/// The variables of a list that have a value, under the names that code sees.
pub open spec fn listed_env(
    specs: Seq<(Seq<char>, Seq<char>)>,
    env: Seq<(Seq<char>, Seq<char>)>,
) -> Seq<(Seq<char>, Seq<char>)>
    decreases specs.len(),
{
    if specs.len() == 0 {
        Seq::empty()
    } else {
        let before = listed_env(specs.drop_last(), env);
        match env_lookup(env, specs.last().0) {
            Some(value) => before.push((specs.last().1, value)),
            None => before,
        }
    }
}

/// The first variable of a list that has no value.
pub open spec fn first_unset(
    specs: Seq<(Seq<char>, Seq<char>)>,
    env: Seq<(Seq<char>, Seq<char>)>,
) -> Option<Seq<char>>
    decreases specs.len(),
{
    if specs.len() == 0 {
        None
    } else {
        match first_unset(specs.drop_last(), env) {
            Some(name) => Some(name),
            None => if env_lookup(env, specs.last().0) is None {
                Some(specs.last().0)
            } else {
                None
            },
        }
    }
}

/// What the code of an artifact sees: the listed variables, and over them the
/// fixed ones.
pub open spec fn artifact_env(
    context: RuntimeContext,
    category: Seq<char>,
    app_dir: Seq<char>,
    specs: Seq<(Seq<char>, Seq<char>)>,
) -> Seq<(Seq<char>, Seq<char>)> {
    listed_env(specs, env_pairs(context.env@)) + fixed_env(context, category, app_dir)
}

/// The variables of the list that have a value.
pub fn select_env(specs: &Vec<EnvVarSpec>, env: &Vec<EnvValue>) -> (selected: Vec<EnvValue>)
    ensures
        env_pairs(selected@) == listed_env(env_spec_views(specs@), env_pairs(env@)),
{
    let ghost all = env_spec_views(specs@);
    let mut selected: Vec<EnvValue> = Vec::new();
    let mut i: usize = 0;
    proof {
        assert(all.take(0) =~= Seq::<(Seq<char>, Seq<char>)>::empty());
        assert(env_pairs(selected@) =~= Seq::<(Seq<char>, Seq<char>)>::empty());
    }
    while i < specs.len()
        invariant
            i <= specs.len(),
            all == env_spec_views(specs@),
            env_pairs(selected@) == listed_env(all.take(i as int), env_pairs(env@)),
        decreases specs.len() - i,
    {
        proof {
            assert(all.take(i as int + 1).drop_last() =~= all.take(i as int));
            assert(all.take(i as int + 1).last() == specs@[i as int]@);
        }
        if let Some(value) = env_value(env, specs[i].source.as_str()) {
            set_env(&mut selected, specs[i].target.as_str(), value.as_str());
        }
        i += 1;
    }
    proof {
        assert(all.take(all.len() as int) =~= all);
    }
    selected
}

proof fn lemma_unset_stays(
    specs: Seq<(Seq<char>, Seq<char>)>,
    env: Seq<(Seq<char>, Seq<char>)>,
    count: int,
)
    requires
        0 <= count <= specs.len(),
        first_unset(specs.take(count), env) is Some,
    ensures
        first_unset(specs, env) == first_unset(specs.take(count), env),
    decreases specs.len() - count,
{
    if count == specs.len() {
        assert(specs.take(count) =~= specs);
    } else {
        assert(specs.take(count + 1).drop_last() =~= specs.take(count));
        lemma_unset_stays(specs, env, count + 1);
    }
}

/// The first variable of the list that has no value.
pub fn find_unset(specs: &Vec<EnvVarSpec>, env: &Vec<EnvValue>) -> (unset: Option<String>)
    ensures
        optional_text(unset) == first_unset(env_spec_views(specs@), env_pairs(env@)),
{
    let ghost all = env_spec_views(specs@);
    let mut i: usize = 0;
    proof {
        assert(all.take(0) =~= Seq::<(Seq<char>, Seq<char>)>::empty());
    }
    while i < specs.len()
        invariant
            i <= specs.len(),
            all == env_spec_views(specs@),
            first_unset(all.take(i as int), env_pairs(env@)) is None,
        decreases specs.len() - i,
    {
        proof {
            assert(all.take(i as int + 1).drop_last() =~= all.take(i as int));
            assert(all.take(i as int + 1).last() == specs@[i as int]@);
        }
        if env_value(env, specs[i].source.as_str()).is_none() {
            proof {
                lemma_unset_stays(all, env_pairs(env@), i as int + 1);
            }
            return Some(specs[i].source.clone());
        }
        i += 1;
    }
    proof {
        assert(all.take(all.len() as int) =~= all);
    }
    None
}

/// A script that is ready to be run.
#[derive(Clone, Debug)]
pub struct PreparedScript {
    pub program: String,
    pub args: Vec<String>,
    pub category_root: String,
}

/// A script that is ready to be run, by the characters it holds.
pub ghost struct PreparedScriptView {
    pub program: Seq<char>,
    pub args: Seq<Seq<char>>,
    pub category_root: Seq<char>,
}

impl View for PreparedScript {
    type V = PreparedScriptView;

    open spec fn view(&self) -> PreparedScriptView {
        PreparedScriptView {
            program: self.program@,
            args: texts(self.args@),
            category_root: self.category_root@,
        }
    }
}

/// Why a script cannot be run.
#[derive(Clone, Copy, Debug, PartialEq, Eq, Structural)]
pub enum ScriptFault {
    Missing,
    NoFileName,
    NoCategoryRoot,
    /// Bun cannot be given the script.
    Bun { code: MetadataCode },
}

impl ScriptFault {
    pub open spec fn text(self, logical: Seq<char>) -> Seq<char> {
        match self {
            ScriptFault::Missing => "app script is missing: "@ + logical,
            ScriptFault::NoFileName => "app script has no file name"@,
            ScriptFault::NoCategoryRoot => "app script has no category root"@,
            ScriptFault::Bun { code } => match code {
                MetadataCode::BunScriptMissing => "Bun script disappeared from preset snapshot"@,
                MetadataCode::BunLockIncomplete =>
                    "external Bun preset requires both package.json and bun.lock"@,
                MetadataCode::BunPackageInvalid => "invalid external Bun package.json"@,
                _ => "external Bun preset must not declare trustedDependencies"@,
            },
        }
    }

    /// The fault in words.
    pub fn message(self, logical: &str) -> (message: String)
        ensures
            message@ == self.text(logical@),
    {
        match self {
            ScriptFault::Missing => joined("app script is missing: ", logical),
            ScriptFault::NoFileName => "app script has no file name".to_owned(),
            ScriptFault::NoCategoryRoot => "app script has no category root".to_owned(),
            ScriptFault::Bun { code } => match code {
                MetadataCode::BunScriptMissing =>
                    "Bun script disappeared from preset snapshot".to_owned(),
                MetadataCode::BunLockIncomplete =>
                    "external Bun preset requires both package.json and bun.lock".to_owned(),
                MetadataCode::BunPackageInvalid => "invalid external Bun package.json".to_owned(),
                _ => "external Bun preset must not declare trustedDependencies".to_owned(),
            },
        }
    }
}

/// What is written before a script can be run, and the script, or why it cannot
/// be run although all was written.
#[derive(Debug)]
pub struct ScriptPreparation {
    pub steps: Vec<HostStep>,
    pub result: Result<PreparedScript, ScriptFault>,
}

/// Writing a file without more privilege than the user has.
pub open spec fn plain_write(path: Seq<char>, content: Seq<u8>) -> HostStepView {
    HostStepView::WriteFile { path, content, privileged: false }
}

/// Writing the preset files of a category to a directory.
pub open spec fn category_writes(
    presets_dir: Seq<char>,
    files: Seq<PresetFileView>,
    prefix: Seq<char>,
) -> Seq<HostStepView>
    decreases files.len(),
{
    if files.len() == 0 {
        Seq::empty()
    } else {
        let before = category_writes(presets_dir, files.drop_last(), prefix);
        if begins_with(files.last().path, prefix) {
            before.push(plain_write(path_join(presets_dir, files.last().path), files.last().bytes))
        } else {
            before
        }
    }
}

/// Where the copy of a script stands that is run on its own.
pub open spec fn lone_script(
    context: RuntimeContext,
    category: Seq<char>,
    name: Seq<char>,
) -> Seq<char> {
    path_join(app_directory(context.shine_dir@, ("runtime"@, "app"@), category), name)
}

/// What is written before a script can be run: nothing where it stands on disk;
/// else its category, or a copy of it alone.
pub open spec fn script_writes(
    context: RuntimeContext,
    files: Seq<PresetFileView>,
    category: Seq<char>,
    logical: Seq<char>,
    materialize_category: bool,
) -> Seq<HostStepView> {
    match preset_file(files, logical) {
        None => Seq::empty(),
        Some(file) => if file.physical_path is Some {
            Seq::empty()
        } else if materialize_category {
            category_writes(context.presets_dir@, files, app_prefix(category))
        } else {
            match file_name_of(logical) {
                Some(name) => seq![plain_write(lone_script(context, category, name), file.bytes)],
                None => Seq::empty(),
            }
        },
    }
}

/// Where a script stands when it is run.
pub open spec fn script_path(
    context: RuntimeContext,
    file: PresetFileView,
    category: Seq<char>,
    logical: Seq<char>,
    materialize_category: bool,
) -> Result<Seq<char>, ScriptFault> {
    if let Some(path) = file.physical_path {
        Ok(path)
    } else if materialize_category {
        Ok(path_join(context.presets_dir@, logical))
    } else {
        match file_name_of(logical) {
            Some(name) => Ok(lone_script(context, category, name)),
            None => Err(ScriptFault::NoFileName),
        }
    }
}

/// The directory that a script runs in.
pub open spec fn script_root(
    context: RuntimeContext,
    file: PresetFileView,
    category: Seq<char>,
    path: Seq<char>,
    materialize_category: bool,
) -> Option<Seq<char>> {
    if materialize_category && file.physical_path is None {
        Some(path_join(path_join(context.presets_dir@, "app"@), category))
    } else if file.category_root is Some {
        file.category_root
    } else {
        parent_of(path)
    }
}

/// How a script is called.
pub open spec fn script_of(
    context: RuntimeContext,
    files: Seq<PresetFileView>,
    category: Seq<char>,
    logical: Seq<char>,
    runtime: ArtifactRuntime,
    materialize_category: bool,
) -> Result<PreparedScriptView, ScriptFault> {
    match preset_file(files, logical) {
        None => Err(ScriptFault::Missing),
        Some(file) => match script_path(context, file, category, logical, materialize_category) {
            Err(fault) => Err(fault),
            Ok(path) => match script_root(context, file, category, path, materialize_category) {
                None => Err(ScriptFault::NoCategoryRoot),
                Some(category_root) => match runtime {
                    ArtifactRuntime::Native => Ok(
                        PreparedScriptView { program: path, args: Seq::empty(), category_root },
                    ),
                    ArtifactRuntime::Bun => match bun_argument(files, logical) {
                        Err(error) => Err(ScriptFault::Bun { code: error.0 }),
                        Ok(argument) => Ok(
                            PreparedScriptView {
                                program: "bun"@,
                                args: seq![argument, path],
                                category_root,
                            },
                        ),
                    },
                },
            },
        },
    }
}

fn write_step(path: String, bytes: &Vec<u8>) -> (step: HostStep)
    ensures
        step@ == plain_write(path@, bytes@),
{
    let mut content: Vec<u8> = Vec::new();
    content.extend_from_slice(bytes.as_slice());
    proof {
        assert(content@ =~= bytes@);
    }
    HostStep::WriteFile { path, content, privileged: false }
}

impl CoreRuntime {
    fn overlay_code(&self, category: &str) -> (found: bool)
        ensures
            found == has_overlay_code(self.presets@, category@),
    {
        let prefix = app_prefix_of(category);
        let mut i: usize = 0;
        while i < self.presets.files.len()
            invariant
                i <= self.presets.files.len(),
                prefix@ == app_prefix(category@),
                forall|j: int|
                    0 <= j < i ==> !(begins_with((#[trigger] self.presets@[j]).path, prefix@)
                        && self.presets@[j].is_overlay),
            decreases self.presets.files.len() - i,
        {
            let file = &self.presets.files[i];
            proof {
                assert(self.presets@[i as int] == file@);
            }
            if file.is_overlay && starts_with(file.path.as_str(), prefix.as_str()) {
                assert(begins_with(self.presets@[i as int].path, app_prefix(category@)));
                return true;
            }
            i += 1;
        }
        false
    }

    /// Refuses code that may not run.
    pub fn ensure_app_code_allowed(&self, category: &str, capability: &str) -> (result: Result<
        (),
        String,
    >)
        ensures
            if code_allowed(self.context, self.presets@, category@) {
                result is Ok
            } else {
                result is Err && result->Err_0@ == code_refusal(category@, capability@)
            },
    {
        if self.context.allow_app_hooks || !(self.context.is_external_presets
            || self.overlay_code(category)) {
            return Ok(());
        }
        let mut message = joined("app '", category);
        message.append("' ");
        message.append(capability);
        message.append(" requires allow_app_hooks = true for external preset code");
        Err(message)
    }

    /// The variables that the code of the App always sees.
    pub fn fixed_app_contract_env(&self, category: &str, app_dir: &str) -> (env: Vec<EnvValue>)
        ensures
            env_pairs(env@) == fixed_env(self.context, category@, app_dir@),
    {
        let context = &self.context;
        let sources = join(context.presets_dir.as_str(), "app");
        let source_dir = join(sources.as_str(), category);
        let http_dir = app_directory_of(context.shine_dir.as_str(), "http", "app", category);
        let cache_dir = app_directory_of(context.cache_dir.as_str(), "shine", "app", category);
        let state_dir = app_directory_of(context.shine_dir.as_str(), "state", "app", category);
        let mut env: Vec<EnvValue> = Vec::new();
        set_env(&mut env, "SHINE_APP_ID", category);
        set_env(&mut env, "SHINE_APP_DIR", app_dir);
        set_env(&mut env, "SHINE_APP_SOURCE_DIR", source_dir.as_str());
        set_env(&mut env, "SHINE_APP_HTTP_DIR", http_dir.as_str());
        set_env(&mut env, "SHINE_CONFIG_DIR", context.shine_dir.as_str());
        set_env(&mut env, "SHINE_CACHE_DIR", cache_dir.as_str());
        set_env(&mut env, "SHINE_STATE_DIR", state_dir.as_str());
        if let Some(overlay) = &context.overlay_dir {
            let outer = join(overlay.as_str(), "app");
            let overlay_dir = join(outer.as_str(), category);
            set_env(&mut env, "SHINE_APP_OVERLAY_DIR", overlay_dir.as_str());
        }
        proof {
            assert(env_pairs(env@) =~= fixed_env(*context, category@, app_dir@));
        }
        env
    }

    /// Puts the fixed variables over others.
    pub fn with_fixed_env(&self, env: Vec<EnvValue>, category: &str, app_dir: &str) -> (all: Vec<
        EnvValue,
    >)
        ensures
            env_pairs(all@) == env_pairs(env@) + fixed_env(self.context, category@, app_dir@),
    {
        let mut all = env;
        let mut fixed = self.fixed_app_contract_env(category, app_dir);
        all.append(&mut fixed);
        proof {
            assert(env_pairs(all@) =~= env_pairs(env@) + fixed_env(
                self.context,
                category@,
                app_dir@,
            ));
        }
        all
    }

    /// What the code of the artifact sees.
    pub fn app_artifact_env(&self, category: &str, app_dir: &str, specs: &Vec<EnvVarSpec>) -> (env:
        Vec<EnvValue>)
        ensures
            env_pairs(env@) == artifact_env(
                self.context,
                category@,
                app_dir@,
                env_spec_views(specs@),
            ),
    {
        let listed = select_env(specs, &self.context.env);
        self.with_fixed_env(listed, category, app_dir)
    }

    fn category_write_steps(&self, prefix: &str) -> (steps: Vec<HostStep>)
        ensures
            host_step_views(steps@) == category_writes(
                self.context.presets_dir@,
                self.presets@,
                prefix@,
            ),
    {
        let ghost all = self.presets@;
        let mut steps: Vec<HostStep> = Vec::new();
        let mut i: usize = 0;
        proof {
            assert(all.take(0) =~= Seq::<PresetFileView>::empty());
            assert(host_step_views(steps@) =~= Seq::<HostStepView>::empty());
        }
        while i < self.presets.files.len()
            invariant
                i <= self.presets.files.len(),
                all == self.presets@,
                host_step_views(steps@) == category_writes(
                    self.context.presets_dir@,
                    all.take(i as int),
                    prefix@,
                ),
            decreases self.presets.files.len() - i,
        {
            let file = &self.presets.files[i];
            let ghost before = steps@;
            proof {
                assert(all.take(i as int + 1).drop_last() =~= all.take(i as int));
                assert(all.take(i as int + 1).last() == file@);
            }
            if starts_with(file.path.as_str(), prefix) {
                let path = join(self.context.presets_dir.as_str(), file.path.as_str());
                let step = write_step(path, &file.bytes);
                let ghost added = step@;
                steps.push(step);
                proof {
                    assert(host_step_views(steps@) =~= host_step_views(before).push(added));
                }
            }
            i += 1;
        }
        proof {
            assert(all.take(all.len() as int) =~= all);
        }
        steps
    }

    fn call_script(
        &self,
        file: &PresetFile,
        category: &str,
        logical: &str,
        runtime: ArtifactRuntime,
        materialize_category: bool,
        path: String,
    ) -> (result: Result<PreparedScript, ScriptFault>)
        requires
            preset_file(self.presets@, logical@) == Some(file@),
            script_path(self.context, file@, category@, logical@, materialize_category) == Ok::<
                Seq<char>,
                ScriptFault,
            >(path@),
        ensures
            match script_of(
                self.context,
                self.presets@,
                category@,
                logical@,
                runtime,
                materialize_category,
            ) {
                Ok(script) => result is Ok && result->Ok_0@ == script,
                Err(fault) => result is Err && result->Err_0 == fault,
            },
    {
        let category_root: Option<String> = if materialize_category
            && file.origin.physical_path.is_none() {
            let outer = join(self.context.presets_dir.as_str(), "app");
            Some(join(outer.as_str(), category))
        } else {
            match &file.origin.category_root {
                Some(root) => Some(root.clone()),
                None => parent(path.as_str()),
            }
        };
        let category_root = match category_root {
            Some(root) => root,
            None => return Err(ScriptFault::NoCategoryRoot),
        };
        let mut args: Vec<String> = Vec::new();
        proof {
            assert(texts(args@) =~= Seq::<Seq<char>>::empty());
        }
        match runtime {
            ArtifactRuntime::Native => Ok(PreparedScript { program: path, args, category_root }),
            ArtifactRuntime::Bun => {
                let argument = match self.bun_dependency_arg(logical) {
                    Ok(argument) => argument,
                    Err(error) => return Err(ScriptFault::Bun { code: error.code }),
                };
                push_text(&mut args, argument.as_str());
                push_text(&mut args, path.as_str());
                proof {
                    assert(texts(args@) =~= seq![argument@, path@]);
                }
                Ok(PreparedScript { program: "bun".to_owned(), args, category_root })
            },
        }
    }

    /// Prepares a script: what has to be written first, and how it is called.
    pub fn prepare_app_script(
        &self,
        category: &str,
        logical: &str,
        runtime: ArtifactRuntime,
        materialize_category: bool,
    ) -> (preparation: ScriptPreparation)
        ensures
            host_step_views(preparation.steps@) == script_writes(
                self.context,
                self.presets@,
                category@,
                logical@,
                materialize_category,
            ),
            match script_of(
                self.context,
                self.presets@,
                category@,
                logical@,
                runtime,
                materialize_category,
            ) {
                Ok(script) => preparation.result is Ok && preparation.result->Ok_0@ == script,
                Err(fault) => preparation.result is Err && preparation.result->Err_0 == fault,
            },
    {
        let mut steps: Vec<HostStep> = Vec::new();
        proof {
            assert(host_step_views(steps@) =~= Seq::<HostStepView>::empty());
        }
        let file = match self.presets.file(logical) {
            Some(file) => file,
            None => return ScriptPreparation { steps, result: Err(ScriptFault::Missing) },
        };
        let path: String = if let Some(path) = &file.origin.physical_path {
            path.clone()
        } else if materialize_category {
            let prefix = app_prefix_of(category);
            steps = self.category_write_steps(prefix.as_str());
            join(self.context.presets_dir.as_str(), logical)
        } else {
            let name = match file_name(logical) {
                Some(name) => name,
                None => {
                    return ScriptPreparation { steps, result: Err(ScriptFault::NoFileName) };
                },
            };
            let directory = app_directory_of(
                self.context.shine_dir.as_str(),
                "runtime",
                "app",
                category,
            );
            let path = join(directory.as_str(), name.as_str());
            steps.push(write_step(path.clone(), &file.bytes));
            proof {
                assert(host_step_views(steps@) =~= seq![plain_write(path@, file.bytes@)]);
            }
            path
        };
        let result = self.call_script(
            file,
            category,
            logical,
            runtime,
            materialize_category,
            path,
        );
        ScriptPreparation { steps, result }
    }
}

proof fn lemma_later_wins(
    first: Seq<(Seq<char>, Seq<char>)>,
    second: Seq<(Seq<char>, Seq<char>)>,
    name: Seq<char>,
)
    ensures
        env_lookup(first + second, name) == match env_lookup(second, name) {
            Some(value) => Some(value),
            None => env_lookup(first, name),
        },
    decreases second.len(),
{
    let both = first + second;
    if second.len() == 0 {
        assert(both =~= first);
    } else {
        assert(both.last() == second.last());
        assert(both.drop_last() =~= first + second.drop_last());
        lemma_later_wins(first, second.drop_last(), name);
    }
}

/// What is listed for an artifact cannot take the place of a fixed variable: each
/// of those has its own value whatever the list names, and every other variable
/// has the value that the list gives.
pub proof fn law_list_cannot_override_fixed_values(
    context: RuntimeContext,
    category: Seq<char>,
    app_dir: Seq<char>,
    specs: Seq<(Seq<char>, Seq<char>)>,
    name: Seq<char>,
)
    ensures
        env_lookup(artifact_env(context, category, app_dir, specs), name) == match env_lookup(
            fixed_env(context, category, app_dir),
            name,
        ) {
            Some(value) => Some(value),
            None => env_lookup(listed_env(specs, env_pairs(context.env@)), name),
        },
{
    lemma_later_wins(
        listed_env(specs, env_pairs(context.env@)),
        fixed_env(context, category, app_dir),
        name,
    );
}

/// The code of an external preset or of an overlay runs only where it was allowed.
pub proof fn law_external_code_needs_consent(
    context: RuntimeContext,
    files: Seq<PresetFileView>,
    category: Seq<char>,
)
    requires
        code_allowed(context, files, category),
        context.is_external_presets || has_overlay_code(files, category),
    ensures
        context.allow_app_hooks,
{
}

} // verus!
