//! Running the code of App presets: generators, hooks and artifacts.
//!
//! Each run is told in two halves: what is called, and what follows from what the
//! call left behind.

use vstd::prelude::*;
use vstd::string::*;
use vstd::utf8::valid_utf8;

use crate::app_lifecycle::{app_source, app_target, source_of, target_of};
use crate::app_scripts::{
    code_allowed, code_refusal, find_unset, first_unset, fixed_env, listed_env, script_of,
    script_writes, select_env,
};
use crate::app_types::{
    category_views, hook_views, AppCategory, AppCategoryView, AppGeneratorRequest, AppGeneratorView,
    AppHook, AppHookPhase, AppHookReport, AppHookRequest, AppHookView,
};
use crate::context::{env_lookup, env_pairs, env_value, RuntimeContext};
use crate::host::{
    captured_process, event_views, process_views, warning_event, ProcessOutput, ProcessRequest,
    ProcessRequestView, RuntimeEvent, RuntimeEventView,
};
use crate::lexical::{lossy_text, text_lossy, trim, trimmed, utf8_text};
use crate::lifecycle::{
    coded_outcome, outcome_views, plain_outcome, LifecycleEffect, LifecycleOutcomeV1,
    LifecycleStatus, OutcomeView,
};
use crate::presets::PresetFileView;
use crate::recovery_run::{host_step_views, HostStep, HostStepView};
use crate::runtime::CoreRuntime;
use crate::text::{copy_texts, joined, push_text, same_text, signed_decimal, signed_digits, texts};

verus! {

/// How long a generator may run.
pub const GENERATOR_TIMEOUT_SECONDS: u64 = 30;

/// How much a generator may write to its output.
pub const GENERATOR_STDOUT_LIMIT: usize = 8388608;

/// How much a generator may write to its error stream.
pub const GENERATOR_STDERR_LIMIT: usize = 65536;

/// An exit code in words.
pub open spec fn exit_text(code: Option<i32>) -> Seq<char> {
    match code {
        Some(code) => signed_digits(code as int),
        None => "signal"@,
    }
}

/// The exit code in words.
pub fn display_exit_code(code: Option<i32>) -> (text: String)
    ensures
        text@ == exit_text(code),
{
    match code {
        Some(code) => signed_decimal(code),
        None => "signal".to_owned(),
    }
}

/// What a process says of its failure: its error stream, or its output where that
/// is blank.
pub open spec fn detail_text(stdout: Seq<u8>, stderr: Seq<u8>) -> Seq<char> {
    let errors = trimmed(lossy_text(stderr));
    let detail = if errors.len() == 0 {
        trimmed(lossy_text(stdout))
    } else {
        errors
    };
    if detail.len() == 0 {
        Seq::empty()
    } else {
        ": "@ + detail
    }
}

/// What the process says of its failure.
pub fn process_detail(output: &ProcessOutput) -> (text: String)
    ensures
        text@ == detail_text(output.stdout@, output.stderr@),
{
    let errors = trim(text_lossy(output.stderr.as_slice()).as_str());
    let detail = if errors.as_str().is_empty() {
        trim(text_lossy(output.stdout.as_slice()).as_str())
    } else {
        errors
    };
    if detail.as_str().is_empty() {
        let text = String::new();
        proof {
            assert(text@ =~= Seq::<char>::empty());
        }
        text
    } else {
        joined(": ", detail.as_str())
    }
}

/// What a process wrote to a stream, where it is not blank.
pub open spec fn note_of(bytes: Seq<u8>) -> Option<Seq<char>> {
    let note = trimmed(lossy_text(bytes));
    if note.len() == 0 {
        None
    } else {
        Some(note)
    }
}

fn read_note(bytes: &Vec<u8>) -> (note: Option<String>)
    ensures
        crate::plan::optional_text(note) == note_of(bytes@),
{
    let note = trim(text_lossy(bytes.as_slice()).as_str());
    if note.as_str().is_empty() {
        None
    } else {
        Some(note)
    }
}

/// A call, or why there is none.
pub open spec fn call_view(call: Result<ProcessRequest, String>) -> Result<
    ProcessRequestView,
    Seq<char>,
> {
    match call {
        Ok(request) => Ok(request@),
        Err(message) => Err(message@),
    }
}

/// Whether a generator runs: its variable is set, and it was asked for or runs by
/// itself.
pub open spec fn generator_runs(
    context: RuntimeContext,
    generator: AppGeneratorView,
    explicit: bool,
) -> bool {
    env_lookup(env_pairs(context.env@), generator.when_env) is Some && (explicit || generator.auto)
}

/// Which variable a generator lacks.
pub open spec fn generator_env_text(category: Seq<char>, name: Seq<char>) -> Seq<char> {
    "app '"@ + category + "' generator requires config env '"@ + name + "'"@
}

/// How a generator is called.
pub open spec fn generator_call(
    context: RuntimeContext,
    files: Seq<PresetFileView>,
    category: Seq<char>,
    generator: AppGeneratorView,
) -> Result<ProcessRequestView, Seq<char>> {
    let logical = app_source(category, generator.script);
    match script_of(context, files, category, logical, generator.runtime, false) {
        Err(fault) => Err(fault.text(logical)),
        Ok(script) => match first_unset(generator.env, env_pairs(context.env@)) {
            Some(name) => Err(generator_env_text(category, name)),
            None => Ok(
                ProcessRequestView {
                    timeout_seconds: Some(GENERATOR_TIMEOUT_SECONDS),
                    stdout_limit: Some(GENERATOR_STDOUT_LIMIT),
                    stderr_limit: Some(GENERATOR_STDERR_LIMIT),
                    ..captured_process(
                        script.program,
                        script.args,
                        Some(script.category_root),
                        listed_env(generator.env, env_pairs(context.env@)) + fixed_env(
                            context,
                            category,
                            script.category_root,
                        ),
                    )
                },
            ),
        },
    }
}

/// What a generator asks for.
#[derive(Debug)]
pub enum GeneratorStart {
    /// It does not run: the preset file stands.
    Nothing,
    Refused(String),
    /// First the steps are taken, then the process is run.
    Run { steps: Vec<HostStep>, call: Result<ProcessRequest, String> },
}

/// What a generator asks for, by the values.
pub ghost enum GeneratorStartView {
    Nothing,
    Refused { message: Seq<char> },
    Run { steps: Seq<HostStepView>, call: Result<ProcessRequestView, Seq<char>> },
}

impl View for GeneratorStart {
    type V = GeneratorStartView;

    open spec fn view(&self) -> GeneratorStartView {
        match *self {
            GeneratorStart::Nothing => GeneratorStartView::Nothing,
            GeneratorStart::Refused(message) => GeneratorStartView::Refused { message: message@ },
            GeneratorStart::Run { steps, call } => GeneratorStartView::Run {
                steps: host_step_views(steps@),
                call: call_view(call),
            },
        }
    }
}

/// How a generator starts.
pub open spec fn generator_start(
    context: RuntimeContext,
    files: Seq<PresetFileView>,
    category: Seq<char>,
    generator: AppGeneratorView,
    explicit: bool,
) -> GeneratorStartView {
    if !generator_runs(context, generator, explicit) {
        GeneratorStartView::Nothing
    } else if !code_allowed(context, files, category) {
        GeneratorStartView::Refused { message: code_refusal(category, "generator"@) }
    } else {
        GeneratorStartView::Run {
            steps: script_writes(
                context,
                files,
                category,
                app_source(category, generator.script),
                false,
            ),
            call: generator_call(context, files, category, generator),
        }
    }
}

/// What a generator made.
#[derive(Clone, Debug)]
pub struct GeneratedContent {
    pub content: Vec<u8>,
    /// What it wrote to its error stream.
    pub note: Option<String>,
}

/// What follows from what a generator left behind: its output, which has to be
/// text, and what it wrote to its error stream.
pub open spec fn generator_result(
    category: Seq<char>,
    exit_code: Option<i32>,
    stdout: Seq<u8>,
    stderr: Seq<u8>,
) -> Result<(Seq<u8>, Option<Seq<char>>), Seq<char>> {
    if exit_code != Some(0i32) {
        Err(
            "app '"@ + category + "' generator exited with "@ + exit_text(exit_code)
                + " (details redacted)"@,
        )
    } else if !valid_utf8(stdout) {
        Err("app '"@ + category + "' generator output is not UTF-8"@)
    } else {
        Ok((stdout, note_of(stderr)))
    }
}

fn exited_well(code: Option<i32>) -> (well: bool)
    ensures
        well == (code == Some(0i32)),
{
    match code {
        Some(code) => code == 0,
        None => false,
    }
}

/// What follows from what the generator left behind.
pub fn finish_app_generator(category: &str, output: ProcessOutput) -> (result: Result<
    GeneratedContent,
    String,
>)
    ensures
        match generator_result(category@, output.exit_code, output.stdout@, output.stderr@) {
            Ok(made) => result is Ok && (
                result->Ok_0.content@,
                crate::plan::optional_text(result->Ok_0.note),
            ) == made,
            Err(message) => result is Err && result->Err_0@ == message,
        },
{
    if !exited_well(output.exit_code) {
        let code = display_exit_code(output.exit_code);
        let mut message = joined("app '", category);
        message.append("' generator exited with ");
        message.append(code.as_str());
        message.append(" (details redacted)");
        return Err(message);
    }
    if utf8_text(output.stdout.as_slice()).is_none() {
        let mut message = joined("app '", category);
        message.append("' generator output is not UTF-8");
        return Err(message);
    }
    let note = read_note(&output.stderr);
    Ok(GeneratedContent { content: output.stdout, note })
}

/// The event that tells of the note of a generator.
pub fn generator_note_event(category: &str, note: String) -> (event: RuntimeEvent)
    ensures
        event@ == (RuntimeEventView::ProcessOutput {
            code: "app_generator_note"@,
            target: app_target(category@),
            stream: "stderr"@,
            text: note@,
        }),
{
    RuntimeEvent::ProcessOutput {
        code: "app_generator_note".to_owned(),
        target: target_of(category),
        stream: "stderr".to_owned(),
        text: note,
    }
}

impl CoreRuntime {
    fn app_generator_call(&self, request: &AppGeneratorRequest, logical: &str, prepared: Result<
        crate::app_scripts::PreparedScript,
        crate::app_scripts::ScriptFault,
    >) -> (call: Result<ProcessRequest, String>)
        requires
            logical@ == app_source(request.category@, request.generator@.script),
            match script_of(
                self.context,
                self.presets@,
                request.category@,
                logical@,
                request.generator@.runtime,
                false,
            ) {
                Ok(script) => prepared is Ok && prepared->Ok_0@ == script,
                Err(fault) => prepared is Err && prepared->Err_0 == fault,
            },
        ensures
            call_view(call) == generator_call(
                self.context,
                self.presets@,
                request.category@,
                request.generator@,
            ),
    {
        let script = match prepared {
            Ok(script) => script,
            Err(fault) => return Err(fault.message(logical)),
        };
        if let Some(name) = find_unset(&request.generator.env, &self.context.env) {
            let mut message = joined("app '", request.category.as_str());
            message.append("' generator requires config env '");
            message.append(name.as_str());
            message.append("'");
            return Err(message);
        }
        let listed = select_env(&request.generator.env, &self.context.env);
        let env = self.with_fixed_env(
            listed,
            request.category.as_str(),
            script.category_root.as_str(),
        );
        let mut call = ProcessRequest::captured(
            script.program,
            script.args,
            Some(script.category_root),
            env,
        );
        call.timeout_seconds = Some(GENERATOR_TIMEOUT_SECONDS);
        call.stdout_limit = Some(GENERATOR_STDOUT_LIMIT);
        call.stderr_limit = Some(GENERATOR_STDERR_LIMIT);
        Ok(call)
    }

    /// What the generator asks for.
    pub fn start_app_generator(&self, request: &AppGeneratorRequest) -> (start: GeneratorStart)
        ensures
            start@ == generator_start(
                self.context,
                self.presets@,
                request.category@,
                request.generator@,
                request.explicit,
            ),
    {
        if env_value(&self.context.env, request.generator.when_env.as_str()).is_none() {
            return GeneratorStart::Nothing;
        }
        if !request.explicit && !request.generator.auto {
            return GeneratorStart::Nothing;
        }
        let category = request.category.as_str();
        if let Err(message) = self.ensure_app_code_allowed(category, "generator") {
            return GeneratorStart::Refused(message);
        }
        let logical = source_of(category, request.generator.script.as_str());
        let prepared = self.prepare_app_script(
            category,
            logical.as_str(),
            request.generator.runtime,
            false,
        );
        let call = self.app_generator_call(request, logical.as_str(), prepared.result);
        GeneratorStart::Run { steps: prepared.steps, call }
    }
}

/// The name of the resource that the hooks of a phase are.
pub open spec fn hook_resource(phase: AppHookPhase) -> Seq<char> {
    match phase {
        AppHookPhase::PostInstall => "hook:post-install"@,
        AppHookPhase::PostUpgrade => "hook:post-upgrade"@,
    }
}

fn hook_resource_of(phase: AppHookPhase) -> (resource: String)
    ensures
        resource@ == hook_resource(phase),
{
    match phase {
        AppHookPhase::PostInstall => "hook:post-install".to_owned(),
        AppHookPhase::PostUpgrade => "hook:post-upgrade".to_owned(),
    }
}

/// The hooks of a phase.
pub open spec fn phase_hooks(category: AppCategoryView, phase: AppHookPhase) -> Seq<AppHookView> {
    match phase {
        AppHookPhase::PostInstall => category.post_install,
        AppHookPhase::PostUpgrade => category.post_upgrade,
    }
}

/// The last category of that name.
pub open spec fn category_named(categories: Seq<AppCategoryView>, name: Seq<char>) -> Option<
    AppCategoryView,
>
    decreases categories.len(),
{
    if categories.len() == 0 {
        None
    } else if categories.last().name == name {
        Some(categories.last())
    } else {
        category_named(categories.drop_last(), name)
    }
}

/// How a hook is called.
pub open spec fn hook_call(context: RuntimeContext, hook: AppHookView) -> ProcessRequestView {
    captured_process(
        hook.command,
        hook.args,
        None,
        listed_env(hook.env, env_pairs(context.env@)),
    )
}

/// How hooks are called.
pub open spec fn hook_calls(context: RuntimeContext, hooks: Seq<AppHookView>) -> Seq<
    ProcessRequestView,
> {
    hooks.map_values(|hook: AppHookView| hook_call(context, hook))
}

/// What the hooks of a category ask for.
#[derive(Clone, Debug)]
pub enum HookStart {
    /// There is nothing to run.
    Nothing,
    Refused(String),
    /// The processes are run one after the other, until one fails.
    Run(Vec<ProcessRequest>),
}

/// What the hooks of a category ask for, by the values.
pub ghost enum HookStartView {
    Nothing,
    Refused { message: Seq<char> },
    Run { calls: Seq<ProcessRequestView> },
}

impl View for HookStart {
    type V = HookStartView;

    open spec fn view(&self) -> HookStartView {
        match *self {
            HookStart::Nothing => HookStartView::Nothing,
            HookStart::Refused(message) => HookStartView::Refused { message: message@ },
            HookStart::Run(calls) => HookStartView::Run { calls: process_views(calls@) },
        }
    }
}

/// How the hooks of a category start.
pub open spec fn hook_start(
    context: RuntimeContext,
    files: Seq<PresetFileView>,
    categories: Seq<AppCategoryView>,
    phase: AppHookPhase,
    name: Seq<char>,
) -> HookStartView {
    match category_named(categories, name) {
        None => HookStartView::Nothing,
        Some(category) => if phase_hooks(category, phase).len() == 0 {
            HookStartView::Nothing
        } else if !code_allowed(context, files, name) {
            HookStartView::Refused { message: code_refusal(name, hook_resource(phase)) }
        } else {
            HookStartView::Run { calls: hook_calls(context, phase_hooks(category, phase)) }
        },
    }
}

pub(crate) fn find_category<'a>(categories: &'a Vec<AppCategory>, name: &str) -> (category: Option<
    &'a AppCategory,
>)
    ensures
        match category {
            Some(category) => category_named(category_views(categories@), name@) == Some(category@),
            None => category_named(category_views(categories@), name@) is None,
        },
{
    let ghost all = category_views(categories@);
    let mut i: usize = categories.len();
    proof {
        assert(all.take(all.len() as int) =~= all);
    }
    while i > 0
        invariant
            i <= categories.len(),
            all == category_views(categories@),
            category_named(all, name@) == category_named(all.take(i as int), name@),
        decreases i,
    {
        proof {
            assert(all.take(i as int).drop_last() =~= all.take(i as int - 1));
            assert(all.take(i as int).last() == categories@[i as int - 1]@);
        }
        i -= 1;
        if same_text(categories[i].name.as_str(), name) {
            return Some(&categories[i]);
        }
    }
    proof {
        assert(all.take(0) =~= Seq::<AppCategoryView>::empty());
    }
    None
}

impl CoreRuntime {
    fn app_hook_calls(&self, hooks: &Vec<AppHook>) -> (calls: Vec<ProcessRequest>)
        ensures
            process_views(calls@) == hook_calls(self.context, hook_views(hooks@)),
    {
        let ghost all = hook_calls(self.context, hook_views(hooks@));
        let mut calls: Vec<ProcessRequest> = Vec::new();
        let mut i: usize = 0;
        proof {
            assert(process_views(calls@) =~= all.take(0));
        }
        while i < hooks.len()
            invariant
                i <= hooks.len(),
                all == hook_calls(self.context, hook_views(hooks@)),
                process_views(calls@) == all.take(i as int),
            decreases hooks.len() - i,
        {
            let hook = &hooks[i];
            let ghost before = calls@;
            let env = select_env(&hook.env, &self.context.env);
            let call = ProcessRequest::captured(
                hook.command.clone(),
                copy_texts(hook.args.as_slice()),
                None,
                env,
            );
            let ghost added = call@;
            calls.push(call);
            proof {
                assert(hook_views(hooks@)[i as int] == hook@);
                assert(all[i as int] == added);
                assert(all.take(i as int + 1) =~= all.take(i as int).push(added));
                assert(process_views(calls@) =~= process_views(before).push(added));
            }
            i += 1;
        }
        proof {
            assert(all.take(all.len() as int) =~= all);
        }
        calls
    }

    /// What the hooks of the category ask for.
    pub fn start_app_hooks(&self, request: &AppHookRequest, name: &str) -> (start: HookStart)
        ensures
            start@ == hook_start(
                self.context,
                self.presets@,
                category_views(request.categories@),
                request.phase,
                name@,
            ),
    {
        let category = match find_category(&request.categories, name) {
            Some(category) => category,
            None => return HookStart::Nothing,
        };
        let hooks = match request.phase {
            AppHookPhase::PostInstall => &category.post_install,
            AppHookPhase::PostUpgrade => &category.post_upgrade,
        };
        proof {
            assert(hook_views(hooks@).len() == hooks@.len());
        }
        if hooks.len() == 0 {
            return HookStart::Nothing;
        }
        let resource = hook_resource_of(request.phase);
        if let Err(message) = self.ensure_app_code_allowed(name, resource.as_str()) {
            return HookStart::Refused(message);
        }
        HookStart::Run(self.app_hook_calls(hooks))
    }
}

/// What became of the hooks of a category so far: what they had to say, and why
/// one of them failed.
#[derive(Clone, Debug)]
pub struct HookProgress {
    pub notes: Vec<String>,
    pub failure: Option<String>,
}

/// Why a hook failed.
pub open spec fn hook_failure(command: Seq<char>, result: Result<ProcessOutput, String>) -> Option<
    Seq<char>,
> {
    match result {
        Err(error) => Some(command + ": "@ + error@),
        Ok(output) => if output.exit_code == Some(0i32) {
            None
        } else {
            Some(
                command + " exited with "@ + exit_text(output.exit_code) + detail_text(
                    output.stdout@,
                    output.stderr@,
                ),
            )
        },
    }
}

/// What a hook has to say: its output, where that is to be shown.
pub open spec fn hook_note(
    hook: AppHookView,
    result: Result<ProcessOutput, String>,
    show_success: bool,
) -> Option<Seq<char>> {
    match result {
        Ok(output) => if output.exit_code == Some(0i32) && show_success && hook.show_output {
            note_of(output.stdout@)
        } else {
            None
        },
        Err(_) => None,
    }
}

impl HookProgress {
    pub fn new() -> (progress: HookProgress)
        ensures
            texts(progress.notes@).len() == 0,
            progress.failure is None,
    {
        HookProgress { notes: Vec::new(), failure: None }
    }

    /// Takes in what a hook left behind.
    pub fn record(
        &mut self,
        hook: &AppHook,
        result: &Result<ProcessOutput, String>,
        show_success: bool,
    )
        requires
            old(self).failure is None,
        ensures
            crate::plan::optional_text(final(self).failure) == hook_failure(
                hook.command@,
                *result,
            ),
            texts(final(self).notes@) == match hook_note(hook@, *result, show_success) {
                Some(note) => texts(old(self).notes@).push(note),
                None => texts(old(self).notes@),
            },
    {
        match result {
            Err(error) => {
                let mut failure = joined(hook.command.as_str(), ": ");
                failure.append(error.as_str());
                self.failure = Some(failure);
            },
            Ok(output) => {
                if exited_well(output.exit_code) {
                    if show_success && hook.show_output {
                        if let Some(note) = read_note(&output.stdout) {
                            push_text(&mut self.notes, note.as_str());
                        }
                    }
                } else {
                    let code = display_exit_code(output.exit_code);
                    let detail = process_detail(output);
                    let mut failure = joined(hook.command.as_str(), " exited with ");
                    failure.append(code.as_str());
                    failure.append(detail.as_str());
                    self.failure = Some(failure);
                }
            },
        }
    }
}

/// What the hooks of a category came to.
pub open spec fn hook_outcome(
    category: Seq<char>,
    phase: AppHookPhase,
    completed: bool,
) -> OutcomeView {
    if completed {
        plain_outcome(
            app_target(category),
            Some(hook_resource(phase)),
            LifecycleStatus::Changed,
            seq![LifecycleEffect::CodeExecuted],
        )
    } else {
        coded_outcome(
            app_target(category),
            Some(hook_resource(phase)),
            LifecycleStatus::Failed,
            Seq::empty(),
            "app_hook_failed"@,
        )
    }
}

/// The outcome of hooks that may not run.
pub open spec fn refused_hook_outcome(category: Seq<char>, phase: AppHookPhase) -> OutcomeView {
    coded_outcome(
        app_target(category),
        Some(hook_resource(phase)),
        LifecycleStatus::Skipped,
        Seq::empty(),
        "app_hook_permission_required"@,
    )
}

/// The event that tells of a note.
pub open spec fn note_event(category: Seq<char>, note: Seq<char>) -> RuntimeEventView {
    RuntimeEventView::ProcessOutput {
        code: "app_hook_note"@,
        target: app_target(category),
        stream: "stdout"@,
        text: note,
    }
}

/// The events that tell of notes.
pub open spec fn note_events(category: Seq<char>, notes: Seq<Seq<char>>) -> Seq<RuntimeEventView> {
    notes.map_values(|note: Seq<char>| note_event(category, note))
}

/// What is told once the hooks of a category are through: why one failed, or that
/// all completed where that is to be shown; then what they had to say.
pub open spec fn hook_events(
    category: Seq<char>,
    failure: Option<Seq<char>>,
    notes: Seq<Seq<char>>,
    show_success: bool,
) -> Seq<RuntimeEventView> {
    let head = match failure {
        Some(detail) => seq![
            RuntimeEventView::Warning {
                code: "app_hook_failed"@,
                target: Some(app_target(category)),
                detail,
            },
        ],
        None => if show_success {
            seq![
                RuntimeEventView::Progress {
                    code: "app_hook_completed"@,
                    target: app_target(category),
                },
            ]
        } else {
            Seq::empty()
        },
    };
    head + note_events(category, notes)
}

fn push_outcome(outcomes: &mut Vec<LifecycleOutcomeV1>, outcome: LifecycleOutcomeV1)
    ensures
        outcome_views(final(outcomes)@) == outcome_views(old(outcomes)@).push(outcome@),
{
    let ghost before = outcomes@;
    let ghost added = outcome@;
    outcomes.push(outcome);
    proof {
        assert(outcome_views(outcomes@) =~= outcome_views(before).push(added));
    }
}

fn tell_hooks(category: &str, progress: &HookProgress, show_success: bool) -> (events: Vec<
    RuntimeEvent,
>)
    ensures
        event_views(events@) == hook_events(
            category@,
            crate::plan::optional_text(progress.failure),
            texts(progress.notes@),
            show_success,
        ),
{
    let target = target_of(category);
    let mut events: Vec<RuntimeEvent> = Vec::new();
    match &progress.failure {
        Some(detail) => {
            events.push(warning_event("app_hook_failed", target.as_str(), detail.clone()));
        },
        None => {
            if show_success {
                events.push(
                    RuntimeEvent::Progress {
                        code: "app_hook_completed".to_owned(),
                        target: target.clone(),
                    },
                );
            }
        },
    }
    let ghost head = event_views(events@);
    let ghost all = note_events(category@, texts(progress.notes@));
    let mut i: usize = 0;
    proof {
        assert(event_views(events@) =~= head + all.take(0));
    }
    while i < progress.notes.len()
        invariant
            i <= progress.notes.len(),
            target@ == app_target(category@),
            all == note_events(category@, texts(progress.notes@)),
            event_views(events@) == head + all.take(i as int),
        decreases progress.notes.len() - i,
    {
        let ghost before = events@;
        let event = RuntimeEvent::ProcessOutput {
            code: "app_hook_note".to_owned(),
            target: target.clone(),
            stream: "stdout".to_owned(),
            text: progress.notes[i].clone(),
        };
        let ghost added = event@;
        events.push(event);
        proof {
            assert(texts(progress.notes@)[i as int] == progress.notes@[i as int]@);
            assert(all[i as int] == added);
            assert(all.take(i as int + 1) =~= all.take(i as int).push(added));
            assert(event_views(events@) =~= event_views(before).push(added));
            assert(event_views(events@) =~= head + all.take(i as int + 1));
        }
        i += 1;
    }
    proof {
        assert(all.take(all.len() as int) =~= all);
        assert(head + all =~= hook_events(
            category@,
            crate::plan::optional_text(progress.failure),
            texts(progress.notes@),
            show_success,
        ));
    }
    events
}

impl AppHookReport {
    pub fn new() -> (report: AppHookReport)
        ensures
            outcome_views(report.outcomes@).len() == 0,
            texts(report.notes@).len() == 0,
    {
        AppHookReport { outcomes: Vec::new(), notes: Vec::new() }
    }

    /// Records that the hooks of a category may not run, and gives what is told of
    /// it.
    pub fn refuse(&mut self, category: &str, phase: AppHookPhase, detail: String) -> (event:
        RuntimeEvent)
        ensures
            outcome_views(final(self).outcomes@) == outcome_views(old(self).outcomes@).push(
                refused_hook_outcome(category@, phase),
            ),
            final(self).notes == old(self).notes,
            event@ == (RuntimeEventView::Warning {
                code: "app_hook_permission_required"@,
                target: Some(app_target(category@)),
                detail: detail@,
            }),
    {
        let target = target_of(category);
        let none: Vec<LifecycleEffect> = Vec::new();
        let outcome = LifecycleOutcomeV1::coded(
            target.as_str(),
            Some(hook_resource_of(phase)),
            LifecycleStatus::Skipped,
            none,
            "app_hook_permission_required",
        );
        proof {
            assert(none@ =~= Seq::<LifecycleEffect>::empty());
        }
        push_outcome(&mut self.outcomes, outcome);
        warning_event("app_hook_permission_required", target.as_str(), detail)
    }

    /// Records what the hooks of a category came to, and gives what is told of it.
    pub fn finish(
        &mut self,
        category: &str,
        phase: AppHookPhase,
        progress: &HookProgress,
        show_success: bool,
    ) -> (events: Vec<RuntimeEvent>)
        ensures
            outcome_views(final(self).outcomes@) == outcome_views(old(self).outcomes@).push(
                hook_outcome(category@, phase, progress.failure is None),
            ),
            texts(final(self).notes@) == texts(old(self).notes@) + texts(progress.notes@),
            event_views(events@) == hook_events(
                category@,
                crate::plan::optional_text(progress.failure),
                texts(progress.notes@),
                show_success,
            ),
    {
        let target = target_of(category);
        let resource = Some(hook_resource_of(phase));
        let mut effects: Vec<LifecycleEffect> = Vec::new();
        let outcome = if progress.failure.is_none() {
            effects.push(LifecycleEffect::CodeExecuted);
            proof {
                assert(effects@ =~= seq![LifecycleEffect::CodeExecuted]);
            }
            LifecycleOutcomeV1::new(target.as_str(), resource, LifecycleStatus::Changed, effects)
        } else {
            proof {
                assert(effects@ =~= Seq::<LifecycleEffect>::empty());
            }
            LifecycleOutcomeV1::coded(
                target.as_str(),
                resource,
                LifecycleStatus::Failed,
                effects,
                "app_hook_failed",
            )
        };
        push_outcome(&mut self.outcomes, outcome);
        let ghost before = self.notes@;
        let mut notes = copy_texts(progress.notes.as_slice());
        self.notes.append(&mut notes);
        proof {
            assert(texts(self.notes@) =~= texts(before) + texts(progress.notes@));
        }
        tell_hooks(category, progress, show_success)
    }
}

} // verus!
