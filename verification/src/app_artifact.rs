//! Building and taking down the artifact of an App.

use vstd::prelude::*;
use vstd::string::*;

use crate::app_code::{call_view, display_exit_code, exit_text};
use crate::app_lifecycle::{app_source, app_target, source_of, target_of};
use crate::app_scripts::{
    app_directory, app_directory_of, artifact_env, code_allowed, code_refusal, script_of,
    script_writes, PreparedScript, ScriptFault,
};
use crate::app_types::{AppArtifactAction, AppArtifactRequest, AppArtifactView};
use crate::context::RuntimeContext;
use crate::host::{
    captured_process, warning_event, ProcessIo, ProcessOutput, ProcessRequest, ProcessRequestView,
    RuntimeEvent, RuntimeEventView,
};
use crate::lifecycle::{
    coded_outcome, plain_outcome, LifecycleEffect, LifecycleOutcomeV1, LifecycleStatus,
    OutcomeView,
};
use crate::presets::PresetFileView;
use crate::recovery_run::{host_step_views, HostStep, HostStepView};
use crate::runtime::CoreRuntime;
use crate::text::{joined, push_text, texts};

verus! {

/// The name of the resource that an artifact action works on.
pub open spec fn artifact_resource(action: AppArtifactAction) -> Seq<char> {
    match action {
        AppArtifactAction::Apply => "artifact:apply"@,
        AppArtifactAction::Remove => "artifact:teardown"@,
    }
}

fn artifact_resource_of(action: AppArtifactAction) -> (resource: String)
    ensures
        resource@ == artifact_resource(action),
{
    match action {
        AppArtifactAction::Apply => "artifact:apply".to_owned(),
        AppArtifactAction::Remove => "artifact:teardown".to_owned(),
    }
}

/// The script of an artifact action.
pub open spec fn artifact_script(artifact: AppArtifactView, action: AppArtifactAction) -> Option<
    Seq<char>,
> {
    match action {
        AppArtifactAction::Apply => Some(artifact.script),
        AppArtifactAction::Remove => artifact.teardown,
    }
}

/// The directories that the code of an artifact finds in place.
pub open spec fn artifact_directories(context: RuntimeContext, category: Seq<char>) -> Seq<
    Seq<char>,
> {
    seq![
        app_directory(context.shine_dir@, ("http"@, "app"@), category),
        app_directory(context.cache_dir@, ("shine"@, "app"@), category),
        app_directory(context.shine_dir@, ("state"@, "app"@), category),
    ]
}

/// How the code of an artifact is called. Where the user asked for it the process
/// has the streams of the program.
pub open spec fn artifact_call(
    context: RuntimeContext,
    files: Seq<PresetFileView>,
    category: Seq<char>,
    artifact: AppArtifactView,
    script: Seq<char>,
    implicit: bool,
) -> Result<ProcessRequestView, Seq<char>> {
    let logical = app_source(category, script);
    match script_of(context, files, category, logical, artifact.runtime, true) {
        Err(fault) => Err(fault.text(logical)),
        Ok(prepared) => Ok(
            ProcessRequestView {
                io: if implicit {
                    ProcessIo::Captured
                } else {
                    ProcessIo::Inherit
                },
                ..captured_process(
                    prepared.program,
                    prepared.args,
                    Some(prepared.category_root),
                    artifact_env(context, category, prepared.category_root, artifact.env),
                )
            },
        ),
    }
}

/// What an artifact action asks for.
#[derive(Debug)]
pub enum ArtifactStart {
    /// The action cannot be taken.
    Refused(String),
    /// Nothing runs, and this is what is reported and told.
    Done { outcome: LifecycleOutcomeV1, event: Option<RuntimeEvent> },
    /// First the steps are taken; where there is a call, the directories are made
    /// and the process is run.
    Run {
        steps: Vec<HostStep>,
        directories: Vec<String>,
        call: Result<ProcessRequest, String>,
    },
}

/// What an artifact action asks for, by the values.
pub ghost enum ArtifactStartView {
    Refused { message: Seq<char> },
    Done { outcome: OutcomeView, event: Option<RuntimeEventView> },
    Run {
        steps: Seq<HostStepView>,
        directories: Seq<Seq<char>>,
        call: Result<ProcessRequestView, Seq<char>>,
    },
}

/// An event that may be absent, by its values.
pub open spec fn optional_event(event: Option<RuntimeEvent>) -> Option<RuntimeEventView> {
    match event {
        Some(event) => Some(event@),
        None => None,
    }
}

impl View for ArtifactStart {
    type V = ArtifactStartView;

    open spec fn view(&self) -> ArtifactStartView {
        match *self {
            ArtifactStart::Refused(message) => ArtifactStartView::Refused { message: message@ },
            ArtifactStart::Done { outcome, event } => ArtifactStartView::Done {
                outcome: outcome@,
                event: optional_event(event),
            },
            ArtifactStart::Run { steps, directories, call } => ArtifactStartView::Run {
                steps: host_step_views(steps@),
                directories: texts(directories@),
                call: call_view(call),
            },
        }
    }
}

/// How an artifact action starts.
pub open spec fn artifact_start(
    context: RuntimeContext,
    files: Seq<PresetFileView>,
    request: AppArtifactRequest,
) -> ArtifactStartView {
    let category = request.category@;
    let resource = artifact_resource(request.action);
    match artifact_script(request.artifact@, request.action) {
        None => ArtifactStartView::Refused {
            message: "app '"@ + category + "' does not define an artifact teardown script"@,
        },
        Some(script) => if request.dry_run {
            ArtifactStartView::Done {
                outcome: plain_outcome(
                    app_target(category),
                    Some(resource),
                    LifecycleStatus::Previewed,
                    seq![LifecycleEffect::CodeExecutionPreviewed],
                ),
                event: None,
            }
        } else if request.implicit && !code_allowed(context, files, category) {
            ArtifactStartView::Done {
                outcome: coded_outcome(
                    app_target(category),
                    Some(resource),
                    LifecycleStatus::Skipped,
                    Seq::empty(),
                    "app_artifact_permission_required"@,
                ),
                event: Some(
                    RuntimeEventView::Warning {
                        code: "app_artifact_permission_required"@,
                        target: Some(app_target(category)),
                        detail: code_refusal(category, resource),
                    },
                ),
            }
        } else {
            ArtifactStartView::Run {
                steps: script_writes(
                    context,
                    files,
                    category,
                    app_source(category, script),
                    true,
                ),
                directories: artifact_directories(context, category),
                call: artifact_call(
                    context,
                    files,
                    category,
                    request.artifact@,
                    script,
                    request.implicit,
                ),
            }
        },
    }
}

impl CoreRuntime {
    fn app_artifact_call(&self, request: &AppArtifactRequest, logical: &str, prepared: Result<
        PreparedScript,
        ScriptFault,
    >) -> (call: Result<ProcessRequest, String>)
        requires
            match script_of(
                self.context,
                self.presets@,
                request.category@,
                logical@,
                request.artifact@.runtime,
                true,
            ) {
                Ok(script) => prepared is Ok && prepared->Ok_0@ == script,
                Err(fault) => prepared is Err && prepared->Err_0 == fault,
            },
        ensures
            forall|script: Seq<char>|
                logical@ == #[trigger] app_source(request.category@, script) ==> call_view(call)
                    == artifact_call(
                    self.context,
                    self.presets@,
                    request.category@,
                    request.artifact@,
                    script,
                    request.implicit,
                ),
    {
        let script = match prepared {
            Ok(script) => script,
            Err(fault) => return Err(fault.message(logical)),
        };
        let env = self.app_artifact_env(
            request.category.as_str(),
            script.category_root.as_str(),
            &request.artifact.env,
        );
        let mut call = ProcessRequest::captured(
            script.program,
            script.args,
            Some(script.category_root),
            env,
        );
        if !request.implicit {
            call.io = ProcessIo::Inherit;
        }
        Ok(call)
    }

    fn artifact_directory_list(&self, category: &str) -> (directories: Vec<String>)
        ensures
            texts(directories@) == artifact_directories(self.context, category@),
    {
        let context = &self.context;
        let http = app_directory_of(context.shine_dir.as_str(), "http", "app", category);
        let cache = app_directory_of(context.cache_dir.as_str(), "shine", "app", category);
        let state = app_directory_of(context.shine_dir.as_str(), "state", "app", category);
        let mut directories: Vec<String> = Vec::new();
        push_text(&mut directories, http.as_str());
        push_text(&mut directories, cache.as_str());
        push_text(&mut directories, state.as_str());
        proof {
            assert(texts(directories@) =~= artifact_directories(*context, category@));
        }
        directories
    }

    /// What the artifact action asks for.
    pub fn start_app_artifact(&self, request: &AppArtifactRequest) -> (start: ArtifactStart)
        ensures
            start@ == artifact_start(self.context, self.presets@, *request),
    {
        let category = request.category.as_str();
        let target = target_of(category);
        let resource = artifact_resource_of(request.action);
        let script: &String = match request.action {
            AppArtifactAction::Apply => &request.artifact.script,
            AppArtifactAction::Remove => match &request.artifact.teardown {
                Some(teardown) => teardown,
                None => {
                    let mut message = joined("app '", category);
                    message.append("' does not define an artifact teardown script");
                    return ArtifactStart::Refused(message);
                },
            },
        };
        let mut effects: Vec<LifecycleEffect> = Vec::new();
        if request.dry_run {
            effects.push(LifecycleEffect::CodeExecutionPreviewed);
            proof {
                assert(effects@ =~= seq![LifecycleEffect::CodeExecutionPreviewed]);
            }
            let outcome = LifecycleOutcomeV1::new(
                target.as_str(),
                Some(resource),
                LifecycleStatus::Previewed,
                effects,
            );
            return ArtifactStart::Done { outcome, event: None };
        }
        if request.implicit {
            if let Err(detail) = self.ensure_app_code_allowed(category, resource.as_str()) {
                proof {
                    assert(effects@ =~= Seq::<LifecycleEffect>::empty());
                }
                let outcome = LifecycleOutcomeV1::coded(
                    target.as_str(),
                    Some(resource),
                    LifecycleStatus::Skipped,
                    effects,
                    "app_artifact_permission_required",
                );
                let event = warning_event(
                    "app_artifact_permission_required",
                    target.as_str(),
                    detail,
                );
                return ArtifactStart::Done { outcome, event: Some(event) };
            }
        }
        let logical = source_of(category, script.as_str());
        let prepared = self.prepare_app_script(
            category,
            logical.as_str(),
            request.artifact.runtime,
            true,
        );
        let call = self.app_artifact_call(request, logical.as_str(), prepared.result);
        let directories = self.artifact_directory_list(category);
        proof {
            assert(logical@ == app_source(request.category@, script@));
        }
        ArtifactStart::Run { steps: prepared.steps, directories, call }
    }
}

/// The outcome of code that ran well.
pub open spec fn artifact_ran(category: Seq<char>, action: AppArtifactAction) -> OutcomeView {
    plain_outcome(
        app_target(category),
        Some(artifact_resource(action)),
        LifecycleStatus::Changed,
        seq![LifecycleEffect::CodeExecuted],
    )
}

/// The outcome of code that failed without the user having asked for it.
pub open spec fn artifact_failed(category: Seq<char>, action: AppArtifactAction) -> OutcomeView {
    coded_outcome(
        app_target(category),
        Some(artifact_resource(action)),
        LifecycleStatus::Failed,
        Seq::empty(),
        "app_artifact_teardown_failed"@,
    )
}

/// The event that tells of code that failed.
pub open spec fn artifact_warning(category: Seq<char>, detail: Seq<char>) -> RuntimeEventView {
    RuntimeEventView::Warning {
        code: "app_artifact_teardown_failed"@,
        target: Some(app_target(category)),
        detail,
    }
}

/// What follows from what the code of an artifact left behind. A failure is an
/// error where the user asked for the action, and a reported one where not.
pub open spec fn artifact_result(
    request: AppArtifactRequest,
    result: Result<ProcessOutput, String>,
) -> Result<(OutcomeView, Option<RuntimeEventView>), Seq<char>> {
    let category = request.category@;
    match result {
        Ok(output) => if output.exit_code == Some(0i32) {
            Ok((artifact_ran(category, request.action), None))
        } else if request.implicit {
            Ok(
                (
                    artifact_failed(category, request.action),
                    Some(
                        artifact_warning(
                            category,
                            "artifact script exited with "@ + exit_text(output.exit_code),
                        ),
                    ),
                ),
            )
        } else {
            Err(
                "artifact script for '"@ + category + "' exited with "@ + exit_text(
                    output.exit_code,
                ),
            )
        },
        Err(error) => if request.implicit {
            Ok(
                (
                    artifact_failed(category, request.action),
                    Some(artifact_warning(category, error@)),
                ),
            )
        } else {
            Err(error@)
        },
    }
}

fn failed_artifact(request: &AppArtifactRequest, detail: String) -> (made: (
    LifecycleOutcomeV1,
    Option<RuntimeEvent>,
))
    ensures
        made.0@ == artifact_failed(request.category@, request.action),
        optional_event(made.1) == Some(artifact_warning(request.category@, detail@)),
{
    let target = target_of(request.category.as_str());
    let effects: Vec<LifecycleEffect> = Vec::new();
    proof {
        assert(effects@ =~= Seq::<LifecycleEffect>::empty());
    }
    let outcome = LifecycleOutcomeV1::coded(
        target.as_str(),
        Some(artifact_resource_of(request.action)),
        LifecycleStatus::Failed,
        effects,
        "app_artifact_teardown_failed",
    );
    let event = warning_event("app_artifact_teardown_failed", target.as_str(), detail);
    (outcome, Some(event))
}

/// What follows from what the code of the artifact left behind.
pub fn finish_app_artifact(request: &AppArtifactRequest, result: Result<ProcessOutput, String>) -> (
    finished: Result<(LifecycleOutcomeV1, Option<RuntimeEvent>), String>)
    ensures
        match artifact_result(*request, result) {
            Ok((outcome, event)) => finished is Ok && finished->Ok_0.0@ == outcome
                && optional_event(finished->Ok_0.1) == event,
            Err(message) => finished is Err && finished->Err_0@ == message,
        },
{
    let output = match result {
        Ok(output) => output,
        Err(error) => {
            return if request.implicit {
                Ok(failed_artifact(request, error))
            } else {
                Err(error)
            };
        },
    };
    let well = match output.exit_code {
        Some(code) => code == 0,
        None => false,
    };
    if well {
        let target = target_of(request.category.as_str());
        let mut effects: Vec<LifecycleEffect> = Vec::new();
        effects.push(LifecycleEffect::CodeExecuted);
        proof {
            assert(effects@ =~= seq![LifecycleEffect::CodeExecuted]);
        }
        let outcome = LifecycleOutcomeV1::new(
            target.as_str(),
            Some(artifact_resource_of(request.action)),
            LifecycleStatus::Changed,
            effects,
        );
        return Ok((outcome, None));
    }
    let code = display_exit_code(output.exit_code);
    if request.implicit {
        let detail = joined("artifact script exited with ", code.as_str());
        return Ok(failed_artifact(request, detail));
    }
    let mut message = joined("artifact script for '", request.category.as_str());
    message.append("' exited with ");
    message.append(code.as_str());
    Err(message)
}

/// A preview of an artifact action runs nothing, and neither does an action that
/// the user did not ask for where the code was not allowed.
pub proof fn law_artifact_preview_runs_nothing(
    context: RuntimeContext,
    files: Seq<PresetFileView>,
    request: AppArtifactRequest,
)
    requires
        request.dry_run || (request.implicit && !code_allowed(context, files, request.category@)),
    ensures
        !(artifact_start(context, files, request) is Run),
{
}

} // verus!
