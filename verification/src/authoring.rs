//! Plans for the author of a preset: what a first install would do on a host whose
//! state is made up.

use vstd::prelude::*;
use vstd::string::*;

use crate::app_types::copy_optional;
use crate::context::{env_pairs, set_env, EnvValue, RuntimeContext, RuntimePlatform};
use crate::path::{join, path_join, paths_match, same_path};
use crate::plan::{
    optional_text, PermissionResolutionV1, PlanOperationV1, PlanStepV1, PlanV1,
};
use crate::text::{decimal, decimal_digits, joined, push_text, texts};
use crate::validation::{
    diagnostic_views, preset_target, target_text, DiagnosticView, PresetCategoryValidation,
    PresetDiagnostic, PresetDiagnosticSeverity, PresetKind, PresetValidation,
};

verus! {

/// The schema of authoring plans.
pub const PRESET_AUTHORING_PLAN_SCHEMA_VERSION: u32 = 1;

/// A kind of code for which trust is given on its own.
#[derive(Clone, Copy, Debug, PartialEq, Eq, Structural)]
pub enum TrustCapabilityV1 {
    AppHook,
    AppGenerator,
    AppArtifact,
    SysBootstrapScript,
    SysProfileCode,
}

/// What a plan takes for granted.
#[derive(Clone, Debug)]
pub struct PresetAuthoringPlanAssumptionsV1 {
    pub lifecycle_state: String,
    pub environment: String,
    pub secrets: String,
    pub trust_grants: String,
    pub detected_commands: String,
    pub administrator: bool,
}

/// What a plan takes for granted, by the characters.
pub ghost struct AssumptionsView {
    pub lifecycle_state: Seq<char>,
    pub environment: Seq<char>,
    pub secrets: Seq<char>,
    pub trust_grants: Seq<char>,
    pub detected_commands: Seq<char>,
    pub administrator: bool,
}

impl View for PresetAuthoringPlanAssumptionsV1 {
    type V = AssumptionsView;

    open spec fn view(&self) -> AssumptionsView {
        AssumptionsView {
            lifecycle_state: self.lifecycle_state@,
            environment: self.environment@,
            secrets: self.secrets@,
            trust_grants: self.trust_grants@,
            detected_commands: self.detected_commands@,
            administrator: self.administrator,
        }
    }
}

impl Default for PresetAuthoringPlanAssumptionsV1 {
    fn default() -> (assumptions: PresetAuthoringPlanAssumptionsV1)
        ensures
            assumptions@ == (AssumptionsView {
                lifecycle_state: "empty"@,
                environment: "absent"@,
                secrets: "absent"@,
                trust_grants: "none"@,
                detected_commands: "absent"@,
                administrator: false,
            }),
    {
        PresetAuthoringPlanAssumptionsV1 {
            lifecycle_state: "empty".to_owned(),
            environment: "absent".to_owned(),
            secrets: "absent".to_owned(),
            trust_grants: "none".to_owned(),
            detected_commands: "absent".to_owned(),
            administrator: false,
        }
    }
}

/// One plan of a report.
#[derive(Clone, Debug)]
pub struct PresetAuthoringPlanSectionV1 {
    pub kind: String,
    pub target: String,
    pub operation: PlanOperationV1,
    pub ready: bool,
    pub steps: Vec<PlanStepV1>,
    pub permissions: PermissionResolutionV1,
}

/// What a first install would do.
#[derive(Clone, Debug)]
pub struct PresetAuthoringPlanReportV1 {
    pub schema_version: u32,
    pub valid: bool,
    pub ready: bool,
    pub target: Option<String>,
    pub platform: String,
    pub assumptions: PresetAuthoringPlanAssumptionsV1,
    pub diagnostics: Vec<PresetDiagnostic>,
    pub plans: Vec<PresetAuthoringPlanSectionV1>,
}

/// Whether a report is one of a plan that was not made.
pub open spec fn is_unplanned(
    report: PresetAuthoringPlanReportV1,
    platform: RuntimePlatform,
    assumptions: AssumptionsView,
    target: Option<Seq<char>>,
    diagnostics: Seq<DiagnosticView>,
) -> bool {
    &&& report.schema_version == PRESET_AUTHORING_PLAN_SCHEMA_VERSION
    &&& !report.valid
    &&& !report.ready
    &&& optional_text(report.target) == target
    &&& report.platform@ == platform.text()
    &&& report.assumptions@ == assumptions
    &&& diagnostic_views(report.diagnostics@) == diagnostics
    &&& report.plans@.len() == 0
}

/// What a plan takes for granted where nothing was said.
pub open spec fn default_assumptions() -> AssumptionsView {
    AssumptionsView {
        lifecycle_state: "empty"@,
        environment: "absent"@,
        secrets: "absent"@,
        trust_grants: "none"@,
        detected_commands: "absent"@,
        administrator: false,
    }
}

impl PresetAuthoringPlanReportV1 {
    pub fn empty(platform: RuntimePlatform) -> (report: PresetAuthoringPlanReportV1)
        ensures
            is_unplanned(report, platform, default_assumptions(), None, Seq::empty()),
    {
        let report = PresetAuthoringPlanReportV1 {
            schema_version: PRESET_AUTHORING_PLAN_SCHEMA_VERSION,
            valid: false,
            ready: false,
            target: None,
            platform: platform.as_str().to_owned(),
            assumptions: PresetAuthoringPlanAssumptionsV1::default(),
            diagnostics: Vec::new(),
            plans: Vec::new(),
        };
        proof {
            assert(diagnostic_views(report.diagnostics@) =~= Seq::<DiagnosticView>::empty());
        }
        report
    }
}

/// A file of a made-up host.
#[derive(Clone, Debug)]
pub struct SyntheticFile {
    pub path: String,
    pub content: Vec<u8>,
    pub mode: u32,
}

/// A file of a made-up host, by the values.
pub ghost struct SyntheticFileView {
    pub path: Seq<char>,
    pub content: Seq<u8>,
    pub mode: u32,
}

impl View for SyntheticFile {
    type V = SyntheticFileView;

    open spec fn view(&self) -> SyntheticFileView {
        SyntheticFileView { path: self.path@, content: self.content@, mode: self.mode }
    }
}

/// The views of a list of files.
pub open spec fn synthetic_views(files: Seq<SyntheticFile>) -> Seq<SyntheticFileView> {
    files.map_values(|file: SyntheticFile| file@)
}

/// The version of a secret, in place of its value.
#[derive(Clone, Debug)]
pub struct SecretVersion {
    pub name: String,
    pub version: String,
}

/// The views of a list of secrets.
pub open spec fn secret_views(list: Seq<SecretVersion>) -> Seq<(Seq<char>, Seq<char>)> {
    list.map_values(|item: SecretVersion| (item.name@, item.version@))
}

/// Code of a target that is trusted.
#[derive(Clone, Debug)]
pub struct TrustedCapability {
    pub target: String,
    pub capability: TrustCapabilityV1,
}

/// The views of a list of trusted code.
pub open spec fn trust_views(list: Seq<TrustedCapability>) -> Seq<(Seq<char>, TrustCapabilityV1)> {
    list.map_values(|item: TrustedCapability| (item.target@, item.capability))
}

/// The state of a made-up host.
#[derive(Clone, Debug)]
pub struct PresetAuthoringSyntheticState {
    pub files: Vec<SyntheticFile>,
    pub environment: Vec<EnvValue>,
    pub secret_versions: Vec<SecretVersion>,
    pub path_env: Option<String>,
    pub running_as_admin: bool,
    pub trusted_capabilities: Vec<TrustedCapability>,
    pub lifecycle_state_present: bool,
}

/// How many there are, in words.
pub open spec fn summary_text(word: Seq<char>, count: nat) -> Seq<char> {
    if count == 0 {
        "absent"@
    } else {
        word + ":"@ + decimal_digits(count)
    }
}

/// How many there are, in words.
pub fn presence_summary(count: usize) -> (text: String)
    ensures
        text@ == summary_text("provided"@, count as nat),
{
    if count == 0 {
        "absent".to_owned()
    } else {
        let digits = decimal(count as u64);
        let mut text = joined("provided", ":");
        text.append(digits.as_str());
        text
    }
}

/// How many versions there are, in words.
pub fn version_summary(count: usize) -> (text: String)
    ensures
        text@ == summary_text("versioned"@, count as nat),
{
    if count == 0 {
        "absent".to_owned()
    } else {
        let digits = decimal(count as u64);
        let mut text = joined("versioned", ":");
        text.append(digits.as_str());
        text
    }
}

/// What a plan on the made-up host takes for granted. Of secrets and variables it
/// says how many there are, and no more.
pub open spec fn assumptions_of(state: PresetAuthoringSyntheticState) -> AssumptionsView {
    AssumptionsView {
        lifecycle_state: if state.lifecycle_state_present {
            "provided"@
        } else {
            "empty"@
        },
        environment: summary_text("provided"@, state.environment@.len()),
        secrets: summary_text("versioned"@, state.secret_versions@.len()),
        trust_grants: summary_text("provided"@, state.trusted_capabilities@.len()),
        detected_commands: if state.path_env is Some {
            "provided"@
        } else {
            "absent"@
        },
        administrator: state.running_as_admin,
    }
}

impl PresetAuthoringSyntheticState {
    /// A host on which there is nothing.
    pub fn empty() -> (state: PresetAuthoringSyntheticState)
        ensures
            state.files@.len() == 0,
            state.environment@.len() == 0,
            state.secret_versions@.len() == 0,
            state.path_env is None,
            !state.running_as_admin,
            state.trusted_capabilities@.len() == 0,
            !state.lifecycle_state_present,
    {
        PresetAuthoringSyntheticState {
            files: Vec::new(),
            environment: Vec::new(),
            secret_versions: Vec::new(),
            path_env: None,
            running_as_admin: false,
            trusted_capabilities: Vec::new(),
            lifecycle_state_present: false,
        }
    }

    /// What a plan on this host takes for granted.
    pub fn assumptions(&self) -> (assumptions: PresetAuthoringPlanAssumptionsV1)
        ensures
            assumptions@ == assumptions_of(*self),
    {
        PresetAuthoringPlanAssumptionsV1 {
            lifecycle_state: if self.lifecycle_state_present {
                "provided".to_owned()
            } else {
                "empty".to_owned()
            },
            environment: presence_summary(self.environment.len()),
            secrets: version_summary(self.secret_versions.len()),
            trust_grants: presence_summary(self.trusted_capabilities.len()),
            detected_commands: if self.path_env.is_some() {
                "provided".to_owned()
            } else {
                "absent".to_owned()
            },
            administrator: self.running_as_admin,
        }
    }
}

/// A category of a preset source.
#[derive(Clone, Debug)]
pub struct ScopeCategory {
    pub kind: PresetKind,
    pub name: String,
    pub root: String,
}

/// The part of a preset source that was named, and the categories in it.
#[derive(Clone, Debug)]
pub struct PresetSourceScope {
    pub canonical: String,
    pub categories: Vec<ScopeCategory>,
}

/// Whether a scope is one category: its directory, or its metadata.
pub open spec fn is_single_category(scope: PresetSourceScope) -> bool {
    &&& scope.categories@.len() == 1
    &&& (same_path(scope.canonical@, scope.categories@[0].root@) || same_path(
        scope.canonical@,
        path_join(scope.categories@[0].root@, "shine.toml"@),
    ))
}

impl PresetSourceScope {
    /// Whether the scope is one category.
    pub fn is_single(&self) -> (single: bool)
        ensures
            single == is_single_category(*self),
    {
        if self.categories.len() != 1 {
            return false;
        }
        let root = self.categories[0].root.as_str();
        let metadata = join(root, "shine.toml");
        paths_match(self.canonical.as_str(), root) || paths_match(
            self.canonical.as_str(),
            metadata.as_str(),
        )
    }
}

/// An error of its own, which names no path.
pub open spec fn plain_error(code: Seq<char>, message: Seq<char>) -> DiagnosticView {
    DiagnosticView { severity: PresetDiagnosticSeverity::Error, code, message, path: None }
}

fn error_diagnostic(code: &str, message: String) -> (diagnostic: PresetDiagnostic)
    ensures
        diagnostic@ == plain_error(code@, message@),
{
    PresetDiagnostic {
        severity: PresetDiagnosticSeverity::Error,
        code: code.to_owned(),
        message,
        path: None,
    }
}

/// The diagnostics of a severity, without the paths that they name.
pub open spec fn without_paths(
    list: Seq<PresetDiagnostic>,
    severity: PresetDiagnosticSeverity,
) -> Seq<DiagnosticView>
    decreases list.len(),
{
    if list.len() == 0 {
        Seq::empty()
    } else {
        let before = without_paths(list.drop_last(), severity);
        if list.last().severity == severity {
            before.push(
                DiagnosticView {
                    severity,
                    code: list.last().code@,
                    message: list.last().message@,
                    path: None,
                },
            )
        } else {
            before
        }
    }
}

/// The errors of categories, without the paths that they name.
pub open spec fn category_errors_without_paths(list: Seq<PresetCategoryValidation>) -> Seq<
    DiagnosticView,
>
    decreases list.len(),
{
    if list.len() == 0 {
        Seq::empty()
    } else {
        category_errors_without_paths(list.drop_last()) + without_paths(
            list.last().diagnostics@,
            PresetDiagnosticSeverity::Error,
        )
    }
}

fn push_without_paths(
    list: &Vec<PresetDiagnostic>,
    severity: PresetDiagnosticSeverity,
    out: &mut Vec<PresetDiagnostic>,
)
    ensures
        diagnostic_views(final(out)@) == diagnostic_views(old(out)@) + without_paths(
            list@,
            severity,
        ),
{
    let ghost before = diagnostic_views(out@);
    let mut i: usize = 0;
    proof {
        assert(list@.take(0) =~= Seq::<PresetDiagnostic>::empty());
        assert(diagnostic_views(out@) =~= before + without_paths(list@.take(0), severity));
    }
    while i < list.len()
        invariant
            i <= list.len(),
            diagnostic_views(out@) == before + without_paths(list@.take(i as int), severity),
        decreases list.len() - i,
    {
        let ghost now = out@;
        proof {
            assert(list@.take(i as int + 1).drop_last() =~= list@.take(i as int));
            assert(list@.take(i as int + 1).last() == list@[i as int]);
        }
        if list[i].severity == severity {
            let copy = PresetDiagnostic {
                severity,
                code: list[i].code.clone(),
                message: list[i].message.clone(),
                path: None,
            };
            let ghost added = copy@;
            out.push(copy);
            proof {
                assert(diagnostic_views(out@) =~= diagnostic_views(now).push(added));
                assert(diagnostic_views(out@) =~= before + without_paths(
                    list@.take(i as int + 1),
                    severity,
                ));
            }
        }
        i += 1;
    }
    proof {
        assert(list@.take(list@.len() as int) =~= list@);
    }
}

fn push_category_errors(list: &Vec<PresetCategoryValidation>, out: &mut Vec<PresetDiagnostic>)
    ensures
        diagnostic_views(final(out)@) == diagnostic_views(old(out)@)
            + category_errors_without_paths(list@),
{
    let ghost before = diagnostic_views(out@);
    let mut i: usize = 0;
    proof {
        assert(list@.take(0) =~= Seq::<PresetCategoryValidation>::empty());
        assert(diagnostic_views(out@) =~= before + category_errors_without_paths(list@.take(0)));
    }
    while i < list.len()
        invariant
            i <= list.len(),
            diagnostic_views(out@) == before + category_errors_without_paths(
                list@.take(i as int),
            ),
        decreases list.len() - i,
    {
        proof {
            assert(list@.take(i as int + 1).drop_last() =~= list@.take(i as int));
            assert(list@.take(i as int + 1).last() == list@[i as int]);
        }
        push_without_paths(&list[i].diagnostics, PresetDiagnosticSeverity::Error, out);
        proof {
            assert(diagnostic_views(out@) =~= before + category_errors_without_paths(
                list@.take(i as int + 1),
            ));
        }
        i += 1;
    }
    proof {
        assert(list@.take(list@.len() as int) =~= list@);
    }
}

/// Whether a plan is made: of one category that is valid.
pub open spec fn is_plannable(scope: PresetSourceScope, validation: PresetValidation) -> bool {
    is_single_category(scope) && validation.valid
}

/// The category that a plan is for.
pub open spec fn planned_target(scope: PresetSourceScope) -> Option<Seq<char>> {
    if is_single_category(scope) {
        Some(target_text(scope.categories@[0].kind, scope.categories@[0].name@))
    } else {
        None
    }
}

/// What is said before a plan is made: why there is none, or what validation warns
/// of.
pub open spec fn opening_diagnostics(
    scope: PresetSourceScope,
    validation: PresetValidation,
) -> Seq<DiagnosticView> {
    if !is_single_category(scope) {
        seq![
            plain_error(
                "single_category_required"@,
                "preset plan accepts exactly one category directory or shine.toml"@,
            ),
        ]
    } else if !validation.valid {
        seq![
            plain_error(
                "preset_validation_failed"@,
                planned_target(scope)->0 + " failed static validation"@,
            ),
        ] + without_paths(validation.diagnostics@, PresetDiagnosticSeverity::Error)
            + category_errors_without_paths(validation.categories@)
    } else {
        without_paths(
            validation.categories@[0].diagnostics@,
            PresetDiagnosticSeverity::Warning,
        )
    }
}

/// The report where the input could not be loaded.
pub fn authoring_unloaded(platform: RuntimePlatform, code: &str) -> (report:
    PresetAuthoringPlanReportV1)
    ensures
        is_unplanned(
            report,
            platform,
            default_assumptions(),
            None,
            seq![
                plain_error(
                    code@,
                    "preset input could not be loaded; run `shine preset validate` for path details"@,
                ),
            ],
        ),
{
    let mut report = PresetAuthoringPlanReportV1::empty(platform);
    report.diagnostics.push(
        error_diagnostic(
            code,
            "preset input could not be loaded; run `shine preset validate` for path details".to_owned(),
        ),
    );
    proof {
        assert(diagnostic_views(report.diagnostics@) =~= seq![
            plain_error(
                code@,
                "preset input could not be loaded; run `shine preset validate` for path details"@,
            ),
        ]);
    }
    report
}

/// Opens the report, and says whether a plan is made.
pub fn open_authoring(
    scope: &PresetSourceScope,
    validation: &PresetValidation,
    platform: RuntimePlatform,
    state: &PresetAuthoringSyntheticState,
) -> (opened: (PresetAuthoringPlanReportV1, bool))
    requires
        is_plannable(*scope, *validation) ==> validation.categories@.len() > 0,
    ensures
        opened.1 == is_plannable(*scope, *validation),
        is_unplanned(
            opened.0,
            platform,
            assumptions_of(*state),
            planned_target(*scope),
            opening_diagnostics(*scope, *validation),
        ),
{
    let mut report = PresetAuthoringPlanReportV1::empty(platform);
    report.assumptions = state.assumptions();
    if !scope.is_single() {
        report.diagnostics.push(
            error_diagnostic(
                "single_category_required",
                "preset plan accepts exactly one category directory or shine.toml".to_owned(),
            ),
        );
        proof {
            assert(diagnostic_views(report.diagnostics@) =~= opening_diagnostics(
                *scope,
                *validation,
            ));
        }
        return (report, false);
    }
    let category = &scope.categories[0];
    let target = preset_target(category.kind, category.name.as_str());
    if !validation.valid {
        let message = joined(target.as_str(), " failed static validation");
        report.diagnostics.push(error_diagnostic("preset_validation_failed", message));
        let ghost head = diagnostic_views(report.diagnostics@);
        push_without_paths(
            &validation.diagnostics,
            PresetDiagnosticSeverity::Error,
            &mut report.diagnostics,
        );
        push_category_errors(&validation.categories, &mut report.diagnostics);
        report.target = Some(target);
        proof {
            assert(head =~= seq![
                plain_error(
                    "preset_validation_failed"@,
                    planned_target(*scope)->0 + " failed static validation"@,
                ),
            ]);
            assert(diagnostic_views(report.diagnostics@) =~= opening_diagnostics(
                *scope,
                *validation,
            ));
        }
        return (report, false);
    }
    push_without_paths(
        &validation.categories[0].diagnostics,
        PresetDiagnosticSeverity::Warning,
        &mut report.diagnostics,
    );
    report.target = Some(target);
    proof {
        assert(diagnostic_views(report.diagnostics@) =~= opening_diagnostics(
            *scope,
            *validation,
        ));
    }
    (report, true)
}

proof fn lemma_no_paths(list: Seq<PresetDiagnostic>, severity: PresetDiagnosticSeverity, i: int)
    requires
        0 <= i < without_paths(list, severity).len(),
    ensures
        without_paths(list, severity)[i].path is None,
    decreases list.len(),
{
    let before = without_paths(list.drop_last(), severity);
    if i < before.len() {
        lemma_no_paths(list.drop_last(), severity, i);
    }
}

proof fn lemma_no_category_paths(list: Seq<PresetCategoryValidation>, i: int)
    requires
        0 <= i < category_errors_without_paths(list).len(),
    ensures
        category_errors_without_paths(list)[i].path is None,
    decreases list.len(),
{
    let before = category_errors_without_paths(list.drop_last());
    if i < before.len() {
        lemma_no_category_paths(list.drop_last(), i);
    } else {
        lemma_no_paths(
            list.last().diagnostics@,
            PresetDiagnosticSeverity::Error,
            i - before.len(),
        );
    }
}

/// What is said of a preset names no path of the machine that its source is on.
pub proof fn law_reports_name_no_path(
    scope: PresetSourceScope,
    validation: PresetValidation,
    i: int,
)
    requires
        0 <= i < opening_diagnostics(scope, validation).len(),
    ensures
        opening_diagnostics(scope, validation)[i].path is None,
{
    let own = without_paths(validation.diagnostics@, PresetDiagnosticSeverity::Error);
    if !is_single_category(scope) {
    } else if !validation.valid {
        if i == 0 {
        } else if i < 1 + own.len() {
            lemma_no_paths(validation.diagnostics@, PresetDiagnosticSeverity::Error, i - 1);
        } else {
            lemma_no_category_paths(validation.categories@, i - 1 - own.len());
        }
    } else {
        lemma_no_paths(
            validation.categories@[0].diagnostics@,
            PresetDiagnosticSeverity::Warning,
            i,
        );
    }
}

/// What stands in the environment for a secret.
pub open spec fn secret_placeholder(version: Seq<char>) -> Seq<char> {
    "<secret-version:"@ + version + ">"@
}

/// The variables that stand for secrets.
pub open spec fn secret_env(secrets: Seq<(Seq<char>, Seq<char>)>) -> Seq<(Seq<char>, Seq<char>)> {
    secrets.map_values(
        |secret: (Seq<char>, Seq<char>)| (secret.0, secret_placeholder(secret.1)),
    )
}

/// The home directory of a made-up host.
pub open spec fn author_home() -> Seq<char> {
    "/shine-author/home"@
}

/// The directory of the program on a made-up host.
pub open spec fn author_shine() -> Seq<char> {
    path_join(author_home(), ".shine"@)
}

fn copy_env(env: &Vec<EnvValue>) -> (copy: Vec<EnvValue>)
    ensures
        env_pairs(copy@) == env_pairs(env@),
{
    let ghost all = env_pairs(env@);
    let mut copy: Vec<EnvValue> = Vec::new();
    let mut i: usize = 0;
    proof {
        assert(env_pairs(copy@) =~= all.take(0));
    }
    while i < env.len()
        invariant
            i <= env.len(),
            all == env_pairs(env@),
            env_pairs(copy@) == all.take(i as int),
        decreases env.len() - i,
    {
        set_env(&mut copy, env[i].name.as_str(), env[i].value.as_str());
        proof {
            assert(all[i as int] == (env@[i as int].name@, env@[i as int].value@));
            assert(all.take(i as int + 1) =~= all.take(i as int).push(all[i as int]));
        }
        i += 1;
    }
    proof {
        assert(all.take(all.len() as int) =~= all);
    }
    copy
}

/// The context of a plan on the made-up host.
pub fn authoring_context(platform: RuntimePlatform, state: &PresetAuthoringSyntheticState) -> (
    context: RuntimeContext)
    ensures
        context.home_dir@ == author_home(),
        context.shine_dir@ == author_shine(),
        context.presets_dir@ == "/shine-author/presets"@,
        context.bin_dir@ == path_join(author_shine(), "bin"@),
        context.platform == platform,
        context.is_external_presets,
        context.running_as_admin == state.running_as_admin,
        optional_text(context.path_env) == optional_text(state.path_env),
        env_pairs(context.env@) == env_pairs(state.environment@) + secret_env(
            secret_views(state.secret_versions@),
        ),
{
    let shine = join("/shine-author/home", ".shine");
    let bin = join(shine.as_str(), "bin");
    let mut context = RuntimeContext::isolated(
        "/shine-author/home",
        shine.as_str(),
        "/shine-author/presets",
        bin.as_str(),
        platform,
    );
    context.is_external_presets = true;
    context.running_as_admin = state.running_as_admin;
    context.path_env = copy_optional(&state.path_env);
    let mut env = copy_env(&state.environment);
    let ghost own = env_pairs(env@);
    let ghost all = secret_env(secret_views(state.secret_versions@));
    let mut i: usize = 0;
    proof {
        assert(env_pairs(env@) =~= own + all.take(0));
    }
    while i < state.secret_versions.len()
        invariant
            i <= state.secret_versions.len(),
            all == secret_env(secret_views(state.secret_versions@)),
            env_pairs(env@) == own + all.take(i as int),
        decreases state.secret_versions.len() - i,
    {
        let secret = &state.secret_versions[i];
        let mut value = joined("<secret-version:", secret.version.as_str());
        value.append(">");
        set_env(&mut env, secret.name.as_str(), value.as_str());
        proof {
            assert(secret_views(state.secret_versions@)[i as int] == (
                secret.name@,
                secret.version@,
            ));
            assert(all[i as int] == (secret.name@, value@));
            assert(all.take(i as int + 1) =~= all.take(i as int).push(all[i as int]));
            assert(env_pairs(env@) =~= own + all.take(i as int + 1));
        }
        i += 1;
    }
    proof {
        assert(all.take(all.len() as int) =~= all);
    }
    context.env = env;
    context
}

/// Records that there is no code for which trust was given.
pub fn refuse_trust(report: &mut PresetAuthoringPlanReportV1, target: &str)
    ensures
        final(report).schema_version == old(report).schema_version,
        final(report).valid == old(report).valid,
        final(report).ready == old(report).ready,
        final(report).target == old(report).target,
        final(report).platform == old(report).platform,
        final(report).assumptions == old(report).assumptions,
        final(report).plans == old(report).plans,
        diagnostic_views(final(report).diagnostics@) == diagnostic_views(
            old(report).diagnostics@,
        ).push(
            plain_error(
                "fixture_trust_requirement_unavailable"@,
                "fixture trust selection does not match external code for "@ + target@,
            ),
        ),
{
    let ghost before = report.diagnostics@;
    let message = joined("fixture trust selection does not match external code for ", target);
    let diagnostic = error_diagnostic("fixture_trust_requirement_unavailable", message);
    let ghost added = diagnostic@;
    report.diagnostics.push(diagnostic);
    proof {
        assert(diagnostic_views(report.diagnostics@) =~= diagnostic_views(before).push(added));
    }
}

/// How the items of a system preset are set up.
#[derive(Clone, Copy, Debug, PartialEq, Eq, Structural)]
pub enum SysItemMode {
    Managed,
    Init,
}

/// An item of a system preset, as far as it is planned.
#[derive(Clone, Debug)]
pub struct SysAuthoringItem {
    pub id: String,
    pub mode: SysItemMode,
}

/// The items of a mode.
pub open spec fn items_of_mode(items: Seq<SysAuthoringItem>, mode: SysItemMode) -> Seq<Seq<char>>
    decreases items.len(),
{
    if items.len() == 0 {
        Seq::empty()
    } else {
        let before = items_of_mode(items.drop_last(), mode);
        if items.last().mode == mode {
            before.push(items.last().id@)
        } else {
            before
        }
    }
}

fn select_items(items: &Vec<SysAuthoringItem>, mode: SysItemMode) -> (ids: Vec<String>)
    ensures
        texts(ids@) == items_of_mode(items@, mode),
{
    let mut ids: Vec<String> = Vec::new();
    let mut i: usize = 0;
    proof {
        assert(items@.take(0) =~= Seq::<SysAuthoringItem>::empty());
        assert(texts(ids@) =~= Seq::<Seq<char>>::empty());
    }
    while i < items.len()
        invariant
            i <= items.len(),
            texts(ids@) == items_of_mode(items@.take(i as int), mode),
        decreases items.len() - i,
    {
        proof {
            assert(items@.take(i as int + 1).drop_last() =~= items@.take(i as int));
            assert(items@.take(i as int + 1).last() == items@[i as int]);
        }
        if items[i].mode == mode {
            push_text(&mut ids, items[i].id.as_str());
        }
        i += 1;
    }
    proof {
        assert(items@.take(items@.len() as int) =~= items@);
    }
    ids
}

/// A plan that is asked for.
#[derive(Clone, Debug)]
pub enum SectionRequest {
    AppInstall,
    ShellInstall,
    SysManagedInstall,
    SysBootstrap { item_ids: Vec<String>, sys_shell: String },
}

/// A plan that is asked for, by the values.
pub ghost enum SectionRequestView {
    AppInstall,
    ShellInstall,
    SysManagedInstall,
    SysBootstrap { item_ids: Seq<Seq<char>>, sys_shell: Seq<char> },
}

impl View for SectionRequest {
    type V = SectionRequestView;

    open spec fn view(&self) -> SectionRequestView {
        match *self {
            SectionRequest::AppInstall => SectionRequestView::AppInstall,
            SectionRequest::ShellInstall => SectionRequestView::ShellInstall,
            SectionRequest::SysManagedInstall => SectionRequestView::SysManagedInstall,
            SectionRequest::SysBootstrap { item_ids, sys_shell } =>
                SectionRequestView::SysBootstrap {
                item_ids: texts(item_ids@),
                sys_shell: sys_shell@,
            },
        }
    }
}

/// The views of a list of requests.
pub open spec fn section_request_views(list: Seq<SectionRequest>) -> Seq<SectionRequestView> {
    list.map_values(|item: SectionRequest| item@)
}

/// The shell that a bootstrap is planned for.
pub open spec fn bootstrap_shell(platform: RuntimePlatform) -> Seq<char> {
    if platform == RuntimePlatform::Windows {
        "powershell"@
    } else {
        "zsh"@
    }
}

/// The plans that are asked for: one for an App or a shell preset; for a system
/// preset one for its managed items and one for those of its bootstrap, where it has
/// such.
pub open spec fn due_sections(
    kind: PresetKind,
    items: Seq<SysAuthoringItem>,
    platform: RuntimePlatform,
) -> Seq<SectionRequestView> {
    match kind {
        PresetKind::App => seq![SectionRequestView::AppInstall],
        PresetKind::Shell => seq![SectionRequestView::ShellInstall],
        PresetKind::Sys => {
            let managed = if items_of_mode(items, SysItemMode::Managed).len() > 0 {
                seq![SectionRequestView::SysManagedInstall]
            } else {
                Seq::empty()
            };
            if items_of_mode(items, SysItemMode::Init).len() > 0 {
                managed.push(
                    SectionRequestView::SysBootstrap {
                        item_ids: items_of_mode(items, SysItemMode::Init),
                        sys_shell: bootstrap_shell(platform),
                    },
                )
            } else {
                managed
            }
        },
    }
}

/// The plans that are asked for.
pub fn sections_due(kind: PresetKind, items: &Vec<SysAuthoringItem>, platform: RuntimePlatform) -> (
    requests: Vec<SectionRequest>)
    ensures
        section_request_views(requests@) == due_sections(kind, items@, platform),
{
    let mut requests: Vec<SectionRequest> = Vec::new();
    match kind {
        PresetKind::App => requests.push(SectionRequest::AppInstall),
        PresetKind::Shell => requests.push(SectionRequest::ShellInstall),
        PresetKind::Sys => {
            let managed = select_items(items, SysItemMode::Managed);
            let item_ids = select_items(items, SysItemMode::Init);
            proof {
                assert(texts(managed@).len() == managed@.len());
                assert(texts(item_ids@).len() == item_ids@.len());
            }
            if managed.len() > 0 {
                requests.push(SectionRequest::SysManagedInstall);
            }
            if item_ids.len() > 0 {
                let sys_shell = if platform == RuntimePlatform::Windows {
                    "powershell".to_owned()
                } else {
                    "zsh".to_owned()
                };
                requests.push(SectionRequest::SysBootstrap { item_ids, sys_shell });
            }
        },
    }
    proof {
        assert(section_request_views(requests@) =~= due_sections(kind, items@, platform));
    }
    requests
}

/// What a plan is called in a report.
pub open spec fn section_kind(request: SectionRequestView) -> Seq<char> {
    match request {
        SectionRequestView::SysManagedInstall => "managed-install"@,
        SectionRequestView::SysBootstrap { .. } => "bootstrap"@,
        _ => "lifecycle-install"@,
    }
}

/// The plan as a part of a report.
pub fn section(request: &SectionRequest, target: String, plan: PlanV1) -> (made:
    PresetAuthoringPlanSectionV1)
    ensures
        made.kind@ == section_kind(request@),
        made.target == target,
        made.operation == plan.operation,
        made.ready == plan.ready(),
        made.steps == plan.steps,
        made.permissions == plan.permissions,
{
    let kind = match request {
        SectionRequest::SysManagedInstall => "managed-install".to_owned(),
        SectionRequest::SysBootstrap { .. } => "bootstrap".to_owned(),
        _ => "lifecycle-install".to_owned(),
    };
    let ready = plan.is_ready();
    PresetAuthoringPlanSectionV1 {
        kind,
        target,
        operation: plan.operation,
        ready,
        steps: plan.steps,
        permissions: plan.permissions,
    }
}

/// Whether every plan is ready.
pub open spec fn all_ready(plans: Seq<PresetAuthoringPlanSectionV1>) -> bool {
    forall|i: int| 0 <= i < plans.len() ==> (#[trigger] plans[i]).ready
}

fn are_ready(plans: &Vec<PresetAuthoringPlanSectionV1>) -> (ready: bool)
    ensures
        ready == all_ready(plans@),
{
    let mut i: usize = 0;
    while i < plans.len()
        invariant
            i <= plans.len(),
            forall|j: int| 0 <= j < i ==> (#[trigger] plans@[j]).ready,
        decreases plans.len() - i,
    {
        if !plans[i].ready {
            return false;
        }
        i += 1;
    }
    true
}

/// What is said where there is no plan although one was to be made.
pub open spec fn missing_plan(target: Seq<char>, failed: bool) -> DiagnosticView {
    if failed {
        plain_error(
            "authoring_plan_failed"@,
            "Core could not build a hypothetical first-install plan for "@ + target,
        )
    } else {
        plain_error(
            "no_plannable_items"@,
            target + " contains no lifecycle items to plan"@,
        )
    }
}

/// Closes the report with the plans; none where they could not be made.
pub fn close_authoring(
    report: &mut PresetAuthoringPlanReportV1,
    target: &str,
    planned: Option<Vec<PresetAuthoringPlanSectionV1>>,
)
    ensures
        final(report).schema_version == old(report).schema_version,
        final(report).target == old(report).target,
        final(report).platform == old(report).platform,
        final(report).assumptions == old(report).assumptions,
        if planned is Some && planned->0@.len() > 0 {
            &&& final(report).valid
            &&& final(report).ready == all_ready(planned->0@)
            &&& final(report).plans == planned->0
            &&& final(report).diagnostics == old(report).diagnostics
        } else {
            &&& final(report).valid == old(report).valid
            &&& final(report).ready == old(report).ready
            &&& final(report).plans == old(report).plans
            &&& diagnostic_views(final(report).diagnostics@) == diagnostic_views(
                old(report).diagnostics@,
            ).push(missing_plan(target@, planned is None))
        },
{
    let ghost before = report.diagnostics@;
    let failed = planned.is_none();
    if let Some(plans) = planned {
        if plans.len() > 0 {
            report.valid = true;
            report.ready = are_ready(&plans);
            report.plans = plans;
            return ;
        }
    }
    let diagnostic = if failed {
        let message = joined(
            "Core could not build a hypothetical first-install plan for ",
            target,
        );
        error_diagnostic("authoring_plan_failed", message)
    } else {
        let message = joined(target, " contains no lifecycle items to plan");
        error_diagnostic("no_plannable_items", message)
    };
    let ghost added = diagnostic@;
    report.diagnostics.push(diagnostic);
    proof {
        assert(diagnostic_views(report.diagnostics@) =~= diagnostic_views(before).push(added));
    }
}

} // verus!
