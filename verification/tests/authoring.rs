//! Plans for the author of a preset.

use shine_core::authoring::{
    authoring_context, authoring_unloaded, close_authoring, open_authoring, presence_summary,
    refuse_trust, section, sections_due, version_summary, PresetAuthoringPlanAssumptionsV1,
    PresetAuthoringPlanSectionV1, PresetAuthoringSyntheticState, PresetSourceScope,
    ScopeCategory, SecretVersion, SectionRequest, SysAuthoringItem, SysItemMode,
};
use shine_core::context::{env_value, EnvValue, RuntimePlatform};
use shine_core::plan::{
    PermissionSetV1, PermissionV1, PlanActionV1, PlanInputsV1, PlanOperationV1, PlanStepV1,
    PlanV1, SnapshotDigestV1,
};
use shine_core::validation::{
    PresetCategoryValidation, PresetDiagnostic, PresetDiagnosticSeverity, PresetKind,
    PresetValidation,
};

fn scope(canonical: &str) -> PresetSourceScope {
    PresetSourceScope {
        canonical: canonical.to_string(),
        categories: vec![ScopeCategory {
            kind: PresetKind::App,
            name: "demo".to_string(),
            root: "/repo/app/demo".to_string(),
        }],
    }
}

fn validation(diagnostics: Vec<PresetDiagnostic>) -> PresetValidation {
    PresetValidation {
        valid: !diagnostics
            .iter()
            .any(|item| item.severity == PresetDiagnosticSeverity::Error),
        diagnostics: Vec::new(),
        categories: vec![PresetCategoryValidation {
            kind: PresetKind::App,
            name: "demo".to_string(),
            diagnostics,
        }],
    }
}

fn diagnostic(severity: PresetDiagnosticSeverity, code: &str) -> PresetDiagnostic {
    PresetDiagnostic {
        severity,
        code: code.to_string(),
        message: "message".to_string(),
        path: Some("/repo/app/demo/shine.toml".to_string()),
    }
}

fn plan(operation: PlanOperationV1, action: PlanActionV1) -> PlanV1 {
    PlanV1::new(
        operation,
        PlanInputsV1 {
            preset: SnapshotDigestV1::builder("preset").finish(),
            state: SnapshotDigestV1::builder("state").finish(),
        },
        vec![PlanStepV1::new("app/demo", Some("config"), action)],
        PermissionSetV1::new(),
        &PermissionSetV1::new(),
        Vec::new(),
    )
}

#[test]
fn invalid_authoring_plan_includes_safe_validation_details() {
    let (report, goes_on) = open_authoring(
        &scope("/repo/app/demo"),
        &validation(vec![diagnostic(
            PresetDiagnosticSeverity::Error,
            "unsupported_permission_schema",
        )]),
        RuntimePlatform::Linux,
        &PresetAuthoringSyntheticState::empty(),
    );

    assert!(!goes_on);
    assert!(!report.valid);
    assert_eq!(report.diagnostics[0].code, "preset_validation_failed");
    assert_eq!(report.diagnostics[1].code, "unsupported_permission_schema");
    assert!(report.diagnostics.iter().all(|item| item.path.is_none()));
    assert!(!format!("{report:?}").contains("/repo"));
}

#[test]
fn repository_scope_is_rejected_without_planning_categories() {
    let (report, goes_on) = open_authoring(
        &scope("/repo"),
        &validation(Vec::new()),
        RuntimePlatform::Linux,
        &PresetAuthoringSyntheticState::empty(),
    );

    assert!(!goes_on);
    assert!(!report.valid);
    assert_eq!(report.diagnostics[0].code, "single_category_required");
    assert!(report.plans.is_empty());
}

#[test]
fn sys_authoring_plan_partitions_managed_and_bootstrap_items() {
    let item = |id: &str, mode| SysAuthoringItem { id: id.to_string(), mode };
    let requests = sections_due(
        PresetKind::Sys,
        &vec![
            item("managed", SysItemMode::Managed),
            item("bootstrap", SysItemMode::Init),
        ],
        RuntimePlatform::Linux,
    );
    let plans: Vec<PresetAuthoringPlanSectionV1> = requests
        .iter()
        .map(|request| {
            let plan = match request {
                SectionRequest::SysBootstrap { item_ids, sys_shell } => {
                    assert_eq!(item_ids, &vec!["bootstrap"]);
                    assert_eq!(sys_shell, "zsh");
                    plan(PlanOperationV1::SysBootstrap, PlanActionV1::Blocked)
                }
                _ => plan(PlanOperationV1::Install, PlanActionV1::Create),
            };
            section(request, "sys/demo".to_string(), plan)
        })
        .collect();
    let (mut report, goes_on) = open_authoring(
        &PresetSourceScope {
            canonical: "/repo/sys/demo".to_string(),
            categories: vec![ScopeCategory {
                kind: PresetKind::Sys,
                name: "demo".to_string(),
                root: "/repo/sys/demo".to_string(),
            }],
        },
        &validation(Vec::new()),
        RuntimePlatform::Linux,
        &PresetAuthoringSyntheticState::empty(),
    );
    assert!(goes_on);
    close_authoring(&mut report, "sys/demo", Some(plans));

    assert!(report.valid, "{:?}", report.diagnostics);
    assert_eq!(report.plans.len(), 2);
    assert_eq!(report.plans[0].kind, "managed-install");
    assert_eq!(report.plans[1].kind, "bootstrap");
    assert_eq!(report.plans[1].operation, PlanOperationV1::SysBootstrap);
    assert!(!report.ready);
}

#[test]
fn a_category_is_named_by_its_directory_or_its_metadata() {
    for canonical in ["/repo/app/demo", "/repo/app/demo/", "/repo/app/demo/shine.toml"] {
        assert!(scope(canonical).is_single());
    }
    assert!(!scope("/repo/app/demo/config").is_single());
    let mut two = scope("/repo/app/demo");
    two.categories.push(two.categories[0].clone());
    assert!(!two.is_single());
}

#[test]
fn warnings_of_a_valid_category_are_passed_on_without_their_paths() {
    let (report, goes_on) = open_authoring(
        &scope("/repo/app/demo"),
        &validation(vec![diagnostic(PresetDiagnosticSeverity::Warning, "odd")]),
        RuntimePlatform::Windows,
        &PresetAuthoringSyntheticState::empty(),
    );
    assert!(goes_on);
    assert_eq!(report.target.as_deref(), Some("app/demo"));
    assert_eq!(report.platform, "windows");
    assert_eq!(report.diagnostics.len(), 1);
    assert!(report.diagnostics[0].path.is_none());
}

#[test]
fn a_report_is_ready_where_each_plan_is() {
    let (opened, _) = open_authoring(
        &scope("/repo/app/demo"),
        &validation(Vec::new()),
        RuntimePlatform::Linux,
        &PresetAuthoringSyntheticState::empty(),
    );
    let requests = sections_due(PresetKind::App, &Vec::new(), RuntimePlatform::Linux);
    let made = section(
        &requests[0],
        "app/demo".to_string(),
        plan(PlanOperationV1::Install, PlanActionV1::Create),
    );
    assert_eq!(made.kind, "lifecycle-install");
    let mut report = opened.clone();
    close_authoring(&mut report, "app/demo", Some(vec![made]));
    assert!(report.valid && report.ready);
    let mut report = opened.clone();
    close_authoring(&mut report, "app/demo", Some(Vec::new()));
    assert!(!report.valid);
    assert_eq!(report.diagnostics[0].code, "no_plannable_items");
    assert_eq!(report.diagnostics[0].message, "app/demo contains no lifecycle items to plan");
    let mut report = opened.clone();
    close_authoring(&mut report, "app/demo", None);
    assert_eq!(report.diagnostics[0].code, "authoring_plan_failed");
    let mut report = opened;
    refuse_trust(&mut report, "app/demo");
    assert_eq!(report.diagnostics[0].code, "fixture_trust_requirement_unavailable");
}

#[test]
fn windows_bootstraps_for_its_own_shell() {
    let items =
        vec![SysAuthoringItem { id: "mise".to_string(), mode: SysItemMode::Init }];
    let requests = sections_due(PresetKind::Sys, &items, RuntimePlatform::Windows);
    assert!(matches!(
        &requests[..],
        [SectionRequest::SysBootstrap { sys_shell, .. }] if sys_shell == "powershell"
    ));
    assert!(sections_due(PresetKind::Sys, &Vec::new(), RuntimePlatform::Linux).is_empty());
    assert!(matches!(
        &sections_due(PresetKind::Shell, &items, RuntimePlatform::Linux)[..],
        [SectionRequest::ShellInstall]
    ));
}

#[test]
fn assumptions_count_and_do_not_tell() {
    assert_eq!(presence_summary(0), "absent");
    assert_eq!(presence_summary(12), "provided:12");
    assert_eq!(version_summary(1), "versioned:1");
    let mut state = PresetAuthoringSyntheticState::empty();
    let plain = state.assumptions();
    let usual = PresetAuthoringPlanAssumptionsV1::default();
    assert_eq!(plain.lifecycle_state, usual.lifecycle_state);
    assert_eq!(usual.trust_grants, "none");
    assert_eq!(plain.trust_grants, "absent");
    state.secret_versions.push(SecretVersion {
        name: "TOKEN".to_string(),
        version: "vault-revision-7".to_string(),
    });
    state.path_env = Some("/bin".to_string());
    state.running_as_admin = true;
    state.lifecycle_state_present = true;
    let assumptions = state.assumptions();
    assert_eq!(assumptions.secrets, "versioned:1");
    assert_eq!(assumptions.detected_commands, "provided");
    assert_eq!(assumptions.lifecycle_state, "provided");
    assert!(assumptions.administrator);
    assert!(!format!("{assumptions:?}").contains("vault-revision-7"));
}

#[test]
fn the_made_up_context_has_versions_in_place_of_secrets() {
    let mut state = PresetAuthoringSyntheticState::empty();
    state
        .environment
        .push(EnvValue { name: "LANG".to_string(), value: "<present>".to_string() });
    state.secret_versions.push(SecretVersion {
        name: "TOKEN".to_string(),
        version: "7".to_string(),
    });
    let context = authoring_context(RuntimePlatform::Macos, &state);
    assert_eq!(context.home_dir, "/shine-author/home");
    assert_eq!(context.bin_dir, "/shine-author/home/.shine/bin");
    assert!(context.is_external_presets);
    assert_eq!(env_value(&context.env, "LANG").as_deref(), Some("<present>"));
    assert_eq!(env_value(&context.env, "TOKEN").as_deref(), Some("<secret-version:7>"));
}

#[test]
fn an_input_that_is_not_there_is_reported() {
    let report = authoring_unloaded(RuntimePlatform::Linux, "preset_missing");
    assert_eq!(report.diagnostics[0].code, "preset_missing");
    assert!(report.target.is_none());
    assert!(!report.valid);
}

#[test]
fn a_permission_that_was_not_declared_keeps_a_plan_from_being_ready() {
    let mut required = PermissionSetV1::new();
    required.insert(PermissionV1::Administrator);
    let command = PermissionV1::Command { program: "bun".to_string() };
    required.insert(command.clone());
    let mut granted = PermissionSetV1::new();
    granted.insert(command);
    let base = plan(PlanOperationV1::Install, PlanActionV1::Create);
    let made = PlanV1::new(
        PlanOperationV1::Install,
        base.inputs,
        base.steps,
        required,
        &granted,
        Vec::new(),
    );
    assert!(!made.is_ready());
    assert_eq!(made.permissions.missing_declarations.items.len(), 1);
    assert!(made.permissions.missing_declarations.contains(&PermissionV1::Administrator));
}
