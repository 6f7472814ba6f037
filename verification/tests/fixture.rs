//! Fixtures: hosts that an author made up, and what is expected on them.

use shine_core::authoring::{
    open_authoring, close_authoring, section, sections_due, PresetAuthoringPlanReportV1,
    PresetAuthoringSyntheticState, PresetSourceScope, ScopeCategory, SecretVersion,
    TrustCapabilityV1,
};
use shine_core::context::{env_value, RuntimePlatform};
use shine_core::fixture::{
    accept_fixture, action_name, check_document, find_fixture, finish_cases, fixture_file_path, invalid, judge_case,
    permission_name, PRESET_TEST_FIXTURE_FILE, PRESET_TEST_SCHEMA_VERSION,
};
use shine_core::fixture_state::{
    expand_receipt, is_canonical_trust_target, materialize_host_state, ReceiptReading,
    ReceiptReadings,
};
use shine_core::fixture_types::{
    FixtureCaseV1, FixtureDocumentV1, FixtureExpectationV1, FixtureFault, FixtureFileV1,
    FixtureHostStateV1, FixturePathBaseV1, FixturePlatform, FixtureReceiptsV1,
    FixtureTrustCapabilityV1, FixtureTrustV1,
};
use shine_core::plan::{
    EnvironmentSensitivityV1, FilesystemAccessV1, NetworkScopeV1, PermissionSetV1, PermissionV1,
    PlanActionV1, PlanInputsV1, PlanOperationV1, PlanStepV1, PlanV1, SnapshotDigestV1,
};
use shine_core::presets::{PresetSnapshot, PresetSourceKind};
use shine_core::validation::{PresetCategoryValidation, PresetKind, PresetValidation};

fn host() -> FixtureHostStateV1 {
    FixtureHostStateV1 {
        environment: Vec::new(),
        secret_versions: Vec::new(),
        files: Vec::new(),
        commands: Vec::new(),
        trust: Vec::new(),
        receipts: FixtureReceiptsV1 { app: None, shell: None, sys: None },
        administrator: false,
    }
}

fn expectation() -> FixtureExpectationV1 {
    FixtureExpectationV1 {
        valid: None,
        ready: None,
        plan_kinds: None,
        diagnostic_codes: None,
        step_diagnostic_codes: None,
        actions: None,
        required_permissions: None,
        missing_permissions: None,
        permission_diagnostic_codes: None,
    }
}

fn case(name: &str) -> FixtureCaseV1 {
    FixtureCaseV1 {
        name: name.to_string(),
        platform: FixturePlatform::Linux,
        host: host(),
        expect: expectation(),
    }
}

fn document(cases: Vec<FixtureCaseV1>) -> FixtureDocumentV1 {
    FixtureDocumentV1 { schema_version: PRESET_TEST_SCHEMA_VERSION, cases }
}

const UNREAD: ReceiptReadings = ReceiptReadings {
    app: ReceiptReading::Unreadable,
    shell: ReceiptReading::Unreadable,
    sys: ReceiptReading::Unreadable,
};

fn materialize(
    fixture: &FixtureHostStateV1,
) -> Result<PresetAuthoringSyntheticState, FixtureFault> {
    materialize_host_state(fixture, UNREAD)
}

/// The report of a plan that creates one file.
fn report(state: &PresetAuthoringSyntheticState) -> PresetAuthoringPlanReportV1 {
    let scope = PresetSourceScope {
        canonical: "/repo/app/demo".to_string(),
        categories: vec![ScopeCategory {
            kind: PresetKind::App,
            name: "demo".to_string(),
            root: "/repo/app/demo".to_string(),
        }],
    };
    let validation = PresetValidation {
        valid: true,
        diagnostics: Vec::new(),
        categories: vec![PresetCategoryValidation {
            kind: PresetKind::App,
            name: "demo".to_string(),
            diagnostics: Vec::new(),
        }],
    };
    let (mut report, goes_on) =
        open_authoring(&scope, &validation, RuntimePlatform::Linux, state);
    assert!(goes_on);
    let mut required = PermissionSetV1::new();
    required.insert(PermissionV1::Filesystem {
        access: FilesystemAccessV1::Write,
        path: "home:.config/demo/config.toml".to_string(),
    });
    let plan = PlanV1::new(
        PlanOperationV1::Install,
        PlanInputsV1 {
            preset: SnapshotDigestV1::builder("preset").finish(),
            state: SnapshotDigestV1::builder("state").finish(),
        },
        vec![PlanStepV1::new("app/demo", Some("config.toml"), PlanActionV1::Create)],
        required.clone(),
        &required,
        Vec::new(),
    );
    let requests = sections_due(PresetKind::App, &Vec::new(), RuntimePlatform::Linux);
    let sections =
        requests.iter().map(|request| section(request, "app/demo".to_string(), plan.clone()));
    let sections = sections.collect();
    close_authoring(&mut report, "app/demo", Some(sections));
    report
}

fn expecting(ready: bool) -> FixtureCaseV1 {
    let mut case = case("linux-empty");
    case.expect.valid = Some(true);
    case.expect.ready = Some(ready);
    case.expect.plan_kinds = Some(vec!["lifecycle-install".to_string()]);
    case.expect.actions = Some(vec!["create".to_string()]);
    case
}

#[test]
fn declarative_fixture_passes_without_execution() {
    let case = expecting(true);
    let state = materialize(&case.host).unwrap();
    let report = finish_cases(vec![judge_case(&case, &report(&state))]);

    assert!(report.valid, "{:?}", report.diagnostics);
    assert_eq!(report.summary.passed, 1);
    assert!(report.cases[0].passed);
}

#[test]
fn expectation_mismatch_is_a_stable_case_failure() {
    let case = expecting(false);
    let state = materialize(&case.host).unwrap();
    let report = finish_cases(vec![judge_case(&case, &report(&state))]);

    assert!(!report.valid);
    assert_eq!(
        report.cases[0].failure_codes,
        vec!["expected_ready_mismatch"]
    );
}

#[test]
fn invalid_fixture_host_path_fails_with_stable_code() {
    let mut case = case("escaping-file");
    case.host.files.push(FixtureFileV1 {
        base: FixturePathBaseV1::Home,
        path: "../outside".to_string(),
        content: String::new(),
    });
    let report = match materialize(&case.host) {
        Err(fault) => invalid(fault),
        Ok(_) => panic!("expected a fault"),
    };

    assert!(!report.valid);
    assert_eq!(report.diagnostics, vec!["fixture_file_path_invalid"]);
}

#[test]
fn a_fixture_has_cases_with_names_of_their_own() {
    assert_eq!(check_document(&document(vec![case("a"), case("b")])), None);
    assert_eq!(check_document(&document(Vec::new())), Some(FixtureFault::CasesEmpty));
    assert_eq!(
        check_document(&document(vec![case("a"), case("a")])),
        Some(FixtureFault::CaseNameInvalid)
    );
    assert_eq!(
        check_document(&document(vec![case(" ")])),
        Some(FixtureFault::CaseNameInvalid)
    );
    let newer = FixtureDocumentV1 { schema_version: 2, cases: vec![case("a")] };
    assert_eq!(check_document(&newer), Some(FixtureFault::SchemaUnsupported));
    assert_eq!(PRESET_TEST_FIXTURE_FILE, "shine.test.toml");
    assert_eq!(fixture_file_path(PresetKind::App, "demo"), "app/demo/shine.test.toml");
    assert_eq!(invalid(FixtureFault::Missing).diagnostics, vec!["fixture_missing"]);
    assert_eq!(invalid(FixtureFault::Invalid).diagnostics, vec!["fixture_invalid"]);
    assert_eq!(invalid(FixtureFault::InvalidInput).diagnostics, vec!["invalid_input"]);
    assert_eq!(
        invalid(FixtureFault::SingleCategoryRequired).diagnostics,
        vec!["single_category_required"]
    );
}

#[test]
fn the_first_fault_of_a_fixture_counts() {
    let scope = |canonical: &str| PresetSourceScope {
        canonical: canonical.to_string(),
        categories: vec![ScopeCategory {
            kind: PresetKind::App,
            name: "demo".to_string(),
            root: "/presets/app/demo".to_string(),
        }],
    };
    let own = scope("/presets/app/demo");
    let whole = scope("/presets");
    let builder = || PresetSnapshot::builder(PresetSourceKind::External);
    let none = builder().build();
    let some = builder().file("app/demo/shine.test.toml", b"text".to_vec()).build();
    let newer = || FixtureDocumentV1 { schema_version: 2, cases: vec![case("a")] };
    assert_eq!(find_fixture(&own, &some).unwrap(), b"text");
    let refused = |scope: &PresetSourceScope, files: &PresetSnapshot, document| {
        accept_fixture(scope, files, document).unwrap_err()
    };
    assert_eq!(refused(&whole, &none, None), FixtureFault::SingleCategoryRequired);
    assert_eq!(refused(&own, &none, Some(newer())), FixtureFault::Missing);
    assert_eq!(refused(&own, &some, None), FixtureFault::Invalid);
    assert_eq!(refused(&own, &some, Some(newer())), FixtureFault::SchemaUnsupported);
    let accepted = accept_fixture(&own, &some, Some(document(vec![case("a")]))).unwrap();
    assert_eq!(accepted.cases[0].name, "a");
}

fn fault(change: impl Fn(&mut FixtureHostStateV1)) -> Option<&'static str> {
    let mut host = host();
    change(&mut host);
    materialize(&host).err().map(|fault| fault.as_str())
}

fn secret(name: &str, version: &str) -> SecretVersion {
    SecretVersion { name: name.to_string(), version: version.to_string() }
}

#[test]
fn variables_and_secrets_are_checked() {
    let names = |list: &[&str]| list.iter().map(|name| name.to_string()).collect::<Vec<_>>();
    assert_eq!(
        fault(|host| host.environment = names(&["A-B"])),
        Some("fixture_environment_invalid")
    );
    assert_eq!(
        fault(|host| host.environment = names(&["A", "B", "A"])),
        Some("fixture_environment_duplicate")
    );
    for (name, version) in [("1A", "x"), ("A", " "), ("A", "x".repeat(129).as_str())] {
        assert_eq!(
            fault(|host| host.secret_versions = vec![secret(name, version)]),
            Some("fixture_secret_invalid")
        );
    }
    assert_eq!(
        fault(|host| {
            host.environment = names(&["A"]);
            host.secret_versions = vec![secret("A", "1")];
        }),
        Some("fixture_environment_secret_conflict")
    );
    assert_eq!(
        fault(|host| host.secret_versions = vec![secret("A", &"x".repeat(128))]),
        None
    );
}

fn file(base: FixturePathBaseV1, path: &str) -> FixtureFileV1 {
    FixtureFileV1 { base, path: path.to_string(), content: "text".to_string() }
}

#[test]
fn files_stay_where_they_belong() {
    let mut host = host();
    host.files = vec![
        file(FixturePathBaseV1::Home, "a"),
        file(FixturePathBaseV1::Shine, "b"),
        file(FixturePathBaseV1::DataDir, "c"),
        file(FixturePathBaseV1::Bin, "d"),
        file(FixturePathBaseV1::Absolute, "/etc/e"),
    ];
    let state = materialize(&host).unwrap();
    let paths: Vec<&str> = state.files.iter().map(|file| file.path.as_str()).collect();
    assert_eq!(
        paths,
        vec![
            "/shine-author/home/a",
            "/shine-author/home/.shine/b",
            "/shine-author/home/.local/share/c",
            "/shine-author/home/.shine/bin/d",
            "/etc/e",
        ]
    );
    assert_eq!(state.files[0].content, b"text");
    assert_eq!(state.files[0].mode, 0o100644);
    assert!(state.lifecycle_state_present);
    for bad in [file(FixturePathBaseV1::Home, ""), file(FixturePathBaseV1::Home, "/x"), file(FixturePathBaseV1::Absolute, "x"), file(FixturePathBaseV1::Absolute, "/home/me")] {
        assert_eq!(
            fault(|host| host.files = vec![bad.clone()]),
            Some("fixture_file_path_invalid")
        );
    }
    assert_eq!(
        fault(|host| {
            host.files = vec![
                file(FixturePathBaseV1::Home, "a"),
                file(FixturePathBaseV1::Home, "./a"),
            ];
        }),
        Some("fixture_file_duplicate")
    );
    assert_eq!(
        fault(|host| host.files = vec![file(FixturePathBaseV1::Home, "x/a"), file(FixturePathBaseV1::Home, "x//a")]),
        Some("fixture_file_duplicate")
    );
    let mut large = file(FixturePathBaseV1::Home, "a");
    large.content = "x".repeat(64 * 1024 + 1);
    assert_eq!(
        fault(|host| host.files = vec![large.clone()]),
        Some("fixture_file_too_large")
    );
}

#[test]
fn commands_are_names() {
    let mut host = host();
    host.commands = vec!["bat".to_string()];
    let state = materialize(&host).unwrap();
    assert_eq!(state.path_env.as_deref(), Some("/shine-author/home/.shine/bin"));
    assert_eq!(state.files[0].path, "/shine-author/home/.shine/bin/bat");
    assert_eq!(state.files[0].mode, 0o100755);
    assert!(state.files[0].content.is_empty());
    for list in [vec![""], vec!["a/b"], vec!["a\\b"], vec!["a b"], vec!["a", "a"]] {
        assert_eq!(
            fault(|host| {
                host.commands = list.iter().map(|name| name.to_string()).collect();
            }),
            Some("fixture_command_invalid")
        );
    }
}

#[test]
fn receipts_are_expanded_and_read() {
    assert_eq!(
        expand_receipt("a = '${HOME}' b = '${SHINE}' c = '${DATA_DIR}' d = '${BIN}'").unwrap(),
        "a = '/shine-author/home' b = '/shine-author/home/.shine' \
         c = '/shine-author/home/.local/share' d = '/shine-author/home/.shine/bin'"
    );
    assert_eq!(
        expand_receipt("${OTHER}").unwrap_err(),
        FixtureFault::ReceiptPlaceholderInvalid
    );
    assert_eq!(
        expand_receipt(&"x".repeat(64 * 1024 + 1)).unwrap_err(),
        FixtureFault::ReceiptTooLarge
    );
    let mut host = host();
    host.receipts.shell = Some("schema_version = 1".to_string());
    let reading = |found| ReceiptReadings {
        shell: ReceiptReading::Schema { found, supported: 1 },
        ..UNREAD
    };
    assert_eq!(
        materialize(&host).unwrap_err(),
        FixtureFault::ReceiptInvalid
    );
    assert_eq!(
        materialize_host_state(&host, reading(2)).unwrap_err(),
        FixtureFault::ReceiptSchemaUnsupported
    );
    let state = materialize_host_state(&host, reading(1)).unwrap();
    assert_eq!(state.files[0].path, "/shine-author/home/.shine/shell-manifest.toml");
    assert!(state.lifecycle_state_present);
}

fn trust(target: &str, capability: FixtureTrustCapabilityV1) -> FixtureTrustV1 {
    FixtureTrustV1 { target: target.to_string(), capability }
}

#[test]
fn trust_is_given_to_one_target_at_a_time() {
    for target in ["app/demo", "sys/ubuntu"] {
        assert!(is_canonical_trust_target(target));
    }
    for target in ["app", "shell/x", "app/", "app/a/b", "app/a\\b", "app/.", "app/.."] {
        assert!(!is_canonical_trust_target(target));
    }
    assert_eq!(
        fault(|host| host.trust = vec![trust("shell/x", FixtureTrustCapabilityV1::AppHook)]),
        Some("fixture_trust_target_invalid")
    );
    assert_eq!(
        fault(|host| {
            host.trust = vec![
                trust("app/a", FixtureTrustCapabilityV1::AppHook),
                trust("app/a", FixtureTrustCapabilityV1::AppHook),
            ];
        }),
        Some("fixture_trust_duplicate")
    );
    let mut host = host();
    host.trust = vec![
        trust("app/a", FixtureTrustCapabilityV1::AppGenerator),
        trust("app/a", FixtureTrustCapabilityV1::AppArtifact),
    ];
    let state = materialize(&host).unwrap();
    assert_eq!(state.trusted_capabilities[0].capability, TrustCapabilityV1::AppGenerator);
    assert_eq!(
        TrustCapabilityV1::from(FixtureTrustCapabilityV1::SysProfileCode),
        TrustCapabilityV1::SysProfileCode
    );
}

#[test]
fn the_first_thing_that_is_wrong_is_named() {
    assert_eq!(
        fault(|host| {
            host.commands = vec!["".to_string()];
            host.files = vec![file(FixturePathBaseV1::Home, "..")];
            host.trust = vec![trust("x", FixtureTrustCapabilityV1::AppHook)];
        }),
        Some("fixture_file_path_invalid")
    );
}

#[test]
fn variables_are_present_without_a_value() {
    let mut host = host();
    host.environment = vec!["LANG".to_string()];
    host.secret_versions = vec![secret("TOKEN", "vault-revision-7")];
    let state = materialize(&host).unwrap();
    assert_eq!(env_value(&state.environment, "LANG").as_deref(), Some("<present>"));
    assert_eq!(state.secret_versions[0].version, "vault-revision-7");
    let mut case = case("secret");
    case.host = host;
    let result = judge_case(&case, &report(&state));
    assert!(!format!("{result:?}").contains("vault-revision-7"));
}

#[test]
fn each_expectation_has_a_code_of_its_own() {
    let mut case = expecting(true);
    let none = || Some(Vec::new());
    case.expect.valid = Some(false);
    case.expect.plan_kinds = none();
    case.expect.diagnostic_codes = Some(vec!["x".to_string()]);
    case.expect.step_diagnostic_codes = Some(vec!["x".to_string()]);
    case.expect.actions = none();
    case.expect.required_permissions = none();
    case.expect.missing_permissions = Some(vec!["x".to_string()]);
    case.expect.permission_diagnostic_codes = Some(vec!["x".to_string()]);
    let state = PresetAuthoringSyntheticState::empty();
    let result = judge_case(&case, &report(&state));
    assert_eq!(
        result.failure_codes,
        vec![
            "expected_valid_mismatch",
            "expected_plan_kinds_mismatch",
            "expected_diagnostic_codes_mismatch",
            "expected_step_diagnostic_codes_mismatch",
            "expected_actions_mismatch",
            "expected_required_permissions_mismatch",
            "expected_missing_permissions_mismatch",
            "expected_permission_diagnostic_codes_mismatch",
        ]
    );
    assert_eq!(
        result.actual_required_permissions,
        vec!["filesystem:write:home:.config/demo/config.toml"]
    );
    assert_eq!(result.platform, "linux");
    let mut same = expecting(true);
    same.expect.actions = Some(vec!["create".to_string(), "create".to_string()]);
    assert!(judge_case(&same, &report(&state)).passed);
    let summary = finish_cases(vec![result, judge_case(&same, &report(&state))]);
    assert_eq!((summary.summary.passed, summary.summary.failed), (1, 1));
    assert!(!summary.valid);
}

#[test]
fn actions_and_permissions_have_stable_names() {
    assert_eq!(action_name(PlanActionV1::Nothing), "none");
    assert_eq!(action_name(PlanActionV1::Preserve), "preserve");
    let text = |permission: PermissionV1| permission_name(&permission);
    assert_eq!(text(PermissionV1::Network { scope: NetworkScopeV1::Any }), "network:any");
    assert_eq!(
        text(PermissionV1::Network { scope: NetworkScopeV1::Host("a.b".to_string()) }),
        "network:host:a.b"
    );
    assert_eq!(text(PermissionV1::Command { program: "bun".to_string() }), "command:bun");
    assert_eq!(text(PermissionV1::Administrator), "administrator");
    assert_eq!(
        text(PermissionV1::Environment {
            name: "TOKEN".to_string(),
            sensitivity: EnvironmentSensitivityV1::Secret,
        }),
        "environment:secret:TOKEN"
    );
    assert_eq!(
        text(PermissionV1::System { capability: "dns".to_string(), resource: None }),
        "system:dns"
    );
    assert_eq!(
        text(PermissionV1::System {
            capability: "dns".to_string(),
            resource: Some("corp".to_string()),
        }),
        "system:dns:corp"
    );
}
