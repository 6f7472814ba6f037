//! What could be better about presets.

use shine_core::app_metadata_types::{CategoryToml, DestToml, FileToml, PlatformDestToml};
use shine_core::app_types::{
    DeclaredNetworkScopeV1, FilesystemDeclarationV1, NetworkDeclarationV1,
    PermissionDeclarationV1, PermissionPathBaseV1,
};
use shine_core::inspection::{ShellCategory, ShellFile};
use shine_core::lint::{
    lint_shell, lint_sys, private_absolute_path, warning, PresetLintSeverity, SysLintItem,
    SysLintPreset,
};
use shine_core::lint_report::{
    finish, lint_invalid, lint_scope, lint_unloaded, LintCategory, PresetLintReportV1,
};
use shine_core::presets::{PresetSnapshot, PresetSourceKind};
use shine_core::validation::{
    PresetCategoryValidation, PresetDiagnostic, PresetDiagnosticSeverity, PresetKind,
    PresetValidation,
};

fn permissions(value: &toml::Value) -> PermissionDeclarationV1 {
    let list = |name: &str| {
        value.get(name).and_then(|list| list.as_array()).cloned().unwrap_or_default()
    };
    PermissionDeclarationV1 {
        schema_version: value["schema_version"].as_integer().unwrap() as u32,
        network: list("network")
            .iter()
            .map(|item| NetworkDeclarationV1 {
                scope: match item["scope"].as_str().unwrap() {
                    "any" => DeclaredNetworkScopeV1::Any,
                    _ => DeclaredNetworkScopeV1::Hosts,
                },
            })
            .collect(),
        filesystem: list("filesystem")
            .iter()
            .map(|item| FilesystemDeclarationV1 {
                base: match item["base"].as_str().unwrap() {
                    "absolute" => PermissionPathBaseV1::Absolute,
                    _ => PermissionPathBaseV1::Home,
                },
                path: item["path"].as_str().unwrap().to_string(),
            })
            .collect(),
    }
}

fn read_category(content: &str) -> CategoryToml {
    let table: toml::Table = toml::from_str(content).unwrap();
    let text = |table: &toml::Table, name: &str| {
        table.get(name).map(|value| value.as_str().unwrap().to_string())
    };
    CategoryToml {
        description: text(&table, "description"),
        dest: DestToml::Single(text(&table, "dest").unwrap()),
        list_mode: None,
        post_upgrade: None,
        post_install: None,
        artifact: None,
        files: table.get("files").map(|list| {
            let read = |item: &toml::Value| {
                let item = item.as_table().unwrap();
                FileToml {
                    source: text(item, "source").unwrap(),
                    target: None,
                    dest: text(item, "dest").map(DestToml::Single),
                    description: text(item, "description"),
                    display_name: None,
                    platforms: None,
                    transform: None,
                    transforms: None,
                    install_mode: None,
                    managed_keys: None,
                    requires_admin: false,
                    restart_hint: None,
                    generator: None,
                }
            };
            list.as_array().unwrap().iter().map(read).collect()
        }),
        permissions: table.get("permissions").map(permissions),
    }
}

fn lint_app_preset(content: &str) -> PresetLintReportV1 {
    let presets = PresetSnapshot::builder(PresetSourceKind::External)
        .file("app/demo/shine.toml", content.as_bytes().to_vec())
        .metadata("app/demo/shine.toml", read_category(content))
        .file("app/demo/config.toml", b"value = true\n".to_vec())
        .build();
    lint_scope(&presets, &vec![LintCategory::App { name: "demo".to_string() }])
}

#[test]
fn clean_app_metadata_has_no_findings() {
    let report = lint_app_preset(
        "description = 'Demo'\ndest = '~/.config/demo'\n[permissions]\nschema_version = 1\n[[files]]\nsource = 'config.toml'\ndescription = 'Demo config'\n",
    );

    assert!(report.valid, "{:?}", report.diagnostics);
    assert!(report.clean, "{:?}", report.diagnostics);
}

#[test]
fn quality_and_permission_findings_are_stable_warnings() {
    let report = lint_app_preset(
        "dest = '~/.config/demo'\n[permissions]\nschema_version = 1\nfilesystem = [{ access = ['read'], base = 'absolute', path = '/Users/alice/private.txt' }]\nnetwork = [{ scope = 'any' }]\n[[files]]\nsource = 'config.toml'\n",
    );
    let codes = report
        .diagnostics
        .iter()
        .map(|diagnostic| diagnostic.code.as_str())
        .collect::<Vec<_>>();

    assert!(report.valid, "{:?}", report.diagnostics);
    assert!(!report.clean);
    assert!(codes.contains(&"broad_network_permission"));
    assert!(codes.contains(&"missing_category_description"));
    assert!(codes.contains(&"missing_resource_description"));
    assert!(codes.contains(&"private_absolute_path"));
}

#[test]
fn a_finding_of_three_platforms_is_reported_once() {
    let report = lint_app_preset(
        "description = 'Demo'\ndest = '~/.config/demo'\n[[files]]\nsource = 'config.toml'\n",
    );
    assert_eq!(report.diagnostics.len(), 1);
    assert_eq!(report.summary.warnings, 1);
    assert_eq!(report.summary.categories, 1);
    assert_eq!(report.diagnostics[0].resource.as_deref(), Some("config.toml"));
}

#[test]
fn private_paths_are_those_of_one_machine() {
    assert!(private_absolute_path("/Users/alice"));
    assert!(private_absolute_path("\\home\\alice"));
    assert!(private_absolute_path("C:\\USERS\\alice"));
    assert!(!private_absolute_path("/Users"));
    assert!(!private_absolute_path("~/x"));
    assert!(!private_absolute_path("/etc/home/"));
    let report = lint_app_preset(
        "description = 'Demo'\ndest = '~/x'\n[[files]]\nsource = 'config.toml'\ndescription = 'x'\ndest = '/home/alice'\n",
    );
    assert!(report.diagnostics.iter().any(|item| item.code == "lint_metadata_unavailable"));
    assert!(!report.valid);
    let both = report.diagnostics.iter().any(|item| item.code == "private_absolute_path");
    assert!(both);
}

#[test]
fn a_platform_map_is_linted_where_each_platform_has_a_place() {
    let mut metadata = read_category("dest = 'x'\ndescription = 'Demo'\n");
    metadata.dest = DestToml::Platforms(PlatformDestToml {
        macos: None,
        linux: None,
        windows: Some("C:\\Users\\alice".to_string()),
        unix: Some("/home/alice".to_string()),
    });
    let presets = PresetSnapshot::builder(PresetSourceKind::External)
        .file("app/demo/shine.toml", Vec::new())
        .metadata("app/demo/shine.toml", metadata)
        .file("app/demo/config", Vec::new())
        .build();
    let report = lint_scope(&presets, &vec![LintCategory::App { name: "demo".to_string() }]);
    let codes: Vec<&str> = report.diagnostics.iter().map(|item| item.code.as_str()).collect();
    assert_eq!(codes, vec!["missing_resource_description", "private_absolute_path"]);
}

fn broad() -> Option<PermissionDeclarationV1> {
    Some(PermissionDeclarationV1 {
        schema_version: 1,
        network: vec![NetworkDeclarationV1 { scope: DeclaredNetworkScopeV1::Any }],
        filesystem: Vec::new(),
    })
}

#[test]
fn shell_commands_are_linted_one_by_one() {
    let category = ShellCategory {
        name: "proxy".to_string(),
        description: Some(String::new()),
        uses_metadata: false,
        files: vec![ShellFile {
            command_name: "setproxy".to_string(),
            description: String::new(),
            permissions: broad(),
        }],
    };
    let findings = lint_shell(&category, "proxy");
    let codes: Vec<&str> = findings.iter().map(|item| item.code.as_str()).collect();
    assert_eq!(
        codes,
        vec![
            "legacy_metadata",
            "missing_category_description",
            "missing_resource_description",
            "broad_network_permission",
        ]
    );
    assert_eq!(findings[3].target.as_deref(), Some("shell/proxy/setproxy"));
    assert_eq!(findings[3].resource.as_deref(), Some("setproxy"));
}

#[test]
fn system_items_are_linted_one_by_one() {
    let preset = SysLintPreset {
        description: " ".to_string(),
        items: vec![SysLintItem {
            id: "dns".to_string(),
            description: "\t".to_string(),
            permissions: broad(),
        }],
    };
    let findings = lint_sys(&preset, "ubuntu");
    let targets: Vec<Option<&str>> =
        findings.iter().map(|item| item.target.as_deref()).collect();
    assert_eq!(targets, vec![Some("sys/ubuntu"), Some("sys/dns"), Some("sys/dns")]);
}

#[test]
fn what_cannot_be_loaded_is_an_error() {
    let presets = PresetSnapshot::builder(PresetSourceKind::External).build();
    let report = lint_scope(
        &presets,
        &vec![
            LintCategory::Sys { name: "ubuntu".to_string(), preset: None },
            LintCategory::Shell { name: "proxy".to_string(), on_platforms: vec![None, None] },
        ],
    );
    assert_eq!(report.summary.errors, 2);
    assert_eq!(report.diagnostics[0].target.as_deref(), Some("shell/proxy"));
    let unloaded = lint_unloaded("preset_missing");
    assert_eq!(unloaded.summary.categories, 0);
    assert_eq!(unloaded.diagnostics[0].code, "preset_missing");
    assert!(!unloaded.valid && !unloaded.clean);
}

#[test]
fn failed_validation_is_all_that_is_reported() {
    let diagnostic = |severity, code: &str| PresetDiagnostic {
        severity,
        code: code.to_string(),
        message: "message".to_string(),
        path: Some("/repo".to_string()),
    };
    let validation = PresetValidation {
        valid: false,
        diagnostics: vec![diagnostic(PresetDiagnosticSeverity::Error, "b")],
        categories: vec![PresetCategoryValidation {
            kind: PresetKind::App,
            name: "demo".to_string(),
            diagnostics: vec![
                diagnostic(PresetDiagnosticSeverity::Warning, "c"),
                diagnostic(PresetDiagnosticSeverity::Error, "a"),
            ],
        }],
    };
    let report = lint_invalid(1, &validation);
    let codes: Vec<&str> = report.diagnostics.iter().map(|item| item.code.as_str()).collect();
    assert_eq!(codes, vec!["a", "b"]);
    assert_eq!(report.diagnostics[0].target.as_deref(), Some("app/demo"));
    assert!(report.diagnostics[1].target.is_none());
}

#[test]
fn a_report_is_in_order_and_has_nothing_twice() {
    let make = |code: &str, resource: Option<&str>| {
        warning(code, "app/demo", resource.map(str::to_string), "message")
    };
    let mut error = make("z", None);
    error.severity = PresetLintSeverity::Error;
    let report = finish(
        2,
        vec![make("b", Some("")), make("a", None), make("b", None), make("a", None), error],
    );
    let keys: Vec<(&str, Option<&str>)> = report
        .diagnostics
        .iter()
        .map(|item| (item.code.as_str(), item.resource.as_deref()))
        .collect();
    assert_eq!(keys, vec![("z", None), ("a", None), ("b", None), ("b", Some(""))]);
    assert_eq!((report.summary.errors, report.summary.warnings), (1, 3));
    assert!(!report.valid);
    let clean = finish(0, Vec::new());
    assert!(clean.valid && clean.clean);
}
